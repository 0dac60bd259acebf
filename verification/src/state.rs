//! The run-or-quit signal.  A value of `State<S, Q>` either carries a
//! continuation state `S` or announces a normal termination with a payload
//! `Q`.  Quitting is an expected outcome, never an error: once a `Quit` is
//! observed, the combinators below pass it through untouched.

use vstd::prelude::*;

verus! {

/// A quit payload that the library never produces: it has no public
/// constructor, so a caller holding `State<S, Never>` knows the signal is
/// `Running` whenever the caller itself never built a `Quit`.
pub struct Never {
    no_value: (),
}

#[derive(Debug)]
pub enum State<S, Q> {
    Running(S),
    Quit(Q),
}

impl<S> State<S, Never> {
    /// Extracts the running state.
    pub fn get(self) -> (r: S)
        requires
            self is Running,
        ensures
            self == State::<S, Never>::Running(r),
    {
        match self {
            State::Running(s) => s,
            State::Quit(_) => vstd::pervasive::unreached(),
        }
    }
}

impl<S, Q> State<S, Q> {
    /// Applies `f` to a running state; passes a quit through.
    pub fn flat_map<T, F: FnOnce(S) -> State<T, Q>>(self, f: F) -> (r: State<T, Q>)
        requires
            forall|s: S| self == State::<S, Q>::Running(s) ==> call_requires(f, (s,)),
        ensures
            self matches State::Running(s) ==> call_ensures(f, (s,), r),
            self matches State::Quit(q) ==> r == State::<T, Q>::Quit(q),
    {
        match self {
            State::Quit(q) => State::Quit(q),
            State::Running(s) => f(s),
        }
    }

    /// Maps a running state; passes a quit through.
    pub fn map<T, F: FnOnce(S) -> T>(self, f: F) -> (r: State<T, Q>)
        requires
            forall|s: S| self == State::<S, Q>::Running(s) ==> call_requires(f, (s,)),
        ensures
            self matches State::Running(s) ==> (r matches State::Running(t) && call_ensures(
                f,
                (s,),
                t,
            )),
            self matches State::Quit(q) ==> r == State::<T, Q>::Quit(q),
    {
        match self {
            State::Quit(q) => State::Quit(q),
            State::Running(s) => State::Running(f(s)),
        }
    }

    /// Maps a quit payload; passes a running state through.
    pub fn map_quit<T, F: FnOnce(Q) -> T>(self, f: F) -> (r: State<S, T>)
        requires
            forall|q: Q| self == State::<S, Q>::Quit(q) ==> call_requires(f, (q,)),
        ensures
            self matches State::Quit(q) ==> (r matches State::Quit(t) && call_ensures(
                f,
                (q,),
                t,
            )),
            self matches State::Running(s) ==> r == State::<S, T>::Running(s),
    {
        match self {
            State::Quit(q) => State::Quit(f(q)),
            State::Running(s) => State::Running(s),
        }
    }

    /// Applies `f` to a quit payload; passes a running state through.
    pub fn flat_map_quit<T, F: FnOnce(Q) -> State<S, T>>(self, f: F) -> (r: State<S, T>)
        requires
            forall|q: Q| self == State::<S, Q>::Quit(q) ==> call_requires(f, (q,)),
        ensures
            self matches State::Quit(q) ==> call_ensures(f, (q,), r),
            self matches State::Running(s) ==> r == State::<S, T>::Running(s),
    {
        match self {
            State::Quit(q) => f(q),
            State::Running(s) => State::Running(s),
        }
    }

    /// Collapses the signal into a state, turning a quit payload into a
    /// state with `f`.
    pub fn catch_quit<F: FnOnce(Q) -> S>(self, f: F) -> (r: S)
        requires
            forall|q: Q| self == State::<S, Q>::Quit(q) ==> call_requires(f, (q,)),
        ensures
            self matches State::Quit(q) ==> call_ensures(f, (q,), r),
            self matches State::Running(s) ==> r == s,
    {
        match self {
            State::Quit(q) => f(q),
            State::Running(s) => s,
        }
    }
}

impl<S, Q, E> State<Result<S, E>, Q> {
    /// Swaps the signal with a fallible result: an error inside a running
    /// state surfaces as the error of the whole value.
    pub fn transpose(self) -> (r: Result<State<S, Q>, E>)
        ensures
            self matches State::Quit(q) ==> r == Ok::<State<S, Q>, E>(State::<S, Q>::Quit(q)),
            self matches State::Running(res) ==> ((res matches Ok(s) ==> r == Ok::<
                State<S, Q>,
                E,
            >(State::<S, Q>::Running(s))) && (res matches Err(e) ==> r == Err::<
                State<S, Q>,
                E,
            >(e))),
    {
        match self {
            State::Quit(q) => Ok(State::Quit(q)),
            State::Running(Err(e)) => Err(e),
            State::Running(Ok(s)) => Ok(State::Running(s)),
        }
    }
}

} // verus!
