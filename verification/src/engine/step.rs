//! The seam between the scheduler and its host.  A `Runner` is what the
//! host implements: it applies one fixed update to the world, lets the
//! world observe a wall-clock tick, converts state into renderable
//! assets, and queries the clock.  A `Snapshot` is everything the
//! scheduler threads from one frame to the next.

pub mod fixed;

pub use self::fixed::FixedUpdate;

use crate::duration::Duration;
use crate::state::State;
use crate::timer::GameTime;
use crate::Error;
use vstd::prelude::*;

verus! {

/// The host of the scheduler.  The library proves nothing about what
/// these methods decide — an update may ask to quit, an advance may fail,
/// and the clock returns what it returns — but each implementor keeps a
/// ghost account of the calls made on it: how many ticks the world
/// observed, how many times an update was asked for, the elapsed time of
/// every update that was applied, and how many times assets were
/// derived.  The scheduler's contract is stated over that account, so
/// that "one tick per frame", "one update per full step", "a quit cuts
/// the catch-up short" and "no assets on a quit" are theorems, whatever
/// the host does.
pub trait Runner<W, A, S> {
    /// How many wall-clock ticks the world has observed through this
    /// runner.  The defaults here satisfy no method contract below: an
    /// implementor overrides them with its own account.
    open spec fn ticks(&self) -> nat {
        0
    }

    /// How many times `update` was called, whatever it answered.
    open spec fn update_calls(&self) -> nat {
        0
    }

    /// The elapsed time of every fixed update applied so far, oldest
    /// first.  An update that asked to quit applied nothing and is not
    /// recorded here, though `update_calls` still counts it.
    open spec fn updates(&self) -> Seq<Duration> {
        Seq::empty()
    }

    /// How many times assets were derived (successfully) so far.
    open spec fn advances(&self) -> nat {
        0
    }

    /// Lets the world observe one wall-clock tick; called once per frame.
    fn tick(&mut self, world: W, time: &GameTime) -> (out: W)
        ensures
            final(self).ticks() == old(self).ticks() + 1,
            final(self).update_calls() == old(self).update_calls(),
            final(self).updates() == old(self).updates(),
            final(self).advances() == old(self).advances(),
    ;

    /// Applies exactly one fixed step of simulated time, or asks to quit.
    fn update(&mut self, world: W, elapsed: Duration) -> (r: State<W, ()>)
        ensures
            final(self).ticks() == old(self).ticks(),
            final(self).update_calls() == old(self).update_calls() + 1,
            final(self).advances() == old(self).advances(),
            r is Running ==> final(self).updates() == old(self).updates().push(elapsed),
            r is Quit ==> final(self).updates() == old(self).updates(),
    ;

    /// Converts the previous assets, the current world and the step state
    /// into the assets to render; a failure aborts the frame.
    fn advance(&mut self, assets: A, world: &W, step: &S) -> (r: Result<A, Error>)
        ensures
            final(self).ticks() == old(self).ticks(),
            final(self).update_calls() == old(self).update_calls(),
            final(self).updates() == old(self).updates(),
            r is Ok ==> final(self).advances() == old(self).advances() + 1,
            r is Err ==> final(self).advances() == old(self).advances(),
    ;

    /// Queries the clock.
    fn time(&mut self) -> (t: GameTime)
        ensures
            final(self).ticks() == old(self).ticks(),
            final(self).update_calls() == old(self).update_calls(),
            final(self).updates() == old(self).updates(),
            final(self).advances() == old(self).advances(),
    ;
}

/// Everything one frame hands to the next: the world, the renderable
/// assets derived from it, and the scheduler's own carry-over state.
#[derive(Clone, Debug)]
pub struct Snapshot<W, A, S> {
    pub world: W,
    pub assets: A,
    pub step_state: S,
}

impl<W, A> Snapshot<W, A, fixed::State> {
    /// The first snapshot: no simulated time is pending yet and the
    /// interpolation fraction is zero.
    pub fn new(world: W, assets: A) -> (r: Snapshot<W, A, fixed::State>)
        ensures
            r.world == world,
            r.assets == assets,
            r.step_state.leftover@ == 0,
            r.step_state.interpolation == (fixed::Interpolation { numer: 0, denom: 1 }),
    {
        Snapshot { world, assets, step_state: fixed::State::default() }
    }
}

} // verus!
