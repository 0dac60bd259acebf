//! Input polling.  An `EventPump` is the backend's raw event source; the
//! `Manager` drains it once per update and folds the events into the
//! current input state.

pub mod state;

pub use self::state::{Event, State};

use crate::state::State as AppState;
use vstd::prelude::*;

verus! {

/// A non-blocking source of raw events; `None` means the queue is empty.
pub trait EventPump {
    fn poll_event(&mut self) -> Option<Event>;
}

/// Owns the input state and the event source feeding it.
pub struct Manager<P> {
    pub current: State,
    pub event_pump: P,
}

impl<P: EventPump> Manager<P> {
    pub fn new(event_pump: P) -> (r: Manager<P>)
        ensures
            r.current.model() == State::empty_model(),
    {
        Manager { current: State::default(), event_pump }
    }

    /// Drains the event source and folds the drained events into the
    /// current state.  Which events arrive is the backend's business, so
    /// the contract says only that the new state comes from folding some
    /// event sequence, and that a quit is reported exactly when that
    /// sequence asks for one.
    #[verifier::loop_isolation(false)]
    pub fn update(&mut self) -> (r: AppState<(), ()>)
        ensures
            exists|evs: Seq<Event>|
                {
                    &&& final(self).current.model() == state::apply_events(
                        state::roll_prev(old(self).current.model()),
                        #[trigger] state::processed_prefix(evs),
                    )
                    &&& (r is Quit <==> state::sees_quit(evs))
                },
    {
        let mut events: Vec<Event> = Vec::new();
        let mut drained: u32 = 0;
        // The pump owes no bound on its queue; a frame drains at most
        // `u32::MAX` events so that the drain provably ends.
        while drained < u32::MAX
            invariant
                self.current == old(self).current,
            decreases u32::MAX - drained,
        {
            match self.event_pump.poll_event() {
                Some(event) => {
                    events.push(event);
                },
                None => {
                    break ;
                },
            }
            drained = drained + 1;
        }
        let r = self.current.update(&events);
        proof {
            assert(self.current.model() == state::apply_events(
                state::roll_prev(old(self).current.model()),
                state::processed_prefix(events@),
            ));
        }
        match r {
            AppState::Quit(q) => AppState::Quit(q),
            AppState::Running(_) => AppState::Running(()),
        }
    }
}

} // verus!
