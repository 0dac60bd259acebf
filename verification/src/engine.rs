//! The engine: the outer frame driver around the fixed-timestep
//! scheduler.  A `World` is the simulation the host plugs in; an `App`
//! adapts the world, the input manager and the clock to the scheduler's
//! `Runner` seam; the `Engine` owns the backends and advances one frame
//! at a time.

pub mod step;

pub use self::step::FixedUpdate;

use crate::duration::Duration;
use crate::input;
use crate::renderer::{Canvas, CanvasOp, Show};
use crate::state::State;
use crate::timer::{GameTime, Timer};
use crate::Error;
use vstd::prelude::*;

verus! {

/// The simulation state a host plugs into the engine.  `update` applies
/// exactly one fixed step and may ask to quit; `tick` observes the
/// wall-clock pacing once per rendered frame.
pub trait World: Sized {
    type Quit;

    fn update(self, input: &input::State, elapsed: Duration) -> State<Self, Self::Quit>;

    /// Observes one wall-clock tick; by default nothing happens.
    fn tick(self, time: &GameTime) -> Self {
        self
    }
}

/// Renderable assets that can derive their next frame from the world and
/// the scheduler's step state, reusing their own resources.
pub trait NextScene<W, S, H>: Sized {
    fn next(self, world: &W, step: &S, helpers: &mut H) -> Result<Self, Error>;
}

/// The adapter that lets a `World`, an input manager and the clock stand
/// behind the scheduler's `Runner` seam.  The call account the seam asks
/// for is kept in ghost fields; nothing of it exists at run time.
pub struct App<E, H> {
    pub input_manager: input::Manager<E>,
    pub helpers: H,
    pub timer: Timer,
    pub ticks_seen: Ghost<nat>,
    pub update_calls_seen: Ghost<nat>,
    pub updates_seen: Ghost<Seq<Duration>>,
    pub advances_seen: Ghost<nat>,
}

impl<E, H> App<E, H> {
    pub fn new(helpers: H, input_manager: input::Manager<E>) -> (r: App<E, H>)
        ensures
            r.helpers == helpers,
            r.input_manager == input_manager,
            r.timer.spec_total()@ == 0,
            r.ticks_seen@ == 0,
            r.update_calls_seen@ == 0,
            r.updates_seen@ == Seq::<Duration>::empty(),
            r.advances_seen@ == 0,
    {
        App {
            input_manager,
            helpers,
            timer: Timer::new(),
            ticks_seen: Ghost(0),
            update_calls_seen: Ghost(0),
            updates_seen: Ghost(Seq::empty()),
            advances_seen: Ghost(0),
        }
    }
}

impl<W, A, S, E, H> step::Runner<W, A, S> for App<E, H> where
    W: World<Quit = ()>,
    A: NextScene<W, S, H>,
    E: input::EventPump,
 {
    closed spec fn ticks(&self) -> nat {
        self.ticks_seen@
    }

    closed spec fn update_calls(&self) -> nat {
        self.update_calls_seen@
    }

    closed spec fn updates(&self) -> Seq<Duration> {
        self.updates_seen@
    }

    closed spec fn advances(&self) -> nat {
        self.advances_seen@
    }

    /// Lets the world observe the tick.
    fn tick(&mut self, world: W, time: &GameTime) -> W {
        self.ticks_seen = Ghost(self.ticks_seen@ + 1);
        world.tick(time)
    }

    /// Polls input; a quit request from the input abandons the update,
    /// otherwise the world applies one fixed step against the fresh input
    /// state.
    fn update(&mut self, world: W, elapsed: Duration) -> State<W, ()> {
        self.update_calls_seen = Ghost(self.update_calls_seen@ + 1);
        match self.input_manager.update() {
            State::Quit(q) => State::Quit(q),
            State::Running(_) => {
                match world.update(&self.input_manager.current, elapsed) {
                    State::Quit(q) => State::Quit(q),
                    State::Running(next) => {
                        self.updates_seen = Ghost(self.updates_seen@.push(elapsed));
                        State::Running(next)
                    },
                }
            },
        }
    }

    /// Derives the next assets from the world and the step state.
    fn advance(&mut self, assets: A, world: &W, step: &S) -> Result<A, Error> {
        match assets.next(world, step, &mut self.helpers) {
            Err(e) => Err(e),
            Ok(next) => {
                self.advances_seen = Ghost(self.advances_seen@ + 1);
                Ok(next)
            },
        }
    }

    /// Queries the clock.
    fn time(&mut self) -> GameTime {
        self.timer.update()
    }
}

/// The frame driver: owns the canvas and the scheduler configuration.
/// The input backend lives in the `App`, which hands it to the scheduler
/// as part of the `Runner` seam.
pub struct Engine<C> {
    pub canvas: C,
    pub step: FixedUpdate,
}

impl<C> Engine<C> where C: Canvas {
    pub fn new(canvas: C, step: FixedUpdate) -> (r: Engine<C>)
        ensures
            r.step == step,
    {
        Engine { canvas, step }
    }

    /// Advances and renders one frame: queries the clock, runs the advance
    /// algorithm, and on a running outcome executes the backend's
    /// clear-show-present sequence.  A quit outcome or an error is handed
    /// back for the caller's loop to act on.
    ///
    /// The contract passes the scheduler's outcome through, with the
    /// queried time existentially quantified: a quit stays a quit and
    /// touches the canvas not at all; a running outcome carries the
    /// advanced snapshot and crossed exactly one clear and one present,
    /// in that order; an error either came from the advance, with the
    /// canvas untouched, or from a failed show after the clear — and then
    /// no present follows for that frame.
    pub fn run_frame<W, A, E, H>(
        &mut self,
        snapshot: step::Snapshot<W, A, step::fixed::State>,
        app: &mut App<E, H>,
    ) -> (r: Result<State<step::Snapshot<W, A, step::fixed::State>, ()>, Error>) where
        W: World<Quit = ()>,
        A: Show<C> + NextScene<W, step::fixed::State, H>,
        E: input::EventPump,

        requires
            old(self).step.wf(),
        ensures
            final(self).step == old(self).step,
            final(app).ticks_seen@ == old(app).ticks_seen@ + 1,
            r matches Ok(outcome) ==> (outcome matches State::Running(next) ==> {
                &&& next.step_state.leftover@ < old(self).step.step@
                &&& exists|t: GameTime|
                    old(self).step.advance_post(
                        snapshot,
                        t,
                        *old(app),
                        *final(app),
                        Ok::<State<step::Snapshot<W, A, step::fixed::State>, ()>, Error>(
                            State::Running(next),
                        ),
                    )
                &&& final(self).canvas.ops() == old(self).canvas.ops() + seq![
                    CanvasOp::Clear,
                    CanvasOp::Present,
                ]
            }),
            r matches Ok(outcome) ==> (outcome is Quit ==> {
                &&& exists|t: GameTime|
                    old(self).step.advance_post(
                        snapshot,
                        t,
                        *old(app),
                        *final(app),
                        Ok::<State<step::Snapshot<W, A, step::fixed::State>, ()>, Error>(
                            State::Quit(()),
                        ),
                    )
                &&& final(self).canvas.ops() == old(self).canvas.ops()
            }),
            r matches Err(e) ==> ({
                ||| {
                    &&& exists|t: GameTime|
                        old(self).step.advance_post(
                            snapshot,
                            t,
                            *old(app),
                            *final(app),
                            Err::<State<step::Snapshot<W, A, step::fixed::State>, ()>, Error>(e),
                        )
                    &&& final(self).canvas.ops() == old(self).canvas.ops()
                }
                ||| {
                    &&& exists|t: GameTime, next: step::Snapshot<W, A, step::fixed::State>|
                        old(self).step.advance_post(
                            snapshot,
                            t,
                            *old(app),
                            *final(app),
                            Ok::<State<step::Snapshot<W, A, step::fixed::State>, ()>, Error>(
                                State::Running(next),
                            ),
                        )
                    &&& final(self).canvas.ops() == old(self).canvas.ops().push(CanvasOp::Clear)
                }
            }),
    {
        let time = app.timer.update();
        let ghost mid: App<E, H> = *app;
        let sched = self.step.advance(snapshot, time, app);
        proof {
            step::fixed::lemma_advance_post_same_account(
                self.step,
                snapshot,
                time,
                mid,
                *old(app),
                *app,
                sched,
            );
        }
        match sched {
            Err(e) => Err(e),
            Ok(State::Quit(q)) => Ok(State::Quit(q)),
            Ok(State::Running(next)) => {
                self.canvas.clear();
                match self.canvas.show(&next.assets) {
                    Err(e) => Err(e),
                    Ok(_) => {
                        self.canvas.present();
                        proof {
                            assert(self.canvas.ops() =~= old(self).canvas.ops() + seq![
                                CanvasOp::Clear,
                                CanvasOp::Present,
                            ]);
                        }
                        Ok(State::Running(next))
                    },
                }
            },
        }
    }
}

} // verus!
