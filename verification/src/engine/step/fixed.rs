//! The fixed-timestep advance algorithm.  Per frame it lets the world
//! observe the wall-clock tick, folds the frame's elapsed time into the
//! accumulator of unspent simulated time, applies one fixed update per
//! full step in the accumulator up to the frame-skip cap, drops whole
//! steps of backlog past the cap, and derives the interpolation fraction
//! from what remains.

use crate::duration::{max_duration_nanos, Duration, NANOS_PER_SEC};
use crate::engine::step::{Runner, Snapshot};
use crate::state::State as AppState;
use crate::timer::GameTime;
use crate::Error;
use vstd::arithmetic::div_mod::{
    lemma_basic_div, lemma_div_is_ordered, lemma_div_multiples_vanish,
    lemma_fundamental_div_mod_converse_div, lemma_fundamental_div_mod_converse_mod,
    lemma_mod_bound, lemma_mod_multiples_basic, lemma_mod_multiples_vanish, lemma_small_mod,
};
use vstd::prelude::*;

verus! {

broadcast use crate::duration::lemma_duration_nonneg;

/// The interpolation fraction as an exact rational: how far the current
/// frame falls into the fixed step that has not been applied yet, as the
/// sub-second nanoseconds of the leftover over those of the step.  With a
/// sub-second step the fraction lies in `[0, 1)`.
#[derive(Debug, Clone, Copy, PartialEq, Eq, Structural)]
pub struct Interpolation {
    pub numer: u32,
    pub denom: u32,
}

/// What the scheduler carries from one frame to the next: the unspent
/// simulated time, and the interpolation fraction derived from it.
#[derive(Debug, Clone, Copy, PartialEq, Eq, Structural)]
pub struct State {
    pub leftover: Duration,
    pub interpolation: Interpolation,
}

impl Default for State {
    /// No unspent time, a fraction of zero.
    fn default() -> (r: State)
        ensures
            r.leftover@ == 0,
            r.interpolation == (Interpolation { numer: 0, denom: 1 }),
    {
        State { leftover: Duration::default(), interpolation: Interpolation { numer: 0, denom: 1 } }
    }
}

/// The scheduler configuration: the fixed step, and the cap on catch-up
/// updates per frame.  Set once; immutable afterwards.
#[derive(Debug, Clone, Copy, PartialEq, Eq, Structural)]
pub struct FixedUpdate {
    pub step: Duration,
    pub max_skip: u32,
}

impl Default for FixedUpdate {
    /// Sixty updates per second, at most ten catch-up updates per frame.
    fn default() -> (r: FixedUpdate)
        ensures
            r.step@ == 1_000_000_000int / 60,
            r.max_skip == 10,
    {
        FixedUpdate { step: Duration::new(0, NANOS_PER_SEC / 60), max_skip: 10 }
    }
}

impl FixedUpdate {
    /// The step is a real span of time.
    pub open spec fn wf(self) -> bool {
        0 < self.step@
    }

    /// Reconfigures to `rate` updates per second.
    pub fn rate(self, rate: u32) -> (r: FixedUpdate)
        requires
            0 < rate <= 1_000_000_000,
        ensures
            r.step@ == 1_000_000_000int / rate as int,
            r.max_skip == self.max_skip,
            r.wf(),
    {
        let step = Duration::new(0, NANOS_PER_SEC / rate);
        proof {
            vstd::arithmetic::div_mod::lemma_div_non_zero(1_000_000_000int, rate as int);
        }
        FixedUpdate { step, max_skip: self.max_skip }
    }

    /// Reconfigures the cap on catch-up updates per frame.
    pub fn max_skip(self, max_skip: u32) -> (r: FixedUpdate)
        ensures
            r.step == self.step,
            r.max_skip == max_skip,
    {
        FixedUpdate { step: self.step, max_skip }
    }

    /// The simulated time available to one frame: the accumulator plus the
    /// frame's elapsed wall time, held to the representable range.
    pub open spec fn spec_total(self, leftover: Duration, since_update: Duration) -> int {
        if leftover@ + since_update@ <= max_duration_nanos() {
            leftover@ + since_update@
        } else {
            max_duration_nanos()
        }
    }

    /// How many fixed updates the frame applies (unless an update quits
    /// first): one per full step available, but never more than
    /// `max_skip + 1`, since the cap is checked before each iteration and
    /// a count of zero passes a cap of zero.
    pub open spec fn spec_updates(self, leftover: Duration, since_update: Duration) -> int {
        let needed = self.spec_total(leftover, since_update) / self.step@;
        if needed <= self.max_skip + 1 {
            needed
        } else {
            self.max_skip + 1
        }
    }

    /// The unspent simulated time carried to the next frame: what remains
    /// of the total after whole steps are taken out, whether applied as
    /// updates or dropped by the cap.  Always below one step.
    pub open spec fn spec_leftover(self, leftover: Duration, since_update: Duration) -> int {
        self.spec_total(leftover, since_update) % self.step@
    }

    /// `n` copies of the fixed step: what the runner's update log grows
    /// by when a frame applies `n` updates.
    pub open spec fn steps_of(self, n: int) -> Seq<Duration> {
        Seq::new(n as nat, |i: int| self.step)
    }

    /// Everything `advance` promises for a frame of time `time`, stated
    /// over the runner's call account before and after the call.
    ///
    /// Whatever the outcome, the world observed the tick exactly once.
    /// A running outcome applied exactly `spec_updates` updates, each of
    /// exactly one fixed step, derived assets exactly once, and carries
    /// the accumulator `spec_leftover` (below one step) with the exact
    /// interpolation rational.  A quit outcome is possible only because
    /// an update answered quit: strictly fewer than the owed updates were
    /// applied, the quitting call itself is counted, and no assets were
    /// derived.  An error outcome applied the full catch-up and then
    /// failed to derive assets, so no snapshot came of the frame.
    pub open spec fn advance_post<W, A, R: Runner<W, A, State>>(
        self,
        snapshot: Snapshot<W, A, State>,
        time: GameTime,
        runner_pre: R,
        runner_post: R,
        r: Result<AppState<Snapshot<W, A, State>, ()>, Error>,
    ) -> bool {
        let n = self.spec_updates(snapshot.step_state.leftover, time.since_update);
        let leftover_after = self.spec_leftover(snapshot.step_state.leftover, time.since_update);
        &&& runner_post.ticks() == runner_pre.ticks() + 1
        &&& (r matches Ok(outcome) ==> {
            &&& (outcome matches AppState::Running(next) ==> {
                &&& next.step_state.leftover@ == leftover_after
                &&& next.step_state.leftover@ < self.step@
                &&& next.step_state.interpolation == (Interpolation {
                    numer: (leftover_after % (NANOS_PER_SEC as int)) as u32,
                    denom: (self.step@ % (NANOS_PER_SEC as int)) as u32,
                })
                &&& (self.step@ < NANOS_PER_SEC ==> next.step_state.interpolation.numer
                    < next.step_state.interpolation.denom)
                &&& runner_post.updates() == runner_pre.updates() + self.steps_of(n)
                &&& runner_post.update_calls() == runner_pre.update_calls() + n
                &&& runner_post.advances() == runner_pre.advances() + 1
            })
            &&& (outcome is Quit ==> {
                &&& runner_post.advances() == runner_pre.advances()
                &&& exists|k: int|
                    0 <= k < n && runner_post.updates() == runner_pre.updates() + self.steps_of(k)
                        && runner_post.update_calls() == runner_pre.update_calls() + k + 1
            })
        })
        &&& (r is Err ==> runner_post.updates() == runner_pre.updates() + self.steps_of(n)
            && runner_post.update_calls() == runner_pre.update_calls() + n
            && runner_post.advances() == runner_pre.advances())
    }

    /// One scheduler step driven by the runner's own clock: queries
    /// `runner.time()` and hands the result to the advance algorithm.
    /// The clock's answer cannot be named, so the contract quantifies it
    /// away: everything `advance` promises holds of some frame time, and
    /// the accumulator bound holds of a running outcome outright.
    pub fn step<W, A, R: Runner<W, A, State>>(
        &self,
        snapshot: Snapshot<W, A, State>,
        runner: &mut R,
    ) -> (r: Result<AppState<Snapshot<W, A, State>, ()>, Error>)
        requires
            self.wf(),
        ensures
            r matches Ok(outcome) ==> (outcome matches AppState::Running(next)
                ==> next.step_state.leftover@ < self.step@),
            exists|t: GameTime|
                self.advance_post(snapshot, t, *old(runner), *final(runner), r),
    {
        let time = runner.time();
        let ghost mid: R = *runner;
        let r = self.advance(snapshot, time, runner);
        proof {
            lemma_advance_post_same_account(*self, snapshot, time, mid, *old(runner), *runner, r);
        }
        r
    }

    /// The advance algorithm for one frame.
    ///
    /// The world observes the tick exactly once, first.  Then one fixed
    /// update is applied per full step of accumulated time, at most
    /// `max_skip + 1` of them; a quit from an update abandons the rest of
    /// the frame, and no assets are derived.  Backlog past the cap is
    /// dropped, trading temporal accuracy for liveness.  `advance_post`
    /// states all of it over the runner's call account.
    #[verifier::loop_isolation(false)]
    pub fn advance<W, A, R: Runner<W, A, State>>(
        &self,
        snapshot: Snapshot<W, A, State>,
        time: GameTime,
        runner: &mut R,
    ) -> (r: Result<AppState<Snapshot<W, A, State>, ()>, Error>)
        requires
            self.wf(),
        ensures
            self.advance_post(snapshot, time, *old(runner), *final(runner), r),
    {
        let world_ticked = runner.tick(snapshot.world, &time);
        let mut leftover = match snapshot.step_state.leftover.checked_add(time.since_update) {
            Some(sum) => sum,
            // A backlog past the representable range is treated as the
            // largest representable one; the frame-skip cap drops the
            // excess either way.
            None => Duration::max_value(),
        };
        let ghost l_total: int = self.spec_total(snapshot.step_state.leftover, time.since_update);
        let ghost needed: int = l_total / self.step@;
        let mut current: AppState<W, ()> = AppState::Running(world_ticked);
        let mut loops: u64 = 0;
        proof {
            lemma_div_nonneg_total(l_total, self.step@);
            assert(runner.updates() + self.steps_of(0) =~= runner.updates());
        }
        while leftover.ge(&self.step) && loops <= self.max_skip as u64
            invariant
                leftover@ == l_total - loops * self.step@,
                0 <= loops,
                loops <= needed,
                loops <= self.max_skip + 1,
                runner.ticks() == old(runner).ticks() + 1,
                runner.advances() == old(runner).advances(),
                current is Running ==> runner.updates() == old(runner).updates() + self.steps_of(
                    loops as int,
                ) && runner.update_calls() == old(runner).update_calls() + loops,
                current is Quit ==> exists|k: int|
                    0 <= k < loops && runner.updates() == old(runner).updates() + self.steps_of(k)
                        && runner.update_calls() == old(runner).update_calls() + k + 1,
            decreases leftover@,
        {
            proof {
                assert((loops + 1) * self.step@ == loops * self.step@ + self.step@)
                    by (nonlinear_arith);
                lemma_loop_count_bound(l_total, self.step@, loops + 1, leftover@ - self.step@);
            }
            let ghost was_running: bool = current is Running;
            let ghost loops_before: u64 = loops;
            current = match current {
                AppState::Running(world) => runner.update(world, self.step),
                AppState::Quit(q) => AppState::Quit(q),
            };
            leftover = leftover.sub(self.step);
            loops = loops + 1;
            proof {
                if current is Running {
                    assert(runner.updates() =~= old(runner).updates() + self.steps_of(
                        loops as int,
                    ));
                } else if was_running {
                    // The update just answered quit: the log kept its
                    // `loops_before` steps and the quitting call counts.
                    assert(0 <= loops_before as int && (loops_before as int) < loops);
                } else {
                    let k = choose|k: int|
                        0 <= k < loops_before && runner.updates() == old(runner).updates()
                            + self.steps_of(k) && runner.update_calls() == old(
                            runner,
                        ).update_calls() + k + 1;
                    assert(0 <= k < loops);
                }
            }
        }
        proof {
            if leftover@ < self.step@ {
                lemma_fundamental_div_mod_converse_div(
                    l_total,
                    self.step@,
                    loops as int,
                    leftover@,
                );
            } else {
                assert((loops + 1) * self.step@ == loops * self.step@ + self.step@)
                    by (nonlinear_arith);
                lemma_loop_count_bound(l_total, self.step@, loops + 1, leftover@ - self.step@);
            }
            assert(self.spec_updates(snapshot.step_state.leftover, time.since_update)
                == loops as int);
        }
        if leftover.ge(&self.step) {
            proof {
                lemma_mod_multiples_vanish(loops as int, leftover@, self.step@);
                assert(self.step@ * (loops as int) == (loops as int) * self.step@)
                    by (nonlinear_arith);
            }
            leftover = leftover.rem(self.step);
        } else {
            proof {
                lemma_fundamental_div_mod_converse_mod(
                    l_total,
                    self.step@,
                    loops as int,
                    leftover@,
                );
            }
        }
        match current {
            AppState::Quit(_) => {
                proof {
                    let k = choose|k: int|
                        0 <= k < loops && runner.updates() == old(runner).updates()
                            + self.steps_of(k) && runner.update_calls() == old(
                            runner,
                        ).update_calls() + k + 1;
                    assert(0 <= k < self.spec_updates(
                        snapshot.step_state.leftover,
                        time.since_update,
                    ));
                }
                Ok(AppState::Quit(()))
            },
            AppState::Running(world) => {
                proof {
                    lemma_mod_bound(l_total, self.step@);
                    if self.step@ < NANOS_PER_SEC {
                        lemma_small_mod(leftover@ as nat, NANOS_PER_SEC as nat);
                        lemma_small_mod(self.step@ as nat, NANOS_PER_SEC as nat);
                    }
                }
                let interpolation = Interpolation {
                    numer: leftover.subsec_nanos(),
                    denom: self.step.subsec_nanos(),
                };
                let step_state = State { leftover, interpolation };
                match runner.advance(snapshot.assets, &world, &step_state) {
                    Err(e) => Err(e),
                    Ok(assets) => Ok(AppState::Running(Snapshot { assets, step_state, world })),
                }
            },
        }
    }
}

/// `advance_post` reads the pre-call runner only through its call
/// account, so it carries over to any pre-call value with the same
/// account — in particular, across a clock query made just before the
/// advance.
pub proof fn lemma_advance_post_same_account<W, A, R: Runner<W, A, State>>(
    fu: FixedUpdate,
    snapshot: Snapshot<W, A, State>,
    time: GameTime,
    pre1: R,
    pre2: R,
    post: R,
    r: Result<AppState<Snapshot<W, A, State>, ()>, Error>,
)
    requires
        fu.advance_post(snapshot, time, pre1, post, r),
        pre2.ticks() == pre1.ticks(),
        pre2.update_calls() == pre1.update_calls(),
        pre2.updates() == pre1.updates(),
        pre2.advances() == pre1.advances(),
    ensures
        fu.advance_post(snapshot, time, pre2, post, r),
{
    let n = fu.spec_updates(snapshot.step_state.leftover, time.since_update);
    match r {
        Ok(outcome) => {
            if outcome is Quit {
                let k = choose|k: int|
                    0 <= k < n && post.updates() == pre1.updates() + fu.steps_of(k)
                        && post.update_calls() == pre1.update_calls() + k + 1;
                assert(post.updates() == pre2.updates() + fu.steps_of(k)
                    && post.update_calls() == pre2.update_calls() + k + 1);
            }
        },
        Err(_) => {},
    }
}

/// With less than one full step of simulated time available, a frame
/// applies no update at all, and the whole total — the old accumulator
/// plus the frame's elapsed time — carries over unchanged.  The range
/// hypothesis holds of every held duration; `Duration::range_facts` puts
/// it in scope.
pub proof fn lemma_no_catch_up(fu: FixedUpdate, leftover: Duration, since_update: Duration)
    requires
        fu.wf(),
        fu.step@ <= max_duration_nanos(),
        leftover@ + since_update@ < fu.step@,
    ensures
        fu.spec_updates(leftover, since_update) == 0,
        fu.spec_leftover(leftover, since_update) == leftover@ + since_update@,
{
    let total = fu.spec_total(leftover, since_update);
    assert(total == leftover@ + since_update@);
    lemma_basic_div(total, fu.step@);
    lemma_small_mod(total as nat, fu.step@ as nat);
}

/// With exactly `k` whole steps available and `k` within the frame-skip
/// cap, a frame applies exactly `k` updates and carries nothing over.
/// The range hypothesis holds of every held duration;
/// `Duration::range_facts` puts it in scope.
pub proof fn lemma_exact_multiples(
    fu: FixedUpdate,
    leftover: Duration,
    since_update: Duration,
    k: int,
)
    requires
        fu.wf(),
        since_update@ <= max_duration_nanos(),
        leftover@ == 0,
        since_update@ == k * fu.step@,
        1 <= k <= fu.max_skip,
    ensures
        fu.spec_updates(leftover, since_update) == k,
        fu.spec_leftover(leftover, since_update) == 0,
{
    let total = fu.spec_total(leftover, since_update);
    assert(total == k * fu.step@);
    lemma_div_multiples_vanish(k, fu.step@);
    assert(fu.step@ * k == k * fu.step@) by (nonlinear_arith);
    lemma_mod_multiples_basic(k, fu.step@);
}

/// With more backlog than the cap admits, a frame applies exactly
/// `max_skip + 1` updates — the cap is checked before each iteration, so
/// a count of zero still passes a cap of zero — and the excess is
/// dropped: the carried leftover stays below one step, and in particular
/// below two.
pub proof fn lemma_skip_cap(fu: FixedUpdate, leftover: Duration, since_update: Duration)
    requires
        fu.wf(),
        fu.spec_total(leftover, since_update) / fu.step@ > fu.max_skip + 1,
    ensures
        fu.spec_updates(leftover, since_update) == fu.max_skip + 1,
        fu.spec_leftover(leftover, since_update) < fu.step@,
        fu.spec_leftover(leftover, since_update) < 2 * fu.step@,
{
    let total = fu.spec_total(leftover, since_update);
    assert(0 <= total);
    lemma_mod_bound(total, fu.step@);
}

/// The cap bounds the catch-up work of every frame: with more backlog
/// than the cap admits and no quit from an update, a frame makes exactly
/// `max_skip + 1` update calls, each applying one fixed step, however
/// large the backlog is.
pub proof fn lemma_cap_bounds_catch_up<W, A, R: Runner<W, A, State>>(
    fu: FixedUpdate,
    snapshot: Snapshot<W, A, State>,
    time: GameTime,
    runner_pre: R,
    runner_post: R,
    r: Result<AppState<Snapshot<W, A, State>, ()>, Error>,
)
    requires
        fu.wf(),
        fu.advance_post(snapshot, time, runner_pre, runner_post, r),
        fu.spec_total(snapshot.step_state.leftover, time.since_update) / fu.step@ > fu.max_skip
            + 1,
        r matches Ok(outcome) ==> outcome is Running,
    ensures
        runner_post.update_calls() == runner_pre.update_calls() + fu.max_skip + 1,
        runner_post.updates() == runner_pre.updates() + fu.steps_of(fu.max_skip + 1),
{
    lemma_skip_cap(fu, snapshot.step_state.leftover, time.since_update);
}

/// A nonnegative total has a nonnegative quotient.
proof fn lemma_div_nonneg_total(total: int, d: int)
    requires
        0 <= total,
        0 < d,
    ensures
        0 <= total / d,
{
    lemma_basic_div_bound(total, d);
}

proof fn lemma_basic_div_bound(total: int, d: int)
    requires
        0 <= total,
        0 < d,
    ensures
        0 <= total / d,
{
    lemma_div_multiples_vanish(0, d);
    lemma_div_is_ordered(0, total, d);
}

/// A loop that has consumed `k` whole steps and still holds a nonnegative
/// remainder has run no more than `total / d` times.
proof fn lemma_loop_count_bound(total: int, d: int, k: int, r: int)
    requires
        0 < d,
        0 <= k,
        0 <= r,
        total == k * d + r,
    ensures
        k <= total / d,
{
    lemma_div_multiples_vanish(k, d);
    assert(k * d <= total) by (nonlinear_arith)
        requires
            total == k * d + r,
            0 <= r,
    ;
    lemma_div_is_ordered(k * d, total, d);
}

} // verus!
