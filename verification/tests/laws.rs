use moho::duration::Duration;
use moho::engine::step::fixed::{self, FixedUpdate};
use moho::engine::step::{Runner, Snapshot};
use moho::geom::{vec2i, vec2u, vec4i};
use moho::input::{Event, EventPump, Manager};
use moho::renderer::align;
use moho::state::State;
use moho::timer::GameTime;
use moho::Error;

const STEP_NS: u64 = 1_000_000_000 / 60;

#[derive(Default, Clone, Debug, PartialEq)]
struct World {
    update_elapsed: Vec<Duration>,
    tick_count: usize,
    quit_after_updates: Option<usize>,
}

#[derive(Default)]
struct CountingRunner {
    advance_calls: usize,
}

impl Runner<World, Option<fixed::State>, fixed::State> for CountingRunner {
    fn tick(&mut self, mut world: World, _: &GameTime) -> World {
        world.tick_count += 1;
        world
    }

    fn update(&mut self, mut world: World, elapsed: Duration) -> State<World, ()> {
        if world.quit_after_updates == Some(world.update_elapsed.len()) {
            return State::Quit(());
        }
        world.update_elapsed.push(elapsed);
        State::Running(world)
    }

    fn advance(
        &mut self,
        _: Option<fixed::State>,
        _: &World,
        step: &fixed::State,
    ) -> Result<Option<fixed::State>, Error> {
        self.advance_calls += 1;
        Ok(Some(*step))
    }

    fn time(&mut self) -> GameTime {
        panic!("the clock is not queried when a time is handed in")
    }
}

fn time_of(since_ns: u64) -> GameTime {
    GameTime { total: Duration::from_nanos(since_ns), since_update: Duration::from_nanos(since_ns) }
}

fn running(
    r: Result<State<Snapshot<World, Option<fixed::State>, fixed::State>, ()>, Error>,
) -> Snapshot<World, Option<fixed::State>, fixed::State> {
    match r.expect("unexpected error") {
        State::Running(s) => s,
        State::Quit(_) => panic!("unexpected quit"),
    }
}

fn interpolation_of(i: fixed::Interpolation) -> f64 {
    f64::from(i.numer) / f64::from(i.denom)
}

// At sixty updates a second with a cap of ten, each frame starting with
// an empty accumulator: one step's worth of time runs one update at
// fraction zero, half a step runs none at one half, three steps' worth
// runs three at zero again.
#[test]
fn sixty_hz_scenario() {
    let subject = FixedUpdate::default();
    let mut runner = CountingRunner::default();

    let snapshot = Snapshot::new(World::default(), None);
    let snapshot = running(subject.advance(snapshot, time_of(STEP_NS), &mut runner));
    assert_eq!(snapshot.world.update_elapsed.len(), 1);
    assert_eq!(interpolation_of(snapshot.step_state.interpolation), 0.0);

    let snapshot = Snapshot::new(World::default(), None);
    let snapshot = running(subject.advance(snapshot, time_of(STEP_NS / 2), &mut runner));
    assert_eq!(snapshot.world.update_elapsed.len(), 0);
    assert_eq!(interpolation_of(snapshot.step_state.interpolation), 0.5);
    assert!(interpolation_of(snapshot.step_state.interpolation) < 1.0);

    let snapshot = Snapshot::new(World::default(), None);
    let snapshot = running(subject.advance(snapshot, time_of(STEP_NS * 3), &mut runner));
    assert_eq!(snapshot.world.update_elapsed.len(), 3);
    assert_eq!(interpolation_of(snapshot.step_state.interpolation), 0.0);
}

// Chained instead: the half step left over by one frame carries into the
// next, so three more steps of wall time still run three updates and
// leave the same half step behind.
#[test]
fn leftover_carries_between_frames() {
    let subject = FixedUpdate::default();
    let mut runner = CountingRunner::default();

    let snapshot = Snapshot::new(World::default(), None);
    let snapshot = running(subject.advance(snapshot, time_of(STEP_NS / 2), &mut runner));
    assert_eq!(snapshot.world.update_elapsed.len(), 0);

    let snapshot = running(subject.advance(snapshot, time_of(STEP_NS * 3), &mut runner));
    assert_eq!(snapshot.world.update_elapsed.len(), 3);
    assert_eq!(interpolation_of(snapshot.step_state.interpolation), 0.5);
}

// With a cap of one, three steps' worth of backlog runs exactly two
// updates: counts zero and one pass the cap check, two does not.
#[test]
fn cap_boundary_scenario() {
    let subject = FixedUpdate::default().max_skip(1);
    let mut runner = CountingRunner::default();

    let snapshot = Snapshot::new(World::default(), None);
    let snapshot = running(subject.advance(snapshot, time_of(STEP_NS * 3), &mut runner));
    assert_eq!(snapshot.world.update_elapsed.len(), 2);
}

// A cap of zero still admits one update: the count starts at zero and
// zero passes a cap of zero.
#[test]
fn zero_cap_still_updates_once() {
    let subject = FixedUpdate::default().max_skip(0);
    let mut runner = CountingRunner::default();

    let snapshot = Snapshot::new(World::default(), None);
    let snapshot = running(subject.advance(snapshot, time_of(STEP_NS * 5), &mut runner));
    assert_eq!(snapshot.world.update_elapsed.len(), 1);
}

// Each update is handed exactly one step of simulated time, and an exact
// multiple of the step leaves nothing in the accumulator.
#[test]
fn exact_multiple_consumes_everything() {
    let subject = FixedUpdate::default();
    let mut runner = CountingRunner::default();

    let snapshot = Snapshot::new(World::default(), None);
    let snapshot = running(subject.advance(snapshot, time_of(STEP_NS * 4), &mut runner));
    assert_eq!(snapshot.world.update_elapsed.len(), 4);
    for elapsed in &snapshot.world.update_elapsed {
        assert_eq!(*elapsed, Duration::from_nanos(STEP_NS));
    }
    assert_eq!(snapshot.step_state.leftover, Duration::from_nanos(0));
}

// Backlog past the cap is dropped, not carried: after capping, the
// accumulator holds only the sub-step remainder.
#[test]
fn excess_backlog_is_dropped() {
    let subject = FixedUpdate::default().max_skip(1);
    let mut runner = CountingRunner::default();

    let snapshot = Snapshot::new(World::default(), None);
    let snapshot = running(subject.advance(snapshot, time_of(STEP_NS * 10 + 3), &mut runner));
    assert_eq!(snapshot.world.update_elapsed.len(), 2);
    assert_eq!(snapshot.step_state.leftover, Duration::from_nanos(3));
}

// The tick runs exactly once per advance call, whether the frame applies
// zero updates or several.
#[test]
fn tick_runs_once_per_advance() {
    let subject = FixedUpdate::default();
    let mut runner = CountingRunner::default();

    let snapshot = Snapshot::new(World::default(), None);
    let snapshot = running(subject.advance(snapshot, time_of(STEP_NS / 4), &mut runner));
    assert_eq!(snapshot.world.tick_count, 1);

    let snapshot = running(subject.advance(snapshot, time_of(STEP_NS * 3), &mut runner));
    assert_eq!(snapshot.world.tick_count, 2);
}

// A quit during catch-up abandons the frame: the advance reports a quit
// and never converts assets for drawing.
#[test]
fn quit_skips_draw_conversion() {
    let subject = FixedUpdate::default();
    let mut runner = CountingRunner::default();

    let mut world = World::default();
    world.quit_after_updates = Some(1);
    let snapshot = Snapshot::new(world, None);
    let result = subject.advance(snapshot, time_of(STEP_NS * 3), &mut runner);
    assert!(matches!(result, Ok(State::Quit(()))));
    assert_eq!(runner.advance_calls, 0);
}

struct QuitPump {
    polled: bool,
}

impl EventPump for QuitPump {
    fn poll_event(&mut self) -> Option<Event> {
        if self.polled {
            None
        } else {
            self.polled = true;
            Some(Event::Quit)
        }
    }
}

// A quit event from the input manager surfaces as a quit signal.
#[test]
fn input_quit_is_reported() {
    let mut manager = Manager::new(QuitPump { polled: false });
    assert!(matches!(manager.update(), State::Quit(())));
}

struct ListPump {
    events: Vec<Option<Event>>,
}

impl EventPump for ListPump {
    fn poll_event(&mut self) -> Option<Event> {
        self.events.pop().unwrap()
    }
}

// Events after a quit request are not applied; events before it are.
#[test]
fn quit_stops_event_processing() {
    let events = vec![None, Some(Event::KeyDown(7)), Some(Event::Quit), Some(Event::KeyDown(5))];
    let mut manager = Manager::new(ListPump { events });
    assert!(matches!(manager.update(), State::Quit(())));
    assert!(manager.current.is_key_down(5));
    assert!(!manager.current.is_key_down(7));
}

#[test]
fn duration_arithmetic() {
    let d = Duration::new(1, 1_500_000_000);
    assert_eq!(d.as_secs(), 2);
    assert_eq!(d.subsec_nanos(), 500_000_000);
    assert_eq!(Duration::from_millis(400), Duration::new(0, 400_000_000));

    let sum = Duration::from_secs(1).add(Duration::from_nanos(999_999_999));
    assert_eq!(sum.as_secs(), 1);
    assert_eq!(sum.subsec_nanos(), 999_999_999);

    let diff = Duration::from_secs(2).sub(Duration::from_nanos(1));
    assert_eq!(diff.as_secs(), 1);
    assert_eq!(diff.subsec_nanos(), 999_999_999);

    let rem = Duration::from_nanos(7).rem(Duration::from_nanos(3));
    assert_eq!(rem, Duration::from_nanos(1));

    assert!(Duration::from_secs(1).ge(&Duration::from_nanos(999_999_999)));
    assert!(Duration::from_nanos(1).lt(&Duration::from_secs(1)));

    assert!(Duration::max_value().checked_add(Duration::from_nanos(1)).is_none());
    assert_eq!(
        Duration::from_secs(1).checked_add(Duration::from_secs(2)),
        Some(Duration::from_secs(3))
    );
}

#[test]
fn destination_edges() {
    let dst = align::middle(50).center(40).dims(vec2u(10, 20));
    assert_eq!(dst.top(), 40);
    assert_eq!(dst.middle(), 50);
    assert_eq!(dst.bottom(), 60);
    assert_eq!(dst.left(), 35);
    assert_eq!(dst.center(), 40);
    assert_eq!(dst.right(), 45);

    let dst = align::top(10).left(20).dims(vec2u(8, 6));
    assert_eq!(dst.top(), 10);
    assert_eq!(dst.bottom(), 16);
    assert_eq!(dst.left(), 20);
    assert_eq!(dst.right(), 28);

    let nudged = dst.nudge(vec2i(3, -4));
    assert_eq!(nudged.top(), 6);
    assert_eq!(nudged.left(), 23);

    let scaled = dst.scale(2);
    assert_eq!(scaled.dims, vec2u(16, 12));

    let from_rect = moho::renderer::Destination::from_rect(vec4i(1, 2, 3, 4));
    assert_eq!(from_rect.left(), 1);
    assert_eq!(from_rect.top(), 2);
    assert_eq!(from_rect.dims, vec2u(3, 4));
}

// An error carries its message through untouched.
#[test]
fn error_carries_message() {
    let e = Error::new("backend failure".to_string());
    assert_eq!(e.message, "backend failure");
}

// The clock hands back well-formed durations: the sub-second remainder of
// a query is below one second, and each query's total is the previous
// query's total plus the new elapsed span, so the elapsed spans
// partition the total since construction.
#[test]
fn timer_query_is_well_formed() {
    let mut timer = moho::timer::Timer::new();
    let first = timer.update();
    let second = timer.update();
    assert!(first.since_update.subsec_nanos() < 1_000_000_000);
    assert!(second.total.subsec_nanos() < 1_000_000_000);
    assert_eq!(first.total, first.since_update);
    assert_eq!(second.total, first.total.add(second.since_update));
    assert!(second.total.ge(&first.total));
}
