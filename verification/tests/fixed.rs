use moho::duration::Duration;
use moho::engine::step::fixed::{self, FixedUpdate};
use moho::engine::step::{Runner, Snapshot};
use moho::state::State;
use moho::timer::GameTime;
use moho::Error;

const STEP_NS: u64 = 1_000_000_000 / 60;

#[derive(Default, Clone, Debug, PartialEq)]
struct World {
    updates: Vec<Duration>,
    ticks: Vec<GameTime>,
}

#[derive(Default, Clone, Debug, PartialEq)]
struct Assets {
    world: World,
    step: Option<fixed::State>,
}

#[derive(Default)]
struct MockRunner {
    time_count: usize,
    time_stubs: Vec<GameTime>,
    quit_on_update: bool,
    errors_on_advance: bool,
}

impl Runner<World, Assets, fixed::State> for MockRunner {
    fn tick(&mut self, mut world: World, time: &GameTime) -> World {
        world.ticks.push(*time);
        world
    }

    fn update(&mut self, mut world: World, elapsed: Duration) -> State<World, ()> {
        if self.quit_on_update {
            State::Quit(())
        } else {
            world.updates.push(elapsed);
            State::Running(world)
        }
    }

    fn advance(&mut self, _: Assets, world: &World, step: &fixed::State) -> Result<Assets, Error> {
        if self.errors_on_advance {
            Err(Error::new("failed to advance assets".to_string()))
        } else {
            Ok(Assets { world: world.clone(), step: Some(*step) })
        }
    }

    fn time(&mut self) -> GameTime {
        self.time_count += 1;
        self.time_stubs[self.time_count - 1]
    }
}

fn game_times(durations: Vec<Duration>) -> Vec<GameTime> {
    let mut total = Duration::default();
    durations
        .iter()
        .map(|&d| {
            total = total.add(d);
            GameTime { total, since_update: d }
        })
        .collect()
}

fn snapshot() -> Snapshot<World, Assets, fixed::State> {
    Snapshot::new(World::default(), Assets::default())
}

fn interpolation_of(i: fixed::Interpolation) -> f64 {
    f64::from(i.numer) / f64::from(i.denom)
}

trait GameStateHelper {
    fn expect_snapshot(self) -> Snapshot<World, Assets, fixed::State>;
    fn expect_quit(self);
}

impl GameStateHelper for Result<State<Snapshot<World, Assets, fixed::State>, ()>, Error> {
    fn expect_snapshot(self) -> Snapshot<World, Assets, fixed::State> {
        match self.expect("game state in unexpected error state") {
            State::Quit(_) => panic!("game state in unexpected quit state"),
            State::Running(s) => s,
        }
    }

    fn expect_quit(self) {
        if let State::Running(_) = self.expect("game state in unexpected error state") {
            panic!("game state in unexpected running state")
        }
    }
}

#[test]
fn fixed_default() {
    let subject = FixedUpdate::default();
    assert_eq!(subject.max_skip, 10);
    assert_eq!(subject.step, Duration::new(0, 1_000_000_000 / 60));
}

#[test]
fn fixed_custom() {
    let subject = FixedUpdate::default().rate(20).max_skip(4);
    assert_eq!(subject.max_skip, 4);
    assert_eq!(subject.step, Duration::new(0, 50_000_000));
}

#[test]
fn perfect_steps() {
    let subject = FixedUpdate::default();
    let step = Duration::from_nanos(STEP_NS);
    let mut runner = MockRunner::default();
    runner.time_stubs = game_times(vec![step, step]);

    let snapshot = subject.step(snapshot(), &mut runner).expect_snapshot();
    assert_eq!(snapshot.world.updates.len(), 1);

    let snapshot = subject.step(snapshot, &mut runner).expect_snapshot();
    assert_eq!(snapshot.world.updates.len(), 2);

    assert!(snapshot.world.updates.iter().all(|&u| u == step));
}

#[test]
fn fixed_fast_updates() {
    let subject = FixedUpdate::default();
    let step = Duration::from_nanos(STEP_NS);
    let mut runner = MockRunner::default();
    runner.time_stubs = game_times(vec![
        Duration::from_nanos(STEP_NS / 2),
        Duration::from_nanos(STEP_NS / 2),
        Duration::from_nanos(STEP_NS / 2),
        Duration::from_nanos(STEP_NS / 3),
        Duration::from_nanos(STEP_NS / 4),
    ]);

    let snapshot = subject.step(snapshot(), &mut runner).expect_snapshot();
    assert_eq!(snapshot.world.updates.len(), 0);

    let snapshot = subject.step(snapshot, &mut runner).expect_snapshot();
    assert_eq!(snapshot.world.updates.len(), 1);

    let snapshot = subject.step(snapshot, &mut runner).expect_snapshot();
    assert_eq!(snapshot.world.updates.len(), 1);

    let snapshot = subject.step(snapshot, &mut runner).expect_snapshot();
    assert_eq!(snapshot.world.updates.len(), 1);

    let snapshot = subject.step(snapshot, &mut runner).expect_snapshot();
    assert_eq!(snapshot.world.updates.len(), 2);

    assert!(snapshot.world.updates.iter().all(|&u| u == step));
}

#[test]
fn fixed_slow_updates_skips() {
    let subject = FixedUpdate::default().max_skip(10);
    let step = Duration::from_nanos(STEP_NS);
    let mut runner = MockRunner::default();
    runner.time_stubs = game_times(vec![
        Duration::from_nanos(STEP_NS * 3 / 2),
        Duration::from_nanos(STEP_NS * 3),
        Duration::from_nanos(STEP_NS * 3 / 2),
    ]);

    let snapshot = subject.step(snapshot(), &mut runner).expect_snapshot();
    assert_eq!(snapshot.world.updates.len(), 1);

    let snapshot = subject.step(snapshot, &mut runner).expect_snapshot();
    assert_eq!(snapshot.world.updates.len(), 4);

    let snapshot = subject.step(snapshot, &mut runner).expect_snapshot();
    assert_eq!(snapshot.world.updates.len(), 6);

    assert!(snapshot.world.updates.iter().all(|&u| u == step));
}

#[test]
fn slow_updates_not_enough_skip() {
    let subject = FixedUpdate::default().max_skip(1);
    let step = Duration::from_nanos(STEP_NS);
    let mut runner = MockRunner::default();
    runner.time_stubs = game_times(vec![Duration::from_nanos(STEP_NS * 3)]);

    let snapshot = subject.step(snapshot(), &mut runner).expect_snapshot();
    assert_eq!(snapshot.world.updates.len(), 2);

    assert!(snapshot.world.updates.iter().all(|&u| u == step));
}

#[test]
fn fixed_slow_updates_no_skip() {
    let subject = FixedUpdate::default().max_skip(0);
    let step = Duration::from_nanos(STEP_NS);
    let mut runner = MockRunner::default();
    runner.time_stubs = game_times(vec![Duration::from_nanos(STEP_NS * 2)]);

    let snapshot = subject.step(snapshot(), &mut runner).expect_snapshot();
    assert_eq!(snapshot.world.updates.len(), 1);

    assert!(snapshot.world.updates.iter().all(|&u| u == step));
}

#[test]
fn quits() {
    let subject = FixedUpdate::default().max_skip(0);
    let mut runner = MockRunner::default();
    runner.quit_on_update = true;
    runner.time_stubs = game_times(vec![Duration::from_nanos(STEP_NS)]);
    subject.step(snapshot(), &mut runner).expect_quit();
}

#[test]
fn advances_assets() {
    let subject = FixedUpdate::default().max_skip(0);
    let mut runner = MockRunner::default();
    runner.time_stubs = game_times(vec![
        Duration::from_nanos(STEP_NS / 2),
        Duration::from_nanos(STEP_NS / 2),
        Duration::from_nanos(STEP_NS * 5 / 4),
    ]);

    let snapshot = subject.step(snapshot(), &mut runner).expect_snapshot();
    assert_eq!(snapshot.assets.world, snapshot.world);
    let interpolation = interpolation_of(snapshot.assets.step.unwrap().interpolation);
    assert!((interpolation - 0.5).abs() < f64::EPSILON);

    let snapshot = subject.step(snapshot, &mut runner).expect_snapshot();
    assert_eq!(snapshot.assets.world, snapshot.world);
    let interpolation = interpolation_of(snapshot.assets.step.unwrap().interpolation);
    assert!((interpolation - 0.0).abs() < f64::EPSILON);

    let snapshot = subject.step(snapshot, &mut runner).expect_snapshot();
    assert_eq!(snapshot.assets.world, snapshot.world);
    let interpolation = interpolation_of(snapshot.assets.step.unwrap().interpolation);
    assert!((interpolation - 0.25).abs() < 0.0000001);
}

#[test]
fn errors() {
    let subject = FixedUpdate::default().max_skip(0);
    let mut runner = MockRunner::default();
    runner.time_stubs = game_times(vec![Duration::from_nanos(STEP_NS / 2)]);
    runner.errors_on_advance = true;

    subject
        .step(snapshot(), &mut runner)
        .expect_err("expected error; got a state");
}

#[test]
fn fixed_ticks() {
    let subject = FixedUpdate::default().max_skip(0);
    let mut runner = MockRunner::default();
    let times = game_times(vec![
        Duration::from_nanos(STEP_NS / 2),
        Duration::from_nanos(STEP_NS),
        Duration::from_nanos(STEP_NS / 3),
    ]);
    runner.time_stubs = times.clone();

    let snapshot = subject.step(snapshot(), &mut runner).expect_snapshot();
    assert_eq!(snapshot.world.ticks, vec![times[0]]);

    let snapshot = subject.step(snapshot, &mut runner).expect_snapshot();
    assert_eq!(snapshot.world.ticks, vec![times[0], times[1]]);

    let snapshot = subject.step(snapshot, &mut runner).expect_snapshot();
    assert_eq!(snapshot.world.ticks, times);
}
