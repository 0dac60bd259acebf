use moho::duration::Duration;
use moho::engine::step::{fixed, Snapshot};
use moho::engine::{App, Engine, NextScene, World};
use moho::input::{Event, EventPump, Manager};
use moho::renderer::{Canvas, ColorRGBA, Destination, FrameLog, Renderer, Show};
use moho::state::State;
use moho::Error;

struct EmptyPump;

impl EventPump for EmptyPump {
    fn poll_event(&mut self) -> Option<Event> {
        None
    }
}

#[derive(Debug, PartialEq)]
struct MiniWorld;

impl World for MiniWorld {
    type Quit = ();

    fn update(self, _: &moho::input::State, _: Duration) -> State<MiniWorld, ()> {
        State::Running(self)
    }
}

struct Scene {
    fail_next: bool,
    fail_show: bool,
}

impl NextScene<MiniWorld, fixed::State, ()> for Scene {
    fn next(self, _: &MiniWorld, _: &fixed::State, _: &mut ()) -> Result<Scene, Error> {
        if self.fail_next {
            Err(Error::new("failed to derive assets".to_string()))
        } else {
            Ok(self)
        }
    }
}

impl Show<TestCanvas> for Scene {
    fn show(&self, _: &mut TestCanvas) -> Result<(), Error> {
        if self.fail_show {
            Err(Error::new("failed to show the scene".to_string()))
        } else {
            Ok(())
        }
    }
}

#[derive(Default)]
struct TestCanvas {
    clears: usize,
    presents: usize,
}

impl FrameLog for TestCanvas {}

impl Renderer for TestCanvas {
    fn set_draw_color(&mut self, _: ColorRGBA) {}

    fn fill_rects(&mut self, _: &Vec<Destination>) -> Result<(), Error> {
        Ok(())
    }

    fn draw_rects(&mut self, _: &Vec<Destination>) -> Result<(), Error> {
        Ok(())
    }
}

impl Canvas for TestCanvas {
    fn clear(&mut self) {
        self.clears += 1;
    }

    fn present(&mut self) {
        self.presents += 1;
    }
}

// A running frame crosses exactly one clear and one present.
#[test]
fn running_frame_clears_and_presents_once() {
    let mut engine = Engine::new(TestCanvas::default(), fixed::FixedUpdate::default());
    let mut app = App::new((), Manager::new(EmptyPump));
    let scene = Scene { fail_next: false, fail_show: false };
    let snapshot = Snapshot::new(MiniWorld, scene);

    let result = engine.run_frame(snapshot, &mut app);
    assert!(matches!(result, Ok(State::Running(_))));
    assert_eq!(engine.canvas.clears, 1);
    assert_eq!(engine.canvas.presents, 1);
}

// A failed asset derivation aborts the frame before any canvas work.
#[test]
fn failed_derivation_touches_no_canvas() {
    let mut engine = Engine::new(TestCanvas::default(), fixed::FixedUpdate::default());
    let mut app = App::new((), Manager::new(EmptyPump));
    let scene = Scene { fail_next: true, fail_show: false };
    let snapshot = Snapshot::new(MiniWorld, scene);

    let result = engine.run_frame(snapshot, &mut app);
    assert!(result.is_err());
    assert_eq!(engine.canvas.clears, 0);
    assert_eq!(engine.canvas.presents, 0);
}

// A failed show comes after the clear but suppresses the present.
#[test]
fn failed_show_skips_present() {
    let mut engine = Engine::new(TestCanvas::default(), fixed::FixedUpdate::default());
    let mut app = App::new((), Manager::new(EmptyPump));
    let scene = Scene { fail_next: false, fail_show: true };
    let snapshot = Snapshot::new(MiniWorld, scene);

    let result = engine.run_frame(snapshot, &mut app);
    assert!(result.is_err());
    assert_eq!(engine.canvas.clears, 1);
    assert_eq!(engine.canvas.presents, 0);
}
