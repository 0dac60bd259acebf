//! The input state: which keys and mouse buttons are down, which were
//! down a frame ago, and where the mouse is.  Folding a frame's events
//! into the state is specified exactly: the state after `update` is the
//! old state with the previous-frame sets rolled over and the events
//! applied in order, stopping at the first quit request.

use crate::geom::Vec2i;
use crate::state::State as AppState;
use vstd::prelude::*;

verus! {

/// A raw input event, as plain values: keys by their key code, mouse
/// buttons by their index.  `Other` stands for every event the input
/// state does not read.
#[derive(Clone, Copy, Debug, PartialEq, Eq, Structural)]
pub enum Event {
    Quit,
    KeyDown(i32),
    KeyUp(i32),
    MouseMotion(i32, i32),
    MouseButtonDown(u8),
    MouseButtonUp(u8),
    Other,
}

/// A set of key codes, stored without duplicates; its view is the set of
/// codes it holds.
#[derive(Debug)]
pub struct KeySet {
    items: Vec<i32>,
}

impl View for KeySet {
    type V = Set<i32>;

    closed spec fn view(&self) -> Set<i32> {
        Set::new(|k: i32| self.items@.contains(k))
    }
}

impl KeySet {
    #[verifier::type_invariant]
    closed spec fn inv(self) -> bool {
        forall|i: int, j: int|
            0 <= i < j < self.items@.len() ==> self.items@[i] != self.items@[j]
    }

    pub fn new() -> (r: KeySet)
        ensures
            r@ == Set::<i32>::empty(),
    {
        let r = KeySet { items: Vec::new() };
        proof {
            assert(r@ =~= Set::<i32>::empty());
        }
        r
    }

    pub fn contains(&self, k: i32) -> (r: bool)
        ensures
            r == self@.contains(k),
    {
        let mut i: usize = 0;
        while i < self.items.len()
            invariant
                i <= self.items@.len(),
                forall|j: int| 0 <= j < i ==> self.items@[j] != k,
            decreases self.items@.len() - i,
        {
            if self.items[i] == k {
                return true;
            }
            i = i + 1;
        }
        false
    }

    pub fn insert(&mut self, k: i32)
        ensures
            final(self)@ == old(self)@.insert(k),
    {
        proof {
            use_type_invariant(&*self);
        }
        let present = self.contains(k);
        if !present {
            let mut items: Vec<i32> = Vec::new();
            core::mem::swap(&mut items, &mut self.items);
            items.push(k);
            self.items = items;
        }
        proof {
            if present {
                assert(final(self)@ =~= old(self)@.insert(k));
            } else {
                assert forall|x: i32| final(self)@.contains(x) implies old(self)@.insert(
                    k,
                ).contains(x) by {
                    let i = choose|i: int|
                        0 <= i < self.items@.len() && self.items@[i] == x;
                    if i < old(self).items@.len() {
                        assert(old(self).items@.contains(x));
                    } else {
                        assert(x == k);
                    }
                }
                assert forall|x: i32| old(self)@.insert(k).contains(x) implies final(self)@.contains(
                    x,
                ) by {
                    if x == k {
                        assert(self.items@[self.items@.len() - 1] == k);
                    } else {
                        let i = choose|i: int|
                            0 <= i < old(self).items@.len() && old(self).items@[i] == x;
                        assert(self.items@[i] == x);
                    }
                }
                assert(final(self)@ =~= old(self)@.insert(k));
            }
        }
    }

    pub fn remove(&mut self, k: i32)
        ensures
            final(self)@ == old(self)@.remove(k),
    {
        proof {
            use_type_invariant(&*self);
        }
        let mut kept: Vec<i32> = Vec::new();
        let mut i: usize = 0;
        while i < self.items.len()
            invariant
                i <= self.items@.len(),
                forall|i2: int, j2: int|
                    0 <= i2 < j2 < self.items@.len() ==> self.items@[i2] != self.items@[j2],
                forall|x: i32| #[trigger] kept@.contains(x) ==> x != k,
                forall|x: i32|
                    #[trigger] kept@.contains(x) ==> exists|j: int|
                        0 <= j < i && self.items@[j] == x,
                forall|j: int|
                    0 <= j < i && self.items@[j] != k ==> kept@.contains(#[trigger] self.items@[j]),
                forall|i2: int, j2: int| 0 <= i2 < j2 < kept@.len() ==> kept@[i2] != kept@[j2],
            decreases self.items@.len() - i,
        {
            let item = self.items[i];
            let ghost kept_before = kept@;
            if item != k {
                proof {
                    if kept@.contains(item) {
                        let j = choose|j: int| 0 <= j < i && self.items@[j] == item;
                        assert(self.items@[j] == self.items@[i as int]);
                    }
                    assert(forall|j2: int|
                        0 <= j2 < kept@.len() ==> kept@.contains(#[trigger] kept@[j2]));
                }
                kept.push(item);
                proof {
                    assert(kept@[kept@.len() - 1] == item);
                    assert forall|x: i32| kept_before.contains(x) implies kept@.contains(x) by {
                        let j = choose|j: int| 0 <= j < kept_before.len() && kept_before[j] == x;
                        assert(kept@[j] == x);
                    }
                    assert forall|x: i32| kept@.contains(x) implies (kept_before.contains(x) || x
                        == item) by {
                        let j = choose|j: int| 0 <= j < kept@.len() && kept@[j] == x;
                        if j < kept_before.len() {
                            assert(kept_before[j] == x);
                        }
                    }
                }
            }
            i = i + 1;
        }
        self.items = kept;
        proof {
            assert forall|x: i32| final(self)@.contains(x) implies old(self)@.remove(k).contains(
                x,
            ) by {
                let j = choose|j: int|
                    0 <= j < self.items@.len() && self.items@[j] == x;
                assert(self.items@.contains(x));
            }
            assert forall|x: i32| old(self)@.remove(k).contains(x) implies final(self)@.contains(
                x,
            ) by {
                let j = choose|j: int|
                    0 <= j < old(self).items@.len() && old(self).items@[j] == x;
            }
            assert(final(self)@ =~= old(self)@.remove(k));
        }
    }

    /// A copy with the same contents.
    pub fn duplicate(&self) -> (r: KeySet)
        ensures
            r@ == self@,
    {
        proof {
            use_type_invariant(self);
        }
        let mut items: Vec<i32> = Vec::new();
        let mut i: usize = 0;
        while i < self.items.len()
            invariant
                i <= self.items@.len(),
                items@ == self.items@.take(i as int),
            decreases self.items@.len() - i,
        {
            items.push(self.items[i]);
            proof {
                assert(items@ =~= self.items@.take(i + 1));
            }
            i = i + 1;
        }
        proof {
            assert(items@ =~= self.items@);
        }
        let r = KeySet { items };
        proof {
            assert(r@ =~= self@);
        }
        r
    }
}

/// The ghost model of the input state: the sets of pressed keys and
/// buttons, the sets of a frame ago, the mouse position and the sticky
/// quit flag.
pub struct StateModel {
    pub keys: Set<i32>,
    pub buttons: Set<i32>,
    pub prev_keys: Set<i32>,
    pub prev_buttons: Set<i32>,
    pub mouse: Vec2i,
    pub game_quit: bool,
}

/// What one event (not a quit) does to the model.
pub open spec fn apply_event(m: StateModel, e: Event) -> StateModel {
    match e {
        Event::Quit => m,
        Event::KeyDown(k) => StateModel { keys: m.keys.insert(k), ..m },
        Event::KeyUp(k) => StateModel { keys: m.keys.remove(k), ..m },
        Event::MouseMotion(x, y) => StateModel { mouse: Vec2i { x, y }, ..m },
        Event::MouseButtonDown(b) => StateModel { buttons: m.buttons.insert(b as i32), ..m },
        Event::MouseButtonUp(b) => StateModel { buttons: m.buttons.remove(b as i32), ..m },
        Event::Other => m,
    }
}

/// The events applied in order.
pub open spec fn apply_events(m: StateModel, evs: Seq<Event>) -> StateModel
    decreases evs.len(),
{
    if evs.len() == 0 {
        m
    } else {
        apply_events(apply_event(m, evs[0]), evs.drop_first())
    }
}

/// Whether a quit request is reached: every event before it is applied,
/// the quit and everything after it are not.
pub open spec fn sees_quit(evs: Seq<Event>) -> bool
    decreases evs.len(),
{
    if evs.len() == 0 {
        false
    } else if evs[0] is Quit {
        true
    } else {
        sees_quit(evs.drop_first())
    }
}

/// The events before the first quit request; all of them when there is
/// none.
pub open spec fn processed_prefix(evs: Seq<Event>) -> Seq<Event>
    decreases evs.len(),
{
    if evs.len() == 0 {
        Seq::empty()
    } else if evs[0] is Quit {
        Seq::empty()
    } else {
        seq![evs[0]] + processed_prefix(evs.drop_first())
    }
}

/// Rolling into a new frame: the pressed sets of the old frame become the
/// previous-frame sets.
pub open spec fn roll_prev(m: StateModel) -> StateModel {
    StateModel { prev_keys: m.keys, prev_buttons: m.buttons, ..m }
}

/// Appending an event applies it after the others.
proof fn lemma_apply_events_push(m: StateModel, evs: Seq<Event>, e: Event)
    ensures
        apply_events(m, evs.push(e)) == apply_event(apply_events(m, evs), e),
    decreases evs.len(),
{
    if evs.len() == 0 {
        assert(evs.push(e).drop_first() =~= Seq::<Event>::empty());
        assert(evs.push(e)[0] == e);
        assert(apply_events(m, evs) == m);
        assert(apply_events(m, evs.push(e)) == apply_events(
            apply_event(m, e),
            evs.push(e).drop_first(),
        ));
        assert(apply_events(apply_event(m, e), evs.push(e).drop_first()) == apply_event(m, e));
    } else {
        assert(evs.push(e)[0] == evs[0]);
        assert(evs.push(e).drop_first() =~= evs.drop_first().push(e));
        assert(apply_events(m, evs.push(e)) == apply_events(
            apply_event(m, evs[0]),
            evs.drop_first().push(e),
        ));
        lemma_apply_events_push(apply_event(m, evs[0]), evs.drop_first(), e);
        assert(apply_events(m, evs) == apply_events(apply_event(m, evs[0]), evs.drop_first()));
    }
}

/// How scanning one more event extends the processed prefix.
proof fn lemma_prefix_step(evs: Seq<Event>, i: int)
    requires
        0 <= i < evs.len(),
        !sees_quit(evs.take(i)),
    ensures
        evs[i] is Quit ==> sees_quit(evs) && processed_prefix(evs) == processed_prefix(
            evs.take(i),
        ),
        !(evs[i] is Quit) ==> !sees_quit(evs.take(i + 1)) && processed_prefix(evs.take(i + 1))
            == processed_prefix(evs.take(i)).push(evs[i]),
    decreases i,
{
    if i == 0 {
        assert(evs.take(0) =~= Seq::<Event>::empty());
        if evs[0] is Quit {
            assert(sees_quit(evs));
            assert(processed_prefix(evs) =~= Seq::<Event>::empty());
        } else {
            let t = evs.take(1);
            assert(t[0] == evs[0]);
            assert(t.drop_first() =~= Seq::<Event>::empty());
            assert(processed_prefix(t) =~= processed_prefix(evs.take(0)).push(evs[0]));
            assert(!sees_quit(t));
        }
    } else {
        let rest = evs.drop_first();
        assert(evs.take(i)[0] == evs[0]);
        assert(evs.take(i).len() > 0);
        assert(!(evs[0] is Quit));
        assert(evs.take(i).drop_first() =~= rest.take(i - 1));
        lemma_prefix_step(rest, i - 1);
        assert(rest[i - 1] == evs[i]);
        if evs[i] is Quit {
            assert(sees_quit(evs));
            assert(processed_prefix(evs) =~= seq![evs[0]] + processed_prefix(rest));
            assert(processed_prefix(evs.take(i)) =~= seq![evs[0]] + processed_prefix(
                rest.take(i - 1),
            ));
        } else {
            assert(evs.take(i + 1)[0] == evs[0]);
            assert(evs.take(i + 1).drop_first() =~= rest.take(i));
            assert(!sees_quit(evs.take(i + 1)));
            assert(processed_prefix(evs.take(i + 1)) =~= seq![evs[0]] + processed_prefix(
                rest.take(i),
            ));
            assert(processed_prefix(evs.take(i + 1)) =~= processed_prefix(evs.take(i)).push(
                evs[i],
            ));
        }
    }
}

/// The input state.  The pressed sets describe the present frame, the
/// previous sets the frame before; `update` rolls them over and folds a
/// frame's events in.
#[derive(Debug)]
pub struct State {
    pressed_keys: KeySet,
    pressed_buttons: KeySet,
    prev_pressed_keys: KeySet,
    prev_pressed_buttons: KeySet,
    mouse_coords: Vec2i,
    game_quit: bool,
}

impl State {
    /// The ghost model of this state.
    pub closed spec fn model(&self) -> StateModel {
        StateModel {
            keys: self.pressed_keys@,
            buttons: self.pressed_buttons@,
            prev_keys: self.prev_pressed_keys@,
            prev_buttons: self.prev_pressed_buttons@,
            mouse: self.mouse_coords,
            game_quit: self.game_quit,
        }
    }

    /// Nothing pressed, the mouse at the origin, no quit seen.
    pub open spec fn empty_model() -> StateModel {
        StateModel {
            keys: Set::empty(),
            buttons: Set::empty(),
            prev_keys: Set::empty(),
            prev_buttons: Set::empty(),
            mouse: Vec2i { x: 0, y: 0 },
            game_quit: false,
        }
    }

    pub fn is_key_down(&self, keycode: i32) -> (r: bool)
        ensures
            r == self.model().keys.contains(keycode),
    {
        self.pressed_keys.contains(keycode)
    }

    pub fn did_press_key(&self, keycode: i32) -> (r: bool)
        ensures
            r == (self.model().keys.contains(keycode) && !self.model().prev_keys.contains(
                keycode,
            )),
    {
        self.pressed_keys.contains(keycode) && !self.prev_pressed_keys.contains(keycode)
    }

    pub fn did_release_key(&self, keycode: i32) -> (r: bool)
        ensures
            r == (!self.model().keys.contains(keycode) && self.model().prev_keys.contains(
                keycode,
            )),
    {
        !self.pressed_keys.contains(keycode) && self.prev_pressed_keys.contains(keycode)
    }

    pub fn did_click_mouse(&self, mouse_button: u8) -> (r: bool)
        ensures
            r == (self.model().buttons.contains(mouse_button as i32)
                && !self.model().prev_buttons.contains(mouse_button as i32)),
    {
        self.pressed_buttons.contains(mouse_button as i32) && !self.prev_pressed_buttons.contains(
            mouse_button as i32,
        )
    }

    pub fn did_release_mouse(&self, mouse_button: u8) -> (r: bool)
        ensures
            r == (!self.model().buttons.contains(mouse_button as i32)
                && self.model().prev_buttons.contains(mouse_button as i32)),
    {
        !self.pressed_buttons.contains(mouse_button as i32) && self.prev_pressed_buttons.contains(
            mouse_button as i32,
        )
    }

    pub fn is_mouse_down(&self, mouse_button: u8) -> (r: bool)
        ensures
            r == self.model().buttons.contains(mouse_button as i32),
    {
        self.pressed_buttons.contains(mouse_button as i32)
    }

    pub fn mouse_coords(&self) -> (r: Vec2i)
        ensures
            r == self.model().mouse,
    {
        self.mouse_coords
    }

    pub fn game_quit(&self) -> (r: bool)
        ensures
            r == self.model().game_quit,
    {
        self.game_quit
    }

    /// Rolls the pressed sets into the previous-frame sets, then applies
    /// the events in order.  A quit request abandons the rest of the
    /// events and reports a quit; everything applied before it stays
    /// applied.
    #[verifier::loop_isolation(false)]
    pub fn update(&mut self, events: &Vec<Event>) -> (r: AppState<(), ()>)
        ensures
            r is Quit <==> sees_quit(events@),
            final(self).model() == apply_events(
                roll_prev(old(self).model()),
                processed_prefix(events@),
            ),
    {
        self.prev_pressed_keys = self.pressed_keys.duplicate();
        self.prev_pressed_buttons = self.pressed_buttons.duplicate();
        let ghost m0: StateModel = roll_prev(old(self).model());
        proof {
            assert(self.model() == m0);
            assert(events@.take(0) =~= Seq::<Event>::empty());
        }
        let mut i: usize = 0;
        while i < events.len()
            invariant
                i <= events@.len(),
                !sees_quit(events@.take(i as int)),
                self.model() == apply_events(m0, processed_prefix(events@.take(i as int))),
            decreases events@.len() - i,
        {
            proof {
                lemma_prefix_step(events@, i as int);
            }
            match events[i] {
                Event::Quit => {
                    return AppState::Quit(());
                },
                Event::KeyDown(keycode) => {
                    self.pressed_keys.insert(keycode);
                },
                Event::KeyUp(keycode) => {
                    self.pressed_keys.remove(keycode);
                },
                Event::MouseMotion(x, y) => {
                    self.mouse_coords = Vec2i { x, y };
                },
                Event::MouseButtonDown(b) => {
                    self.pressed_buttons.insert(b as i32);
                },
                Event::MouseButtonUp(b) => {
                    self.pressed_buttons.remove(b as i32);
                },
                Event::Other => {},
            }
            proof {
                lemma_apply_events_push(
                    m0,
                    processed_prefix(events@.take(i as int)),
                    events@[i as int],
                );
            }
            i = i + 1;
        }
        proof {
            assert(events@.take(events@.len() as int) =~= events@);
        }
        AppState::Running(())
    }
}

impl Default for State {
    /// The empty input state.
    fn default() -> (r: State)
        ensures
            r.model() == State::empty_model(),
    {
        let r = State {
            pressed_keys: KeySet::new(),
            pressed_buttons: KeySet::new(),
            prev_pressed_keys: KeySet::new(),
            prev_pressed_buttons: KeySet::new(),
            mouse_coords: Vec2i { x: 0, y: 0 },
            game_quit: false,
        };
        r
    }
}

} // verus!
