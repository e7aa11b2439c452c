//! Menu-level input of each local device.
use vstd::prelude::*;

use crate::collection::SingleSource;
use crate::events::{GamepadAxis, GamepadButton, GamepadEvent, KeyCode, KeyboardEvent};
use crate::press::{advance_spec, apply_spec, PressInput};

verus! {

/// How far, in thousandths, a stick must travel to count as a menu press.
pub const STROKE: i32 = 500;

/// A stick position in thousandths per axis.
#[derive(Clone, Copy, Debug, PartialEq, Eq, Structural)]
pub struct Stick {
    pub x: i32,
    pub y: i32,
}

/// The controls of one device, as menus read them.
#[derive(Clone, Copy, Debug, PartialEq, Eq, Structural)]
pub struct LocalInput {
    pub menu_up: PressInput,
    pub menu_down: PressInput,
    pub menu_left: PressInput,
    pub menu_right: PressInput,
    pub menu_select: PressInput,
    pub menu_back: PressInput,
    pub pause: PressInput,
    pub left_stick: Stick,
    pub right_stick: Stick,
    pub north: PressInput,
    pub south: PressInput,
    pub west: PressInput,
    pub east: PressInput,
    pub start: PressInput,
    pub left_bump: PressInput,
    pub right_bump: PressInput,
    pub left_trigger: PressInput,
    pub right_trigger: PressInput,
}

pub open spec fn idle_press() -> PressInput {
    PressInput { current: false, last: false, held: 0 }
}

pub open spec fn idle_local() -> LocalInput {
    LocalInput {
        menu_up: idle_press(),
        menu_down: idle_press(),
        menu_left: idle_press(),
        menu_right: idle_press(),
        menu_select: idle_press(),
        menu_back: idle_press(),
        pause: idle_press(),
        left_stick: Stick { x: 0, y: 0 },
        right_stick: Stick { x: 0, y: 0 },
        north: idle_press(),
        south: idle_press(),
        west: idle_press(),
        east: idle_press(),
        start: idle_press(),
        left_bump: idle_press(),
        right_bump: idle_press(),
        left_trigger: idle_press(),
        right_trigger: idle_press(),
    }
}

impl Default for LocalInput {
    fn default() -> (r: Self)
        ensures
            r == idle_local(),
    {
        LocalInput {
            menu_up: PressInput::default(),
            menu_down: PressInput::default(),
            menu_left: PressInput::default(),
            menu_right: PressInput::default(),
            menu_select: PressInput::default(),
            menu_back: PressInput::default(),
            pause: PressInput::default(),
            left_stick: Stick { x: 0, y: 0 },
            right_stick: Stick { x: 0, y: 0 },
            north: PressInput::default(),
            south: PressInput::default(),
            west: PressInput::default(),
            east: PressInput::default(),
            start: PressInput::default(),
            left_bump: PressInput::default(),
            right_bump: PressInput::default(),
            left_trigger: PressInput::default(),
            right_trigger: PressInput::default(),
        }
    }
}

/// A gamepad event read as menu input: the left stick past `STROKE` and the
/// d-pad navigate, south selects, west goes back, start pauses.
pub open spec fn pad_local_spec(i: LocalInput, event: GamepadEvent) -> LocalInput {
    match event {
        GamepadEvent::Axis { axis, value, .. } => match axis {
            GamepadAxis::LeftStickX => LocalInput {
                left_stick: Stick { x: value, ..i.left_stick },
                menu_right: apply_spec(i.menu_right, value > STROKE),
                menu_left: apply_spec(i.menu_left, value < -STROKE),
                ..i
            },
            GamepadAxis::LeftStickY => LocalInput {
                left_stick: Stick { y: value, ..i.left_stick },
                menu_up: apply_spec(i.menu_up, value > STROKE),
                menu_down: apply_spec(i.menu_down, value < -STROKE),
                ..i
            },
            GamepadAxis::RightStickX => LocalInput { right_stick: Stick { x: value, ..i.right_stick }, ..i },
            GamepadAxis::RightStickY => LocalInput { right_stick: Stick { y: value, ..i.right_stick }, ..i },
            _ => i,
        },
        GamepadEvent::Button { button, pressed, .. } => match button {
            GamepadButton::DPadUp => LocalInput { menu_up: apply_spec(i.menu_up, pressed), ..i },
            GamepadButton::DPadDown => LocalInput { menu_down: apply_spec(i.menu_down, pressed), ..i },
            GamepadButton::DPadLeft => LocalInput { menu_left: apply_spec(i.menu_left, pressed), ..i },
            GamepadButton::DPadRight => LocalInput { menu_right: apply_spec(i.menu_right, pressed), ..i },
            GamepadButton::Start => LocalInput {
                start: apply_spec(i.start, pressed),
                pause: apply_spec(i.pause, pressed),
                ..i
            },
            GamepadButton::North => LocalInput { north: apply_spec(i.north, pressed), ..i },
            GamepadButton::South => LocalInput {
                south: apply_spec(i.south, pressed),
                menu_select: apply_spec(i.menu_select, pressed),
                ..i
            },
            GamepadButton::West => LocalInput {
                west: apply_spec(i.west, pressed),
                menu_back: apply_spec(i.menu_back, pressed),
                ..i
            },
            GamepadButton::East => LocalInput { east: apply_spec(i.east, pressed), ..i },
            GamepadButton::LeftTrigger => LocalInput { left_bump: apply_spec(i.left_bump, pressed), ..i },
            GamepadButton::RightTrigger => LocalInput { right_bump: apply_spec(i.right_bump, pressed), ..i },
            GamepadButton::LeftTrigger2 => LocalInput { left_trigger: apply_spec(i.left_trigger, pressed), ..i },
            GamepadButton::RightTrigger2 => LocalInput {
                right_trigger: apply_spec(i.right_trigger, pressed),
                ..i
            },
            _ => i,
        },
        _ => i,
    }
}

/// A key event read as menu input: WASD navigate, space selects, escape goes
/// back and pauses, return starts.
pub open spec fn key_local_spec(i: LocalInput, event: KeyboardEvent) -> LocalInput {
    match event.key_code {
        Some(KeyCode::W) => LocalInput { menu_up: apply_spec(i.menu_up, event.pressed), ..i },
        Some(KeyCode::S) => LocalInput { menu_down: apply_spec(i.menu_down, event.pressed), ..i },
        Some(KeyCode::A) => LocalInput { menu_left: apply_spec(i.menu_left, event.pressed), ..i },
        Some(KeyCode::D) => LocalInput { menu_right: apply_spec(i.menu_right, event.pressed), ..i },
        Some(KeyCode::Escape) => LocalInput {
            menu_back: apply_spec(i.menu_back, event.pressed),
            pause: apply_spec(i.pause, event.pressed),
            ..i
        },
        Some(KeyCode::Space) => LocalInput { menu_select: apply_spec(i.menu_select, event.pressed), ..i },
        Some(KeyCode::Return) => LocalInput { start: apply_spec(i.start, event.pressed), ..i },
        _ => i,
    }
}

pub open spec fn advance_local_spec(i: LocalInput) -> LocalInput {
    LocalInput {
        menu_up: advance_spec(i.menu_up),
        menu_down: advance_spec(i.menu_down),
        menu_left: advance_spec(i.menu_left),
        menu_right: advance_spec(i.menu_right),
        menu_select: advance_spec(i.menu_select),
        menu_back: advance_spec(i.menu_back),
        pause: advance_spec(i.pause),
        left_stick: i.left_stick,
        right_stick: i.right_stick,
        north: advance_spec(i.north),
        south: advance_spec(i.south),
        west: advance_spec(i.west),
        east: advance_spec(i.east),
        start: advance_spec(i.start),
        left_bump: advance_spec(i.left_bump),
        right_bump: advance_spec(i.right_bump),
        left_trigger: advance_spec(i.left_trigger),
        right_trigger: advance_spec(i.right_trigger),
    }
}

impl LocalInput {
    pub fn apply_gamepad_input(&mut self, event: &GamepadEvent)
        ensures
            *final(self) == pad_local_spec(*old(self), *event),
    {
        match *event {
            GamepadEvent::Axis { axis, value, .. } => match axis {
                GamepadAxis::LeftStickX => {
                    self.left_stick.x = value;
                    self.menu_right.apply_bool(value > STROKE);
                    self.menu_left.apply_bool(value < -STROKE);
                },
                GamepadAxis::LeftStickY => {
                    self.left_stick.y = value;
                    self.menu_up.apply_bool(value > STROKE);
                    self.menu_down.apply_bool(value < -STROKE);
                },
                GamepadAxis::RightStickX => {
                    self.right_stick.x = value;
                },
                GamepadAxis::RightStickY => {
                    self.right_stick.y = value;
                },
                _ => {},
            },
            GamepadEvent::Button { button, pressed, .. } => match button {
                GamepadButton::DPadUp => self.menu_up.apply_bool(pressed),
                GamepadButton::DPadDown => self.menu_down.apply_bool(pressed),
                GamepadButton::DPadLeft => self.menu_left.apply_bool(pressed),
                GamepadButton::DPadRight => self.menu_right.apply_bool(pressed),
                GamepadButton::Start => {
                    self.start.apply_bool(pressed);
                    self.pause.apply_bool(pressed);
                },
                GamepadButton::North => self.north.apply_bool(pressed),
                GamepadButton::South => {
                    self.south.apply_bool(pressed);
                    self.menu_select.apply_bool(pressed);
                },
                GamepadButton::West => {
                    self.west.apply_bool(pressed);
                    self.menu_back.apply_bool(pressed);
                },
                GamepadButton::East => self.east.apply_bool(pressed),
                GamepadButton::LeftTrigger => self.left_bump.apply_bool(pressed),
                GamepadButton::RightTrigger => self.right_bump.apply_bool(pressed),
                GamepadButton::LeftTrigger2 => self.left_trigger.apply_bool(pressed),
                GamepadButton::RightTrigger2 => self.right_trigger.apply_bool(pressed),
                _ => {},
            },
            _ => {},
        }
    }

    pub fn apply_keyboard_input(&mut self, event: &KeyboardEvent)
        ensures
            *final(self) == key_local_spec(*old(self), *event),
    {
        match event.key_code {
            Some(KeyCode::W) => self.menu_up.apply_bool(event.pressed),
            Some(KeyCode::S) => self.menu_down.apply_bool(event.pressed),
            Some(KeyCode::A) => self.menu_left.apply_bool(event.pressed),
            Some(KeyCode::D) => self.menu_right.apply_bool(event.pressed),
            Some(KeyCode::Escape) => {
                self.menu_back.apply_bool(event.pressed);
                self.pause.apply_bool(event.pressed);
            },
            Some(KeyCode::Space) => self.menu_select.apply_bool(event.pressed),
            Some(KeyCode::Return) => self.start.apply_bool(event.pressed),
            _ => {},
        }
    }

    /// Rolls the edges of every button; the sticks keep their position.
    pub fn advance(&mut self)
        ensures
            *final(self) == advance_local_spec(*old(self)),
    {
        self.menu_up.advance();
        self.menu_down.advance();
        self.menu_left.advance();
        self.menu_right.advance();
        self.north.advance();
        self.south.advance();
        self.west.advance();
        self.east.advance();
        self.start.advance();
        self.left_bump.advance();
        self.right_bump.advance();
        self.left_trigger.advance();
        self.right_trigger.advance();
        self.menu_select.advance();
        self.menu_back.advance();
        self.pause.advance();
    }
}

/// The position of the last entry for `source` in `s`, or -1.
pub open spec fn index_of(s: Seq<(SingleSource, LocalInput)>, source: SingleSource) -> int
    decreases s.len(),
{
    if s.len() == 0 {
        -1
    } else if s.last().0 == source {
        s.len() - 1
    } else {
        index_of(s.drop_last(), source)
    }
}

/// `s` with `f` applied to the entry of `source`, or with a fresh entry
/// for it, to which `f` applies, appended.
pub open spec fn with_entry(
    s: Seq<(SingleSource, LocalInput)>,
    source: SingleSource,
    f: spec_fn(LocalInput) -> LocalInput,
) -> Seq<(SingleSource, LocalInput)> {
    let i = index_of(s, source);
    if i >= 0 {
        s.update(i, (source, f(s[i].1)))
    } else {
        s.push((source, f(idle_local())))
    }
}

pub open spec fn pads_local_spec(s: Seq<(SingleSource, LocalInput)>, events: Seq<GamepadEvent>) -> Seq<(SingleSource, LocalInput)>
    decreases events.len(),
{
    if events.len() == 0 {
        s
    } else {
        let e = events.last();
        with_entry(
            pads_local_spec(s, events.drop_last()),
            SingleSource::Gamepad(e.gamepad_id_spec()),
            |i: LocalInput| pad_local_spec(i, e),
        )
    }
}

pub open spec fn keys_local_spec(s: Seq<(SingleSource, LocalInput)>, events: Seq<KeyboardEvent>) -> Seq<(SingleSource, LocalInput)>
    decreases events.len(),
{
    if events.len() == 0 {
        s
    } else {
        let e = events.last();
        with_entry(keys_local_spec(s, events.drop_last()), SingleSource::KeyboardMouse, |i: LocalInput| key_local_spec(i, e))
    }
}

proof fn lemma_index_of_range(s: Seq<(SingleSource, LocalInput)>, source: SingleSource)
    ensures
        -1 <= index_of(s, source) < s.len(),
        index_of(s, source) >= 0 ==> s[index_of(s, source)].0 == source,
        index_of(s, source) < 0 ==> forall|j: int| 0 <= j < s.len() ==> s[j].0 != source,
    decreases s.len(),
{
    if s.len() > 0 {
        lemma_index_of_range(s.drop_last(), source);
        assert forall|j: int| 0 <= j < s.len() - 1 implies s[j] == s.drop_last()[j] by {}
    }
}

/// The menu input of every local device that has sent an event, in the
/// order the devices first appeared.
#[derive(Clone, Debug)]
pub struct LocalInputs {
    pub sources: Vec<(SingleSource, LocalInput)>,
}

impl LocalInputs {
    pub fn new() -> (r: Self)
        ensures
            r.sources@.len() == 0,
    {
        LocalInputs { sources: Vec::new() }
    }

    /// The position of `source`'s entry, if it has one.
    pub fn find(&self, source: SingleSource) -> (r: Option<usize>)
        ensures
            r matches Some(i) ==> i == index_of(self.sources@, source),
            r is None ==> index_of(self.sources@, source) < 0,
    {
        let mut i: usize = self.sources.len();
        assert(self.sources@.subrange(0, i as int) =~= self.sources@);
        while i > 0
            invariant
                i <= self.sources@.len(),
                index_of(self.sources@, source) == index_of(self.sources@.subrange(0, i as int), source),
            decreases i,
        {
            let ghost pre = self.sources@.subrange(0, i as int);
            assert(pre.drop_last() =~= self.sources@.subrange(0, i - 1));
            if self.sources[i - 1].0 == source {
                return Some(i - 1);
            }
            i = i - 1;
        }
        None
    }

    /// `source`'s menu input, an idle one when it has sent nothing yet; an
    /// entry is made for it then.
    pub fn get_input(&mut self, source: SingleSource) -> (r: LocalInput)
        ensures
            index_of(old(self).sources@, source) >= 0 ==> final(self).sources@ == old(self).sources@ && r
                == old(self).sources@[index_of(old(self).sources@, source)].1,
            index_of(old(self).sources@, source) < 0 ==> final(self).sources@ == old(self).sources@.push(
                (source, idle_local()),
            ) && r == idle_local(),
    {
        proof {
            lemma_index_of_range(self.sources@, source);
        }
        match self.find(source) {
            Some(i) => {
                let entry = self.sources[i];
                assert(entry == self.sources@[i as int]);
                entry.1
            },
            None => {
                self.sources.push((source, LocalInput::default()));
                LocalInput::default()
            },
        }
    }

    fn apply_gamepad_event(&mut self, event: &GamepadEvent)
        ensures
            final(self).sources@ == with_entry(
                old(self).sources@,
                SingleSource::Gamepad(event.gamepad_id_spec()),
                |i: LocalInput| pad_local_spec(i, *event),
            ),
    {
        let source = SingleSource::Gamepad(event.gamepad_id());
        proof {
            lemma_index_of_range(self.sources@, source);
        }
        match self.find(source) {
            Some(i) => {
                let mut entry = self.sources[i].1;
                entry.apply_gamepad_input(event);
                self.sources.set(i, (source, entry));
                assert(self.sources@ == old(self).sources@.update(i as int, (source, pad_local_spec(old(self).sources@[i as int].1, *event))));
            },
            None => {
                let mut entry = LocalInput::default();
                entry.apply_gamepad_input(event);
                self.sources.push((source, entry));
            },
        }
    }

    fn apply_keyboard_event(&mut self, event: &KeyboardEvent)
        ensures
            final(self).sources@ == with_entry(
                old(self).sources@,
                SingleSource::KeyboardMouse,
                |i: LocalInput| key_local_spec(i, *event),
            ),
    {
        let source = SingleSource::KeyboardMouse;
        proof {
            lemma_index_of_range(self.sources@, source);
        }
        match self.find(source) {
            Some(i) => {
                let mut entry = self.sources[i].1;
                entry.apply_keyboard_input(event);
                self.sources.set(i, (source, entry));
                assert(self.sources@ == old(self).sources@.update(i as int, (source, key_local_spec(old(self).sources@[i as int].1, *event))));
            },
            None => {
                let mut entry = LocalInput::default();
                entry.apply_keyboard_input(event);
                self.sources.push((source, entry));
            },
        }
    }

    /// Reads one cycle's events: each gamepad's into its own entry, the
    /// keyboard's into the keyboard's entry.
    pub fn update(&mut self, gamepad: &Vec<GamepadEvent>, keyboard: &Vec<KeyboardEvent>)
        ensures
            final(self).sources@ == keys_local_spec(pads_local_spec(old(self).sources@, gamepad@), keyboard@),
    {
        let ghost start = self.sources@;
        let mut i: usize = 0;
        while i < gamepad.len()
            invariant
                i <= gamepad.len(),
                self.sources@ == pads_local_spec(start, gamepad@.subrange(0, i as int)),
            decreases gamepad.len() - i,
        {
            assert(gamepad@.subrange(0, i + 1).drop_last() =~= gamepad@.subrange(0, i as int));
            self.apply_gamepad_event(&gamepad[i]);
            i = i + 1;
        }
        assert(gamepad@.subrange(0, gamepad.len() as int) =~= gamepad@);
        let ghost mid = self.sources@;
        let mut k: usize = 0;
        while k < keyboard.len()
            invariant
                k <= keyboard.len(),
                self.sources@ == keys_local_spec(mid, keyboard@.subrange(0, k as int)),
            decreases keyboard.len() - k,
        {
            assert(keyboard@.subrange(0, k + 1).drop_last() =~= keyboard@.subrange(0, k as int));
            self.apply_keyboard_event(&keyboard[k]);
            k = k + 1;
        }
        assert(keyboard@.subrange(0, keyboard.len() as int) =~= keyboard@);
    }

    /// Rolls the edges of every device's input.
    pub fn advance(&mut self)
        ensures
            final(self).sources@.len() == old(self).sources@.len(),
            forall|j: int|
                0 <= j < old(self).sources@.len() ==> (#[trigger] final(self).sources@[j]).0 == old(self).sources@[j].0 && final(self).sources@[j].1 == advance_local_spec(old(self).sources@[j].1),
    {
        let mut i: usize = 0;
        while i < self.sources.len()
            invariant
                i <= self.sources@.len(),
                self.sources@.len() == old(self).sources@.len(),
                forall|j: int|
                    i <= j < self.sources@.len() ==> self.sources@[j] == old(self).sources@[j],
                forall|j: int|
                    0 <= j < i ==> (#[trigger] self.sources@[j]).0 == old(self).sources@[j].0
                        && self.sources@[j].1 == advance_local_spec(old(self).sources@[j].1),
            decreases self.sources@.len() - i,
        {
            let (source, mut entry) = self.sources[i];
            entry.advance();
            self.sources.set(i, (source, entry));
            i = i + 1;
        }
    }
}

/// The position of the last entry for `code` in `s`, or -1.
pub open spec fn key_index(s: Seq<(KeyCode, bool)>, code: KeyCode) -> int
    decreases s.len(),
{
    if s.len() == 0 {
        -1
    } else if s.last().0 == code {
        s.len() - 1
    } else {
        key_index(s.drop_last(), code)
    }
}

proof fn lemma_key_index_range(s: Seq<(KeyCode, bool)>, code: KeyCode)
    ensures
        -1 <= key_index(s, code) < s.len(),
        key_index(s, code) >= 0 ==> s[key_index(s, code)].0 == code,
    decreases s.len(),
{
    if s.len() > 0 {
        lemma_key_index_range(s.drop_last(), code);
    }
}

/// The keys' states after a key event: the key's entry is set, or one is
/// added for it; an unnamed key changes nothing.
pub open spec fn key_event_spec(s: Seq<(KeyCode, bool)>, event: KeyboardEvent) -> Seq<(KeyCode, bool)> {
    match event.key_code {
        None => s,
        Some(code) => if key_index(s, code) >= 0 {
            s.update(key_index(s, code), (code, event.pressed))
        } else {
            s.push((code, event.pressed))
        },
    }
}

pub open spec fn key_events_spec(s: Seq<(KeyCode, bool)>, events: Seq<KeyboardEvent>) -> Seq<(KeyCode, bool)>
    decreases events.len(),
{
    if events.len() == 0 {
        s
    } else {
        key_event_spec(key_events_spec(s, events.drop_last()), events.last())
    }
}

/// Whether each key that has been seen is down.
#[derive(Clone, Debug)]
pub struct KeyboardState {
    pub current: Vec<(KeyCode, bool)>,
}

impl KeyboardState {
    pub fn new() -> (r: Self)
        ensures
            r.current@.len() == 0,
    {
        KeyboardState { current: Vec::new() }
    }

    fn find(&self, code: KeyCode) -> (r: Option<usize>)
        ensures
            r matches Some(i) ==> i == key_index(self.current@, code),
            r is None ==> key_index(self.current@, code) < 0,
    {
        let mut i: usize = self.current.len();
        assert(self.current@.subrange(0, i as int) =~= self.current@);
        while i > 0
            invariant
                i <= self.current@.len(),
                key_index(self.current@, code) == key_index(self.current@.subrange(0, i as int), code),
            decreases i,
        {
            let ghost pre = self.current@.subrange(0, i as int);
            assert(pre.drop_last() =~= self.current@.subrange(0, i - 1));
            if self.current[i - 1].0 == code {
                return Some(i - 1);
            }
            i = i - 1;
        }
        None
    }

    /// Whether the key is down; a key never seen is up.
    pub fn is_pressed(&self, code: &KeyCode) -> (r: bool)
        ensures
            r == (key_index(self.current@, *code) >= 0 && self.current@[key_index(self.current@, *code)].1),
    {
        proof {
            lemma_key_index_range(self.current@, *code);
        }
        match self.find(*code) {
            Some(i) => self.current[i].1,
            None => false,
        }
    }

    pub fn apply_keyboard_event(&mut self, event: &KeyboardEvent)
        ensures
            final(self).current@ == key_event_spec(old(self).current@, *event),
    {
        let code = match event.key_code {
            Some(code) => code,
            None => return,
        };
        proof {
            lemma_key_index_range(self.current@, code);
        }
        match self.find(code) {
            Some(i) => {
                self.current.set(i, (code, event.pressed));
            },
            None => {
                self.current.push((code, event.pressed));
            },
        }
    }

    pub fn apply_keyboard_events(&mut self, events: &Vec<KeyboardEvent>)
        ensures
            final(self).current@ == key_events_spec(old(self).current@, events@),
    {
        let ghost start = self.current@;
        let mut i: usize = 0;
        while i < events.len()
            invariant
                i <= events.len(),
                self.current@ == key_events_spec(start, events@.subrange(0, i as int)),
            decreases events.len() - i,
        {
            assert(events@.subrange(0, i + 1).drop_last() =~= events@.subrange(0, i as int));
            self.apply_keyboard_event(&events[i]);
            i = i + 1;
        }
        assert(events@.subrange(0, events.len() as int) =~= events@);
    }
}

} // verus!
