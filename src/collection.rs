//! Routes one cycle's device events to the two character slots of a team.
use vstd::prelude::*;

use crate::events::{
    GamepadAxis, GamepadButton, GamepadEvent, KeyCode, KeyboardEvent, MouseButton, MouseButtonEvent,
};
use crate::play_input::{rest_team, PlayInput, PlayTeamInput, AXIS_MAX, AXIS_MIN};
use crate::press::{advance_spec, apply_spec};
use crate::slot::PlayerSlot;

verus! {

/// Where one character's control comes from.
#[derive(Clone, Copy, Debug, Default, PartialEq, Eq, Hash, Structural)]
pub enum SingleSource {
    #[default]
    KeyboardMouse,
    CPU(PlayerSlot),
    Gamepad(u32),
}

/// How the two characters of a team are driven.
#[derive(Clone, Copy, Debug, PartialEq, Eq, Hash, Structural)]
pub enum TeamSource {
    /// One gamepad drives both characters.
    TwinStick(u32),
    /// Each character has its own source.
    TwoPlayer(SingleSource, SingleSource),
}

impl Default for TeamSource {
    fn default() -> (r: Self)
        ensures
            r == TeamSource::TwinStick(0),
    {
        TeamSource::TwinStick(0)
    }
}

pub open spec fn clamp_axis(v: i32) -> i32 {
    if v < AXIS_MIN {
        AXIS_MIN
    } else if v > AXIS_MAX {
        AXIS_MAX
    } else {
        v
    }
}

fn clamp_axis_exec(v: i32) -> (r: i32)
    ensures
        r == clamp_axis(v),
{
    if v < AXIS_MIN {
        AXIS_MIN
    } else if v > AXIS_MAX {
        AXIS_MAX
    } else {
        v
    }
}

/// The horizontal axis that a character reads: the left stick's, or the
/// right stick's for the second character of a shared gamepad.
pub open spec fn x_axis(secondary: bool) -> GamepadAxis {
    if secondary {
        GamepadAxis::RightStickX
    } else {
        GamepadAxis::LeftStickX
    }
}

pub open spec fn y_axis(secondary: bool) -> GamepadAxis {
    if secondary {
        GamepadAxis::RightStickY
    } else {
        GamepadAxis::LeftStickY
    }
}

fn x_axis_exec(secondary: bool) -> (r: GamepadAxis)
    ensures
        r == x_axis(secondary),
{
    if secondary {
        GamepadAxis::RightStickX
    } else {
        GamepadAxis::LeftStickX
    }
}

fn y_axis_exec(secondary: bool) -> (r: GamepadAxis)
    ensures
        r == y_axis(secondary),
{
    if secondary {
        GamepadAxis::RightStickY
    } else {
        GamepadAxis::LeftStickY
    }
}

/// A key event read by a keyboard-driven character: WASD move, J shoots,
/// K passes.
pub open spec fn key_spec(input: PlayInput, event: KeyboardEvent) -> PlayInput {
    match event.key_code {
        Some(KeyCode::W) => PlayInput { y: if event.pressed { AXIS_MAX } else { 0 }, ..input },
        Some(KeyCode::S) => PlayInput { y: if event.pressed { AXIS_MIN } else { 0 }, ..input },
        Some(KeyCode::A) => PlayInput { x: if event.pressed { AXIS_MIN } else { 0 }, ..input },
        Some(KeyCode::D) => PlayInput { x: if event.pressed { AXIS_MAX } else { 0 }, ..input },
        Some(KeyCode::J) => PlayInput { shoot: apply_spec(input.shoot, event.pressed), ..input },
        Some(KeyCode::K) => PlayInput { pass: apply_spec(input.pass, event.pressed), ..input },
        _ => input,
    }
}

/// A mouse event read by a keyboard-driven character: left shoots, right
/// passes.
pub open spec fn mouse_spec(input: PlayInput, event: MouseButtonEvent) -> PlayInput {
    match event.button {
        MouseButton::Left => PlayInput { shoot: apply_spec(input.shoot, event.pressed), ..input },
        MouseButton::Right => PlayInput { pass: apply_spec(input.pass, event.pressed), ..input },
        _ => input,
    }
}

/// A gamepad event read by the character bound to gamepad `id`. The primary
/// character reads the left stick, the secondary one of a shared gamepad the
/// right stick; both read the face buttons and triggers, except that the
/// left bumper passes for the primary character only.
pub open spec fn pad_spec(input: PlayInput, event: GamepadEvent, id: u32, secondary: bool) -> PlayInput {
    if event.gamepad_id_spec() != id {
        input
    } else {
        match event {
            GamepadEvent::Axis { axis, value, .. } => {
                if axis == x_axis(secondary) {
                    PlayInput { x: clamp_axis(value), ..input }
                } else if axis == y_axis(secondary) {
                    PlayInput { y: clamp_axis(value), ..input }
                } else {
                    input
                }
            },
            GamepadEvent::Button { button, pressed, .. } => match button {
                GamepadButton::South | GamepadButton::RightTrigger2 | GamepadButton::LeftTrigger2 => PlayInput {
                    shoot: apply_spec(input.shoot, pressed),
                    ..input
                },
                GamepadButton::West | GamepadButton::RightTrigger => PlayInput {
                    pass: apply_spec(input.pass, pressed),
                    ..input
                },
                GamepadButton::LeftTrigger => if secondary {
                    input
                } else {
                    PlayInput { pass: apply_spec(input.pass, pressed), ..input }
                },
                _ => input,
            },
            _ => input,
        }
    }
}

pub open spec fn keys_spec(input: PlayInput, events: Seq<KeyboardEvent>) -> PlayInput
    decreases events.len(),
{
    if events.len() == 0 {
        input
    } else {
        key_spec(keys_spec(input, events.drop_last()), events.last())
    }
}

pub open spec fn mice_spec(input: PlayInput, events: Seq<MouseButtonEvent>) -> PlayInput
    decreases events.len(),
{
    if events.len() == 0 {
        input
    } else {
        mouse_spec(mice_spec(input, events.drop_last()), events.last())
    }
}

pub open spec fn pads_spec(input: PlayInput, events: Seq<GamepadEvent>, id: u32, secondary: bool) -> PlayInput
    decreases events.len(),
{
    if events.len() == 0 {
        input
    } else {
        pad_spec(pads_spec(input, events.drop_last(), id, secondary), events.last(), id, secondary)
    }
}

/// What one character reads of a cycle's events, given its source.
pub open spec fn slot_spec(
    input: PlayInput,
    source: SingleSource,
    secondary: bool,
    mouse: Seq<MouseButtonEvent>,
    keyboard: Seq<KeyboardEvent>,
    gamepad: Seq<GamepadEvent>,
) -> PlayInput {
    match source {
        SingleSource::KeyboardMouse => mice_spec(keys_spec(input, keyboard), mouse),
        SingleSource::Gamepad(id) => pads_spec(input, gamepad, id, secondary),
        SingleSource::CPU(_) => input,
    }
}

fn apply_keyboard_event_primary(input: &mut PlayInput, event: &KeyboardEvent)
    requires
        old(input).wf(),
    ensures
        *final(input) == key_spec(*old(input), *event),
        final(input).wf(),
{
    match event.key_code {
        Some(KeyCode::W) => {
            input.y = if event.pressed { AXIS_MAX } else { 0 };
        },
        Some(KeyCode::S) => {
            input.y = if event.pressed { AXIS_MIN } else { 0 };
        },
        Some(KeyCode::A) => {
            input.x = if event.pressed { AXIS_MIN } else { 0 };
        },
        Some(KeyCode::D) => {
            input.x = if event.pressed { AXIS_MAX } else { 0 };
        },
        Some(KeyCode::J) => {
            input.shoot.apply_bool(event.pressed);
        },
        Some(KeyCode::K) => {
            input.pass.apply_bool(event.pressed);
        },
        _ => {},
    }
}

fn apply_mouse_event_primary(input: &mut PlayInput, event: &MouseButtonEvent)
    requires
        old(input).wf(),
    ensures
        *final(input) == mouse_spec(*old(input), *event),
        final(input).wf(),
{
    match event.button {
        MouseButton::Left => input.shoot.apply_bool(event.pressed),
        MouseButton::Right => input.pass.apply_bool(event.pressed),
        _ => {},
    }
}

fn apply_gamepad_event(input: &mut PlayInput, event: &GamepadEvent, gamepad_id: u32, secondary: bool)
    requires
        old(input).wf(),
    ensures
        *final(input) == pad_spec(*old(input), *event, gamepad_id, secondary),
        final(input).wf(),
{
    if event.gamepad_id() != gamepad_id {
        return;
    }
    match *event {
        GamepadEvent::Axis { axis, value, .. } => {
            if axis == x_axis_exec(secondary) {
                input.x = clamp_axis_exec(value);
            } else if axis == y_axis_exec(secondary) {
                input.y = clamp_axis_exec(value);
            }
        },
        GamepadEvent::Button { button, pressed, .. } => match button {
            GamepadButton::South | GamepadButton::RightTrigger2 | GamepadButton::LeftTrigger2 => {
                input.shoot.apply_bool(pressed);
            },
            GamepadButton::West | GamepadButton::RightTrigger => {
                input.pass.apply_bool(pressed);
            },
            GamepadButton::LeftTrigger => {
                if !secondary {
                    input.pass.apply_bool(pressed);
                }
            },
            _ => {},
        },
        _ => {},
    }
}

/// The left-stick reading of a gamepad event, for the character that owns
/// the gamepad alone or first.
fn apply_gamepad_event_primary(input: &mut PlayInput, event: &GamepadEvent, gamepad_id: u32)
    requires
        old(input).wf(),
    ensures
        *final(input) == pad_spec(*old(input), *event, gamepad_id, false),
        final(input).wf(),
{
    apply_gamepad_event(input, event, gamepad_id, false);
}

/// The right-stick reading of a gamepad event, for the second character of
/// a shared gamepad.
fn apply_gamepad_event_secondary(input: &mut PlayInput, event: &GamepadEvent, gamepad_id: u32)
    requires
        old(input).wf(),
    ensures
        *final(input) == pad_spec(*old(input), *event, gamepad_id, true),
        final(input).wf(),
{
    apply_gamepad_event(input, event, gamepad_id, true);
}

fn apply_keyboard_events(input: &mut PlayInput, events: &Vec<KeyboardEvent>)
    requires
        old(input).wf(),
    ensures
        *final(input) == keys_spec(*old(input), events@),
        final(input).wf(),
{
    let ghost start = *input;
    let mut i: usize = 0;
    while i < events.len()
        invariant
            i <= events.len(),
            *input == keys_spec(start, events@.subrange(0, i as int)),
            input.wf(),
        decreases events.len() - i,
    {
        assert(events@.subrange(0, i + 1).drop_last() =~= events@.subrange(0, i as int));
        apply_keyboard_event_primary(input, &events[i]);
        i = i + 1;
    }
    assert(events@.subrange(0, events.len() as int) =~= events@);
}

fn apply_mouse_events(input: &mut PlayInput, events: &Vec<MouseButtonEvent>)
    requires
        old(input).wf(),
    ensures
        *final(input) == mice_spec(*old(input), events@),
        final(input).wf(),
{
    let ghost start = *input;
    let mut i: usize = 0;
    while i < events.len()
        invariant
            i <= events.len(),
            *input == mice_spec(start, events@.subrange(0, i as int)),
            input.wf(),
        decreases events.len() - i,
    {
        assert(events@.subrange(0, i + 1).drop_last() =~= events@.subrange(0, i as int));
        apply_mouse_event_primary(input, &events[i]);
        i = i + 1;
    }
    assert(events@.subrange(0, events.len() as int) =~= events@);
}

fn apply_gamepad_events(input: &mut PlayInput, events: &Vec<GamepadEvent>, id: u32, secondary: bool)
    requires
        old(input).wf(),
    ensures
        *final(input) == pads_spec(*old(input), events@, id, secondary),
        final(input).wf(),
{
    let ghost start = *input;
    let mut i: usize = 0;
    while i < events.len()
        invariant
            i <= events.len(),
            *input == pads_spec(start, events@.subrange(0, i as int), id, secondary),
            input.wf(),
        decreases events.len() - i,
    {
        assert(events@.subrange(0, i + 1).drop_last() =~= events@.subrange(0, i as int));
        if secondary {
            apply_gamepad_event_secondary(input, &events[i], id);
        } else {
            apply_gamepad_event_primary(input, &events[i], id);
        }
        i = i + 1;
    }
    assert(events@.subrange(0, events.len() as int) =~= events@);
}

/// Gathers the input of a team's two characters from their sources.
#[derive(Clone, Copy, Debug, PartialEq, Eq, Structural)]
pub struct PlayTeamInputCollector {
    pub p1_source: SingleSource,
    pub p2_source: SingleSource,
    pub current: PlayTeamInput,
}

impl PlayTeamInputCollector {
    pub open spec fn wf(&self) -> bool {
        self.current.wf()
    }

    /// The second character reads the right stick when both characters are
    /// bound to the same gamepad.
    pub open spec fn dual_stick_spec(&self) -> bool {
        self.p1_source == self.p2_source && self.p2_source is Gamepad
    }

    pub fn new(p1_source: SingleSource, p2_source: SingleSource) -> (r: Self)
        ensures
            r.p1_source == p1_source,
            r.p2_source == p2_source,
            r.current == rest_team(),
            r.wf(),
    {
        let r = PlayTeamInputCollector { p1_source, p2_source, current: PlayTeamInput::default() };
        r
    }

    pub fn set_sources(&mut self, p1_source: SingleSource, p2_source: SingleSource)
        ensures
            *final(self) == (PlayTeamInputCollector { p1_source, p2_source, ..*old(self) }),
    {
        self.p1_source = p1_source;
        self.p2_source = p2_source;
    }

    /// Applies one cycle's events to both characters by their sources. A
    /// character driven by the CPU reads no device events.
    pub fn apply_inputs(
        &mut self,
        mouse: &Vec<MouseButtonEvent>,
        keyboard: &Vec<KeyboardEvent>,
        gamepad: &Vec<GamepadEvent>,
    )
        requires
            old(self).wf(),
        ensures
            final(self).wf(),
            final(self).p1_source == old(self).p1_source,
            final(self).p2_source == old(self).p2_source,
            final(self).current.p1 == slot_spec(old(self).current.p1, old(self).p1_source, false, mouse@, keyboard@, gamepad@),
            final(self).current.p2 == slot_spec(
                old(self).current.p2,
                old(self).p2_source,
                old(self).dual_stick_spec(),
                mouse@,
                keyboard@,
                gamepad@,
            ),
    {
        match self.p1_source {
            SingleSource::KeyboardMouse => {
                apply_keyboard_events(&mut self.current.p1, keyboard);
                apply_mouse_events(&mut self.current.p1, mouse);
            },
            SingleSource::Gamepad(id) => {
                apply_gamepad_events(&mut self.current.p1, gamepad, id, false);
            },
            SingleSource::CPU(_) => {},
        }
        match self.p2_source {
            SingleSource::KeyboardMouse => {
                apply_keyboard_events(&mut self.current.p2, keyboard);
                apply_mouse_events(&mut self.current.p2, mouse);
            },
            SingleSource::Gamepad(id) => {
                let shared = self.p1_source == self.p2_source;
                apply_gamepad_events(&mut self.current.p2, gamepad, id, shared);
            },
            SingleSource::CPU(_) => {},
        }
    }

    /// Writes the CPU players' input into the characters bound to the CPU,
    /// then applies the cycle's device events.
    pub fn offline_apply_inputs(
        &mut self,
        cpu: &PlayTeamInput,
        mouse: &Vec<MouseButtonEvent>,
        keyboard: &Vec<KeyboardEvent>,
        gamepad: &Vec<GamepadEvent>,
    )
        requires
            old(self).wf(),
            cpu.wf(),
        ensures
            final(self).wf(),
            final(self).p1_source == old(self).p1_source,
            final(self).p2_source == old(self).p2_source,
            final(self).current.p1 == slot_spec(
                if old(self).p1_source is CPU { cpu.p1 } else { old(self).current.p1 },
                old(self).p1_source,
                false,
                mouse@,
                keyboard@,
                gamepad@,
            ),
            final(self).current.p2 == slot_spec(
                if old(self).p2_source is CPU { cpu.p2 } else { old(self).current.p2 },
                old(self).p2_source,
                old(self).dual_stick_spec(),
                mouse@,
                keyboard@,
                gamepad@,
            ),
    {
        if let SingleSource::CPU(_) = self.p1_source {
            self.current.p1 = cpu.p1;
        }
        if let SingleSource::CPU(_) = self.p2_source {
            self.current.p2 = cpu.p2;
        }
        self.apply_inputs(mouse, keyboard, gamepad);
    }

    /// The team's current snapshot.
    pub fn get_control(&self) -> (r: &PlayTeamInput)
        ensures
            *r == self.current,
    {
        &self.current
    }

    /// Rolls the shoot and pass edges of both characters.
    pub fn advance_frame(&mut self)
        ensures
            final(self).p1_source == old(self).p1_source,
            final(self).p2_source == old(self).p2_source,
            final(self).current.p1 == old(self).current.p1.advance_spec(),
            final(self).current.p2 == old(self).current.p2.advance_spec(),
    {
        self.current.p1.advance();
        self.current.p2.advance();
    }
}

} // verus!
