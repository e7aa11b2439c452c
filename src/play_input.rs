//! One character's and one team's control snapshot.
use vstd::prelude::*;

use crate::press::{advance_spec, PressInput};
use crate::slot::PlayerSlot;

verus! {

/// The largest magnitude of a stick axis, in thousandths.
pub const AXIS_MAX: i32 = 1000;

/// The most negative value of a stick axis, in thousandths.
pub const AXIS_MIN: i32 = -1000;

/// One character's intent: a stick direction in thousandths per axis and
/// the two action buttons.
#[derive(Clone, Copy, Debug, PartialEq, Eq, Structural)]
pub struct PlayInput {
    pub x: i32,
    pub y: i32,
    pub shoot: PressInput,
    pub pass: PressInput,
}

/// A character at rest: centred stick, buttons released.
pub open spec fn rest_input() -> PlayInput {
    PlayInput {
        x: 0,
        y: 0,
        shoot: PressInput { current: false, last: false, held: 0 },
        pass: PressInput { current: false, last: false, held: 0 },
    }
}

pub open spec fn rest_team() -> PlayTeamInput {
    PlayTeamInput { p1: rest_input(), p2: rest_input() }
}

impl Default for PlayInput {
    fn default() -> (r: Self)
        ensures
            r == rest_input(),
    {
        PlayInput { x: 0, y: 0, shoot: PressInput::default(), pass: PressInput::default() }
    }
}

impl Default for PlayTeamInput {
    fn default() -> (r: Self)
        ensures
            r == rest_team(),
    {
        PlayTeamInput { p1: PlayInput::default(), p2: PlayInput::default() }
    }
}

impl Default for PlayTeamInputs {
    fn default() -> (r: Self)
        ensures
            r.clients[0] == rest_team(),
            r.clients[1] == rest_team(),
    {
        PlayTeamInputs { clients: [PlayTeamInput::default(), PlayTeamInput::default()] }
    }
}

impl PlayInput {
    /// Both axes lie in `[-AXIS_MAX, AXIS_MAX]`.
    pub open spec fn wf(&self) -> bool {
        AXIS_MIN <= self.x <= AXIS_MAX && AXIS_MIN <= self.y <= AXIS_MAX
    }

    pub open spec fn advance_spec(self) -> PlayInput {
        PlayInput { shoot: advance_spec(self.shoot), pass: advance_spec(self.pass), ..self }
    }

    /// Rolls the edges of both buttons.
    pub fn advance(&mut self)
        ensures
            *final(self) == old(self).advance_spec(),
    {
        self.shoot.advance();
        self.pass.advance();
    }
}

/// The two characters of one team.
#[derive(Clone, Copy, Debug, PartialEq, Eq, Structural)]
pub struct PlayTeamInput {
    pub p1: PlayInput,
    pub p2: PlayInput,
}

impl PlayTeamInput {
    pub open spec fn wf(&self) -> bool {
        self.p1.wf() && self.p2.wf()
    }
}

/// The snapshot that game logic reads each step: one entry per team.
#[derive(Clone, Copy, Debug)]
pub struct PlayTeamInputs {
    pub clients: [PlayTeamInput; 2],
}

impl PlayTeamInputs {
    pub open spec fn control_spec(&self, slot: PlayerSlot) -> PlayInput {
        match slot {
            PlayerSlot::A1 => self.clients[0].p1,
            PlayerSlot::A2 => self.clients[0].p2,
            PlayerSlot::B1 => self.clients[1].p1,
            PlayerSlot::B2 => self.clients[1].p2,
        }
    }

    /// The control of the character in `slot`.
    pub fn get_character_control(&self, slot: PlayerSlot) -> (r: &PlayInput)
        ensures
            *r == self.control_spec(slot),
    {
        match slot {
            PlayerSlot::A1 => &self.clients[0].p1,
            PlayerSlot::A2 => &self.clients[0].p2,
            PlayerSlot::B1 => &self.clients[1].p1,
            PlayerSlot::B2 => &self.clients[1].p2,
        }
    }

    /// Rolls the shoot and pass edges of all four characters; runs once per
    /// step after game logic has read the snapshot.
    pub fn advance_frame(&mut self)
        ensures
            forall|i: int|
                0 <= i < 2 ==> (#[trigger] final(self).clients[i]).p1 == old(self).clients[i].p1.advance_spec()
                    && final(self).clients[i].p2 == old(self).clients[i].p2.advance_spec(),
    {
        self.clients[0].p1.advance();
        self.clients[0].p2.advance();
        self.clients[1].p1.advance();
        self.clients[1].p2.advance();
    }
}

} // verus!
