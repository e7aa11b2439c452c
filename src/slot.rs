//! Teams and the four character slots of a match.
use vstd::prelude::*;

verus! {

#[derive(Clone, Copy, Debug, PartialEq, Eq, Hash, Structural)]
pub enum Team {
    A,
    B,
}

/// One of the four characters: two per team.
#[derive(Clone, Copy, Debug, PartialEq, Eq, Hash, Structural)]
pub enum PlayerSlot {
    A1,
    A2,
    B1,
    B2,
}

impl PlayerSlot {
    pub open spec fn partner_spec(self) -> PlayerSlot {
        match self {
            PlayerSlot::A1 => PlayerSlot::A2,
            PlayerSlot::A2 => PlayerSlot::A1,
            PlayerSlot::B1 => PlayerSlot::B2,
            PlayerSlot::B2 => PlayerSlot::B1,
        }
    }

    pub open spec fn team_spec(self) -> Team {
        match self {
            PlayerSlot::A1 | PlayerSlot::A2 => Team::A,
            PlayerSlot::B1 | PlayerSlot::B2 => Team::B,
        }
    }

    /// The other slot of the same team.
    pub fn partner(self) -> (r: PlayerSlot)
        ensures
            r == self.partner_spec(),
    {
        match self {
            PlayerSlot::A1 => PlayerSlot::A2,
            PlayerSlot::A2 => PlayerSlot::A1,
            PlayerSlot::B1 => PlayerSlot::B2,
            PlayerSlot::B2 => PlayerSlot::B1,
        }
    }

    pub fn team(self) -> (r: Team)
        ensures
            r == self.team_spec(),
    {
        match self {
            PlayerSlot::A1 | PlayerSlot::A2 => Team::A,
            PlayerSlot::B1 | PlayerSlot::B2 => Team::B,
        }
    }
}

} // verus!
