//! Who plays which character, and the runner a local match starts with.
use vstd::prelude::*;

use crate::collection::{PlayTeamInputCollector, SingleSource};
use crate::dense::{encode_spec, PlayInputDense};
use crate::events::{KeyCode, KeyboardEvent};
use crate::play_input::{rest_team, PlayInput};
use crate::session::OfflineRunner;
use crate::slot::PlayerSlot;

verus! {

/// One character's player.
#[derive(Clone, Copy, Debug, PartialEq, Eq, Structural)]
pub struct PlayerInfo {
    /// The join index of the player: 0 for the first who joined, and so on.
    pub number: usize,
    /// Where the character's control comes from.
    pub source: SingleSource,
    /// Whether one gamepad drives both characters of the team.
    pub dual_stick: bool,
    /// The character.
    pub slot: PlayerSlot,
}

/// A team's players.
#[derive(Clone, Copy, Debug, PartialEq, Eq, Structural)]
pub enum TeamInfo {
    /// One player drives both characters with one gamepad.
    SinglePlayer(PlayerInfo),
    /// Each character has its own player.
    TwoPlayer(PlayerInfo, PlayerInfo),
}

impl TeamInfo {
    pub open spec fn primary_spec(&self) -> PlayerInfo {
        match *self {
            TeamInfo::SinglePlayer(p) => p,
            TeamInfo::TwoPlayer(p, _) => p,
        }
    }

    pub open spec fn secondary_spec(&self) -> PlayerInfo {
        match *self {
            TeamInfo::SinglePlayer(p) => PlayerInfo { slot: p.slot.partner_spec(), ..p },
            TeamInfo::TwoPlayer(_, q) => q,
        }
    }

    pub fn is_dual_stick(&self) -> (r: bool)
        ensures
            r == (*self is SinglePlayer),
    {
        matches!(self, TeamInfo::SinglePlayer(..))
    }

    /// The player of the team's first character.
    pub fn primary(&self) -> (r: PlayerInfo)
        ensures
            r == self.primary_spec(),
    {
        match *self {
            TeamInfo::SinglePlayer(p) => p,
            TeamInfo::TwoPlayer(p, _) => p,
        }
    }

    /// The player of the team's second character: for a single player, the
    /// same player on the partner slot.
    pub fn secondary(&self) -> (r: PlayerInfo)
        ensures
            r == self.secondary_spec(),
    {
        match *self {
            TeamInfo::SinglePlayer(p) => PlayerInfo { slot: p.slot.partner(), ..p },
            TeamInfo::TwoPlayer(_, q) => q,
        }
    }
}

/// Both teams' players.
#[derive(Clone, Copy, Debug, PartialEq, Eq, Structural)]
pub struct PlayersInfo {
    pub team_a: TeamInfo,
    pub team_b: TeamInfo,
}

pub open spec fn default_players() -> PlayersInfo {
    PlayersInfo {
        team_a: TeamInfo::SinglePlayer(
            PlayerInfo { number: 0, source: SingleSource::Gamepad(0), dual_stick: true, slot: PlayerSlot::A1 },
        ),
        team_b: TeamInfo::SinglePlayer(
            PlayerInfo { number: 0, source: SingleSource::Gamepad(0), dual_stick: true, slot: PlayerSlot::B1 },
        ),
    }
}

impl Default for PlayersInfo {
    /// Gamepad 0 drives both teams with two sticks each.
    fn default() -> (r: Self)
        ensures
            r == default_players(),
    {
        PlayersInfo {
            team_a: TeamInfo::SinglePlayer(
                PlayerInfo { number: 0, source: SingleSource::Gamepad(0), dual_stick: true, slot: PlayerSlot::A1 },
            ),
            team_b: TeamInfo::SinglePlayer(
                PlayerInfo { number: 0, source: SingleSource::Gamepad(0), dual_stick: true, slot: PlayerSlot::B1 },
            ),
        }
    }
}

/// How a match is played.
#[derive(Clone, Copy, Debug, PartialEq, Eq, Structural)]
pub enum PlayMode {
    /// Over the network, with the established match socket (by the host's
    /// handle) and the local service type.
    Online { socket: u64, service_type: crate::menus::ServiceType },
    Offline(PlayersInfo),
}

/// The fixed-step runner of a local match: each team's collector bound to
/// its two players' sources.
pub fn offline_session_runner(players_info: PlayersInfo) -> (r: OfflineRunner)
    ensures
        r.wf(),
        r.accumulator == 0,
        r.last_run.is_none(),
        !r.disable_local_input,
        r.collectors[0].p1_source == players_info.team_a.primary_spec().source,
        r.collectors[0].p2_source == players_info.team_a.secondary_spec().source,
        r.collectors[1].p1_source == players_info.team_b.primary_spec().source,
        r.collectors[1].p2_source == players_info.team_b.secondary_spec().source,
        r.collectors[0].current == rest_team(),
        r.collectors[1].current == rest_team(),
{
    let a = PlayTeamInputCollector::new(players_info.team_a.primary().source, players_info.team_a.secondary().source);
    let b = PlayTeamInputCollector::new(players_info.team_b.primary().source, players_info.team_b.secondary().source);
    OfflineRunner::new(a, b)
}

/// How the camera fits the court into the window.
#[derive(Clone, Copy, Debug, PartialEq, Eq, Structural)]
pub enum CameraSize {
    FixedHeight(u32),
    FixedWidth(u32),
}

/// Fits the court (width, height in pixels) into the window: a window
/// wider than the court, in proportion, shows the court's full height,
/// otherwise its full width.
pub fn fix_camera_size(court: (u32, u32), window: (u32, u32)) -> (r: CameraSize)
    ensures
        window.0 as int * court.1 as int > court.0 as int * window.1 as int ==> r == CameraSize::FixedHeight(court.1),
        window.0 as int * court.1 as int <= court.0 as int * window.1 as int ==> r == CameraSize::FixedWidth(court.0),
{
    let (wx, wy) = (window.0 as u64, window.1 as u64);
    let (cx, cy) = (court.0 as u64, court.1 as u64);
    assert(wx * cy <= 0xffff_ffff * 0xffff_ffff && cx * wy <= 0xffff_ffff * 0xffff_ffff) by (nonlinear_arith)
        requires
            wx <= 0xffff_ffff,
            wy <= 0xffff_ffff,
            cx <= 0xffff_ffff,
            cy <= 0xffff_ffff,
    ;
    if wx * cy > cx * wy {
        CameraSize::FixedHeight(court.1)
    } else {
        CameraSize::FixedWidth(court.0)
    }
}

/// The wire form of a CPU player's chosen input, or the empty form when no
/// CPU players are placed.
pub fn get_cpu_input(input: Option<PlayInput>) -> (r: PlayInputDense)
    requires
        input matches Some(i) ==> i.wf(),
    ensures
        input matches Some(i) ==> r.0 == encode_spec(i),
        input is None ==> r.0 == 0,
{
    match input {
        Some(i) => i.get_dense_input(),
        None => PlayInputDense(0),
    }
}

/// How many F3 presses `events` holds.
pub open spec fn f3_presses(events: Seq<KeyboardEvent>) -> nat
    decreases events.len(),
{
    if events.len() == 0 {
        0
    } else {
        f3_presses(events.drop_last()) + if events.last().pressed && events.last().key_code == Some(KeyCode::F3) {
            1nat
        } else {
            0nat
        }
    }
}

/// Each F3 press flips whether each debug outline is hidden.
pub fn toggle_debug_lines(events: &Vec<KeyboardEvent>, hidden: &mut Vec<bool>)
    ensures
        final(hidden)@.len() == old(hidden)@.len(),
        forall|k: int|
            0 <= k < old(hidden)@.len() ==> #[trigger] final(hidden)@[k] == (old(hidden)@[k] != (f3_presses(events@) % 2
                == 1)),
{
    let mut flip = false;
    let mut i: usize = 0;
    while i < events.len()
        invariant
            i <= events.len(),
            flip == (f3_presses(events@.subrange(0, i as int)) % 2 == 1),
        decreases events.len() - i,
    {
        assert(events@.subrange(0, i + 1).drop_last() =~= events@.subrange(0, i as int));
        if events[i].pressed && events[i].key_code == Some(KeyCode::F3) {
            flip = !flip;
        }
        i = i + 1;
    }
    assert(events@.subrange(0, events.len() as int) =~= events@);
    let mut k: usize = 0;
    while k < hidden.len()
        invariant
            k <= hidden@.len(),
            hidden@.len() == old(hidden)@.len(),
            forall|j: int| k <= j < hidden@.len() ==> hidden@[j] == old(hidden)@[j],
            forall|j: int| 0 <= j < k ==> #[trigger] hidden@[j] == (old(hidden)@[j] != flip),
        decreases hidden@.len() - k,
    {
        let h = hidden[k];
        hidden.set(k, h != flip);
        k = k + 1;
    }
}

/// Hides every debug outline, as a match starts.
pub fn hide_debug_lines(hidden: &mut Vec<bool>)
    ensures
        final(hidden)@.len() == old(hidden)@.len(),
        forall|k: int| 0 <= k < old(hidden)@.len() ==> #[trigger] final(hidden)@[k],
{
    let mut k: usize = 0;
    while k < hidden.len()
        invariant
            k <= hidden@.len(),
            hidden@.len() == old(hidden)@.len(),
            forall|j: int| 0 <= j < k ==> #[trigger] hidden@[j],
        decreases hidden@.len() - k,
    {
        hidden.set(k, true);
        k = k + 1;
    }
}

} // verus!
