//! The team-select screen: gamepads join, pick a character slot, confirm,
//! and optionally take the partner slot too.
use vstd::prelude::*;

use crate::collection::SingleSource;
use crate::local_input::LocalInput;
use crate::press::PressInput;
use crate::scene::{PlayerInfo, PlayersInfo, TeamInfo};
use crate::slot::{PlayerSlot, Team};

verus! {

/// Who plays a confirmed player's partner slot when the player takes both.
#[derive(Clone, Copy, Debug, PartialEq, Eq, Structural)]
pub enum PartnerSetting {
    CPU,
    TwinStick,
}

impl PartnerSetting {
    pub fn cycle(&mut self)
        ensures
            *final(self) == if *old(self) == PartnerSetting::CPU { PartnerSetting::TwinStick } else { PartnerSetting::CPU },
    {
        match self {
            PartnerSetting::CPU => *self = PartnerSetting::TwinStick,
            PartnerSetting::TwinStick => *self = PartnerSetting::CPU,
        }
    }
}

/// The progress of one gamepad through the screen.
#[derive(Clone, Copy, Debug, PartialEq, Eq, Structural)]
pub enum Join {
    Empty,
    /// Joined, no slot picked yet.
    Joined { gamepad: u32 },
    /// Hovering over a slot.
    Hover { gamepad: u32, slot: PlayerSlot },
    /// Confirmed on a slot.
    Single { gamepad: u32, slot: PlayerSlot, partner_setting: PartnerSetting },
    /// Confirmed on a slot and taking its partner slot too.
    Double { gamepad: u32, slot: PlayerSlot, partner_setting: PartnerSetting },
}

impl Join {
    pub open spec fn gamepad_spec(&self) -> Option<u32> {
        match *self {
            Join::Empty => None,
            Join::Joined { gamepad } => Some(gamepad),
            Join::Hover { gamepad, .. } => Some(gamepad),
            Join::Single { gamepad, .. } => Some(gamepad),
            Join::Double { gamepad, .. } => Some(gamepad),
        }
    }

    pub open spec fn slot_spec(&self) -> Option<PlayerSlot> {
        match *self {
            Join::Hover { slot, .. } => Some(slot),
            Join::Single { slot, .. } => Some(slot),
            Join::Double { slot, .. } => Some(slot),
            _ => None,
        }
    }

    pub open spec fn hovered_spec(&self) -> bool {
        self.slot_spec().is_some()
    }

    pub open spec fn single_spec(&self) -> bool {
        *self is Single || *self is Double
    }

    pub open spec fn dual_stick_spec(&self) -> bool {
        match *self {
            Join::Single { partner_setting, .. } => partner_setting == PartnerSetting::TwinStick,
            Join::Double { partner_setting, .. } => partner_setting == PartnerSetting::TwinStick,
            _ => false,
        }
    }

    pub fn join(&mut self, gamepad_id: u32)
        requires
            *old(self) is Empty,
        ensures
            *final(self) == (Join::Joined { gamepad: gamepad_id }),
    {
        *self = Join::Joined { gamepad: gamepad_id };
    }

    pub fn unjoin(&mut self)
        requires
            *old(self) is Joined,
        ensures
            *final(self) == Join::Empty,
    {
        *self = Join::Empty;
    }

    pub fn hover(&mut self, slot: PlayerSlot)
        requires
            *old(self) is Joined,
        ensures
            *final(self) == (Join::Hover { gamepad: old(self).gamepad_spec().unwrap(), slot }),
    {
        if let Join::Joined { gamepad } = *self {
            *self = Join::Hover { gamepad, slot };
        }
    }

    pub fn unhover(&mut self)
        requires
            *old(self) is Hover,
        ensures
            *final(self) == (Join::Joined { gamepad: old(self).gamepad_spec().unwrap() }),
    {
        if let Join::Hover { gamepad, .. } = *self {
            *self = Join::Joined { gamepad };
        }
    }

    pub fn single(&mut self)
        requires
            *old(self) is Hover,
        ensures
            *final(self) == (Join::Single {
                gamepad: old(self).gamepad_spec().unwrap(),
                slot: old(self).slot_spec().unwrap(),
                partner_setting: PartnerSetting::CPU,
            }),
    {
        if let Join::Hover { gamepad, slot } = *self {
            *self = Join::Single { gamepad, slot, partner_setting: PartnerSetting::CPU };
        }
    }

    pub fn unsingle(&mut self)
        requires
            *old(self) is Single,
        ensures
            *final(self) == (Join::Hover { gamepad: old(self).gamepad_spec().unwrap(), slot: old(self).slot_spec().unwrap() }),
    {
        if let Join::Single { gamepad, slot, .. } = *self {
            *self = Join::Hover { gamepad, slot };
        }
    }

    pub fn double(&mut self)
        requires
            *old(self) is Single,
        ensures
            *final(self) == (Join::Double {
                gamepad: old(self).gamepad_spec().unwrap(),
                slot: old(self).slot_spec().unwrap(),
                partner_setting: old(self)->Single_partner_setting,
            }),
    {
        if let Join::Single { gamepad, slot, partner_setting } = *self {
            *self = Join::Double { gamepad, slot, partner_setting };
        }
    }

    pub fn undouble(&mut self)
        requires
            *old(self) is Double,
        ensures
            *final(self) == (Join::Single {
                gamepad: old(self).gamepad_spec().unwrap(),
                slot: old(self).slot_spec().unwrap(),
                partner_setting: old(self)->Double_partner_setting,
            }),
    {
        if let Join::Double { gamepad, slot, partner_setting } = *self {
            *self = Join::Single { gamepad, slot, partner_setting };
        }
    }

    pub fn get_player_slot(&self) -> (r: Option<PlayerSlot>)
        ensures
            r == self.slot_spec(),
    {
        match *self {
            Join::Hover { slot, .. } => Some(slot),
            Join::Single { slot, .. } => Some(slot),
            Join::Double { slot, .. } => Some(slot),
            _ => None,
        }
    }

    pub fn is_gamepad_id(&self, gamepad_id: u32) -> (r: bool)
        ensures
            r == (self.gamepad_spec() == Some(gamepad_id)),
    {
        match *self {
            Join::Empty => false,
            Join::Joined { gamepad } => gamepad == gamepad_id,
            Join::Hover { gamepad, .. } => gamepad == gamepad_id,
            Join::Single { gamepad, .. } => gamepad == gamepad_id,
            Join::Double { gamepad, .. } => gamepad == gamepad_id,
        }
    }

    pub fn is_player_id(&self, id: PlayerSlot) -> (r: bool)
        ensures
            r == (self.slot_spec() == Some(id)),
    {
        match *self {
            Join::Hover { slot, .. } => slot == id,
            Join::Single { slot, .. } => slot == id,
            Join::Double { slot, .. } => slot == id,
            _ => false,
        }
    }

    pub fn is_empty(&self) -> (r: bool)
        ensures
            r == (*self is Empty),
    {
        matches!(self, Join::Empty)
    }

    pub fn is_joined(&self) -> (r: bool)
        ensures
            r == !(*self is Empty),
    {
        !matches!(self, Join::Empty)
    }

    pub fn is_hovered(&self) -> (r: bool)
        ensures
            r == self.hovered_spec(),
    {
        matches!(self, Join::Hover { .. } | Join::Single { .. } | Join::Double { .. })
    }

    pub fn is_single(&self) -> (r: bool)
        ensures
            r == self.single_spec(),
    {
        matches!(self, Join::Single { .. } | Join::Double { .. })
    }

    pub fn is_double(&self) -> (r: bool)
        ensures
            r == (*self is Double),
    {
        matches!(self, Join::Double { .. })
    }

    pub fn is_dual_stick(&self) -> (r: bool)
        ensures
            r == self.dual_stick_spec(),
    {
        match *self {
            Join::Single { partner_setting, .. } => partner_setting == PartnerSetting::TwinStick,
            Join::Double { partner_setting, .. } => partner_setting == PartnerSetting::TwinStick,
            _ => false,
        }
    }
}

pub open spec fn reverse_spec(j: Join) -> Join {
    match j {
        Join::Double { gamepad, slot, partner_setting } => Join::Single { gamepad, slot, partner_setting },
        Join::Single { gamepad, slot, .. } => Join::Hover { gamepad, slot },
        Join::Hover { gamepad, .. } => Join::Joined { gamepad },
        Join::Joined { .. } => Join::Empty,
        Join::Empty => Join::Empty,
    }
}

pub open spec fn has_pad(id: u32) -> spec_fn(Join) -> bool {
    |j: Join| j.gamepad_spec() == Some(id)
}

pub open spec fn is_free() -> spec_fn(Join) -> bool {
    |j: Join| j is Empty
}

pub open spec fn on_slot(slot: PlayerSlot) -> spec_fn(Join) -> bool {
    |j: Join| j.slot_spec() == Some(slot)
}

pub open spec fn hovering() -> spec_fn(Join) -> bool {
    |j: Join| j.hovered_spec()
}

pub open spec fn twin_stick() -> spec_fn(Join) -> bool {
    |j: Join| j.dual_stick_spec()
}

pub open spec fn takes_both() -> spec_fn(Join) -> bool {
    |j: Join| j is Double
}

pub open spec fn confirmed() -> spec_fn(Join) -> bool {
    |j: Join| j.single_spec()
}

pub open spec fn any_join() -> spec_fn(Join) -> bool {
    |j: Join| true
}

/// The first position at or after `k` where `p` holds, or the length.
pub open spec fn first_from(js: Seq<Join>, p: spec_fn(Join) -> bool, k: int) -> int
    decreases js.len() - k,
{
    if k >= js.len() {
        js.len() as int
    } else if p(js[k]) {
        k
    } else {
        first_from(js, p, k + 1)
    }
}

pub open spec fn first(js: Seq<Join>, p: spec_fn(Join) -> bool) -> int {
    first_from(js, p, 0)
}

proof fn lemma_first_from(js: Seq<Join>, p: spec_fn(Join) -> bool, k: int)
    requires
        0 <= k <= js.len(),
    ensures
        k <= first_from(js, p, k) <= js.len(),
        first_from(js, p, k) < js.len() ==> p(js[first_from(js, p, k)]),
        forall|j: int| k <= j < first_from(js, p, k) ==> !p(#[trigger] js[j]),
    decreases js.len() - k,
{
    if k < js.len() && !p(js[k]) {
        lemma_first_from(js, p, k + 1);
    }
}

pub open spec fn add_spec(js: Seq<Join>, id: u32) -> Seq<Join> {
    let known = first(js, has_pad(id));
    let free = first(js, is_free());
    if known < js.len() || free == js.len() {
        js
    } else {
        js.update(free, Join::Joined { gamepad: id })
    }
}

/// Confirming: a hovering join confirms its slot; a confirmed one takes the
/// partner slot too while nobody hovers there.
pub open spec fn ready_spec(js: Seq<Join>, id: u32) -> Seq<Join> {
    let k = first(js, has_pad(id));
    if k >= js.len() {
        js
    } else {
        match js[k] {
            Join::Hover { gamepad, slot } => js.update(
                k,
                Join::Single { gamepad, slot, partner_setting: PartnerSetting::CPU },
            ),
            Join::Single { gamepad, slot, partner_setting } => if !slot_any(js, slot.partner_spec(), hovering()) {
                js.update(k, Join::Double { gamepad, slot, partner_setting })
            } else {
                js
            },
            _ => js,
        }
    }
}

pub open spec fn reverse_all_spec(js: Seq<Join>, id: u32) -> Seq<Join> {
    Seq::new(js.len(), |k: int| if js[k].gamepad_spec() == Some(id) { reverse_spec(js[k]) } else { js[k] })
}

/// Moving a gamepad's joins toward one team from position `k` on: a join
/// hovering on the other team leaves its slot, a join without a slot hovers
/// on `next`, and a confirmed join stops the walk and gives its slot.
pub open spec fn side_loop(js: Seq<Join>, id: u32, next: Option<PlayerSlot>, away: Team, k: int) -> (Seq<Join>, Option<PlayerSlot>)
    decreases js.len() - k,
{
    if k < 0 || k >= js.len() {
        (js, None)
    } else if js[k].gamepad_spec() == Some(id) {
        match js[k] {
            Join::Single { slot, .. } => (js, Some(slot)),
            Join::Hover { gamepad, slot } => side_loop(
                if slot.team_spec() == away { js.update(k, Join::Joined { gamepad }) } else { js },
                id,
                next,
                away,
                k + 1,
            ),
            Join::Joined { gamepad } => side_loop(
                match next {
                    Some(p) => js.update(k, Join::Hover { gamepad, slot: p }),
                    None => js,
                },
                id,
                next,
                away,
                k + 1,
            ),
            _ => side_loop(js, id, next, away, k + 1),
        }
    } else {
        side_loop(js, id, next, away, k + 1)
    }
}

pub open spec fn cycle_partner(j: Join) -> Join {
    match j {
        Join::Single { gamepad, slot, partner_setting } => Join::Single {
            gamepad,
            slot,
            partner_setting: if partner_setting == PartnerSetting::CPU {
                PartnerSetting::TwinStick
            } else {
                PartnerSetting::CPU
            },
        },
        _ => j,
    }
}

/// A sideways press of a gamepad: the walk of `side_loop`, then, when it
/// stopped on a confirmed slot whose partner slot nobody hovers, the
/// partner setting of the first join on that slot switches.
pub open spec fn side_spec(js: Seq<Join>, id: u32, next: Option<PlayerSlot>, away: Team) -> Seq<Join> {
    let (js2, stop) = side_loop(js, id, next, away, 0);
    match stop {
        Some(ps) => if !slot_any(js2, ps.partner_spec(), hovering()) {
            let t = first(js2, on_slot(ps));
            if t < js2.len() {
                js2.update(t, cycle_partner(js2[t]))
            } else {
                js2
            }
        } else {
            js2
        },
        None => js2,
    }
}

/// Whether the join writes the player of slot `s`: a confirmed join writes
/// its own slot, a join taking both slots also the partner slot.
pub open spec fn writes(j: Join, s: PlayerSlot) -> bool {
    match j {
        Join::Single { slot, .. } => slot == s,
        Join::Double { slot, .. } => slot == s || slot.partner_spec() == s,
        _ => false,
    }
}

pub open spec fn cpu_info(s: PlayerSlot) -> PlayerInfo {
    PlayerInfo { number: 0, source: SingleSource::CPU(s), dual_stick: false, slot: s }
}

/// The player that join `j`, at position `k`, writes for slot `s`.
pub open spec fn written(j: Join, k: int, s: PlayerSlot) -> PlayerInfo {
    match j {
        Join::Single { gamepad, .. } => PlayerInfo {
            number: k as usize,
            source: SingleSource::Gamepad(gamepad),
            dual_stick: false,
            slot: s,
        },
        Join::Double { gamepad, slot, partner_setting } => if slot != s && partner_setting == PartnerSetting::CPU {
            cpu_info(s)
        } else {
            PlayerInfo {
                number: k as usize,
                source: SingleSource::Gamepad(gamepad),
                dual_stick: partner_setting == PartnerSetting::TwinStick,
                slot: s,
            }
        },
        _ => cpu_info(s),
    }
}

/// The last position before `n` whose join writes slot `s`, or -1.
pub open spec fn last_writer(js: Seq<Join>, s: PlayerSlot, n: int) -> int
    decreases n,
{
    if n <= 0 {
        -1
    } else if writes(js[n - 1], s) {
        n - 1
    } else {
        last_writer(js, s, n - 1)
    }
}

/// The player of slot `s`: the one the last join writing it gives, or the
/// CPU.
pub open spec fn slot_info(js: Seq<Join>, s: PlayerSlot) -> PlayerInfo {
    let k = last_writer(js, s, js.len() as int);
    if k >= 0 {
        written(js[k], k, s)
    } else {
        cpu_info(s)
    }
}

pub open spec fn team_info(js: Seq<Join>, s1: PlayerSlot, s2: PlayerSlot) -> TeamInfo {
    let a = slot_info(js, s1);
    if a.dual_stick {
        TeamInfo::SinglePlayer(a)
    } else {
        TeamInfo::TwoPlayer(a, slot_info(js, s2))
    }
}

/// The joins settle a match: some gamepad joined, every joined gamepad
/// confirmed a slot, and every join confirmed alone has someone on its
/// partner slot.
pub open spec fn settled(js: Seq<Join>) -> bool {
    &&& exists|k: int| 0 <= k < js.len() && !(js[k] is Empty)
    &&& forall|k: int| 0 <= k < js.len() ==> !(#[trigger] js[k] is Joined) && !(js[k] is Hover)
    &&& forall|k: int|
        0 <= k < js.len() && #[trigger] js[k] is Single ==> first(js, on_slot(js[k].slot_spec().unwrap().partner_spec()))
            < js.len()
}

pub open spec fn signs_spec(js: Seq<Join>) -> Option<PlayersInfo> {
    if settled(js) {
        Some(
            PlayersInfo {
                team_a: team_info(js, PlayerSlot::A1, PlayerSlot::A2),
                team_b: team_info(js, PlayerSlot::B1, PlayerSlot::B2),
            },
        )
    } else {
        None
    }
}


/// What the team-select screen hands on.
#[derive(Clone, Copy, Debug, PartialEq, Eq, Structural)]
pub enum TeamSelectOutput {
    /// Everyone is placed: start the match with these players.
    PlayersInfo(PlayersInfo),
    Exit,
}

pub open spec fn held_for(p: PressInput, frames: u32) -> bool {
    p.held >= frames && p.current
}

/// One gamepad's input read by the team-select screen. With the match
/// settled, start from a joined gamepad starts it. Otherwise any of start,
/// north, east, select, back or a bumper joins the gamepad; select confirms,
/// back steps back, holding back for `back_buffer` steps leaves, left and
/// right move toward a team. Keyboard input is not read here.
pub open spec fn ts_step(
    js: Seq<Join>,
    assignments: Option<PlayersInfo>,
    source: SingleSource,
    input: LocalInput,
    back_buffer: u32,
) -> (Seq<Join>, Option<TeamSelectOutput>) {
    match source {
        SingleSource::Gamepad(id) => if assignments.is_some() && input.start.just_pressed_spec() && first(
            js,
            has_pad(id),
        ) < js.len() {
            (js, Some(TeamSelectOutput::PlayersInfo(assignments.unwrap())))
        } else {
            let join_press = input.start.just_pressed_spec() || input.north.just_pressed_spec()
                || input.east.just_pressed_spec() || input.menu_select.just_pressed_spec()
                || input.menu_back.just_pressed_spec() || input.left_bump.just_pressed_spec()
                || input.right_bump.just_pressed_spec();
            let js1 = if join_press { add_spec(js, id) } else { js };
            let js2 = if input.menu_select.just_pressed_spec() { ready_spec(js1, id) } else { js1 };
            let js3 = if input.menu_back.just_pressed_spec() { reverse_all_spec(js2, id) } else { js2 };
            if held_for(input.menu_back, back_buffer) {
                (js3, Some(TeamSelectOutput::Exit))
            } else {
                let js4 = if input.menu_left.just_pressed_spec() {
                    side_spec(js3, id, next_slot_spec(js3, PlayerSlot::A1, PlayerSlot::A2), Team::B)
                } else {
                    js3
                };
                let js5 = if input.menu_right.just_pressed_spec() {
                    side_spec(js4, id, next_slot_spec(js4, PlayerSlot::B1, PlayerSlot::B2), Team::A)
                } else {
                    js4
                };
                (js5, None)
            }
        },
        _ => (js, None),
    }
}

/// The joins after reading `inputs` in turn, stopping at the first output.
pub open spec fn ts_fold(
    js: Seq<Join>,
    assignments: Option<PlayersInfo>,
    inputs: Seq<(SingleSource, LocalInput)>,
    back_buffer: u32,
) -> (Seq<Join>, Option<TeamSelectOutput>)
    decreases inputs.len(),
{
    if inputs.len() == 0 {
        (js, None)
    } else {
        let prev = ts_fold(js, assignments, inputs.drop_last(), back_buffer);
        if prev.1.is_some() {
            prev
        } else {
            ts_step(prev.0, assignments, inputs.last().0, inputs.last().1, back_buffer)
        }
    }
}

proof fn lemma_ts_fold_stops(
    js: Seq<Join>,
    assignments: Option<PlayersInfo>,
    inputs: Seq<(SingleSource, LocalInput)>,
    back_buffer: u32,
    n: int,
)
    requires
        0 <= n <= inputs.len(),
        ts_fold(js, assignments, inputs.subrange(0, n), back_buffer).1.is_some(),
    ensures
        ts_fold(js, assignments, inputs, back_buffer) == ts_fold(js, assignments, inputs.subrange(0, n), back_buffer),
    decreases inputs.len() - n,
{
    if n < inputs.len() {
        assert(inputs.subrange(0, n + 1).drop_last() =~= inputs.subrange(0, n));
        lemma_ts_fold_stops(js, assignments, inputs, back_buffer, n + 1);
    } else {
        assert(inputs.subrange(0, n) =~= inputs);
    }
}

fn writes_exec(j: &Join, s: PlayerSlot) -> (r: bool)
    ensures
        r == writes(*j, s),
{
    match *j {
        Join::Single { slot, .. } => slot == s,
        Join::Double { slot, .. } => slot == s || slot.partner() == s,
        _ => false,
    }
}

fn written_exec(j: &Join, k: usize, s: PlayerSlot) -> (r: PlayerInfo)
    ensures
        r == written(*j, k as int, s),
{
    let cpu = PlayerInfo { number: 0, source: SingleSource::CPU(s), dual_stick: false, slot: s };
    match *j {
        Join::Single { gamepad, .. } => PlayerInfo {
            number: k,
            source: SingleSource::Gamepad(gamepad),
            dual_stick: false,
            slot: s,
        },
        Join::Double { gamepad, slot, partner_setting } => {
            if slot != s && partner_setting == PartnerSetting::CPU {
                cpu
            } else {
                PlayerInfo {
                    number: k,
                    source: SingleSource::Gamepad(gamepad),
                    dual_stick: partner_setting == PartnerSetting::TwinStick,
                    slot: s,
                }
            }
        },
        _ => cpu,
    }
}

/// The team-select screen: four join positions, one per gamepad that
/// joined.
#[derive(Clone, Copy, Debug)]
pub struct TeamSelect {
    pub visible: bool,
    pub joins: [Join; 4],
}

pub open spec fn slot_any(js: Seq<Join>, slot: PlayerSlot, p: spec_fn(Join) -> bool) -> bool {
    exists|k: int| 0 <= k < js.len() && js[k].slot_spec() == Some(slot) && p(js[k])
}

/// Which slots of a team are taken: a slot is taken by a join on it, and
/// both slots by a join on either that takes its partner slot too.
pub open spec fn next_slot_spec(js: Seq<Join>, s1: PlayerSlot, s2: PlayerSlot) -> Option<PlayerSlot> {
    let taken1 = slot_any(js, s1, any_join()) || slot_any(js, s2, takes_both());
    let taken2 = slot_any(js, s2, any_join()) || slot_any(js, s1, takes_both());
    if !taken1 {
        Some(s1)
    } else if !taken2 {
        Some(s2)
    } else {
        None
    }
}

impl TeamSelect {
    pub open spec fn view_joins(&self) -> Seq<Join> {
        self.joins@
    }

    pub fn new() -> (r: Self)
        ensures
            !r.visible,
            forall|k: int| 0 <= k < 4 ==> r.joins@[k] == Join::Empty,
    {
        TeamSelect { visible: false, joins: [Join::Empty, Join::Empty, Join::Empty, Join::Empty] }
    }

    /// Lets a gamepad join at the first free position, unless it already
    /// joined or all positions are taken.
    pub fn add_gamepad(&mut self, id: u32)
        ensures
            final(self).visible == old(self).visible,
            ({
                let js = old(self).joins@;
                let known = first(js, has_pad(id));
                let free = first(js, is_free());
                if known < 4 || free == 4 {
                    final(self).joins@ == js
                } else {
                    final(self).joins@ == js.update(free, Join::Joined { gamepad: id })
                }
            }),
    {
        proof {
            lemma_first_from(self.joins@, has_pad(id), 0);
            lemma_first_from(self.joins@, is_free(), 0);
        }
        if self.get_index_from_gamepad(id).is_some() {
            return;
        }
        let mut k: usize = 0;
        while k < 4
            invariant
                k <= 4,
                self.joins@ == old(self).joins@,
                self.visible == old(self).visible,
                first(self.joins@, is_free()) == first_from(self.joins@, is_free(), k as int),
                first(self.joins@, has_pad(id)) == 4,
            decreases 4 - k,
        {
            if self.joins[k].is_empty() {
                assert(first_from(self.joins@, is_free(), k as int) == k as int);
                let mut j = self.joins[k];
                j.join(id);
                self.joins[k] = j;
                assert(self.joins@ == old(self).joins@.update(k as int, Join::Joined { gamepad: id }));
                return;
            }
            k = k + 1;
        }
    }

    /// Frees the first position of a gamepad.
    pub fn remove_gamepad(&mut self, id: u32)
        ensures
            final(self).visible == old(self).visible,
            ({
                let js = old(self).joins@;
                let known = first(js, has_pad(id));
                if known < 4 {
                    final(self).joins@ == js.update(known, Join::Empty)
                } else {
                    final(self).joins@ == js
                }
            }),
    {
        proof {
            lemma_first_from(self.joins@, has_pad(id), 0);
        }
        match self.get_index_from_gamepad(id) {
            Some(k) => {
                self.joins[k] = Join::Empty;
            },
            None => {},
        }
    }

    /// The first join on `slot`.
    pub fn get_join_from_slot(&self, slot: PlayerSlot) -> (r: Option<&Join>)
        ensures
            ({
                let k = first(self.joins@, on_slot(slot));
                &&& k < 4 ==> r == Some(&self.joins@[k])
                &&& k == 4 ==> r.is_none()
            }),
    {
        proof {
            lemma_first_from(self.joins@, on_slot(slot), 0);
        }
        let mut k: usize = 0;
        while k < 4
            invariant
                k <= 4,
                first(self.joins@, on_slot(slot)) == first_from(
                    self.joins@,
                    on_slot(slot),
                    k as int,
                ),
            decreases 4 - k,
        {
            if self.joins[k].is_player_id(slot) {
                return Some(&self.joins[k]);
            }
            k = k + 1;
        }
        None
    }

    /// The first join on `slot`, to change in place.
    pub fn get_mut_join_from_slot(&mut self, slot: PlayerSlot) -> (r: Option<&mut Join>)
        ensures
            ({
                let k = first(old(self).joins@, on_slot(slot));
                &&& k < 4 ==> r is Some
                &&& k == 4 ==> r is None && *final(self) == *old(self)
                &&& r matches Some(j) ==> (*j == old(self).joins@[k] && final(self).joins@ == old(self).joins@.update(
                    k,
                    *final(j),
                ) && final(self).visible == old(self).visible)
            }),
    {
        proof {
            lemma_first_from(self.joins@, on_slot(slot), 0);
        }
        let mut k: usize = 0;
        while k < 4
            invariant
                k <= 4,
                *self == *old(self),
                first(self.joins@, on_slot(slot)) == first_from(self.joins@, on_slot(slot), k as int),
            decreases 4 - k,
        {
            if self.joins[k].is_player_id(slot) {
                return Some(&mut self.joins[k]);
            }
            k = k + 1;
        }
        None
    }

    /// The position of a gamepad's first join.
    pub fn get_index_from_gamepad(&self, id: u32) -> (r: Option<usize>)
        ensures
            ({
                let k = first(self.joins@, has_pad(id));
                &&& k < 4 ==> r == Some(k as usize)
                &&& k == 4 ==> r.is_none()
            }),
    {
        proof {
            lemma_first_from(self.joins@, has_pad(id), 0);
        }
        let mut k: usize = 0;
        while k < 4
            invariant
                k <= 4,
                first(self.joins@, has_pad(id)) == first_from(
                    self.joins@,
                    has_pad(id),
                    k as int,
                ),
            decreases 4 - k,
        {
            if self.joins[k].is_gamepad_id(id) {
                return Some(k);
            }
            k = k + 1;
        }
        None
    }

    pub fn is_player_slot_hovered(&self, id: PlayerSlot) -> (r: bool)
        ensures
            r == slot_any(self.joins@, id, hovering()),
    {
        let mut k: usize = 0;
        while k < 4
            invariant
                k <= 4,
                forall|j: int| 0 <= j < k ==> !(self.joins@[j].slot_spec() == Some(id) && self.joins@[j].hovered_spec()),
            decreases 4 - k,
        {
            if self.joins[k].is_player_id(id) && self.joins[k].is_hovered() {
                return true;
            }
            k = k + 1;
        }
        false
    }

    /// No hovering join is on the slot.
    pub fn is_player_slot_empty(&self, slot: PlayerSlot) -> (r: bool)
        ensures
            r == !slot_any(self.joins@, slot, hovering()),
    {
        !self.is_player_slot_hovered(slot)
    }

    pub fn is_player_slot_dual_stick(&self, id: PlayerSlot) -> (r: bool)
        ensures
            r == slot_any(self.joins@, id, twin_stick()),
    {
        let mut k: usize = 0;
        while k < 4
            invariant
                k <= 4,
                forall|j: int| 0 <= j < k ==> !(self.joins@[j].slot_spec() == Some(id) && self.joins@[j].dual_stick_spec()),
            decreases 4 - k,
        {
            if self.joins[k].is_player_id(id) && self.joins[k].is_dual_stick() {
                return true;
            }
            k = k + 1;
        }
        false
    }

    /// A join on the slot or on its partner takes both slots.
    pub fn is_player_slot_double(&self, id: PlayerSlot) -> (r: bool)
        ensures
            r == (slot_any(self.joins@, id, takes_both()) || slot_any(
                self.joins@,
                id.partner_spec(),
                takes_both(),
            )),
    {
        let partner = id.partner();
        let mut k: usize = 0;
        while k < 4
            invariant
                k <= 4,
                partner == id.partner_spec(),
                forall|j: int|
                    0 <= j < k ==> !(self.joins@[j].slot_spec() == Some(id) && self.joins@[j] is Double) && !(
                    self.joins@[j].slot_spec() == Some(partner) && self.joins@[j] is Double),
            decreases 4 - k,
        {
            let j = &self.joins[k];
            if (j.is_player_id(id) && j.is_double()) || (j.is_player_id(partner) && j.is_double()) {
                return true;
            }
            k = k + 1;
        }
        false
    }

    /// A confirmed join is on the slot.
    pub fn is_player_slot_set(&self, id: PlayerSlot) -> (r: bool)
        ensures
            r == slot_any(self.joins@, id, confirmed()),
    {
        let mut k: usize = 0;
        while k < 4
            invariant
                k <= 4,
                forall|j: int| 0 <= j < k ==> !(self.joins@[j].slot_spec() == Some(id) && self.joins@[j].single_spec()),
            decreases 4 - k,
        {
            if self.joins[k].is_player_id(id) && self.joins[k].is_single() {
                return true;
            }
            k = k + 1;
        }
        false
    }

    /// Whether the gamepad's first join takes both slots.
    pub fn is_double(&self, id: u32) -> (r: bool)
        ensures
            ({
                let k = first(self.joins@, has_pad(id));
                r == (k < 4 && self.joins@[k] is Double)
            }),
    {
        proof {
            lemma_first_from(self.joins@, has_pad(id), 0);
        }
        match self.get_index_from_gamepad(id) {
            Some(k) => self.joins[k].is_double(),
            None => false,
        }
    }

    /// The first free slot of team A, if any.
    pub fn next_slot_a(&self) -> (r: Option<PlayerSlot>)
        ensures
            r == next_slot_spec(self.joins@, PlayerSlot::A1, PlayerSlot::A2),
    {
        self.next_slot(PlayerSlot::A1, PlayerSlot::A2)
    }

    /// The first free slot of team B, if any.
    pub fn next_slot_b(&self) -> (r: Option<PlayerSlot>)
        ensures
            r == next_slot_spec(self.joins@, PlayerSlot::B1, PlayerSlot::B2),
    {
        self.next_slot(PlayerSlot::B1, PlayerSlot::B2)
    }

    fn next_slot(&self, s1: PlayerSlot, s2: PlayerSlot) -> (r: Option<PlayerSlot>)
        ensures
            r == next_slot_spec(self.joins@, s1, s2),
    {
        let mut t1 = false;
        let mut t2 = false;
        let mut k: usize = 0;
        while k < 4
            invariant
                k <= 4,
                t1 == exists|j: int|
                    0 <= j < k && (self.joins@[j].slot_spec() == Some(s1) || (self.joins@[j].slot_spec() == Some(s2)
                        && self.joins@[j] is Double)),
                t2 == exists|j: int|
                    0 <= j < k && (self.joins@[j].slot_spec() == Some(s2) || (self.joins@[j].slot_spec() == Some(s1)
                        && self.joins@[j] is Double)),
            decreases 4 - k,
        {
            let j = &self.joins[k];
            if j.is_player_id(s1) {
                t1 = true;
                if j.is_double() {
                    t2 = true;
                }
            }
            if j.is_player_id(s2) {
                t2 = true;
                if j.is_double() {
                    t1 = true;
                }
            }
            k = k + 1;
        }
        proof {
            let js = self.joins@;
            if t1 {
                let j = choose|j: int|
                    0 <= j < 4 && (js[j].slot_spec() == Some(s1) || (js[j].slot_spec() == Some(s2) && js[j] is Double));
                if js[j].slot_spec() == Some(s1) {
                    assert(slot_any(js, s1, any_join()));
                } else {
                    assert(slot_any(js, s2, takes_both()));
                }
            }
            if t2 {
                let j = choose|j: int|
                    0 <= j < 4 && (js[j].slot_spec() == Some(s2) || (js[j].slot_spec() == Some(s1) && js[j] is Double));
                if js[j].slot_spec() == Some(s2) {
                    assert(slot_any(js, s2, any_join()));
                } else {
                    assert(slot_any(js, s1, takes_both()));
                }
            }
        }
        if !t1 {
            Some(s1)
        } else if !t2 {
            Some(s2)
        } else {
            None
        }
    }

    /// Confirms the gamepad's first join, or has it take the partner slot
    /// too.
    pub fn ready_gamepad(&mut self, id: u32)
        ensures
            final(self).visible == old(self).visible,
            final(self).joins@ == ready_spec(old(self).joins@, id),
    {
        proof {
            lemma_first_from(self.joins@, has_pad(id), 0);
        }
        let index = match self.get_index_from_gamepad(id) {
            Some(k) => k,
            None => return,
        };
        let slot = match self.joins[index].get_player_slot() {
            Some(slot) => slot,
            None => return,
        };
        let dual_able = !self.is_player_slot_hovered(slot.partner());
        let mut join = self.joins[index];
        if join.is_hovered() && !join.is_single() {
            join.single();
        } else if join.is_single() && !join.is_double() && dual_able {
            join.double();
        }
        self.joins[index] = join;
        assert(self.joins@ =~= ready_spec(old(self).joins@, id));
    }

    /// Steps every join of the gamepad back one stage.
    pub fn reverse_gamepad(&mut self, id: u32)
        ensures
            final(self).visible == old(self).visible,
            final(self).joins@ == reverse_all_spec(old(self).joins@, id),
    {
        let mut k: usize = 0;
        while k < 4
            invariant
                k <= 4,
                self.visible == old(self).visible,
                forall|j: int| k <= j < 4 ==> self.joins@[j] == old(self).joins@[j],
                forall|j: int|
                    0 <= j < k ==> self.joins@[j] == if old(self).joins@[j].gamepad_spec() == Some(id) {
                        reverse_spec(old(self).joins@[j])
                    } else {
                        old(self).joins@[j]
                    },
            decreases 4 - k,
        {
            let mut join = self.joins[k];
            if join.is_gamepad_id(id) {
                if join.is_double() {
                    join.undouble();
                } else if join.is_single() {
                    join.unsingle();
                } else if join.is_hovered() {
                    join.unhover();
                } else if join.is_joined() {
                    join.unjoin();
                }
            }
            self.joins[k] = join;
            k = k + 1;
        }
        assert(self.joins@ =~= reverse_all_spec(old(self).joins@, id));
    }

    fn side_gamepad(&mut self, id: u32, next: Option<PlayerSlot>, away: Team)
        ensures
            final(self).visible == old(self).visible,
            final(self).joins@ == side_spec(old(self).joins@, id, next, away),
    {
        let ghost target = side_loop(old(self).joins@, id, next, away, 0);
        let mut stop: Option<PlayerSlot> = None;
        let mut k: usize = 0;
        while k < 4
            invariant
                k <= 4,
                self.visible == old(self).visible,
                stop.is_none() ==> side_loop(self.joins@, id, next, away, k as int) == target,
                stop.is_some() ==> (self.joins@, stop) == target,
            decreases 4 - k,
        {
            if stop.is_none() {
                let ghost before = self.joins@;
                let mut join = self.joins[k];
                if join.is_gamepad_id(id) {
                    match join {
                        Join::Single { slot, .. } => {
                            stop = Some(slot);
                        },
                        Join::Hover { slot, .. } => {
                            if slot.team() == away {
                                join.unhover();
                            }
                        },
                        Join::Joined { .. } => {
                            if let Some(p) = next {
                                join.hover(p);
                            }
                        },
                        _ => {},
                    }
                }
                self.joins[k] = join;
                proof {
                    assert(self.joins@ =~= before.update(k as int, join));
                    if join == before[k as int] {
                        assert(self.joins@ =~= before);
                    }
                }
            }
            k = k + 1;
        }
        let ghost mid = self.joins@;
        assert((mid, stop) == target);
        if let Some(player_slot) = stop {
            if !self.is_player_slot_hovered(player_slot.partner()) {
                proof {
                    lemma_first_from(self.joins@, on_slot(player_slot), 0);
                }
                let mut t: usize = 0;
                while t < 4
                    invariant
                        t <= 4,
                        self.joins@ == mid,
                        self.visible == old(self).visible,
                        (mid, Some(player_slot)) == target,
                        target == side_loop(old(self).joins@, id, next, away, 0),
                        !slot_any(mid, player_slot.partner_spec(), hovering()),
                        first(mid, on_slot(player_slot)) == first_from(mid, on_slot(player_slot), t as int),
                    decreases 4 - t,
                {
                    if self.joins[t].is_player_id(player_slot) {
                        let mut join = self.joins[t];
                        if let Join::Single { gamepad, slot, partner_setting } = join {
                            let mut setting = partner_setting;
                            setting.cycle();
                            join = Join::Single { gamepad, slot, partner_setting: setting };
                        }
                        assert(first_from(mid, on_slot(player_slot), t as int) == t as int);
                        assert(join == cycle_partner(mid[t as int]));
                        self.joins[t] = join;
                        assert(self.joins@ =~= mid.update(t as int, cycle_partner(mid[t as int])));
                        assert(self.joins@ =~= side_spec(old(self).joins@, id, next, away));
                        return;
                    }
                    t = t + 1;
                }
            }
        }
    }

    /// A left press of a gamepad: toward team A.
    pub fn left_gamepad(&mut self, id: u32)
        ensures
            final(self).visible == old(self).visible,
            final(self).joins@ == side_spec(
                old(self).joins@,
                id,
                next_slot_spec(old(self).joins@, PlayerSlot::A1, PlayerSlot::A2),
                Team::B,
            ),
    {
        let next = self.next_slot_a();
        self.side_gamepad(id, next, Team::B);
    }

    /// A right press of a gamepad: toward team B.
    pub fn right_gamepad(&mut self, id: u32)
        ensures
            final(self).visible == old(self).visible,
            final(self).joins@ == side_spec(
                old(self).joins@,
                id,
                next_slot_spec(old(self).joins@, PlayerSlot::B1, PlayerSlot::B2),
                Team::A,
            ),
    {
        let next = self.next_slot_b();
        self.side_gamepad(id, next, Team::A);
    }

    /// The player of a slot, as the joins settle it.
    fn slot_player(&self, s: PlayerSlot) -> (r: PlayerInfo)
        ensures
            r == slot_info(self.joins@, s),
    {
        let mut k: usize = 4;
        while k > 0
            invariant
                k <= 4,
                last_writer(self.joins@, s, 4) == last_writer(self.joins@, s, k as int),
            decreases k,
        {
            if writes_exec(&self.joins[k - 1], s) {
                return written_exec(&self.joins[k - 1], k - 1, s);
            }
            k = k - 1;
        }
        PlayerInfo { number: 0, source: SingleSource::CPU(s), dual_stick: false, slot: s }
    }

    fn team_players(&self, s1: PlayerSlot, s2: PlayerSlot) -> (r: TeamInfo)
        ensures
            r == team_info(self.joins@, s1, s2),
    {
        let a = self.slot_player(s1);
        if a.dual_stick {
            TeamInfo::SinglePlayer(a)
        } else {
            TeamInfo::TwoPlayer(a, self.slot_player(s2))
        }
    }

    fn is_settled(&self) -> (r: bool)
        ensures
            r == settled(self.joins@),
    {
        let mut any = false;
        let mut k: usize = 0;
        while k < 4
            invariant
                k <= 4,
                any == exists|j: int| 0 <= j < k && !(self.joins@[j] is Empty),
                forall|j: int| 0 <= j < k ==> !(#[trigger] self.joins@[j] is Joined) && !(self.joins@[j] is Hover),
                forall|j: int|
                    0 <= j < k && #[trigger] self.joins@[j] is Single ==> first(
                        self.joins@,
                        on_slot(self.joins@[j].slot_spec().unwrap().partner_spec()),
                    ) < 4,
            decreases 4 - k,
        {
            match self.joins[k] {
                Join::Empty => {},
                Join::Joined { .. } | Join::Hover { .. } => {
                    assert(self.joins@[k as int] is Joined || self.joins@[k as int] is Hover);
                    return false;
                },
                Join::Single { slot, .. } => {
                    proof {
                        lemma_first_from(self.joins@, on_slot(slot.partner_spec()), 0);
                    }
                    if self.get_join_from_slot(slot.partner()).is_none() {
                        assert(self.joins@[k as int] is Single);
                        return false;
                    }
                    any = true;
                },
                Join::Double { .. } => {
                    any = true;
                },
            }
            k = k + 1;
        }
        any
    }

    /// The players of a settled screen: each slot's player comes from the
    /// last join that places someone there (the CPU where none does); a
    /// team whose first slot is driven by both sticks of one gamepad is a
    /// single player. `None` while the screen is not settled.
    pub fn get_player_signs(&self) -> (r: Option<PlayersInfo>)
        ensures
            r == signs_spec(self.joins@),
    {
        if !self.is_settled() {
            return None;
        }
        Some(
            PlayersInfo {
                team_a: self.team_players(PlayerSlot::A1, PlayerSlot::A2),
                team_b: self.team_players(PlayerSlot::B1, PlayerSlot::B2),
            },
        )
    }

    /// Reads every device's input in turn until one gives an output.
    /// `back_buffer` is how many steps back must be held to leave.
    pub fn process_input(&mut self, inputs: &Vec<(SingleSource, LocalInput)>, back_buffer: u32) -> (r: Option<TeamSelectOutput>)
        ensures
            final(self).visible == old(self).visible,
            (final(self).joins@, r) == ts_fold(old(self).joins@, signs_spec(old(self).joins@), inputs@, back_buffer),
    {
        let assignments = self.get_player_signs();
        let ghost start = self.joins@;
        let mut i: usize = 0;
        while i < inputs.len()
            invariant
                i <= inputs.len(),
                self.visible == old(self).visible,
                start == old(self).joins@,
                assignments == signs_spec(start),
                ts_fold(start, assignments, inputs@.subrange(0, i as int), back_buffer) == (self.joins@, None::<TeamSelectOutput>),
            decreases inputs.len() - i,
        {
            let ghost pre = inputs@.subrange(0, i + 1);
            assert(pre.drop_last() =~= inputs@.subrange(0, i as int));
            let (source, input) = inputs[i];
            assert(pre.last() == (source, input));
            if let SingleSource::Gamepad(id) = source {
                proof {
                    lemma_first_from(self.joins@, has_pad(id), 0);
                }
                if assignments.is_some() && input.start.just_pressed() && self.get_index_from_gamepad(id).is_some() {
                    let out = TeamSelectOutput::PlayersInfo(assignments.unwrap());
                    proof {
                        lemma_ts_fold_stops(start, assignments, inputs@, back_buffer, i as int + 1);
                    }
                    return Some(out);
                }
                if input.start.just_pressed() || input.north.just_pressed() || input.east.just_pressed()
                    || input.menu_select.just_pressed() || input.menu_back.just_pressed()
                    || input.left_bump.just_pressed() || input.right_bump.just_pressed() {
                    self.add_gamepad(id);
                }
                if input.menu_select.just_pressed() {
                    self.ready_gamepad(id);
                }
                if input.menu_back.just_pressed() {
                    self.reverse_gamepad(id);
                }
                if input.menu_back.just_held(back_buffer) {
                    proof {
                        lemma_ts_fold_stops(start, assignments, inputs@, back_buffer, i as int + 1);
                    }
                    return Some(TeamSelectOutput::Exit);
                }
                if input.menu_left.just_pressed() {
                    self.left_gamepad(id);
                }
                if input.menu_right.just_pressed() {
                    self.right_gamepad(id);
                }
            }
            i = i + 1;
        }
        assert(inputs@.subrange(0, inputs.len() as int) =~= inputs@);
        None
    }
}

} // verus!
