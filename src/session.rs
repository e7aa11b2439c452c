//! The offline fixed-step runner: banks host frame time and spends it in
//! whole simulation steps of one sixtieth of a second.
use vstd::arithmetic::div_mod::{lemma_fundamental_div_mod, lemma_fundamental_div_mod_converse};
use vstd::prelude::*;

use crate::collection::{slot_spec, PlayTeamInputCollector, SingleSource};
use crate::dense::{decode_spec, encode_spec, PlayTeamInputDense};
use crate::events::{GamepadEvent, KeyboardEvent, MouseButtonEvent};
use crate::play_input::{rest_team, PlayTeamInput, PlayTeamInputs};

verus! {

/// Time units per nanosecond: the accumulator counts sixtieths of a
/// nanosecond, so that one step is a whole number of units.
pub const UNITS_PER_NANO: u64 = 60;

/// One simulation step, 1/60 s, in accumulator units.
pub const STEP: u64 = 1_000_000_000;

/// What the host loop does next within one host frame.
#[derive(Clone, Copy, Debug, PartialEq, Eq, Structural)]
pub enum StepDecision {
    /// Run one simulation step of exactly `STEP` on the snapshot just written.
    Advance,
    /// The catch-up loop ran over its budget: the banked time was dropped.
    Slowdown,
    /// Less than one step is banked: wait for the next host frame.
    Done,
}

pub open spec fn sat_u64(v: int) -> u64 {
    if v > u64::MAX {
        u64::MAX
    } else {
        v as u64
    }
}

/// A collector's snapshot as the simulation sees it: sent through the wire
/// form and read onto the previous snapshot, so that offline play loses
/// exactly the precision that online play does.
pub open spec fn snapshot_spec(prev: PlayTeamInput, team: PlayTeamInput) -> PlayTeamInput {
    PlayTeamInput { p1: decode_spec(prev.p1, encode_spec(team.p1)), p2: decode_spec(prev.p2, encode_spec(team.p2)) }
}

/// Fixed-step runner for local play.
#[derive(Clone, Copy, Debug)]
pub struct OfflineRunner {
    /// Banked time, in sixtieths of a nanosecond.
    pub accumulator: u64,
    /// Host time of the last frame, in nanoseconds.
    pub last_run: Option<u64>,
    pub disable_local_input: bool,
    pub collectors: [PlayTeamInputCollector; 2],
}

impl OfflineRunner {
    pub open spec fn wf(&self) -> bool {
        self.collectors[0].wf() && self.collectors[1].wf()
    }

    /// A runner with nothing banked over the two teams' collectors.
    pub fn new(team_a: PlayTeamInputCollector, team_b: PlayTeamInputCollector) -> (r: Self)
        ensures
            r.accumulator == 0,
            r.last_run.is_none(),
            !r.disable_local_input,
            r.collectors[0] == team_a,
            r.collectors[1] == team_b,
    {
        OfflineRunner { accumulator: 0, last_run: None, disable_local_input: false, collectors: [team_a, team_b] }
    }

    /// Starts a host frame at host time `now` (nanoseconds): banks the time
    /// since the previous frame, and lets both collectors read this frame's
    /// device events and CPU input once, outside the fixed-step loop.
    pub fn begin_frame(
        &mut self,
        now: u64,
        cpu: &PlayTeamInputs,
        mouse: &Vec<MouseButtonEvent>,
        keyboard: &Vec<KeyboardEvent>,
        gamepad: &Vec<GamepadEvent>,
    )
        requires
            old(self).wf(),
            cpu.clients[0].wf(),
            cpu.clients[1].wf(),
        ensures
            final(self).wf(),
            final(self).last_run == Some(now),
            final(self).disable_local_input == old(self).disable_local_input,
            final(self).accumulator == sat_u64(
                old(self).accumulator + UNITS_PER_NANO * match old(self).last_run {
                    Some(t) => if now >= t { now - t } else { 0int },
                    None => 0int,
                },
            ),
            forall|i: int|
                0 <= i < 2 ==> {
                    let c = #[trigger] old(self).collectors[i];
                    &&& final(self).collectors[i].p1_source == c.p1_source
                    &&& final(self).collectors[i].p2_source == c.p2_source
                    &&& final(self).collectors[i].current.p1 == slot_spec(
                        if c.p1_source is CPU { cpu.clients[i].p1 } else { c.current.p1 },
                        c.p1_source,
                        false,
                        mouse@,
                        keyboard@,
                        gamepad@,
                    )
                    &&& final(self).collectors[i].current.p2 == slot_spec(
                        if c.p2_source is CPU { cpu.clients[i].p2 } else { c.current.p2 },
                        c.p2_source,
                        c.dual_stick_spec(),
                        mouse@,
                        keyboard@,
                        gamepad@,
                    )
                },
    {
        let delta: u64 = match self.last_run {
            Some(t) => if now >= t { now - t } else { 0 },
            None => 0,
        };
        let scaled: u64 = if delta > u64::MAX / UNITS_PER_NANO {
            u64::MAX
        } else {
            delta * UNITS_PER_NANO
        };
        self.accumulator = self.accumulator.saturating_add(scaled);
        let mut a = self.collectors[0];
        a.offline_apply_inputs(&cpu.clients[0], mouse, keyboard, gamepad);
        self.collectors[0] = a;
        let mut b = self.collectors[1];
        b.offline_apply_inputs(&cpu.clients[1], mouse, keyboard, gamepad);
        self.collectors[1] = b;
        self.last_run = Some(now);
    }

    /// One turn of the catch-up loop. `loop_elapsed` is the host time in
    /// nanoseconds already spent in this frame's loop. With a step banked
    /// and within budget, spends it, writes the collectors' snapshots into
    /// `inputs` (released, centred input while local input is disabled) and
    /// rolls the collectors' edges; over budget, drops the banked time.
    pub fn next_step(&mut self, loop_elapsed: u64, inputs: &mut PlayTeamInputs) -> (r: StepDecision)
        requires
            old(self).wf(),
        ensures
            final(self).wf(),
            final(self).last_run == old(self).last_run,
            final(self).disable_local_input == old(self).disable_local_input,
            old(self).accumulator < STEP ==> r == StepDecision::Done,
            old(self).accumulator >= STEP && loop_elapsed * UNITS_PER_NANO > STEP ==> r == StepDecision::Slowdown,
            old(self).accumulator >= STEP && loop_elapsed * UNITS_PER_NANO <= STEP ==> r == StepDecision::Advance,
            r == StepDecision::Done ==> *final(self) == *old(self) && *final(inputs) == *old(inputs),
            r == StepDecision::Slowdown ==> final(self).accumulator == 0 && final(self).collectors == old(self).collectors && *final(inputs) == *old(inputs),
            r == StepDecision::Advance ==> {
                &&& final(self).accumulator == old(self).accumulator - STEP
                &&& forall|i: int|
                    0 <= i < 2 ==> {
                        let c = #[trigger] old(self).collectors[i];
                        &&& final(self).collectors[i].p1_source == c.p1_source
                        &&& final(self).collectors[i].p2_source == c.p2_source
                        &&& final(self).collectors[i].current.p1 == c.current.p1.advance_spec()
                        &&& final(self).collectors[i].current.p2 == c.current.p2.advance_spec()
                        &&& final(inputs).clients[i] == if old(self).disable_local_input {
                            rest_team()
                        } else {
                            snapshot_spec(old(inputs).clients[i], c.current)
                        }
                    }
            },
    {
        if self.accumulator < STEP {
            return StepDecision::Done;
        }
        if loop_elapsed > STEP / UNITS_PER_NANO {
            self.accumulator = 0;
            return StepDecision::Slowdown;
        }
        self.accumulator = self.accumulator - STEP;
        let mut i: usize = 0;
        while i < 2
            invariant
                0 <= i <= 2,
                self.wf(),
                self.accumulator == old(self).accumulator - STEP,
                self.last_run == old(self).last_run,
                self.disable_local_input == old(self).disable_local_input,
                forall|j: int|
                    i <= j < 2 ==> self.collectors[j] == old(self).collectors[j] && inputs.clients[j]
                        == old(inputs).clients[j],
                forall|j: int|
                    0 <= j < i ==> {
                        let c = #[trigger] old(self).collectors[j];
                        &&& self.collectors[j].p1_source == c.p1_source
                        &&& self.collectors[j].p2_source == c.p2_source
                        &&& self.collectors[j].current.p1 == c.current.p1.advance_spec()
                        &&& self.collectors[j].current.p2 == c.current.p2.advance_spec()
                        &&& inputs.clients[j] == if old(self).disable_local_input {
                            rest_team()
                        } else {
                            snapshot_spec(old(inputs).clients[j], c.current)
                        }
                    },
            decreases 2 - i,
        {
            let mut client = inputs.clients[i];
            if self.disable_local_input {
                client = PlayTeamInput::default();
            } else {
                let dense = self.collectors[i].current.get_dense_input();
                client.update_from_dense(&dense);
            }
            inputs.clients[i] = client;
            let mut c = self.collectors[i];
            c.advance_frame();
            self.collectors[i] = c;
            i = i + 1;
        }
        StepDecision::Advance
    }

    /// Drops all banked time, history and input, as for a fresh session.
    pub fn restart_session(&mut self)
        ensures
            final(self).accumulator == 0,
            final(self).last_run.is_none(),
            !final(self).disable_local_input,
            final(self).wf(),
            forall|i: int|
                0 <= i < 2 ==> (#[trigger] final(self).collectors[i]).p1_source == SingleSource::KeyboardMouse
                    && final(self).collectors[i].p2_source == SingleSource::KeyboardMouse
                    && final(self).collectors[i].current == rest_team(),
    {
        *self = OfflineRunner::default();
    }

    /// Zeroes the snapshot the simulation sees while set, as during a
    /// recovery pause.
    pub fn disable_local_input(&mut self, disable_input: bool)
        ensures
            *final(self) == (OfflineRunner { disable_local_input: disable_input, ..*old(self) }),
    {
        self.disable_local_input = disable_input;
    }
}

impl Default for OfflineRunner {
    fn default() -> (r: Self)
        ensures
            r.accumulator == 0,
            r.last_run.is_none(),
            !r.disable_local_input,
            r.wf(),
            forall|i: int|
                0 <= i < 2 ==> (#[trigger] r.collectors[i]).p1_source == SingleSource::KeyboardMouse
                    && r.collectors[i].p2_source == SingleSource::KeyboardMouse
                    && r.collectors[i].current == rest_team(),
    {
        let a = PlayTeamInputCollector::new(SingleSource::KeyboardMouse, SingleSource::KeyboardMouse);
        let b = PlayTeamInputCollector::new(SingleSource::KeyboardMouse, SingleSource::KeyboardMouse);
        OfflineRunner::new(a, b)
    }
}

/// One host frame as `begin_frame` and repeated `next_step` run it: `delta`
/// units are banked onto `acc`; with no overrun every whole banked step runs
/// and the remainder stays banked; an overrun noticed after `cut` steps,
/// while more were due, drops all banked time. Gives the steps run and the
/// time left banked.
pub open spec fn frame_model(acc: nat, delta: nat, cut: Option<nat>) -> (nat, nat) {
    let a = acc + delta;
    let due = a / (STEP as nat);
    match cut {
        Some(c) => if c < due {
            (c, 0nat)
        } else {
            (due, a % (STEP as nat))
        },
        None => (due, a % (STEP as nat)),
    }
}

/// The overrun of a frame cut it short.
pub open spec fn cut_taken(acc: nat, delta: nat, cut: Option<nat>) -> bool {
    match cut {
        Some(c) => c < (acc + delta) / (STEP as nat),
        None => false,
    }
}

/// Frames run one after another from an empty bank: total steps, time left
/// banked, and whether any frame was cut short.
pub open spec fn frames_model(deltas: Seq<nat>, cuts: Seq<Option<nat>>) -> (nat, nat, bool)
    decreases deltas.len(),
{
    if deltas.len() == 0 || cuts.len() == 0 {
        (0, 0, false)
    } else {
        let prev = frames_model(deltas.drop_last(), cuts.drop_last());
        let now = frame_model(prev.1, deltas.last(), cuts.last());
        (prev.0 + now.0, now.1, prev.2 || cut_taken(prev.1, deltas.last(), cuts.last()))
    }
}

pub open spec fn total(deltas: Seq<nat>) -> nat
    decreases deltas.len(),
{
    if deltas.len() == 0 {
        0
    } else {
        total(deltas.drop_last()) + deltas.last()
    }
}

proof fn lemma_frames_balance(deltas: Seq<nat>, cuts: Seq<Option<nat>>)
    requires
        deltas.len() == cuts.len(),
    ensures
        ({
            let r = frames_model(deltas, cuts);
            &&& r.1 < STEP
            &&& !r.2 ==> r.0 * STEP + r.1 == total(deltas)
            &&& r.2 ==> r.0 * STEP + r.1 + STEP <= total(deltas)
        }),
    decreases deltas.len(),
{
    if deltas.len() > 0 {
        let d = deltas.drop_last();
        let c = cuts.drop_last();
        lemma_frames_balance(d, c);
        let prev = frames_model(d, c);
        let a = prev.1 + deltas.last();
        let st = STEP as int;
        lemma_fundamental_div_mod(a as int, st);
        let due = a / (STEP as nat);
        assert(a as int == due * st + (a as int) % st);
        if cut_taken(prev.1, deltas.last(), cuts.last()) {
            let k = cuts.last().unwrap();
            assert(k * st + st <= due * st) by (nonlinear_arith)
                requires
                    k + 1 <= due,
                    st > 0,
            ;
        }
        assert((prev.0 + due) * st == prev.0 * st + due * st) by (nonlinear_arith);
        if let Some(k) = cuts.last() {
            assert((prev.0 + k) * st == prev.0 * st + k * st) by (nonlinear_arith);
        }
    }
}

/// The runs of `next_step` that one frame allows agree with
/// `frame_model`: with `a` units banked by `begin_frame`, `c` advances
/// (each taking a banked step) ended by `Done` run every whole banked step
/// and keep the remainder; ended by `Slowdown` (taken only with a step
/// still banked) they stop short and drop the bank.
pub proof fn lemma_frame_matches_model(a: nat, c: nat, slowdown: bool)
    requires
        c * STEP <= a,
        !slowdown ==> a - c * STEP < STEP,
        slowdown ==> a - c * STEP >= STEP,
    ensures
        !slowdown ==> frame_model(a, 0, None) == (c, (a - c * STEP) as nat),
        slowdown ==> frame_model(a, 0, Some(c)) == (c, 0nat),
        slowdown ==> cut_taken(a, 0, Some(c)),
{
    let st = STEP as int;
    if !slowdown {
        lemma_fundamental_div_mod_converse(a as int, st, c as int, a - c * st);
    } else {
        lemma_fundamental_div_mod(a as int, st);
        let q = (a as int) / st;
        assert(c < q) by (nonlinear_arith)
            requires
                c * st + st <= a,
                a == q * st + (a as int) % st,
                0 <= (a as int) % st < st,
                st > 0,
        ;
    }
}

/// However the host frames fall, the simulation never runs more steps than
/// the elapsed time holds: from an empty bank, frames banking `deltas`
/// (`cuts` giving where each frame's loop overran) run exactly
/// `total / STEP` steps when no overrun cut a frame short, and strictly
/// fewer when one did.
pub proof fn lemma_fixed_step_count(deltas: Seq<nat>, cuts: Seq<Option<nat>>)
    requires
        deltas.len() == cuts.len(),
    ensures
        !frames_model(deltas, cuts).2 ==> frames_model(deltas, cuts).0 == total(deltas) / (STEP as nat),
        frames_model(deltas, cuts).2 ==> frames_model(deltas, cuts).0 < total(deltas) / (STEP as nat),
{
    lemma_frames_balance(deltas, cuts);
    let r = frames_model(deltas, cuts);
    let st = STEP as int;
    if !r.2 {
        lemma_fundamental_div_mod_converse(total(deltas) as int, st, r.0 as int, r.1 as int);
    } else {
        let t = total(deltas) as int;
        lemma_fundamental_div_mod(t, st);
        assert(r.0 < t / st) by (nonlinear_arith)
            requires
                r.0 * st + st <= t,
                t == (t / st) * st + t % st,
                0 <= t % st < st,
                st > 0,
        ;
    }
}

/// The runner of a network match: it publishes this machine's team input
/// in wire form, one frame number after another, and steps the simulation
/// on inputs that the rollback transport has confirmed for both teams.
#[derive(Clone, Copy, Debug)]
pub struct OnlineRunner {
    pub collector: PlayTeamInputCollector,
    /// The number of the next frame to publish.
    pub frame: u64,
    pub disable_local_input: bool,
}

impl OnlineRunner {
    pub fn new(collector: PlayTeamInputCollector) -> (r: Self)
        ensures
            r.collector == collector,
            r.frame == 0,
            !r.disable_local_input,
    {
        OnlineRunner { collector, frame: 0, disable_local_input: false }
    }

    /// Reads this frame's local events and gives the input to publish,
    /// with its frame number: the collector's input in wire form, or rest
    /// while local input is disabled. Frame numbers increase by one.
    pub fn collect(
        &mut self,
        mouse: &Vec<MouseButtonEvent>,
        keyboard: &Vec<KeyboardEvent>,
        gamepad: &Vec<GamepadEvent>,
    ) -> (r: (u64, PlayTeamInputDense))
        requires
            old(self).collector.wf(),
            old(self).frame < u64::MAX,
        ensures
            final(self).collector.wf(),
            final(self).frame == old(self).frame + 1,
            final(self).disable_local_input == old(self).disable_local_input,
            r.0 == old(self).frame,
            final(self).collector.p1_source == old(self).collector.p1_source,
            final(self).collector.p2_source == old(self).collector.p2_source,
            final(self).collector.current.p1 == slot_spec(
                old(self).collector.current.p1,
                old(self).collector.p1_source,
                false,
                mouse@,
                keyboard@,
                gamepad@,
            ),
            final(self).collector.current.p2 == slot_spec(
                old(self).collector.current.p2,
                old(self).collector.p2_source,
                old(self).collector.dual_stick_spec(),
                mouse@,
                keyboard@,
                gamepad@,
            ),
            old(self).disable_local_input ==> r.1.p1_spec().0 == encode_spec(rest_team().p1) && r.1.p2_spec().0
                == encode_spec(rest_team().p2),
            !old(self).disable_local_input ==> r.1.p1_spec().0 == encode_spec(final(self).collector.current.p1)
                && r.1.p2_spec().0 == encode_spec(final(self).collector.current.p2),
    {
        self.collector.apply_inputs(mouse, keyboard, gamepad);
        let frame = self.frame;
        self.frame = self.frame + 1;
        let dense = if self.disable_local_input {
            PlayTeamInput::default().get_dense_input()
        } else {
            self.collector.current.get_dense_input()
        };
        (frame, dense)
    }

    /// Zeroes the published input while set.
    pub fn disable_local_input(&mut self, disable_input: bool)
        ensures
            *final(self) == (OnlineRunner { disable_local_input: disable_input, ..*old(self) }),
    {
        self.disable_local_input = disable_input;
    }
}

/// Steps the simulation's snapshot on both teams' confirmed inputs. The
/// result depends on the previous snapshot and the confirmed inputs alone,
/// so replaying a frame with the same inputs gives the same snapshot.
pub fn apply_confirmed(inputs: &mut PlayTeamInputs, confirmed: &[PlayTeamInputDense; 2])
    ensures
        forall|i: int|
            0 <= i < 2 ==> (#[trigger] final(inputs).clients[i]).p1 == decode_spec(
                old(inputs).clients[i].p1,
                confirmed[i].p1_spec().0,
            ) && final(inputs).clients[i].p2 == decode_spec(old(inputs).clients[i].p2, confirmed[i].p2_spec().0),
{
    let mut a = inputs.clients[0];
    a.update_from_dense(&confirmed[0]);
    inputs.clients[0] = a;
    let mut b = inputs.clients[1];
    b.update_from_dense(&confirmed[1]);
    inputs.clients[1] = b;
}

/// The two ways of stepping a match.
#[derive(Clone, Copy, Debug)]
pub enum SessionRunner {
    Offline(OfflineRunner),
    Online(OnlineRunner),
}

impl SessionRunner {
    /// Sets whether local input is zeroed, whichever runner this is.
    pub fn disable_local_input(&mut self, disable_input: bool)
        ensures
            match (*old(self), *final(self)) {
                (SessionRunner::Offline(a), SessionRunner::Offline(b)) => b == (OfflineRunner {
                    disable_local_input: disable_input,
                    ..a
                }),
                (SessionRunner::Online(a), SessionRunner::Online(b)) => b == (OnlineRunner {
                    disable_local_input: disable_input,
                    ..a
                }),
                _ => false,
            },
    {
        match self {
            SessionRunner::Offline(r) => r.disable_local_input(disable_input),
            SessionRunner::Online(r) => r.disable_local_input(disable_input),
        }
    }
}

} // verus!
