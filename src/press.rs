//! Edge and hold tracking for one on/off control.
use vstd::prelude::*;

verus! {

/// Tracks the on/off state of one control together with its state at the
/// previous `advance`, and how many advances it has been held.
#[derive(Clone, Copy, Debug, PartialEq, Eq, Structural)]
pub struct PressInput {
    pub current: bool,
    pub last: bool,
    /// How many advances the input has been held since its last rising edge
    /// (saturates at `u32::MAX`).
    pub held: u32,
}

impl Default for PressInput {
    fn default() -> (r: Self)
        ensures
            r == (PressInput { current: false, last: false, held: 0 }),
    {
        PressInput { current: false, last: false, held: 0 }
    }
}

/// The state after applying `pressed` to `p`.
pub open spec fn apply_spec(p: PressInput, pressed: bool) -> PressInput {
    PressInput {
        current: pressed,
        last: p.last,
        held: if pressed && !p.last { 0 } else { p.held },
    }
}

/// The state after one `advance` of `p`.
pub open spec fn advance_spec(p: PressInput) -> PressInput {
    PressInput {
        current: p.current,
        last: p.current,
        held: if p.current && p.held < u32::MAX { (p.held + 1) as u32 } else { p.held },
    }
}

/// The state after applying every value of `values` to `p`, in order.
pub open spec fn apply_all(p: PressInput, values: Seq<bool>) -> PressInput
    decreases values.len(),
{
    if values.len() == 0 {
        p
    } else {
        apply_spec(apply_all(p, values.drop_last()), values.last())
    }
}

impl PressInput {
    pub open spec fn just_pressed_spec(&self) -> bool {
        self.current && !self.last
    }

    /// The input is on now and was off at the previous advance.
    pub fn just_pressed(&self) -> (r: bool)
        ensures
            r == self.just_pressed_spec(),
    {
        self.current && !self.last
    }

    /// The input is off now and was on at the previous advance.
    pub fn just_released(&self) -> (r: bool)
        ensures
            r == (!self.current && self.last),
    {
        !self.current && self.last
    }

    pub fn pressed(&self) -> (r: bool)
        ensures
            r == self.current,
    {
        self.current
    }

    pub fn released(&self) -> (r: bool)
        ensures
            r == !self.current,
    {
        !self.current
    }

    /// The input is on and has been held for at least `frames` advances.
    pub fn just_held(&self, frames: u32) -> (r: bool)
        ensures
            r == (self.held >= frames && self.current),
    {
        self.held >= frames && self.pressed()
    }

    pub fn held(&self) -> (r: u32)
        ensures
            r == self.held,
    {
        self.held
    }

    pub fn press(&mut self)
        ensures
            *final(self) == apply_spec(*old(self), true),
    {
        self.apply_bool(true);
    }

    pub fn release(&mut self)
        ensures
            *final(self) == apply_spec(*old(self), false),
    {
        self.apply_bool(false);
    }

    pub fn toggle(&mut self)
        ensures
            *final(self) == apply_spec(*old(self), !old(self).current),
    {
        let v = !self.current;
        self.apply_bool(v);
    }

    /// Sets whether the control is on. May be called any number of times
    /// between two advances: the last value wins, and `held` restarts at the
    /// rising edge.
    pub fn apply_bool(&mut self, pressed: bool)
        ensures
            *final(self) == apply_spec(*old(self), pressed),
    {
        self.current = pressed;
        if self.just_pressed() {
            self.held = 0;
        }
    }

    /// Rolls the current state into the previous one; call once per step,
    /// after the step has read the input.
    pub fn advance(&mut self)
        ensures
            *final(self) == advance_spec(*old(self)),
    {
        self.last = self.current;
        if self.pressed() {
            self.held = self.held.saturating_add(1);
        }
    }

    /// Merges two controls that drive one logical input: on if either is on,
    /// with the hold count of `self`.
    pub fn bitor(self, rhs: PressInput) -> (r: PressInput)
        ensures
            r.current == (self.current || rhs.current),
            r.last == (self.last || rhs.last),
            r.held == self.held,
    {
        PressInput { current: self.current || rhs.current, last: self.last || rhs.last, held: self.held }
    }
}

/// After any sequence of applied values within one advance window, the input
/// is on exactly when the last value was, and it was just pressed exactly
/// when it is on and was off at the previous advance.
pub proof fn lemma_last_apply_wins(p: PressInput, values: Seq<bool>)
    requires
        values.len() > 0,
    ensures
        apply_all(p, values).current == values.last(),
        apply_all(p, values).last == p.last,
        apply_all(p, values).just_pressed_spec() == (values.last() && !p.last),
    decreases values.len(),
{
    let prev = values.drop_last();
    if values.len() > 1 {
        lemma_last_apply_wins(p, prev);
    } else {
        assert(apply_all(p, prev) == p);
    }
    assert(apply_all(p, values) == apply_spec(apply_all(p, prev), values.last()));
}

/// `held` is zero on the step where the input becomes just pressed, and
/// otherwise never decreases across an advance while the input stays on.
pub proof fn lemma_held_resets_on_rising_edge(p: PressInput, pressed: bool)
    ensures
        apply_spec(p, pressed).just_pressed_spec() ==> apply_spec(p, pressed).held == 0,
        !apply_spec(p, pressed).just_pressed_spec() ==> apply_spec(p, pressed).held == p.held,
        p.current ==> advance_spec(p).held >= p.held,
        p.current && p.held < u32::MAX ==> advance_spec(p).held == p.held + 1,
{
}

} // verus!
