//! The lossy, bit-packed wire form of a control snapshot.
//!
//! A character's snapshot packs into the low bits of a `u64`: bit 0 shoot,
//! bit 1 pass, bit 2 has-direction, and from bit 3 a twelve-bit quantised
//! direction. A team's snapshot holds the first character in bits 0..32 and
//! the second in bits 32..64.
use vstd::prelude::*;

use crate::play_input::{PlayInput, PlayTeamInput};
use crate::press::apply_spec;

verus! {

/// Squared dead-zone radius in thousandths: a stick within a tenth of its
/// travel from the centre has no direction.
pub const DEADZONE_SQ: i64 = 10000;

/// Quantisation steps of each component of a unit direction on the wire.
pub const DIR_STEPS: u64 = 31;

/// Scale of a decoded direction: a unit vector in thousandths.
pub const UNIT: u64 = 1000;

/// `k` is `scale * sqrt(num_sq / den_sq)` rounded to the nearest integer,
/// halves rounding up.
pub open spec fn is_rounded_ratio(num_sq: int, den_sq: int, scale: int, k: int) -> bool {
    &&& 0 <= k <= scale
    &&& (k == 0 || (2 * k - 1) * (2 * k - 1) * den_sq <= 4 * scale * scale * num_sq)
    &&& 4 * scale * scale * num_sq < (2 * k + 1) * (2 * k + 1) * den_sq
}

pub open spec fn rounded_ratio(num_sq: int, den_sq: int, scale: int) -> int {
    choose|k: int| is_rounded_ratio(num_sq, den_sq, scale, k)
}

/// The component `c` of the vector `(c, o)` scaled to a unit of `scale` and
/// rounded, keeping the sign of `c`.
pub open spec fn signed_round(c: int, o: int, scale: int) -> int {
    if c < 0 {
        -rounded_ratio(c * c, c * c + o * o, scale)
    } else {
        rounded_ratio(c * c, c * c + o * o, scale)
    }
}

proof fn lemma_rounded_unique(n: int, d: int, s: int, k1: int, k2: int)
    requires
        d > 0,
        is_rounded_ratio(n, d, s, k1),
        is_rounded_ratio(n, d, s, k2),
    ensures
        k1 == k2,
{
    if k1 < k2 {
        assert((2 * k1 + 1) * (2 * k1 + 1) * d <= (2 * k2 - 1) * (2 * k2 - 1) * d) by (nonlinear_arith)
            requires
                0 <= k1,
                k1 + 1 <= k2,
                d > 0,
        ;
    } else if k2 < k1 {
        assert((2 * k2 + 1) * (2 * k2 + 1) * d <= (2 * k1 - 1) * (2 * k1 - 1) * d) by (nonlinear_arith)
            requires
                0 <= k2,
                k2 + 1 <= k1,
                d > 0,
        ;
    }
}

proof fn lemma_rounded_is(n: int, d: int, s: int, k: int)
    requires
        d > 0,
        is_rounded_ratio(n, d, s, k),
    ensures
        rounded_ratio(n, d, s) == k,
{
    lemma_rounded_unique(n, d, s, k, rounded_ratio(n, d, s));
}

proof fn lemma_rounded_from(n: int, d: int, s: int, k: int) -> (r: int)
    requires
        0 <= n <= d,
        d > 0,
        0 <= k <= s,
        k == 0 || (2 * k - 1) * (2 * k - 1) * d <= 4 * s * s * n,
    ensures
        is_rounded_ratio(n, d, s, r),
        rounded_ratio(n, d, s) == r,
    decreases s - k,
{
    if k < s && (2 * k + 1) * (2 * k + 1) * d <= 4 * s * s * n {
        lemma_rounded_from(n, d, s, k + 1)
    } else {
        if k == s {
            assert(4 * s * s * n < (2 * s + 1) * (2 * s + 1) * d) by (nonlinear_arith)
                requires
                    n <= d,
                    d > 0,
                    s >= 0,
            ;
        }
        lemma_rounded_is(n, d, s, k);
        k
    }
}

/// The rounded ratio exists, lies in `[0, s]`, and is not zero when the
/// ratio is at least a half.
proof fn lemma_rounded_range(n: int, d: int, s: int)
    requires
        0 <= n <= d,
        d > 0,
        s >= 0,
    ensures
        is_rounded_ratio(n, d, s, rounded_ratio(n, d, s)),
        0 <= rounded_ratio(n, d, s) <= s,
{
    lemma_rounded_from(n, d, s, 0);
}

/// Rounds `scale * sqrt(num_sq / den_sq)` to the nearest integer.
pub fn round_ratio(num_sq: u64, den_sq: u64, scale: u64) -> (k: u64)
    requires
        0 < den_sq <= 2_000_000,
        num_sq <= den_sq,
        scale <= 1000,
    ensures
        is_rounded_ratio(num_sq as int, den_sq as int, scale as int, k as int),
        k == rounded_ratio(num_sq as int, den_sq as int, scale as int),
{
    assert(scale * scale <= 1_000_000) by (nonlinear_arith)
        requires
            scale <= 1000,
    ;
    let sq_scale: u64 = scale * scale;
    let s4: u64 = 4 * sq_scale;
    assert(s4 * num_sq <= 4_000_000 * 2_000_000) by (nonlinear_arith)
        requires
            s4 <= 4_000_000,
            num_sq <= 2_000_000,
    ;
    let target: u64 = s4 * num_sq;
    let mut k: u64 = 0;
    let mut go: bool = scale > 0 && den_sq <= target;
    assert((2 * 0 + 1) * (2 * 0 + 1) * den_sq == den_sq) by (nonlinear_arith);
    assert(target == 4 * scale * scale * num_sq) by (nonlinear_arith)
        requires
            target == s4 * num_sq,
            s4 == 4 * sq_scale,
            sq_scale == scale * scale,
    ;
    while go
        invariant
            k <= scale,
            scale <= 1000,
            0 < den_sq <= 2_000_000,
            num_sq <= den_sq,
            target == 4 * scale * scale * num_sq,
            k == 0 || (2 * k - 1) * (2 * k - 1) * den_sq <= target,
            go == (k < scale && (2 * k + 1) * (2 * k + 1) * den_sq <= target),
        decreases scale - k,
    {
        k = k + 1;
        if k < scale {
            let odd: u64 = 2 * k + 1;
            assert(odd * odd <= 2001 * 2001) by (nonlinear_arith)
                requires
                    odd <= 2001,
            ;
            let sq: u64 = odd * odd;
            assert(sq * den_sq <= 2001 * 2001 * 2_000_000) by (nonlinear_arith)
                requires
                    sq <= 2001 * 2001,
                    den_sq <= 2_000_000,
            ;
            go = sq * den_sq <= target;
        } else {
            go = false;
        }
    }
    proof {
        if k == scale {
            assert(4 * scale * scale * num_sq < (2 * scale + 1) * (2 * scale + 1) * den_sq) by (nonlinear_arith)
                requires
                    num_sq <= den_sq,
                    den_sq > 0,
                    scale >= 0,
            ;
        }
        lemma_rounded_is(num_sq as int, den_sq as int, scale as int, k as int);
    }
    k
}

/// Scales the component `c` of `(c, o)` to a unit of `scale`, rounded, with
/// the sign of `c`.
pub fn scale_component(c: i32, o: i32, scale: u64) -> (v: i32)
    requires
        -1000 <= c <= 1000,
        -1000 <= o <= 1000,
        c != 0 || o != 0,
        scale <= 1000,
    ensures
        v == signed_round(c as int, o as int, scale as int),
        -(scale as int) <= v <= scale,
{
    let ci = c as i64;
    let oi = o as i64;
    assert(0 <= ci * ci <= 1_000_000 && 0 <= oi * oi <= 1_000_000) by (nonlinear_arith)
        requires
            -1000 <= ci <= 1000,
            -1000 <= oi <= 1000,
    ;
    let c2: u64 = (ci * ci) as u64;
    let o2: u64 = (oi * oi) as u64;
    assert(c2 <= 1_000_000 && o2 <= 1_000_000) by (nonlinear_arith)
        requires
            -1000 <= c <= 1000,
            -1000 <= o <= 1000,
            c2 == c * c,
            o2 == o * o,
    ;
    assert(c2 + o2 > 0) by (nonlinear_arith)
        requires
            c != 0 || o != 0,
            c2 == c * c,
            o2 == o * o,
    ;
    let k = round_ratio(c2, c2 + o2, scale);
    if c < 0 {
        -(k as i32)
    } else {
        k as i32
    }
}

/// A stick direction quantised to `DIR_STEPS` steps per component, each
/// component with its sign.
#[derive(Clone, Copy, Debug, Default, PartialEq, Eq, Structural)]
pub struct DenseMoveDirection {
    pub x: i32,
    pub y: i32,
}

pub open spec fn component_bits(c: int) -> u16 {
    if c < 0 {
        ((-c) as u16) | 0x20u16
    } else {
        c as u16
    }
}

pub open spec fn component_of(bits: u16) -> int {
    if bits & 0x20u16 != 0 {
        -((bits & 0x1fu16) as int)
    } else {
        (bits & 0x1fu16) as int
    }
}

impl DenseMoveDirection {
    pub open spec fn wf(&self) -> bool {
        -31 <= self.x <= 31 && -31 <= self.y <= 31
    }

    pub open spec fn bits_spec(&self) -> u16 {
        component_bits(self.x as int) | (component_bits(self.y as int) << 6u16)
    }

    pub open spec fn from_bits_spec(bits: u16) -> DenseMoveDirection {
        DenseMoveDirection {
            x: component_of(bits) as i32,
            y: component_of(bits >> 6u16) as i32,
        }
    }

    /// Reads a direction: bits 0..5 the magnitude of x and bit 5 its sign,
    /// bits 6..11 the magnitude of y and bit 11 its sign.
    pub fn from_bits(bits: u16) -> (r: DenseMoveDirection)
        ensures
            r == Self::from_bits_spec(bits),
            r.wf(),
    {
        let hi = bits >> 6u16;
        proof {
            lemma_component_range(bits);
            lemma_component_range(hi);
        }
        let xm = (bits & 0x1fu16) as i32;
        let ym = (hi & 0x1fu16) as i32;
        let x = if bits & 0x20u16 != 0 { -xm } else { xm };
        let y = if hi & 0x20u16 != 0 { -ym } else { ym };
        DenseMoveDirection { x, y }
    }

    /// Writes the direction in the layout that `from_bits` reads.
    pub fn to_bits(&self) -> (r: u16)
        requires
            self.wf(),
        ensures
            r == self.bits_spec(),
            r < 4096,
            Self::from_bits_spec(r) == *self,
    {
        let xb: u16 = if self.x < 0 { ((-self.x) as u16) | 0x20u16 } else { self.x as u16 };
        let yb: u16 = if self.y < 0 { ((-self.y) as u16) | 0x20u16 } else { self.y as u16 };
        let r = xb | (yb << 6u16);
        proof {
            lemma_dir_round_trip(*self);
        }
        r
    }
}

proof fn lemma_dir_round_trip(d: DenseMoveDirection)
    requires
        d.wf(),
    ensures
        DenseMoveDirection::from_bits_spec(d.bits_spec()) == d,
        d.bits_spec() < 4096,
{
    let xm: u16 = if d.x < 0 { (-d.x) as u16 } else { d.x as u16 };
    let ym: u16 = if d.y < 0 { (-d.y) as u16 } else { d.y as u16 };
    let xs: u16 = if d.x < 0 { 1 } else { 0 };
    let ys: u16 = if d.y < 0 { 1 } else { 0 };
    let xb = component_bits(d.x as int);
    let yb = component_bits(d.y as int);
    assert(xb == xm | (xs << 5u16)) by (bit_vector)
        requires
            xb == if xs == 1 { xm | 0x20u16 } else { xm },
            xs <= 1,
    ;
    assert(yb == ym | (ys << 5u16)) by (bit_vector)
        requires
            yb == if ys == 1 { ym | 0x20u16 } else { ym },
            ys <= 1,
    ;
    lemma_dir_fields(xm, xs, ym, ys);
}

proof fn lemma_component_range(b: u16)
    ensures
        (b & 0x1fu16) <= 31,
{
    assert((b & 0x1fu16) <= 31) by (bit_vector);
}

proof fn lemma_dir_fields(xm: u16, xs: u16, ym: u16, ys: u16)
    requires
        xm < 32,
        ym < 32,
        xs <= 1,
        ys <= 1,
    ensures
        ({
            let b = (xm | (xs << 5u16)) | ((ym | (ys << 5u16)) << 6u16);
            &&& b < 4096
            &&& b & 0x1fu16 == xm
            &&& (b & 0x20u16 != 0) == (xs == 1)
            &&& (b >> 6u16) & 0x1fu16 == ym
            &&& ((b >> 6u16) & 0x20u16 != 0) == (ys == 1)
        }),
{
    assert({
        let b = (xm | (xs << 5u16)) | ((ym | (ys << 5u16)) << 6u16);
        &&& b < 4096
        &&& b & 0x1fu16 == xm
        &&& (b & 0x20u16 != 0) == (xs == 1)
        &&& (b >> 6u16) & 0x1fu16 == ym
        &&& ((b >> 6u16) & 0x20u16 != 0) == (ys == 1)
    }) by (bit_vector)
        requires
            xm < 32,
            ym < 32,
            xs <= 1,
            ys <= 1,
    ;
}

/// `(c, o)` lies outside the dead zone.
pub open spec fn has_direction(x: int, y: int) -> bool {
    x * x + y * y > DEADZONE_SQ
}

/// The wire direction of a stick at `(x, y)`: its unit vector quantised to
/// `DIR_STEPS` steps per component.
pub open spec fn direction_spec(x: int, y: int) -> DenseMoveDirection {
    DenseMoveDirection {
        x: signed_round(x, y, DIR_STEPS as int) as i32,
        y: signed_round(y, x, DIR_STEPS as int) as i32,
    }
}

pub open spec fn flag(b: bool) -> u64 {
    if b {
        1
    } else {
        0
    }
}

/// The word with the given shoot, pass and has-direction bits and the
/// direction field `dir`.
pub open spec fn pack_spec(shoot: bool, pass: bool, has: bool, dir: u16) -> u64 {
    flag(shoot) | (flag(pass) << 1u64) | (flag(has) << 2u64) | ((dir as u64) << 3u64)
}

/// The wire form of a character's snapshot: buttons by their current state,
/// and the direction only outside the dead zone.
pub open spec fn encode_spec(p: PlayInput) -> u64 {
    if has_direction(p.x as int, p.y as int) {
        pack_spec(p.shoot.current, p.pass.current, true, direction_spec(p.x as int, p.y as int).bits_spec())
    } else {
        pack_spec(p.shoot.current, p.pass.current, false, 0)
    }
}

/// `t` after reading the wire form `v`: the buttons are applied to `t`'s
/// buttons, so that edges are tracked locally, and the direction becomes a
/// unit vector in thousandths, or the zero vector when `v` carries none.
pub open spec fn decode_spec(t: PlayInput, v: u64) -> PlayInput {
    let d = PlayInputDense(v);
    let dir = DenseMoveDirection::from_bits_spec(d.angle_spec() as u16);
    let moving = d.some_angle_spec() && (dir.x != 0 || dir.y != 0);
    PlayInput {
        x: if moving { signed_round(dir.x as int, dir.y as int, UNIT as int) as i32 } else { 0 },
        y: if moving { signed_round(dir.y as int, dir.x as int, UNIT as int) as i32 } else { 0 },
        shoot: apply_spec(t.shoot, d.shoot_spec()),
        pass: apply_spec(t.pass, d.pass_spec()),
    }
}

proof fn lemma_pack_fields(s: u64, p: u64, h: u64, dir: u64)
    requires
        s <= 1,
        p <= 1,
        h <= 1,
        dir < 4096,
    ensures
        ({
            let v = s | (p << 1u64) | (h << 2u64) | (dir << 3u64);
            &&& v & 1 == s
            &&& (v >> 1u64) & 1 == p
            &&& (v >> 2u64) & 1 == h
            &&& (v >> 3u64) & 0x3fff_ffff == dir
            &&& ((v >> 3u64) & 0x3fff_ffff) & 0xffff == dir
            &&& v < 0x8000
        }),
{
    assert({
        let v = s | (p << 1u64) | (h << 2u64) | (dir << 3u64);
        &&& v & 1 == s
        &&& (v >> 1u64) & 1 == p
        &&& (v >> 2u64) & 1 == h
        &&& (v >> 3u64) & 0x3fff_ffff == dir
        &&& ((v >> 3u64) & 0x3fff_ffff) & 0xffff == dir
        &&& v < 0x8000
    }) by (bit_vector)
        requires
            s <= 1,
            p <= 1,
            h <= 1,
            dir < 4096,
    ;
}

/// What reading a packed word gives back.
proof fn lemma_pack_read(shoot: bool, pass: bool, has: bool, dir: u16)
    requires
        dir < 4096,
    ensures
        PlayInputDense(pack_spec(shoot, pass, has, dir)).shoot_spec() == shoot,
        PlayInputDense(pack_spec(shoot, pass, has, dir)).pass_spec() == pass,
        PlayInputDense(pack_spec(shoot, pass, has, dir)).some_angle_spec() == has,
        PlayInputDense(pack_spec(shoot, pass, has, dir)).angle_spec() == dir as u32,
        PlayInputDense(pack_spec(shoot, pass, has, dir)).angle_spec() as u16 == dir,
        pack_spec(shoot, pass, has, dir) < 0x8000,
{
    lemma_pack_fields(flag(shoot), flag(pass), flag(has), dir as u64);
}

proof fn lemma_signed_round(c: int, o: int, s: int)
    requires
        c != 0 || o != 0,
        s >= 0,
    ensures
        is_rounded_ratio(c * c, c * c + o * o, s, if c < 0 { -signed_round(c, o, s) } else { signed_round(c, o, s) }),
        -s <= signed_round(c, o, s) <= s,
        c > 0 ==> signed_round(c, o, s) >= 0,
        c < 0 ==> signed_round(c, o, s) <= 0,
{
    assert(c * c >= 0 && o * o >= 0 && c * c + o * o > 0) by (nonlinear_arith)
        requires
            c != 0 || o != 0,
    ;
    lemma_rounded_range(c * c, c * c + o * o, s);
}

/// The wire direction of a stick outside the dead zone has wire-range
/// components, and is never the zero vector.
proof fn lemma_direction_nonzero(x: int, y: int)
    requires
        has_direction(x, y),
    ensures
        direction_spec(x, y).wf(),
        direction_spec(x, y).x != 0 || direction_spec(x, y).y != 0,
        direction_spec(x, y).x == signed_round(x, y, DIR_STEPS as int),
        direction_spec(x, y).y == signed_round(y, x, DIR_STEPS as int),
{
    assert(x != 0 || y != 0) by (nonlinear_arith)
        requires
            x * x + y * y > DEADZONE_SQ,
    ;
    lemma_signed_round(x, y, 31);
    lemma_signed_round(y, x, 31);
    let kx = rounded_ratio(x * x, x * x + y * y, 31);
    let ky = rounded_ratio(y * y, y * y + x * x, 31);
    let r2 = x * x + y * y;
    assert(y * y + x * x == r2);
    if kx == 0 && ky == 0 {
        assert(4 * 31 * 31 * (x * x) < (2 * kx + 1) * (2 * kx + 1) * r2);
        assert(4 * 31 * 31 * (y * y) < (2 * ky + 1) * (2 * ky + 1) * r2);
        assert((2 * kx + 1) * (2 * kx + 1) * r2 == r2) by (nonlinear_arith)
            requires
                kx == 0,
        ;
        assert((2 * ky + 1) * (2 * ky + 1) * r2 == r2) by (nonlinear_arith)
            requires
                ky == 0,
        ;
        assert(false) by (nonlinear_arith)
            requires
                4 * 31 * 31 * (x * x) < r2,
                4 * 31 * 31 * (y * y) < r2,
                r2 == x * x + y * y,
                r2 > 0,
        ;
    }
}

/// One character's wire form.
#[derive(Clone, Copy, Debug, Default, PartialEq, Eq, Structural)]
pub struct PlayInputDense(pub u64);

impl PlayInputDense {
    pub open spec fn shoot_spec(&self) -> bool {
        self.0 & 1 == 1
    }

    pub open spec fn pass_spec(&self) -> bool {
        (self.0 >> 1u64) & 1 == 1
    }

    pub open spec fn some_angle_spec(&self) -> bool {
        (self.0 >> 2u64) & 1 == 1
    }

    pub open spec fn angle_spec(&self) -> u32 {
        ((self.0 >> 3u64) & 0x3fff_ffff) as u32
    }

    pub fn shoot(&self) -> (r: bool)
        ensures
            r == self.shoot_spec(),
    {
        self.0 & 1 == 1
    }

    pub fn pass(&self) -> (r: bool)
        ensures
            r == self.pass_spec(),
    {
        (self.0 >> 1u64) & 1 == 1
    }

    pub fn some_angle(&self) -> (r: bool)
        ensures
            r == self.some_angle_spec(),
    {
        (self.0 >> 2u64) & 1 == 1
    }

    /// The thirty-bit direction field.
    pub fn angle(&self) -> (r: u32)
        ensures
            r == self.angle_spec(),
    {
        ((self.0 >> 3u64) & 0x3fff_ffff) as u32
    }
}

impl PlayInput {
    /// Packs this snapshot into its wire form.
    pub fn get_dense_input(&self) -> (r: PlayInputDense)
        requires
            self.wf(),
        ensures
            r.0 == encode_spec(*self),
            r.0 < 0x8000,
            r.shoot_spec() == self.shoot.current,
            r.pass_spec() == self.pass.current,
            r.some_angle_spec() == has_direction(self.x as int, self.y as int),
    {
        let xi = self.x as i64;
        let yi = self.y as i64;
        assert(0 <= xi * xi <= 1_000_000 && 0 <= yi * yi <= 1_000_000) by (nonlinear_arith)
            requires
                -1000 <= xi <= 1000,
                -1000 <= yi <= 1000,
        ;
        let has = xi * xi + yi * yi > DEADZONE_SQ;
        let s: u64 = if self.shoot.pressed() { 1 } else { 0 };
        let p: u64 = if self.pass.pressed() { 1 } else { 0 };
        if has {
            proof {
                lemma_direction_nonzero(self.x as int, self.y as int);
            }
            let dir = DenseMoveDirection {
                x: scale_component(self.x, self.y, DIR_STEPS),
                y: scale_component(self.y, self.x, DIR_STEPS),
            };
            let bits = dir.to_bits();
            proof {
                lemma_pack_read(self.shoot.current, self.pass.current, true, bits);
            }
            PlayInputDense(s | (p << 1u64) | (1u64 << 2u64) | ((bits as u64) << 3u64))
        } else {
            proof {
                lemma_pack_read(self.shoot.current, self.pass.current, false, 0);
            }
            PlayInputDense(s | (p << 1u64) | (0u64 << 2u64) | (0u64 << 3u64))
        }
    }

    /// Reads a wire form into this snapshot: the buttons go through the
    /// usual edge tracking, the direction becomes a unit vector, or the zero
    /// vector when the wire carries none.
    pub fn update_from_dense(&mut self, dense: &PlayInputDense)
        ensures
            *final(self) == decode_spec(*old(self), dense.0),
            final(self).wf(),
    {
        let dir = DenseMoveDirection::from_bits(dense.angle() as u16);
        if dense.some_angle() && (dir.x != 0 || dir.y != 0) {
            proof {
                lemma_signed_round(dir.x as int, dir.y as int, 1000);
                lemma_signed_round(dir.y as int, dir.x as int, 1000);
            }
            self.x = scale_component(dir.x, dir.y, UNIT);
            self.y = scale_component(dir.y, dir.x, UNIT);
        } else {
            self.x = 0;
            self.y = 0;
        }
        self.shoot.apply_bool(dense.shoot());
        self.pass.apply_bool(dense.pass());
    }
}

/// Round trip through the wire form. At rest the direction comes back as
/// exactly zero; the buttons always come back exactly. Outside the dead
/// zone, each component of the wire direction is the source's unit vector
/// rounded to the nearest of `DIR_STEPS` steps (so within one step of it),
/// with its sign, and the decoded direction is that wire direction scaled
/// back to a unit vector in thousandths.
pub proof fn lemma_dense_round_trip(v: PlayInput, t: PlayInput)
    requires
        v.wf(),
    ensures
        decode_spec(t, encode_spec(v)).shoot.current == v.shoot.current,
        decode_spec(t, encode_spec(v)).pass.current == v.pass.current,
        !has_direction(v.x as int, v.y as int) ==> decode_spec(t, encode_spec(v)).x == 0
            && decode_spec(t, encode_spec(v)).y == 0,
        has_direction(v.x as int, v.y as int) ==> ({
            let d = direction_spec(v.x as int, v.y as int);
            let x = v.x as int;
            let y = v.y as int;
            &&& d.x != 0 || d.y != 0
            &&& is_rounded_ratio(x * x, x * x + y * y, DIR_STEPS as int, if d.x < 0 { -d.x } else { d.x as int })
            &&& is_rounded_ratio(y * y, y * y + x * x, DIR_STEPS as int, if d.y < 0 { -d.y } else { d.y as int })
            &&& (x > 0 ==> d.x >= 0) && (x < 0 ==> d.x <= 0)
            &&& (y > 0 ==> d.y >= 0) && (y < 0 ==> d.y <= 0)
            &&& decode_spec(t, encode_spec(v)).x == signed_round(d.x as int, d.y as int, UNIT as int)
            &&& decode_spec(t, encode_spec(v)).y == signed_round(d.y as int, d.x as int, UNIT as int)
        }),
{
    if has_direction(v.x as int, v.y as int) {
        let d = direction_spec(v.x as int, v.y as int);
        lemma_direction_nonzero(v.x as int, v.y as int);
        lemma_dir_round_trip(d);
        lemma_pack_read(v.shoot.current, v.pass.current, true, d.bits_spec());
        lemma_signed_round(v.x as int, v.y as int, 31);
        lemma_signed_round(v.y as int, v.x as int, 31);
        let r = decode_spec(t, encode_spec(v));
        let w = PlayInputDense(encode_spec(v));
        assert(w.some_angle_spec());
        assert(DenseMoveDirection::from_bits_spec(w.angle_spec() as u16) == d);
        lemma_signed_round(d.x as int, d.y as int, 1000);
        lemma_signed_round(d.y as int, d.x as int, 1000);
    } else {
        lemma_pack_read(v.shoot.current, v.pass.current, false, 0);
    }
}

/// A team's wire form: the first character in the low half, the second in
/// the high half.
#[derive(Clone, Copy, Debug, Default, PartialEq, Eq, Structural)]
pub struct PlayTeamInputDense(pub u64);

impl PlayTeamInputDense {
    pub open spec fn p1_spec(&self) -> PlayInputDense {
        PlayInputDense(self.0 & 0xffff_ffff)
    }

    pub open spec fn p2_spec(&self) -> PlayInputDense {
        PlayInputDense(self.0 >> 32u64)
    }

    pub fn p1(&self) -> (r: PlayInputDense)
        ensures
            r == self.p1_spec(),
    {
        PlayInputDense(self.0 & 0xffff_ffff)
    }

    pub fn p2(&self) -> (r: PlayInputDense)
        ensures
            r == self.p2_spec(),
    {
        PlayInputDense(self.0 >> 32u64)
    }
}

proof fn lemma_halves(a: u64, b: u64)
    requires
        a < 0x1_0000_0000,
        b < 0x1_0000_0000,
    ensures
        (a | (b << 32u64)) & 0xffff_ffff == a,
        (a | (b << 32u64)) >> 32u64 == b,
{
    assert((a | (b << 32u64)) & 0xffff_ffff == a && (a | (b << 32u64)) >> 32u64 == b) by (bit_vector)
        requires
            a < 0x1_0000_0000,
            b < 0x1_0000_0000,
    ;
}

impl PlayTeamInput {
    /// Packs both characters into the team's wire form.
    pub fn get_dense_input(&self) -> (r: PlayTeamInputDense)
        requires
            self.wf(),
        ensures
            r.p1_spec().0 == encode_spec(self.p1),
            r.p2_spec().0 == encode_spec(self.p2),
    {
        let a = self.p1.get_dense_input();
        let b = self.p2.get_dense_input();
        proof {
            lemma_halves(a.0, b.0);
        }
        PlayTeamInputDense(a.0 | (b.0 << 32u64))
    }

    /// Reads a team's wire form into both characters.
    pub fn update_from_dense(&mut self, new_control: &PlayTeamInputDense)
        ensures
            final(self).p1 == decode_spec(old(self).p1, new_control.p1_spec().0),
            final(self).p2 == decode_spec(old(self).p2, new_control.p2_spec().0),
            final(self).wf(),
    {
        self.p1.update_from_dense(&new_control.p1());
        self.p2.update_from_dense(&new_control.p2());
    }
}

/// A team's snapshot survives its wire form as each character's does.
pub proof fn lemma_team_dense_round_trip(v: PlayTeamInput)
    requires
        v.wf(),
    ensures
        ({
            let w = PlayTeamInputDense(encode_spec(v.p1) | (encode_spec(v.p2) << 32u64));
            &&& w.p1_spec().0 == encode_spec(v.p1)
            &&& w.p2_spec().0 == encode_spec(v.p2)
        }),
{
    if has_direction(v.p1.x as int, v.p1.y as int) {
        lemma_direction_nonzero(v.p1.x as int, v.p1.y as int);
        lemma_dir_round_trip(direction_spec(v.p1.x as int, v.p1.y as int));
        lemma_pack_read(v.p1.shoot.current, v.p1.pass.current, true, direction_spec(v.p1.x as int, v.p1.y as int).bits_spec());
    } else {
        lemma_pack_read(v.p1.shoot.current, v.p1.pass.current, false, 0);
    }
    if has_direction(v.p2.x as int, v.p2.y as int) {
        lemma_direction_nonzero(v.p2.x as int, v.p2.y as int);
        lemma_dir_round_trip(direction_spec(v.p2.x as int, v.p2.y as int));
        lemma_pack_read(v.p2.shoot.current, v.p2.pass.current, true, direction_spec(v.p2.x as int, v.p2.y as int).bits_spec());
    } else {
        lemma_pack_read(v.p2.shoot.current, v.p2.pass.current, false, 0);
    }
    lemma_halves(encode_spec(v.p1), encode_spec(v.p2));
}

} // verus!
