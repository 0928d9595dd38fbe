//! Saturating signed fixed-point numbers.

use vstd::prelude::*;
use vstd::std_specs::ops::DivSpec;
use vstd::std_specs::ops::MulSpec;

verus! {

/// Number of raw units in one whole: fine enough for six decimal places,
/// and a multiple of 120, so that one step of a simulation that runs at 120
/// steps per second is a whole number of units.
pub const SCALE: i64 = 1_200_000;

/// The integer of the `i64` range that is nearest to `v`.
pub open spec fn saturate_raw(v: int) -> int {
    if v < i64::MIN {
        i64::MIN as int
    } else if v > i64::MAX {
        i64::MAX as int
    } else {
        v
    }
}

/// The distance of `v` from zero.
pub open spec fn magnitude(v: int) -> int {
    if v < 0 {
        -v
    } else {
        v
    }
}

/// Quotient of `n` by `d` rounded toward zero (`d` is not zero).
pub open spec fn trunc_div(n: int, d: int) -> int {
    let q = magnitude(n) / magnitude(d);
    if (n < 0) != (d < 0) {
        -q
    } else {
        q
    }
}

/// `r` is the largest number that is not negative and whose square is at
/// most `n`.
pub open spec fn is_int_sqrt(n: int, r: int) -> bool {
    0 <= r && r * r <= n < (r + 1) * (r + 1)
}

/// The largest `r >= 0` with `r * r <= n` (`n` is not negative).
pub open spec fn int_sqrt(n: int) -> int {
    choose|r: int| is_int_sqrt(n, r)
}

/// Two candidates for the integer square root of one number are equal.
pub proof fn lemma_int_sqrt_unique(n: int, r: int)
    requires
        is_int_sqrt(n, r),
    ensures
        int_sqrt(n) == r,
{
    let s = int_sqrt(n);
    assert(is_int_sqrt(n, s));
    assert(s == r) by (nonlinear_arith)
        requires
            0 <= r,
            r * r <= n < (r + 1) * (r + 1),
            0 <= s,
            s * s <= n < (s + 1) * (s + 1),
    ;
}

/// A real number held as a count of raw units, [`SCALE`] to one whole;
/// arithmetic rounds toward zero and saturates at the ends of the `i64` range
/// instead of overflowing.
#[derive(Clone, Copy, Debug, PartialEq, Eq, Hash, Structural)]
pub struct Fixed {
    pub raw: i64,
}

fn saturate(v: i128) -> (r: i64)
    ensures
        r == saturate_raw(v as int),
{
    if v < i64::MIN as i128 {
        i64::MIN
    } else if v > i64::MAX as i128 {
        i64::MAX
    } else {
        v as i64
    }
}

fn magnitude_of(v: i128) -> (r: u128)
    requires
        v > i128::MIN,
    ensures
        r == magnitude(v as int),
{
    if v < 0 {
        (-v) as u128
    } else {
        v as u128
    }
}

fn div_toward_zero(n: i128, d: i128) -> (q: i128)
    requires
        d != 0,
        n > i128::MIN,
        d > i128::MIN,
    ensures
        q == trunc_div(n as int, d as int),
{
    let an: u128 = magnitude_of(n);
    let ad: u128 = magnitude_of(d);
    let aq: u128 = an / ad;
    assert(aq <= an) by (nonlinear_arith)
        requires
            aq == an / ad,
            ad >= 1,
    ;
    if (n < 0) != (d < 0) {
        -(aq as i128)
    } else {
        aq as i128
    }
}

fn mul_wide(a: i64, b: i64) -> (r: i128)
    ensures
        r == a * b,
        -0x4000_0000_0000_0000_0000_0000_0000_0000 <= r <= 0x4000_0000_0000_0000_0000_0000_0000_0000,
{
    assert(-0x4000_0000_0000_0000_0000_0000_0000_0000 <= a * b
        <= 0x4000_0000_0000_0000_0000_0000_0000_0000) by (nonlinear_arith)
        requires
            -0x8000_0000_0000_0000 <= a <= 0x7fff_ffff_ffff_ffff,
            -0x8000_0000_0000_0000 <= b <= 0x7fff_ffff_ffff_ffff,
    ;
    (a as i128) * (b as i128)
}

/// Integer square root by bisection.
pub fn isqrt(n: u128) -> (r: u64)
    ensures
        r == int_sqrt(n as int),
        r * r <= n < (r + 1) * (r + 1),
{
    let mut lo: u128 = 0;
    let mut hi: u128 = 0x1_0000_0000_0000_0000;
    assert(n < hi * hi) by (nonlinear_arith)
        requires
            n <= u128::MAX,
            hi == 0x1_0000_0000_0000_0000,
    ;
    while hi - lo > 1
        invariant
            lo < hi <= 0x1_0000_0000_0000_0000,
            lo * lo <= n < hi * hi,
        decreases hi - lo,
    {
        let mid: u128 = lo + (hi - lo) / 2;
        assert(mid * mid <= 0xffff_ffff_ffff_ffff * 0xffff_ffff_ffff_ffff) by (nonlinear_arith)
            requires
                0 <= mid <= 0xffff_ffff_ffff_ffff,
        ;
        if mid * mid <= n {
            lo = mid;
        } else {
            hi = mid;
        }
    }
    proof {
        lemma_int_sqrt_unique(n as int, lo as int);
    }
    lo as u64
}

impl Fixed {
    /// The number of raw units `raw`.
    pub fn from_raw(raw: i64) -> (r: Fixed)
        ensures
            r.raw == raw,
    {
        Fixed { raw }
    }

    /// The whole number `n`.
    pub open spec fn whole(n: i32) -> Fixed {
        Fixed { raw: (n * SCALE) as i64 }
    }

    /// The whole number `n`.
    pub fn from_int(n: i32) -> (r: Fixed)
        ensures
            r == Self::whole(n),
            r.raw == n * SCALE,
    {
        Fixed { raw: (n as i64) * SCALE }
    }

    /// The quotient `num / den`, rounded toward zero and saturated.
    pub open spec fn ratio_spec(num: i64, den: i64) -> Fixed {
        Fixed { raw: saturate_raw(trunc_div(num * SCALE, den as int)) as i64 }
    }

    /// The quotient `num / den`, rounded toward zero.
    pub fn from_ratio(num: i64, den: i64) -> (r: Fixed)
        requires
            den != 0,
        ensures
            r == Self::ratio_spec(num, den),
    {
        Fixed { raw: saturate(div_toward_zero(mul_wide(num, SCALE), den as i128)) }
    }

    /// The square root, rounded down to a whole number of raw units.
    pub open spec fn sqrt_spec(self) -> Fixed {
        Fixed { raw: saturate_raw(int_sqrt(self.raw * SCALE)) as i64 }
    }

    /// Square root of a number that is not negative, rounded down.
    pub fn sqrt(self) -> (r: Fixed)
        requires
            self.raw >= 0,
        ensures
            r == self.sqrt_spec(),
    {
        let n: u128 = (self.raw as u128) * (SCALE as u128);
        let root: u64 = isqrt(n);
        Fixed { raw: saturate(root as i128) }
    }

    /// The length of the vector with components `x` and `y`: the square
    /// root of the sum of their squares, rounded down once.
    pub open spec fn hypot_spec(x: Fixed, y: Fixed) -> Fixed {
        Fixed { raw: saturate_raw(int_sqrt(x.raw * x.raw + y.raw * y.raw)) as i64 }
    }

    /// The length of the vector with components `x` and `y`.
    pub fn hypot(x: Fixed, y: Fixed) -> (r: Fixed)
        ensures
            r == Self::hypot_spec(x, y),
            r.raw >= 0,
    {
        let xx: i128 = mul_wide(x.raw, x.raw);
        let yy: i128 = mul_wide(y.raw, y.raw);
        assert(xx >= 0 && yy >= 0) by (nonlinear_arith)
            requires
                xx == x.raw * x.raw,
                yy == y.raw * y.raw,
        ;
        let root: u64 = isqrt(xx as u128 + yy as u128);
        Fixed { raw: saturate(root as i128) }
    }

    /// The blend `to * t + from * (1 - t)`, rounded once, toward zero.
    pub open spec fn lerp_spec(from: Fixed, to: Fixed, t: Fixed) -> Fixed {
        Fixed {
            raw: saturate_raw(trunc_div(to.raw * t.raw + from.raw * (SCALE - t.raw), SCALE as int)) as i64,
        }
    }

    /// The blend `to * t + from * (1 - t)` for `t` between zero and one,
    /// rounded once, toward zero.
    pub fn lerp(from: Fixed, to: Fixed, t: Fixed) -> (r: Fixed)
        requires
            0 <= t.raw <= SCALE,
        ensures
            r == Self::lerp_spec(from, to, t),
    {
        let a: i128 = mul_wide(to.raw, t.raw);
        let b: i128 = mul_wide(from.raw, SCALE - t.raw);
        assert(-0x8000_0000_0000_0000 * 1_200_000 <= a + b <= 0x8000_0000_0000_0000 * 1_200_000)
            by (nonlinear_arith)
            requires
                a == to.raw * t.raw,
                b == from.raw * (1_200_000 - t.raw),
                0 <= t.raw <= 1_200_000,
                -0x8000_0000_0000_0000 <= to.raw <= 0x7fff_ffff_ffff_ffff,
                -0x8000_0000_0000_0000 <= from.raw <= 0x7fff_ffff_ffff_ffff,
        ;
        Fixed { raw: saturate(div_toward_zero(a + b, SCALE as i128)) }
    }
}

/// A part of a positive whole, as a fraction of it, is at least zero and less
/// than one.
pub proof fn lemma_proper_fraction(part: Fixed, whole: Fixed)
    requires
        0 <= part.raw < whole.raw,
    ensures
        0 <= part.div_spec(whole).raw < SCALE,
{
    let p = part.raw as int;
    let w = whole.raw as int;
    assert(0 <= (p * 1_200_000) / w < 1_200_000) by (nonlinear_arith)
        requires
            0 <= p < w,
    ;
    assert(magnitude(part.raw * SCALE) == p * 1_200_000) by (nonlinear_arith)
        requires
            p == part.raw,
            0 <= p,
            SCALE == 1_200_000,
    ;
}

/// A blend of a number with itself is that number, at any weight.
pub proof fn lemma_lerp_of_equals(x: Fixed, t: Fixed)
    ensures
        Fixed::lerp_spec(x, x, t) == x,
{
    let v = x.raw as int;
    let w = t.raw as int;
    let m = magnitude(v);
    assert(v * w + v * (1_200_000 - w) == v * 1_200_000) by (nonlinear_arith);
    assert((m * 1_200_000) / 1_200_000 == m) by (nonlinear_arith)
        requires
            m >= 0,
    ;
    assert(magnitude(v * 1_200_000) == m * 1_200_000);
}

/// Multiplying by one changes nothing.
pub proof fn lemma_mul_one(a: Fixed)
    ensures
        (Fixed { raw: SCALE }).mul_spec(a) == a,
        a.mul_spec(Fixed { raw: SCALE }) == a,
{
    let m = magnitude(a.raw as int);
    assert((1_200_000 * m) / 1_200_000 == m) by (nonlinear_arith)
        requires
            m >= 0,
    ;
    assert(magnitude(SCALE * a.raw) == 1_200_000 * m);
    assert(magnitude(a.raw * SCALE) == 1_200_000 * m);
}

impl core::ops::Add for Fixed {
    type Output = Fixed;

    fn add(self, rhs: Fixed) -> (r: Fixed) {
        Fixed { raw: saturate(self.raw as i128 + rhs.raw as i128) }
    }
}

impl vstd::std_specs::ops::AddSpecImpl for Fixed {
    open spec fn obeys_add_spec() -> bool {
        true
    }

    open spec fn add_req(self, rhs: Fixed) -> bool {
        true
    }

    open spec fn add_spec(self, rhs: Fixed) -> Fixed {
        Fixed { raw: saturate_raw(self.raw + rhs.raw) as i64 }
    }
}

impl core::ops::Sub for Fixed {
    type Output = Fixed;

    fn sub(self, rhs: Fixed) -> (r: Fixed) {
        Fixed { raw: saturate(self.raw as i128 - rhs.raw as i128) }
    }
}

impl vstd::std_specs::ops::SubSpecImpl for Fixed {
    open spec fn obeys_sub_spec() -> bool {
        true
    }

    open spec fn sub_req(self, rhs: Fixed) -> bool {
        true
    }

    open spec fn sub_spec(self, rhs: Fixed) -> Fixed {
        Fixed { raw: saturate_raw(self.raw - rhs.raw) as i64 }
    }
}

impl core::ops::Neg for Fixed {
    type Output = Fixed;

    fn neg(self) -> (r: Fixed) {
        Fixed { raw: saturate(-(self.raw as i128)) }
    }
}

impl vstd::std_specs::ops::NegSpecImpl for Fixed {
    open spec fn obeys_neg_spec() -> bool {
        true
    }

    open spec fn neg_req(self) -> bool {
        true
    }

    open spec fn neg_spec(self) -> Fixed {
        Fixed { raw: saturate_raw(-self.raw) as i64 }
    }
}

impl core::ops::Mul for Fixed {
    type Output = Fixed;

    fn mul(self, rhs: Fixed) -> (r: Fixed) {
        Fixed { raw: saturate(div_toward_zero(mul_wide(self.raw, rhs.raw), SCALE as i128)) }
    }
}

impl vstd::std_specs::ops::MulSpecImpl for Fixed {
    open spec fn obeys_mul_spec() -> bool {
        true
    }

    open spec fn mul_req(self, rhs: Fixed) -> bool {
        true
    }

    open spec fn mul_spec(self, rhs: Fixed) -> Fixed {
        Fixed { raw: saturate_raw(trunc_div(self.raw * rhs.raw, SCALE as int)) as i64 }
    }
}

impl core::ops::Div for Fixed {
    type Output = Fixed;

    fn div(self, rhs: Fixed) -> (r: Fixed) {
        Fixed { raw: saturate(div_toward_zero(mul_wide(self.raw, SCALE), rhs.raw as i128)) }
    }
}

impl vstd::std_specs::ops::DivSpecImpl for Fixed {
    open spec fn obeys_div_spec() -> bool {
        true
    }

    open spec fn div_req(self, rhs: Fixed) -> bool {
        rhs.raw != 0
    }

    open spec fn div_spec(self, rhs: Fixed) -> Fixed {
        Fixed { raw: saturate_raw(trunc_div(self.raw * SCALE, rhs.raw as int)) as i64 }
    }
}

} // verus!
