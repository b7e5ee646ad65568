//! Exact decimal fixed-point numbers: an `i64` count of billionths.
//!
//! Every real quantity in the library (chromaticity coordinates, luminances,
//! matrix entries, colors, rectangle coordinates) is represented as an
//! integer number of `1 / SCALE` units. Products and quotients are computed
//! in 128-bit intermediates and rounded toward zero, so every operation has
//! an exact integer specification (`tdiv`). Operations whose true result
//! does not fit in the representable range return `None`.

use vstd::prelude::*;

verus! {

/// Number of fixed-point units per 1.0.
pub const SCALE: i64 = 1_000_000_000;

/// Absolute value of a mathematical integer.
pub open spec fn iabs(a: int) -> int {
    if a >= 0 {
        a
    } else {
        -a
    }
}

/// Division of mathematical integers truncated toward zero, the rounding
/// used by all fixed-point operations.
pub open spec fn tdiv(a: int, b: int) -> int
    recommends
        b != 0,
{
    if (a >= 0) == (b >= 0) {
        iabs(a) / iabs(b)
    } else {
        -(iabs(a) / iabs(b))
    }
}

/// Whether a mathematical integer is within the symmetric representable
/// range of a fixed-point value.
pub open spec fn fits(x: int) -> bool {
    iabs(x) <= i64::MAX as int
}

/// A real number represented as `v / SCALE`.
#[derive(Clone, Copy, PartialEq, Eq, Structural, Hash, Debug)]
pub struct Fixed {
    pub v: i64,
}

impl View for Fixed {
    type V = int;

    open spec fn view(&self) -> int {
        self.v as int
    }
}

pub proof fn lemma_iabs_mul(a: int, b: int)
    ensures
        iabs(a * b) == iabs(a) * iabs(b),
{
    if a >= 0 {
        if b >= 0 {
            assert(a * b >= 0) by (nonlinear_arith)
                requires
                    a >= 0,
                    b >= 0,
            ;
        } else {
            assert(a * b <= 0 && -(a * b) == a * (-b)) by (nonlinear_arith)
                requires
                    a >= 0,
                    b < 0,
            ;
        }
    } else {
        if b >= 0 {
            assert(a * b <= 0 && -(a * b) == (-a) * b) by (nonlinear_arith)
                requires
                    a < 0,
                    b >= 0,
            ;
        } else {
            assert(a * b >= 0 && a * b == (-a) * (-b)) by (nonlinear_arith)
                requires
                    a < 0,
                    b < 0,
            ;
        }
    }
}

proof fn lemma_sign_mul(a: int, b: int)
    ensures
        (a >= 0 && b >= 0) ==> a * b >= 0,
        (a <= 0 && b <= 0) ==> a * b >= 0,
        (a >= 0 && b <= 0) ==> a * b <= 0,
        (a <= 0 && b >= 0) ==> a * b <= 0,
{
    assert(((a >= 0 && b >= 0) ==> a * b >= 0) && ((a <= 0 && b <= 0) ==> a * b >= 0) && ((a >= 0
        && b <= 0) ==> a * b <= 0) && ((a <= 0 && b >= 0) ==> a * b <= 0)) by (nonlinear_arith);
}

/// Bounds the magnitude of a product by the product of the bounds.
pub proof fn lemma_prod_le(a: int, b: int, ba: int, bb: int)
    requires
        iabs(a) <= ba,
        iabs(b) <= bb,
    ensures
        iabs(a * b) <= ba * bb,
{
    lemma_iabs_mul(a, b);
    vstd::arithmetic::mul::lemma_mul_upper_bound(iabs(a), ba, iabs(b), bb);
}

/// Magnitude of an `i128`, exact also for the minimum value.
pub fn abs_u128(a: i128) -> (r: u128)
    ensures
        r as int == iabs(a as int),
{
    if a >= 0 {
        a as u128
    } else {
        let w: u128 = (-(a + 1)) as u128;
        w + 1
    }
}

/// Division of `i128` values truncated toward zero.
pub fn tdiv_i128(a: i128, b: i128) -> (r: i128)
    requires
        b != 0,
        iabs(a as int) <= i128::MAX as int,
    ensures
        r as int == tdiv(a as int, b as int),
{
    let ma: u128 = abs_u128(a);
    let mb: u128 = abs_u128(b);
    let q: u128 = ma / mb;
    proof {
        assert(ma as int / mb as int <= ma as int) by (nonlinear_arith)
            requires
                mb as int >= 1,
                ma as int >= 0,
        ;
    }
    if (a < 0) != (b < 0) {
        -(q as i128)
    } else {
        q as i128
    }
}

/// Magnitude of an `i64`, exact also for the minimum value.
fn abs_u64(a: i64) -> (r: u64)
    ensures
        r as int == iabs(a as int),
{
    if a >= 0 {
        a as u64
    } else {
        let w: i128 = -(a as i128);
        w as u64
    }
}

/// Builds the signed result from a magnitude known to fit.
fn apply_sign(q: u64, neg: bool) -> (r: i64)
    requires
        q <= i64::MAX as u64,
    ensures
        r as int == if neg {
            -(q as int)
        } else {
            q as int
        },
{
    if neg {
        -(q as i64)
    } else {
        q as i64
    }
}

impl Fixed {
    /// The fixed-point value of a whole number.
    pub fn from_whole(n: i32) -> (r: Fixed)
        ensures
            r@ == n as int * SCALE as int,
    {
        proof {
            assert(iabs((n as int) * (SCALE as int)) <= 0x7fffffffffffffff) by (nonlinear_arith)
                requires
                    -0x80000000 <= n as int <= 0x7fffffff,
            ;
        }
        let w: i128 = (n as i128) * (SCALE as i128);
        Fixed { v: w as i64 }
    }

    /// The fixed-point value of an unsigned whole number.
    pub fn from_whole_u32(n: u32) -> (r: Fixed)
        ensures
            r@ == n as int * SCALE as int,
    {
        proof {
            assert(iabs((n as int) * (SCALE as int)) <= 0x7fffffffffffffff) by (nonlinear_arith)
                requires
                    0 <= n as int <= 0xffffffff,
            ;
        }
        let w: i128 = (n as i128) * (SCALE as i128);
        Fixed { v: w as i64 }
    }

    /// The raw unit count, as a fixed-point value.
    pub fn from_scaled(v: i64) -> (r: Fixed)
        ensures
            r@ == v as int,
    {
        Fixed { v }
    }

    /// Fixed-point product, truncated toward zero.
    pub fn fmul(self, o: Fixed) -> (r: Option<Fixed>)
        ensures
            r matches Some(x) ==> x@ == tdiv(self@ * o@, SCALE as int),
            r is Some <==> fits(tdiv(self@ * o@, SCALE as int)),
    {
        let ma: u64 = abs_u64(self.v);
        let mb: u64 = abs_u64(o.v);
        proof {
            lemma_iabs_mul(self@, o@);
            lemma_sign_mul(self@, o@);
            vstd::arithmetic::mul::lemma_mul_upper_bound(
                ma as int,
                u64::MAX as int,
                mb as int,
                u64::MAX as int,
            );
        }
        let prod: u128 = (ma as u128) * (mb as u128);
        let q: u128 = prod / (SCALE as u128);
        if q > (i64::MAX as u128) {
            return None;
        }
        let neg: bool = (self.v < 0) != (o.v < 0);
        Some(Fixed { v: apply_sign(q as u64, neg) })
    }

    /// Fixed-point quotient, truncated toward zero; `None` when the divisor
    /// is zero.
    pub fn fdiv(self, o: Fixed) -> (r: Option<Fixed>)
        ensures
            r matches Some(x) ==> x@ == tdiv(self@ * SCALE as int, o@),
            r is Some <==> o@ != 0 && fits(tdiv(self@ * SCALE as int, o@)),
    {
        if o.v == 0 {
            return None;
        }
        let ma: u64 = abs_u64(self.v);
        let mb: u64 = abs_u64(o.v);
        proof {
            lemma_iabs_mul(self@, SCALE as int);
            lemma_sign_mul(self@, SCALE as int);
            vstd::arithmetic::mul::lemma_mul_upper_bound(
                ma as int,
                u64::MAX as int,
                SCALE as int,
                SCALE as int,
            );
        }
        let num: u128 = (ma as u128) * (SCALE as u128);
        let q: u128 = num / (mb as u128);
        if q > (i64::MAX as u128) {
            return None;
        }
        let neg: bool = (self.v < 0) != (o.v < 0);
        Some(Fixed { v: apply_sign(q as u64, neg) })
    }

    /// Division of the value by a whole number of at least two, truncated
    /// toward zero. Always representable, since the magnitude at least
    /// halves.
    pub fn fdiv_whole(self, c: i64) -> (r: Fixed)
        requires
            c >= 2,
        ensures
            r@ == tdiv(self@, c as int),
    {
        proof {
            lemma_tdiv_le(self@, c as int, 0x8000000000000000);
            vstd::arithmetic::div_mod::lemma_div_is_ordered_by_denominator(
                0x8000000000000000,
                2,
                c as int,
            );
            lemma_tdiv_eq(0x8000000000000000, 2, 0x4000000000000000, 0);
        }
        let w: i128 = tdiv_i128(self.v as i128, c as i128);
        Fixed { v: w as i64 }
    }

    /// Exact sum; `None` when the result does not fit.
    pub fn fadd(self, o: Fixed) -> (r: Option<Fixed>)
        ensures
            r matches Some(x) ==> x@ == self@ + o@,
            r is Some <==> fits(self@ + o@),
    {
        let s: i128 = (self.v as i128) + (o.v as i128);
        if s > (i64::MAX as i128) || s < -(i64::MAX as i128) {
            None
        } else {
            Some(Fixed { v: s as i64 })
        }
    }

    /// Exact difference; `None` when the result does not fit.
    pub fn fsub(self, o: Fixed) -> (r: Option<Fixed>)
        ensures
            r matches Some(x) ==> x@ == self@ - o@,
            r is Some <==> fits(self@ - o@),
    {
        let s: i128 = (self.v as i128) - (o.v as i128);
        if s > (i64::MAX as i128) || s < -(i64::MAX as i128) {
            None
        } else {
            Some(Fixed { v: s as i64 })
        }
    }

    /// Exact negation; `None` only for the minimum raw value.
    pub fn fneg(self) -> (r: Option<Fixed>)
        ensures
            r matches Some(x) ==> x@ == -self@,
            r is Some <==> fits(self@),
    {
        let s: i128 = -(self.v as i128);
        if s > (i64::MAX as i128) {
            None
        } else {
            Some(Fixed { v: s as i64 })
        }
    }

    /// The larger of two fixed-point values.
    pub fn fmax(self, o: Fixed) -> (r: Fixed)
        ensures
            r@ == if self@ >= o@ {
                self@
            } else {
                o@
            },
    {
        if self.v >= o.v {
            self
        } else {
            o
        }
    }

    /// Whether the value is zero.
    pub fn is_zero(self) -> (r: bool)
        ensures
            r <==> self@ == 0,
    {
        self.v == 0
    }
}

/// One full turn in fixed-point radians, truncated.
pub const TWO_PI: i64 = 6_283_185_307;

/// Half a turn in fixed-point radians, truncated.
pub const PI_FIXED: i64 = 3_141_592_653;

/// A quarter turn in fixed-point radians, truncated.
pub const HALF_PI: i64 = 1_570_796_326;

/// Three quarter turns in fixed-point radians, truncated.
pub const THREE_HALF_PI: i64 = 4_712_388_980;

/// Bounds a truncating quotient by the quotient of the bounds.
pub proof fn lemma_tdiv_le(a: int, b: int, ab: int)
    requires
        iabs(a) <= ab,
        b != 0,
    ensures
        iabs(tdiv(a, b)) <= tdiv(ab, iabs(b)),
        iabs(tdiv(a, b)) <= ab,
        tdiv(ab, iabs(b)) <= ab,
{
    assert(iabs(a) / iabs(b) >= 0 && ab / iabs(b) >= 0) by (nonlinear_arith)
        requires
            iabs(a) >= 0,
            ab >= 0,
            iabs(b) >= 1,
    ;
    vstd::arithmetic::div_mod::lemma_div_is_ordered(iabs(a), ab, iabs(b));
    assert(ab / iabs(b) <= ab) by (nonlinear_arith)
        requires
            iabs(b) >= 1,
            ab >= 0,
    ;
}

/// Establishes a truncating quotient of non-negative values from its
/// quotient-remainder witness.
pub proof fn lemma_tdiv_eq(a: int, b: int, q: int, r: int)
    requires
        a >= 0,
        b > 0,
        q >= 0,
        0 <= r < b,
        a == q * b + r,
    ensures
        tdiv(a, b) == q,
{
    vstd::arithmetic::div_mod::lemma_fundamental_div_mod_converse_div(a, b, q, r);
}

/// One Horner step of the cosine series: `1 - u * acc / c` in fixed point.
pub open spec fn cos_step_spec(u: int, acc: int, c: int) -> int {
    SCALE as int - tdiv(tdiv(u * acc, SCALE as int), c)
}

fn poly_step(u: i64, acc: i64, c: i64) -> (r: i64)
    requires
        2 <= c <= 132,
        iabs(u as int) <= 2_600_000_000,
        iabs(acc as int) <= 2_000_000_000,
    ensures
        r as int == cos_step_spec(u as int, acc as int, c as int),
        iabs(r as int - SCALE as int) <= tdiv(
            tdiv(5_200_000_000_000_000_000, SCALE as int),
            c as int,
        ),
{
    proof {
        lemma_prod_le(u as int, acc as int, 2_600_000_000, 2_000_000_000);
    }
    let w: i128 = (u as i128) * (acc as i128);
    proof {
        lemma_tdiv_le(w as int, SCALE as int, 5_200_000_000_000_000_000);
    }
    let inner: i128 = tdiv_i128(w, SCALE as i128);
    proof {
        lemma_tdiv_le(inner as int, c as int, tdiv(5_200_000_000_000_000_000, SCALE as int));
    }
    let x: i128 = tdiv_i128(inner, c as i128);
    (SCALE as i128 - x) as i64
}

/// The cosine series on the first quadrant: six Horner steps of the Taylor
/// expansion, each with one fixed-point truncation.
pub open spec fn cos_poly_spec(t: int) -> int {
    let u = tdiv(t * t, SCALE as int);
    let c6 = cos_step_spec(u, SCALE as int, 132);
    let c5 = cos_step_spec(u, c6, 90);
    let c4 = cos_step_spec(u, c5, 56);
    let c3 = cos_step_spec(u, c4, 30);
    let c2 = cos_step_spec(u, c3, 12);
    cos_step_spec(u, c2, 2)
}

fn cos_poly(t: i64) -> (r: i64)
    requires
        0 <= t <= 1_600_000_000,
    ensures
        r as int == cos_poly_spec(t as int),
        iabs(r as int) <= 4_000_000_000,
{
    proof {
        lemma_prod_le(t as int, t as int, 1_600_000_000, 1_600_000_000);
    }
    let w: i128 = (t as i128) * (t as i128);
    proof {
        lemma_tdiv_le(w as int, SCALE as int, 2_560_000_000_000_000_000);
        lemma_tdiv_eq(2_560_000_000_000_000_000, 1_000_000_000, 2_560_000_000, 0);
    }
    let u128v: i128 = tdiv_i128(w, SCALE as i128);
    let u: i64 = u128v as i64;
    proof {
        lemma_tdiv_eq(5_200_000_000_000_000_000, 1_000_000_000, 5_200_000_000, 0);
        lemma_tdiv_eq(5_200_000_000, 132, 39_393_939, 52);
        lemma_tdiv_eq(5_200_000_000, 90, 57_777_777, 70);
        lemma_tdiv_eq(5_200_000_000, 56, 92_857_142, 48);
        lemma_tdiv_eq(5_200_000_000, 30, 173_333_333, 10);
        lemma_tdiv_eq(5_200_000_000, 12, 433_333_333, 4);
        lemma_tdiv_eq(5_200_000_000, 2, 2_600_000_000, 0);
    }
    let c6: i64 = poly_step(u, SCALE, 132);
    let c5: i64 = poly_step(u, c6, 90);
    let c4: i64 = poly_step(u, c5, 56);
    let c3: i64 = poly_step(u, c4, 30);
    let c2: i64 = poly_step(u, c3, 12);
    poly_step(u, c2, 2)
}

/// The remainder of an angle modulo one turn, in `[0, TWO_PI)`.
fn emod_two_pi(x: i64) -> (r: i64)
    ensures
        r as int == (x as int) % (TWO_PI as int),
        0 <= r < TWO_PI,
{
    let m: u64 = abs_u64(x) % (TWO_PI as u64);
    if x >= 0 {
        m as i64
    } else {
        let ghost k: int = iabs(x as int);
        proof {
            vstd::arithmetic::div_mod::lemma_fundamental_div_mod(k, TWO_PI as int);
            let q = k / (TWO_PI as int);
            if m == 0 {
                assert((-q) * (TWO_PI as int) + 0 == x as int) by (nonlinear_arith)
                    requires
                        k == (TWO_PI as int) * q + m as int,
                        m as int == 0,
                        x as int == -k,
                ;
                vstd::arithmetic::div_mod::lemma_fundamental_div_mod_converse_mod(
                    x as int,
                    TWO_PI as int,
                    -q,
                    0,
                );
            } else {
                assert((-q - 1) * (TWO_PI as int) + (TWO_PI as int - m as int) == x as int)
                    by (nonlinear_arith)
                    requires
                        k == (TWO_PI as int) * q + m as int,
                        x as int == -k,
                ;
                vstd::arithmetic::div_mod::lemma_fundamental_div_mod_converse_mod(
                    x as int,
                    TWO_PI as int,
                    -q - 1,
                    TWO_PI as int - m as int,
                );
            }
        }
        if m == 0 {
            0
        } else {
            TWO_PI - (m as i64)
        }
    }
}

/// Cosine of a reduced angle, by quadrant symmetry over the first-quadrant
/// series.
pub open spec fn cos_reduced_spec(t: int) -> int {
    if t < HALF_PI as int {
        cos_poly_spec(t)
    } else if t < PI_FIXED as int {
        -cos_poly_spec(PI_FIXED as int - t)
    } else if t < THREE_HALF_PI as int {
        -cos_poly_spec(t - PI_FIXED as int)
    } else {
        cos_poly_spec(TWO_PI as int - t)
    }
}

fn cos_reduced(t: i64) -> (r: i64)
    requires
        0 <= t < TWO_PI,
    ensures
        r as int == cos_reduced_spec(t as int),
        iabs(r as int) <= 4_000_000_000,
{
    if t < HALF_PI {
        cos_poly(t)
    } else if t < PI_FIXED {
        -cos_poly(PI_FIXED - t)
    } else if t < THREE_HALF_PI {
        -cos_poly(t - PI_FIXED)
    } else {
        cos_poly(TWO_PI - t)
    }
}

/// Cosine of an angle in fixed-point radians.
pub open spec fn cos_spec(x: int) -> int {
    cos_reduced_spec(x % (TWO_PI as int))
}

/// The angle whose cosine is the sine of the argument: a quarter turn
/// behind, reduced to one turn.
pub open spec fn sin_shift_spec(t: int) -> int {
    if t + (THREE_HALF_PI as int) < (TWO_PI as int) {
        t + THREE_HALF_PI as int
    } else {
        t + THREE_HALF_PI as int - TWO_PI as int
    }
}

/// Sine of an angle in fixed-point radians.
pub open spec fn sin_spec(x: int) -> int {
    cos_reduced_spec(sin_shift_spec(x % (TWO_PI as int)))
}

impl Fixed {
    /// Cosine, the angle in fixed-point radians: the argument is reduced
    /// modulo one turn and evaluated by quadrant symmetry over a truncated
    /// Taylor series.
    pub fn fcos(self) -> (r: Fixed)
        ensures
            r@ == cos_spec(self@),
            iabs(r@) <= 4_000_000_000,
    {
        let t: i64 = emod_two_pi(self.v);
        Fixed { v: cos_reduced(t) }
    }

    /// Sine, the angle in fixed-point radians, via the cosine a quarter
    /// turn behind.
    pub fn fsin(self) -> (r: Fixed)
        ensures
            r@ == sin_spec(self@),
            iabs(r@) <= 4_000_000_000,
    {
        let t: i64 = emod_two_pi(self.v);
        let s: i64 = if t + THREE_HALF_PI < TWO_PI {
            t + THREE_HALF_PI
        } else {
            t + THREE_HALF_PI - TWO_PI
        };
        Fixed { v: cos_reduced(s) }
    }
}

/// Whether `r` is the integer cube root of a non-negative `x`, rounded
/// down.
pub open spec fn is_cube_root(r: int, x: int) -> bool {
    &&& r * r * r <= x
    &&& x < (r + 1) * (r + 1) * (r + 1)
}

/// The non-negative integer cube root, rounded down.
pub open spec fn cbrt_floor(x: int) -> int
    recommends
        x >= 0,
{
    choose|r: int| r >= 0 && is_cube_root(r, x)
}

/// Two integer cube roots of the same value are equal.
pub proof fn lemma_cube_root_unique(r1: int, r2: int, x: int)
    requires
        r1 >= 0,
        r2 >= 0,
        is_cube_root(r1, x),
        is_cube_root(r2, x),
    ensures
        r1 == r2,
{
    if r1 < r2 {
        assert((r1 + 1) * (r1 + 1) * (r1 + 1) <= r2 * r2 * r2) by (nonlinear_arith)
            requires
                0 <= r1,
                r1 < r2,
        ;
        assert(false);
    }
    if r2 < r1 {
        assert((r2 + 1) * (r2 + 1) * (r2 + 1) <= r1 * r1 * r1) by (nonlinear_arith)
            requires
                0 <= r2,
                r2 < r1,
        ;
        assert(false);
    }
}

/// Pins `cbrt_floor` to a witness.
pub proof fn lemma_cbrt_value(r: int, x: int)
    requires
        r >= 0,
        is_cube_root(r, x),
    ensures
        cbrt_floor(x) == r,
{
    assert(cbrt_floor(x) >= 0 && is_cube_root(cbrt_floor(x), x)) by {
        assert(r >= 0 && is_cube_root(r, x));
    }
    lemma_cube_root_unique(cbrt_floor(x), r, x);
}

fn cbrt_u128(x: u128) -> (r: u128)
    requires
        (x as int) < 0x40000000000000000000000000000000,
    ensures
        is_cube_root(r as int, x as int),
        r < 0x40000000000,
{
    let mut lo: u128 = 0;
    let mut hi: u128 = 0x40000000000;
    proof {
        assert(0x40000000000 * 0x40000000000 * 0x40000000000
            == 0x40000000000000000000000000000000);
    }
    while hi - lo > 1
        invariant
            lo < hi,
            hi <= 0x40000000000,
            (lo as int) * (lo as int) * (lo as int) <= x as int,
            (x as int) < (hi as int) * (hi as int) * (hi as int),
        decreases hi - lo,
    {
        let mid: u128 = lo + (hi - lo) / 2;
        proof {
            vstd::arithmetic::mul::lemma_mul_upper_bound(
                mid as int,
                0x40000000000,
                mid as int,
                0x40000000000,
            );
            vstd::arithmetic::mul::lemma_mul_upper_bound(
                (mid as int) * (mid as int),
                0x40000000000int * 0x40000000000int,
                mid as int,
                0x40000000000int,
            );
        }
        let c: u128 = mid * mid * mid;
        if c <= x {
            lo = mid;
        } else {
            hi = mid;
        }
    }
    lo
}

/// The fixed-point cube root value: the integer cube root of the value
/// brought to the cube of the unit, with the sign of the argument.
pub open spec fn fcbrt_val(v: int) -> int {
    if v >= 0 {
        cbrt_floor(v * (SCALE as int * SCALE as int))
    } else {
        -cbrt_floor(-v * (SCALE as int * SCALE as int))
    }
}

impl Fixed {
    /// Fixed-point cube root, rounded toward zero; odd, as the real cube
    /// root is. Always representable.
    pub fn fcbrt(self) -> (r: Fixed)
        ensures
            r@ == fcbrt_val(self@),
            self@ >= 0 ==> r@ >= 0 && is_cube_root(r@, self@ * (SCALE as int * SCALE as int)),
            self@ < 0 ==> r@ <= 0 && is_cube_root(-r@, -self@ * (SCALE as int * SCALE as int)),
            iabs(r@) < 0x40000000000,
    {
        let mag: u64 = abs_u64(self.v);
        proof {
            vstd::arithmetic::mul::lemma_mul_upper_bound(
                mag as int,
                u64::MAX as int,
                1_000_000_000_000_000_000,
                1_000_000_000_000_000_000,
            );
        }
        let m128: u128 = (mag as u128) * 1_000_000_000_000_000_000u128;
        proof {
            assert(u64::MAX as int * 1_000_000_000_000_000_000
                < 0x40000000000000000000000000000000);
        }
        let c: u128 = cbrt_u128(m128);
        proof {
            lemma_cbrt_value(c as int, m128 as int);
        }
        if self.v < 0 {
            proof {
                assert(-(self@) * (SCALE as int * SCALE as int) == m128 as int)
                    by (nonlinear_arith)
                    requires
                        m128 as int == iabs(self@) * 1_000_000_000_000_000_000,
                        self@ < 0,
                        SCALE as int * SCALE as int == 1_000_000_000_000_000_000,
                ;
            }
            Fixed { v: -(c as i64) }
        } else {
            proof {
                assert(self@ * (SCALE as int * SCALE as int) == m128 as int) by (nonlinear_arith)
                    requires
                        m128 as int == iabs(self@) * 1_000_000_000_000_000_000,
                        self@ >= 0,
                        SCALE as int * SCALE as int == 1_000_000_000_000_000_000,
                ;
            }
            Fixed { v: c as i64 }
        }
    }
}

} // verus!
