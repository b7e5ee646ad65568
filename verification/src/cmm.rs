//! The color matrix library: derivation of color-space transform matrices
//! from primaries, white points and luminance ranges.
//!
//! Matrices are 3x4 affine maps (a 3x3 linear part and a translation
//! column) with entries in decimal fixed point. Each matrix is tagged at
//! the type level with its destination and source color space, so that only
//! mathematically meaningful compositions type-check. Where the source
//! tool computed in floating point, this library computes in fixed point
//! with truncation toward zero; every function's contract states the exact
//! integer value of each entry.
//!
//! Degenerate inputs (a coplanar primary triangle, a zero-luminance range, a
//! white point on the horizon line) make the derivations divide by zero; the
//! derivations here detect that, and any intermediate value that leaves the
//! representable range, and report it as an error instead of propagating
//! non-finite values.

use vstd::prelude::*;
use core::marker::PhantomData;
use crate::fixed::{Fixed, SCALE, fits, iabs, tdiv};
use crate::protocol::{WpColorManagerV1Primaries, WpColorManagerV1TransferFunction};

verus! {

/// The error of a matrix derivation whose input is degenerate or whose
/// intermediate values leave the representable fixed-point range.
#[derive(Clone, Copy, Debug, PartialEq, Eq, Structural, Hash)]
pub struct CmmError;

/// Mathematical value of a 3x4 affine color matrix: the integer unit counts
/// of its entries, row-major, with `e03`, `e13`, `e23` the translation
/// column.
pub ghost struct MatS {
    pub e00: int,
    pub e01: int,
    pub e02: int,
    pub e03: int,
    pub e10: int,
    pub e11: int,
    pub e12: int,
    pub e13: int,
    pub e20: int,
    pub e21: int,
    pub e22: int,
    pub e23: int,
}

/// The identity matrix value.
pub open spec fn ms_identity() -> MatS {
    MatS {
        e00: SCALE as int,
        e01: 0,
        e02: 0,
        e03: 0,
        e10: 0,
        e11: SCALE as int,
        e12: 0,
        e13: 0,
        e20: 0,
        e21: 0,
        e22: SCALE as int,
        e23: 0,
    }
}

/// Fixed-point value of a three-term dot product, rounded once at the end.
pub open spec fn dot3_spec(a0: int, a1: int, a2: int, b0: int, b1: int, b2: int) -> int {
    tdiv(a0 * b0 + a1 * b1 + a2 * b2, SCALE as int)
}

/// Whether `dot3` succeeds on these entries.
pub open spec fn dot3_fits(a0: int, a1: int, a2: int, b0: int, b1: int, b2: int) -> bool {
    &&& iabs(a0 * b0) + iabs(a1 * b1) + iabs(a2 * b2) <= i128::MAX as int
    &&& fits(dot3_spec(a0, a1, a2, b0, b1, b2))
}

/// The affine product of two matrix values: rows of `a` against columns of
/// `b`, with the translation column of `a` carried through additively.
pub open spec fn ms_mul(a: MatS, b: MatS) -> MatS {
    MatS {
        e00: dot3_spec(a.e00, a.e01, a.e02, b.e00, b.e10, b.e20),
        e01: dot3_spec(a.e00, a.e01, a.e02, b.e01, b.e11, b.e21),
        e02: dot3_spec(a.e00, a.e01, a.e02, b.e02, b.e12, b.e22),
        e03: dot3_spec(a.e00, a.e01, a.e02, b.e03, b.e13, b.e23) + a.e03,
        e10: dot3_spec(a.e10, a.e11, a.e12, b.e00, b.e10, b.e20),
        e11: dot3_spec(a.e10, a.e11, a.e12, b.e01, b.e11, b.e21),
        e12: dot3_spec(a.e10, a.e11, a.e12, b.e02, b.e12, b.e22),
        e13: dot3_spec(a.e10, a.e11, a.e12, b.e03, b.e13, b.e23) + a.e13,
        e20: dot3_spec(a.e20, a.e21, a.e22, b.e00, b.e10, b.e20),
        e21: dot3_spec(a.e20, a.e21, a.e22, b.e01, b.e11, b.e21),
        e22: dot3_spec(a.e20, a.e21, a.e22, b.e02, b.e12, b.e22),
        e23: dot3_spec(a.e20, a.e21, a.e22, b.e03, b.e13, b.e23) + a.e23,
    }
}

/// Whether the affine product of two matrix values is representable.
pub open spec fn ms_mul_fits(a: MatS, b: MatS) -> bool {
    &&& dot3_fits(a.e00, a.e01, a.e02, b.e00, b.e10, b.e20)
    &&& dot3_fits(a.e00, a.e01, a.e02, b.e01, b.e11, b.e21)
    &&& dot3_fits(a.e00, a.e01, a.e02, b.e02, b.e12, b.e22)
    &&& dot3_fits(a.e00, a.e01, a.e02, b.e03, b.e13, b.e23)
    &&& fits(dot3_spec(a.e00, a.e01, a.e02, b.e03, b.e13, b.e23) + a.e03)
    &&& dot3_fits(a.e10, a.e11, a.e12, b.e00, b.e10, b.e20)
    &&& dot3_fits(a.e10, a.e11, a.e12, b.e01, b.e11, b.e21)
    &&& dot3_fits(a.e10, a.e11, a.e12, b.e02, b.e12, b.e22)
    &&& dot3_fits(a.e10, a.e11, a.e12, b.e03, b.e13, b.e23)
    &&& fits(dot3_spec(a.e10, a.e11, a.e12, b.e03, b.e13, b.e23) + a.e13)
    &&& dot3_fits(a.e20, a.e21, a.e22, b.e00, b.e10, b.e20)
    &&& dot3_fits(a.e20, a.e21, a.e22, b.e01, b.e11, b.e21)
    &&& dot3_fits(a.e20, a.e21, a.e22, b.e02, b.e12, b.e22)
    &&& dot3_fits(a.e20, a.e21, a.e22, b.e03, b.e13, b.e23)
    &&& fits(dot3_spec(a.e20, a.e21, a.e22, b.e03, b.e13, b.e23) + a.e23)
}

proof fn lemma_prod_bound(a: int, b: int)
    requires
        iabs(a) <= 0x8000000000000000,
        iabs(b) <= 0x8000000000000000,
    ensures
        iabs(a * b) <= 0x40000000000000000000000000000000,
{
    crate::fixed::lemma_iabs_mul(a, b);
    vstd::arithmetic::mul::lemma_mul_upper_bound(
        iabs(a),
        0x8000000000000000,
        iabs(b),
        0x8000000000000000,
    );
}

/// Three-term fixed-point dot product with a single truncation, computed
/// in 128-bit intermediates; `None` when a magnitude leaves the
/// representable range.
pub fn dot3(a0: Fixed, a1: Fixed, a2: Fixed, b0: Fixed, b1: Fixed, b2: Fixed) -> (r: Option<Fixed>)
    ensures
        r matches Some(x) ==> x@ == dot3_spec(a0@, a1@, a2@, b0@, b1@, b2@),
        r is Some <==> dot3_fits(a0@, a1@, a2@, b0@, b1@, b2@),
{
    proof {
        lemma_prod_bound(a0@, b0@);
        lemma_prod_bound(a1@, b1@);
        lemma_prod_bound(a2@, b2@);
    }
    let p0: i128 = (a0.v as i128) * (b0.v as i128);
    let p1: i128 = (a1.v as i128) * (b1.v as i128);
    let p2: i128 = (a2.v as i128) * (b2.v as i128);
    let m0: u128 = crate::fixed::abs_u128(p0);
    let m1: u128 = crate::fixed::abs_u128(p1);
    let m2: u128 = crate::fixed::abs_u128(p2);
    let msum: u128 = m0 + m1 + m2;
    if msum > (i128::MAX as u128) {
        return None;
    }
    let s: i128 = p0 + p1 + p2;
    let mag: u128 = crate::fixed::abs_u128(s);
    let q: u128 = mag / (SCALE as u128);
    proof {
        assert(mag as int / SCALE as int <= mag as int) by (nonlinear_arith)
            requires
                mag as int >= 0,
        ;
    }
    if q > (i64::MAX as u128) {
        return None;
    }
    if s < 0 {
        Some(Fixed { v: -(q as i64) })
    } else {
        Some(Fixed { v: q as i64 })
    }
}

/// Tag of the device-local RGB space of a set of primaries.
#[derive(Clone, Copy, Debug)]
pub struct Local;

/// Tag of absolute CIE XYZ space (Y in candela per square meter).
#[derive(Clone, Copy, Debug)]
pub struct Xyz;

/// Tag of the LMS cone-response space used by perceptual encodings.
#[derive(Clone, Copy, Debug)]
pub struct Lms;

/// Tag of the Bradford cone-response space.
#[derive(Clone, Copy, Debug)]
pub struct Bradford;

/// A 3x4 affine color transform carrying `From`-space values to `To`-space
/// values: a 3x3 linear part and a translation column `e03`, `e13`, `e23`.
#[derive(Debug)]
pub struct ColorMatrix<To, From> {
    pub e00: Fixed,
    pub e01: Fixed,
    pub e02: Fixed,
    pub e03: Fixed,
    pub e10: Fixed,
    pub e11: Fixed,
    pub e12: Fixed,
    pub e13: Fixed,
    pub e20: Fixed,
    pub e21: Fixed,
    pub e22: Fixed,
    pub e23: Fixed,
    pub spaces: PhantomData<(To, From)>,
}

impl<To, From> View for ColorMatrix<To, From> {
    type V = MatS;

    open spec fn view(&self) -> MatS {
        MatS {
            e00: self.e00@,
            e01: self.e01@,
            e02: self.e02@,
            e03: self.e03@,
            e10: self.e10@,
            e11: self.e11@,
            e12: self.e12@,
            e13: self.e13@,
            e20: self.e20@,
            e21: self.e21@,
            e22: self.e22@,
            e23: self.e23@,
        }
    }
}

impl<To, From> Clone for ColorMatrix<To, From> {
    fn clone(&self) -> (r: Self)
        ensures
            r@ == self@,
    {
        ColorMatrix {
            e00: self.e00,
            e01: self.e01,
            e02: self.e02,
            e03: self.e03,
            e10: self.e10,
            e11: self.e11,
            e12: self.e12,
            e13: self.e13,
            e20: self.e20,
            e21: self.e21,
            e22: self.e22,
            e23: self.e23,
            spaces: PhantomData,
        }
    }
}

impl<To, From> Copy for ColorMatrix<To, From> {

}

impl<To, From> ColorMatrix<To, From> {
    /// Packs twelve fixed-point entries, row-major, linear part first in
    /// each row and the translation entry last.
    #[allow(clippy::too_many_arguments)]
    pub fn new(
        e00: Fixed,
        e01: Fixed,
        e02: Fixed,
        e03: Fixed,
        e10: Fixed,
        e11: Fixed,
        e12: Fixed,
        e13: Fixed,
        e20: Fixed,
        e21: Fixed,
        e22: Fixed,
        e23: Fixed,
    ) -> (r: ColorMatrix<To, From>)
        ensures
            r@ == (MatS {
                e00: e00@,
                e01: e01@,
                e02: e02@,
                e03: e03@,
                e10: e10@,
                e11: e11@,
                e12: e12@,
                e13: e13@,
                e20: e20@,
                e21: e21@,
                e22: e22@,
                e23: e23@,
            }),
    {
        ColorMatrix {
            e00,
            e01,
            e02,
            e03,
            e10,
            e11,
            e12,
            e13,
            e20,
            e21,
            e22,
            e23,
            spaces: PhantomData,
        }
    }

    /// Whether two transforms over the same spaces have identical entries
    /// (the change-detection comparison).
    pub fn same_as(&self, o: &ColorMatrix<To, From>) -> (r: bool)
        ensures
            r <==> self@ == o@,
    {
        self.e00 == o.e00 && self.e01 == o.e01 && self.e02 == o.e02 && self.e03 == o.e03
            && self.e10 == o.e10 && self.e11 == o.e11 && self.e12 == o.e12 && self.e13 == o.e13
            && self.e20 == o.e20 && self.e21 == o.e21 && self.e22 == o.e22 && self.e23 == o.e23
    }
}

impl<T> ColorMatrix<T, T> {
    /// The identity transform of a space.
    pub fn identity() -> (r: ColorMatrix<T, T>)
        ensures
            r@ == ms_identity(),
    {
        let zero: Fixed = Fixed { v: 0 };
        let one: Fixed = Fixed { v: SCALE };
        ColorMatrix::new(one, zero, zero, zero, zero, one, zero, zero, zero, zero, one, zero)
    }
}

impl<V, U> ColorMatrix<V, U> {
    /// Affine matrix product: applies `rhs` first, then `self`. The
    /// translation column of `rhs` is carried through the linear part of
    /// `self` and added to the translation of `self`.
    pub fn mul<T>(&self, rhs: &ColorMatrix<U, T>) -> (r: Option<ColorMatrix<V, T>>)
        ensures
            r matches Some(m) ==> m@ == ms_mul(self@, rhs@),
            r is Some <==> ms_mul_fits(self@, rhs@),
    {
        let c00: Fixed = match dot3(self.e00, self.e01, self.e02, rhs.e00, rhs.e10, rhs.e20) {
            Some(x) => x,
            None => { return None },
        };
        let c01: Fixed = match dot3(self.e00, self.e01, self.e02, rhs.e01, rhs.e11, rhs.e21) {
            Some(x) => x,
            None => { return None },
        };
        let c02: Fixed = match dot3(self.e00, self.e01, self.e02, rhs.e02, rhs.e12, rhs.e22) {
            Some(x) => x,
            None => { return None },
        };
        let w03: Fixed = match dot3(self.e00, self.e01, self.e02, rhs.e03, rhs.e13, rhs.e23) {
            Some(x) => x,
            None => { return None },
        };
        let c03: Fixed = match w03.fadd(self.e03) {
            Some(x) => x,
            None => { return None },
        };
        let c10: Fixed = match dot3(self.e10, self.e11, self.e12, rhs.e00, rhs.e10, rhs.e20) {
            Some(x) => x,
            None => { return None },
        };
        let c11: Fixed = match dot3(self.e10, self.e11, self.e12, rhs.e01, rhs.e11, rhs.e21) {
            Some(x) => x,
            None => { return None },
        };
        let c12: Fixed = match dot3(self.e10, self.e11, self.e12, rhs.e02, rhs.e12, rhs.e22) {
            Some(x) => x,
            None => { return None },
        };
        let w13: Fixed = match dot3(self.e10, self.e11, self.e12, rhs.e03, rhs.e13, rhs.e23) {
            Some(x) => x,
            None => { return None },
        };
        let c13: Fixed = match w13.fadd(self.e13) {
            Some(x) => x,
            None => { return None },
        };
        let c20: Fixed = match dot3(self.e20, self.e21, self.e22, rhs.e00, rhs.e10, rhs.e20) {
            Some(x) => x,
            None => { return None },
        };
        let c21: Fixed = match dot3(self.e20, self.e21, self.e22, rhs.e01, rhs.e11, rhs.e21) {
            Some(x) => x,
            None => { return None },
        };
        let c22: Fixed = match dot3(self.e20, self.e21, self.e22, rhs.e02, rhs.e12, rhs.e22) {
            Some(x) => x,
            None => { return None },
        };
        let w23: Fixed = match dot3(self.e20, self.e21, self.e22, rhs.e03, rhs.e13, rhs.e23) {
            Some(x) => x,
            None => { return None },
        };
        let c23: Fixed = match w23.fadd(self.e23) {
            Some(x) => x,
            None => { return None },
        };
        Some(ColorMatrix::new(c00, c01, c02, c03, c10, c11, c12, c13, c20, c21, c22, c23))
    }
}

/// Value of the fixed LMS-to-XYZ basis matrix.
pub open spec fn ms_xyz_from_lms() -> MatS {
    MatS {
        e00: 1227010000,
        e01: -557800000,
        e02: 281256000,
        e03: 0,
        e10: -40580200,
        e11: 1112260000,
        e12: -71676700,
        e13: 0,
        e20: -76381300,
        e21: -421482000,
        e22: 1586160000,
        e23: 0,
    }
}

/// Value of the fixed Bradford cone-response basis matrix.
pub open spec fn ms_bfd() -> MatS {
    MatS {
        e00: 895100000,
        e01: 266400000,
        e02: -161400000,
        e03: 0,
        e10: -750200000,
        e11: 1713500000,
        e12: 36700000,
        e13: 0,
        e20: 38900000,
        e21: -68500000,
        e22: 1029600000,
        e23: 0,
    }
}

/// Value of the fixed inverse Bradford basis matrix.
pub open spec fn ms_bfd_inv() -> MatS {
    MatS {
        e00: 987000000,
        e01: -147100000,
        e02: 160000000,
        e03: 0,
        e10: 432300000,
        e11: 518400000,
        e12: 49300000,
        e13: 0,
        e20: -8500000,
        e21: 40000000,
        e22: 968500000,
        e23: 0,
    }
}

impl ColorMatrix<Xyz, Lms> {
    /// The fixed LMS-to-XYZ basis matrix.
    pub fn xyz_from_lms() -> (r: ColorMatrix<Xyz, Lms>)
        ensures
            r@ == ms_xyz_from_lms(),
    {
        let z: Fixed = Fixed { v: 0 };
        ColorMatrix::new(
            Fixed { v: 1_227_010_000 },
            Fixed { v: -557_800_000 },
            Fixed { v: 281_256_000 },
            z,
            Fixed { v: -40_580_200 },
            Fixed { v: 1_112_260_000 },
            Fixed { v: -71_676_700 },
            z,
            Fixed { v: -76_381_300 },
            Fixed { v: -421_482_000 },
            Fixed { v: 1_586_160_000 },
            z,
        )
    }
}

impl ColorMatrix<Bradford, Xyz> {
    /// The fixed Bradford cone-response basis matrix.
    pub fn bfd() -> (r: ColorMatrix<Bradford, Xyz>)
        ensures
            r@ == ms_bfd(),
    {
        let z: Fixed = Fixed { v: 0 };
        ColorMatrix::new(
            Fixed { v: 895_100_000 },
            Fixed { v: 266_400_000 },
            Fixed { v: -161_400_000 },
            z,
            Fixed { v: -750_200_000 },
            Fixed { v: 1_713_500_000 },
            Fixed { v: 36_700_000 },
            z,
            Fixed { v: 38_900_000 },
            Fixed { v: -68_500_000 },
            Fixed { v: 1_029_600_000 },
            z,
        )
    }
}

impl ColorMatrix<Xyz, Bradford> {
    /// The fixed inverse of the Bradford basis matrix.
    pub fn bfd_inv() -> (r: ColorMatrix<Xyz, Bradford>)
        ensures
            r@ == ms_bfd_inv(),
    {
        let z: Fixed = Fixed { v: 0 };
        ColorMatrix::new(
            Fixed { v: 987_000_000 },
            Fixed { v: -147_100_000 },
            Fixed { v: 160_000_000 },
            z,
            Fixed { v: 432_300_000 },
            Fixed { v: 518_400_000 },
            Fixed { v: 49_300_000 },
            z,
            Fixed { v: -8_500_000 },
            Fixed { v: 40_000_000 },
            Fixed { v: 968_500_000 },
            z,
        )
    }
}

/// An absolute luminance range in candela per square meter: minimum,
/// maximum and reference white level.
#[derive(Clone, Copy, Debug, PartialEq, Eq, Structural, Hash)]
pub struct Luminance {
    pub min: Fixed,
    pub max: Fixed,
    pub white: Fixed,
}

/// Value of the reference (SRGB) luminance range.
pub open spec fn luminance_srgb() -> Luminance {
    Luminance { min: Fixed { v: 200_000_000 }, max: Fixed { v: 80_000_000_000 }, white: Fixed { v: 80_000_000_000 } }
}

/// Value of the BT.1886 luminance range.
pub open spec fn luminance_bt1886() -> Luminance {
    Luminance { min: Fixed { v: 10_000_000 }, max: Fixed { v: 100_000_000_000 }, white: Fixed { v: 100_000_000_000 } }
}

/// Value of the ST2084 (PQ) luminance range.
pub open spec fn luminance_st2084_pq() -> Luminance {
    Luminance { min: Fixed { v: 0 }, max: Fixed { v: 10_000_000_000_000 }, white: Fixed { v: 203_000_000_000 } }
}

/// Value of the HLG luminance range.
pub open spec fn luminance_hlg() -> Luminance {
    Luminance { min: Fixed { v: 5_000_000 }, max: Fixed { v: 1_000_000_000_000 }, white: Fixed { v: 203_000_000_000 } }
}

/// Value of the Windows scRGB luminance range: the PQ range with the white
/// level chosen so that the white-balance formula against the PQ target
/// maps pure SRGB white to 80 candela per square meter.
pub open spec fn luminance_windows_scrgb() -> Luminance {
    Luminance { min: Fixed { v: 0 }, max: Fixed { v: 10_000_000_000_000 }, white: Fixed { v: 25_375_000_000_000 } }
}

impl Luminance {
    /// The reference (SRGB) luminance range.
    pub fn srgb() -> (r: Luminance)
        ensures
            r == luminance_srgb(),
    {
        Luminance { min: Fixed { v: 200_000_000 }, max: Fixed { v: 80_000_000_000 }, white: Fixed { v: 80_000_000_000 } }
    }

    /// The BT.1886 luminance range.
    pub fn bt1886() -> (r: Luminance)
        ensures
            r == luminance_bt1886(),
    {
        Luminance { min: Fixed { v: 10_000_000 }, max: Fixed { v: 100_000_000_000 }, white: Fixed { v: 100_000_000_000 } }
    }

    /// The ST2084 (PQ) luminance range.
    pub fn st2084_pq() -> (r: Luminance)
        ensures
            r == luminance_st2084_pq(),
    {
        Luminance { min: Fixed { v: 0 }, max: Fixed { v: 10_000_000_000_000 }, white: Fixed { v: 203_000_000_000 } }
    }

    /// The HLG luminance range.
    pub fn hlg() -> (r: Luminance)
        ensures
            r == luminance_hlg(),
    {
        Luminance { min: Fixed { v: 5_000_000 }, max: Fixed { v: 1_000_000_000_000 }, white: Fixed { v: 203_000_000_000 } }
    }

    /// The Windows scRGB luminance range.
    pub fn windows_scrgb() -> (r: Luminance)
        ensures
            r == luminance_windows_scrgb(),
    {
        Luminance { min: Fixed { v: 0 }, max: Fixed { v: 10_000_000_000_000 }, white: Fixed { v: 25_375_000_000_000 } }
    }
}

impl Default for Luminance {
    /// The default luminance range is the reference range.
    fn default() -> (r: Luminance)
        ensures
            r == luminance_srgb(),
    {
        Luminance::srgb()
    }
}

/// A chromaticity coordinate pair on the CIE xy diagram.
#[derive(Clone, Copy, Debug, PartialEq, Eq, Structural, Hash)]
pub struct Chromaticity {
    pub x: Fixed,
    pub y: Fixed,
}

/// Whether a chromaticity lies in the unit square, the domain stated for
/// primaries.
pub open spec fn chromaticity_in_range(c: Chromaticity) -> bool {
    &&& 0 <= c.x@ <= SCALE as int
    &&& 0 <= c.y@ <= SCALE as int
}

/// The chromaticities of a set of RGB primaries and its white point.
#[derive(Clone, Copy, Debug, PartialEq, Eq, Structural, Hash)]
pub struct Primaries {
    pub r: Chromaticity,
    pub g: Chromaticity,
    pub b: Chromaticity,
    pub wp: Chromaticity,
}

impl Primaries {
    /// Whether all four chromaticities lie in the unit square.
    pub open spec fn in_range(self) -> bool {
        &&& chromaticity_in_range(self.r)
        &&& chromaticity_in_range(self.g)
        &&& chromaticity_in_range(self.b)
        &&& chromaticity_in_range(self.wp)
    }

    /// Checks that all four chromaticities lie in the unit square.
    pub fn check_in_range(&self) -> (r: bool)
        ensures
            r <==> self.in_range(),
    {
        0 <= self.r.x.v && self.r.x.v <= SCALE && 0 <= self.r.y.v && self.r.y.v <= SCALE
            && 0 <= self.g.x.v && self.g.x.v <= SCALE && 0 <= self.g.y.v && self.g.y.v <= SCALE
            && 0 <= self.b.x.v && self.b.x.v <= SCALE && 0 <= self.b.y.v && self.b.y.v <= SCALE
            && 0 <= self.wp.x.v && self.wp.x.v <= SCALE && 0 <= self.wp.y.v && self.wp.y.v <= SCALE
    }
}

/// The supported named primaries presets.
#[derive(Clone, Copy, Debug, PartialEq, Eq, Structural, Hash)]
pub enum NamedPrimaries {
    Srgb,
    PalM,
    Pal,
    Ntsc,
    GenericFilm,
    Bt2020,
    Cie1931Xyz,
    DciP3,
    DisplayP3,
    AdobeRgb,
}

/// The chromaticity values of each named primaries preset. The CIE 1931
/// XYZ white point, one third in each coordinate, is truncated to the
/// fixed-point unit.
pub open spec fn named_primaries_spec(n: NamedPrimaries) -> Primaries {
    match n {
        NamedPrimaries::Srgb => Primaries {
            r: Chromaticity { x: Fixed { v: 640_000_000 }, y: Fixed { v: 330_000_000 } },
            g: Chromaticity { x: Fixed { v: 300_000_000 }, y: Fixed { v: 600_000_000 } },
            b: Chromaticity { x: Fixed { v: 150_000_000 }, y: Fixed { v: 60_000_000 } },
            wp: Chromaticity { x: Fixed { v: 312_700_000 }, y: Fixed { v: 329_000_000 } },
        },
        NamedPrimaries::PalM => Primaries {
            r: Chromaticity { x: Fixed { v: 670_000_000 }, y: Fixed { v: 330_000_000 } },
            g: Chromaticity { x: Fixed { v: 210_000_000 }, y: Fixed { v: 710_000_000 } },
            b: Chromaticity { x: Fixed { v: 140_000_000 }, y: Fixed { v: 80_000_000 } },
            wp: Chromaticity { x: Fixed { v: 310_000_000 }, y: Fixed { v: 316_000_000 } },
        },
        NamedPrimaries::Pal => Primaries {
            r: Chromaticity { x: Fixed { v: 640_000_000 }, y: Fixed { v: 330_000_000 } },
            g: Chromaticity { x: Fixed { v: 290_000_000 }, y: Fixed { v: 600_000_000 } },
            b: Chromaticity { x: Fixed { v: 150_000_000 }, y: Fixed { v: 60_000_000 } },
            wp: Chromaticity { x: Fixed { v: 312_700_000 }, y: Fixed { v: 329_000_000 } },
        },
        NamedPrimaries::Ntsc => Primaries {
            r: Chromaticity { x: Fixed { v: 630_000_000 }, y: Fixed { v: 340_000_000 } },
            g: Chromaticity { x: Fixed { v: 310_000_000 }, y: Fixed { v: 595_000_000 } },
            b: Chromaticity { x: Fixed { v: 155_000_000 }, y: Fixed { v: 70_000_000 } },
            wp: Chromaticity { x: Fixed { v: 312_700_000 }, y: Fixed { v: 329_000_000 } },
        },
        NamedPrimaries::GenericFilm => Primaries {
            r: Chromaticity { x: Fixed { v: 681_000_000 }, y: Fixed { v: 319_000_000 } },
            g: Chromaticity { x: Fixed { v: 243_000_000 }, y: Fixed { v: 692_000_000 } },
            b: Chromaticity { x: Fixed { v: 145_000_000 }, y: Fixed { v: 49_000_000 } },
            wp: Chromaticity { x: Fixed { v: 310_000_000 }, y: Fixed { v: 316_000_000 } },
        },
        NamedPrimaries::Bt2020 => Primaries {
            r: Chromaticity { x: Fixed { v: 708_000_000 }, y: Fixed { v: 292_000_000 } },
            g: Chromaticity { x: Fixed { v: 170_000_000 }, y: Fixed { v: 797_000_000 } },
            b: Chromaticity { x: Fixed { v: 131_000_000 }, y: Fixed { v: 46_000_000 } },
            wp: Chromaticity { x: Fixed { v: 312_700_000 }, y: Fixed { v: 329_000_000 } },
        },
        NamedPrimaries::Cie1931Xyz => Primaries {
            r: Chromaticity { x: Fixed { v: 1_000_000_000 }, y: Fixed { v: 0 } },
            g: Chromaticity { x: Fixed { v: 0 }, y: Fixed { v: 1_000_000_000 } },
            b: Chromaticity { x: Fixed { v: 0 }, y: Fixed { v: 0 } },
            wp: Chromaticity { x: Fixed { v: 333_333_333 }, y: Fixed { v: 333_333_333 } },
        },
        NamedPrimaries::DciP3 => Primaries {
            r: Chromaticity { x: Fixed { v: 680_000_000 }, y: Fixed { v: 320_000_000 } },
            g: Chromaticity { x: Fixed { v: 265_000_000 }, y: Fixed { v: 690_000_000 } },
            b: Chromaticity { x: Fixed { v: 150_000_000 }, y: Fixed { v: 60_000_000 } },
            wp: Chromaticity { x: Fixed { v: 314_000_000 }, y: Fixed { v: 351_000_000 } },
        },
        NamedPrimaries::DisplayP3 => Primaries {
            r: Chromaticity { x: Fixed { v: 680_000_000 }, y: Fixed { v: 320_000_000 } },
            g: Chromaticity { x: Fixed { v: 265_000_000 }, y: Fixed { v: 690_000_000 } },
            b: Chromaticity { x: Fixed { v: 150_000_000 }, y: Fixed { v: 60_000_000 } },
            wp: Chromaticity { x: Fixed { v: 312_700_000 }, y: Fixed { v: 329_000_000 } },
        },
        NamedPrimaries::AdobeRgb => Primaries {
            r: Chromaticity { x: Fixed { v: 640_000_000 }, y: Fixed { v: 330_000_000 } },
            g: Chromaticity { x: Fixed { v: 210_000_000 }, y: Fixed { v: 710_000_000 } },
            b: Chromaticity { x: Fixed { v: 150_000_000 }, y: Fixed { v: 60_000_000 } },
            wp: Chromaticity { x: Fixed { v: 312_700_000 }, y: Fixed { v: 329_000_000 } },
        },
    }
}

impl NamedPrimaries {
    /// The chromaticity values of this preset.
    pub fn primaries(self) -> (r: Primaries)
        ensures
            r == named_primaries_spec(self),
            r.in_range(),
    {
        match self {
            NamedPrimaries::Srgb => Primaries {
                r: Chromaticity { x: Fixed { v: 640_000_000 }, y: Fixed { v: 330_000_000 } },
                g: Chromaticity { x: Fixed { v: 300_000_000 }, y: Fixed { v: 600_000_000 } },
                b: Chromaticity { x: Fixed { v: 150_000_000 }, y: Fixed { v: 60_000_000 } },
                wp: Chromaticity { x: Fixed { v: 312_700_000 }, y: Fixed { v: 329_000_000 } },
            },
            NamedPrimaries::PalM => Primaries {
                r: Chromaticity { x: Fixed { v: 670_000_000 }, y: Fixed { v: 330_000_000 } },
                g: Chromaticity { x: Fixed { v: 210_000_000 }, y: Fixed { v: 710_000_000 } },
                b: Chromaticity { x: Fixed { v: 140_000_000 }, y: Fixed { v: 80_000_000 } },
                wp: Chromaticity { x: Fixed { v: 310_000_000 }, y: Fixed { v: 316_000_000 } },
            },
            NamedPrimaries::Pal => Primaries {
                r: Chromaticity { x: Fixed { v: 640_000_000 }, y: Fixed { v: 330_000_000 } },
                g: Chromaticity { x: Fixed { v: 290_000_000 }, y: Fixed { v: 600_000_000 } },
                b: Chromaticity { x: Fixed { v: 150_000_000 }, y: Fixed { v: 60_000_000 } },
                wp: Chromaticity { x: Fixed { v: 312_700_000 }, y: Fixed { v: 329_000_000 } },
            },
            NamedPrimaries::Ntsc => Primaries {
                r: Chromaticity { x: Fixed { v: 630_000_000 }, y: Fixed { v: 340_000_000 } },
                g: Chromaticity { x: Fixed { v: 310_000_000 }, y: Fixed { v: 595_000_000 } },
                b: Chromaticity { x: Fixed { v: 155_000_000 }, y: Fixed { v: 70_000_000 } },
                wp: Chromaticity { x: Fixed { v: 312_700_000 }, y: Fixed { v: 329_000_000 } },
            },
            NamedPrimaries::GenericFilm => Primaries {
                r: Chromaticity { x: Fixed { v: 681_000_000 }, y: Fixed { v: 319_000_000 } },
                g: Chromaticity { x: Fixed { v: 243_000_000 }, y: Fixed { v: 692_000_000 } },
                b: Chromaticity { x: Fixed { v: 145_000_000 }, y: Fixed { v: 49_000_000 } },
                wp: Chromaticity { x: Fixed { v: 310_000_000 }, y: Fixed { v: 316_000_000 } },
            },
            NamedPrimaries::Bt2020 => Primaries {
                r: Chromaticity { x: Fixed { v: 708_000_000 }, y: Fixed { v: 292_000_000 } },
                g: Chromaticity { x: Fixed { v: 170_000_000 }, y: Fixed { v: 797_000_000 } },
                b: Chromaticity { x: Fixed { v: 131_000_000 }, y: Fixed { v: 46_000_000 } },
                wp: Chromaticity { x: Fixed { v: 312_700_000 }, y: Fixed { v: 329_000_000 } },
            },
            NamedPrimaries::Cie1931Xyz => Primaries {
                r: Chromaticity { x: Fixed { v: 1_000_000_000 }, y: Fixed { v: 0 } },
                g: Chromaticity { x: Fixed { v: 0 }, y: Fixed { v: 1_000_000_000 } },
                b: Chromaticity { x: Fixed { v: 0 }, y: Fixed { v: 0 } },
                wp: Chromaticity { x: Fixed { v: 333_333_333 }, y: Fixed { v: 333_333_333 } },
            },
            NamedPrimaries::DciP3 => Primaries {
                r: Chromaticity { x: Fixed { v: 680_000_000 }, y: Fixed { v: 320_000_000 } },
                g: Chromaticity { x: Fixed { v: 265_000_000 }, y: Fixed { v: 690_000_000 } },
                b: Chromaticity { x: Fixed { v: 150_000_000 }, y: Fixed { v: 60_000_000 } },
                wp: Chromaticity { x: Fixed { v: 314_000_000 }, y: Fixed { v: 351_000_000 } },
            },
            NamedPrimaries::DisplayP3 => Primaries {
                r: Chromaticity { x: Fixed { v: 680_000_000 }, y: Fixed { v: 320_000_000 } },
                g: Chromaticity { x: Fixed { v: 265_000_000 }, y: Fixed { v: 690_000_000 } },
                b: Chromaticity { x: Fixed { v: 150_000_000 }, y: Fixed { v: 60_000_000 } },
                wp: Chromaticity { x: Fixed { v: 312_700_000 }, y: Fixed { v: 329_000_000 } },
            },
            NamedPrimaries::AdobeRgb => Primaries {
                r: Chromaticity { x: Fixed { v: 640_000_000 }, y: Fixed { v: 330_000_000 } },
                g: Chromaticity { x: Fixed { v: 210_000_000 }, y: Fixed { v: 710_000_000 } },
                b: Chromaticity { x: Fixed { v: 150_000_000 }, y: Fixed { v: 60_000_000 } },
                wp: Chromaticity { x: Fixed { v: 312_700_000 }, y: Fixed { v: 329_000_000 } },
            },
        }
    }

    /// The protocol name of this preset.
    pub fn wayland(self) -> (r: WpColorManagerV1Primaries)
        ensures
            r == match self {
                NamedPrimaries::Srgb => WpColorManagerV1Primaries::Srgb,
                NamedPrimaries::PalM => WpColorManagerV1Primaries::PalM,
                NamedPrimaries::Pal => WpColorManagerV1Primaries::Pal,
                NamedPrimaries::Ntsc => WpColorManagerV1Primaries::Ntsc,
                NamedPrimaries::GenericFilm => WpColorManagerV1Primaries::GenericFilm,
                NamedPrimaries::Bt2020 => WpColorManagerV1Primaries::Bt2020,
                NamedPrimaries::Cie1931Xyz => WpColorManagerV1Primaries::Cie1931Xyz,
                NamedPrimaries::DciP3 => WpColorManagerV1Primaries::DciP3,
                NamedPrimaries::DisplayP3 => WpColorManagerV1Primaries::DisplayP3,
                NamedPrimaries::AdobeRgb => WpColorManagerV1Primaries::AdobeRgb,
            },
    {
        match self {
            NamedPrimaries::Srgb => WpColorManagerV1Primaries::Srgb,
            NamedPrimaries::PalM => WpColorManagerV1Primaries::PalM,
            NamedPrimaries::Pal => WpColorManagerV1Primaries::Pal,
            NamedPrimaries::Ntsc => WpColorManagerV1Primaries::Ntsc,
            NamedPrimaries::GenericFilm => WpColorManagerV1Primaries::GenericFilm,
            NamedPrimaries::Bt2020 => WpColorManagerV1Primaries::Bt2020,
            NamedPrimaries::Cie1931Xyz => WpColorManagerV1Primaries::Cie1931Xyz,
            NamedPrimaries::DciP3 => WpColorManagerV1Primaries::DciP3,
            NamedPrimaries::DisplayP3 => WpColorManagerV1Primaries::DisplayP3,
            NamedPrimaries::AdobeRgb => WpColorManagerV1Primaries::AdobeRgb,
        }
    }
}

/// The supported named transfer functions.
#[derive(Clone, Copy, Debug, PartialEq, Eq, Structural, Hash)]
pub enum NamedTransferFunction {
    Srgb,
    Linear,
    St2084Pq,
    Bt1886,
    Gamma22,
    Gamma28,
    St240,
    ExtSrgb,
    Log100,
    Log316,
    St428,
}

impl NamedTransferFunction {
    /// The protocol name of this transfer function; the linear curve maps
    /// to the protocol's extended linear name.
    pub fn wayland(self) -> (r: WpColorManagerV1TransferFunction)
        ensures
            r == match self {
                NamedTransferFunction::Srgb => WpColorManagerV1TransferFunction::Srgb,
                NamedTransferFunction::Linear => WpColorManagerV1TransferFunction::ExtLinear,
                NamedTransferFunction::St2084Pq => WpColorManagerV1TransferFunction::St2084Pq,
                NamedTransferFunction::Bt1886 => WpColorManagerV1TransferFunction::Bt1886,
                NamedTransferFunction::Gamma22 => WpColorManagerV1TransferFunction::Gamma22,
                NamedTransferFunction::Gamma28 => WpColorManagerV1TransferFunction::Gamma28,
                NamedTransferFunction::St240 => WpColorManagerV1TransferFunction::St240,
                NamedTransferFunction::ExtSrgb => WpColorManagerV1TransferFunction::ExtSrgb,
                NamedTransferFunction::Log100 => WpColorManagerV1TransferFunction::Log100,
                NamedTransferFunction::Log316 => WpColorManagerV1TransferFunction::Log316,
                NamedTransferFunction::St428 => WpColorManagerV1TransferFunction::St428,
            },
    {
        match self {
            NamedTransferFunction::Srgb => WpColorManagerV1TransferFunction::Srgb,
            NamedTransferFunction::Linear => WpColorManagerV1TransferFunction::ExtLinear,
            NamedTransferFunction::St2084Pq => WpColorManagerV1TransferFunction::St2084Pq,
            NamedTransferFunction::Bt1886 => WpColorManagerV1TransferFunction::Bt1886,
            NamedTransferFunction::Gamma22 => WpColorManagerV1TransferFunction::Gamma22,
            NamedTransferFunction::Gamma28 => WpColorManagerV1TransferFunction::Gamma28,
            NamedTransferFunction::St240 => WpColorManagerV1TransferFunction::St240,
            NamedTransferFunction::ExtSrgb => WpColorManagerV1TransferFunction::ExtSrgb,
            NamedTransferFunction::Log100 => WpColorManagerV1TransferFunction::Log100,
            NamedTransferFunction::Log316 => WpColorManagerV1TransferFunction::Log316,
            NamedTransferFunction::St428 => WpColorManagerV1TransferFunction::St428,
        }
    }
}

/// The CIE X tristimulus coordinate of a white point with Y normalized to
/// one: `x / y`.
pub open spec fn chroma_big_x(w: Chromaticity) -> int {
    tdiv(w.x@ * SCALE as int, w.y@)
}

/// The CIE Z tristimulus coordinate of a white point with Y normalized to
/// one: `(1 - x - y) / y`.
pub open spec fn chroma_big_z(w: Chromaticity) -> int {
    tdiv((SCALE as int - w.x@ - w.y@) * SCALE as int, w.y@)
}

/// First factor of the white-balance gain: the ratio of the luminance
/// ranges.
pub open spec fn wb_a1(from: Luminance, to: Luminance) -> int {
    tdiv((from.max@ - from.min@) * SCALE as int, to.max@ - to.min@)
}

/// The range ratio scaled by the target white's position above the source
/// minimum.
pub open spec fn wb_a2(from: Luminance, to: Luminance) -> int {
    tdiv(wb_a1(from, to) * (to.white@ - from.min@), SCALE as int)
}

/// The white-balance gain before the offset is subtracted.
pub open spec fn wb_a(from: Luminance, to: Luminance) -> int {
    tdiv(wb_a2(from, to) * SCALE as int, from.white@ - from.min@)
}

/// The white-balance offset, clamped to be non-negative.
pub open spec fn wb_d(from: Luminance, to: Luminance) -> int {
    let d0 = tdiv((from.min@ - to.min@) * SCALE as int, to.max@ - to.min@);
    if d0 >= 0 {
        d0
    } else {
        0
    }
}

/// The white-balance scale factor.
pub open spec fn wb_s(from: Luminance, to: Luminance) -> int {
    wb_a(from, to) - wb_d(from, to)
}

/// Value of the white-balance matrix: a uniform scale plus a translation
/// toward the target white point.
pub open spec fn wb_val(from: Luminance, to: Luminance, w_to: Chromaticity) -> MatS {
    let s = wb_s(from, to);
    let d = wb_d(from, to);
    MatS {
        e00: s,
        e01: 0,
        e02: 0,
        e03: tdiv(d * chroma_big_x(w_to), SCALE as int),
        e10: 0,
        e11: s,
        e12: 0,
        e13: d,
        e20: 0,
        e21: 0,
        e22: s,
        e23: tdiv(d * chroma_big_z(w_to), SCALE as int),
    }
}

/// Whether the white-balance derivation succeeds: no division by a zero
/// range or white point, and every intermediate value representable.
pub open spec fn wb_ok(from: Luminance, to: Luminance, w_to: Chromaticity) -> bool {
    &&& fits(from.max@ - from.min@)
    &&& fits(to.max@ - to.min@)
    &&& to.max@ - to.min@ != 0
    &&& fits(wb_a1(from, to))
    &&& fits(to.white@ - from.min@)
    &&& fits(wb_a2(from, to))
    &&& fits(from.white@ - from.min@)
    &&& from.white@ - from.min@ != 0
    &&& fits(wb_a(from, to))
    &&& fits(from.min@ - to.min@)
    &&& fits(tdiv((from.min@ - to.min@) * SCALE as int, to.max@ - to.min@))
    &&& fits(wb_s(from, to))
    &&& w_to.y@ != 0
    &&& fits(chroma_big_x(w_to))
    &&& fits(SCALE as int - w_to.x@)
    &&& fits(SCALE as int - w_to.x@ - w_to.y@)
    &&& fits(chroma_big_z(w_to))
    &&& fits(tdiv(wb_d(from, to) * chroma_big_x(w_to), SCALE as int))
    &&& fits(tdiv(wb_d(from, to) * chroma_big_z(w_to), SCALE as int))
}

/// Derives the XYZ-to-XYZ transform rescaling the absolute luminance range
/// `from` to the range `to` while preserving the relative position of the
/// white level, expressed around the target white point `w_to`. Fails on
/// degenerate ranges (zero extent, white at the minimum, white point on the
/// horizon) and on values outside the representable range.
pub fn white_balance(from: &Luminance, to: &Luminance, w_to: Chromaticity) -> (r: Result<
    ColorMatrix<Xyz, Xyz>,
    CmmError,
>)
    ensures
        r matches Ok(m) ==> m@ == wb_val(*from, *to, w_to),
        r is Ok <==> wb_ok(*from, *to, w_to),
{
    let fr: Fixed = match from.max.fsub(from.min) {
        Some(x) => x,
        None => { return Err(CmmError) },
    };
    let tr: Fixed = match to.max.fsub(to.min) {
        Some(x) => x,
        None => { return Err(CmmError) },
    };
    let a1: Fixed = match fr.fdiv(tr) {
        Some(x) => x,
        None => { return Err(CmmError) },
    };
    let wm: Fixed = match to.white.fsub(from.min) {
        Some(x) => x,
        None => { return Err(CmmError) },
    };
    let a2: Fixed = match a1.fmul(wm) {
        Some(x) => x,
        None => { return Err(CmmError) },
    };
    let fwm: Fixed = match from.white.fsub(from.min) {
        Some(x) => x,
        None => { return Err(CmmError) },
    };
    if fwm.is_zero() {
        return Err(CmmError);
    }
    let a: Fixed = match a2.fdiv(fwm) {
        Some(x) => x,
        None => { return Err(CmmError) },
    };
    let dm: Fixed = match from.min.fsub(to.min) {
        Some(x) => x,
        None => { return Err(CmmError) },
    };
    let d0: Fixed = match dm.fdiv(tr) {
        Some(x) => x,
        None => { return Err(CmmError) },
    };
    let d: Fixed = d0.fmax(Fixed { v: 0 });
    let s: Fixed = match a.fsub(d) {
        Some(x) => x,
        None => { return Err(CmmError) },
    };
    let x_to: Fixed = match w_to.x.fdiv(w_to.y) {
        Some(x) => x,
        None => { return Err(CmmError) },
    };
    let one: Fixed = Fixed { v: SCALE };
    let t1: Fixed = match one.fsub(w_to.x) {
        Some(x) => x,
        None => { return Err(CmmError) },
    };
    let zn: Fixed = match t1.fsub(w_to.y) {
        Some(x) => x,
        None => { return Err(CmmError) },
    };
    let z_to: Fixed = match zn.fdiv(w_to.y) {
        Some(x) => x,
        None => { return Err(CmmError) },
    };
    let dx: Fixed = match d.fmul(x_to) {
        Some(x) => x,
        None => { return Err(CmmError) },
    };
    let dz: Fixed = match d.fmul(z_to) {
        Some(x) => x,
        None => { return Err(CmmError) },
    };
    let zero: Fixed = Fixed { v: 0 };
    Ok(ColorMatrix::new(s, zero, zero, dx, zero, s, zero, d, zero, zero, s, dz))
}

/// The L cone response of a white point in the Bradford basis.
pub open spec fn ba_resp_r(w: Chromaticity) -> int {
    dot3_spec(
        ms_bfd().e00,
        ms_bfd().e01,
        ms_bfd().e02,
        chroma_big_x(w),
        SCALE as int,
        chroma_big_z(w),
    )
}

/// The M cone response of a white point in the Bradford basis.
pub open spec fn ba_resp_g(w: Chromaticity) -> int {
    dot3_spec(
        ms_bfd().e10,
        ms_bfd().e11,
        ms_bfd().e12,
        chroma_big_x(w),
        SCALE as int,
        chroma_big_z(w),
    )
}

/// The S cone response of a white point in the Bradford basis.
pub open spec fn ba_resp_b(w: Chromaticity) -> int {
    dot3_spec(
        ms_bfd().e20,
        ms_bfd().e21,
        ms_bfd().e22,
        chroma_big_x(w),
        SCALE as int,
        chroma_big_z(w),
    )
}

/// Whether the cone responses of a white point are representable.
pub open spec fn ba_white_ok(w: Chromaticity) -> bool {
    &&& w.y@ != 0
    &&& fits(chroma_big_x(w))
    &&& fits(SCALE as int - w.x@)
    &&& fits(SCALE as int - w.x@ - w.y@)
    &&& fits(chroma_big_z(w))
    &&& dot3_fits(
        ms_bfd().e00,
        ms_bfd().e01,
        ms_bfd().e02,
        chroma_big_x(w),
        SCALE as int,
        chroma_big_z(w),
    )
    &&& dot3_fits(
        ms_bfd().e10,
        ms_bfd().e11,
        ms_bfd().e12,
        chroma_big_x(w),
        SCALE as int,
        chroma_big_z(w),
    )
    &&& dot3_fits(
        ms_bfd().e20,
        ms_bfd().e21,
        ms_bfd().e22,
        chroma_big_x(w),
        SCALE as int,
        chroma_big_z(w),
    )
}

/// Value of the diagonal gain matrix of the Bradford adaptation: the
/// ratios of the cone responses of the two white points.
pub open spec fn ba_adj(w_from: Chromaticity, w_to: Chromaticity) -> MatS {
    MatS {
        e00: tdiv(ba_resp_r(w_to) * SCALE as int, ba_resp_r(w_from)),
        e01: 0,
        e02: 0,
        e03: 0,
        e10: 0,
        e11: tdiv(ba_resp_g(w_to) * SCALE as int, ba_resp_g(w_from)),
        e12: 0,
        e13: 0,
        e20: 0,
        e21: 0,
        e22: tdiv(ba_resp_b(w_to) * SCALE as int, ba_resp_b(w_from)),
        e23: 0,
    }
}

/// Value of the Bradford adaptation: the gain matrix conjugated back
/// through the Bradford basis.
pub open spec fn ba_val(w_from: Chromaticity, w_to: Chromaticity) -> MatS {
    ms_mul(ms_mul(ms_bfd_inv(), ba_adj(w_from, w_to)), ms_bfd())
}

/// Whether the Bradford adaptation derivation succeeds.
pub open spec fn ba_ok(w_from: Chromaticity, w_to: Chromaticity) -> bool {
    &&& ba_white_ok(w_from)
    &&& ba_white_ok(w_to)
    &&& ba_resp_r(w_from) != 0
    &&& fits(tdiv(ba_resp_r(w_to) * SCALE as int, ba_resp_r(w_from)))
    &&& ba_resp_g(w_from) != 0
    &&& fits(tdiv(ba_resp_g(w_to) * SCALE as int, ba_resp_g(w_from)))
    &&& ba_resp_b(w_from) != 0
    &&& fits(tdiv(ba_resp_b(w_to) * SCALE as int, ba_resp_b(w_from)))
    &&& ms_mul_fits(ms_bfd_inv(), ba_adj(w_from, w_to))
    &&& ms_mul_fits(ms_mul(ms_bfd_inv(), ba_adj(w_from, w_to)), ms_bfd())
}

/// The cone responses of a white point in the Bradford basis.
fn ba_white(w: Chromaticity) -> (r: Result<(Fixed, Fixed, Fixed), CmmError>)
    ensures
        r matches Ok(t) ==> t.0@ == ba_resp_r(w) && t.1@ == ba_resp_g(w) && t.2@ == ba_resp_b(w),
        r is Ok <==> ba_white_ok(w),
{
    let bx: Fixed = match w.x.fdiv(w.y) {
        Some(x) => x,
        None => { return Err(CmmError) },
    };
    let one: Fixed = Fixed { v: SCALE };
    let t1: Fixed = match one.fsub(w.x) {
        Some(x) => x,
        None => { return Err(CmmError) },
    };
    let zn: Fixed = match t1.fsub(w.y) {
        Some(x) => x,
        None => { return Err(CmmError) },
    };
    let bz: Fixed = match zn.fdiv(w.y) {
        Some(x) => x,
        None => { return Err(CmmError) },
    };
    let bfd: ColorMatrix<Bradford, Xyz> = ColorMatrix::bfd();
    let rr: Fixed = match dot3(bfd.e00, bfd.e01, bfd.e02, bx, one, bz) {
        Some(x) => x,
        None => { return Err(CmmError) },
    };
    let rg: Fixed = match dot3(bfd.e10, bfd.e11, bfd.e12, bx, one, bz) {
        Some(x) => x,
        None => { return Err(CmmError) },
    };
    let rb: Fixed = match dot3(bfd.e20, bfd.e21, bfd.e22, bx, one, bz) {
        Some(x) => x,
        None => { return Err(CmmError) },
    };
    Ok((rr, rg, rb))
}

/// Derives the XYZ-to-XYZ chromatic adaptation from one white point to
/// another: both are taken into the Bradford cone basis, a diagonal gain of
/// response ratios is formed, and the gain is conjugated back through the
/// fixed inverse basis. Fails on degenerate white points and on values
/// outside the representable range.
pub fn bradford_adjustment(w_from: Chromaticity, w_to: Chromaticity) -> (r: Result<
    ColorMatrix<Xyz, Xyz>,
    CmmError,
>)
    ensures
        r matches Ok(m) ==> m@ == ba_val(w_from, w_to),
        r is Ok <==> ba_ok(w_from, w_to),
{
    let rf: (Fixed, Fixed, Fixed) = match ba_white(w_from) {
        Ok(t) => t,
        Err(e) => { return Err(e) },
    };
    let rt: (Fixed, Fixed, Fixed) = match ba_white(w_to) {
        Ok(t) => t,
        Err(e) => { return Err(e) },
    };
    let gr: Fixed = match rt.0.fdiv(rf.0) {
        Some(x) => x,
        None => { return Err(CmmError) },
    };
    let gg: Fixed = match rt.1.fdiv(rf.1) {
        Some(x) => x,
        None => { return Err(CmmError) },
    };
    let gb: Fixed = match rt.2.fdiv(rf.2) {
        Some(x) => x,
        None => { return Err(CmmError) },
    };
    let zero: Fixed = Fixed { v: 0 };
    let adj: ColorMatrix<Bradford, Bradford> = ColorMatrix::new(
        gr,
        zero,
        zero,
        zero,
        zero,
        gg,
        zero,
        zero,
        zero,
        zero,
        gb,
        zero,
    );
    let m1: ColorMatrix<Xyz, Bradford> = match ColorMatrix::bfd_inv().mul(&adj) {
        Some(m) => m,
        None => { return Err(CmmError) },
    };
    let m2: ColorMatrix<Xyz, Xyz> = match m1.mul(&ColorMatrix::bfd()) {
        Some(m) => m,
        None => { return Err(CmmError) },
    };
    Ok(m2)
}

/// The z chromaticity coordinate of the red primary.
pub open spec fn pm_zr(p: Primaries) -> int {
    SCALE as int - p.r.x@ - p.r.y@
}

/// The z chromaticity coordinate of the green primary.
pub open spec fn pm_zg(p: Primaries) -> int {
    SCALE as int - p.g.x@ - p.g.y@
}

/// The z chromaticity coordinate of the blue primary.
pub open spec fn pm_zb(p: Primaries) -> int {
    SCALE as int - p.b.x@ - p.b.y@
}

/// Cofactor terms of the primary matrix: the cross products of the green
/// and blue primary vectors.
pub open spec fn pm_srx(p: Primaries) -> int {
    p.g.y@ * pm_zb(p) - pm_zg(p) * p.b.y@
}

/// See `pm_srx`.
pub open spec fn pm_sry(p: Primaries) -> int {
    pm_zg(p) * p.b.x@ - p.g.x@ * pm_zb(p)
}

/// See `pm_srx`.
pub open spec fn pm_srz(p: Primaries) -> int {
    p.g.x@ * p.b.y@ - p.g.y@ * p.b.x@
}

/// Cofactor terms of the red and blue primary vectors.
pub open spec fn pm_sgx(p: Primaries) -> int {
    pm_zr(p) * p.b.y@ - p.r.y@ * pm_zb(p)
}

/// See `pm_sgx`.
pub open spec fn pm_sgz(p: Primaries) -> int {
    p.r.y@ * p.b.x@ - p.r.x@ * p.b.y@
}

/// See `pm_sgx`.
pub open spec fn pm_sgy(p: Primaries) -> int {
    p.r.x@ * pm_zb(p) - pm_zr(p) * p.b.x@
}

/// Cofactor terms of the red and green primary vectors.
pub open spec fn pm_sbx(p: Primaries) -> int {
    p.r.y@ * pm_zg(p) - pm_zr(p) * p.g.y@
}

/// See `pm_sbx`.
pub open spec fn pm_sby(p: Primaries) -> int {
    pm_zr(p) * p.g.x@ - p.r.x@ * pm_zg(p)
}

/// See `pm_sbx`.
pub open spec fn pm_sbz(p: Primaries) -> int {
    p.r.x@ * p.g.y@ - p.r.y@ * p.g.x@
}

/// Determinant of the primary matrix (scaled by the square of the unit).
pub open spec fn pm_det(p: Primaries) -> int {
    pm_srz(p) + pm_sgz(p) + pm_sbz(p)
}

/// The unnormalized red channel scale: the red cofactor row applied to the
/// white point's tristimulus vector.
pub open spec fn pm_sr(p: Primaries) -> int {
    pm_srx(p) * chroma_big_x(p.wp) + pm_sry(p) * SCALE as int + pm_srz(p) * chroma_big_z(p.wp)
}

/// The unnormalized green channel scale.
pub open spec fn pm_sg(p: Primaries) -> int {
    pm_sgx(p) * chroma_big_x(p.wp) + pm_sgy(p) * SCALE as int + pm_sgz(p) * chroma_big_z(p.wp)
}

/// The unnormalized blue channel scale.
pub open spec fn pm_sb(p: Primaries) -> int {
    pm_sbx(p) * chroma_big_x(p.wp) + pm_sby(p) * SCALE as int + pm_sbz(p) * chroma_big_z(p.wp)
}

/// The red channel scale normalized by the determinant.
pub open spec fn pm_srp(p: Primaries) -> int {
    tdiv(pm_sr(p), pm_det(p))
}

/// The green channel scale normalized by the determinant.
pub open spec fn pm_sgp(p: Primaries) -> int {
    tdiv(pm_sg(p), pm_det(p))
}

/// The blue channel scale normalized by the determinant.
pub open spec fn pm_sbp(p: Primaries) -> int {
    tdiv(pm_sb(p), pm_det(p))
}

/// Value of the XYZ-from-local matrix: each primary's chromaticity vector
/// scaled by its normalized channel scale.
pub open spec fn pm_to_xyz_val(p: Primaries) -> MatS {
    MatS {
        e00: tdiv(pm_srp(p) * p.r.x@, SCALE as int),
        e01: tdiv(pm_sgp(p) * p.g.x@, SCALE as int),
        e02: tdiv(pm_sbp(p) * p.b.x@, SCALE as int),
        e03: 0,
        e10: tdiv(pm_srp(p) * p.r.y@, SCALE as int),
        e11: tdiv(pm_sgp(p) * p.g.y@, SCALE as int),
        e12: tdiv(pm_sbp(p) * p.b.y@, SCALE as int),
        e13: 0,
        e20: tdiv(pm_srp(p) * pm_zr(p), SCALE as int),
        e21: tdiv(pm_sgp(p) * pm_zg(p), SCALE as int),
        e22: tdiv(pm_sbp(p) * pm_zb(p), SCALE as int),
        e23: 0,
    }
}

/// Value of the local-from-XYZ matrix: the cofactor rows, each normalized
/// by its channel scale.
pub open spec fn pm_from_val(p: Primaries) -> MatS {
    let s2 = SCALE as int * SCALE as int;
    MatS {
        e00: tdiv(pm_srx(p) * s2, pm_sr(p)),
        e01: tdiv(pm_sry(p) * s2, pm_sr(p)),
        e02: tdiv(pm_srz(p) * s2, pm_sr(p)),
        e03: 0,
        e10: tdiv(pm_sgx(p) * s2, pm_sg(p)),
        e11: tdiv(pm_sgy(p) * s2, pm_sg(p)),
        e12: tdiv(pm_sgz(p) * s2, pm_sg(p)),
        e13: 0,
        e20: tdiv(pm_sbx(p) * s2, pm_sb(p)),
        e21: tdiv(pm_sby(p) * s2, pm_sb(p)),
        e22: tdiv(pm_sbz(p) * s2, pm_sb(p)),
        e23: 0,
    }
}

/// Whether the primary matrix derivation succeeds: the white point is off
/// the horizon, the primary triangle is not degenerate, no channel scale
/// vanishes, and every entry is representable.
pub open spec fn pm_ok(p: Primaries) -> bool {
    let s2 = SCALE as int * SCALE as int;
    &&& p.wp.y@ != 0
    &&& fits(chroma_big_x(p.wp))
    &&& fits(chroma_big_z(p.wp))
    &&& pm_det(p) != 0
    &&& pm_sr(p) != 0
    &&& pm_sg(p) != 0
    &&& pm_sb(p) != 0
    &&& fits(pm_srp(p))
    &&& fits(pm_sgp(p))
    &&& fits(pm_sbp(p))
    &&& fits(tdiv(pm_srp(p) * p.r.x@, SCALE as int))
    &&& fits(tdiv(pm_sgp(p) * p.g.x@, SCALE as int))
    &&& fits(tdiv(pm_sbp(p) * p.b.x@, SCALE as int))
    &&& fits(tdiv(pm_srp(p) * p.r.y@, SCALE as int))
    &&& fits(tdiv(pm_sgp(p) * p.g.y@, SCALE as int))
    &&& fits(tdiv(pm_sbp(p) * p.b.y@, SCALE as int))
    &&& fits(tdiv(pm_srp(p) * pm_zr(p), SCALE as int))
    &&& fits(tdiv(pm_sgp(p) * pm_zg(p), SCALE as int))
    &&& fits(tdiv(pm_sbp(p) * pm_zb(p), SCALE as int))
    &&& fits(tdiv(pm_srx(p) * s2, pm_sr(p)))
    &&& fits(tdiv(pm_sry(p) * s2, pm_sr(p)))
    &&& fits(tdiv(pm_srz(p) * s2, pm_sr(p)))
    &&& fits(tdiv(pm_sgx(p) * s2, pm_sg(p)))
    &&& fits(tdiv(pm_sgy(p) * s2, pm_sg(p)))
    &&& fits(tdiv(pm_sgz(p) * s2, pm_sg(p)))
    &&& fits(tdiv(pm_sbx(p) * s2, pm_sb(p)))
    &&& fits(tdiv(pm_sby(p) * s2, pm_sb(p)))
    &&& fits(tdiv(pm_sbz(p) * s2, pm_sb(p)))
}

impl Primaries {
    /// Derives the pair of matrices mapping normalized linear local RGB to
    /// CIE XYZ and back, by the standard determinant-based primary-matrix
    /// construction around the white point. Fails on degenerate (coplanar)
    /// primaries, a white point on the horizon line, and values outside the
    /// representable range.
    pub fn matrices(&self) -> (r: Result<(ColorMatrix<Xyz, Local>, ColorMatrix<Local, Xyz>), CmmError>)
        requires
            self.in_range(),
        ensures
            r matches Ok(t) ==> t.0@ == pm_to_xyz_val(*self) && t.1@ == pm_from_val(*self),
            r is Ok <==> pm_ok(*self),
    {
        let xw: Fixed = match self.wp.x.fdiv(self.wp.y) {
            Some(x) => x,
            None => { return Err(CmmError) },
        };
        let znv: i64 = SCALE - self.wp.x.v - self.wp.y.v;
        let zw: Fixed = match (Fixed { v: znv }).fdiv(self.wp.y) {
            Some(x) => x,
            None => { return Err(CmmError) },
        };
        let s128: i128 = SCALE as i128;
        let xr: i128 = self.r.x.v as i128;
        let yr: i128 = self.r.y.v as i128;
        let xg: i128 = self.g.x.v as i128;
        let yg: i128 = self.g.y.v as i128;
        let xb: i128 = self.b.x.v as i128;
        let yb: i128 = self.b.y.v as i128;
        let zr: i128 = s128 - xr - yr;
        let zg: i128 = s128 - xg - yg;
        let zb: i128 = s128 - xb - yb;
        proof {
            let s: int = SCALE as int;
            crate::fixed::lemma_prod_le(yg as int, zb as int, s, s);
            crate::fixed::lemma_prod_le(zg as int, yb as int, s, s);
            crate::fixed::lemma_prod_le(zg as int, xb as int, s, s);
            crate::fixed::lemma_prod_le(xg as int, zb as int, s, s);
            crate::fixed::lemma_prod_le(xg as int, yb as int, s, s);
            crate::fixed::lemma_prod_le(yg as int, xb as int, s, s);
            crate::fixed::lemma_prod_le(zr as int, yb as int, s, s);
            crate::fixed::lemma_prod_le(yr as int, zb as int, s, s);
            crate::fixed::lemma_prod_le(yr as int, xb as int, s, s);
            crate::fixed::lemma_prod_le(xr as int, yb as int, s, s);
            crate::fixed::lemma_prod_le(xr as int, zb as int, s, s);
            crate::fixed::lemma_prod_le(zr as int, xb as int, s, s);
            crate::fixed::lemma_prod_le(yr as int, zg as int, s, s);
            crate::fixed::lemma_prod_le(zr as int, yg as int, s, s);
            crate::fixed::lemma_prod_le(zr as int, xg as int, s, s);
            crate::fixed::lemma_prod_le(xr as int, zg as int, s, s);
            crate::fixed::lemma_prod_le(xr as int, yg as int, s, s);
            crate::fixed::lemma_prod_le(yr as int, xg as int, s, s);
        }
        let srx: i128 = yg * zb - zg * yb;
        let sry: i128 = zg * xb - xg * zb;
        let srz: i128 = xg * yb - yg * xb;
        let sgx: i128 = zr * yb - yr * zb;
        let sgz: i128 = yr * xb - xr * yb;
        let sgy: i128 = xr * zb - zr * xb;
        let sbx: i128 = yr * zg - zr * yg;
        let sby: i128 = zr * xg - xr * zg;
        let sbz: i128 = xr * yg - yr * xg;
        let det: i128 = srz + sgz + sbz;
        if det == 0 {
            return Err(CmmError);
        }
        let xwv: i128 = xw.v as i128;
        let zwv: i128 = zw.v as i128;
        proof {
            let c: int = 2_000_000_000_000_000_000;
            let m: int = 0x8000000000000000;
            crate::fixed::lemma_prod_le(srx as int, xwv as int, c, m);
            crate::fixed::lemma_prod_le(sry as int, SCALE as int, c, SCALE as int);
            crate::fixed::lemma_prod_le(srz as int, zwv as int, c, m);
            crate::fixed::lemma_prod_le(sgx as int, xwv as int, c, m);
            crate::fixed::lemma_prod_le(sgy as int, SCALE as int, c, SCALE as int);
            crate::fixed::lemma_prod_le(sgz as int, zwv as int, c, m);
            crate::fixed::lemma_prod_le(sbx as int, xwv as int, c, m);
            crate::fixed::lemma_prod_le(sby as int, SCALE as int, c, SCALE as int);
            crate::fixed::lemma_prod_le(sbz as int, zwv as int, c, m);
        }
        let sr: i128 = srx * xwv + sry * s128 + srz * zwv;
        let sg: i128 = sgx * xwv + sgy * s128 + sgz * zwv;
        let sb: i128 = sbx * xwv + sby * s128 + sbz * zwv;
        if sr == 0 || sg == 0 || sb == 0 {
            return Err(CmmError);
        }
        let srp128: i128 = crate::fixed::tdiv_i128(sr, det);
        if srp128 > (i64::MAX as i128) || srp128 < -(i64::MAX as i128) {
            return Err(CmmError);
        }
        let sgp128: i128 = crate::fixed::tdiv_i128(sg, det);
        if sgp128 > (i64::MAX as i128) || sgp128 < -(i64::MAX as i128) {
            return Err(CmmError);
        }
        let sbp128: i128 = crate::fixed::tdiv_i128(sb, det);
        if sbp128 > (i64::MAX as i128) || sbp128 < -(i64::MAX as i128) {
            return Err(CmmError);
        }
        let srp: Fixed = Fixed { v: srp128 as i64 };
        let sgp: Fixed = Fixed { v: sgp128 as i64 };
        let sbp: Fixed = Fixed { v: sbp128 as i64 };
        let zrf: Fixed = Fixed { v: zr as i64 };
        let zgf: Fixed = Fixed { v: zg as i64 };
        let zbf: Fixed = Fixed { v: zb as i64 };
        let t00: Fixed = match srp.fmul(self.r.x) {
            Some(x) => x,
            None => { return Err(CmmError) },
        };
        let t01: Fixed = match sgp.fmul(self.g.x) {
            Some(x) => x,
            None => { return Err(CmmError) },
        };
        let t02: Fixed = match sbp.fmul(self.b.x) {
            Some(x) => x,
            None => { return Err(CmmError) },
        };
        let t10: Fixed = match srp.fmul(self.r.y) {
            Some(x) => x,
            None => { return Err(CmmError) },
        };
        let t11: Fixed = match sgp.fmul(self.g.y) {
            Some(x) => x,
            None => { return Err(CmmError) },
        };
        let t12: Fixed = match sbp.fmul(self.b.y) {
            Some(x) => x,
            None => { return Err(CmmError) },
        };
        let t20: Fixed = match srp.fmul(zrf) {
            Some(x) => x,
            None => { return Err(CmmError) },
        };
        let t21: Fixed = match sgp.fmul(zgf) {
            Some(x) => x,
            None => { return Err(CmmError) },
        };
        let t22: Fixed = match sbp.fmul(zbf) {
            Some(x) => x,
            None => { return Err(CmmError) },
        };
        let s2: i128 = s128 * s128;
        proof {
            let c: int = 2_000_000_000_000_000_000;
            let q: int = SCALE as int * SCALE as int;
            crate::fixed::lemma_prod_le(srx as int, s2 as int, c, q);
            crate::fixed::lemma_prod_le(sry as int, s2 as int, c, q);
            crate::fixed::lemma_prod_le(srz as int, s2 as int, c, q);
            crate::fixed::lemma_prod_le(sgx as int, s2 as int, c, q);
            crate::fixed::lemma_prod_le(sgy as int, s2 as int, c, q);
            crate::fixed::lemma_prod_le(sgz as int, s2 as int, c, q);
            crate::fixed::lemma_prod_le(sbx as int, s2 as int, c, q);
            crate::fixed::lemma_prod_le(sby as int, s2 as int, c, q);
            crate::fixed::lemma_prod_le(sbz as int, s2 as int, c, q);
        }
        let f00v: i128 = crate::fixed::tdiv_i128(srx * s2, sr);
        if f00v > (i64::MAX as i128) || f00v < -(i64::MAX as i128) {
            return Err(CmmError);
        }
        let f01v: i128 = crate::fixed::tdiv_i128(sry * s2, sr);
        if f01v > (i64::MAX as i128) || f01v < -(i64::MAX as i128) {
            return Err(CmmError);
        }
        let f02v: i128 = crate::fixed::tdiv_i128(srz * s2, sr);
        if f02v > (i64::MAX as i128) || f02v < -(i64::MAX as i128) {
            return Err(CmmError);
        }
        let f10v: i128 = crate::fixed::tdiv_i128(sgx * s2, sg);
        if f10v > (i64::MAX as i128) || f10v < -(i64::MAX as i128) {
            return Err(CmmError);
        }
        let f11v: i128 = crate::fixed::tdiv_i128(sgy * s2, sg);
        if f11v > (i64::MAX as i128) || f11v < -(i64::MAX as i128) {
            return Err(CmmError);
        }
        let f12v: i128 = crate::fixed::tdiv_i128(sgz * s2, sg);
        if f12v > (i64::MAX as i128) || f12v < -(i64::MAX as i128) {
            return Err(CmmError);
        }
        let f20v: i128 = crate::fixed::tdiv_i128(sbx * s2, sb);
        if f20v > (i64::MAX as i128) || f20v < -(i64::MAX as i128) {
            return Err(CmmError);
        }
        let f21v: i128 = crate::fixed::tdiv_i128(sby * s2, sb);
        if f21v > (i64::MAX as i128) || f21v < -(i64::MAX as i128) {
            return Err(CmmError);
        }
        let f22v: i128 = crate::fixed::tdiv_i128(sbz * s2, sb);
        if f22v > (i64::MAX as i128) || f22v < -(i64::MAX as i128) {
            return Err(CmmError);
        }
        let zero: Fixed = Fixed { v: 0 };
        let to_xyz: ColorMatrix<Xyz, Local> = ColorMatrix::new(
            t00,
            t01,
            t02,
            zero,
            t10,
            t11,
            t12,
            zero,
            t20,
            t21,
            t22,
            zero,
        );
        let from_xyz: ColorMatrix<Local, Xyz> = ColorMatrix::new(
            Fixed { v: f00v as i64 },
            Fixed { v: f01v as i64 },
            Fixed { v: f02v as i64 },
            zero,
            Fixed { v: f10v as i64 },
            Fixed { v: f11v as i64 },
            Fixed { v: f12v as i64 },
            zero,
            Fixed { v: f20v as i64 },
            Fixed { v: f21v as i64 },
            Fixed { v: f22v as i64 },
            zero,
        );
        Ok((to_xyz, from_xyz))
    }
}

/// The local-from-XYZ matrix after the optional white-balance stage.
pub open spec fn mfl_m1(p: Primaries, lum: Luminance) -> MatS {
    if lum == luminance_srgb() {
        pm_from_val(p)
    } else {
        ms_mul(pm_from_val(p), wb_val(luminance_srgb(), lum, p.wp))
    }
}

/// The matrix of `mfl_m1` after the optional Bradford adaptation stage.
pub open spec fn mfl_m2(p: Primaries, lum: Luminance) -> MatS {
    let srgb_wp = named_primaries_spec(NamedPrimaries::Srgb).wp;
    if p.wp == srgb_wp {
        mfl_m1(p, lum)
    } else {
        ms_mul(mfl_m1(p, lum), ba_val(srgb_wp, p.wp))
    }
}

/// Value of the local-RGB-from-LMS matrix of a color description.
pub open spec fn mfl_val(p: Primaries, lum: Luminance) -> MatS {
    ms_mul(mfl_m2(p, lum), ms_xyz_from_lms())
}

/// Whether the local-RGB-from-LMS derivation succeeds: the primary matrix
/// derivation and each stage actually applied succeed, and each composition
/// is representable.
pub open spec fn mfl_ok(p: Primaries, lum: Luminance) -> bool {
    let srgb_wp = named_primaries_spec(NamedPrimaries::Srgb).wp;
    &&& pm_ok(p)
    &&& lum != luminance_srgb() ==> wb_ok(luminance_srgb(), lum, p.wp) && ms_mul_fits(
        pm_from_val(p),
        wb_val(luminance_srgb(), lum, p.wp),
    )
    &&& p.wp != srgb_wp ==> ba_ok(srgb_wp, p.wp) && ms_mul_fits(
        mfl_m1(p, lum),
        ba_val(srgb_wp, p.wp),
    )
    &&& ms_mul_fits(mfl_m2(p, lum), ms_xyz_from_lms())
}

/// Derives the matrix mapping LMS cone responses to the local RGB of the
/// given primaries at the given luminance range: the fixed LMS-to-XYZ
/// basis, then, only where the luminance range or the white point differs
/// from the reference default, the white-balance and Bradford stages, then
/// the XYZ-to-local matrix of the primaries.
pub fn matrix_from_lms(primaries: Primaries, luminance: Luminance) -> (r: Result<
    ColorMatrix<Local, Lms>,
    CmmError,
>)
    requires
        primaries.in_range(),
    ensures
        r matches Ok(m) ==> m@ == mfl_val(primaries, luminance),
        r is Ok <==> mfl_ok(primaries, luminance),
{
    let t: (ColorMatrix<Xyz, Local>, ColorMatrix<Local, Xyz>) = match primaries.matrices() {
        Ok(t) => t,
        Err(e) => { return Err(e) },
    };
    let mut mat: ColorMatrix<Local, Xyz> = t.1;
    let srgb_lum: Luminance = Luminance::srgb();
    if luminance != srgb_lum {
        let wbm: ColorMatrix<Xyz, Xyz> = match white_balance(&srgb_lum, &luminance, primaries.wp) {
            Ok(m) => m,
            Err(e) => { return Err(e) },
        };
        mat = match mat.mul(&wbm) {
            Some(m) => m,
            None => { return Err(CmmError) },
        };
    }
    let srgb_wp: Chromaticity = NamedPrimaries::Srgb.primaries().wp;
    if primaries.wp != srgb_wp {
        let ba: ColorMatrix<Xyz, Xyz> = match bradford_adjustment(srgb_wp, primaries.wp) {
            Ok(m) => m,
            Err(e) => { return Err(e) },
        };
        mat = match mat.mul(&ba) {
            Some(m) => m,
            None => { return Err(CmmError) },
        };
    }
    match mat.mul(&ColorMatrix::xyz_from_lms()) {
        Some(m) => Ok(m),
        None => Err(CmmError),
    }
}

/// A transfer function: a named standard curve, or a generic power curve.
#[derive(Clone, Copy, Debug, PartialEq, Eq, Structural, Hash)]
pub enum TransferFunction {
    Named(NamedTransferFunction),
    Pow,
}

/// A transfer function together with the exponent of the power curve.
#[derive(Clone, Copy, Debug, PartialEq, Eq, Structural, Hash)]
pub struct TransferFunctionWithArgs {
    pub tf: TransferFunction,
    pub pow: Fixed,
}

} // verus!
