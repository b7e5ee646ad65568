//! Plain-value model of the compositor color-management protocol objects
//! that the core exchanges with its (out-of-scope) protocol collaborator:
//! the named primaries, transfer functions and features of the protocol
//! enumerations, and the conversions between protocol wire integers and the
//! library's fixed-point data.

use vstd::prelude::*;
use crate::fixed::Fixed;
use crate::cmm::{Chromaticity, Luminance, NamedPrimaries, NamedTransferFunction, Primaries};

verus! {

/// A named primaries set of the color-management protocol.
#[derive(Clone, Copy, Debug, PartialEq, Eq, Structural, Hash)]
pub enum WpColorManagerV1Primaries {
    Srgb,
    PalM,
    Pal,
    Ntsc,
    GenericFilm,
    Bt2020,
    Cie1931Xyz,
    DciP3,
    DisplayP3,
    AdobeRgb,
}

impl WpColorManagerV1Primaries {
    /// The wire value of this primaries name in the protocol enumeration.
    pub fn code(self) -> (r: u32)
        ensures
            r == match self {
                WpColorManagerV1Primaries::Srgb => 1u32,
                WpColorManagerV1Primaries::PalM => 2u32,
                WpColorManagerV1Primaries::Pal => 3u32,
                WpColorManagerV1Primaries::Ntsc => 4u32,
                WpColorManagerV1Primaries::GenericFilm => 5u32,
                WpColorManagerV1Primaries::Bt2020 => 6u32,
                WpColorManagerV1Primaries::Cie1931Xyz => 7u32,
                WpColorManagerV1Primaries::DciP3 => 8u32,
                WpColorManagerV1Primaries::DisplayP3 => 9u32,
                WpColorManagerV1Primaries::AdobeRgb => 10u32,
            },
    {
        match self {
            WpColorManagerV1Primaries::Srgb => 1,
            WpColorManagerV1Primaries::PalM => 2,
            WpColorManagerV1Primaries::Pal => 3,
            WpColorManagerV1Primaries::Ntsc => 4,
            WpColorManagerV1Primaries::GenericFilm => 5,
            WpColorManagerV1Primaries::Bt2020 => 6,
            WpColorManagerV1Primaries::Cie1931Xyz => 7,
            WpColorManagerV1Primaries::DciP3 => 8,
            WpColorManagerV1Primaries::DisplayP3 => 9,
            WpColorManagerV1Primaries::AdobeRgb => 10,
        }
    }
}

/// A named transfer function of the color-management protocol.
#[derive(Clone, Copy, Debug, PartialEq, Eq, Structural, Hash)]
pub enum WpColorManagerV1TransferFunction {
    Bt1886,
    Gamma22,
    Gamma28,
    St240,
    ExtLinear,
    Log100,
    Log316,
    Xvycc,
    Srgb,
    ExtSrgb,
    St2084Pq,
    St428,
    Hlg,
}

impl WpColorManagerV1TransferFunction {
    /// The wire value of this transfer function in the protocol enumeration.
    pub fn code(self) -> (r: u32)
        ensures
            r == match self {
                WpColorManagerV1TransferFunction::Bt1886 => 1u32,
                WpColorManagerV1TransferFunction::Gamma22 => 2u32,
                WpColorManagerV1TransferFunction::Gamma28 => 3u32,
                WpColorManagerV1TransferFunction::St240 => 4u32,
                WpColorManagerV1TransferFunction::ExtLinear => 5u32,
                WpColorManagerV1TransferFunction::Log100 => 6u32,
                WpColorManagerV1TransferFunction::Log316 => 7u32,
                WpColorManagerV1TransferFunction::Xvycc => 8u32,
                WpColorManagerV1TransferFunction::Srgb => 9u32,
                WpColorManagerV1TransferFunction::ExtSrgb => 10u32,
                WpColorManagerV1TransferFunction::St2084Pq => 11u32,
                WpColorManagerV1TransferFunction::St428 => 12u32,
                WpColorManagerV1TransferFunction::Hlg => 13u32,
            },
    {
        match self {
            WpColorManagerV1TransferFunction::Bt1886 => 1,
            WpColorManagerV1TransferFunction::Gamma22 => 2,
            WpColorManagerV1TransferFunction::Gamma28 => 3,
            WpColorManagerV1TransferFunction::St240 => 4,
            WpColorManagerV1TransferFunction::ExtLinear => 5,
            WpColorManagerV1TransferFunction::Log100 => 6,
            WpColorManagerV1TransferFunction::Log316 => 7,
            WpColorManagerV1TransferFunction::Xvycc => 8,
            WpColorManagerV1TransferFunction::Srgb => 9,
            WpColorManagerV1TransferFunction::ExtSrgb => 10,
            WpColorManagerV1TransferFunction::St2084Pq => 11,
            WpColorManagerV1TransferFunction::St428 => 12,
            WpColorManagerV1TransferFunction::Hlg => 13,
        }
    }
}

/// A capability announced by the color manager.
#[derive(Clone, Copy, Debug, PartialEq, Eq, Structural, Hash)]
pub enum WpColorManagerV1Feature {
    IccV2V4,
    Parametric,
    SetPrimaries,
    SetTfPower,
    SetLuminances,
    SetMasteringDisplayPrimaries,
    ExtendedTargetVolume,
    WindowsScrgb,
}

/// A value clamped into the signed 32-bit range, as the saturating cast of
/// the wire encoding does.
pub open spec fn clamp_i32(x: int) -> int {
    if x < i32::MIN as int {
        i32::MIN as int
    } else if x > i32::MAX as int {
        i32::MAX as int
    } else {
        x
    }
}

/// A value clamped into the unsigned 32-bit range, as the saturating cast
/// of the wire encoding does.
pub open spec fn clamp_u32(x: int) -> int {
    if x < 0 {
        0
    } else if x > u32::MAX as int {
        u32::MAX as int
    } else {
        x
    }
}

/// The wire encoding of one chromaticity coordinate: millionths, truncated
/// toward zero and saturated to the wire's integer range.
pub open spec fn coord_to_wire(v: int) -> int {
    clamp_i32(crate::fixed::tdiv(v, 1000))
}

fn coord_to_wire_exec(v: Fixed) -> (r: i32)
    ensures
        r as int == coord_to_wire(v@),
{
    let q: i128 = crate::fixed::tdiv_i128(v.v as i128, 1000);
    proof {
        crate::fixed::lemma_tdiv_le(v@, 1000, crate::fixed::iabs(v@));
    }
    if q < (i32::MIN as i128) {
        i32::MIN
    } else if q > (i32::MAX as i128) {
        i32::MAX
    } else {
        q as i32
    }
}

/// The chromaticity pairs of a primaries set in wire order: red, green,
/// blue, white point, each as x then y in millionths.
pub struct WirePrimaries {
    pub r_x: i32,
    pub r_y: i32,
    pub g_x: i32,
    pub g_y: i32,
    pub b_x: i32,
    pub b_y: i32,
    pub w_x: i32,
    pub w_y: i32,
}

/// Encodes custom primaries for the protocol's set-primaries request:
/// each coordinate in millionths, truncated and saturated.
pub fn primaries_to_wire(p: &Primaries) -> (r: WirePrimaries)
    ensures
        r.r_x as int == coord_to_wire(p.r.x@),
        r.r_y as int == coord_to_wire(p.r.y@),
        r.g_x as int == coord_to_wire(p.g.x@),
        r.g_y as int == coord_to_wire(p.g.y@),
        r.b_x as int == coord_to_wire(p.b.x@),
        r.b_y as int == coord_to_wire(p.b.y@),
        r.w_x as int == coord_to_wire(p.wp.x@),
        r.w_y as int == coord_to_wire(p.wp.y@),
{
    WirePrimaries {
        r_x: coord_to_wire_exec(p.r.x),
        r_y: coord_to_wire_exec(p.r.y),
        g_x: coord_to_wire_exec(p.g.x),
        g_y: coord_to_wire_exec(p.g.y),
        b_x: coord_to_wire_exec(p.b.x),
        b_y: coord_to_wire_exec(p.b.y),
        w_x: coord_to_wire_exec(p.wp.x),
        w_y: coord_to_wire_exec(p.wp.y),
    }
}

/// Decodes primaries from the protocol's wire encoding: each coordinate
/// arrives in millionths, exactly a thousand fixed-point units.
pub fn primaries_from_wire(w: &WirePrimaries) -> (r: Primaries)
    ensures
        r.r.x@ == w.r_x as int * 1000,
        r.r.y@ == w.r_y as int * 1000,
        r.g.x@ == w.g_x as int * 1000,
        r.g.y@ == w.g_y as int * 1000,
        r.b.x@ == w.b_x as int * 1000,
        r.b.y@ == w.b_y as int * 1000,
        r.wp.x@ == w.w_x as int * 1000,
        r.wp.y@ == w.w_y as int * 1000,
{
    Primaries {
        r: Chromaticity { x: coord_from_wire(w.r_x), y: coord_from_wire(w.r_y) },
        g: Chromaticity { x: coord_from_wire(w.g_x), y: coord_from_wire(w.g_y) },
        b: Chromaticity { x: coord_from_wire(w.b_x), y: coord_from_wire(w.b_y) },
        wp: Chromaticity { x: coord_from_wire(w.w_x), y: coord_from_wire(w.w_y) },
    }
}

fn coord_from_wire(v: i32) -> (r: Fixed)
    ensures
        r@ == v as int * 1000,
{
    proof {
        crate::fixed::lemma_prod_le(v as int, 1000, 0x80000000, 1000);
    }
    let w: i128 = (v as i128) * 1000;
    Fixed { v: w as i64 }
}

/// Encodes a luminance range for the protocol's set-luminances request:
/// the minimum in ten-thousandths of a candela per square meter, the
/// maximum and reference white in whole units, truncated and saturated.
pub fn luminance_to_wire(l: &Luminance) -> (r: (u32, u32, u32))
    ensures
        r.0 as int == clamp_u32(crate::fixed::tdiv(l.min@ * 10000, crate::fixed::SCALE as int)),
        r.1 as int == clamp_u32(crate::fixed::tdiv(l.max@, crate::fixed::SCALE as int)),
        r.2 as int == clamp_u32(crate::fixed::tdiv(l.white@, crate::fixed::SCALE as int)),
{
    proof {
        crate::fixed::lemma_prod_le(l.min@, 10000, 0x8000000000000000, 10000);
    }
    let minw: i128 = crate::fixed::tdiv_i128((l.min.v as i128) * 10000, crate::fixed::SCALE as i128);
    (clamp_u32_exec(minw), clamp_u32_exec(crate::fixed::tdiv_i128(l.max.v as i128, crate::fixed::SCALE as i128)), clamp_u32_exec(
        crate::fixed::tdiv_i128(l.white.v as i128, crate::fixed::SCALE as i128),
    ))
}

fn clamp_u32_exec(v: i128) -> (r: u32)
    ensures
        r as int == clamp_u32(v as int),
{
    if v < 0 {
        0
    } else if v > (u32::MAX as i128) {
        u32::MAX
    } else {
        v as u32
    }
}

/// Decodes a luminance range from the protocol's wire encoding: the
/// minimum arrives in ten-thousandths, the maximum and reference white in
/// whole units.
pub fn luminance_from_wire(min_lum: u32, max_lum: u32, reference_lum: u32) -> (r: Luminance)
    ensures
        r.min@ == min_lum as int * 100_000,
        r.max@ == max_lum as int * crate::fixed::SCALE as int,
        r.white@ == reference_lum as int * crate::fixed::SCALE as int,
{
    proof {
        crate::fixed::lemma_prod_le(min_lum as int, 100_000, 0xffffffff, 100_000);
        crate::fixed::lemma_prod_le(
            max_lum as int,
            crate::fixed::SCALE as int,
            0xffffffff,
            crate::fixed::SCALE as int,
        );
        crate::fixed::lemma_prod_le(
            reference_lum as int,
            crate::fixed::SCALE as int,
            0xffffffff,
            crate::fixed::SCALE as int,
        );
    }
    let minv: i128 = (min_lum as i128) * 100_000;
    let maxv: i128 = (max_lum as i128) * (crate::fixed::SCALE as i128);
    let whitev: i128 = (reference_lum as i128) * (crate::fixed::SCALE as i128);
    Luminance {
        min: Fixed { v: minv as i64 },
        max: Fixed { v: maxv as i64 },
        white: Fixed { v: whitev as i64 },
    }
}

/// Decodes a named transfer function from the protocol; the names the
/// renderer has no decode for yield nothing.
pub fn tf_from_wire(tf: WpColorManagerV1TransferFunction) -> (r: Option<NamedTransferFunction>)
    ensures
        r == match tf {
            WpColorManagerV1TransferFunction::Bt1886 => Some(NamedTransferFunction::Bt1886),
            WpColorManagerV1TransferFunction::Gamma22 => Some(NamedTransferFunction::Gamma22),
            WpColorManagerV1TransferFunction::Gamma28 => Some(NamedTransferFunction::Gamma28),
            WpColorManagerV1TransferFunction::St240 => Some(NamedTransferFunction::St240),
            WpColorManagerV1TransferFunction::ExtLinear => Some(NamedTransferFunction::Linear),
            WpColorManagerV1TransferFunction::Log100 => Some(NamedTransferFunction::Log100),
            WpColorManagerV1TransferFunction::Log316 => Some(NamedTransferFunction::Log316),
            WpColorManagerV1TransferFunction::Xvycc => None::<NamedTransferFunction>,
            WpColorManagerV1TransferFunction::Srgb => Some(NamedTransferFunction::Srgb),
            WpColorManagerV1TransferFunction::ExtSrgb => Some(NamedTransferFunction::ExtSrgb),
            WpColorManagerV1TransferFunction::St2084Pq => Some(NamedTransferFunction::St2084Pq),
            WpColorManagerV1TransferFunction::St428 => Some(NamedTransferFunction::St428),
            WpColorManagerV1TransferFunction::Hlg => None::<NamedTransferFunction>,
        },
{
    match tf {
        WpColorManagerV1TransferFunction::Bt1886 => Some(NamedTransferFunction::Bt1886),
        WpColorManagerV1TransferFunction::Gamma22 => Some(NamedTransferFunction::Gamma22),
        WpColorManagerV1TransferFunction::Gamma28 => Some(NamedTransferFunction::Gamma28),
        WpColorManagerV1TransferFunction::St240 => Some(NamedTransferFunction::St240),
        WpColorManagerV1TransferFunction::ExtLinear => Some(NamedTransferFunction::Linear),
        WpColorManagerV1TransferFunction::Log100 => Some(NamedTransferFunction::Log100),
        WpColorManagerV1TransferFunction::Log316 => Some(NamedTransferFunction::Log316),
        WpColorManagerV1TransferFunction::Xvycc => None,
        WpColorManagerV1TransferFunction::Srgb => Some(NamedTransferFunction::Srgb),
        WpColorManagerV1TransferFunction::ExtSrgb => Some(NamedTransferFunction::ExtSrgb),
        WpColorManagerV1TransferFunction::St2084Pq => Some(NamedTransferFunction::St2084Pq),
        WpColorManagerV1TransferFunction::St428 => Some(NamedTransferFunction::St428),
        WpColorManagerV1TransferFunction::Hlg => None,
    }
}

/// Decodes a named primaries set from the protocol.
pub fn primaries_named_from_wire(p: WpColorManagerV1Primaries) -> (r: NamedPrimaries)
    ensures
        r == match p {
            WpColorManagerV1Primaries::Srgb => NamedPrimaries::Srgb,
            WpColorManagerV1Primaries::PalM => NamedPrimaries::PalM,
            WpColorManagerV1Primaries::Pal => NamedPrimaries::Pal,
            WpColorManagerV1Primaries::Ntsc => NamedPrimaries::Ntsc,
            WpColorManagerV1Primaries::GenericFilm => NamedPrimaries::GenericFilm,
            WpColorManagerV1Primaries::Bt2020 => NamedPrimaries::Bt2020,
            WpColorManagerV1Primaries::Cie1931Xyz => NamedPrimaries::Cie1931Xyz,
            WpColorManagerV1Primaries::DciP3 => NamedPrimaries::DciP3,
            WpColorManagerV1Primaries::DisplayP3 => NamedPrimaries::DisplayP3,
            WpColorManagerV1Primaries::AdobeRgb => NamedPrimaries::AdobeRgb,
        },
{
    match p {
        WpColorManagerV1Primaries::Srgb => NamedPrimaries::Srgb,
        WpColorManagerV1Primaries::PalM => NamedPrimaries::PalM,
        WpColorManagerV1Primaries::Pal => NamedPrimaries::Pal,
        WpColorManagerV1Primaries::Ntsc => NamedPrimaries::Ntsc,
        WpColorManagerV1Primaries::GenericFilm => NamedPrimaries::GenericFilm,
        WpColorManagerV1Primaries::Bt2020 => NamedPrimaries::Bt2020,
        WpColorManagerV1Primaries::Cie1931Xyz => NamedPrimaries::Cie1931Xyz,
        WpColorManagerV1Primaries::DciP3 => NamedPrimaries::DciP3,
        WpColorManagerV1Primaries::DisplayP3 => NamedPrimaries::DisplayP3,
        WpColorManagerV1Primaries::AdobeRgb => NamedPrimaries::AdobeRgb,
    }
}

} // verus!
