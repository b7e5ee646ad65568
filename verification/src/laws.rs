//! The laws of the library, stated and proved over the same
//! specifications that the executable functions' contracts use: the
//! colorimetric round-trip and identity laws, and the scene compiler's
//! shape laws.

use vstd::prelude::*;
use crate::cmm::{
    Chromaticity, MatS, NamedPrimaries, ba_ok, ba_resp_b, ba_resp_g, ba_resp_r, ba_val,
    chroma_big_x, chroma_big_z, luminance_srgb, mfl_val, ms_identity, ms_mul, ms_xyz_from_lms,
    named_primaries_spec, pm_det, pm_from_val, pm_ok, pm_sb, pm_sbp, pm_sbx, pm_sby, pm_sbz,
    pm_sg, pm_sgp, pm_sgx, pm_sgy, pm_sgz, pm_sr, pm_srp, pm_srx, pm_sry, pm_srz, pm_to_xyz_val,
    pm_zb, pm_zg, pm_zr,
    wb_a, wb_a1, wb_a2, wb_d, wb_s, wb_val,
};
use crate::fixed::{
    Fixed, SCALE, iabs, is_cube_root, lemma_cbrt_value, lemma_iabs_mul, lemma_tdiv_eq, tdiv,
};
use crate::scene::{
    Color, Lab, LabS, Scene, compile_val, grid_row_cells, grid_rows_cells, grid_w, lch_ok,
    lch_val, rect_canvas, tla_ok, tla_val,
};

verus! {

/// Entrywise tolerance of the preset round-trip law, in fixed-point
/// units.
pub const ROUND_TRIP_TOL: i64 = 100;

/// Entrywise tolerance of the Bradford identity law, in fixed-point
/// units: the published four-decimal inverse basis is not the exact
/// inverse, so conjugating even an exact identity gain leaves a residue.
pub const BRADFORD_TOL: i64 = 200_000;

/// Whether two matrix values agree entrywise within a tolerance.
pub open spec fn mat_close(a: MatS, b: MatS, eps: int) -> bool {
    &&& iabs(a.e00 - b.e00) <= eps
    &&& iabs(a.e01 - b.e01) <= eps
    &&& iabs(a.e02 - b.e02) <= eps
    &&& iabs(a.e03 - b.e03) <= eps
    &&& iabs(a.e10 - b.e10) <= eps
    &&& iabs(a.e11 - b.e11) <= eps
    &&& iabs(a.e12 - b.e12) <= eps
    &&& iabs(a.e13 - b.e13) <= eps
    &&& iabs(a.e20 - b.e20) <= eps
    &&& iabs(a.e21 - b.e21) <= eps
    &&& iabs(a.e22 - b.e22) <= eps
    &&& iabs(a.e23 - b.e23) <= eps
}

/// Round-trip law: for every supported named primaries preset the matrix
/// derivation succeeds, and composing its XYZ-from-local matrix with its
/// local-from-XYZ matrix reproduces the identity within tolerance.
pub proof fn lemma_primaries_round_trip(n: NamedPrimaries)
    ensures
        pm_ok(named_primaries_spec(n)),
        mat_close(
            ms_mul(pm_to_xyz_val(named_primaries_spec(n)), pm_from_val(named_primaries_spec(n))),
            ms_identity(),
            ROUND_TRIP_TOL as int,
        ),
{
    match n {
        NamedPrimaries::Srgb => lemma_round_trip_srgb(),
        NamedPrimaries::PalM => lemma_round_trip_palm(),
        NamedPrimaries::Pal => lemma_round_trip_pal(),
        NamedPrimaries::Ntsc => lemma_round_trip_ntsc(),
        NamedPrimaries::GenericFilm => lemma_round_trip_genericfilm(),
        NamedPrimaries::Bt2020 => lemma_round_trip_bt2020(),
        NamedPrimaries::Cie1931Xyz => lemma_round_trip_cie1931xyz(),
        NamedPrimaries::DciP3 => lemma_round_trip_dcip3(),
        NamedPrimaries::DisplayP3 => lemma_round_trip_displayp3(),
        NamedPrimaries::AdobeRgb => lemma_round_trip_adobergb(),
    }
}

/// White-balance identity law: between luminance ranges both equal to the
/// reference default, the white-balance transform is exactly the identity
/// (unit scale, zero offset), whatever the target white point.
pub proof fn lemma_white_balance_identity(w: Chromaticity)
    ensures
        wb_val(luminance_srgb(), luminance_srgb(), w) == ms_identity(),
{
    let f = luminance_srgb();
    lemma_tdiv_eq(79_800_000_000_000_000_000, 79_800_000_000, 1_000_000_000, 0);
    lemma_tdiv_eq(79_800_000_000_000_000_000, 1_000_000_000, 79_800_000_000, 0);
    lemma_tdiv_eq(0, 79_800_000_000, 0, 0);
    lemma_tdiv_eq(0, 1_000_000_000, 0, 0);
    assert(wb_a1(f, f) == 1_000_000_000);
    assert(wb_a2(f, f) == 79_800_000_000);
    assert(wb_a(f, f) == 1_000_000_000);
    assert(wb_d(f, f) == 0);
    assert(wb_s(f, f) == 1_000_000_000);
    assert(wb_d(f, f) * chroma_big_x(w) == 0);
    assert(wb_d(f, f) * chroma_big_z(w) == 0);
    assert(tdiv(0, SCALE as int) == 0);
}

/// A value scaled by the unit and divided by itself gives exactly the
/// unit.
proof fn lemma_tdiv_self_scale(x: int)
    requires
        x != 0,
    ensures
        tdiv(x * SCALE as int, x) == SCALE as int,
{
    lemma_iabs_mul(x, SCALE as int);
    if x > 0 {
        assert(x * (SCALE as int) > 0) by (nonlinear_arith)
            requires
                x > 0,
        ;
    } else {
        assert(x * (SCALE as int) < 0) by (nonlinear_arith)
            requires
                x < 0,
        ;
    }
    vstd::arithmetic::div_mod::lemma_div_multiples_vanish(SCALE as int, iabs(x));
    assert(iabs(x) * SCALE as int == SCALE as int * iabs(x));
}

/// Bradford identity law: for identical source and target white points,
/// wherever the derivation succeeds the adaptation is the identity within
/// tolerance. The diagonal gain is exactly the identity; the residue is
/// the fixed inverse basis times the fixed basis.
#[verifier::rlimit(100)]
#[verifier::spinoff_prover]
pub proof fn lemma_bradford_identity(w: Chromaticity)
    ensures
        ba_ok(w, w) ==> mat_close(ba_val(w, w), ms_identity(), BRADFORD_TOL as int),
{
    if ba_ok(w, w) {
        lemma_tdiv_self_scale(ba_resp_r(w));
        lemma_tdiv_self_scale(ba_resp_g(w));
        lemma_tdiv_self_scale(ba_resp_b(w));
    lemma_tdiv_eq(0, 1000000000, 0, 0);
    lemma_tdiv_eq(11340000000000, 1000000000, 11340, 0);
    lemma_tdiv_eq(34180000000000, 1000000000, 34180, 0);
    lemma_tdiv_eq(35630000000000, 1000000000, 35630, 0);
    lemma_tdiv_eq(58300000000000, 1000000000, 58300, 0);
    lemma_tdiv_eq(66650000000000, 1000000000, 66650, 0);
    lemma_tdiv_eq(79050000000000, 1000000000, 79050, 0);
    lemma_tdiv_eq(8500000000000000, 1000000000, 8500000, 0);
    lemma_tdiv_eq(40000000000000000, 1000000000, 40000000, 0);
    lemma_tdiv_eq(49300000000000000, 1000000000, 49300000, 0);
    lemma_tdiv_eq(147100000000000000, 1000000000, 147100000, 0);
    lemma_tdiv_eq(160000000000000000, 1000000000, 160000000, 0);
    lemma_tdiv_eq(432300000000000000, 1000000000, 432300000, 0);
    lemma_tdiv_eq(518400000000000000, 1000000000, 518400000, 0);
    lemma_tdiv_eq(968500000000000000, 1000000000, 968500000, 0);
    lemma_tdiv_eq(987000000000000000, 1000000000, 987000000, 0);
    lemma_tdiv_eq(1000007500000000000, 1000000000, 1000007500, 0);
    lemma_tdiv_eq(1000042120000000000, 1000000000, 1000042120, 0);
    lemma_tdiv_eq(1000066070000000000, 1000000000, 1000066070, 0);
    }
}

/// Reference-default law: with the reference primaries and the reference
/// luminance range, the derived LMS matrix is the product of only the
/// XYZ-from-local inverse primary matrix and the fixed LMS-to-XYZ basis;
/// neither the white-balance nor the adaptation stage is applied.
pub proof fn lemma_srgb_reference_stages()
    ensures
        mfl_val(named_primaries_spec(NamedPrimaries::Srgb), luminance_srgb()) == ms_mul(
            pm_from_val(named_primaries_spec(NamedPrimaries::Srgb)),
            ms_xyz_from_lms(),
        ),
{
}

/// Round-trip law witnesses for the Srgb preset.
#[verifier::rlimit(100)]
#[verifier::spinoff_prover]
proof fn lemma_round_trip_srgb()
    ensures
        pm_ok(named_primaries_spec(NamedPrimaries::Srgb)),
        mat_close(
            ms_mul(
                pm_to_xyz_val(named_primaries_spec(NamedPrimaries::Srgb)),
                pm_from_val(named_primaries_spec(NamedPrimaries::Srgb)),
            ),
            ms_identity(),
            ROUND_TRIP_TOL as int,
        ),
{
    let p = named_primaries_spec(NamedPrimaries::Srgb);
    lemma_tdiv_eq(0, 1000000000, 0, 0);
    lemma_tdiv_eq(152881929, 1000000000, 0, 152881929);
    lemma_tdiv_eq(290680316, 1000000000, 0, 290680316);
    lemma_tdiv_eq(302419663, 1000000000, 0, 302419663);
    lemma_tdiv_eq(1341597901, 1000000000, 1, 341597901);
    lemma_tdiv_eq(2142241618, 1000000000, 2, 142241618);
    lemma_tdiv_eq(2265064777, 1000000000, 2, 265064777);
    lemma_tdiv_eq(19330818690000000, 1000000000, 19330818, 690000000);
    lemma_tdiv_eq(72192315300000000, 1000000000, 72192315, 300000000);
    lemma_tdiv_eq(119194779700000000, 1000000000, 119194779, 700000000);
    lemma_tdiv_eq(180480788250000000, 1000000000, 180480788, 250000000);
    lemma_tdiv_eq(212639005590000000, 1000000000, 212639005, 590000000);
    lemma_tdiv_eq(312700000000000000, 329000000, 950455927, 17000000);
    lemma_tdiv_eq(357584339100000000, 1000000000, 357584339, 100000000);
    lemma_tdiv_eq(358300000000000000, 329000000, 1089057750, 250000000);
    lemma_tdiv_eq(412390798720000000, 1000000000, 412390798, 720000000);
    lemma_tdiv_eq(715168678200000000, 1000000000, 715168678, 200000000);
    lemma_tdiv_eq(950532151450000000, 1000000000, 950532151, 450000000);
    lemma_tdiv_eq(999999995848408566, 1000000000, 999999995, 848408566);
    lemma_tdiv_eq(999999999679724488, 1000000000, 999999999, 679724488);
    lemma_tdiv_eq(999999999723244708, 1000000000, 999999999, 723244708);
    lemma_tdiv_eq(144401215836000000000000000, 224100000000000000, 644360623, 221700000000000000);
    lemma_tdiv_eq(267115501524700000000000000, 224100000000000000, 1191947797, 217000000000000000);
    lemma_tdiv_eq(269638297655000000000000000, 224100000000000000, 1203205255, 9500000000000000);
    lemma_tdiv_eq(11100000000000000000000000000000000, 267115501524700000000000000, 41555057, 108557504592100000000000000);
    lemma_tdiv_eq(15000000000000000000000000000000000, 269638297655000000000000000, 55630079, 200026835255000000000000000);
    lemma_tdiv_eq(55000000000000000000000000000000000, 269638297655000000000000000, 203976959, 14396268855000000000000000);
    lemma_tdiv_eq(72000000000000000000000000000000000, 144401215836000000000000000, 498610760, 27088004640000000000000000);
    lemma_tdiv_eq(222000000000000000000000000000000000, 144401215836000000000000000, 1537383177, 35387609028000000000000000);
    lemma_tdiv_eq(258900000000000000000000000000000000, 267115501524700000000000000, 969243636, 70236228190800000000000000);
    lemma_tdiv_eq(285000000000000000000000000000000000, 269638297655000000000000000, 1056971515, 25573702675000000000000000);
    lemma_tdiv_eq(468000000000000000000000000000000000, 144401215836000000000000000, 3240969941, 31670814324000000000000000);
    lemma_tdiv_eq(501100000000000000000000000000000000, 267115501524700000000000000, 1875967501, 126346851225300000000000000);
    assert(p.g.y@ * pm_zb(p) - pm_zg(p) * p.b.y@ == 468000000000000000) by (nonlinear_arith)
        requires
            p.g.y@ == 600000000,
            pm_zb(p) == 790000000,
            pm_zg(p) == 100000000,
            p.b.y@ == 60000000,
    ;
    assert(pm_srx(p) == 468000000000000000);
    assert(pm_zg(p) * p.b.x@ - p.g.x@ * pm_zb(p) == -222000000000000000) by (nonlinear_arith)
        requires
            pm_zg(p) == 100000000,
            p.b.x@ == 150000000,
            p.g.x@ == 300000000,
            pm_zb(p) == 790000000,
    ;
    assert(pm_sry(p) == -222000000000000000);
    assert(p.g.x@ * p.b.y@ - p.g.y@ * p.b.x@ == -72000000000000000) by (nonlinear_arith)
        requires
            p.g.x@ == 300000000,
            p.b.y@ == 60000000,
            p.g.y@ == 600000000,
            p.b.x@ == 150000000,
    ;
    assert(pm_srz(p) == -72000000000000000);
    assert(pm_zr(p) * p.b.y@ - p.r.y@ * pm_zb(p) == -258900000000000000) by (nonlinear_arith)
        requires
            pm_zr(p) == 30000000,
            p.b.y@ == 60000000,
            p.r.y@ == 330000000,
            pm_zb(p) == 790000000,
    ;
    assert(pm_sgx(p) == -258900000000000000);
    assert(p.r.y@ * p.b.x@ - p.r.x@ * p.b.y@ == 11100000000000000) by (nonlinear_arith)
        requires
            p.r.y@ == 330000000,
            p.b.x@ == 150000000,
            p.r.x@ == 640000000,
            p.b.y@ == 60000000,
    ;
    assert(pm_sgz(p) == 11100000000000000);
    assert(p.r.x@ * pm_zb(p) - pm_zr(p) * p.b.x@ == 501100000000000000) by (nonlinear_arith)
        requires
            p.r.x@ == 640000000,
            pm_zb(p) == 790000000,
            pm_zr(p) == 30000000,
            p.b.x@ == 150000000,
    ;
    assert(pm_sgy(p) == 501100000000000000);
    assert(p.r.y@ * pm_zg(p) - pm_zr(p) * p.g.y@ == 15000000000000000) by (nonlinear_arith)
        requires
            p.r.y@ == 330000000,
            pm_zg(p) == 100000000,
            pm_zr(p) == 30000000,
            p.g.y@ == 600000000,
    ;
    assert(pm_sbx(p) == 15000000000000000);
    assert(pm_zr(p) * p.g.x@ - p.r.x@ * pm_zg(p) == -55000000000000000) by (nonlinear_arith)
        requires
            pm_zr(p) == 30000000,
            p.g.x@ == 300000000,
            p.r.x@ == 640000000,
            pm_zg(p) == 100000000,
    ;
    assert(pm_sby(p) == -55000000000000000);
    assert(p.r.x@ * p.g.y@ - p.r.y@ * p.g.x@ == 285000000000000000) by (nonlinear_arith)
        requires
            p.r.x@ == 640000000,
            p.g.y@ == 600000000,
            p.r.y@ == 330000000,
            p.g.x@ == 300000000,
    ;
    assert(pm_sbz(p) == 285000000000000000);
    assert(pm_det(p) == 224100000000000000);
    assert(p.wp.x@ * SCALE as int == 312700000000000000) by (nonlinear_arith)
        requires
            p.wp.x@ == 312700000,
    ;
    assert(chroma_big_x(p.wp) == 950455927);
    assert((SCALE as int - p.wp.x@ - p.wp.y@) * SCALE as int == 358300000000000000) by (nonlinear_arith)
        requires
            p.wp.x@ == 312700000,
            p.wp.y@ == 329000000,
    ;
    assert(chroma_big_z(p.wp) == 1089057750);
    assert(pm_srx(p) * chroma_big_x(p.wp) + pm_sry(p) * SCALE as int + pm_srz(p) * chroma_big_z(p.wp) == 144401215836000000000000000) by (nonlinear_arith)
        requires
            pm_srx(p) == 468000000000000000,
            pm_sry(p) == -222000000000000000,
            pm_srz(p) == -72000000000000000,
            chroma_big_x(p.wp) == 950455927,
            chroma_big_z(p.wp) == 1089057750,
    ;
    assert(pm_sr(p) == 144401215836000000000000000);
    assert(pm_sgx(p) * chroma_big_x(p.wp) + pm_sgy(p) * SCALE as int + pm_sgz(p) * chroma_big_z(p.wp) == 267115501524700000000000000) by (nonlinear_arith)
        requires
            pm_sgx(p) == -258900000000000000,
            pm_sgy(p) == 501100000000000000,
            pm_sgz(p) == 11100000000000000,
            chroma_big_x(p.wp) == 950455927,
            chroma_big_z(p.wp) == 1089057750,
    ;
    assert(pm_sg(p) == 267115501524700000000000000);
    assert(pm_sbx(p) * chroma_big_x(p.wp) + pm_sby(p) * SCALE as int + pm_sbz(p) * chroma_big_z(p.wp) == 269638297655000000000000000) by (nonlinear_arith)
        requires
            pm_sbx(p) == 15000000000000000,
            pm_sby(p) == -55000000000000000,
            pm_sbz(p) == 285000000000000000,
            chroma_big_x(p.wp) == 950455927,
            chroma_big_z(p.wp) == 1089057750,
    ;
    assert(pm_sb(p) == 269638297655000000000000000);
    assert(pm_srp(p) == 644360623);
    assert(pm_sgp(p) == 1191947797);
    assert(pm_sbp(p) == 1203205255);
    assert(pm_srp(p) * p.r.x@ == 412390798720000000) by (nonlinear_arith)
        requires
            pm_srp(p) == 644360623,
            p.r.x@ == 640000000,
    ;
    assert(pm_sgp(p) * p.g.x@ == 357584339100000000) by (nonlinear_arith)
        requires
            pm_sgp(p) == 1191947797,
            p.g.x@ == 300000000,
    ;
    assert(pm_sbp(p) * p.b.x@ == 180480788250000000) by (nonlinear_arith)
        requires
            pm_sbp(p) == 1203205255,
            p.b.x@ == 150000000,
    ;
    assert(pm_srp(p) * p.r.y@ == 212639005590000000) by (nonlinear_arith)
        requires
            pm_srp(p) == 644360623,
            p.r.y@ == 330000000,
    ;
    assert(pm_sgp(p) * p.g.y@ == 715168678200000000) by (nonlinear_arith)
        requires
            pm_sgp(p) == 1191947797,
            p.g.y@ == 600000000,
    ;
    assert(pm_sbp(p) * p.b.y@ == 72192315300000000) by (nonlinear_arith)
        requires
            pm_sbp(p) == 1203205255,
            p.b.y@ == 60000000,
    ;
    assert(pm_srp(p) * pm_zr(p) == 19330818690000000) by (nonlinear_arith)
        requires
            pm_srp(p) == 644360623,
            pm_zr(p) == 30000000,
    ;
    assert(pm_sgp(p) * pm_zg(p) == 119194779700000000) by (nonlinear_arith)
        requires
            pm_sgp(p) == 1191947797,
            pm_zg(p) == 100000000,
    ;
    assert(pm_sbp(p) * pm_zb(p) == 950532151450000000) by (nonlinear_arith)
        requires
            pm_sbp(p) == 1203205255,
            pm_zb(p) == 790000000,
    ;
    let a = pm_to_xyz_val(p);
    assert(a.e00 == 412390798);
    assert(a.e01 == 357584339);
    assert(a.e02 == 180480788);
    assert(a.e10 == 212639005);
    assert(a.e11 == 715168678);
    assert(a.e12 == 72192315);
    assert(a.e20 == 19330818);
    assert(a.e21 == 119194779);
    assert(a.e22 == 950532151);
    assert(pm_srx(p) * (SCALE as int * SCALE as int) == 468000000000000000000000000000000000) by (nonlinear_arith)
        requires
            pm_srx(p) == 468000000000000000,
    ;
    assert(pm_sry(p) * (SCALE as int * SCALE as int) == -222000000000000000000000000000000000) by (nonlinear_arith)
        requires
            pm_sry(p) == -222000000000000000,
    ;
    assert(pm_srz(p) * (SCALE as int * SCALE as int) == -72000000000000000000000000000000000) by (nonlinear_arith)
        requires
            pm_srz(p) == -72000000000000000,
    ;
    assert(pm_sgx(p) * (SCALE as int * SCALE as int) == -258900000000000000000000000000000000) by (nonlinear_arith)
        requires
            pm_sgx(p) == -258900000000000000,
    ;
    assert(pm_sgy(p) * (SCALE as int * SCALE as int) == 501100000000000000000000000000000000) by (nonlinear_arith)
        requires
            pm_sgy(p) == 501100000000000000,
    ;
    assert(pm_sgz(p) * (SCALE as int * SCALE as int) == 11100000000000000000000000000000000) by (nonlinear_arith)
        requires
            pm_sgz(p) == 11100000000000000,
    ;
    assert(pm_sbx(p) * (SCALE as int * SCALE as int) == 15000000000000000000000000000000000) by (nonlinear_arith)
        requires
            pm_sbx(p) == 15000000000000000,
    ;
    assert(pm_sby(p) * (SCALE as int * SCALE as int) == -55000000000000000000000000000000000) by (nonlinear_arith)
        requires
            pm_sby(p) == -55000000000000000,
    ;
    assert(pm_sbz(p) * (SCALE as int * SCALE as int) == 285000000000000000000000000000000000) by (nonlinear_arith)
        requires
            pm_sbz(p) == 285000000000000000,
    ;
    let b = pm_from_val(p);
    assert(b.e00 == 3240969941);
    assert(b.e01 == -1537383177);
    assert(b.e02 == -498610760);
    assert(b.e10 == -969243636);
    assert(b.e11 == 1875967501);
    assert(b.e12 == 41555057);
    assert(b.e20 == 55630079);
    assert(b.e21 == -203976959);
    assert(b.e22 == 1056971515);
    assert(a.e03 == 0 && a.e13 == 0 && a.e23 == 0);
    assert(b.e03 == 0 && b.e13 == 0 && b.e23 == 0);
    assert(a.e00 * b.e00 + a.e01 * b.e10 + a.e02 * b.e20 == 999999995848408566) by (nonlinear_arith)
        requires
            a.e00 == 412390798,
            a.e01 == 357584339,
            a.e02 == 180480788,
            b.e00 == 3240969941,
            b.e10 == -969243636,
            b.e20 == 55630079,
    ;
    assert(a.e00 * b.e01 + a.e01 * b.e11 + a.e02 * b.e21 == 1341597901) by (nonlinear_arith)
        requires
            a.e00 == 412390798,
            a.e01 == 357584339,
            a.e02 == 180480788,
            b.e01 == -1537383177,
            b.e11 == 1875967501,
            b.e21 == -203976959,
    ;
    assert(a.e00 * b.e02 + a.e01 * b.e12 + a.e02 * b.e22 == 302419663) by (nonlinear_arith)
        requires
            a.e00 == 412390798,
            a.e01 == 357584339,
            a.e02 == 180480788,
            b.e02 == -498610760,
            b.e12 == 41555057,
            b.e22 == 1056971515,
    ;
    assert(a.e10 * b.e00 + a.e11 * b.e10 + a.e12 * b.e20 == -2142241618) by (nonlinear_arith)
        requires
            a.e10 == 212639005,
            a.e11 == 715168678,
            a.e12 == 72192315,
            b.e00 == 3240969941,
            b.e10 == -969243636,
            b.e20 == 55630079,
    ;
    assert(a.e10 * b.e01 + a.e11 * b.e11 + a.e12 * b.e21 == 999999999723244708) by (nonlinear_arith)
        requires
            a.e10 == 212639005,
            a.e11 == 715168678,
            a.e12 == 72192315,
            b.e01 == -1537383177,
            b.e11 == 1875967501,
            b.e21 == -203976959,
    ;
    assert(a.e10 * b.e02 + a.e11 * b.e12 + a.e12 * b.e22 == -152881929) by (nonlinear_arith)
        requires
            a.e10 == 212639005,
            a.e11 == 715168678,
            a.e12 == 72192315,
            b.e02 == -498610760,
            b.e12 == 41555057,
            b.e22 == 1056971515,
    ;
    assert(a.e20 * b.e00 + a.e21 * b.e10 + a.e22 * b.e20 == -2265064777) by (nonlinear_arith)
        requires
            a.e20 == 19330818,
            a.e21 == 119194779,
            a.e22 == 950532151,
            b.e00 == 3240969941,
            b.e10 == -969243636,
            b.e20 == 55630079,
    ;
    assert(a.e20 * b.e01 + a.e21 * b.e11 + a.e22 * b.e21 == -290680316) by (nonlinear_arith)
        requires
            a.e20 == 19330818,
            a.e21 == 119194779,
            a.e22 == 950532151,
            b.e01 == -1537383177,
            b.e11 == 1875967501,
            b.e21 == -203976959,
    ;
    assert(a.e20 * b.e02 + a.e21 * b.e12 + a.e22 * b.e22 == 999999999679724488) by (nonlinear_arith)
        requires
            a.e20 == 19330818,
            a.e21 == 119194779,
            a.e22 == 950532151,
            b.e02 == -498610760,
            b.e12 == 41555057,
            b.e22 == 1056971515,
    ;
}

/// Round-trip law witnesses for the PalM preset.
#[verifier::rlimit(100)]
#[verifier::spinoff_prover]
proof fn lemma_round_trip_palm()
    ensures
        pm_ok(named_primaries_spec(NamedPrimaries::PalM)),
        mat_close(
            ms_mul(
                pm_to_xyz_val(named_primaries_spec(NamedPrimaries::PalM)),
                pm_from_val(named_primaries_spec(NamedPrimaries::PalM)),
            ),
            ms_identity(),
            ROUND_TRIP_TOL as int,
        ),
{
    let p = named_primaries_spec(NamedPrimaries::PalM);
    lemma_tdiv_eq(0, 1000000000, 0, 0);
    lemma_tdiv_eq(359326141, 1000000000, 0, 359326141);
    lemma_tdiv_eq(373296612, 1000000000, 0, 373296612);
    lemma_tdiv_eq(589435535, 1000000000, 0, 589435535);
    lemma_tdiv_eq(732908256, 1000000000, 0, 732908256);
    lemma_tdiv_eq(872565019, 1000000000, 0, 872565019);
    lemma_tdiv_eq(1309181490, 1000000000, 1, 309181490);
    lemma_tdiv_eq(66075629280000000, 1000000000, 66075629, 280000000);
    lemma_tdiv_eq(114612171600000000, 1000000000, 114612171, 600000000);
    lemma_tdiv_eq(173448526860000000, 1000000000, 173448526, 860000000);
    lemma_tdiv_eq(200571300300000000, 1000000000, 200571300, 300000000);
    lemma_tdiv_eq(298966617840000000, 1000000000, 298966617, 840000000);
    lemma_tdiv_eq(310000000000000000, 316000000, 981012658, 72000000);
    lemma_tdiv_eq(374000000000000000, 316000000, 1183544303, 252000000);
    lemma_tdiv_eq(586421209860000000, 1000000000, 586421209, 860000000);
    lemma_tdiv_eq(606992830160000000, 1000000000, 606992830, 160000000);
    lemma_tdiv_eq(999999998095382445, 1000000000, 999999998, 95382445);
    lemma_tdiv_eq(999999998516264048, 1000000000, 999999998, 516264048);
    lemma_tdiv_eq(999999999377447018, 1000000000, 999999999, 377447018);
    lemma_tdiv_eq(1117468673100000000, 1000000000, 1117468673, 100000000);
    lemma_tdiv_eq(261329113988600000000000000, 316400000000000000, 825945366, 186200000000000000);
    lemma_tdiv_eq(286645569561400000000000000, 316400000000000000, 905959448, 214200000000000000);
    lemma_tdiv_eq(453291138910400000000000000, 316400000000000000, 1432652145, 232400000000000000);
    lemma_tdiv_eq(7400000000000000000000000000000000, 261329113988600000000000000, 28316783, 187602549326200000000000000);
    lemma_tdiv_eq(26400000000000000000000000000000000, 453291138910400000000000000, 58240714, 419985121974400000000000000);
    lemma_tdiv_eq(53600000000000000000000000000000000, 453291138910400000000000000, 118246300, 1059168480000000000000000);
    lemma_tdiv_eq(82600000000000000000000000000000000, 286645569561400000000000000, 288160741, 270819931002600000000000000);
    lemma_tdiv_eq(152600000000000000000000000000000000, 286645569561400000000000000, 532364760, 155381983736000000000000000);
    lemma_tdiv_eq(257400000000000000000000000000000000, 261329113988600000000000000, 984964882, 77054051654800000000000000);
    lemma_tdiv_eq(406400000000000000000000000000000000, 453291138910400000000000000, 896554035, 380135376536000000000000000);
    lemma_tdiv_eq(522600000000000000000000000000000000, 261329113988600000000000000, 1999777185, 69333369909000000000000000);
    lemma_tdiv_eq(547400000000000000000000000000000000, 286645569561400000000000000, 1909675425, 123466391405000000000000000);
    assert(p.g.y@ * pm_zb(p) - pm_zg(p) * p.b.y@ == 547400000000000000) by (nonlinear_arith)
        requires
            p.g.y@ == 710000000,
            pm_zb(p) == 780000000,
            pm_zg(p) == 80000000,
            p.b.y@ == 80000000,
    ;
    assert(pm_srx(p) == 547400000000000000);
    assert(pm_zg(p) * p.b.x@ - p.g.x@ * pm_zb(p) == -152600000000000000) by (nonlinear_arith)
        requires
            pm_zg(p) == 80000000,
            p.b.x@ == 140000000,
            p.g.x@ == 210000000,
            pm_zb(p) == 780000000,
    ;
    assert(pm_sry(p) == -152600000000000000);
    assert(p.g.x@ * p.b.y@ - p.g.y@ * p.b.x@ == -82600000000000000) by (nonlinear_arith)
        requires
            p.g.x@ == 210000000,
            p.b.y@ == 80000000,
            p.g.y@ == 710000000,
            p.b.x@ == 140000000,
    ;
    assert(pm_srz(p) == -82600000000000000);
    assert(pm_zr(p) * p.b.y@ - p.r.y@ * pm_zb(p) == -257400000000000000) by (nonlinear_arith)
        requires
            pm_zr(p) == 0,
            p.b.y@ == 80000000,
            p.r.y@ == 330000000,
            pm_zb(p) == 780000000,
    ;
    assert(pm_sgx(p) == -257400000000000000);
    assert(p.r.y@ * p.b.x@ - p.r.x@ * p.b.y@ == -7400000000000000) by (nonlinear_arith)
        requires
            p.r.y@ == 330000000,
            p.b.x@ == 140000000,
            p.r.x@ == 670000000,
            p.b.y@ == 80000000,
    ;
    assert(pm_sgz(p) == -7400000000000000);
    assert(p.r.x@ * pm_zb(p) - pm_zr(p) * p.b.x@ == 522600000000000000) by (nonlinear_arith)
        requires
            p.r.x@ == 670000000,
            pm_zb(p) == 780000000,
            pm_zr(p) == 0,
            p.b.x@ == 140000000,
    ;
    assert(pm_sgy(p) == 522600000000000000);
    assert(p.r.y@ * pm_zg(p) - pm_zr(p) * p.g.y@ == 26400000000000000) by (nonlinear_arith)
        requires
            p.r.y@ == 330000000,
            pm_zg(p) == 80000000,
            pm_zr(p) == 0,
            p.g.y@ == 710000000,
    ;
    assert(pm_sbx(p) == 26400000000000000);
    assert(pm_zr(p) * p.g.x@ - p.r.x@ * pm_zg(p) == -53600000000000000) by (nonlinear_arith)
        requires
            pm_zr(p) == 0,
            p.g.x@ == 210000000,
            p.r.x@ == 670000000,
            pm_zg(p) == 80000000,
    ;
    assert(pm_sby(p) == -53600000000000000);
    assert(p.r.x@ * p.g.y@ - p.r.y@ * p.g.x@ == 406400000000000000) by (nonlinear_arith)
        requires
            p.r.x@ == 670000000,
            p.g.y@ == 710000000,
            p.r.y@ == 330000000,
            p.g.x@ == 210000000,
    ;
    assert(pm_sbz(p) == 406400000000000000);
    assert(pm_det(p) == 316400000000000000);
    assert(p.wp.x@ * SCALE as int == 310000000000000000) by (nonlinear_arith)
        requires
            p.wp.x@ == 310000000,
    ;
    assert(chroma_big_x(p.wp) == 981012658);
    assert((SCALE as int - p.wp.x@ - p.wp.y@) * SCALE as int == 374000000000000000) by (nonlinear_arith)
        requires
            p.wp.x@ == 310000000,
            p.wp.y@ == 316000000,
    ;
    assert(chroma_big_z(p.wp) == 1183544303);
    assert(pm_srx(p) * chroma_big_x(p.wp) + pm_sry(p) * SCALE as int + pm_srz(p) * chroma_big_z(p.wp) == 286645569561400000000000000) by (nonlinear_arith)
        requires
            pm_srx(p) == 547400000000000000,
            pm_sry(p) == -152600000000000000,
            pm_srz(p) == -82600000000000000,
            chroma_big_x(p.wp) == 981012658,
            chroma_big_z(p.wp) == 1183544303,
    ;
    assert(pm_sr(p) == 286645569561400000000000000);
    assert(pm_sgx(p) * chroma_big_x(p.wp) + pm_sgy(p) * SCALE as int + pm_sgz(p) * chroma_big_z(p.wp) == 261329113988600000000000000) by (nonlinear_arith)
        requires
            pm_sgx(p) == -257400000000000000,
            pm_sgy(p) == 522600000000000000,
            pm_sgz(p) == -7400000000000000,
            chroma_big_x(p.wp) == 981012658,
            chroma_big_z(p.wp) == 1183544303,
    ;
    assert(pm_sg(p) == 261329113988600000000000000);
    assert(pm_sbx(p) * chroma_big_x(p.wp) + pm_sby(p) * SCALE as int + pm_sbz(p) * chroma_big_z(p.wp) == 453291138910400000000000000) by (nonlinear_arith)
        requires
            pm_sbx(p) == 26400000000000000,
            pm_sby(p) == -53600000000000000,
            pm_sbz(p) == 406400000000000000,
            chroma_big_x(p.wp) == 981012658,
            chroma_big_z(p.wp) == 1183544303,
    ;
    assert(pm_sb(p) == 453291138910400000000000000);
    assert(pm_srp(p) == 905959448);
    assert(pm_sgp(p) == 825945366);
    assert(pm_sbp(p) == 1432652145);
    assert(pm_srp(p) * p.r.x@ == 606992830160000000) by (nonlinear_arith)
        requires
            pm_srp(p) == 905959448,
            p.r.x@ == 670000000,
    ;
    assert(pm_sgp(p) * p.g.x@ == 173448526860000000) by (nonlinear_arith)
        requires
            pm_sgp(p) == 825945366,
            p.g.x@ == 210000000,
    ;
    assert(pm_sbp(p) * p.b.x@ == 200571300300000000) by (nonlinear_arith)
        requires
            pm_sbp(p) == 1432652145,
            p.b.x@ == 140000000,
    ;
    assert(pm_srp(p) * p.r.y@ == 298966617840000000) by (nonlinear_arith)
        requires
            pm_srp(p) == 905959448,
            p.r.y@ == 330000000,
    ;
    assert(pm_sgp(p) * p.g.y@ == 586421209860000000) by (nonlinear_arith)
        requires
            pm_sgp(p) == 825945366,
            p.g.y@ == 710000000,
    ;
    assert(pm_sbp(p) * p.b.y@ == 114612171600000000) by (nonlinear_arith)
        requires
            pm_sbp(p) == 1432652145,
            p.b.y@ == 80000000,
    ;
    assert(pm_srp(p) * pm_zr(p) == 0) by (nonlinear_arith)
        requires
            pm_srp(p) == 905959448,
            pm_zr(p) == 0,
    ;
    assert(pm_sgp(p) * pm_zg(p) == 66075629280000000) by (nonlinear_arith)
        requires
            pm_sgp(p) == 825945366,
            pm_zg(p) == 80000000,
    ;
    assert(pm_sbp(p) * pm_zb(p) == 1117468673100000000) by (nonlinear_arith)
        requires
            pm_sbp(p) == 1432652145,
            pm_zb(p) == 780000000,
    ;
    let a = pm_to_xyz_val(p);
    assert(a.e00 == 606992830);
    assert(a.e01 == 173448526);
    assert(a.e02 == 200571300);
    assert(a.e10 == 298966617);
    assert(a.e11 == 586421209);
    assert(a.e12 == 114612171);
    assert(a.e20 == 0);
    assert(a.e21 == 66075629);
    assert(a.e22 == 1117468673);
    assert(pm_srx(p) * (SCALE as int * SCALE as int) == 547400000000000000000000000000000000) by (nonlinear_arith)
        requires
            pm_srx(p) == 547400000000000000,
    ;
    assert(pm_sry(p) * (SCALE as int * SCALE as int) == -152600000000000000000000000000000000) by (nonlinear_arith)
        requires
            pm_sry(p) == -152600000000000000,
    ;
    assert(pm_srz(p) * (SCALE as int * SCALE as int) == -82600000000000000000000000000000000) by (nonlinear_arith)
        requires
            pm_srz(p) == -82600000000000000,
    ;
    assert(pm_sgx(p) * (SCALE as int * SCALE as int) == -257400000000000000000000000000000000) by (nonlinear_arith)
        requires
            pm_sgx(p) == -257400000000000000,
    ;
    assert(pm_sgy(p) * (SCALE as int * SCALE as int) == 522600000000000000000000000000000000) by (nonlinear_arith)
        requires
            pm_sgy(p) == 522600000000000000,
    ;
    assert(pm_sgz(p) * (SCALE as int * SCALE as int) == -7400000000000000000000000000000000) by (nonlinear_arith)
        requires
            pm_sgz(p) == -7400000000000000,
    ;
    assert(pm_sbx(p) * (SCALE as int * SCALE as int) == 26400000000000000000000000000000000) by (nonlinear_arith)
        requires
            pm_sbx(p) == 26400000000000000,
    ;
    assert(pm_sby(p) * (SCALE as int * SCALE as int) == -53600000000000000000000000000000000) by (nonlinear_arith)
        requires
            pm_sby(p) == -53600000000000000,
    ;
    assert(pm_sbz(p) * (SCALE as int * SCALE as int) == 406400000000000000000000000000000000) by (nonlinear_arith)
        requires
            pm_sbz(p) == 406400000000000000,
    ;
    let b = pm_from_val(p);
    assert(b.e00 == 1909675425);
    assert(b.e01 == -532364760);
    assert(b.e02 == -288160741);
    assert(b.e10 == -984964882);
    assert(b.e11 == 1999777185);
    assert(b.e12 == -28316783);
    assert(b.e20 == 58240714);
    assert(b.e21 == -118246300);
    assert(b.e22 == 896554035);
    assert(a.e03 == 0 && a.e13 == 0 && a.e23 == 0);
    assert(b.e03 == 0 && b.e13 == 0 && b.e23 == 0);
    assert(a.e00 * b.e00 + a.e01 * b.e10 + a.e02 * b.e20 == 999999999377447018) by (nonlinear_arith)
        requires
            a.e00 == 606992830,
            a.e01 == 173448526,
            a.e02 == 200571300,
            b.e00 == 1909675425,
            b.e10 == -984964882,
            b.e20 == 58240714,
    ;
    assert(a.e00 * b.e01 + a.e01 * b.e11 + a.e02 * b.e21 == -1309181490) by (nonlinear_arith)
        requires
            a.e00 == 606992830,
            a.e01 == 173448526,
            a.e02 == 200571300,
            b.e01 == -532364760,
            b.e11 == 1999777185,
            b.e21 == -118246300,
    ;
    assert(a.e00 * b.e02 + a.e01 * b.e12 + a.e02 * b.e22 == 373296612) by (nonlinear_arith)
        requires
            a.e00 == 606992830,
            a.e01 == 173448526,
            a.e02 == 200571300,
            b.e02 == -288160741,
            b.e12 == -28316783,
            b.e22 == 896554035,
    ;
    assert(a.e10 * b.e00 + a.e11 * b.e10 + a.e12 * b.e20 == -872565019) by (nonlinear_arith)
        requires
            a.e10 == 298966617,
            a.e11 == 586421209,
            a.e12 == 114612171,
            b.e00 == 1909675425,
            b.e10 == -984964882,
            b.e20 == 58240714,
    ;
    assert(a.e10 * b.e01 + a.e11 * b.e11 + a.e12 * b.e21 == 999999998095382445) by (nonlinear_arith)
        requires
            a.e10 == 298966617,
            a.e11 == 586421209,
            a.e12 == 114612171,
            b.e01 == -532364760,
            b.e11 == 1999777185,
            b.e21 == -118246300,
    ;
    assert(a.e10 * b.e02 + a.e11 * b.e12 + a.e12 * b.e22 == 359326141) by (nonlinear_arith)
        requires
            a.e10 == 298966617,
            a.e11 == 586421209,
            a.e12 == 114612171,
            b.e02 == -288160741,
            b.e12 == -28316783,
            b.e22 == 896554035,
    ;
    assert(a.e20 * b.e00 + a.e21 * b.e10 + a.e22 * b.e20 == -732908256) by (nonlinear_arith)
        requires
            a.e20 == 0,
            a.e21 == 66075629,
            a.e22 == 1117468673,
            b.e00 == 1909675425,
            b.e10 == -984964882,
            b.e20 == 58240714,
    ;
    assert(a.e20 * b.e01 + a.e21 * b.e11 + a.e22 * b.e21 == -589435535) by (nonlinear_arith)
        requires
            a.e20 == 0,
            a.e21 == 66075629,
            a.e22 == 1117468673,
            b.e01 == -532364760,
            b.e11 == 1999777185,
            b.e21 == -118246300,
    ;
    assert(a.e20 * b.e02 + a.e21 * b.e12 + a.e22 * b.e22 == 999999998516264048) by (nonlinear_arith)
        requires
            a.e20 == 0,
            a.e21 == 66075629,
            a.e22 == 1117468673,
            b.e02 == -288160741,
            b.e12 == -28316783,
            b.e22 == 896554035,
    ;
}

/// Round-trip law witnesses for the Pal preset.
#[verifier::rlimit(100)]
#[verifier::spinoff_prover]
proof fn lemma_round_trip_pal()
    ensures
        pm_ok(named_primaries_spec(NamedPrimaries::Pal)),
        mat_close(
            ms_mul(
                pm_to_xyz_val(named_primaries_spec(NamedPrimaries::Pal)),
                pm_from_val(named_primaries_spec(NamedPrimaries::Pal)),
            ),
            ms_identity(),
            ROUND_TRIP_TOL as int,
        ),
{
    let p = named_primaries_spec(NamedPrimaries::Pal);
    lemma_tdiv_eq(0, 1000000000, 0, 0);
    lemma_tdiv_eq(163942549, 1000000000, 0, 163942549);
    lemma_tdiv_eq(218062170, 1000000000, 0, 218062170);
    lemma_tdiv_eq(287340904, 1000000000, 0, 287340904);
    lemma_tdiv_eq(746419853, 1000000000, 0, 746419853);
    lemma_tdiv_eq(2247805611, 1000000000, 2, 247805611);
    lemma_tdiv_eq(2906850825, 1000000000, 2, 906850825);
    lemma_tdiv_eq(20182209990000000, 1000000000, 20182209, 990000000);
    lemma_tdiv_eq(71340924000000000, 1000000000, 71340924, 0);
    lemma_tdiv_eq(129553373730000000, 1000000000, 129553373, 730000000);
    lemma_tdiv_eq(178352310000000000, 1000000000, 178352310, 0);
    lemma_tdiv_eq(222004309890000000, 1000000000, 222004309, 890000000);
    lemma_tdiv_eq(312700000000000000, 329000000, 950455927, 17000000);
    lemma_tdiv_eq(341549803470000000, 1000000000, 341549803, 470000000);
    lemma_tdiv_eq(358300000000000000, 329000000, 1089057750, 250000000);
    lemma_tdiv_eq(430553813120000000, 1000000000, 430553813, 120000000);
    lemma_tdiv_eq(706654765800000000, 1000000000, 706654765, 800000000);
    lemma_tdiv_eq(939322166000000000, 1000000000, 939322166, 0);
    lemma_tdiv_eq(999999999021447219, 1000000000, 999999999, 21447219);
    lemma_tdiv_eq(999999999320134816, 1000000000, 999999999, 320134816);
    lemma_tdiv_eq(999999999559547943, 1000000000, 999999999, 559547943);
    lemma_tdiv_eq(152577507629800000000000000, 226800000000000000, 672740333, 105400000000000000);
    lemma_tdiv_eq(267115501524700000000000000, 226800000000000000, 1177757943, 52300000000000000);
    lemma_tdiv_eq(269668692789100000000000000, 226800000000000000, 1189015400, 69100000000000000);
    lemma_tdiv_eq(11100000000000000000000000000000000, 267115501524700000000000000, 41555057, 108557504592100000000000000);
    lemma_tdiv_eq(18300000000000000000000000000000000, 269668692789100000000000000, 67861047, 164210323812300000000000000);
    lemma_tdiv_eq(61700000000000000000000000000000000, 269668692789100000000000000, 228799269, 217668348832100000000000000);
    lemma_tdiv_eq(72600000000000000000000000000000000, 152577507629800000000000000, 475823737, 137442551437400000000000000);
    lemma_tdiv_eq(212600000000000000000000000000000000, 152577507629800000000000000, 1393390174, 95226650414800000000000000);
    lemma_tdiv_eq(258900000000000000000000000000000000, 267115501524700000000000000, 969243636, 70236228190800000000000000);
    lemma_tdiv_eq(288300000000000000000000000000000000, 269668692789100000000000000, 1069089618, 239541726436200000000000000);
    lemma_tdiv_eq(467400000000000000000000000000000000, 152577507629800000000000000, 3063361089, 70270063147800000000000000);
    lemma_tdiv_eq(501100000000000000000000000000000000, 267115501524700000000000000, 1875967501, 126346851225300000000000000);
    assert(p.g.y@ * pm_zb(p) - pm_zg(p) * p.b.y@ == 467400000000000000) by (nonlinear_arith)
        requires
            p.g.y@ == 600000000,
            pm_zb(p) == 790000000,
            pm_zg(p) == 110000000,
            p.b.y@ == 60000000,
    ;
    assert(pm_srx(p) == 467400000000000000);
    assert(pm_zg(p) * p.b.x@ - p.g.x@ * pm_zb(p) == -212600000000000000) by (nonlinear_arith)
        requires
            pm_zg(p) == 110000000,
            p.b.x@ == 150000000,
            p.g.x@ == 290000000,
            pm_zb(p) == 790000000,
    ;
    assert(pm_sry(p) == -212600000000000000);
    assert(p.g.x@ * p.b.y@ - p.g.y@ * p.b.x@ == -72600000000000000) by (nonlinear_arith)
        requires
            p.g.x@ == 290000000,
            p.b.y@ == 60000000,
            p.g.y@ == 600000000,
            p.b.x@ == 150000000,
    ;
    assert(pm_srz(p) == -72600000000000000);
    assert(pm_zr(p) * p.b.y@ - p.r.y@ * pm_zb(p) == -258900000000000000) by (nonlinear_arith)
        requires
            pm_zr(p) == 30000000,
            p.b.y@ == 60000000,
            p.r.y@ == 330000000,
            pm_zb(p) == 790000000,
    ;
    assert(pm_sgx(p) == -258900000000000000);
    assert(p.r.y@ * p.b.x@ - p.r.x@ * p.b.y@ == 11100000000000000) by (nonlinear_arith)
        requires
            p.r.y@ == 330000000,
            p.b.x@ == 150000000,
            p.r.x@ == 640000000,
            p.b.y@ == 60000000,
    ;
    assert(pm_sgz(p) == 11100000000000000);
    assert(p.r.x@ * pm_zb(p) - pm_zr(p) * p.b.x@ == 501100000000000000) by (nonlinear_arith)
        requires
            p.r.x@ == 640000000,
            pm_zb(p) == 790000000,
            pm_zr(p) == 30000000,
            p.b.x@ == 150000000,
    ;
    assert(pm_sgy(p) == 501100000000000000);
    assert(p.r.y@ * pm_zg(p) - pm_zr(p) * p.g.y@ == 18300000000000000) by (nonlinear_arith)
        requires
            p.r.y@ == 330000000,
            pm_zg(p) == 110000000,
            pm_zr(p) == 30000000,
            p.g.y@ == 600000000,
    ;
    assert(pm_sbx(p) == 18300000000000000);
    assert(pm_zr(p) * p.g.x@ - p.r.x@ * pm_zg(p) == -61700000000000000) by (nonlinear_arith)
        requires
            pm_zr(p) == 30000000,
            p.g.x@ == 290000000,
            p.r.x@ == 640000000,
            pm_zg(p) == 110000000,
    ;
    assert(pm_sby(p) == -61700000000000000);
    assert(p.r.x@ * p.g.y@ - p.r.y@ * p.g.x@ == 288300000000000000) by (nonlinear_arith)
        requires
            p.r.x@ == 640000000,
            p.g.y@ == 600000000,
            p.r.y@ == 330000000,
            p.g.x@ == 290000000,
    ;
    assert(pm_sbz(p) == 288300000000000000);
    assert(pm_det(p) == 226800000000000000);
    assert(p.wp.x@ * SCALE as int == 312700000000000000) by (nonlinear_arith)
        requires
            p.wp.x@ == 312700000,
    ;
    assert(chroma_big_x(p.wp) == 950455927);
    assert((SCALE as int - p.wp.x@ - p.wp.y@) * SCALE as int == 358300000000000000) by (nonlinear_arith)
        requires
            p.wp.x@ == 312700000,
            p.wp.y@ == 329000000,
    ;
    assert(chroma_big_z(p.wp) == 1089057750);
    assert(pm_srx(p) * chroma_big_x(p.wp) + pm_sry(p) * SCALE as int + pm_srz(p) * chroma_big_z(p.wp) == 152577507629800000000000000) by (nonlinear_arith)
        requires
            pm_srx(p) == 467400000000000000,
            pm_sry(p) == -212600000000000000,
            pm_srz(p) == -72600000000000000,
            chroma_big_x(p.wp) == 950455927,
            chroma_big_z(p.wp) == 1089057750,
    ;
    assert(pm_sr(p) == 152577507629800000000000000);
    assert(pm_sgx(p) * chroma_big_x(p.wp) + pm_sgy(p) * SCALE as int + pm_sgz(p) * chroma_big_z(p.wp) == 267115501524700000000000000) by (nonlinear_arith)
        requires
            pm_sgx(p) == -258900000000000000,
            pm_sgy(p) == 501100000000000000,
            pm_sgz(p) == 11100000000000000,
            chroma_big_x(p.wp) == 950455927,
            chroma_big_z(p.wp) == 1089057750,
    ;
    assert(pm_sg(p) == 267115501524700000000000000);
    assert(pm_sbx(p) * chroma_big_x(p.wp) + pm_sby(p) * SCALE as int + pm_sbz(p) * chroma_big_z(p.wp) == 269668692789100000000000000) by (nonlinear_arith)
        requires
            pm_sbx(p) == 18300000000000000,
            pm_sby(p) == -61700000000000000,
            pm_sbz(p) == 288300000000000000,
            chroma_big_x(p.wp) == 950455927,
            chroma_big_z(p.wp) == 1089057750,
    ;
    assert(pm_sb(p) == 269668692789100000000000000);
    assert(pm_srp(p) == 672740333);
    assert(pm_sgp(p) == 1177757943);
    assert(pm_sbp(p) == 1189015400);
    assert(pm_srp(p) * p.r.x@ == 430553813120000000) by (nonlinear_arith)
        requires
            pm_srp(p) == 672740333,
            p.r.x@ == 640000000,
    ;
    assert(pm_sgp(p) * p.g.x@ == 341549803470000000) by (nonlinear_arith)
        requires
            pm_sgp(p) == 1177757943,
            p.g.x@ == 290000000,
    ;
    assert(pm_sbp(p) * p.b.x@ == 178352310000000000) by (nonlinear_arith)
        requires
            pm_sbp(p) == 1189015400,
            p.b.x@ == 150000000,
    ;
    assert(pm_srp(p) * p.r.y@ == 222004309890000000) by (nonlinear_arith)
        requires
            pm_srp(p) == 672740333,
            p.r.y@ == 330000000,
    ;
    assert(pm_sgp(p) * p.g.y@ == 706654765800000000) by (nonlinear_arith)
        requires
            pm_sgp(p) == 1177757943,
            p.g.y@ == 600000000,
    ;
    assert(pm_sbp(p) * p.b.y@ == 71340924000000000) by (nonlinear_arith)
        requires
            pm_sbp(p) == 1189015400,
            p.b.y@ == 60000000,
    ;
    assert(pm_srp(p) * pm_zr(p) == 20182209990000000) by (nonlinear_arith)
        requires
            pm_srp(p) == 672740333,
            pm_zr(p) == 30000000,
    ;
    assert(pm_sgp(p) * pm_zg(p) == 129553373730000000) by (nonlinear_arith)
        requires
            pm_sgp(p) == 1177757943,
            pm_zg(p) == 110000000,
    ;
    assert(pm_sbp(p) * pm_zb(p) == 939322166000000000) by (nonlinear_arith)
        requires
            pm_sbp(p) == 1189015400,
            pm_zb(p) == 790000000,
    ;
    let a = pm_to_xyz_val(p);
    assert(a.e00 == 430553813);
    assert(a.e01 == 341549803);
    assert(a.e02 == 178352310);
    assert(a.e10 == 222004309);
    assert(a.e11 == 706654765);
    assert(a.e12 == 71340924);
    assert(a.e20 == 20182209);
    assert(a.e21 == 129553373);
    assert(a.e22 == 939322166);
    assert(pm_srx(p) * (SCALE as int * SCALE as int) == 467400000000000000000000000000000000) by (nonlinear_arith)
        requires
            pm_srx(p) == 467400000000000000,
    ;
    assert(pm_sry(p) * (SCALE as int * SCALE as int) == -212600000000000000000000000000000000) by (nonlinear_arith)
        requires
            pm_sry(p) == -212600000000000000,
    ;
    assert(pm_srz(p) * (SCALE as int * SCALE as int) == -72600000000000000000000000000000000) by (nonlinear_arith)
        requires
            pm_srz(p) == -72600000000000000,
    ;
    assert(pm_sgx(p) * (SCALE as int * SCALE as int) == -258900000000000000000000000000000000) by (nonlinear_arith)
        requires
            pm_sgx(p) == -258900000000000000,
    ;
    assert(pm_sgy(p) * (SCALE as int * SCALE as int) == 501100000000000000000000000000000000) by (nonlinear_arith)
        requires
            pm_sgy(p) == 501100000000000000,
    ;
    assert(pm_sgz(p) * (SCALE as int * SCALE as int) == 11100000000000000000000000000000000) by (nonlinear_arith)
        requires
            pm_sgz(p) == 11100000000000000,
    ;
    assert(pm_sbx(p) * (SCALE as int * SCALE as int) == 18300000000000000000000000000000000) by (nonlinear_arith)
        requires
            pm_sbx(p) == 18300000000000000,
    ;
    assert(pm_sby(p) * (SCALE as int * SCALE as int) == -61700000000000000000000000000000000) by (nonlinear_arith)
        requires
            pm_sby(p) == -61700000000000000,
    ;
    assert(pm_sbz(p) * (SCALE as int * SCALE as int) == 288300000000000000000000000000000000) by (nonlinear_arith)
        requires
            pm_sbz(p) == 288300000000000000,
    ;
    let b = pm_from_val(p);
    assert(b.e00 == 3063361089);
    assert(b.e01 == -1393390174);
    assert(b.e02 == -475823737);
    assert(b.e10 == -969243636);
    assert(b.e11 == 1875967501);
    assert(b.e12 == 41555057);
    assert(b.e20 == 67861047);
    assert(b.e21 == -228799269);
    assert(b.e22 == 1069089618);
    assert(a.e03 == 0 && a.e13 == 0 && a.e23 == 0);
    assert(b.e03 == 0 && b.e13 == 0 && b.e23 == 0);
    assert(a.e00 * b.e00 + a.e01 * b.e10 + a.e02 * b.e20 == 999999999021447219) by (nonlinear_arith)
        requires
            a.e00 == 430553813,
            a.e01 == 341549803,
            a.e02 == 178352310,
            b.e00 == 3063361089,
            b.e10 == -969243636,
            b.e20 == 67861047,
    ;
    assert(a.e00 * b.e01 + a.e01 * b.e11 + a.e02 * b.e21 == -163942549) by (nonlinear_arith)
        requires
            a.e00 == 430553813,
            a.e01 == 341549803,
            a.e02 == 178352310,
            b.e01 == -1393390174,
            b.e11 == 1875967501,
            b.e21 == -228799269,
    ;
    assert(a.e00 * b.e02 + a.e01 * b.e12 + a.e02 * b.e22 == 218062170) by (nonlinear_arith)
        requires
            a.e00 == 430553813,
            a.e01 == 341549803,
            a.e02 == 178352310,
            b.e02 == -475823737,
            b.e12 == 41555057,
            b.e22 == 1069089618,
    ;
    assert(a.e10 * b.e00 + a.e11 * b.e10 + a.e12 * b.e20 == -2247805611) by (nonlinear_arith)
        requires
            a.e10 == 222004309,
            a.e11 == 706654765,
            a.e12 == 71340924,
            b.e00 == 3063361089,
            b.e10 == -969243636,
            b.e20 == 67861047,
    ;
    assert(a.e10 * b.e01 + a.e11 * b.e11 + a.e12 * b.e21 == 999999999559547943) by (nonlinear_arith)
        requires
            a.e10 == 222004309,
            a.e11 == 706654765,
            a.e12 == 71340924,
            b.e01 == -1393390174,
            b.e11 == 1875967501,
            b.e21 == -228799269,
    ;
    assert(a.e10 * b.e02 + a.e11 * b.e12 + a.e12 * b.e22 == 287340904) by (nonlinear_arith)
        requires
            a.e10 == 222004309,
            a.e11 == 706654765,
            a.e12 == 71340924,
            b.e02 == -475823737,
            b.e12 == 41555057,
            b.e22 == 1069089618,
    ;
    assert(a.e20 * b.e00 + a.e21 * b.e10 + a.e22 * b.e20 == -2906850825) by (nonlinear_arith)
        requires
            a.e20 == 20182209,
            a.e21 == 129553373,
            a.e22 == 939322166,
            b.e00 == 3063361089,
            b.e10 == -969243636,
            b.e20 == 67861047,
    ;
    assert(a.e20 * b.e01 + a.e21 * b.e11 + a.e22 * b.e21 == 746419853) by (nonlinear_arith)
        requires
            a.e20 == 20182209,
            a.e21 == 129553373,
            a.e22 == 939322166,
            b.e01 == -1393390174,
            b.e11 == 1875967501,
            b.e21 == -228799269,
    ;
    assert(a.e20 * b.e02 + a.e21 * b.e12 + a.e22 * b.e22 == 999999999320134816) by (nonlinear_arith)
        requires
            a.e20 == 20182209,
            a.e21 == 129553373,
            a.e22 == 939322166,
            b.e02 == -475823737,
            b.e12 == 41555057,
            b.e22 == 1069089618,
    ;
}

/// Round-trip law witnesses for the Ntsc preset.
#[verifier::rlimit(100)]
#[verifier::spinoff_prover]
proof fn lemma_round_trip_ntsc()
    ensures
        pm_ok(named_primaries_spec(NamedPrimaries::Ntsc)),
        mat_close(
            ms_mul(
                pm_to_xyz_val(named_primaries_spec(NamedPrimaries::Ntsc)),
                pm_from_val(named_primaries_spec(NamedPrimaries::Ntsc)),
            ),
            ms_identity(),
            ROUND_TRIP_TOL as int,
        ),
{
    let p = named_primaries_spec(NamedPrimaries::Ntsc);
    lemma_tdiv_eq(0, 1000000000, 0, 0);
    lemma_tdiv_eq(128340538, 1000000000, 0, 128340538);
    lemma_tdiv_eq(205538926, 1000000000, 0, 205538926);
    lemma_tdiv_eq(264653673, 1000000000, 0, 264653673);
    lemma_tdiv_eq(675895754, 1000000000, 0, 675895754);
    lemma_tdiv_eq(1334367182, 1000000000, 1, 334367182);
    lemma_tdiv_eq(2211263732, 1000000000, 2, 211263732);
    lemma_tdiv_eq(18739090650000000, 1000000000, 18739090, 650000000);
    lemma_tdiv_eq(86563782270000000, 1000000000, 86563782, 270000000);
    lemma_tdiv_eq(111933926700000000, 1000000000, 111933926, 700000000);
    lemma_tdiv_eq(191676946455000000, 1000000000, 191676946, 455000000);
    lemma_tdiv_eq(212376360700000000, 1000000000, 212376360, 700000000);
    lemma_tdiv_eq(312700000000000000, 329000000, 950455927, 17000000);
    lemma_tdiv_eq(358300000000000000, 329000000, 1089057750, 250000000);
    lemma_tdiv_eq(365258076600000000, 1000000000, 365258076, 600000000);
    lemma_tdiv_eq(393520903650000000, 1000000000, 393520903, 650000000);
    lemma_tdiv_eq(701059856700000000, 1000000000, 701059856, 700000000);
    lemma_tdiv_eq(958384732275000000, 1000000000, 958384732, 275000000);
    lemma_tdiv_eq(999999997909797345, 1000000000, 999999997, 909797345);
    lemma_tdiv_eq(999999999305336564, 1000000000, 999999999, 305336564);
    lemma_tdiv_eq(999999999603805702, 1000000000, 999999999, 603805702);
    lemma_tdiv_eq(129627659604575000000000000, 207525000000000000, 624636355, 33200000000000000);
    lemma_tdiv_eq(244516717332200000000000000, 207525000000000000, 1178251860, 85700000000000000);
    lemma_tdiv_eq(256630698882650000000000000, 207525000000000000, 1236625461, 88625000000000000);
    lemma_tdiv_eq(8600000000000000000000000000000000, 244516717332200000000000000, 35171419, 82204631608200000000000000);
    lemma_tdiv_eq(14450000000000000000000000000000000, 256630698882650000000000000, 56306591, 199970469453850000000000000);
    lemma_tdiv_eq(50550000000000000000000000000000000, 256630698882650000000000000, 196975654, 251112946996900000000000000);
    lemma_tdiv_eq(70525000000000000000000000000000000, 129627659604575000000000000, 544058268, 30641360623900000000000000);
    lemma_tdiv_eq(225525000000000000000000000000000000, 129627659604575000000000000, 1739790725, 116503247433125000000000000);
    lemma_tdiv_eq(261400000000000000000000000000000000, 244516717332200000000000000, 1069047559, 201318597900200000000000000);
    lemma_tdiv_eq(269450000000000000000000000000000000, 256630698882650000000000000, 1049952329, 15263934808150000000000000);
    lemma_tdiv_eq(454475000000000000000000000000000000, 129627659604575000000000000, 3506003281, 118008887389425000000000000);
    lemma_tdiv_eq(483600000000000000000000000000000000, 244516717332200000000000000, 1977778882, 164411461399600000000000000);
    assert(p.g.y@ * pm_zb(p) - pm_zg(p) * p.b.y@ == 454475000000000000) by (nonlinear_arith)
        requires
            p.g.y@ == 595000000,
            pm_zb(p) == 775000000,
            pm_zg(p) == 95000000,
            p.b.y@ == 70000000,
    ;
    assert(pm_srx(p) == 454475000000000000);
    assert(pm_zg(p) * p.b.x@ - p.g.x@ * pm_zb(p) == -225525000000000000) by (nonlinear_arith)
        requires
            pm_zg(p) == 95000000,
            p.b.x@ == 155000000,
            p.g.x@ == 310000000,
            pm_zb(p) == 775000000,
    ;
    assert(pm_sry(p) == -225525000000000000);
    assert(p.g.x@ * p.b.y@ - p.g.y@ * p.b.x@ == -70525000000000000) by (nonlinear_arith)
        requires
            p.g.x@ == 310000000,
            p.b.y@ == 70000000,
            p.g.y@ == 595000000,
            p.b.x@ == 155000000,
    ;
    assert(pm_srz(p) == -70525000000000000);
    assert(pm_zr(p) * p.b.y@ - p.r.y@ * pm_zb(p) == -261400000000000000) by (nonlinear_arith)
        requires
            pm_zr(p) == 30000000,
            p.b.y@ == 70000000,
            p.r.y@ == 340000000,
            pm_zb(p) == 775000000,
    ;
    assert(pm_sgx(p) == -261400000000000000);
    assert(p.r.y@ * p.b.x@ - p.r.x@ * p.b.y@ == 8600000000000000) by (nonlinear_arith)
        requires
            p.r.y@ == 340000000,
            p.b.x@ == 155000000,
            p.r.x@ == 630000000,
            p.b.y@ == 70000000,
    ;
    assert(pm_sgz(p) == 8600000000000000);
    assert(p.r.x@ * pm_zb(p) - pm_zr(p) * p.b.x@ == 483600000000000000) by (nonlinear_arith)
        requires
            p.r.x@ == 630000000,
            pm_zb(p) == 775000000,
            pm_zr(p) == 30000000,
            p.b.x@ == 155000000,
    ;
    assert(pm_sgy(p) == 483600000000000000);
    assert(p.r.y@ * pm_zg(p) - pm_zr(p) * p.g.y@ == 14450000000000000) by (nonlinear_arith)
        requires
            p.r.y@ == 340000000,
            pm_zg(p) == 95000000,
            pm_zr(p) == 30000000,
            p.g.y@ == 595000000,
    ;
    assert(pm_sbx(p) == 14450000000000000);
    assert(pm_zr(p) * p.g.x@ - p.r.x@ * pm_zg(p) == -50550000000000000) by (nonlinear_arith)
        requires
            pm_zr(p) == 30000000,
            p.g.x@ == 310000000,
            p.r.x@ == 630000000,
            pm_zg(p) == 95000000,
    ;
    assert(pm_sby(p) == -50550000000000000);
    assert(p.r.x@ * p.g.y@ - p.r.y@ * p.g.x@ == 269450000000000000) by (nonlinear_arith)
        requires
            p.r.x@ == 630000000,
            p.g.y@ == 595000000,
            p.r.y@ == 340000000,
            p.g.x@ == 310000000,
    ;
    assert(pm_sbz(p) == 269450000000000000);
    assert(pm_det(p) == 207525000000000000);
    assert(p.wp.x@ * SCALE as int == 312700000000000000) by (nonlinear_arith)
        requires
            p.wp.x@ == 312700000,
    ;
    assert(chroma_big_x(p.wp) == 950455927);
    assert((SCALE as int - p.wp.x@ - p.wp.y@) * SCALE as int == 358300000000000000) by (nonlinear_arith)
        requires
            p.wp.x@ == 312700000,
            p.wp.y@ == 329000000,
    ;
    assert(chroma_big_z(p.wp) == 1089057750);
    assert(pm_srx(p) * chroma_big_x(p.wp) + pm_sry(p) * SCALE as int + pm_srz(p) * chroma_big_z(p.wp) == 129627659604575000000000000) by (nonlinear_arith)
        requires
            pm_srx(p) == 454475000000000000,
            pm_sry(p) == -225525000000000000,
            pm_srz(p) == -70525000000000000,
            chroma_big_x(p.wp) == 950455927,
            chroma_big_z(p.wp) == 1089057750,
    ;
    assert(pm_sr(p) == 129627659604575000000000000);
    assert(pm_sgx(p) * chroma_big_x(p.wp) + pm_sgy(p) * SCALE as int + pm_sgz(p) * chroma_big_z(p.wp) == 244516717332200000000000000) by (nonlinear_arith)
        requires
            pm_sgx(p) == -261400000000000000,
            pm_sgy(p) == 483600000000000000,
            pm_sgz(p) == 8600000000000000,
            chroma_big_x(p.wp) == 950455927,
            chroma_big_z(p.wp) == 1089057750,
    ;
    assert(pm_sg(p) == 244516717332200000000000000);
    assert(pm_sbx(p) * chroma_big_x(p.wp) + pm_sby(p) * SCALE as int + pm_sbz(p) * chroma_big_z(p.wp) == 256630698882650000000000000) by (nonlinear_arith)
        requires
            pm_sbx(p) == 14450000000000000,
            pm_sby(p) == -50550000000000000,
            pm_sbz(p) == 269450000000000000,
            chroma_big_x(p.wp) == 950455927,
            chroma_big_z(p.wp) == 1089057750,
    ;
    assert(pm_sb(p) == 256630698882650000000000000);
    assert(pm_srp(p) == 624636355);
    assert(pm_sgp(p) == 1178251860);
    assert(pm_sbp(p) == 1236625461);
    assert(pm_srp(p) * p.r.x@ == 393520903650000000) by (nonlinear_arith)
        requires
            pm_srp(p) == 624636355,
            p.r.x@ == 630000000,
    ;
    assert(pm_sgp(p) * p.g.x@ == 365258076600000000) by (nonlinear_arith)
        requires
            pm_sgp(p) == 1178251860,
            p.g.x@ == 310000000,
    ;
    assert(pm_sbp(p) * p.b.x@ == 191676946455000000) by (nonlinear_arith)
        requires
            pm_sbp(p) == 1236625461,
            p.b.x@ == 155000000,
    ;
    assert(pm_srp(p) * p.r.y@ == 212376360700000000) by (nonlinear_arith)
        requires
            pm_srp(p) == 624636355,
            p.r.y@ == 340000000,
    ;
    assert(pm_sgp(p) * p.g.y@ == 701059856700000000) by (nonlinear_arith)
        requires
            pm_sgp(p) == 1178251860,
            p.g.y@ == 595000000,
    ;
    assert(pm_sbp(p) * p.b.y@ == 86563782270000000) by (nonlinear_arith)
        requires
            pm_sbp(p) == 1236625461,
            p.b.y@ == 70000000,
    ;
    assert(pm_srp(p) * pm_zr(p) == 18739090650000000) by (nonlinear_arith)
        requires
            pm_srp(p) == 624636355,
            pm_zr(p) == 30000000,
    ;
    assert(pm_sgp(p) * pm_zg(p) == 111933926700000000) by (nonlinear_arith)
        requires
            pm_sgp(p) == 1178251860,
            pm_zg(p) == 95000000,
    ;
    assert(pm_sbp(p) * pm_zb(p) == 958384732275000000) by (nonlinear_arith)
        requires
            pm_sbp(p) == 1236625461,
            pm_zb(p) == 775000000,
    ;
    let a = pm_to_xyz_val(p);
    assert(a.e00 == 393520903);
    assert(a.e01 == 365258076);
    assert(a.e02 == 191676946);
    assert(a.e10 == 212376360);
    assert(a.e11 == 701059856);
    assert(a.e12 == 86563782);
    assert(a.e20 == 18739090);
    assert(a.e21 == 111933926);
    assert(a.e22 == 958384732);
    assert(pm_srx(p) * (SCALE as int * SCALE as int) == 454475000000000000000000000000000000) by (nonlinear_arith)
        requires
            pm_srx(p) == 454475000000000000,
    ;
    assert(pm_sry(p) * (SCALE as int * SCALE as int) == -225525000000000000000000000000000000) by (nonlinear_arith)
        requires
            pm_sry(p) == -225525000000000000,
    ;
    assert(pm_srz(p) * (SCALE as int * SCALE as int) == -70525000000000000000000000000000000) by (nonlinear_arith)
        requires
            pm_srz(p) == -70525000000000000,
    ;
    assert(pm_sgx(p) * (SCALE as int * SCALE as int) == -261400000000000000000000000000000000) by (nonlinear_arith)
        requires
            pm_sgx(p) == -261400000000000000,
    ;
    assert(pm_sgy(p) * (SCALE as int * SCALE as int) == 483600000000000000000000000000000000) by (nonlinear_arith)
        requires
            pm_sgy(p) == 483600000000000000,
    ;
    assert(pm_sgz(p) * (SCALE as int * SCALE as int) == 8600000000000000000000000000000000) by (nonlinear_arith)
        requires
            pm_sgz(p) == 8600000000000000,
    ;
    assert(pm_sbx(p) * (SCALE as int * SCALE as int) == 14450000000000000000000000000000000) by (nonlinear_arith)
        requires
            pm_sbx(p) == 14450000000000000,
    ;
    assert(pm_sby(p) * (SCALE as int * SCALE as int) == -50550000000000000000000000000000000) by (nonlinear_arith)
        requires
            pm_sby(p) == -50550000000000000,
    ;
    assert(pm_sbz(p) * (SCALE as int * SCALE as int) == 269450000000000000000000000000000000) by (nonlinear_arith)
        requires
            pm_sbz(p) == 269450000000000000,
    ;
    let b = pm_from_val(p);
    assert(b.e00 == 3506003281);
    assert(b.e01 == -1739790725);
    assert(b.e02 == -544058268);
    assert(b.e10 == -1069047559);
    assert(b.e11 == 1977778882);
    assert(b.e12 == 35171419);
    assert(b.e20 == 56306591);
    assert(b.e21 == -196975654);
    assert(b.e22 == 1049952329);
    assert(a.e03 == 0 && a.e13 == 0 && a.e23 == 0);
    assert(b.e03 == 0 && b.e13 == 0 && b.e23 == 0);
    assert(a.e00 * b.e00 + a.e01 * b.e10 + a.e02 * b.e20 == 999999997909797345) by (nonlinear_arith)
        requires
            a.e00 == 393520903,
            a.e01 == 365258076,
            a.e02 == 191676946,
            b.e00 == 3506003281,
            b.e10 == -1069047559,
            b.e20 == 56306591,
    ;
    assert(a.e00 * b.e01 + a.e01 * b.e11 + a.e02 * b.e21 == 264653673) by (nonlinear_arith)
        requires
            a.e00 == 393520903,
            a.e01 == 365258076,
            a.e02 == 191676946,
            b.e01 == -1739790725,
            b.e11 == 1977778882,
            b.e21 == -196975654,
    ;
    assert(a.e00 * b.e02 + a.e01 * b.e12 + a.e02 * b.e22 == -205538926) by (nonlinear_arith)
        requires
            a.e00 == 393520903,
            a.e01 == 365258076,
            a.e02 == 191676946,
            b.e02 == -544058268,
            b.e12 == 35171419,
            b.e22 == 1049952329,
    ;
    assert(a.e10 * b.e00 + a.e11 * b.e10 + a.e12 * b.e20 == -1334367182) by (nonlinear_arith)
        requires
            a.e10 == 212376360,
            a.e11 == 701059856,
            a.e12 == 86563782,
            b.e00 == 3506003281,
            b.e10 == -1069047559,
            b.e20 == 56306591,
    ;
    assert(a.e10 * b.e01 + a.e11 * b.e11 + a.e12 * b.e21 == 999999999305336564) by (nonlinear_arith)
        requires
            a.e10 == 212376360,
            a.e11 == 701059856,
            a.e12 == 86563782,
            b.e01 == -1739790725,
            b.e11 == 1977778882,
            b.e21 == -196975654,
    ;
    assert(a.e10 * b.e02 + a.e11 * b.e12 + a.e12 * b.e22 == -128340538) by (nonlinear_arith)
        requires
            a.e10 == 212376360,
            a.e11 == 701059856,
            a.e12 == 86563782,
            b.e02 == -544058268,
            b.e12 == 35171419,
            b.e22 == 1049952329,
    ;
    assert(a.e20 * b.e00 + a.e21 * b.e10 + a.e22 * b.e20 == -2211263732) by (nonlinear_arith)
        requires
            a.e20 == 18739090,
            a.e21 == 111933926,
            a.e22 == 958384732,
            b.e00 == 3506003281,
            b.e10 == -1069047559,
            b.e20 == 56306591,
    ;
    assert(a.e20 * b.e01 + a.e21 * b.e11 + a.e22 * b.e21 == 675895754) by (nonlinear_arith)
        requires
            a.e20 == 18739090,
            a.e21 == 111933926,
            a.e22 == 958384732,
            b.e01 == -1739790725,
            b.e11 == 1977778882,
            b.e21 == -196975654,
    ;
    assert(a.e20 * b.e02 + a.e21 * b.e12 + a.e22 * b.e22 == 999999999603805702) by (nonlinear_arith)
        requires
            a.e20 == 18739090,
            a.e21 == 111933926,
            a.e22 == 958384732,
            b.e02 == -544058268,
            b.e12 == 35171419,
            b.e22 == 1049952329,
    ;
}

/// Round-trip law witnesses for the GenericFilm preset.
#[verifier::rlimit(100)]
#[verifier::spinoff_prover]
proof fn lemma_round_trip_genericfilm()
    ensures
        pm_ok(named_primaries_spec(NamedPrimaries::GenericFilm)),
        mat_close(
            ms_mul(
                pm_to_xyz_val(named_primaries_spec(NamedPrimaries::GenericFilm)),
                pm_from_val(named_primaries_spec(NamedPrimaries::GenericFilm)),
            ),
            ms_identity(),
            ROUND_TRIP_TOL as int,
        ),
{
    let p = named_primaries_spec(NamedPrimaries::GenericFilm);
    lemma_tdiv_eq(0, 1000000000, 0, 0);
    lemma_tdiv_eq(10764773, 1000000000, 0, 10764773);
    lemma_tdiv_eq(30163729, 1000000000, 0, 30163729);
    lemma_tdiv_eq(210958932, 1000000000, 0, 210958932);
    lemma_tdiv_eq(232824858, 1000000000, 0, 232824858);
    lemma_tdiv_eq(429642836, 1000000000, 0, 429642836);
    lemma_tdiv_eq(672326659, 1000000000, 0, 672326659);
    lemma_tdiv_eq(63716510715000000, 1000000000, 63716510, 715000000);
    lemma_tdiv_eq(68078860794000000, 1000000000, 68078860, 794000000);
    lemma_tdiv_eq(201457853370000000, 1000000000, 201457853, 370000000);
    lemma_tdiv_eq(238201724673000000, 1000000000, 238201724, 673000000);
    lemma_tdiv_eq(253585363317000000, 1000000000, 253585363, 317000000);
    lemma_tdiv_eq(310000000000000000, 316000000, 981012658, 72000000);
    lemma_tdiv_eq(374000000000000000, 316000000, 1183544303, 252000000);
    lemma_tdiv_eq(541353079683000000, 1000000000, 541353079, 683000000);
    lemma_tdiv_eq(678335775612000000, 1000000000, 678335775, 612000000);
    lemma_tdiv_eq(999999998564252296, 1000000000, 999999998, 564252296);
    lemma_tdiv_eq(999999998642466068, 1000000000, 999999998, 642466068);
    lemma_tdiv_eq(999999998778097071, 1000000000, 999999998, 778097071);
    lemma_tdiv_eq(1119827791836000000, 1000000000, 1119827791, 836000000);
    lemma_tdiv_eq(252939873361887000000000000, 318188000000000000, 794938443, 60603000000000000);
    lemma_tdiv_eq(311905063339446000000000000, 318188000000000000, 980254011, 87378000000000000);
    lemma_tdiv_eq(442079113605335000000000000, 318188000000000000, 1389364506, 170207000000000000);
    lemma_tdiv_eq(12886000000000000000000000000000000, 311905063339446000000000000, 41313853, 63238438854562000000000000);
    lemma_tdiv_eq(20735000000000000000000000000000000, 442079113605335000000000000, 46903369, 207376052126385000000000000);
    lemma_tdiv_eq(44265000000000000000000000000000000, 442079113605335000000000000, 100129136, 311051961459440000000000000);
    lemma_tdiv_eq(88433000000000000000000000000000000, 252939873361887000000000000, 349620638, 99577862176094000000000000);
    lemma_tdiv_eq(186433000000000000000000000000000000, 252939873361887000000000000, 737064494, 228096679459822000000000000);
    lemma_tdiv_eq(257114000000000000000000000000000000, 311905063339446000000000000, 824334165, 52805670027410000000000000);
    lemma_tdiv_eq(393735000000000000000000000000000000, 442079113605335000000000000, 890643751, 19789301988415000000000000);
    lemma_tdiv_eq(548886000000000000000000000000000000, 311905063339446000000000000, 1759785474, 268192997992596000000000000);
    lemma_tdiv_eq(554567000000000000000000000000000000, 252939873361887000000000000, 2192485481, 88084093737353000000000000);
    assert(p.g.y@ * pm_zb(p) - pm_zg(p) * p.b.y@ == 554567000000000000) by (nonlinear_arith)
        requires
            p.g.y@ == 692000000,
            pm_zb(p) == 806000000,
            pm_zg(p) == 65000000,
            p.b.y@ == 49000000,
    ;
    assert(pm_srx(p) == 554567000000000000);
    assert(pm_zg(p) * p.b.x@ - p.g.x@ * pm_zb(p) == -186433000000000000) by (nonlinear_arith)
        requires
            pm_zg(p) == 65000000,
            p.b.x@ == 145000000,
            p.g.x@ == 243000000,
            pm_zb(p) == 806000000,
    ;
    assert(pm_sry(p) == -186433000000000000);
    assert(p.g.x@ * p.b.y@ - p.g.y@ * p.b.x@ == -88433000000000000) by (nonlinear_arith)
        requires
            p.g.x@ == 243000000,
            p.b.y@ == 49000000,
            p.g.y@ == 692000000,
            p.b.x@ == 145000000,
    ;
    assert(pm_srz(p) == -88433000000000000);
    assert(pm_zr(p) * p.b.y@ - p.r.y@ * pm_zb(p) == -257114000000000000) by (nonlinear_arith)
        requires
            pm_zr(p) == 0,
            p.b.y@ == 49000000,
            p.r.y@ == 319000000,
            pm_zb(p) == 806000000,
    ;
    assert(pm_sgx(p) == -257114000000000000);
    assert(p.r.y@ * p.b.x@ - p.r.x@ * p.b.y@ == 12886000000000000) by (nonlinear_arith)
        requires
            p.r.y@ == 319000000,
            p.b.x@ == 145000000,
            p.r.x@ == 681000000,
            p.b.y@ == 49000000,
    ;
    assert(pm_sgz(p) == 12886000000000000);
    assert(p.r.x@ * pm_zb(p) - pm_zr(p) * p.b.x@ == 548886000000000000) by (nonlinear_arith)
        requires
            p.r.x@ == 681000000,
            pm_zb(p) == 806000000,
            pm_zr(p) == 0,
            p.b.x@ == 145000000,
    ;
    assert(pm_sgy(p) == 548886000000000000);
    assert(p.r.y@ * pm_zg(p) - pm_zr(p) * p.g.y@ == 20735000000000000) by (nonlinear_arith)
        requires
            p.r.y@ == 319000000,
            pm_zg(p) == 65000000,
            pm_zr(p) == 0,
            p.g.y@ == 692000000,
    ;
    assert(pm_sbx(p) == 20735000000000000);
    assert(pm_zr(p) * p.g.x@ - p.r.x@ * pm_zg(p) == -44265000000000000) by (nonlinear_arith)
        requires
            pm_zr(p) == 0,
            p.g.x@ == 243000000,
            p.r.x@ == 681000000,
            pm_zg(p) == 65000000,
    ;
    assert(pm_sby(p) == -44265000000000000);
    assert(p.r.x@ * p.g.y@ - p.r.y@ * p.g.x@ == 393735000000000000) by (nonlinear_arith)
        requires
            p.r.x@ == 681000000,
            p.g.y@ == 692000000,
            p.r.y@ == 319000000,
            p.g.x@ == 243000000,
    ;
    assert(pm_sbz(p) == 393735000000000000);
    assert(pm_det(p) == 318188000000000000);
    assert(p.wp.x@ * SCALE as int == 310000000000000000) by (nonlinear_arith)
        requires
            p.wp.x@ == 310000000,
    ;
    assert(chroma_big_x(p.wp) == 981012658);
    assert((SCALE as int - p.wp.x@ - p.wp.y@) * SCALE as int == 374000000000000000) by (nonlinear_arith)
        requires
            p.wp.x@ == 310000000,
            p.wp.y@ == 316000000,
    ;
    assert(chroma_big_z(p.wp) == 1183544303);
    assert(pm_srx(p) * chroma_big_x(p.wp) + pm_sry(p) * SCALE as int + pm_srz(p) * chroma_big_z(p.wp) == 252939873361887000000000000) by (nonlinear_arith)
        requires
            pm_srx(p) == 554567000000000000,
            pm_sry(p) == -186433000000000000,
            pm_srz(p) == -88433000000000000,
            chroma_big_x(p.wp) == 981012658,
            chroma_big_z(p.wp) == 1183544303,
    ;
    assert(pm_sr(p) == 252939873361887000000000000);
    assert(pm_sgx(p) * chroma_big_x(p.wp) + pm_sgy(p) * SCALE as int + pm_sgz(p) * chroma_big_z(p.wp) == 311905063339446000000000000) by (nonlinear_arith)
        requires
            pm_sgx(p) == -257114000000000000,
            pm_sgy(p) == 548886000000000000,
            pm_sgz(p) == 12886000000000000,
            chroma_big_x(p.wp) == 981012658,
            chroma_big_z(p.wp) == 1183544303,
    ;
    assert(pm_sg(p) == 311905063339446000000000000);
    assert(pm_sbx(p) * chroma_big_x(p.wp) + pm_sby(p) * SCALE as int + pm_sbz(p) * chroma_big_z(p.wp) == 442079113605335000000000000) by (nonlinear_arith)
        requires
            pm_sbx(p) == 20735000000000000,
            pm_sby(p) == -44265000000000000,
            pm_sbz(p) == 393735000000000000,
            chroma_big_x(p.wp) == 981012658,
            chroma_big_z(p.wp) == 1183544303,
    ;
    assert(pm_sb(p) == 442079113605335000000000000);
    assert(pm_srp(p) == 794938443);
    assert(pm_sgp(p) == 980254011);
    assert(pm_sbp(p) == 1389364506);
    assert(pm_srp(p) * p.r.x@ == 541353079683000000) by (nonlinear_arith)
        requires
            pm_srp(p) == 794938443,
            p.r.x@ == 681000000,
    ;
    assert(pm_sgp(p) * p.g.x@ == 238201724673000000) by (nonlinear_arith)
        requires
            pm_sgp(p) == 980254011,
            p.g.x@ == 243000000,
    ;
    assert(pm_sbp(p) * p.b.x@ == 201457853370000000) by (nonlinear_arith)
        requires
            pm_sbp(p) == 1389364506,
            p.b.x@ == 145000000,
    ;
    assert(pm_srp(p) * p.r.y@ == 253585363317000000) by (nonlinear_arith)
        requires
            pm_srp(p) == 794938443,
            p.r.y@ == 319000000,
    ;
    assert(pm_sgp(p) * p.g.y@ == 678335775612000000) by (nonlinear_arith)
        requires
            pm_sgp(p) == 980254011,
            p.g.y@ == 692000000,
    ;
    assert(pm_sbp(p) * p.b.y@ == 68078860794000000) by (nonlinear_arith)
        requires
            pm_sbp(p) == 1389364506,
            p.b.y@ == 49000000,
    ;
    assert(pm_srp(p) * pm_zr(p) == 0) by (nonlinear_arith)
        requires
            pm_srp(p) == 794938443,
            pm_zr(p) == 0,
    ;
    assert(pm_sgp(p) * pm_zg(p) == 63716510715000000) by (nonlinear_arith)
        requires
            pm_sgp(p) == 980254011,
            pm_zg(p) == 65000000,
    ;
    assert(pm_sbp(p) * pm_zb(p) == 1119827791836000000) by (nonlinear_arith)
        requires
            pm_sbp(p) == 1389364506,
            pm_zb(p) == 806000000,
    ;
    let a = pm_to_xyz_val(p);
    assert(a.e00 == 541353079);
    assert(a.e01 == 238201724);
    assert(a.e02 == 201457853);
    assert(a.e10 == 253585363);
    assert(a.e11 == 678335775);
    assert(a.e12 == 68078860);
    assert(a.e20 == 0);
    assert(a.e21 == 63716510);
    assert(a.e22 == 1119827791);
    assert(pm_srx(p) * (SCALE as int * SCALE as int) == 554567000000000000000000000000000000) by (nonlinear_arith)
        requires
            pm_srx(p) == 554567000000000000,
    ;
    assert(pm_sry(p) * (SCALE as int * SCALE as int) == -186433000000000000000000000000000000) by (nonlinear_arith)
        requires
            pm_sry(p) == -186433000000000000,
    ;
    assert(pm_srz(p) * (SCALE as int * SCALE as int) == -88433000000000000000000000000000000) by (nonlinear_arith)
        requires
            pm_srz(p) == -88433000000000000,
    ;
    assert(pm_sgx(p) * (SCALE as int * SCALE as int) == -257114000000000000000000000000000000) by (nonlinear_arith)
        requires
            pm_sgx(p) == -257114000000000000,
    ;
    assert(pm_sgy(p) * (SCALE as int * SCALE as int) == 548886000000000000000000000000000000) by (nonlinear_arith)
        requires
            pm_sgy(p) == 548886000000000000,
    ;
    assert(pm_sgz(p) * (SCALE as int * SCALE as int) == 12886000000000000000000000000000000) by (nonlinear_arith)
        requires
            pm_sgz(p) == 12886000000000000,
    ;
    assert(pm_sbx(p) * (SCALE as int * SCALE as int) == 20735000000000000000000000000000000) by (nonlinear_arith)
        requires
            pm_sbx(p) == 20735000000000000,
    ;
    assert(pm_sby(p) * (SCALE as int * SCALE as int) == -44265000000000000000000000000000000) by (nonlinear_arith)
        requires
            pm_sby(p) == -44265000000000000,
    ;
    assert(pm_sbz(p) * (SCALE as int * SCALE as int) == 393735000000000000000000000000000000) by (nonlinear_arith)
        requires
            pm_sbz(p) == 393735000000000000,
    ;
    let b = pm_from_val(p);
    assert(b.e00 == 2192485481);
    assert(b.e01 == -737064494);
    assert(b.e02 == -349620638);
    assert(b.e10 == -824334165);
    assert(b.e11 == 1759785474);
    assert(b.e12 == 41313853);
    assert(b.e20 == 46903369);
    assert(b.e21 == -100129136);
    assert(b.e22 == 890643751);
    assert(a.e03 == 0 && a.e13 == 0 && a.e23 == 0);
    assert(b.e03 == 0 && b.e13 == 0 && b.e23 == 0);
    assert(a.e00 * b.e00 + a.e01 * b.e10 + a.e02 * b.e20 == 999999998564252296) by (nonlinear_arith)
        requires
            a.e00 == 541353079,
            a.e01 == 238201724,
            a.e02 == 201457853,
            b.e00 == 2192485481,
            b.e10 == -824334165,
            b.e20 == 46903369,
    ;
    assert(a.e00 * b.e01 + a.e01 * b.e11 + a.e02 * b.e21 == -232824858) by (nonlinear_arith)
        requires
            a.e00 == 541353079,
            a.e01 == 238201724,
            a.e02 == 201457853,
            b.e01 == -737064494,
            b.e11 == 1759785474,
            b.e21 == -100129136,
    ;
    assert(a.e00 * b.e02 + a.e01 * b.e12 + a.e02 * b.e22 == 10764773) by (nonlinear_arith)
        requires
            a.e00 == 541353079,
            a.e01 == 238201724,
            a.e02 == 201457853,
            b.e02 == -349620638,
            b.e12 == 41313853,
            b.e22 == 890643751,
    ;
    assert(a.e10 * b.e00 + a.e11 * b.e10 + a.e12 * b.e20 == -210958932) by (nonlinear_arith)
        requires
            a.e10 == 253585363,
            a.e11 == 678335775,
            a.e12 == 68078860,
            b.e00 == 2192485481,
            b.e10 == -824334165,
            b.e20 == 46903369,
    ;
    assert(a.e10 * b.e01 + a.e11 * b.e11 + a.e12 * b.e21 == 999999998642466068) by (nonlinear_arith)
        requires
            a.e10 == 253585363,
            a.e11 == 678335775,
            a.e12 == 68078860,
            b.e01 == -737064494,
            b.e11 == 1759785474,
            b.e21 == -100129136,
    ;
    assert(a.e10 * b.e02 + a.e11 * b.e12 + a.e12 * b.e22 == -672326659) by (nonlinear_arith)
        requires
            a.e10 == 253585363,
            a.e11 == 678335775,
            a.e12 == 68078860,
            b.e02 == -349620638,
            b.e12 == 41313853,
            b.e22 == 890643751,
    ;
    assert(a.e20 * b.e00 + a.e21 * b.e10 + a.e22 * b.e20 == 30163729) by (nonlinear_arith)
        requires
            a.e20 == 0,
            a.e21 == 63716510,
            a.e22 == 1119827791,
            b.e00 == 2192485481,
            b.e10 == -824334165,
            b.e20 == 46903369,
    ;
    assert(a.e20 * b.e01 + a.e21 * b.e11 + a.e22 * b.e21 == -429642836) by (nonlinear_arith)
        requires
            a.e20 == 0,
            a.e21 == 63716510,
            a.e22 == 1119827791,
            b.e01 == -737064494,
            b.e11 == 1759785474,
            b.e21 == -100129136,
    ;
    assert(a.e20 * b.e02 + a.e21 * b.e12 + a.e22 * b.e22 == 999999998778097071) by (nonlinear_arith)
        requires
            a.e20 == 0,
            a.e21 == 63716510,
            a.e22 == 1119827791,
            b.e02 == -349620638,
            b.e12 == 41313853,
            b.e22 == 890643751,
    ;
}

/// Round-trip law witnesses for the Bt2020 preset.
#[verifier::rlimit(100)]
#[verifier::spinoff_prover]
proof fn lemma_round_trip_bt2020()
    ensures
        pm_ok(named_primaries_spec(NamedPrimaries::Bt2020)),
        mat_close(
            ms_mul(
                pm_to_xyz_val(named_primaries_spec(NamedPrimaries::Bt2020)),
                pm_from_val(named_primaries_spec(NamedPrimaries::Bt2020)),
            ),
            ms_identity(),
            ROUND_TRIP_TOL as int,
        ),
{
    let p = named_primaries_spec(NamedPrimaries::Bt2020);
    lemma_tdiv_eq(0, 1000000000, 0, 0);
    lemma_tdiv_eq(249529220, 1000000000, 0, 249529220);
    lemma_tdiv_eq(344396538, 1000000000, 0, 344396538);
    lemma_tdiv_eq(446550251, 1000000000, 0, 446550251);
    lemma_tdiv_eq(662252960, 1000000000, 0, 662252960);
    lemma_tdiv_eq(949143499, 1000000000, 0, 949143499);
    lemma_tdiv_eq(1115491852, 1000000000, 1, 115491852);
    lemma_tdiv_eq(28072693044000000, 1000000000, 28072693, 44000000);
    lemma_tdiv_eq(59301716408000000, 1000000000, 59301716, 408000000);
    lemma_tdiv_eq(144616903560000000, 1000000000, 144616903, 560000000);
    lemma_tdiv_eq(168880974988000000, 1000000000, 168880974, 988000000);
    lemma_tdiv_eq(262700211920000000, 1000000000, 262700211, 920000000);
    lemma_tdiv_eq(312700000000000000, 329000000, 950455927, 17000000);
    lemma_tdiv_eq(358300000000000000, 329000000, 1089057750, 250000000);
    lemma_tdiv_eq(636958048080000000, 1000000000, 636958048, 80000000);
    lemma_tdiv_eq(677998071396000000, 1000000000, 677998071, 396000000);
    lemma_tdiv_eq(999999998114801461, 1000000000, 999999998, 114801461);
    lemma_tdiv_eq(999999999279598741, 1000000000, 999999999, 279598741);
    lemma_tdiv_eq(999999999329788635, 1000000000, 999999999, 329788635);
    lemma_tdiv_eq(1060985056604000000, 1000000000, 1060985056, 604000000);
    lemma_tdiv_eq(360464437698068000000000000, 423733000000000000, 850687668, 73424000000000000);
    lemma_tdiv_eq(381214893656601000000000000, 423733000000000000, 899658260, 172021000000000000);
    lemma_tdiv_eq(546262917541572000000000000, 423733000000000000, 1289167748, 178288000000000000);
    lemma_tdiv_eq(5684000000000000000000000000000000, 360464437698068000000000000, 15768545, 293258318328940000000000000);
    lemma_tdiv_eq(9636000000000000000000000000000000, 546262917541572000000000000, 17639857, 250163878364796000000000000);
    lemma_tdiv_eq(23364000000000000000000000000000000, 546262917541572000000000000, 42770613, 157578512576364000000000000);
    lemma_tdiv_eq(96587000000000000000000000000000000, 381214893656601000000000000, 253366281, 132416513529119000000000000);
    lemma_tdiv_eq(135587000000000000000000000000000000, 381214893656601000000000000, 355670783, 281894989211417000000000000);
    lemma_tdiv_eq(240316000000000000000000000000000000, 360464437698068000000000000, 666684351, 294683601466132000000000000);
    lemma_tdiv_eq(514636000000000000000000000000000000, 546262917541572000000000000, 942103121, 497519371553788000000000000);
    lemma_tdiv_eq(582684000000000000000000000000000000, 360464437698068000000000000, 1616481236, 215782044547952000000000000);
    lemma_tdiv_eq(654413000000000000000000000000000000, 381214893656601000000000000, 1716651187, 302317122964613000000000000);
    assert(p.g.y@ * pm_zb(p) - pm_zg(p) * p.b.y@ == 654413000000000000) by (nonlinear_arith)
        requires
            p.g.y@ == 797000000,
            pm_zb(p) == 823000000,
            pm_zg(p) == 33000000,
            p.b.y@ == 46000000,
    ;
    assert(pm_srx(p) == 654413000000000000);
    assert(pm_zg(p) * p.b.x@ - p.g.x@ * pm_zb(p) == -135587000000000000) by (nonlinear_arith)
        requires
            pm_zg(p) == 33000000,
            p.b.x@ == 131000000,
            p.g.x@ == 170000000,
            pm_zb(p) == 823000000,
    ;
    assert(pm_sry(p) == -135587000000000000);
    assert(p.g.x@ * p.b.y@ - p.g.y@ * p.b.x@ == -96587000000000000) by (nonlinear_arith)
        requires
            p.g.x@ == 170000000,
            p.b.y@ == 46000000,
            p.g.y@ == 797000000,
            p.b.x@ == 131000000,
    ;
    assert(pm_srz(p) == -96587000000000000);
    assert(pm_zr(p) * p.b.y@ - p.r.y@ * pm_zb(p) == -240316000000000000) by (nonlinear_arith)
        requires
            pm_zr(p) == 0,
            p.b.y@ == 46000000,
            p.r.y@ == 292000000,
            pm_zb(p) == 823000000,
    ;
    assert(pm_sgx(p) == -240316000000000000);
    assert(p.r.y@ * p.b.x@ - p.r.x@ * p.b.y@ == 5684000000000000) by (nonlinear_arith)
        requires
            p.r.y@ == 292000000,
            p.b.x@ == 131000000,
            p.r.x@ == 708000000,
            p.b.y@ == 46000000,
    ;
    assert(pm_sgz(p) == 5684000000000000);
    assert(p.r.x@ * pm_zb(p) - pm_zr(p) * p.b.x@ == 582684000000000000) by (nonlinear_arith)
        requires
            p.r.x@ == 708000000,
            pm_zb(p) == 823000000,
            pm_zr(p) == 0,
            p.b.x@ == 131000000,
    ;
    assert(pm_sgy(p) == 582684000000000000);
    assert(p.r.y@ * pm_zg(p) - pm_zr(p) * p.g.y@ == 9636000000000000) by (nonlinear_arith)
        requires
            p.r.y@ == 292000000,
            pm_zg(p) == 33000000,
            pm_zr(p) == 0,
            p.g.y@ == 797000000,
    ;
    assert(pm_sbx(p) == 9636000000000000);
    assert(pm_zr(p) * p.g.x@ - p.r.x@ * pm_zg(p) == -23364000000000000) by (nonlinear_arith)
        requires
            pm_zr(p) == 0,
            p.g.x@ == 170000000,
            p.r.x@ == 708000000,
            pm_zg(p) == 33000000,
    ;
    assert(pm_sby(p) == -23364000000000000);
    assert(p.r.x@ * p.g.y@ - p.r.y@ * p.g.x@ == 514636000000000000) by (nonlinear_arith)
        requires
            p.r.x@ == 708000000,
            p.g.y@ == 797000000,
            p.r.y@ == 292000000,
            p.g.x@ == 170000000,
    ;
    assert(pm_sbz(p) == 514636000000000000);
    assert(pm_det(p) == 423733000000000000);
    assert(p.wp.x@ * SCALE as int == 312700000000000000) by (nonlinear_arith)
        requires
            p.wp.x@ == 312700000,
    ;
    assert(chroma_big_x(p.wp) == 950455927);
    assert((SCALE as int - p.wp.x@ - p.wp.y@) * SCALE as int == 358300000000000000) by (nonlinear_arith)
        requires
            p.wp.x@ == 312700000,
            p.wp.y@ == 329000000,
    ;
    assert(chroma_big_z(p.wp) == 1089057750);
    assert(pm_srx(p) * chroma_big_x(p.wp) + pm_sry(p) * SCALE as int + pm_srz(p) * chroma_big_z(p.wp) == 381214893656601000000000000) by (nonlinear_arith)
        requires
            pm_srx(p) == 654413000000000000,
            pm_sry(p) == -135587000000000000,
            pm_srz(p) == -96587000000000000,
            chroma_big_x(p.wp) == 950455927,
            chroma_big_z(p.wp) == 1089057750,
    ;
    assert(pm_sr(p) == 381214893656601000000000000);
    assert(pm_sgx(p) * chroma_big_x(p.wp) + pm_sgy(p) * SCALE as int + pm_sgz(p) * chroma_big_z(p.wp) == 360464437698068000000000000) by (nonlinear_arith)
        requires
            pm_sgx(p) == -240316000000000000,
            pm_sgy(p) == 582684000000000000,
            pm_sgz(p) == 5684000000000000,
            chroma_big_x(p.wp) == 950455927,
            chroma_big_z(p.wp) == 1089057750,
    ;
    assert(pm_sg(p) == 360464437698068000000000000);
    assert(pm_sbx(p) * chroma_big_x(p.wp) + pm_sby(p) * SCALE as int + pm_sbz(p) * chroma_big_z(p.wp) == 546262917541572000000000000) by (nonlinear_arith)
        requires
            pm_sbx(p) == 9636000000000000,
            pm_sby(p) == -23364000000000000,
            pm_sbz(p) == 514636000000000000,
            chroma_big_x(p.wp) == 950455927,
            chroma_big_z(p.wp) == 1089057750,
    ;
    assert(pm_sb(p) == 546262917541572000000000000);
    assert(pm_srp(p) == 899658260);
    assert(pm_sgp(p) == 850687668);
    assert(pm_sbp(p) == 1289167748);
    assert(pm_srp(p) * p.r.x@ == 636958048080000000) by (nonlinear_arith)
        requires
            pm_srp(p) == 899658260,
            p.r.x@ == 708000000,
    ;
    assert(pm_sgp(p) * p.g.x@ == 144616903560000000) by (nonlinear_arith)
        requires
            pm_sgp(p) == 850687668,
            p.g.x@ == 170000000,
    ;
    assert(pm_sbp(p) * p.b.x@ == 168880974988000000) by (nonlinear_arith)
        requires
            pm_sbp(p) == 1289167748,
            p.b.x@ == 131000000,
    ;
    assert(pm_srp(p) * p.r.y@ == 262700211920000000) by (nonlinear_arith)
        requires
            pm_srp(p) == 899658260,
            p.r.y@ == 292000000,
    ;
    assert(pm_sgp(p) * p.g.y@ == 677998071396000000) by (nonlinear_arith)
        requires
            pm_sgp(p) == 850687668,
            p.g.y@ == 797000000,
    ;
    assert(pm_sbp(p) * p.b.y@ == 59301716408000000) by (nonlinear_arith)
        requires
            pm_sbp(p) == 1289167748,
            p.b.y@ == 46000000,
    ;
    assert(pm_srp(p) * pm_zr(p) == 0) by (nonlinear_arith)
        requires
            pm_srp(p) == 899658260,
            pm_zr(p) == 0,
    ;
    assert(pm_sgp(p) * pm_zg(p) == 28072693044000000) by (nonlinear_arith)
        requires
            pm_sgp(p) == 850687668,
            pm_zg(p) == 33000000,
    ;
    assert(pm_sbp(p) * pm_zb(p) == 1060985056604000000) by (nonlinear_arith)
        requires
            pm_sbp(p) == 1289167748,
            pm_zb(p) == 823000000,
    ;
    let a = pm_to_xyz_val(p);
    assert(a.e00 == 636958048);
    assert(a.e01 == 144616903);
    assert(a.e02 == 168880974);
    assert(a.e10 == 262700211);
    assert(a.e11 == 677998071);
    assert(a.e12 == 59301716);
    assert(a.e20 == 0);
    assert(a.e21 == 28072693);
    assert(a.e22 == 1060985056);
    assert(pm_srx(p) * (SCALE as int * SCALE as int) == 654413000000000000000000000000000000) by (nonlinear_arith)
        requires
            pm_srx(p) == 654413000000000000,
    ;
    assert(pm_sry(p) * (SCALE as int * SCALE as int) == -135587000000000000000000000000000000) by (nonlinear_arith)
        requires
            pm_sry(p) == -135587000000000000,
    ;
    assert(pm_srz(p) * (SCALE as int * SCALE as int) == -96587000000000000000000000000000000) by (nonlinear_arith)
        requires
            pm_srz(p) == -96587000000000000,
    ;
    assert(pm_sgx(p) * (SCALE as int * SCALE as int) == -240316000000000000000000000000000000) by (nonlinear_arith)
        requires
            pm_sgx(p) == -240316000000000000,
    ;
    assert(pm_sgy(p) * (SCALE as int * SCALE as int) == 582684000000000000000000000000000000) by (nonlinear_arith)
        requires
            pm_sgy(p) == 582684000000000000,
    ;
    assert(pm_sgz(p) * (SCALE as int * SCALE as int) == 5684000000000000000000000000000000) by (nonlinear_arith)
        requires
            pm_sgz(p) == 5684000000000000,
    ;
    assert(pm_sbx(p) * (SCALE as int * SCALE as int) == 9636000000000000000000000000000000) by (nonlinear_arith)
        requires
            pm_sbx(p) == 9636000000000000,
    ;
    assert(pm_sby(p) * (SCALE as int * SCALE as int) == -23364000000000000000000000000000000) by (nonlinear_arith)
        requires
            pm_sby(p) == -23364000000000000,
    ;
    assert(pm_sbz(p) * (SCALE as int * SCALE as int) == 514636000000000000000000000000000000) by (nonlinear_arith)
        requires
            pm_sbz(p) == 514636000000000000,
    ;
    let b = pm_from_val(p);
    assert(b.e00 == 1716651187);
    assert(b.e01 == -355670783);
    assert(b.e02 == -253366281);
    assert(b.e10 == -666684351);
    assert(b.e11 == 1616481236);
    assert(b.e12 == 15768545);
    assert(b.e20 == 17639857);
    assert(b.e21 == -42770613);
    assert(b.e22 == 942103121);
    assert(a.e03 == 0 && a.e13 == 0 && a.e23 == 0);
    assert(b.e03 == 0 && b.e13 == 0 && b.e23 == 0);
    assert(a.e00 * b.e00 + a.e01 * b.e10 + a.e02 * b.e20 == 999999999279598741) by (nonlinear_arith)
        requires
            a.e00 == 636958048,
            a.e01 == 144616903,
            a.e02 == 168880974,
            b.e00 == 1716651187,
            b.e10 == -666684351,
            b.e20 == 17639857,
    ;
    assert(a.e00 * b.e01 + a.e01 * b.e11 + a.e02 * b.e21 == -344396538) by (nonlinear_arith)
        requires
            a.e00 == 636958048,
            a.e01 == 144616903,
            a.e02 == 168880974,
            b.e01 == -355670783,
            b.e11 == 1616481236,
            b.e21 == -42770613,
    ;
    assert(a.e00 * b.e02 + a.e01 * b.e12 + a.e02 * b.e22 == -949143499) by (nonlinear_arith)
        requires
            a.e00 == 636958048,
            a.e01 == 144616903,
            a.e02 == 168880974,
            b.e02 == -253366281,
            b.e12 == 15768545,
            b.e22 == 942103121,
    ;
    assert(a.e10 * b.e00 + a.e11 * b.e10 + a.e12 * b.e20 == -1115491852) by (nonlinear_arith)
        requires
            a.e10 == 262700211,
            a.e11 == 677998071,
            a.e12 == 59301716,
            b.e00 == 1716651187,
            b.e10 == -666684351,
            b.e20 == 17639857,
    ;
    assert(a.e10 * b.e01 + a.e11 * b.e11 + a.e12 * b.e21 == 999999999329788635) by (nonlinear_arith)
        requires
            a.e10 == 262700211,
            a.e11 == 677998071,
            a.e12 == 59301716,
            b.e01 == -355670783,
            b.e11 == 1616481236,
            b.e21 == -42770613,
    ;
    assert(a.e10 * b.e02 + a.e11 * b.e12 + a.e12 * b.e22 == -662252960) by (nonlinear_arith)
        requires
            a.e10 == 262700211,
            a.e11 == 677998071,
            a.e12 == 59301716,
            b.e02 == -253366281,
            b.e12 == 15768545,
            b.e22 == 942103121,
    ;
    assert(a.e20 * b.e00 + a.e21 * b.e10 + a.e22 * b.e20 == -446550251) by (nonlinear_arith)
        requires
            a.e20 == 0,
            a.e21 == 28072693,
            a.e22 == 1060985056,
            b.e00 == 1716651187,
            b.e10 == -666684351,
            b.e20 == 17639857,
    ;
    assert(a.e20 * b.e01 + a.e21 * b.e11 + a.e22 * b.e21 == 249529220) by (nonlinear_arith)
        requires
            a.e20 == 0,
            a.e21 == 28072693,
            a.e22 == 1060985056,
            b.e01 == -355670783,
            b.e11 == 1616481236,
            b.e21 == -42770613,
    ;
    assert(a.e20 * b.e02 + a.e21 * b.e12 + a.e22 * b.e22 == 999999998114801461) by (nonlinear_arith)
        requires
            a.e20 == 0,
            a.e21 == 28072693,
            a.e22 == 1060985056,
            b.e02 == -253366281,
            b.e12 == 15768545,
            b.e22 == 942103121,
    ;
}

/// Round-trip law witnesses for the Cie1931Xyz preset.
#[verifier::rlimit(100)]
#[verifier::spinoff_prover]
proof fn lemma_round_trip_cie1931xyz()
    ensures
        pm_ok(named_primaries_spec(NamedPrimaries::Cie1931Xyz)),
        mat_close(
            ms_mul(
                pm_to_xyz_val(named_primaries_spec(NamedPrimaries::Cie1931Xyz)),
                pm_from_val(named_primaries_spec(NamedPrimaries::Cie1931Xyz)),
            ),
            ms_identity(),
            ROUND_TRIP_TOL as int,
        ),
{
    let p = named_primaries_spec(NamedPrimaries::Cie1931Xyz);
    lemma_tdiv_eq(0, 1000000000, 0, 0);
    lemma_tdiv_eq(0, 1000000000000000000000000000, 0, 0);
    lemma_tdiv_eq(0, 1000000003000000000000000000, 0, 0);
    lemma_tdiv_eq(333333333000000000, 333333333, 1000000000, 0);
    lemma_tdiv_eq(333333334000000000, 333333333, 1000000003, 1);
    lemma_tdiv_eq(999999999999999991, 1000000000, 999999999, 999999991);
    lemma_tdiv_eq(1000000000000000000, 1000000000, 1000000000, 0);
    lemma_tdiv_eq(1000000003000000000, 1000000000, 1000000003, 0);
    lemma_tdiv_eq(1000000000000000000000000000, 1000000000000000000, 1000000000, 0);
    lemma_tdiv_eq(1000000003000000000000000000, 1000000000000000000, 1000000003, 0);
    lemma_tdiv_eq(1000000000000000000000000000000000000, 1000000000000000000000000000, 1000000000, 0);
    lemma_tdiv_eq(1000000000000000000000000000000000000, 1000000003000000000000000000, 999999997, 9000000000000000000);
    assert(p.g.y@ * pm_zb(p) - pm_zg(p) * p.b.y@ == 1000000000000000000) by (nonlinear_arith)
        requires
            p.g.y@ == 1000000000,
            pm_zb(p) == 1000000000,
            pm_zg(p) == 0,
            p.b.y@ == 0,
    ;
    assert(pm_srx(p) == 1000000000000000000);
    assert(pm_zg(p) * p.b.x@ - p.g.x@ * pm_zb(p) == 0) by (nonlinear_arith)
        requires
            pm_zg(p) == 0,
            p.b.x@ == 0,
            p.g.x@ == 0,
            pm_zb(p) == 1000000000,
    ;
    assert(pm_sry(p) == 0);
    assert(p.g.x@ * p.b.y@ - p.g.y@ * p.b.x@ == 0) by (nonlinear_arith)
        requires
            p.g.x@ == 0,
            p.b.y@ == 0,
            p.g.y@ == 1000000000,
            p.b.x@ == 0,
    ;
    assert(pm_srz(p) == 0);
    assert(pm_zr(p) * p.b.y@ - p.r.y@ * pm_zb(p) == 0) by (nonlinear_arith)
        requires
            pm_zr(p) == 0,
            p.b.y@ == 0,
            p.r.y@ == 0,
            pm_zb(p) == 1000000000,
    ;
    assert(pm_sgx(p) == 0);
    assert(p.r.y@ * p.b.x@ - p.r.x@ * p.b.y@ == 0) by (nonlinear_arith)
        requires
            p.r.y@ == 0,
            p.b.x@ == 0,
            p.r.x@ == 1000000000,
            p.b.y@ == 0,
    ;
    assert(pm_sgz(p) == 0);
    assert(p.r.x@ * pm_zb(p) - pm_zr(p) * p.b.x@ == 1000000000000000000) by (nonlinear_arith)
        requires
            p.r.x@ == 1000000000,
            pm_zb(p) == 1000000000,
            pm_zr(p) == 0,
            p.b.x@ == 0,
    ;
    assert(pm_sgy(p) == 1000000000000000000);
    assert(p.r.y@ * pm_zg(p) - pm_zr(p) * p.g.y@ == 0) by (nonlinear_arith)
        requires
            p.r.y@ == 0,
            pm_zg(p) == 0,
            pm_zr(p) == 0,
            p.g.y@ == 1000000000,
    ;
    assert(pm_sbx(p) == 0);
    assert(pm_zr(p) * p.g.x@ - p.r.x@ * pm_zg(p) == 0) by (nonlinear_arith)
        requires
            pm_zr(p) == 0,
            p.g.x@ == 0,
            p.r.x@ == 1000000000,
            pm_zg(p) == 0,
    ;
    assert(pm_sby(p) == 0);
    assert(p.r.x@ * p.g.y@ - p.r.y@ * p.g.x@ == 1000000000000000000) by (nonlinear_arith)
        requires
            p.r.x@ == 1000000000,
            p.g.y@ == 1000000000,
            p.r.y@ == 0,
            p.g.x@ == 0,
    ;
    assert(pm_sbz(p) == 1000000000000000000);
    assert(pm_det(p) == 1000000000000000000);
    assert(p.wp.x@ * SCALE as int == 333333333000000000) by (nonlinear_arith)
        requires
            p.wp.x@ == 333333333,
    ;
    assert(chroma_big_x(p.wp) == 1000000000);
    assert((SCALE as int - p.wp.x@ - p.wp.y@) * SCALE as int == 333333334000000000) by (nonlinear_arith)
        requires
            p.wp.x@ == 333333333,
            p.wp.y@ == 333333333,
    ;
    assert(chroma_big_z(p.wp) == 1000000003);
    assert(pm_srx(p) * chroma_big_x(p.wp) + pm_sry(p) * SCALE as int + pm_srz(p) * chroma_big_z(p.wp) == 1000000000000000000000000000) by (nonlinear_arith)
        requires
            pm_srx(p) == 1000000000000000000,
            pm_sry(p) == 0,
            pm_srz(p) == 0,
            chroma_big_x(p.wp) == 1000000000,
            chroma_big_z(p.wp) == 1000000003,
    ;
    assert(pm_sr(p) == 1000000000000000000000000000);
    assert(pm_sgx(p) * chroma_big_x(p.wp) + pm_sgy(p) * SCALE as int + pm_sgz(p) * chroma_big_z(p.wp) == 1000000000000000000000000000) by (nonlinear_arith)
        requires
            pm_sgx(p) == 0,
            pm_sgy(p) == 1000000000000000000,
            pm_sgz(p) == 0,
            chroma_big_x(p.wp) == 1000000000,
            chroma_big_z(p.wp) == 1000000003,
    ;
    assert(pm_sg(p) == 1000000000000000000000000000);
    assert(pm_sbx(p) * chroma_big_x(p.wp) + pm_sby(p) * SCALE as int + pm_sbz(p) * chroma_big_z(p.wp) == 1000000003000000000000000000) by (nonlinear_arith)
        requires
            pm_sbx(p) == 0,
            pm_sby(p) == 0,
            pm_sbz(p) == 1000000000000000000,
            chroma_big_x(p.wp) == 1000000000,
            chroma_big_z(p.wp) == 1000000003,
    ;
    assert(pm_sb(p) == 1000000003000000000000000000);
    assert(pm_srp(p) == 1000000000);
    assert(pm_sgp(p) == 1000000000);
    assert(pm_sbp(p) == 1000000003);
    assert(pm_srp(p) * p.r.x@ == 1000000000000000000) by (nonlinear_arith)
        requires
            pm_srp(p) == 1000000000,
            p.r.x@ == 1000000000,
    ;
    assert(pm_sgp(p) * p.g.x@ == 0) by (nonlinear_arith)
        requires
            pm_sgp(p) == 1000000000,
            p.g.x@ == 0,
    ;
    assert(pm_sbp(p) * p.b.x@ == 0) by (nonlinear_arith)
        requires
            pm_sbp(p) == 1000000003,
            p.b.x@ == 0,
    ;
    assert(pm_srp(p) * p.r.y@ == 0) by (nonlinear_arith)
        requires
            pm_srp(p) == 1000000000,
            p.r.y@ == 0,
    ;
    assert(pm_sgp(p) * p.g.y@ == 1000000000000000000) by (nonlinear_arith)
        requires
            pm_sgp(p) == 1000000000,
            p.g.y@ == 1000000000,
    ;
    assert(pm_sbp(p) * p.b.y@ == 0) by (nonlinear_arith)
        requires
            pm_sbp(p) == 1000000003,
            p.b.y@ == 0,
    ;
    assert(pm_srp(p) * pm_zr(p) == 0) by (nonlinear_arith)
        requires
            pm_srp(p) == 1000000000,
            pm_zr(p) == 0,
    ;
    assert(pm_sgp(p) * pm_zg(p) == 0) by (nonlinear_arith)
        requires
            pm_sgp(p) == 1000000000,
            pm_zg(p) == 0,
    ;
    assert(pm_sbp(p) * pm_zb(p) == 1000000003000000000) by (nonlinear_arith)
        requires
            pm_sbp(p) == 1000000003,
            pm_zb(p) == 1000000000,
    ;
    let a = pm_to_xyz_val(p);
    assert(a.e00 == 1000000000);
    assert(a.e01 == 0);
    assert(a.e02 == 0);
    assert(a.e10 == 0);
    assert(a.e11 == 1000000000);
    assert(a.e12 == 0);
    assert(a.e20 == 0);
    assert(a.e21 == 0);
    assert(a.e22 == 1000000003);
    assert(pm_srx(p) * (SCALE as int * SCALE as int) == 1000000000000000000000000000000000000) by (nonlinear_arith)
        requires
            pm_srx(p) == 1000000000000000000,
    ;
    assert(pm_sry(p) * (SCALE as int * SCALE as int) == 0) by (nonlinear_arith)
        requires
            pm_sry(p) == 0,
    ;
    assert(pm_srz(p) * (SCALE as int * SCALE as int) == 0) by (nonlinear_arith)
        requires
            pm_srz(p) == 0,
    ;
    assert(pm_sgx(p) * (SCALE as int * SCALE as int) == 0) by (nonlinear_arith)
        requires
            pm_sgx(p) == 0,
    ;
    assert(pm_sgy(p) * (SCALE as int * SCALE as int) == 1000000000000000000000000000000000000) by (nonlinear_arith)
        requires
            pm_sgy(p) == 1000000000000000000,
    ;
    assert(pm_sgz(p) * (SCALE as int * SCALE as int) == 0) by (nonlinear_arith)
        requires
            pm_sgz(p) == 0,
    ;
    assert(pm_sbx(p) * (SCALE as int * SCALE as int) == 0) by (nonlinear_arith)
        requires
            pm_sbx(p) == 0,
    ;
    assert(pm_sby(p) * (SCALE as int * SCALE as int) == 0) by (nonlinear_arith)
        requires
            pm_sby(p) == 0,
    ;
    assert(pm_sbz(p) * (SCALE as int * SCALE as int) == 1000000000000000000000000000000000000) by (nonlinear_arith)
        requires
            pm_sbz(p) == 1000000000000000000,
    ;
    let b = pm_from_val(p);
    assert(b.e00 == 1000000000);
    assert(b.e01 == 0);
    assert(b.e02 == 0);
    assert(b.e10 == 0);
    assert(b.e11 == 1000000000);
    assert(b.e12 == 0);
    assert(b.e20 == 0);
    assert(b.e21 == 0);
    assert(b.e22 == 999999997);
    assert(a.e03 == 0 && a.e13 == 0 && a.e23 == 0);
    assert(b.e03 == 0 && b.e13 == 0 && b.e23 == 0);
    assert(a.e00 * b.e00 + a.e01 * b.e10 + a.e02 * b.e20 == 1000000000000000000) by (nonlinear_arith)
        requires
            a.e00 == 1000000000,
            a.e01 == 0,
            a.e02 == 0,
            b.e00 == 1000000000,
            b.e10 == 0,
            b.e20 == 0,
    ;
    assert(a.e00 * b.e01 + a.e01 * b.e11 + a.e02 * b.e21 == 0) by (nonlinear_arith)
        requires
            a.e00 == 1000000000,
            a.e01 == 0,
            a.e02 == 0,
            b.e01 == 0,
            b.e11 == 1000000000,
            b.e21 == 0,
    ;
    assert(a.e00 * b.e02 + a.e01 * b.e12 + a.e02 * b.e22 == 0) by (nonlinear_arith)
        requires
            a.e00 == 1000000000,
            a.e01 == 0,
            a.e02 == 0,
            b.e02 == 0,
            b.e12 == 0,
            b.e22 == 999999997,
    ;
    assert(a.e10 * b.e00 + a.e11 * b.e10 + a.e12 * b.e20 == 0) by (nonlinear_arith)
        requires
            a.e10 == 0,
            a.e11 == 1000000000,
            a.e12 == 0,
            b.e00 == 1000000000,
            b.e10 == 0,
            b.e20 == 0,
    ;
    assert(a.e10 * b.e01 + a.e11 * b.e11 + a.e12 * b.e21 == 1000000000000000000) by (nonlinear_arith)
        requires
            a.e10 == 0,
            a.e11 == 1000000000,
            a.e12 == 0,
            b.e01 == 0,
            b.e11 == 1000000000,
            b.e21 == 0,
    ;
    assert(a.e10 * b.e02 + a.e11 * b.e12 + a.e12 * b.e22 == 0) by (nonlinear_arith)
        requires
            a.e10 == 0,
            a.e11 == 1000000000,
            a.e12 == 0,
            b.e02 == 0,
            b.e12 == 0,
            b.e22 == 999999997,
    ;
    assert(a.e20 * b.e00 + a.e21 * b.e10 + a.e22 * b.e20 == 0) by (nonlinear_arith)
        requires
            a.e20 == 0,
            a.e21 == 0,
            a.e22 == 1000000003,
            b.e00 == 1000000000,
            b.e10 == 0,
            b.e20 == 0,
    ;
    assert(a.e20 * b.e01 + a.e21 * b.e11 + a.e22 * b.e21 == 0) by (nonlinear_arith)
        requires
            a.e20 == 0,
            a.e21 == 0,
            a.e22 == 1000000003,
            b.e01 == 0,
            b.e11 == 1000000000,
            b.e21 == 0,
    ;
    assert(a.e20 * b.e02 + a.e21 * b.e12 + a.e22 * b.e22 == 999999999999999991) by (nonlinear_arith)
        requires
            a.e20 == 0,
            a.e21 == 0,
            a.e22 == 1000000003,
            b.e02 == 0,
            b.e12 == 0,
            b.e22 == 999999997,
    ;
}

/// Round-trip law witnesses for the DciP3 preset.
#[verifier::rlimit(100)]
#[verifier::spinoff_prover]
proof fn lemma_round_trip_dcip3()
    ensures
        pm_ok(named_primaries_spec(NamedPrimaries::DciP3)),
        mat_close(
            ms_mul(
                pm_to_xyz_val(named_primaries_spec(NamedPrimaries::DciP3)),
                pm_from_val(named_primaries_spec(NamedPrimaries::DciP3)),
            ),
            ms_identity(),
            ROUND_TRIP_TOL as int,
        ),
{
    let p = named_primaries_spec(NamedPrimaries::DciP3);
    lemma_tdiv_eq(0, 1000000000, 0, 0);
    lemma_tdiv_eq(184310773, 1000000000, 0, 184310773);
    lemma_tdiv_eq(237002469, 1000000000, 0, 237002469);
    lemma_tdiv_eq(311240610, 1000000000, 0, 311240610);
    lemma_tdiv_eq(334225837, 1000000000, 0, 334225837);
    lemma_tdiv_eq(774153677, 1000000000, 0, 774153677);
    lemma_tdiv_eq(1019143552, 1000000000, 1, 19143552);
    lemma_tdiv_eq(47060560035000000, 1000000000, 47060560, 35000000);
    lemma_tdiv_eq(68913067860000000, 1000000000, 68913067, 860000000);
    lemma_tdiv_eq(172282669650000000, 1000000000, 172282669, 650000000);
    lemma_tdiv_eq(209491677440000000, 1000000000, 209491677, 440000000);
    lemma_tdiv_eq(277134409095000000, 1000000000, 277134409, 95000000);
    lemma_tdiv_eq(314000000000000000, 351000000, 894586894, 206000000);
    lemma_tdiv_eq(335000000000000000, 351000000, 954415954, 146000000);
    lemma_tdiv_eq(445169814560000000, 1000000000, 445169814, 560000000);
    lemma_tdiv_eq(721595253870000000, 1000000000, 721595253, 870000000);
    lemma_tdiv_eq(907355393490000000, 1000000000, 907355393, 490000000);
    lemma_tdiv_eq(999999997584504530, 1000000000, 999999997, 584504530);
    lemma_tdiv_eq(999999998292705650, 1000000000, 999999998, 292705650);
    lemma_tdiv_eq(999999998791617347, 1000000000, 999999998, 791617347);
    lemma_tdiv_eq(199017093735200000000000000, 304000000000000000, 654661492, 167200000000000000);
    lemma_tdiv_eq(317920228065600000000000000, 304000000000000000, 1045790223, 273600000000000000);
    lemma_tdiv_eq(349159543991200000000000000, 304000000000000000, 1148551131, 167200000000000000);
    lemma_tdiv_eq(7200000000000000000000000000000000, 317920228065600000000000000, 22647190, 190155024336000000000000000);
    lemma_tdiv_eq(14400000000000000000000000000000000, 349159543991200000000000000, 41241891, 145105224640800000000000000);
    lemma_tdiv_eq(30600000000000000000000000000000000, 349159543991200000000000000, 87639019, 90123887367200000000000000);
    lemma_tdiv_eq(87600000000000000000000000000000000, 199017093735200000000000000, 440163195, 161899884036000000000000000);
    lemma_tdiv_eq(202600000000000000000000000000000000, 199017093735200000000000000, 1018003007, 133165538253600000000000000);
    lemma_tdiv_eq(252800000000000000000000000000000000, 317920228065600000000000000, 795168025, 141527277560000000000000000);
    lemma_tdiv_eq(384400000000000000000000000000000000, 349159543991200000000000000, 1100929379, 61845002535200000000000000);
    lemma_tdiv_eq(537200000000000000000000000000000000, 317920228065600000000000000, 1689732054, 22565265257600000000000000);
    lemma_tdiv_eq(542400000000000000000000000000000000, 199017093735200000000000000, 2725394034, 70067144203200000000000000);
    assert(p.g.y@ * pm_zb(p) - pm_zg(p) * p.b.y@ == 542400000000000000) by (nonlinear_arith)
        requires
            p.g.y@ == 690000000,
            pm_zb(p) == 790000000,
            pm_zg(p) == 45000000,
            p.b.y@ == 60000000,
    ;
    assert(pm_srx(p) == 542400000000000000);
    assert(pm_zg(p) * p.b.x@ - p.g.x@ * pm_zb(p) == -202600000000000000) by (nonlinear_arith)
        requires
            pm_zg(p) == 45000000,
            p.b.x@ == 150000000,
            p.g.x@ == 265000000,
            pm_zb(p) == 790000000,
    ;
    assert(pm_sry(p) == -202600000000000000);
    assert(p.g.x@ * p.b.y@ - p.g.y@ * p.b.x@ == -87600000000000000) by (nonlinear_arith)
        requires
            p.g.x@ == 265000000,
            p.b.y@ == 60000000,
            p.g.y@ == 690000000,
            p.b.x@ == 150000000,
    ;
    assert(pm_srz(p) == -87600000000000000);
    assert(pm_zr(p) * p.b.y@ - p.r.y@ * pm_zb(p) == -252800000000000000) by (nonlinear_arith)
        requires
            pm_zr(p) == 0,
            p.b.y@ == 60000000,
            p.r.y@ == 320000000,
            pm_zb(p) == 790000000,
    ;
    assert(pm_sgx(p) == -252800000000000000);
    assert(p.r.y@ * p.b.x@ - p.r.x@ * p.b.y@ == 7200000000000000) by (nonlinear_arith)
        requires
            p.r.y@ == 320000000,
            p.b.x@ == 150000000,
            p.r.x@ == 680000000,
            p.b.y@ == 60000000,
    ;
    assert(pm_sgz(p) == 7200000000000000);
    assert(p.r.x@ * pm_zb(p) - pm_zr(p) * p.b.x@ == 537200000000000000) by (nonlinear_arith)
        requires
            p.r.x@ == 680000000,
            pm_zb(p) == 790000000,
            pm_zr(p) == 0,
            p.b.x@ == 150000000,
    ;
    assert(pm_sgy(p) == 537200000000000000);
    assert(p.r.y@ * pm_zg(p) - pm_zr(p) * p.g.y@ == 14400000000000000) by (nonlinear_arith)
        requires
            p.r.y@ == 320000000,
            pm_zg(p) == 45000000,
            pm_zr(p) == 0,
            p.g.y@ == 690000000,
    ;
    assert(pm_sbx(p) == 14400000000000000);
    assert(pm_zr(p) * p.g.x@ - p.r.x@ * pm_zg(p) == -30600000000000000) by (nonlinear_arith)
        requires
            pm_zr(p) == 0,
            p.g.x@ == 265000000,
            p.r.x@ == 680000000,
            pm_zg(p) == 45000000,
    ;
    assert(pm_sby(p) == -30600000000000000);
    assert(p.r.x@ * p.g.y@ - p.r.y@ * p.g.x@ == 384400000000000000) by (nonlinear_arith)
        requires
            p.r.x@ == 680000000,
            p.g.y@ == 690000000,
            p.r.y@ == 320000000,
            p.g.x@ == 265000000,
    ;
    assert(pm_sbz(p) == 384400000000000000);
    assert(pm_det(p) == 304000000000000000);
    assert(p.wp.x@ * SCALE as int == 314000000000000000) by (nonlinear_arith)
        requires
            p.wp.x@ == 314000000,
    ;
    assert(chroma_big_x(p.wp) == 894586894);
    assert((SCALE as int - p.wp.x@ - p.wp.y@) * SCALE as int == 335000000000000000) by (nonlinear_arith)
        requires
            p.wp.x@ == 314000000,
            p.wp.y@ == 351000000,
    ;
    assert(chroma_big_z(p.wp) == 954415954);
    assert(pm_srx(p) * chroma_big_x(p.wp) + pm_sry(p) * SCALE as int + pm_srz(p) * chroma_big_z(p.wp) == 199017093735200000000000000) by (nonlinear_arith)
        requires
            pm_srx(p) == 542400000000000000,
            pm_sry(p) == -202600000000000000,
            pm_srz(p) == -87600000000000000,
            chroma_big_x(p.wp) == 894586894,
            chroma_big_z(p.wp) == 954415954,
    ;
    assert(pm_sr(p) == 199017093735200000000000000);
    assert(pm_sgx(p) * chroma_big_x(p.wp) + pm_sgy(p) * SCALE as int + pm_sgz(p) * chroma_big_z(p.wp) == 317920228065600000000000000) by (nonlinear_arith)
        requires
            pm_sgx(p) == -252800000000000000,
            pm_sgy(p) == 537200000000000000,
            pm_sgz(p) == 7200000000000000,
            chroma_big_x(p.wp) == 894586894,
            chroma_big_z(p.wp) == 954415954,
    ;
    assert(pm_sg(p) == 317920228065600000000000000);
    assert(pm_sbx(p) * chroma_big_x(p.wp) + pm_sby(p) * SCALE as int + pm_sbz(p) * chroma_big_z(p.wp) == 349159543991200000000000000) by (nonlinear_arith)
        requires
            pm_sbx(p) == 14400000000000000,
            pm_sby(p) == -30600000000000000,
            pm_sbz(p) == 384400000000000000,
            chroma_big_x(p.wp) == 894586894,
            chroma_big_z(p.wp) == 954415954,
    ;
    assert(pm_sb(p) == 349159543991200000000000000);
    assert(pm_srp(p) == 654661492);
    assert(pm_sgp(p) == 1045790223);
    assert(pm_sbp(p) == 1148551131);
    assert(pm_srp(p) * p.r.x@ == 445169814560000000) by (nonlinear_arith)
        requires
            pm_srp(p) == 654661492,
            p.r.x@ == 680000000,
    ;
    assert(pm_sgp(p) * p.g.x@ == 277134409095000000) by (nonlinear_arith)
        requires
            pm_sgp(p) == 1045790223,
            p.g.x@ == 265000000,
    ;
    assert(pm_sbp(p) * p.b.x@ == 172282669650000000) by (nonlinear_arith)
        requires
            pm_sbp(p) == 1148551131,
            p.b.x@ == 150000000,
    ;
    assert(pm_srp(p) * p.r.y@ == 209491677440000000) by (nonlinear_arith)
        requires
            pm_srp(p) == 654661492,
            p.r.y@ == 320000000,
    ;
    assert(pm_sgp(p) * p.g.y@ == 721595253870000000) by (nonlinear_arith)
        requires
            pm_sgp(p) == 1045790223,
            p.g.y@ == 690000000,
    ;
    assert(pm_sbp(p) * p.b.y@ == 68913067860000000) by (nonlinear_arith)
        requires
            pm_sbp(p) == 1148551131,
            p.b.y@ == 60000000,
    ;
    assert(pm_srp(p) * pm_zr(p) == 0) by (nonlinear_arith)
        requires
            pm_srp(p) == 654661492,
            pm_zr(p) == 0,
    ;
    assert(pm_sgp(p) * pm_zg(p) == 47060560035000000) by (nonlinear_arith)
        requires
            pm_sgp(p) == 1045790223,
            pm_zg(p) == 45000000,
    ;
    assert(pm_sbp(p) * pm_zb(p) == 907355393490000000) by (nonlinear_arith)
        requires
            pm_sbp(p) == 1148551131,
            pm_zb(p) == 790000000,
    ;
    let a = pm_to_xyz_val(p);
    assert(a.e00 == 445169814);
    assert(a.e01 == 277134409);
    assert(a.e02 == 172282669);
    assert(a.e10 == 209491677);
    assert(a.e11 == 721595253);
    assert(a.e12 == 68913067);
    assert(a.e20 == 0);
    assert(a.e21 == 47060560);
    assert(a.e22 == 907355393);
    assert(pm_srx(p) * (SCALE as int * SCALE as int) == 542400000000000000000000000000000000) by (nonlinear_arith)
        requires
            pm_srx(p) == 542400000000000000,
    ;
    assert(pm_sry(p) * (SCALE as int * SCALE as int) == -202600000000000000000000000000000000) by (nonlinear_arith)
        requires
            pm_sry(p) == -202600000000000000,
    ;
    assert(pm_srz(p) * (SCALE as int * SCALE as int) == -87600000000000000000000000000000000) by (nonlinear_arith)
        requires
            pm_srz(p) == -87600000000000000,
    ;
    assert(pm_sgx(p) * (SCALE as int * SCALE as int) == -252800000000000000000000000000000000) by (nonlinear_arith)
        requires
            pm_sgx(p) == -252800000000000000,
    ;
    assert(pm_sgy(p) * (SCALE as int * SCALE as int) == 537200000000000000000000000000000000) by (nonlinear_arith)
        requires
            pm_sgy(p) == 537200000000000000,
    ;
    assert(pm_sgz(p) * (SCALE as int * SCALE as int) == 7200000000000000000000000000000000) by (nonlinear_arith)
        requires
            pm_sgz(p) == 7200000000000000,
    ;
    assert(pm_sbx(p) * (SCALE as int * SCALE as int) == 14400000000000000000000000000000000) by (nonlinear_arith)
        requires
            pm_sbx(p) == 14400000000000000,
    ;
    assert(pm_sby(p) * (SCALE as int * SCALE as int) == -30600000000000000000000000000000000) by (nonlinear_arith)
        requires
            pm_sby(p) == -30600000000000000,
    ;
    assert(pm_sbz(p) * (SCALE as int * SCALE as int) == 384400000000000000000000000000000000) by (nonlinear_arith)
        requires
            pm_sbz(p) == 384400000000000000,
    ;
    let b = pm_from_val(p);
    assert(b.e00 == 2725394034);
    assert(b.e01 == -1018003007);
    assert(b.e02 == -440163195);
    assert(b.e10 == -795168025);
    assert(b.e11 == 1689732054);
    assert(b.e12 == 22647190);
    assert(b.e20 == 41241891);
    assert(b.e21 == -87639019);
    assert(b.e22 == 1100929379);
    assert(a.e03 == 0 && a.e13 == 0 && a.e23 == 0);
    assert(b.e03 == 0 && b.e13 == 0 && b.e23 == 0);
    assert(a.e00 * b.e00 + a.e01 * b.e10 + a.e02 * b.e20 == 999999997584504530) by (nonlinear_arith)
        requires
            a.e00 == 445169814,
            a.e01 == 277134409,
            a.e02 == 172282669,
            b.e00 == 2725394034,
            b.e10 == -795168025,
            b.e20 == 41241891,
    ;
    assert(a.e00 * b.e01 + a.e01 * b.e11 + a.e02 * b.e21 == 774153677) by (nonlinear_arith)
        requires
            a.e00 == 445169814,
            a.e01 == 277134409,
            a.e02 == 172282669,
            b.e01 == -1018003007,
            b.e11 == 1689732054,
            b.e21 == -87639019,
    ;
    assert(a.e00 * b.e02 + a.e01 * b.e12 + a.e02 * b.e22 == -237002469) by (nonlinear_arith)
        requires
            a.e00 == 445169814,
            a.e01 == 277134409,
            a.e02 == 172282669,
            b.e02 == -440163195,
            b.e12 == 22647190,
            b.e22 == 1100929379,
    ;
    assert(a.e10 * b.e00 + a.e11 * b.e10 + a.e12 * b.e20 == -311240610) by (nonlinear_arith)
        requires
            a.e10 == 209491677,
            a.e11 == 721595253,
            a.e12 == 68913067,
            b.e00 == 2725394034,
            b.e10 == -795168025,
            b.e20 == 41241891,
    ;
    assert(a.e10 * b.e01 + a.e11 * b.e11 + a.e12 * b.e21 == 999999998292705650) by (nonlinear_arith)
        requires
            a.e10 == 209491677,
            a.e11 == 721595253,
            a.e12 == 68913067,
            b.e01 == -1018003007,
            b.e11 == 1689732054,
            b.e21 == -87639019,
    ;
    assert(a.e10 * b.e02 + a.e11 * b.e12 + a.e12 * b.e22 == -1019143552) by (nonlinear_arith)
        requires
            a.e10 == 209491677,
            a.e11 == 721595253,
            a.e12 == 68913067,
            b.e02 == -440163195,
            b.e12 == 22647190,
            b.e22 == 1100929379,
    ;
    assert(a.e20 * b.e00 + a.e21 * b.e10 + a.e22 * b.e20 == -334225837) by (nonlinear_arith)
        requires
            a.e20 == 0,
            a.e21 == 47060560,
            a.e22 == 907355393,
            b.e00 == 2725394034,
            b.e10 == -795168025,
            b.e20 == 41241891,
    ;
    assert(a.e20 * b.e01 + a.e21 * b.e11 + a.e22 * b.e21 == 184310773) by (nonlinear_arith)
        requires
            a.e20 == 0,
            a.e21 == 47060560,
            a.e22 == 907355393,
            b.e01 == -1018003007,
            b.e11 == 1689732054,
            b.e21 == -87639019,
    ;
    assert(a.e20 * b.e02 + a.e21 * b.e12 + a.e22 * b.e22 == 999999998791617347) by (nonlinear_arith)
        requires
            a.e20 == 0,
            a.e21 == 47060560,
            a.e22 == 907355393,
            b.e02 == -440163195,
            b.e12 == 22647190,
            b.e22 == 1100929379,
    ;
}

/// Round-trip law witnesses for the DisplayP3 preset.
#[verifier::rlimit(100)]
#[verifier::spinoff_prover]
proof fn lemma_round_trip_displayp3()
    ensures
        pm_ok(named_primaries_spec(NamedPrimaries::DisplayP3)),
        mat_close(
            ms_mul(
                pm_to_xyz_val(named_primaries_spec(NamedPrimaries::DisplayP3)),
                pm_from_val(named_primaries_spec(NamedPrimaries::DisplayP3)),
            ),
            ms_identity(),
            ROUND_TRIP_TOL as int,
        ),
{
    let p = named_primaries_spec(NamedPrimaries::DisplayP3);
    lemma_tdiv_eq(0, 1000000000, 0, 0);
    lemma_tdiv_eq(3271128, 1000000000, 0, 3271128);
    lemma_tdiv_eq(158477571, 1000000000, 0, 158477571);
    lemma_tdiv_eq(415145421, 1000000000, 0, 415145421);
    lemma_tdiv_eq(1023353261, 1000000000, 1, 23353261);
    lemma_tdiv_eq(1103695903, 1000000000, 1, 103695903);
    lemma_tdiv_eq(1823331336, 1000000000, 1, 823331336);
    lemma_tdiv_eq(45113381820000000, 1000000000, 45113381, 820000000);
    lemma_tdiv_eq(79286914020000000, 1000000000, 79286914, 20000000);
    lemma_tdiv_eq(198217285050000000, 1000000000, 198217285, 50000000);
    lemma_tdiv_eq(228974563840000000, 1000000000, 228974563, 840000000);
    lemma_tdiv_eq(265667692940000000, 1000000000, 265667692, 940000000);
    lemma_tdiv_eq(312700000000000000, 329000000, 950455927, 17000000);
    lemma_tdiv_eq(358300000000000000, 329000000, 1089057750, 250000000);
    lemma_tdiv_eq(486570948160000000, 1000000000, 486570948, 160000000);
    lemma_tdiv_eq(691738521240000000, 1000000000, 691738521, 240000000);
    lemma_tdiv_eq(999999998114686293, 1000000000, 999999998, 114686293);
    lemma_tdiv_eq(999999998987823630, 1000000000, 999999998, 987823630);
    lemma_tdiv_eq(999999999540503343, 1000000000, 999999999, 540503343);
    lemma_tdiv_eq(1043944367930000000, 1000000000, 1043944367, 930000000);
    lemma_tdiv_eq(217525835904800000000000000, 304000000000000000, 715545512, 256800000000000000);
    lemma_tdiv_eq(304765957454400000000000000, 304000000000000000, 1002519596, 270400000000000000);
    lemma_tdiv_eq(401720364448800000000000000, 304000000000000000, 1321448567, 80800000000000000);
    lemma_tdiv_eq(7200000000000000000000000000000000, 304765957454400000000000000, 23624685, 256416398136000000000000000);
    lemma_tdiv_eq(14400000000000000000000000000000000, 401720364448800000000000000, 35845830, 108430271496000000000000000);
    lemma_tdiv_eq(30600000000000000000000000000000000, 401720364448800000000000000, 76172389, 129984235816800000000000000);
    lemma_tdiv_eq(87600000000000000000000000000000000, 217525835904800000000000000, 402710784, 82522642636800000000000000);
    lemma_tdiv_eq(202600000000000000000000000000000000, 217525835904800000000000000, 931383617, 164038908338400000000000000);
    lemma_tdiv_eq(252800000000000000000000000000000000, 304765957454400000000000000, 829488969, 164851879486400000000000000);
    lemma_tdiv_eq(384400000000000000000000000000000000, 401720364448800000000000000, 956884524, 283303489628800000000000000);
    lemma_tdiv_eq(537200000000000000000000000000000000, 304765957454400000000000000, 1762664060, 83640031136000000000000000);
    lemma_tdiv_eq(542400000000000000000000000000000000, 217525835904800000000000000, 2493496911, 108688309927200000000000000);
    assert(p.g.y@ * pm_zb(p) - pm_zg(p) * p.b.y@ == 542400000000000000) by (nonlinear_arith)
        requires
            p.g.y@ == 690000000,
            pm_zb(p) == 790000000,
            pm_zg(p) == 45000000,
            p.b.y@ == 60000000,
    ;
    assert(pm_srx(p) == 542400000000000000);
    assert(pm_zg(p) * p.b.x@ - p.g.x@ * pm_zb(p) == -202600000000000000) by (nonlinear_arith)
        requires
            pm_zg(p) == 45000000,
            p.b.x@ == 150000000,
            p.g.x@ == 265000000,
            pm_zb(p) == 790000000,
    ;
    assert(pm_sry(p) == -202600000000000000);
    assert(p.g.x@ * p.b.y@ - p.g.y@ * p.b.x@ == -87600000000000000) by (nonlinear_arith)
        requires
            p.g.x@ == 265000000,
            p.b.y@ == 60000000,
            p.g.y@ == 690000000,
            p.b.x@ == 150000000,
    ;
    assert(pm_srz(p) == -87600000000000000);
    assert(pm_zr(p) * p.b.y@ - p.r.y@ * pm_zb(p) == -252800000000000000) by (nonlinear_arith)
        requires
            pm_zr(p) == 0,
            p.b.y@ == 60000000,
            p.r.y@ == 320000000,
            pm_zb(p) == 790000000,
    ;
    assert(pm_sgx(p) == -252800000000000000);
    assert(p.r.y@ * p.b.x@ - p.r.x@ * p.b.y@ == 7200000000000000) by (nonlinear_arith)
        requires
            p.r.y@ == 320000000,
            p.b.x@ == 150000000,
            p.r.x@ == 680000000,
            p.b.y@ == 60000000,
    ;
    assert(pm_sgz(p) == 7200000000000000);
    assert(p.r.x@ * pm_zb(p) - pm_zr(p) * p.b.x@ == 537200000000000000) by (nonlinear_arith)
        requires
            p.r.x@ == 680000000,
            pm_zb(p) == 790000000,
            pm_zr(p) == 0,
            p.b.x@ == 150000000,
    ;
    assert(pm_sgy(p) == 537200000000000000);
    assert(p.r.y@ * pm_zg(p) - pm_zr(p) * p.g.y@ == 14400000000000000) by (nonlinear_arith)
        requires
            p.r.y@ == 320000000,
            pm_zg(p) == 45000000,
            pm_zr(p) == 0,
            p.g.y@ == 690000000,
    ;
    assert(pm_sbx(p) == 14400000000000000);
    assert(pm_zr(p) * p.g.x@ - p.r.x@ * pm_zg(p) == -30600000000000000) by (nonlinear_arith)
        requires
            pm_zr(p) == 0,
            p.g.x@ == 265000000,
            p.r.x@ == 680000000,
            pm_zg(p) == 45000000,
    ;
    assert(pm_sby(p) == -30600000000000000);
    assert(p.r.x@ * p.g.y@ - p.r.y@ * p.g.x@ == 384400000000000000) by (nonlinear_arith)
        requires
            p.r.x@ == 680000000,
            p.g.y@ == 690000000,
            p.r.y@ == 320000000,
            p.g.x@ == 265000000,
    ;
    assert(pm_sbz(p) == 384400000000000000);
    assert(pm_det(p) == 304000000000000000);
    assert(p.wp.x@ * SCALE as int == 312700000000000000) by (nonlinear_arith)
        requires
            p.wp.x@ == 312700000,
    ;
    assert(chroma_big_x(p.wp) == 950455927);
    assert((SCALE as int - p.wp.x@ - p.wp.y@) * SCALE as int == 358300000000000000) by (nonlinear_arith)
        requires
            p.wp.x@ == 312700000,
            p.wp.y@ == 329000000,
    ;
    assert(chroma_big_z(p.wp) == 1089057750);
    assert(pm_srx(p) * chroma_big_x(p.wp) + pm_sry(p) * SCALE as int + pm_srz(p) * chroma_big_z(p.wp) == 217525835904800000000000000) by (nonlinear_arith)
        requires
            pm_srx(p) == 542400000000000000,
            pm_sry(p) == -202600000000000000,
            pm_srz(p) == -87600000000000000,
            chroma_big_x(p.wp) == 950455927,
            chroma_big_z(p.wp) == 1089057750,
    ;
    assert(pm_sr(p) == 217525835904800000000000000);
    assert(pm_sgx(p) * chroma_big_x(p.wp) + pm_sgy(p) * SCALE as int + pm_sgz(p) * chroma_big_z(p.wp) == 304765957454400000000000000) by (nonlinear_arith)
        requires
            pm_sgx(p) == -252800000000000000,
            pm_sgy(p) == 537200000000000000,
            pm_sgz(p) == 7200000000000000,
            chroma_big_x(p.wp) == 950455927,
            chroma_big_z(p.wp) == 1089057750,
    ;
    assert(pm_sg(p) == 304765957454400000000000000);
    assert(pm_sbx(p) * chroma_big_x(p.wp) + pm_sby(p) * SCALE as int + pm_sbz(p) * chroma_big_z(p.wp) == 401720364448800000000000000) by (nonlinear_arith)
        requires
            pm_sbx(p) == 14400000000000000,
            pm_sby(p) == -30600000000000000,
            pm_sbz(p) == 384400000000000000,
            chroma_big_x(p.wp) == 950455927,
            chroma_big_z(p.wp) == 1089057750,
    ;
    assert(pm_sb(p) == 401720364448800000000000000);
    assert(pm_srp(p) == 715545512);
    assert(pm_sgp(p) == 1002519596);
    assert(pm_sbp(p) == 1321448567);
    assert(pm_srp(p) * p.r.x@ == 486570948160000000) by (nonlinear_arith)
        requires
            pm_srp(p) == 715545512,
            p.r.x@ == 680000000,
    ;
    assert(pm_sgp(p) * p.g.x@ == 265667692940000000) by (nonlinear_arith)
        requires
            pm_sgp(p) == 1002519596,
            p.g.x@ == 265000000,
    ;
    assert(pm_sbp(p) * p.b.x@ == 198217285050000000) by (nonlinear_arith)
        requires
            pm_sbp(p) == 1321448567,
            p.b.x@ == 150000000,
    ;
    assert(pm_srp(p) * p.r.y@ == 228974563840000000) by (nonlinear_arith)
        requires
            pm_srp(p) == 715545512,
            p.r.y@ == 320000000,
    ;
    assert(pm_sgp(p) * p.g.y@ == 691738521240000000) by (nonlinear_arith)
        requires
            pm_sgp(p) == 1002519596,
            p.g.y@ == 690000000,
    ;
    assert(pm_sbp(p) * p.b.y@ == 79286914020000000) by (nonlinear_arith)
        requires
            pm_sbp(p) == 1321448567,
            p.b.y@ == 60000000,
    ;
    assert(pm_srp(p) * pm_zr(p) == 0) by (nonlinear_arith)
        requires
            pm_srp(p) == 715545512,
            pm_zr(p) == 0,
    ;
    assert(pm_sgp(p) * pm_zg(p) == 45113381820000000) by (nonlinear_arith)
        requires
            pm_sgp(p) == 1002519596,
            pm_zg(p) == 45000000,
    ;
    assert(pm_sbp(p) * pm_zb(p) == 1043944367930000000) by (nonlinear_arith)
        requires
            pm_sbp(p) == 1321448567,
            pm_zb(p) == 790000000,
    ;
    let a = pm_to_xyz_val(p);
    assert(a.e00 == 486570948);
    assert(a.e01 == 265667692);
    assert(a.e02 == 198217285);
    assert(a.e10 == 228974563);
    assert(a.e11 == 691738521);
    assert(a.e12 == 79286914);
    assert(a.e20 == 0);
    assert(a.e21 == 45113381);
    assert(a.e22 == 1043944367);
    assert(pm_srx(p) * (SCALE as int * SCALE as int) == 542400000000000000000000000000000000) by (nonlinear_arith)
        requires
            pm_srx(p) == 542400000000000000,
    ;
    assert(pm_sry(p) * (SCALE as int * SCALE as int) == -202600000000000000000000000000000000) by (nonlinear_arith)
        requires
            pm_sry(p) == -202600000000000000,
    ;
    assert(pm_srz(p) * (SCALE as int * SCALE as int) == -87600000000000000000000000000000000) by (nonlinear_arith)
        requires
            pm_srz(p) == -87600000000000000,
    ;
    assert(pm_sgx(p) * (SCALE as int * SCALE as int) == -252800000000000000000000000000000000) by (nonlinear_arith)
        requires
            pm_sgx(p) == -252800000000000000,
    ;
    assert(pm_sgy(p) * (SCALE as int * SCALE as int) == 537200000000000000000000000000000000) by (nonlinear_arith)
        requires
            pm_sgy(p) == 537200000000000000,
    ;
    assert(pm_sgz(p) * (SCALE as int * SCALE as int) == 7200000000000000000000000000000000) by (nonlinear_arith)
        requires
            pm_sgz(p) == 7200000000000000,
    ;
    assert(pm_sbx(p) * (SCALE as int * SCALE as int) == 14400000000000000000000000000000000) by (nonlinear_arith)
        requires
            pm_sbx(p) == 14400000000000000,
    ;
    assert(pm_sby(p) * (SCALE as int * SCALE as int) == -30600000000000000000000000000000000) by (nonlinear_arith)
        requires
            pm_sby(p) == -30600000000000000,
    ;
    assert(pm_sbz(p) * (SCALE as int * SCALE as int) == 384400000000000000000000000000000000) by (nonlinear_arith)
        requires
            pm_sbz(p) == 384400000000000000,
    ;
    let b = pm_from_val(p);
    assert(b.e00 == 2493496911);
    assert(b.e01 == -931383617);
    assert(b.e02 == -402710784);
    assert(b.e10 == -829488969);
    assert(b.e11 == 1762664060);
    assert(b.e12 == 23624685);
    assert(b.e20 == 35845830);
    assert(b.e21 == -76172389);
    assert(b.e22 == 956884524);
    assert(a.e03 == 0 && a.e13 == 0 && a.e23 == 0);
    assert(b.e03 == 0 && b.e13 == 0 && b.e23 == 0);
    assert(a.e00 * b.e00 + a.e01 * b.e10 + a.e02 * b.e20 == 999999998987823630) by (nonlinear_arith)
        requires
            a.e00 == 486570948,
            a.e01 == 265667692,
            a.e02 == 198217285,
            b.e00 == 2493496911,
            b.e10 == -829488969,
            b.e20 == 35845830,
    ;
    assert(a.e00 * b.e01 + a.e01 * b.e11 + a.e02 * b.e21 == -1023353261) by (nonlinear_arith)
        requires
            a.e00 == 486570948,
            a.e01 == 265667692,
            a.e02 == 198217285,
            b.e01 == -931383617,
            b.e11 == 1762664060,
            b.e21 == -76172389,
    ;
    assert(a.e00 * b.e02 + a.e01 * b.e12 + a.e02 * b.e22 == 3271128) by (nonlinear_arith)
        requires
            a.e00 == 486570948,
            a.e01 == 265667692,
            a.e02 == 198217285,
            b.e02 == -402710784,
            b.e12 == 23624685,
            b.e22 == 956884524,
    ;
    assert(a.e10 * b.e00 + a.e11 * b.e10 + a.e12 * b.e20 == -1823331336) by (nonlinear_arith)
        requires
            a.e10 == 228974563,
            a.e11 == 691738521,
            a.e12 == 79286914,
            b.e00 == 2493496911,
            b.e10 == -829488969,
            b.e20 == 35845830,
    ;
    assert(a.e10 * b.e01 + a.e11 * b.e11 + a.e12 * b.e21 == 999999999540503343) by (nonlinear_arith)
        requires
            a.e10 == 228974563,
            a.e11 == 691738521,
            a.e12 == 79286914,
            b.e01 == -931383617,
            b.e11 == 1762664060,
            b.e21 == -76172389,
    ;
    assert(a.e10 * b.e02 + a.e11 * b.e12 + a.e12 * b.e22 == -158477571) by (nonlinear_arith)
        requires
            a.e10 == 228974563,
            a.e11 == 691738521,
            a.e12 == 79286914,
            b.e02 == -402710784,
            b.e12 == 23624685,
            b.e22 == 956884524,
    ;
    assert(a.e20 * b.e00 + a.e21 * b.e10 + a.e22 * b.e20 == 415145421) by (nonlinear_arith)
        requires
            a.e20 == 0,
            a.e21 == 45113381,
            a.e22 == 1043944367,
            b.e00 == 2493496911,
            b.e10 == -829488969,
            b.e20 == 35845830,
    ;
    assert(a.e20 * b.e01 + a.e21 * b.e11 + a.e22 * b.e21 == -1103695903) by (nonlinear_arith)
        requires
            a.e20 == 0,
            a.e21 == 45113381,
            a.e22 == 1043944367,
            b.e01 == -931383617,
            b.e11 == 1762664060,
            b.e21 == -76172389,
    ;
    assert(a.e20 * b.e02 + a.e21 * b.e12 + a.e22 * b.e22 == 999999998114686293) by (nonlinear_arith)
        requires
            a.e20 == 0,
            a.e21 == 45113381,
            a.e22 == 1043944367,
            b.e02 == -402710784,
            b.e12 == 23624685,
            b.e22 == 956884524,
    ;
}

/// Round-trip law witnesses for the AdobeRgb preset.
#[verifier::rlimit(100)]
#[verifier::spinoff_prover]
proof fn lemma_round_trip_adobergb()
    ensures
        pm_ok(named_primaries_spec(NamedPrimaries::AdobeRgb)),
        mat_close(
            ms_mul(
                pm_to_xyz_val(named_primaries_spec(NamedPrimaries::AdobeRgb)),
                pm_from_val(named_primaries_spec(NamedPrimaries::AdobeRgb)),
            ),
            ms_identity(),
            ROUND_TRIP_TOL as int,
        ),
{
    let p = named_primaries_spec(NamedPrimaries::AdobeRgb);
    lemma_tdiv_eq(0, 1000000000, 0, 0);
    lemma_tdiv_eq(368696482, 1000000000, 0, 368696482);
    lemma_tdiv_eq(445475335, 1000000000, 0, 445475335);
    lemma_tdiv_eq(525394579, 1000000000, 0, 525394579);
    lemma_tdiv_eq(586275325, 1000000000, 0, 586275325);
    lemma_tdiv_eq(922870089, 1000000000, 0, 922870089);
    lemma_tdiv_eq(1048524403, 1000000000, 1, 48524403);
    lemma_tdiv_eq(27031361370000000, 1000000000, 27031361, 370000000);
    lemma_tdiv_eq(70688852480000000, 1000000000, 70688852, 480000000);
    lemma_tdiv_eq(75291458400000000, 1000000000, 75291458, 400000000);
    lemma_tdiv_eq(185558237760000000, 1000000000, 185558237, 760000000);
    lemma_tdiv_eq(188228646000000000, 1000000000, 188228646, 0);
    lemma_tdiv_eq(297344975070000000, 1000000000, 297344975, 70000000);
    lemma_tdiv_eq(312700000000000000, 329000000, 950455927, 17000000);
    lemma_tdiv_eq(358300000000000000, 329000000, 1089057750, 250000000);
    lemma_tdiv_eq(576669042560000000, 1000000000, 576669042, 560000000);
    lemma_tdiv_eq(627363565760000000, 1000000000, 627363565, 760000000);
    lemma_tdiv_eq(991337535600000000, 1000000000, 991337535, 600000000);
    lemma_tdiv_eq(999999997626597879, 1000000000, 999999997, 626597879);
    lemma_tdiv_eq(999999998483014074, 1000000000, 999999998, 483014074);
    lemma_tdiv_eq(999999998841194539, 1000000000, 999999998, 841194539);
    lemma_tdiv_eq(267115501524700000000000000, 302300000000000000, 883610656, 215900000000000000);
    lemma_tdiv_eq(272386018279700000000000000, 302300000000000000, 901045379, 208000000000000000);
    lemma_tdiv_eq(379343464752700000000000000, 302300000000000000, 1254857640, 180700000000000000);
    lemma_tdiv_eq(5100000000000000000000000000000000, 379343464752700000000000000, 13444280, 243694570444000000000000000);
    lemma_tdiv_eq(11100000000000000000000000000000000, 267115501524700000000000000, 41555057, 108557504592100000000000000);
    lemma_tdiv_eq(44900000000000000000000000000000000, 379343464752700000000000000, 118362392, 122302739541600000000000000);
    lemma_tdiv_eq(93900000000000000000000000000000000, 272386018279700000000000000, 344731350, 197314341405000000000000000);
    lemma_tdiv_eq(153900000000000000000000000000000000, 272386018279700000000000000, 565006974, 51878017372200000000000000);
    lemma_tdiv_eq(258900000000000000000000000000000000, 267115501524700000000000000, 969243636, 70236228190800000000000000);
    lemma_tdiv_eq(385100000000000000000000000000000000, 379343464752700000000000000, 1015174995, 66395101263500000000000000);
    lemma_tdiv_eq(501100000000000000000000000000000000, 267115501524700000000000000, 1875967501, 126346851225300000000000000);
    lemma_tdiv_eq(556100000000000000000000000000000000, 272386018279700000000000000, 2041587903, 133827609530900000000000000);
    assert(p.g.y@ * pm_zb(p) - pm_zg(p) * p.b.y@ == 556100000000000000) by (nonlinear_arith)
        requires
            p.g.y@ == 710000000,
            pm_zb(p) == 790000000,
            pm_zg(p) == 80000000,
            p.b.y@ == 60000000,
    ;
    assert(pm_srx(p) == 556100000000000000);
    assert(pm_zg(p) * p.b.x@ - p.g.x@ * pm_zb(p) == -153900000000000000) by (nonlinear_arith)
        requires
            pm_zg(p) == 80000000,
            p.b.x@ == 150000000,
            p.g.x@ == 210000000,
            pm_zb(p) == 790000000,
    ;
    assert(pm_sry(p) == -153900000000000000);
    assert(p.g.x@ * p.b.y@ - p.g.y@ * p.b.x@ == -93900000000000000) by (nonlinear_arith)
        requires
            p.g.x@ == 210000000,
            p.b.y@ == 60000000,
            p.g.y@ == 710000000,
            p.b.x@ == 150000000,
    ;
    assert(pm_srz(p) == -93900000000000000);
    assert(pm_zr(p) * p.b.y@ - p.r.y@ * pm_zb(p) == -258900000000000000) by (nonlinear_arith)
        requires
            pm_zr(p) == 30000000,
            p.b.y@ == 60000000,
            p.r.y@ == 330000000,
            pm_zb(p) == 790000000,
    ;
    assert(pm_sgx(p) == -258900000000000000);
    assert(p.r.y@ * p.b.x@ - p.r.x@ * p.b.y@ == 11100000000000000) by (nonlinear_arith)
        requires
            p.r.y@ == 330000000,
            p.b.x@ == 150000000,
            p.r.x@ == 640000000,
            p.b.y@ == 60000000,
    ;
    assert(pm_sgz(p) == 11100000000000000);
    assert(p.r.x@ * pm_zb(p) - pm_zr(p) * p.b.x@ == 501100000000000000) by (nonlinear_arith)
        requires
            p.r.x@ == 640000000,
            pm_zb(p) == 790000000,
            pm_zr(p) == 30000000,
            p.b.x@ == 150000000,
    ;
    assert(pm_sgy(p) == 501100000000000000);
    assert(p.r.y@ * pm_zg(p) - pm_zr(p) * p.g.y@ == 5100000000000000) by (nonlinear_arith)
        requires
            p.r.y@ == 330000000,
            pm_zg(p) == 80000000,
            pm_zr(p) == 30000000,
            p.g.y@ == 710000000,
    ;
    assert(pm_sbx(p) == 5100000000000000);
    assert(pm_zr(p) * p.g.x@ - p.r.x@ * pm_zg(p) == -44900000000000000) by (nonlinear_arith)
        requires
            pm_zr(p) == 30000000,
            p.g.x@ == 210000000,
            p.r.x@ == 640000000,
            pm_zg(p) == 80000000,
    ;
    assert(pm_sby(p) == -44900000000000000);
    assert(p.r.x@ * p.g.y@ - p.r.y@ * p.g.x@ == 385100000000000000) by (nonlinear_arith)
        requires
            p.r.x@ == 640000000,
            p.g.y@ == 710000000,
            p.r.y@ == 330000000,
            p.g.x@ == 210000000,
    ;
    assert(pm_sbz(p) == 385100000000000000);
    assert(pm_det(p) == 302300000000000000);
    assert(p.wp.x@ * SCALE as int == 312700000000000000) by (nonlinear_arith)
        requires
            p.wp.x@ == 312700000,
    ;
    assert(chroma_big_x(p.wp) == 950455927);
    assert((SCALE as int - p.wp.x@ - p.wp.y@) * SCALE as int == 358300000000000000) by (nonlinear_arith)
        requires
            p.wp.x@ == 312700000,
            p.wp.y@ == 329000000,
    ;
    assert(chroma_big_z(p.wp) == 1089057750);
    assert(pm_srx(p) * chroma_big_x(p.wp) + pm_sry(p) * SCALE as int + pm_srz(p) * chroma_big_z(p.wp) == 272386018279700000000000000) by (nonlinear_arith)
        requires
            pm_srx(p) == 556100000000000000,
            pm_sry(p) == -153900000000000000,
            pm_srz(p) == -93900000000000000,
            chroma_big_x(p.wp) == 950455927,
            chroma_big_z(p.wp) == 1089057750,
    ;
    assert(pm_sr(p) == 272386018279700000000000000);
    assert(pm_sgx(p) * chroma_big_x(p.wp) + pm_sgy(p) * SCALE as int + pm_sgz(p) * chroma_big_z(p.wp) == 267115501524700000000000000) by (nonlinear_arith)
        requires
            pm_sgx(p) == -258900000000000000,
            pm_sgy(p) == 501100000000000000,
            pm_sgz(p) == 11100000000000000,
            chroma_big_x(p.wp) == 950455927,
            chroma_big_z(p.wp) == 1089057750,
    ;
    assert(pm_sg(p) == 267115501524700000000000000);
    assert(pm_sbx(p) * chroma_big_x(p.wp) + pm_sby(p) * SCALE as int + pm_sbz(p) * chroma_big_z(p.wp) == 379343464752700000000000000) by (nonlinear_arith)
        requires
            pm_sbx(p) == 5100000000000000,
            pm_sby(p) == -44900000000000000,
            pm_sbz(p) == 385100000000000000,
            chroma_big_x(p.wp) == 950455927,
            chroma_big_z(p.wp) == 1089057750,
    ;
    assert(pm_sb(p) == 379343464752700000000000000);
    assert(pm_srp(p) == 901045379);
    assert(pm_sgp(p) == 883610656);
    assert(pm_sbp(p) == 1254857640);
    assert(pm_srp(p) * p.r.x@ == 576669042560000000) by (nonlinear_arith)
        requires
            pm_srp(p) == 901045379,
            p.r.x@ == 640000000,
    ;
    assert(pm_sgp(p) * p.g.x@ == 185558237760000000) by (nonlinear_arith)
        requires
            pm_sgp(p) == 883610656,
            p.g.x@ == 210000000,
    ;
    assert(pm_sbp(p) * p.b.x@ == 188228646000000000) by (nonlinear_arith)
        requires
            pm_sbp(p) == 1254857640,
            p.b.x@ == 150000000,
    ;
    assert(pm_srp(p) * p.r.y@ == 297344975070000000) by (nonlinear_arith)
        requires
            pm_srp(p) == 901045379,
            p.r.y@ == 330000000,
    ;
    assert(pm_sgp(p) * p.g.y@ == 627363565760000000) by (nonlinear_arith)
        requires
            pm_sgp(p) == 883610656,
            p.g.y@ == 710000000,
    ;
    assert(pm_sbp(p) * p.b.y@ == 75291458400000000) by (nonlinear_arith)
        requires
            pm_sbp(p) == 1254857640,
            p.b.y@ == 60000000,
    ;
    assert(pm_srp(p) * pm_zr(p) == 27031361370000000) by (nonlinear_arith)
        requires
            pm_srp(p) == 901045379,
            pm_zr(p) == 30000000,
    ;
    assert(pm_sgp(p) * pm_zg(p) == 70688852480000000) by (nonlinear_arith)
        requires
            pm_sgp(p) == 883610656,
            pm_zg(p) == 80000000,
    ;
    assert(pm_sbp(p) * pm_zb(p) == 991337535600000000) by (nonlinear_arith)
        requires
            pm_sbp(p) == 1254857640,
            pm_zb(p) == 790000000,
    ;
    let a = pm_to_xyz_val(p);
    assert(a.e00 == 576669042);
    assert(a.e01 == 185558237);
    assert(a.e02 == 188228646);
    assert(a.e10 == 297344975);
    assert(a.e11 == 627363565);
    assert(a.e12 == 75291458);
    assert(a.e20 == 27031361);
    assert(a.e21 == 70688852);
    assert(a.e22 == 991337535);
    assert(pm_srx(p) * (SCALE as int * SCALE as int) == 556100000000000000000000000000000000) by (nonlinear_arith)
        requires
            pm_srx(p) == 556100000000000000,
    ;
    assert(pm_sry(p) * (SCALE as int * SCALE as int) == -153900000000000000000000000000000000) by (nonlinear_arith)
        requires
            pm_sry(p) == -153900000000000000,
    ;
    assert(pm_srz(p) * (SCALE as int * SCALE as int) == -93900000000000000000000000000000000) by (nonlinear_arith)
        requires
            pm_srz(p) == -93900000000000000,
    ;
    assert(pm_sgx(p) * (SCALE as int * SCALE as int) == -258900000000000000000000000000000000) by (nonlinear_arith)
        requires
            pm_sgx(p) == -258900000000000000,
    ;
    assert(pm_sgy(p) * (SCALE as int * SCALE as int) == 501100000000000000000000000000000000) by (nonlinear_arith)
        requires
            pm_sgy(p) == 501100000000000000,
    ;
    assert(pm_sgz(p) * (SCALE as int * SCALE as int) == 11100000000000000000000000000000000) by (nonlinear_arith)
        requires
            pm_sgz(p) == 11100000000000000,
    ;
    assert(pm_sbx(p) * (SCALE as int * SCALE as int) == 5100000000000000000000000000000000) by (nonlinear_arith)
        requires
            pm_sbx(p) == 5100000000000000,
    ;
    assert(pm_sby(p) * (SCALE as int * SCALE as int) == -44900000000000000000000000000000000) by (nonlinear_arith)
        requires
            pm_sby(p) == -44900000000000000,
    ;
    assert(pm_sbz(p) * (SCALE as int * SCALE as int) == 385100000000000000000000000000000000) by (nonlinear_arith)
        requires
            pm_sbz(p) == 385100000000000000,
    ;
    let b = pm_from_val(p);
    assert(b.e00 == 2041587903);
    assert(b.e01 == -565006974);
    assert(b.e02 == -344731350);
    assert(b.e10 == -969243636);
    assert(b.e11 == 1875967501);
    assert(b.e12 == 41555057);
    assert(b.e20 == 13444280);
    assert(b.e21 == -118362392);
    assert(b.e22 == 1015174995);
    assert(a.e03 == 0 && a.e13 == 0 && a.e23 == 0);
    assert(b.e03 == 0 && b.e13 == 0 && b.e23 == 0);
    assert(a.e00 * b.e00 + a.e01 * b.e10 + a.e02 * b.e20 == 999999998483014074) by (nonlinear_arith)
        requires
            a.e00 == 576669042,
            a.e01 == 185558237,
            a.e02 == 188228646,
            b.e00 == 2041587903,
            b.e10 == -969243636,
            b.e20 == 13444280,
    ;
    assert(a.e00 * b.e01 + a.e01 * b.e11 + a.e02 * b.e21 == -1048524403) by (nonlinear_arith)
        requires
            a.e00 == 576669042,
            a.e01 == 185558237,
            a.e02 == 188228646,
            b.e01 == -565006974,
            b.e11 == 1875967501,
            b.e21 == -118362392,
    ;
    assert(a.e00 * b.e02 + a.e01 * b.e12 + a.e02 * b.e22 == 525394579) by (nonlinear_arith)
        requires
            a.e00 == 576669042,
            a.e01 == 185558237,
            a.e02 == 188228646,
            b.e02 == -344731350,
            b.e12 == 41555057,
            b.e22 == 1015174995,
    ;
    assert(a.e10 * b.e00 + a.e11 * b.e10 + a.e12 * b.e20 == 586275325) by (nonlinear_arith)
        requires
            a.e10 == 297344975,
            a.e11 == 627363565,
            a.e12 == 75291458,
            b.e00 == 2041587903,
            b.e10 == -969243636,
            b.e20 == 13444280,
    ;
    assert(a.e10 * b.e01 + a.e11 * b.e11 + a.e12 * b.e21 == 999999997626597879) by (nonlinear_arith)
        requires
            a.e10 == 297344975,
            a.e11 == 627363565,
            a.e12 == 75291458,
            b.e01 == -565006974,
            b.e11 == 1875967501,
            b.e21 == -118362392,
    ;
    assert(a.e10 * b.e02 + a.e11 * b.e12 + a.e12 * b.e22 == -445475335) by (nonlinear_arith)
        requires
            a.e10 == 297344975,
            a.e11 == 627363565,
            a.e12 == 75291458,
            b.e02 == -344731350,
            b.e12 == 41555057,
            b.e22 == 1015174995,
    ;
    assert(a.e20 * b.e00 + a.e21 * b.e10 + a.e22 * b.e20 == -922870089) by (nonlinear_arith)
        requires
            a.e20 == 27031361,
            a.e21 == 70688852,
            a.e22 == 991337535,
            b.e00 == 2041587903,
            b.e10 == -969243636,
            b.e20 == 13444280,
    ;
    assert(a.e20 * b.e01 + a.e21 * b.e11 + a.e22 * b.e21 == -368696482) by (nonlinear_arith)
        requires
            a.e20 == 27031361,
            a.e21 == 70688852,
            a.e22 == 991337535,
            b.e01 == -565006974,
            b.e11 == 1875967501,
            b.e21 == -118362392,
    ;
    assert(a.e20 * b.e02 + a.e21 * b.e12 + a.e22 * b.e22 == 999999998841194539) by (nonlinear_arith)
        requires
            a.e20 == 27031361,
            a.e21 == 70688852,
            a.e22 == 991337535,
            b.e02 == -344731350,
            b.e12 == 41555057,
            b.e22 == 1015174995,
    ;
}

/// The unit fill color: full lightness, no chroma, zero hue, the
/// reference luminance of 203 candela per square meter.
pub open spec fn unit_fill_color() -> Color {
    Color {
        lumen: Fixed { v: 203_000_000_000 },
        lightness: Fixed { v: SCALE },
        chroma: Fixed { v: 0 },
        hue: Fixed { v: 0 },
    }
}

/// The resolved unit fill corner color: lightness one, no chromaticity
/// offsets, full alpha.
pub open spec fn unit_lab() -> Lab {
    Lab { l: Fixed { v: SCALE }, a: Fixed { v: 0 }, b: Fixed { v: 0 }, alpha: Fixed { v: SCALE } }
}

/// Fill law: the unit fill color resolves to exactly lightness one with
/// zero offsets, and a fill scene of it compiles to exactly one
/// full-canvas rectangle whose four corners all carry that color.
pub proof fn lemma_unit_fill_scene()
    ensures
        tla_ok(unit_fill_color()),
        tla_val(unit_fill_color(), SCALE as int) == unit_lab()@,
        crate::scene::compile_ok(Scene::Fill(unit_lab())),
        compile_val(Scene::Fill(unit_lab())).len() == 1,
        compile_val(Scene::Fill(unit_lab()))[0] == rect_canvas(
            unit_lab()@,
            unit_lab()@,
            unit_lab()@,
            unit_lab()@,
        ),
        lch_val(unit_lab()@) == unit_lab()@,
{
    lemma_tdiv_eq(203_000_000_000_000_000_000, 203_000_000_000, 1_000_000_000, 0);
    lemma_tdiv_eq(1_000_000_000_000_000_000, 1_000_000_000, 1_000_000_000, 0);
    lemma_tdiv_eq(0, 1_000_000_000, 0, 0);
    lemma_tdiv_eq(0, 180_000_000_000, 0, 0);
    assert(1_000_000_000int * 1_000_000_000int * 1_000_000_000int
        == 1_000_000_000_000_000_000_000_000_000int);
    assert(1_000_000_001int * 1_000_000_001int * 1_000_000_001int
        == 1_000_000_003_000_000_003_000_000_001int);
    assert(is_cube_root(1_000_000_000, 1_000_000_000_000_000_000_000_000_000));
    lemma_cbrt_value(1_000_000_000, 1_000_000_000_000_000_000_000_000_000);
    assert(crate::scene::tla_mul(unit_fill_color()) == 1_000_000_000);
}

/// Grid law: a two-by-two checkerboard compiles to exactly three
/// rectangles, the background and the two cells whose row plus column is
/// odd, whatever the two colors.
pub proof fn lemma_grid_two_by_two(bg: Lab, fg: Lab)
    ensures
        compile_val(Scene::Grid(bg, fg, 2, 2)).len() == 3,
{
    vstd::arithmetic::div_mod::lemma_fundamental_div_mod_converse_mod(0, 2, 0, 0);
    vstd::arithmetic::div_mod::lemma_fundamental_div_mod_converse_mod(1, 2, 0, 1);
    vstd::arithmetic::div_mod::lemma_fundamental_div_mod_converse_mod(2, 2, 1, 0);
    let w = grid_w(2);
    let c = lch_val(fg@);
    assert(grid_row_cells(0, 0, w, w, c).len() == 0);
    assert(grid_row_cells(0, 1, w, w, c).len() == 0);
    assert(grid_row_cells(0, 2, w, w, c).len() == 1);
    assert(grid_row_cells(1, 0, w, w, c).len() == 0);
    assert(grid_row_cells(1, 1, w, w, c).len() == 1);
    assert(grid_row_cells(1, 2, w, w, c).len() == 1);
    assert(grid_rows_cells(0, 2, w, w, c).len() == 0);
    assert(grid_rows_cells(1, 2, w, w, c).len() == 1);
    assert(grid_rows_cells(2, 2, w, w, c).len() == 2);
}

/// Blend law: the blend-left half compiles to exactly one rectangle, and
/// the blend-right half to exactly three (background, foreground, and the
/// precomputed composite), whatever the colors.
pub proof fn lemma_blend_pass_shapes(l: Lab, b: Lab, f: Lab)
    ensures
        compile_val(Scene::BlendLeft(l)).len() == 1,
        compile_val(Scene::BlendRight(b, f)).len() == 3,
{
}

} // verus!
