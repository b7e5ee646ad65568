//! Tests of the fixed-point kernel and the color matrix library.

use wayland_color_test::cmm::{
    bradford_adjustment, matrix_from_lms, white_balance, Chromaticity, ColorMatrix, Lms, Local,
    Luminance, NamedPrimaries, Primaries, Xyz,
};
use wayland_color_test::fixed::{Fixed, SCALE};

fn fx(v: i64) -> Fixed {
    Fixed { v }
}

fn chroma(x: i64, y: i64) -> Chromaticity {
    Chromaticity { x: fx(x), y: fx(y) }
}

fn entries<T, U>(m: &ColorMatrix<T, U>) -> [i64; 12] {
    [
        m.e00.v, m.e01.v, m.e02.v, m.e03.v, m.e10.v, m.e11.v, m.e12.v, m.e13.v, m.e20.v, m.e21.v,
        m.e22.v, m.e23.v,
    ]
}

#[test]
fn fixed_arithmetic_truncates_toward_zero() {
    let half = fx(1_500_000_000);
    assert_eq!(half.fmul(half).unwrap().v, 2_250_000_000);
    assert_eq!(fx(-3_000_000_000).fdiv(fx(2_000_000_000)).unwrap().v, -1_500_000_000);
    assert_eq!(fx(1).fmul(fx(1)).unwrap().v, 0);
    assert_eq!(fx(-1).fdiv(fx(3)).unwrap().v, -333_333_333);
    assert_eq!(fx(7).fdiv(fx(0)), None);
    assert_eq!(fx(i64::MAX).fadd(fx(1)), None);
    assert_eq!(fx(i64::MAX).fmul(fx(i64::MAX)), None);
    assert_eq!(Fixed::from_whole(203).v, 203_000_000_000);
}

#[test]
fn fixed_cube_root_is_exact_on_cubes_and_odd() {
    assert_eq!(fx(8_000_000_000).fcbrt().v, 2_000_000_000);
    assert_eq!(fx(-8_000_000_000).fcbrt().v, -2_000_000_000);
    assert_eq!(fx(SCALE).fcbrt().v, SCALE);
    assert_eq!(fx(0).fcbrt().v, 0);
}

#[test]
fn fixed_trigonometry_matches_the_series() {
    assert_eq!(fx(0).fcos().v, 1_000_000_000);
    assert_eq!(fx(0).fsin().v, 6);
    assert_eq!(fx(3_141_592_653).fcos().v, -1_000_000_000);
    assert_eq!(fx(1_570_796_326).fcos().v, -6);
    assert_eq!(fx(1_570_796_326).fsin().v, 1_000_000_000);
    assert_eq!(fx(SCALE).fcos().v, 540_302_306);
    assert_eq!(fx(SCALE).fsin().v, 841_470_985);
    assert_eq!(fx(-1_047_197_551).fcos().v, 500_000_001);
}

#[test]
fn srgb_matrices_match_the_reference_derivation() {
    let p = NamedPrimaries::Srgb.primaries();
    let (to_xyz, from_xyz) = p.matrices().unwrap();
    // Reference values from the standard sRGB derivation (row-major 3x3).
    let expect_to = [
        0.4123908, 0.3575843, 0.1804808, 0.2126390, 0.7151687, 0.0721923, 0.0193308, 0.1191948,
        0.9505322,
    ];
    let expect_from = [
        3.2409699, -1.5373832, -0.4986108, -0.9692436, 1.8759675, 0.0415551, 0.0556301,
        -0.2039770, 1.0569715,
    ];
    let t = entries(&to_xyz);
    let f = entries(&from_xyz);
    let lin = [0usize, 1, 2, 4, 5, 6, 8, 9, 10];
    for (k, &i) in lin.iter().enumerate() {
        let tv = t[i] as f64 / SCALE as f64;
        let fv = f[i] as f64 / SCALE as f64;
        assert!((tv - expect_to[k]).abs() < 1e-5, "to[{k}] = {tv}");
        assert!((fv - expect_from[k]).abs() < 1e-5, "from[{k}] = {fv}");
    }
    assert_eq!(t[3], 0);
    assert_eq!(t[7], 0);
    assert_eq!(t[11], 0);
}

#[test]
fn preset_round_trips_reproduce_identity() {
    let presets = [
        NamedPrimaries::Srgb,
        NamedPrimaries::PalM,
        NamedPrimaries::Pal,
        NamedPrimaries::Ntsc,
        NamedPrimaries::GenericFilm,
        NamedPrimaries::Bt2020,
        NamedPrimaries::Cie1931Xyz,
        NamedPrimaries::DciP3,
        NamedPrimaries::DisplayP3,
        NamedPrimaries::AdobeRgb,
    ];
    for p in presets {
        let (to_xyz, from_xyz) = p.primaries().matrices().unwrap();
        let rt = to_xyz.mul(&from_xyz).unwrap();
        let e = entries(&rt);
        let identity = [SCALE, 0, 0, 0, 0, SCALE, 0, 0, 0, 0, SCALE, 0];
        for i in 0..12 {
            assert!((e[i] - identity[i]).abs() <= 100, "{p:?} entry {i}: {}", e[i]);
        }
    }
}

#[test]
fn degenerate_primaries_are_rejected() {
    let c = chroma(300_000_000, 300_000_000);
    let p = Primaries { r: c, g: c, b: c, wp: chroma(312_700_000, 329_000_000) };
    assert!(p.matrices().is_err());
    let horizon = Primaries {
        r: chroma(640_000_000, 330_000_000),
        g: chroma(300_000_000, 600_000_000),
        b: chroma(150_000_000, 60_000_000),
        wp: chroma(312_700_000, 0),
    };
    assert!(horizon.matrices().is_err());
}

#[test]
fn white_balance_of_the_reference_range_is_identity() {
    let srgb = Luminance::srgb();
    let m = white_balance(&srgb, &srgb, NamedPrimaries::Srgb.primaries().wp).unwrap();
    assert_eq!(entries(&m), [SCALE, 0, 0, 0, 0, SCALE, 0, 0, 0, 0, SCALE, 0]);
    // Any other valid white point gives the identity too.
    let m2 = white_balance(&srgb, &srgb, chroma(314_000_000, 351_000_000)).unwrap();
    assert_eq!(entries(&m2), [SCALE, 0, 0, 0, 0, SCALE, 0, 0, 0, 0, SCALE, 0]);
}

#[test]
fn white_balance_rejects_a_zero_extent_range() {
    let srgb = Luminance::srgb();
    let flat = Luminance { min: fx(0), max: fx(0), white: fx(0) };
    assert!(white_balance(&srgb, &flat, NamedPrimaries::Srgb.primaries().wp).is_err());
}

#[test]
fn white_balance_scrgb_scales_down_to_eighty_nits() {
    // The scRGB white level is chosen so that the gain is the ratio of
    // that white to the full range: (25375 - 0.2) / (80 - 0.2) * 79.8 /
    // 10000, minus the tiny offset.
    let m = white_balance(
        &Luminance::srgb(),
        &Luminance::windows_scrgb(),
        NamedPrimaries::Srgb.primaries().wp,
    )
    .unwrap();
    let s = m.e00.v as f64 / SCALE as f64;
    assert!((s - 2.53746).abs() < 1e-4, "scale {s}");
}

#[test]
fn bradford_of_identical_white_points_is_near_identity() {
    let wps = [chroma(312_700_000, 329_000_000), chroma(314_000_000, 351_000_000)];
    for wp in wps {
        let m = bradford_adjustment(wp, wp).unwrap();
        let e = entries(&m);
        let identity = [SCALE, 0, 0, 0, 0, SCALE, 0, 0, 0, 0, SCALE, 0];
        for i in 0..12 {
            assert!((e[i] - identity[i]).abs() <= 200_000, "entry {i}: {}", e[i]);
        }
    }
}

#[test]
fn bradford_rejects_a_horizon_white_point() {
    assert!(bradford_adjustment(chroma(312_700_000, 0), chroma(312_700_000, 329_000_000)).is_err());
}

#[test]
fn reference_description_skips_both_stages() {
    let p = NamedPrimaries::Srgb.primaries();
    let m = matrix_from_lms(p, Luminance::srgb()).unwrap();
    let (_, from_xyz) = p.matrices().unwrap();
    let direct: ColorMatrix<Local, Lms> = from_xyz.mul(&ColorMatrix::xyz_from_lms()).unwrap();
    assert!(m.same_as(&direct));
}

#[test]
fn non_reference_white_point_applies_adaptation() {
    let p = NamedPrimaries::DciP3.primaries();
    let m = matrix_from_lms(p, Luminance::srgb()).unwrap();
    let (_, from_xyz) = p.matrices().unwrap();
    let direct: ColorMatrix<Local, Lms> = from_xyz.mul(&ColorMatrix::xyz_from_lms()).unwrap();
    assert!(!m.same_as(&direct));
}

#[test]
fn multiplication_by_identity_is_exact() {
    let p = NamedPrimaries::Bt2020.primaries();
    let (to_xyz, _) = p.matrices().unwrap();
    let i: ColorMatrix<Local, Local> = ColorMatrix::identity();
    let m = to_xyz.mul(&i).unwrap();
    assert!(m.same_as(&to_xyz));
}

#[test]
fn composition_is_associative_within_tolerance() {
    let srgb = NamedPrimaries::Srgb.primaries();
    let (a, _) = srgb.matrices().unwrap();
    let b: ColorMatrix<Local, Local> =
        white_balance(&Luminance::srgb(), &Luminance::bt1886(), srgb.wp)
            .map(|m| ColorMatrix::new(m.e00, m.e01, m.e02, m.e03, m.e10, m.e11, m.e12, m.e13, m.e20, m.e21, m.e22, m.e23))
            .unwrap();
    let c: ColorMatrix<Local, Local> = {
        let m = bradford_adjustment(srgb.wp, chroma(314_000_000, 351_000_000)).unwrap();
        ColorMatrix::new(m.e00, m.e01, m.e02, m.e03, m.e10, m.e11, m.e12, m.e13, m.e20, m.e21, m.e22, m.e23)
    };
    let lhs = a.mul(&b).unwrap().mul(&c).unwrap();
    let rhs = a.mul(&b.mul(&c).unwrap()).unwrap();
    let le = entries(&lhs);
    let re = entries(&rhs);
    for i in 0..12 {
        assert!((le[i] - re[i]).abs() <= 20, "entry {i}: {} vs {}", le[i], re[i]);
    }
}

#[test]
fn luminance_defaults_to_the_reference_range() {
    assert_eq!(Luminance::default(), Luminance::srgb());
    assert_eq!(Luminance::srgb().min.v, 200_000_000);
    assert_eq!(Luminance::st2084_pq().white.v, 203_000_000_000);
    assert_eq!(Luminance::windows_scrgb().white.v, 25_375_000_000_000);
}
