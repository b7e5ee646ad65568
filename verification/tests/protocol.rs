//! Tests of the protocol conversions and the test-pane decisions.

use wayland_color_test::cmm::{
    Luminance, NamedPrimaries, NamedTransferFunction, TransferFunction,
};
use wayland_color_test::fixed::{Fixed, SCALE};
use wayland_color_test::pane::{
    configure_size, description_done, matrix_for_description, resolve_luminance, Capablities,
    DescriptionData, FeedbackError, TestColorDescription, TestPrimaries,
};
use wayland_color_test::protocol::{
    luminance_from_wire, luminance_to_wire, primaries_from_wire, primaries_to_wire, tf_from_wire,
    primaries_named_from_wire, WpColorManagerV1Feature, WpColorManagerV1Primaries,
    WpColorManagerV1TransferFunction,
};
use wayland_color_test::cmm::matrix_from_lms;

fn fx(v: i64) -> Fixed {
    Fixed { v }
}

#[test]
fn protocol_codes_match_the_enumeration() {
    assert_eq!(WpColorManagerV1Primaries::Srgb.code(), 1);
    assert_eq!(WpColorManagerV1Primaries::AdobeRgb.code(), 10);
    assert_eq!(WpColorManagerV1TransferFunction::Bt1886.code(), 1);
    assert_eq!(WpColorManagerV1TransferFunction::Srgb.code(), 9);
    assert_eq!(WpColorManagerV1TransferFunction::St2084Pq.code(), 11);
    assert_eq!(WpColorManagerV1TransferFunction::Hlg.code(), 13);
}

#[test]
fn named_mappings_cover_the_protocol() {
    assert_eq!(NamedPrimaries::Srgb.wayland(), WpColorManagerV1Primaries::Srgb);
    assert_eq!(NamedPrimaries::Cie1931Xyz.wayland(), WpColorManagerV1Primaries::Cie1931Xyz);
    assert_eq!(
        NamedTransferFunction::Linear.wayland(),
        WpColorManagerV1TransferFunction::ExtLinear,
    );
    assert_eq!(NamedTransferFunction::ExtSrgb.wayland(), WpColorManagerV1TransferFunction::ExtSrgb);
    for p in [
        WpColorManagerV1Primaries::Srgb,
        WpColorManagerV1Primaries::PalM,
        WpColorManagerV1Primaries::DciP3,
    ] {
        assert_eq!(primaries_named_from_wire(p).wayland(), p);
    }
}

#[test]
fn transfer_functions_without_a_decode_are_refused() {
    assert_eq!(tf_from_wire(WpColorManagerV1TransferFunction::Xvycc), None);
    assert_eq!(tf_from_wire(WpColorManagerV1TransferFunction::Hlg), None);
    assert_eq!(
        tf_from_wire(WpColorManagerV1TransferFunction::ExtLinear),
        Some(NamedTransferFunction::Linear),
    );
    assert_eq!(
        tf_from_wire(WpColorManagerV1TransferFunction::St428),
        Some(NamedTransferFunction::St428),
    );
}

#[test]
fn primaries_travel_the_wire_in_millionths() {
    let p = NamedPrimaries::Srgb.primaries();
    let w = primaries_to_wire(&p);
    assert_eq!((w.r_x, w.r_y), (640_000, 330_000));
    assert_eq!((w.w_x, w.w_y), (312_700, 329_000));
    let back = primaries_from_wire(&w);
    assert_eq!(back, p);
}

#[test]
fn luminance_travels_the_wire_with_scaled_minimum() {
    let l = Luminance::srgb();
    assert_eq!(luminance_to_wire(&l), (2000, 80, 80));
    let back = luminance_from_wire(2000, 80, 80);
    assert_eq!(back, l);
    // Negative and oversized values saturate.
    let odd = Luminance { min: fx(-5), max: fx(i64::MAX), white: fx(80 * SCALE) };
    let (min, max, white) = luminance_to_wire(&odd);
    assert_eq!(min, 0);
    assert_eq!(max, u32::MAX);
    assert_eq!(white, 80);
}

#[test]
fn resolve_luminance_defaults_follow_the_transfer_function() {
    let pq = TransferFunction::Named(NamedTransferFunction::St2084Pq);
    let bt = TransferFunction::Named(NamedTransferFunction::Bt1886);
    let srgb = TransferFunction::Named(NamedTransferFunction::Srgb);
    assert_eq!(resolve_luminance(pq, None).unwrap(), Luminance::st2084_pq());
    assert_eq!(resolve_luminance(bt, None).unwrap(), Luminance::bt1886());
    assert_eq!(resolve_luminance(srgb, None).unwrap(), Luminance::srgb());
    // An explicit range overrides; under PQ the maximum is pinned ten
    // thousand units above the minimum.
    let l = Luminance { min: fx(5 * SCALE), max: fx(400 * SCALE), white: fx(100 * SCALE) };
    let r = resolve_luminance(pq, Some(l)).unwrap();
    assert_eq!(r.min, l.min);
    assert_eq!(r.white, l.white);
    assert_eq!(r.max.v, 10_005_000_000_000);
    let r = resolve_luminance(srgb, Some(l)).unwrap();
    assert_eq!(r.max, l.max);
}

#[test]
fn description_matrices_follow_the_description() {
    let native = matrix_for_description(&TestColorDescription::Native).unwrap();
    let direct =
        matrix_from_lms(NamedPrimaries::Srgb.primaries(), Luminance::srgb()).unwrap();
    assert!(native.same_as(&direct));
    let scrgb = matrix_for_description(&TestColorDescription::ScRgb).unwrap();
    let direct =
        matrix_from_lms(NamedPrimaries::Srgb.primaries(), Luminance::windows_scrgb()).unwrap();
    assert!(scrgb.same_as(&direct));
    let parametric = matrix_for_description(&TestColorDescription::Parametric {
        primaries: TestPrimaries::Named(NamedPrimaries::Bt2020),
        transfer_function: TransferFunction::Named(NamedTransferFunction::St2084Pq),
        luminance: None,
    })
    .unwrap();
    let direct =
        matrix_from_lms(NamedPrimaries::Bt2020.primaries(), Luminance::st2084_pq()).unwrap();
    assert!(parametric.same_as(&direct));
}

#[test]
fn out_of_range_custom_primaries_are_rejected() {
    let mut p = NamedPrimaries::Srgb.primaries();
    p.r.x = fx(2 * SCALE);
    let r = matrix_for_description(&TestColorDescription::Parametric {
        primaries: TestPrimaries::Custom(p),
        transfer_function: TransferFunction::Named(NamedTransferFunction::Srgb),
        luminance: None,
    });
    assert!(r.is_err());
}

#[test]
fn feedback_requires_primaries_and_transfer_function() {
    let tp = TestPrimaries::Named(NamedPrimaries::Srgb);
    let tf = TransferFunction::Named(NamedTransferFunction::Srgb);
    assert_eq!(description_done(None, Some(tf), None), Err(FeedbackError::NoPrimaries));
    assert_eq!(description_done(Some(tp), None, None), Err(FeedbackError::NoTransferFunction));
    assert_eq!(
        description_done(Some(tp), Some(tf), None),
        Ok(DescriptionData { primaries: tp, tf, luminance: None }),
    );
}

#[test]
fn configure_falls_back_to_the_default_extent() {
    assert_eq!(configure_size(0, 600), (800, 600));
    assert_eq!(configure_size(1024, -1), (1024, 600));
    assert_eq!(configure_size(1024, 768), (1024, 768));
}

#[test]
fn capabilities_record_each_announcement_once() {
    let mut caps = Capablities::new();
    assert!(!caps.supports_feature(WpColorManagerV1Feature::Parametric));
    caps.add_feature(WpColorManagerV1Feature::Parametric);
    caps.add_feature(WpColorManagerV1Feature::Parametric);
    caps.add_feature(WpColorManagerV1Feature::SetLuminances);
    assert!(caps.supports_feature(WpColorManagerV1Feature::Parametric));
    assert_eq!(caps.features.len(), 2);
    caps.add_tf(WpColorManagerV1TransferFunction::Srgb);
    assert!(caps.supports_tf(WpColorManagerV1TransferFunction::Srgb));
    assert!(!caps.supports_tf(WpColorManagerV1TransferFunction::Hlg));
    caps.add_primaries(WpColorManagerV1Primaries::Srgb);
    assert!(caps.supports_primaries(WpColorManagerV1Primaries::Srgb));
}
