//! Tests of the scene compiler and the frame planner.

use wayland_color_test::fixed::{Fixed, SCALE};
use wayland_color_test::pane::{frame_plan, TestColorDescription, TestScene};
use wayland_color_test::scene::{compile_scene, lch_to_lab, Color, Lab, Scene};
use wayland_color_test::cmm::{NamedTransferFunction, TransferFunction};

fn fx(v: i64) -> Fixed {
    Fixed { v }
}

fn color(lumen: i64, lightness: i64, chroma: i64, hue: i64) -> Color {
    Color { lumen: fx(lumen), lightness: fx(lightness), chroma: fx(chroma), hue: fx(hue) }
}

fn corners(r: &wayland_color_test::scene::FillRect) -> [[i64; 4]; 4] {
    [r.c0, r.c1, r.c2, r.c3].map(|c| [c.l.v, c.a.v, c.b.v, c.alpha.v])
}

#[test]
fn unit_fill_produces_one_canvas_rectangle_of_unit_color() {
    let c = color(203 * SCALE, SCALE, 0, 0);
    let lab = c.to_lab().unwrap();
    assert_eq!((lab.l.v, lab.a.v, lab.b.v, lab.alpha.v), (SCALE, 0, 0, SCALE));
    let rects = compile_scene(&Scene::Fill(lab)).unwrap();
    assert_eq!(rects.len(), 1);
    let r = &rects[0];
    assert_eq!((r.x1.v, r.y1.v, r.x2.v, r.y2.v), (-SCALE, -SCALE, SCALE, SCALE));
    for corner in corners(r) {
        assert_eq!(corner, [SCALE, 0, 0, SCALE]);
    }
}

#[test]
fn luminance_scale_is_the_cube_root_of_the_ratio() {
    // lumen 25.375 = 203 / 8, so the pre-scale is the cube root of 1/8.
    let c = color(25_375_000_000, SCALE, 0, 0);
    let lab = c.to_lab().unwrap();
    assert_eq!(lab.l.v, 500_000_000);
}

#[test]
fn hue_resolves_through_cosine_and_sine() {
    // Hue 60 degrees at full chroma: a = cos(pi/3), b = sin(pi/3).
    let c = color(203 * SCALE, SCALE, SCALE, 60 * SCALE);
    let lab = c.to_lab().unwrap();
    let resolved = lch_to_lab(lab).unwrap();
    assert!((resolved.a.v - 500_000_000).abs() < 10, "a = {}", resolved.a.v);
    assert!((resolved.b.v - 866_025_403).abs() < 10, "b = {}", resolved.b.v);
}

#[test]
fn gradient_scenes_produce_one_rectangle_with_ordered_corners() {
    let l = color(203 * SCALE, SCALE, 0, 0).to_lab().unwrap();
    let r = color(203 * SCALE, 0, 0, 0).to_lab().unwrap();
    let rects = compile_scene(&Scene::FillLeftRight(l, r)).unwrap();
    assert_eq!(rects.len(), 1);
    // Corner order: right, left, right, left.
    let cs = corners(&rects[0]);
    assert_eq!(cs[0][0], 0);
    assert_eq!(cs[1][0], SCALE);
    assert_eq!(cs[2][0], 0);
    assert_eq!(cs[3][0], SCALE);
    let rects = compile_scene(&Scene::FillTopBottom(l, r)).unwrap();
    let cs = corners(&rects[0]);
    assert_eq!(cs[0][0], SCALE);
    assert_eq!(cs[1][0], SCALE);
    assert_eq!(cs[2][0], 0);
    assert_eq!(cs[3][0], 0);
}

#[test]
fn center_box_produces_background_and_box() {
    let bg = color(203 * SCALE, 0, 0, 0).to_lab().unwrap();
    let fgc = color(203 * SCALE, SCALE, 0, 0).to_lab().unwrap();
    let rects = compile_scene(&Scene::CenterBox(bg, fgc, fx(250_000_000))).unwrap();
    assert_eq!(rects.len(), 2);
    let b = &rects[1];
    assert_eq!(
        (b.x1.v, b.y1.v, b.x2.v, b.y2.v),
        (-250_000_000, -250_000_000, 250_000_000, 250_000_000),
    );
}

#[test]
fn grid_two_by_two_produces_three_rectangles() {
    let bg = color(203 * SCALE, 0, 0, 0).to_lab().unwrap();
    let fgc = color(203 * SCALE, SCALE, 0, 0).to_lab().unwrap();
    let rects = compile_scene(&Scene::Grid(bg, fgc, 2, 2)).unwrap();
    assert_eq!(rects.len(), 3);
    // Background first, then the two odd cells in row-major order.
    assert_eq!((rects[0].x1.v, rects[0].y1.v), (-SCALE, -SCALE));
    assert_eq!((rects[1].x1.v, rects[1].y1.v, rects[1].x2.v, rects[1].y2.v), (0, -SCALE, SCALE, 0));
    assert_eq!((rects[2].x1.v, rects[2].y1.v, rects[2].x2.v, rects[2].y2.v), (-SCALE, 0, 0, SCALE));
}

#[test]
fn grid_with_no_cells_produces_only_the_background() {
    let bg = color(203 * SCALE, 0, 0, 0).to_lab().unwrap();
    let fgc = color(203 * SCALE, SCALE, 0, 0).to_lab().unwrap();
    assert_eq!(compile_scene(&Scene::Grid(bg, fgc, 0, 5)).unwrap().len(), 1);
    assert_eq!(compile_scene(&Scene::Grid(bg, fgc, 1, 1)).unwrap().len(), 1);
    assert_eq!(compile_scene(&Scene::Grid(bg, fgc, 3, 3)).unwrap().len(), 1 + 4);
}

#[test]
fn blend_right_composites_with_straight_alpha() {
    let bg = color(203 * SCALE, 0, 0, 0).to_lab().unwrap();
    let fg = color(203 * SCALE, SCALE, 0, 0).to_lab_alpha(fx(500_000_000)).unwrap();
    let rects = compile_scene(&Scene::BlendRight(bg, fg)).unwrap();
    assert_eq!(rects.len(), 3);
    // Background and foreground lose their alpha; the composite is the
    // straight-alpha mix at full alpha.
    assert_eq!(corners(&rects[0])[0][3], SCALE);
    assert_eq!(corners(&rects[1])[0][3], SCALE);
    let comp = corners(&rects[2])[0];
    assert_eq!(comp[0], 500_000_000);
    assert_eq!(comp[3], SCALE);
    // Geometry: left half, lower right quarter, upper right quarter.
    assert_eq!((rects[0].x1.v, rects[0].x2.v), (-SCALE, 0));
    assert_eq!((rects[1].y1.v, rects[1].y2.v), (-SCALE, 0));
    assert_eq!((rects[2].x1.v, rects[2].y1.v), (0, 0));
}

#[test]
fn scene_with_unrepresentable_color_is_rejected() {
    let c = Color {
        lumen: fx(i64::MAX),
        lightness: fx(i64::MAX),
        chroma: fx(0),
        hue: fx(0),
    };
    assert!(c.to_lab().is_err());
}

#[test]
fn frame_plan_skips_frames_without_work() {
    let scene = TestScene::Fill(color(203 * SCALE, SCALE, 0, 0));
    let desc = TestColorDescription::Native;
    assert!(frame_plan(&scene, &desc, 800, 600, false, false).unwrap().is_none());
    assert!(frame_plan(&scene, &desc, 800, 600, true, true).unwrap().is_none());
    assert!(frame_plan(&scene, &desc, 1, 600, true, false).unwrap().is_none());
    assert!(frame_plan(&scene, &desc, 800, 0, true, false).unwrap().is_none());
}

#[test]
fn blend_frame_renders_two_passes() {
    // A blend scene with alpha one half on a 200x100 canvas: one pass on
    // the half-width blend subsurface with a single rectangle, one on the
    // main surface with three.
    let scene = TestScene::Blend(
        color(203 * SCALE, 0, 0, 0),
        color(203 * SCALE, SCALE, 0, 0),
        fx(500_000_000),
    );
    let desc = TestColorDescription::Native;
    let plan = frame_plan(&scene, &desc, 200, 100, true, false).unwrap().unwrap();
    assert_eq!(plan.tf, TransferFunction::Named(NamedTransferFunction::Srgb));
    let blend = plan.blend.expect("blend pass");
    assert_eq!((blend.width, blend.height), (100, 100));
    assert_eq!(compile_scene(&blend.scene).unwrap().len(), 1);
    assert_eq!((plan.main.width, plan.main.height), (200, 100));
    assert_eq!(compile_scene(&plan.main.scene).unwrap().len(), 3);
}

#[test]
fn non_blend_frame_renders_one_pass() {
    let scene = TestScene::Grid(color(203 * SCALE, 0, 0, 0), color(203 * SCALE, SCALE, 0, 0), 2, 2);
    let plan = frame_plan(&scene, &TestColorDescription::ScRgb, 800, 600, true, false)
        .unwrap()
        .unwrap();
    assert!(plan.blend.is_none());
    assert_eq!(plan.tf, TransferFunction::Named(NamedTransferFunction::Linear));
    assert_eq!(compile_scene(&plan.main.scene).unwrap().len(), 3);
}
