//! The test-pane decisions: resolving a color description into primaries,
//! a transfer function and a luminance range, choosing the frame's render
//! passes, validating the compositor's preferred-description feedback, and
//! tracking the announced capabilities.
//!
//! Everything here is the pure decision core of the pane; the protocol and
//! windowing calls around it live outside the library.

use vstd::prelude::*;
use crate::cmm::{
    CmmError, ColorMatrix, Lms, Local, Luminance, NamedPrimaries, NamedTransferFunction,
    Primaries, TransferFunction, luminance_bt1886, luminance_srgb, luminance_st2084_pq,
    luminance_windows_scrgb, matrix_from_lms, mfl_ok, mfl_val, named_primaries_spec,
};
use crate::fixed::{Fixed, fits};
use crate::protocol::{
    WpColorManagerV1Feature, WpColorManagerV1Primaries, WpColorManagerV1TransferFunction,
};
use crate::scene::{Color, Scene, SceneError, SceneS, tla_ok, tla_val};

verus! {

/// A test pattern over perceptual colors, as the operator selects it.
#[derive(Clone, Copy, Debug, PartialEq, Eq, Structural, Hash)]
pub enum TestScene {
    Fill(Color),
    FillLeftRight(Color, Color),
    FillTopBottom(Color, Color),
    FillFour(Color, Color, Color, Color),
    CenterBox(Color, Color, Fixed),
    Grid(Color, Color, u32, u32),
    Blend(Color, Color, Fixed),
}

/// The primaries of a color description: a named preset or custom
/// chromaticities.
#[derive(Clone, Copy, Debug, PartialEq, Eq, Structural, Hash)]
pub enum TestPrimaries {
    Named(NamedPrimaries),
    Custom(Primaries),
}

/// A resolved color description: device-native, the fixed extended-linear
/// scRGB mapping, or a parametric description.
#[derive(Clone, Copy, Debug, PartialEq, Eq, Structural, Hash)]
pub enum TestColorDescription {
    Native,
    ScRgb,
    Parametric {
        primaries: TestPrimaries,
        transfer_function: TransferFunction,
        luminance: Option<Luminance>,
    },
}

/// The data of a preferred image description reported by the compositor.
#[derive(Clone, Copy, Debug, PartialEq, Eq, Structural, Hash)]
pub struct DescriptionData {
    pub primaries: TestPrimaries,
    pub tf: TransferFunction,
    pub luminance: Option<Luminance>,
}

/// The base luminance range a transfer function implies.
pub open spec fn rl_base(tf: TransferFunction) -> Luminance {
    if tf == TransferFunction::Named(NamedTransferFunction::St2084Pq) {
        luminance_st2084_pq()
    } else if tf == TransferFunction::Named(NamedTransferFunction::Bt1886) {
        luminance_bt1886()
    } else {
        luminance_srgb()
    }
}

/// The luminance range of a parametric description: the transfer
/// function's base range, overridden by an explicit range; under the PQ
/// curve the maximum is pinned ten thousand units above the minimum.
pub open spec fn rl_val(tf: TransferFunction, lo: Option<Luminance>) -> Luminance {
    match lo {
        Option::None => rl_base(tf),
        Option::Some(l) => Luminance {
            min: l.min,
            max: if tf == TransferFunction::Named(NamedTransferFunction::St2084Pq) {
                Fixed { v: (l.min@ + 10_000_000_000_000) as i64 }
            } else {
                l.max
            },
            white: l.white,
        },
    }
}

/// Resolves the luminance range of a parametric description; fails only
/// when the pinned PQ maximum leaves the representable range.
pub fn resolve_luminance(tf: TransferFunction, luminance: Option<Luminance>) -> (r: Result<
    Luminance,
    CmmError,
>)
    ensures
        r matches Ok(l) ==> l == rl_val(tf, luminance),
        r is Ok <==> rl_ok(tf, luminance),
{
    let mut lum: Luminance = match tf {
        TransferFunction::Named(NamedTransferFunction::St2084Pq) => Luminance::st2084_pq(),
        TransferFunction::Named(NamedTransferFunction::Bt1886) => Luminance::bt1886(),
        _ => Luminance::srgb(),
    };
    if let Some(l) = luminance {
        lum.min = l.min;
        lum.white = l.white;
        let pq: bool = match tf {
            TransferFunction::Named(NamedTransferFunction::St2084Pq) => true,
            _ => false,
        };
        if pq {
            lum.max = match l.min.fadd(Fixed { v: 10_000_000_000_000 }) {
                Some(x) => x,
                None => { return Err(CmmError) },
            };
        } else {
            lum.max = l.max;
        }
    }
    Ok(lum)
}

/// Whether resolving the luminance range succeeds.
pub open spec fn rl_ok(tf: TransferFunction, lo: Option<Luminance>) -> bool {
    match lo {
        Option::None => true,
        Option::Some(l) => tf == TransferFunction::Named(NamedTransferFunction::St2084Pq)
            ==> fits(l.min@ + 10_000_000_000_000),
    }
}

/// The chromaticities a color description renders with.
pub open spec fn desc_primaries(d: TestColorDescription) -> Primaries {
    match d {
        TestColorDescription::Parametric { primaries, .. } => match primaries {
            TestPrimaries::Named(n) => named_primaries_spec(n),
            TestPrimaries::Custom(c) => c,
        },
        _ => named_primaries_spec(NamedPrimaries::Srgb),
    }
}

/// The luminance range a color description renders with.
pub open spec fn desc_luminance(d: TestColorDescription) -> Luminance {
    match d {
        TestColorDescription::Native => luminance_srgb(),
        TestColorDescription::ScRgb => luminance_windows_scrgb(),
        TestColorDescription::Parametric { transfer_function, luminance, .. } => rl_val(
            transfer_function,
            luminance,
        ),
    }
}

/// Whether deriving a description's matrix succeeds: the luminance
/// resolves, the chromaticities lie in the unit square, and the matrix
/// derivation itself succeeds.
pub open spec fn desc_matrix_ok(d: TestColorDescription) -> bool {
    &&& match d {
        TestColorDescription::Parametric { transfer_function, luminance, .. } => rl_ok(
            transfer_function,
            luminance,
        ),
        _ => true,
    }
    &&& desc_primaries(d).in_range()
    &&& mfl_ok(desc_primaries(d), desc_luminance(d))
}

/// Derives the local-RGB-from-LMS matrix a color description renders
/// with: the reference primaries and range for the native description, the
/// Windows scRGB range for the extended-linear description, and the
/// description's own primaries and resolved luminance for a parametric
/// one. Custom chromaticities outside the unit square are rejected.
pub fn matrix_for_description(d: &TestColorDescription) -> (r: Result<
    ColorMatrix<Local, Lms>,
    CmmError,
>)
    ensures
        r matches Ok(m) ==> m@ == mfl_val(desc_primaries(*d), desc_luminance(*d)),
        r is Ok <==> desc_matrix_ok(*d),
{
    match d {
        TestColorDescription::Native => {
            matrix_from_lms(NamedPrimaries::Srgb.primaries(), Luminance::srgb())
        },
        TestColorDescription::ScRgb => {
            matrix_from_lms(NamedPrimaries::Srgb.primaries(), Luminance::windows_scrgb())
        },
        TestColorDescription::Parametric { primaries, transfer_function, luminance } => {
            let lum: Luminance = match resolve_luminance(*transfer_function, *luminance) {
                Ok(l) => l,
                Err(e) => { return Err(e) },
            };
            let p: Primaries = match primaries {
                TestPrimaries::Named(n) => n.primaries(),
                TestPrimaries::Custom(c) => *c,
            };
            if !p.check_in_range() {
                return Err(CmmError);
            }
            matrix_from_lms(p, lum)
        },
    }
}

/// The transfer function a description renders with: SRGB for the native
/// description, extended linear for scRGB, the description's own
/// otherwise.
pub fn tf_for_description(d: &TestColorDescription) -> (r: TransferFunction)
    ensures
        r == match *d {
            TestColorDescription::Native => TransferFunction::Named(NamedTransferFunction::Srgb),
            TestColorDescription::ScRgb => TransferFunction::Named(NamedTransferFunction::Linear),
            TestColorDescription::Parametric { transfer_function, .. } => transfer_function,
        },
{
    match d {
        TestColorDescription::Native => TransferFunction::Named(NamedTransferFunction::Srgb),
        TestColorDescription::ScRgb => TransferFunction::Named(NamedTransferFunction::Linear),
        TestColorDescription::Parametric { transfer_function, .. } => *transfer_function,
    }
}

/// The extent a toplevel configure resolves to: non-positive sizes fall
/// back to the default window extent.
pub fn configure_size(width: i32, height: i32) -> (r: (i32, i32))
    ensures
        r.0 == if width <= 0 {
            800
        } else {
            width as int
        },
        r.1 == if height <= 0 {
            600
        } else {
            height as int
        },
{
    let w: i32 = if width <= 0 {
        800
    } else {
        width
    };
    let h: i32 = if height <= 0 {
        600
    } else {
        height
    };
    (w, h)
}

/// The error of a preferred-description feedback sequence that omitted a
/// required event.
#[derive(Clone, Copy, Debug, PartialEq, Eq, Structural, Hash)]
pub enum FeedbackError {
    NoPrimaries,
    NoTransferFunction,
}

/// Validates a finished preferred-description feedback sequence: the
/// compositor must have sent primaries and a transfer function; the
/// luminance range is optional.
pub fn description_done(
    primaries: Option<TestPrimaries>,
    tf: Option<TransferFunction>,
    luminance: Option<Luminance>,
) -> (r: Result<DescriptionData, FeedbackError>)
    ensures
        primaries is None ==> r == Result::<DescriptionData, FeedbackError>::Err(
            FeedbackError::NoPrimaries,
        ),
        primaries is Some && tf is None ==> r == Result::<DescriptionData, FeedbackError>::Err(
            FeedbackError::NoTransferFunction,
        ),
        primaries is Some && tf is Some ==> r == Result::<DescriptionData, FeedbackError>::Ok(
            DescriptionData { primaries: primaries->Some_0, tf: tf->Some_0, luminance },
        ),
{
    let p: TestPrimaries = match primaries {
        Some(p) => p,
        None => { return Err(FeedbackError::NoPrimaries) },
    };
    let t: TransferFunction = match tf {
        Some(t) => t,
        None => { return Err(FeedbackError::NoTransferFunction) },
    };
    Ok(DescriptionData { primaries: p, tf: t, luminance })
}

/// The capability sets the color manager announced: supported optional
/// features, named transfer functions and named primaries. Each set keeps
/// its announcement order without duplicates.
pub struct Capablities {
    pub features: Vec<WpColorManagerV1Feature>,
    pub tf: Vec<WpColorManagerV1TransferFunction>,
    pub primaries: Vec<WpColorManagerV1Primaries>,
}

impl Capablities {
    /// Empty capability sets.
    pub fn new() -> (r: Capablities)
        ensures
            r.features@.len() == 0,
            r.tf@.len() == 0,
            r.primaries@.len() == 0,
    {
        Capablities { features: Vec::new(), tf: Vec::new(), primaries: Vec::new() }
    }

    /// Whether a feature was announced.
    pub fn supports_feature(&self, f: WpColorManagerV1Feature) -> (r: bool)
        ensures
            r <==> self.features@.contains(f),
    {
        contains_feature(&self.features, f)
    }

    /// Records an announced feature, once.
    pub fn add_feature(&mut self, f: WpColorManagerV1Feature) -> (r: ())
        ensures
            final(self).features@ == if old(self).features@.contains(f) {
                old(self).features@
            } else {
                old(self).features@.push(f)
            },
            final(self).tf@ == old(self).tf@,
            final(self).primaries@ == old(self).primaries@,
    {
        if !contains_feature(&self.features, f) {
            self.features.push(f);
        }
    }

    /// Whether a named transfer function was announced.
    pub fn supports_tf(&self, t: WpColorManagerV1TransferFunction) -> (r: bool)
        ensures
            r <==> self.tf@.contains(t),
    {
        contains_tf(&self.tf, t)
    }

    /// Records an announced named transfer function, once.
    pub fn add_tf(&mut self, t: WpColorManagerV1TransferFunction) -> (r: ())
        ensures
            final(self).tf@ == if old(self).tf@.contains(t) {
                old(self).tf@
            } else {
                old(self).tf@.push(t)
            },
            final(self).features@ == old(self).features@,
            final(self).primaries@ == old(self).primaries@,
    {
        if !contains_tf(&self.tf, t) {
            self.tf.push(t);
        }
    }

    /// Whether a named primaries set was announced.
    pub fn supports_primaries(&self, p: WpColorManagerV1Primaries) -> (r: bool)
        ensures
            r <==> self.primaries@.contains(p),
    {
        contains_primaries(&self.primaries, p)
    }

    /// Records an announced named primaries set, once.
    pub fn add_primaries(&mut self, p: WpColorManagerV1Primaries) -> (r: ())
        ensures
            final(self).primaries@ == if old(self).primaries@.contains(p) {
                old(self).primaries@
            } else {
                old(self).primaries@.push(p)
            },
            final(self).features@ == old(self).features@,
            final(self).tf@ == old(self).tf@,
    {
        if !contains_primaries(&self.primaries, p) {
            self.primaries.push(p);
        }
    }
}

fn contains_feature(v: &Vec<WpColorManagerV1Feature>, x: WpColorManagerV1Feature) -> (r: bool)
    ensures
        r <==> v@.contains(x),
{
    let mut i: usize = 0;
    while i < v.len()
        invariant
            0 <= i <= v@.len(),
            forall|j: int| 0 <= j < i ==> v@[j] != x,
        decreases v@.len() - i,
    {
        if v[i] == x {
            return true;
        }
        i = i + 1;
    }
    false
}

fn contains_tf(v: &Vec<WpColorManagerV1TransferFunction>, x: WpColorManagerV1TransferFunction) -> (r:
    bool)
    ensures
        r <==> v@.contains(x),
{
    let mut i: usize = 0;
    while i < v.len()
        invariant
            0 <= i <= v@.len(),
            forall|j: int| 0 <= j < i ==> v@[j] != x,
        decreases v@.len() - i,
    {
        if v[i] == x {
            return true;
        }
        i = i + 1;
    }
    false
}

fn contains_primaries(v: &Vec<WpColorManagerV1Primaries>, x: WpColorManagerV1Primaries) -> (r: bool)
    ensures
        r <==> v@.contains(x),
{
    let mut i: usize = 0;
    while i < v.len()
        invariant
            0 <= i <= v@.len(),
            forall|j: int| 0 <= j < i ==> v@[j] != x,
        decreases v@.len() - i,
    {
        if v[i] == x {
            return true;
        }
        i = i + 1;
    }
    false
}

/// One render pass of a frame: the target extent and the scene drawn into
/// it.
pub struct Pass {
    pub width: u32,
    pub height: u32,
    pub scene: Scene,
}

/// The render passes of one frame: an optional pass on the blend
/// subsurface, then the pass on the main surface, both with one transfer
/// function.
pub struct FramePlan {
    pub tf: TransferFunction,
    pub blend: Option<Pass>,
    pub main: Pass,
}

/// The main-surface scene of a test scene, with every color resolved.
pub open spec fn fp_main_scene(s: TestScene) -> SceneS {
    match s {
        TestScene::Fill(c) => SceneS::Fill(tla_val(c, crate::fixed::SCALE as int)),
        TestScene::FillLeftRight(a, b) => SceneS::FillLeftRight(
            tla_val(a, crate::fixed::SCALE as int),
            tla_val(b, crate::fixed::SCALE as int),
        ),
        TestScene::FillTopBottom(a, b) => SceneS::FillTopBottom(
            tla_val(a, crate::fixed::SCALE as int),
            tla_val(b, crate::fixed::SCALE as int),
        ),
        TestScene::FillFour(a, b, c, d) => SceneS::FillFour(
            tla_val(a, crate::fixed::SCALE as int),
            tla_val(b, crate::fixed::SCALE as int),
            tla_val(c, crate::fixed::SCALE as int),
            tla_val(d, crate::fixed::SCALE as int),
        ),
        TestScene::CenterBox(a, b, size) => SceneS::CenterBox(
            tla_val(a, crate::fixed::SCALE as int),
            tla_val(b, crate::fixed::SCALE as int),
            crate::fixed::tdiv(size@, 100),
        ),
        TestScene::Grid(a, b, rows, cols) => SceneS::Grid(
            tla_val(a, crate::fixed::SCALE as int),
            tla_val(b, crate::fixed::SCALE as int),
            rows as int,
            cols as int,
        ),
        TestScene::Blend(a, b, alpha) => SceneS::BlendRight(
            tla_val(a, crate::fixed::SCALE as int),
            tla_val(b, alpha@),
        ),
    }
}

/// Whether resolving every color of a test scene succeeds.
pub open spec fn fp_ok(s: TestScene) -> bool {
    match s {
        TestScene::Fill(c) => tla_ok(c),
        TestScene::FillLeftRight(a, b) => tla_ok(a) && tla_ok(b),
        TestScene::FillTopBottom(a, b) => tla_ok(a) && tla_ok(b),
        TestScene::FillFour(a, b, c, d) => tla_ok(a) && tla_ok(b) && tla_ok(c) && tla_ok(d),
        TestScene::CenterBox(a, b, size) => tla_ok(a) && tla_ok(b),
        TestScene::Grid(a, b, rows, cols) => tla_ok(a) && tla_ok(b),
        TestScene::Blend(a, b, alpha) => tla_ok(a) && tla_ok(b),
    }
}

/// Plans one frame: nothing while no render is due, a description change
/// is still pending, or the surface is degenerate; otherwise the main
/// pass, and for the blend pattern additionally a pass on the half-width
/// blend subsurface that draws only the foreground at its alpha.
pub fn frame_plan(
    scene: &TestScene,
    description: &TestColorDescription,
    width: i32,
    height: i32,
    need_render: bool,
    pending_description: bool,
) -> (r: Result<Option<FramePlan>, SceneError>)
    ensures
        (!need_render || pending_description || width <= 1 || height <= 1) ==> (r matches Ok(p)
            && p is None),
        (need_render && !pending_description && width > 1 && height > 1) ==> {
            &&& r is Ok <==> fp_ok(*scene)
            &&& r matches Ok(p) ==> (p matches Some(plan) && plan.tf == match *description {
                TestColorDescription::Native => TransferFunction::Named(
                    NamedTransferFunction::Srgb,
                ),
                TestColorDescription::ScRgb => TransferFunction::Named(
                    NamedTransferFunction::Linear,
                ),
                TestColorDescription::Parametric { transfer_function, .. } => transfer_function,
            } && plan.main.width == width as u32 && plan.main.height == height as u32
                && plan.main.scene@ == fp_main_scene(*scene) && (match *scene {
                TestScene::Blend(a, b, alpha) => plan.blend matches Some(bp) && bp.width == (
                width as u32) / 2 && bp.height == height as u32 && bp.scene@ == SceneS::BlendLeft(
                    tla_val(b, alpha@),
                ),
                _ => plan.blend is None,
            }))
        },
{
    if !need_render || pending_description {
        return Ok(None);
    }
    if width <= 1 || height <= 1 {
        return Ok(None);
    }
    let tf: TransferFunction = tf_for_description(description);
    let w: u32 = width as u32;
    let h: u32 = height as u32;
    let mut blend: Option<Pass> = None;
    let main_scene: Scene = match scene {
        TestScene::Fill(c) => {
            let cc = match c.to_lab() {
                Ok(x) => x,
                Err(e) => { return Err(e) },
            };
            Scene::Fill(cc)
        },
        TestScene::FillLeftRight(a, b) => {
            let ac = match a.to_lab() {
                Ok(x) => x,
                Err(e) => { return Err(e) },
            };
            let bc = match b.to_lab() {
                Ok(x) => x,
                Err(e) => { return Err(e) },
            };
            Scene::FillLeftRight(ac, bc)
        },
        TestScene::FillTopBottom(a, b) => {
            let ac = match a.to_lab() {
                Ok(x) => x,
                Err(e) => { return Err(e) },
            };
            let bc = match b.to_lab() {
                Ok(x) => x,
                Err(e) => { return Err(e) },
            };
            Scene::FillTopBottom(ac, bc)
        },
        TestScene::FillFour(a, b, c, d) => {
            let ac = match a.to_lab() {
                Ok(x) => x,
                Err(e) => { return Err(e) },
            };
            let bc = match b.to_lab() {
                Ok(x) => x,
                Err(e) => { return Err(e) },
            };
            let cc = match c.to_lab() {
                Ok(x) => x,
                Err(e) => { return Err(e) },
            };
            let dc = match d.to_lab() {
                Ok(x) => x,
                Err(e) => { return Err(e) },
            };
            Scene::FillFour(ac, bc, cc, dc)
        },
        TestScene::CenterBox(a, b, size) => {
            let ac = match a.to_lab() {
                Ok(x) => x,
                Err(e) => { return Err(e) },
            };
            let bc = match b.to_lab() {
                Ok(x) => x,
                Err(e) => { return Err(e) },
            };
            Scene::CenterBox(ac, bc, size.fdiv_whole(100))
        },
        TestScene::Grid(a, b, rows, cols) => {
            let ac = match a.to_lab() {
                Ok(x) => x,
                Err(e) => { return Err(e) },
            };
            let bc = match b.to_lab() {
                Ok(x) => x,
                Err(e) => { return Err(e) },
            };
            Scene::Grid(ac, bc, *rows, *cols)
        },
        TestScene::Blend(a, b, alpha) => {
            let ac = match a.to_lab() {
                Ok(x) => x,
                Err(e) => { return Err(e) },
            };
            let bc = match b.to_lab_alpha(*alpha) {
                Ok(x) => x,
                Err(e) => { return Err(e) },
            };
            blend = Some(Pass { width: w / 2, height: h, scene: Scene::BlendLeft(bc) });
            Scene::BlendRight(ac, bc)
        },
    };
    Ok(Some(FramePlan { tf, blend, main: Pass { width: w, height: h, scene: main_scene } }))
}

} // verus!
