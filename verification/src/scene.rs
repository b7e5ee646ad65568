//! The scene compiler: stateless translation of a test-pattern description
//! with perceptual lightness-chroma-hue colors into an ordered list of
//! axis-aligned rectangles in normalized device coordinates, each carrying
//! four corner colors in a Cartesian (L, a, b, alpha) representation.
//!
//! A color's lightness and chroma are pre-scaled by the cube root of
//! `luminance / 203`, encoding absolute luminance into the channel that the
//! shader's perceptual decode consumes; the hue angle is converted to
//! radians and resolved into `a = chroma * cos(hue)`, `b = chroma *
//! sin(hue)` when a pattern is expanded.

use vstd::prelude::*;
use crate::fixed::{
    Fixed, SCALE, PI_FIXED, cos_spec, sin_spec, fcbrt_val, fits, iabs, tdiv, lemma_tdiv_le,
    lemma_prod_le, lemma_tdiv_eq,
};

verus! {

/// The error of a scene whose color data leaves the representable
/// fixed-point range.
#[derive(Clone, Copy, Debug, PartialEq, Eq, Structural, Hash)]
pub struct SceneError;

/// Mathematical value of a resolved color: unit counts of the four
/// channels.
pub ghost struct LabS {
    pub l: int,
    pub a: int,
    pub b: int,
    pub alpha: int,
}

/// A resolved color. Straight out of `to_lab_alpha` the `a` channel holds
/// the scaled chroma and the `b` channel the hue angle in radians; after
/// `lch_to_lab` both hold Cartesian chromaticity offsets.
#[derive(Clone, Copy, Debug, PartialEq, Eq, Structural, Hash)]
pub struct Lab {
    pub l: Fixed,
    pub a: Fixed,
    pub b: Fixed,
    pub alpha: Fixed,
}

impl View for Lab {
    type V = LabS;

    open spec fn view(&self) -> LabS {
        LabS { l: self.l@, a: self.a@, b: self.b@, alpha: self.alpha@ }
    }
}

/// A color in the perceptual lightness-chroma-hue space, with its absolute
/// luminance in candela per square meter and the hue in degrees.
#[derive(Clone, Copy, Debug, PartialEq, Eq, Structural, Hash)]
pub struct Color {
    pub lumen: Fixed,
    pub lightness: Fixed,
    pub chroma: Fixed,
    pub hue: Fixed,
}

/// The luminance pre-scale of a color: the cube root of `lumen / 203`.
pub open spec fn tla_mul(c: Color) -> int {
    fcbrt_val(tdiv(c.lumen@ * SCALE as int, 203 * SCALE as int))
}

/// The hue angle of a color in fixed-point radians.
pub open spec fn tla_hue_rad(c: Color) -> int {
    tdiv(tdiv(c.hue@ * SCALE as int, 180 * SCALE as int) * PI_FIXED as int, SCALE as int)
}

/// Value of `to_lab_alpha`: lightness and chroma scaled by the luminance
/// pre-scale, the hue in radians, and the given alpha.
pub open spec fn tla_val(c: Color, alpha: int) -> LabS {
    LabS {
        l: tdiv(tla_mul(c) * c.lightness@, SCALE as int),
        a: tdiv(tla_mul(c) * c.chroma@, SCALE as int),
        b: tla_hue_rad(c),
        alpha,
    }
}

/// Whether `to_lab_alpha` succeeds on this color.
pub open spec fn tla_ok(c: Color) -> bool {
    &&& fits(tdiv(c.lumen@ * SCALE as int, 203 * SCALE as int))
    &&& fits(tdiv(tla_mul(c) * c.lightness@, SCALE as int))
    &&& fits(tdiv(tla_mul(c) * c.chroma@, SCALE as int))
    &&& fits(tdiv(c.hue@ * SCALE as int, 180 * SCALE as int))
    &&& fits(tla_hue_rad(c))
}

impl Color {
    /// Resolves the color with full alpha.
    pub fn to_lab(self) -> (r: Result<Lab, SceneError>)
        ensures
            r matches Ok(l) ==> l@ == tla_val(self, SCALE as int),
            r is Ok <==> tla_ok(self),
    {
        self.to_lab_alpha(Fixed { v: SCALE })
    }

    /// Resolves the color: scales lightness and chroma by the cube root of
    /// `lumen / 203`, converts the hue to radians, and attaches the given
    /// alpha.
    pub fn to_lab_alpha(self, alpha: Fixed) -> (r: Result<Lab, SceneError>)
        ensures
            r matches Ok(l) ==> l@ == tla_val(self, alpha@),
            r is Ok <==> tla_ok(self),
    {
        let c203: Fixed = Fixed { v: 203 * SCALE };
        let q: Fixed = match self.lumen.fdiv(c203) {
            Some(x) => x,
            None => { return Err(SceneError) },
        };
        let mul: Fixed = q.fcbrt();
        let l: Fixed = match mul.fmul(self.lightness) {
            Some(x) => x,
            None => { return Err(SceneError) },
        };
        let a: Fixed = match mul.fmul(self.chroma) {
            Some(x) => x,
            None => { return Err(SceneError) },
        };
        let c180: Fixed = Fixed { v: 180 * SCALE };
        let hq: Fixed = match self.hue.fdiv(c180) {
            Some(x) => x,
            None => { return Err(SceneError) },
        };
        let b: Fixed = match hq.fmul(Fixed { v: PI_FIXED }) {
            Some(x) => x,
            None => { return Err(SceneError) },
        };
        Ok(Lab { l, a, b, alpha })
    }
}

/// Value of `lch_to_lab`: the chroma channel resolved into Cartesian
/// offsets by the cosine and sine of the hue angle.
pub open spec fn lch_val(c: LabS) -> LabS {
    LabS {
        l: c.l,
        a: tdiv(c.a * cos_spec(c.b), SCALE as int),
        b: tdiv(c.a * sin_spec(c.b), SCALE as int),
        alpha: c.alpha,
    }
}

/// Whether `lch_to_lab` succeeds on this color.
pub open spec fn lch_ok(c: LabS) -> bool {
    &&& fits(tdiv(c.a * cos_spec(c.b), SCALE as int))
    &&& fits(tdiv(c.a * sin_spec(c.b), SCALE as int))
}

/// Resolves the chroma and hue channels of a color into Cartesian `a` and
/// `b` offsets.
pub fn lch_to_lab(c: Lab) -> (r: Result<Lab, SceneError>)
    ensures
        r matches Ok(l) ==> l@ == lch_val(c@),
        r is Ok <==> lch_ok(c@),
{
    let co: Fixed = c.b.fcos();
    let si: Fixed = c.b.fsin();
    let a: Fixed = match c.a.fmul(co) {
        Some(x) => x,
        None => { return Err(SceneError) },
    };
    let b: Fixed = match c.a.fmul(si) {
        Some(x) => x,
        None => { return Err(SceneError) },
    };
    Ok(Lab { l: c.l, a, b, alpha: c.alpha })
}

/// A test pattern with resolved (but not yet Cartesian) colors.
#[derive(Clone, Copy, Debug)]
pub enum Scene {
    Fill(Lab),
    FillLeftRight(Lab, Lab),
    FillTopBottom(Lab, Lab),
    FillFour(Lab, Lab, Lab, Lab),
    CenterBox(Lab, Lab, Fixed),
    Grid(Lab, Lab, u32, u32),
    BlendLeft(Lab),
    BlendRight(Lab, Lab),
}

/// Mathematical value of a scene.
pub ghost enum SceneS {
    Fill(LabS),
    FillLeftRight(LabS, LabS),
    FillTopBottom(LabS, LabS),
    FillFour(LabS, LabS, LabS, LabS),
    CenterBox(LabS, LabS, int),
    Grid(LabS, LabS, int, int),
    BlendLeft(LabS),
    BlendRight(LabS, LabS),
}

impl View for Scene {
    type V = SceneS;

    open spec fn view(&self) -> SceneS {
        match *self {
            Scene::Fill(c) => SceneS::Fill(c@),
            Scene::FillLeftRight(l, r) => SceneS::FillLeftRight(l@, r@),
            Scene::FillTopBottom(t, b) => SceneS::FillTopBottom(t@, b@),
            Scene::FillFour(a, b, c, d) => SceneS::FillFour(a@, b@, c@, d@),
            Scene::CenterBox(bg, fg, size) => SceneS::CenterBox(bg@, fg@, size@),
            Scene::Grid(bg, fg, rows, cols) => SceneS::Grid(bg@, fg@, rows as int, cols as int),
            Scene::BlendLeft(c) => SceneS::BlendLeft(c@),
            Scene::BlendRight(b, f) => SceneS::BlendRight(b@, f@),
        }
    }
}

/// Mathematical value of a rectangle fill: corner coordinates in unit
/// counts of the normalized device square, and the four corner colors.
pub ghost struct RectS {
    pub x1: int,
    pub y1: int,
    pub x2: int,
    pub y2: int,
    pub c0: LabS,
    pub c1: LabS,
    pub c2: LabS,
    pub c3: LabS,
}

/// An axis-aligned rectangle fill in normalized device coordinates with
/// bilinearly interpolated corner colors.
#[derive(Clone, Copy, Debug)]
pub struct FillRect {
    pub x1: Fixed,
    pub y1: Fixed,
    pub x2: Fixed,
    pub y2: Fixed,
    pub c0: Lab,
    pub c1: Lab,
    pub c2: Lab,
    pub c3: Lab,
}

impl View for FillRect {
    type V = RectS;

    open spec fn view(&self) -> RectS {
        RectS {
            x1: self.x1@,
            y1: self.y1@,
            x2: self.x2@,
            y2: self.y2@,
            c0: self.c0@,
            c1: self.c1@,
            c2: self.c2@,
            c3: self.c3@,
        }
    }
}

/// A full-canvas rectangle with the given corner colors.
pub open spec fn rect_canvas(c0: LabS, c1: LabS, c2: LabS, c3: LabS) -> RectS {
    RectS {
        x1: -(SCALE as int),
        y1: -(SCALE as int),
        x2: SCALE as int,
        y2: SCALE as int,
        c0,
        c1,
        c2,
        c3,
    }
}

/// The width of one grid column in normalized device coordinates.
pub open spec fn grid_w(cols: u32) -> int {
    tdiv(2 * SCALE as int * SCALE as int, cols as int * SCALE as int)
}

/// The checkerboard cell of a grid at the given row and column.
pub open spec fn grid_cell(row: int, col: int, w: int, h: int, c: LabS) -> RectS {
    RectS {
        x1: w * col - SCALE as int,
        y1: h * row - SCALE as int,
        x2: w * col - SCALE as int + w,
        y2: h * row - SCALE as int + h,
        c0: c,
        c1: c,
        c2: c,
        c3: c,
    }
}

/// The checkerboard cells of one row with a column index below `cols`, in
/// column order: the cells where row plus column is odd.
pub open spec fn grid_row_cells(row: int, cols: int, w: int, h: int, c: LabS) -> Seq<RectS>
    decreases cols,
{
    if cols <= 0 {
        Seq::empty()
    } else {
        let rest = grid_row_cells(row, cols - 1, w, h, c);
        if (row + (cols - 1)) % 2 == 1 {
            rest.push(grid_cell(row, cols - 1, w, h, c))
        } else {
            rest
        }
    }
}

/// The checkerboard cells of the first `rows` rows, row-major.
pub open spec fn grid_rows_cells(rows: int, cols: int, w: int, h: int, c: LabS) -> Seq<RectS>
    decreases rows,
{
    if rows <= 0 {
        Seq::empty()
    } else {
        grid_rows_cells(rows - 1, cols, w, h, c) + grid_row_cells(rows - 1, cols, w, h, c)
    }
}

/// One channel of the straight-alpha composite of foreground over
/// background.
pub open spec fn blend_channel(f: int, b: int, alpha: int) -> int {
    tdiv(f * alpha, SCALE as int) + tdiv((SCALE as int - alpha) * b, SCALE as int)
}

/// Whether one composite channel is representable.
pub open spec fn blend_channel_ok(f: int, b: int, alpha: int) -> bool {
    &&& fits(tdiv(f * alpha, SCALE as int))
    &&& fits(tdiv((SCALE as int - alpha) * b, SCALE as int))
    &&& fits(blend_channel(f, b, alpha))
}

/// The CPU-precomputed straight-alpha composite of the blend pattern, with
/// full alpha.
pub open spec fn blend_composite(f: LabS, b: LabS) -> LabS {
    LabS {
        l: blend_channel(f.l, b.l, f.alpha),
        a: blend_channel(f.a, b.a, f.alpha),
        b: blend_channel(f.b, b.b, f.alpha),
        alpha: SCALE as int,
    }
}

/// A color with its alpha forced to one.
pub open spec fn with_full_alpha(c: LabS) -> LabS {
    LabS { l: c.l, a: c.a, b: c.b, alpha: SCALE as int }
}

/// The rectangle list of a scene.
pub open spec fn compile_val(s: Scene) -> Seq<RectS> {
    match s {
        Scene::Fill(c) => seq![
            rect_canvas(lch_val(c@), lch_val(c@), lch_val(c@), lch_val(c@)),
        ],
        Scene::FillLeftRight(l, r) => seq![
            rect_canvas(lch_val(r@), lch_val(l@), lch_val(r@), lch_val(l@)),
        ],
        Scene::FillTopBottom(t, b) => seq![
            rect_canvas(lch_val(t@), lch_val(t@), lch_val(b@), lch_val(b@)),
        ],
        Scene::FillFour(a, b, c, d) => seq![
            rect_canvas(lch_val(a@), lch_val(b@), lch_val(c@), lch_val(d@)),
        ],
        Scene::CenterBox(bg, fg, size) => seq![
            rect_canvas(lch_val(bg@), lch_val(bg@), lch_val(bg@), lch_val(bg@)),
            RectS {
                x1: -size@,
                y1: -size@,
                x2: size@,
                y2: size@,
                c0: lch_val(fg@),
                c1: lch_val(fg@),
                c2: lch_val(fg@),
                c3: lch_val(fg@),
            },
        ],
        Scene::Grid(bg, fg, rows, cols) => seq![
            rect_canvas(lch_val(bg@), lch_val(bg@), lch_val(bg@), lch_val(bg@)),
        ].add(
            if rows > 0 && cols > 0 {
                grid_rows_cells(rows as int, cols as int, grid_w(cols), grid_w(rows), lch_val(fg@))
            } else {
                Seq::empty()
            },
        ),
        Scene::BlendLeft(c) => seq![
            RectS {
                x1: -(SCALE as int),
                y1: 0,
                x2: SCALE as int,
                y2: SCALE as int,
                c0: lch_val(c@),
                c1: lch_val(c@),
                c2: lch_val(c@),
                c3: lch_val(c@),
            },
        ],
        Scene::BlendRight(b, f) => {
            let bb = with_full_alpha(lch_val(b@));
            let ff = with_full_alpha(lch_val(f@));
            let rr = blend_composite(lch_val(f@), lch_val(b@));
            seq![
                RectS {
                    x1: -(SCALE as int),
                    y1: -(SCALE as int),
                    x2: 0,
                    y2: SCALE as int,
                    c0: bb,
                    c1: bb,
                    c2: bb,
                    c3: bb,
                },
                RectS { x1: 0, y1: -(SCALE as int), x2: SCALE as int, y2: 0, c0: ff, c1: ff, c2: ff, c3: ff },
                RectS { x1: 0, y1: 0, x2: SCALE as int, y2: SCALE as int, c0: rr, c1: rr, c2: rr, c3: rr },
            ]
        },
    }
}

/// Whether compiling a scene succeeds.
pub open spec fn compile_ok(s: Scene) -> bool {
    match s {
        Scene::Fill(c) => lch_ok(c@),
        Scene::FillLeftRight(l, r) => lch_ok(l@) && lch_ok(r@),
        Scene::FillTopBottom(t, b) => lch_ok(t@) && lch_ok(b@),
        Scene::FillFour(a, b, c, d) => lch_ok(a@) && lch_ok(b@) && lch_ok(c@) && lch_ok(d@),
        Scene::CenterBox(bg, fg, size) => lch_ok(bg@) && lch_ok(fg@) && fits(-size@),
        Scene::Grid(bg, fg, rows, cols) => lch_ok(bg@) && lch_ok(fg@),
        Scene::BlendLeft(c) => lch_ok(c@),
        Scene::BlendRight(b, f) => {
            let fv = lch_val(f@);
            let bv = lch_val(b@);
            &&& lch_ok(b@)
            &&& lch_ok(f@)
            &&& fits(SCALE as int - fv.alpha)
            &&& blend_channel_ok(fv.l, bv.l, fv.alpha)
            &&& blend_channel_ok(fv.a, bv.a, fv.alpha)
            &&& blend_channel_ok(fv.b, bv.b, fv.alpha)
        },
    }
}

/// Whether a rectangle vector has exactly the rectangles of a value
/// sequence.
pub open spec fn rects_match(v: Seq<FillRect>, s: Seq<RectS>) -> bool {
    &&& v.len() == s.len()
    &&& forall|i: int| 0 <= i < v.len() ==> #[trigger] v[i]@ == s[i]
}

/// Appending matching elements keeps a rectangle vector matched to its
/// value sequence.
proof fn lemma_match_push(v: Seq<FillRect>, s: Seq<RectS>, r: FillRect, c: RectS)
    requires
        rects_match(v, s),
        r@ == c,
    ensures
        rects_match(v.push(r), s.push(c)),
{
    assert forall|i: int| 0 <= i < v.push(r).len() implies #[trigger] v.push(r)[i]@ == s.push(c)[i]
    by {
        if i < v.len() {
            assert(v[i]@ == s[i]);
        }
    }
}

fn rect_of(x1: Fixed, y1: Fixed, x2: Fixed, y2: Fixed, c0: Lab, c1: Lab, c2: Lab, c3: Lab) -> (r:
    FillRect)
    ensures
        r@ == (RectS {
            x1: x1@,
            y1: y1@,
            x2: x2@,
            y2: y2@,
            c0: c0@,
            c1: c1@,
            c2: c2@,
            c3: c3@,
        }),
{
    FillRect { x1, y1, x2, y2, c0, c1, c2, c3 }
}

fn canvas_rect(c0: Lab, c1: Lab, c2: Lab, c3: Lab) -> (r: FillRect)
    ensures
        r@ == rect_canvas(c0@, c1@, c2@, c3@),
{
    let neg: Fixed = Fixed { v: -SCALE };
    let pos: Fixed = Fixed { v: SCALE };
    rect_of(neg, neg, pos, pos, c0, c1, c2, c3)
}

/// Expands a scene into its ordered rectangle list: one full-canvas
/// rectangle for the flat and gradient patterns, background plus centered
/// box, background plus one rectangle per odd checkerboard cell, and the
/// two blend halves as stated by `compile_val`.
#[verifier::rlimit(100)]
pub fn compile_scene(scene: &Scene) -> (r: Result<Vec<FillRect>, SceneError>)
    ensures
        r matches Ok(v) ==> rects_match(v@, compile_val(*scene)),
        r is Ok <==> compile_ok(*scene),
{
    let mut out: Vec<FillRect> = Vec::new();
    match *scene {
        Scene::Fill(c) => {
            let cc: Lab = match lch_to_lab(c) {
                Ok(x) => x,
                Err(e) => { return Err(e) },
            };
            out.push(canvas_rect(cc, cc, cc, cc));
        },
        Scene::FillLeftRight(l, r) => {
            let lc: Lab = match lch_to_lab(l) {
                Ok(x) => x,
                Err(e) => { return Err(e) },
            };
            let rc: Lab = match lch_to_lab(r) {
                Ok(x) => x,
                Err(e) => { return Err(e) },
            };
            out.push(canvas_rect(rc, lc, rc, lc));
        },
        Scene::FillTopBottom(t, b) => {
            let tc: Lab = match lch_to_lab(t) {
                Ok(x) => x,
                Err(e) => { return Err(e) },
            };
            let bc: Lab = match lch_to_lab(b) {
                Ok(x) => x,
                Err(e) => { return Err(e) },
            };
            out.push(canvas_rect(tc, tc, bc, bc));
        },
        Scene::FillFour(a, b, c, d) => {
            let ac: Lab = match lch_to_lab(a) {
                Ok(x) => x,
                Err(e) => { return Err(e) },
            };
            let bc: Lab = match lch_to_lab(b) {
                Ok(x) => x,
                Err(e) => { return Err(e) },
            };
            let cc: Lab = match lch_to_lab(c) {
                Ok(x) => x,
                Err(e) => { return Err(e) },
            };
            let dc: Lab = match lch_to_lab(d) {
                Ok(x) => x,
                Err(e) => { return Err(e) },
            };
            out.push(canvas_rect(ac, bc, cc, dc));
        },
        Scene::CenterBox(bg, fg, size) => {
            let bgc: Lab = match lch_to_lab(bg) {
                Ok(x) => x,
                Err(e) => { return Err(e) },
            };
            let fgc: Lab = match lch_to_lab(fg) {
                Ok(x) => x,
                Err(e) => { return Err(e) },
            };
            let nsize: Fixed = match size.fneg() {
                Some(x) => x,
                None => { return Err(SceneError) },
            };
            out.push(canvas_rect(bgc, bgc, bgc, bgc));
            out.push(rect_of(nsize, nsize, size, size, fgc, fgc, fgc, fgc));
        },
        Scene::Grid(bg, fg, rows, cols) => {
            let bgc: Lab = match lch_to_lab(bg) {
                Ok(x) => x,
                Err(e) => { return Err(e) },
            };
            let fgc: Lab = match lch_to_lab(fg) {
                Ok(x) => x,
                Err(e) => { return Err(e) },
            };
            out.push(canvas_rect(bgc, bgc, bgc, bgc));
            if rows > 0 && cols > 0 {
                let two: Fixed = Fixed { v: 2 * SCALE };
                proof {
                    lemma_tdiv_le(
                        2 * SCALE as int * SCALE as int,
                        cols as int * SCALE as int,
                        2_000_000_000_000_000_000,
                    );
                    lemma_tdiv_le(
                        2 * SCALE as int * SCALE as int,
                        rows as int * SCALE as int,
                        2_000_000_000_000_000_000,
                    );
                }
                let w: Fixed = match two.fdiv(Fixed::from_whole_u32(cols)) {
                    Some(x) => x,
                    None => { return Err(SceneError) },
                };
                let h: Fixed = match two.fdiv(Fixed::from_whole_u32(rows)) {
                    Some(x) => x,
                    None => { return Err(SceneError) },
                };
                proof {
                    lemma_grid_step_bound(w@, cols as int);
                    lemma_grid_step_bound(h@, rows as int);
                }
                let mut row: u32 = 0;
                while row < rows
                    invariant
                        0 <= row <= rows,
                        rows > 0,
                        cols > 0,
                        w@ == grid_w(cols),
                        h@ == grid_w(rows),
                        iabs(w@) <= 2_000_000_000,
                        iabs(h@) <= 2_000_000_000,
                        fgc@ == lch_val(fg@),
                        rects_match(
                            out@,
                            seq![rect_canvas(lch_val(bg@), lch_val(bg@), lch_val(bg@), lch_val(bg@))].add(
                                grid_rows_cells(row as int, cols as int, w@, h@, lch_val(fg@)),
                            ),
                        ),
                    decreases rows - row,
                {
                    let mut col: u32 = 0;
                    while col < cols
                        invariant
                            0 <= col <= cols,
                            0 <= row < rows,
                            cols > 0,
                            w@ == grid_w(cols),
                            h@ == grid_w(rows),
                            iabs(w@) <= 2_000_000_000,
                            iabs(h@) <= 2_000_000_000,
                            fgc@ == lch_val(fg@),
                            rects_match(
                                out@,
                                seq![rect_canvas(lch_val(bg@), lch_val(bg@), lch_val(bg@), lch_val(bg@))].add(
                                    grid_rows_cells(row as int, cols as int, w@, h@, lch_val(fg@)),
                                ).add(grid_row_cells(row as int, col as int, w@, h@, lch_val(fg@))),
                            ),
                        decreases cols - col,
                    {
                        let ghost base = seq![
                            rect_canvas(lch_val(bg@), lch_val(bg@), lch_val(bg@), lch_val(bg@)),
                        ].add(grid_rows_cells(row as int, cols as int, w@, h@, lch_val(fg@)));
                        let ghost pre = grid_row_cells(row as int, col as int, w@, h@, lch_val(fg@));
                        if ((row as u64) + (col as u64)) % 2 == 1 {
                            proof {
                                lemma_prod_le(w@, col as int, 2_000_000_000, 4_294_967_295);
                                lemma_prod_le(h@, row as int, 2_000_000_000, 4_294_967_295);
                            }
                            let x1v: i128 = (w.v as i128) * (col as i128) - (SCALE as i128);
                            let y1v: i128 = (h.v as i128) * (row as i128) - (SCALE as i128);
                            let x2v: i128 = x1v + (w.v as i128);
                            let y2v: i128 = y1v + (h.v as i128);
                            proof {
                                assert(iabs(w@ * (col as int)) <= 8_589_934_590_000_000_000);
                                assert(iabs(h@ * (row as int)) <= 8_589_934_590_000_000_000);
                                assert(-9_223_372_036_854_775_807 <= x1v as int
                                    <= 9_223_372_036_854_775_807);
                                assert(-9_223_372_036_854_775_807 <= y1v as int
                                    <= 9_223_372_036_854_775_807);
                                assert(-9_223_372_036_854_775_807 <= x2v as int
                                    <= 9_223_372_036_854_775_807);
                                assert(-9_223_372_036_854_775_807 <= y2v as int
                                    <= 9_223_372_036_854_775_807);
                            }
                            let cell: FillRect = rect_of(
                                Fixed { v: x1v as i64 },
                                Fixed { v: y1v as i64 },
                                Fixed { v: x2v as i64 },
                                Fixed { v: y2v as i64 },
                                fgc,
                                fgc,
                                fgc,
                                fgc,
                            );
                            let ghost snap = out@;
                            let ghost cellv = grid_cell(row as int, col as int, w@, h@, lch_val(fg@));
                            out.push(cell);
                            proof {
                                lemma_match_push(snap, base.add(pre), cell, cellv);
                                assert(base.add(pre).push(cellv) =~= base.add(pre.push(cellv)));
                            }
                        }
                        proof {
                            let c = lch_val(fg@);
                            assert(grid_row_cells(row as int, col as int + 1, w@, h@, c) == if ((
                            row as int) + (col as int)) % 2 == 1 {
                                pre.push(grid_cell(row as int, col as int, w@, h@, c))
                            } else {
                                pre
                            });
                            assert(((row as u64) + (col as u64)) % 2 == 1 <==> ((row as int) + (
                            col as int)) % 2 == 1);
                        }
                        col = col + 1;
                    }
                    proof {
                        assert(grid_rows_cells(row as int + 1, cols as int, w@, h@, lch_val(fg@))
                            == grid_rows_cells(row as int, cols as int, w@, h@, lch_val(fg@)).add(
                            grid_row_cells(row as int, cols as int, w@, h@, lch_val(fg@)),
                        ));
                    }
                    row = row + 1;
                }
            }
        },
        Scene::BlendLeft(c) => {
            let cc: Lab = match lch_to_lab(c) {
                Ok(x) => x,
                Err(e) => { return Err(e) },
            };
            let neg: Fixed = Fixed { v: -SCALE };
            let pos: Fixed = Fixed { v: SCALE };
            let zero: Fixed = Fixed { v: 0 };
            out.push(rect_of(neg, zero, pos, pos, cc, cc, cc, cc));
        },
        Scene::BlendRight(b, f) => {
            let bc: Lab = match lch_to_lab(b) {
                Ok(x) => x,
                Err(e) => { return Err(e) },
            };
            let fc: Lab = match lch_to_lab(f) {
                Ok(x) => x,
                Err(e) => { return Err(e) },
            };
            let alpha: Fixed = fc.alpha;
            let one: Fixed = Fixed { v: SCALE };
            let inv: Fixed = match one.fsub(alpha) {
                Some(x) => x,
                None => { return Err(SceneError) },
            };
            let rl: Fixed = match blend_one(fc.l, bc.l, alpha, inv) {
                Some(x) => x,
                None => { return Err(SceneError) },
            };
            let ra: Fixed = match blend_one(fc.a, bc.a, alpha, inv) {
                Some(x) => x,
                None => { return Err(SceneError) },
            };
            let rb: Fixed = match blend_one(fc.b, bc.b, alpha, inv) {
                Some(x) => x,
                None => { return Err(SceneError) },
            };
            let bb: Lab = Lab { l: bc.l, a: bc.a, b: bc.b, alpha: one };
            let ff: Lab = Lab { l: fc.l, a: fc.a, b: fc.b, alpha: one };
            let rr: Lab = Lab { l: rl, a: ra, b: rb, alpha: one };
            let neg: Fixed = Fixed { v: -SCALE };
            let pos: Fixed = Fixed { v: SCALE };
            let zero: Fixed = Fixed { v: 0 };
            out.push(rect_of(neg, neg, zero, pos, bb, bb, bb, bb));
            out.push(rect_of(zero, neg, pos, zero, ff, ff, ff, ff));
            out.push(rect_of(zero, zero, pos, pos, rr, rr, rr, rr));
        },
    }
    Ok(out)
}

/// Bounds one grid step by the full canvas extent.
proof fn lemma_grid_step_bound(w: int, n: int)
    requires
        n >= 1,
        w == tdiv(2 * SCALE as int * SCALE as int, n * SCALE as int),
    ensures
        iabs(w) <= 2_000_000_000,
{
    assert(n * SCALE as int >= SCALE as int) by (nonlinear_arith)
        requires
            n >= 1,
    ;
    vstd::arithmetic::div_mod::lemma_div_is_ordered_by_denominator(
        2_000_000_000_000_000_000,
        SCALE as int,
        n * SCALE as int,
    );
    lemma_tdiv_eq(2_000_000_000_000_000_000, 1_000_000_000, 2_000_000_000, 0);
    assert(2_000_000_000_000_000_000int / (n * SCALE as int) >= 0) by (nonlinear_arith)
        requires
            n * SCALE as int >= 1,
    ;
}

/// One channel of the straight-alpha composite: `f * alpha + (1 - alpha) *
/// b`, with the one-minus-alpha factor supplied precomputed.
fn blend_one(f: Fixed, b: Fixed, alpha: Fixed, inv: Fixed) -> (r: Option<Fixed>)
    requires
        inv@ == SCALE as int - alpha@,
    ensures
        r matches Some(x) ==> x@ == blend_channel(f@, b@, alpha@),
        r is Some <==> blend_channel_ok(f@, b@, alpha@),
{
    let t1: Fixed = match f.fmul(alpha) {
        Some(x) => x,
        None => { return None },
    };
    let t2: Fixed = match inv.fmul(b) {
        Some(x) => x,
        None => { return None },
    };
    t1.fadd(t2)
}

} // verus!
