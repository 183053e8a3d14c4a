//! Coordinate transform between document space and screen space.
//!
//! A document point is mapped to the screen by one integer scale factor and
//! one offset per axis: `screen = offset + doc * scale`.  The scale carries
//! the fit-to-panel factor and the user zoom; the offset carries the fixed
//! canvas margin and the pan.  Because a screen coordinate keeps micro-pixel
//! precision, the forward map is exact, and mapping back to document space is
//! a rounding division that recovers the original point exactly
//! (`lemma_round_trip`).
//!
//! Two page-origin conventions and two fit-scale strategies occur in the
//! wild; both are supported here behind one explicit policy choice, never
//! mixed silently.

use vstd::prelude::*;

use vstd::arithmetic::div_mod::lemma_div_multiples_vanish_fancy;
use vstd::arithmetic::mul::lemma_mul_is_commutative;

use crate::MAX_COORD_MU;
use crate::MAX_OFF_UPX;
use crate::MAX_PAN_UPX;
use crate::MAX_PANEL_MPX;
use crate::SCALE_MAX;
use crate::ZOOM_MAX_PM;
use crate::ZOOM_MIN_PM;

verus! {

/// Canvas margin left of the page, in micro-pixels.
pub const MARGIN_X_UPX: i64 = 20_000_000;

/// Canvas margin above the page, in micro-pixels.
pub const MARGIN_Y_UPX: i64 = 50_000_000;

/// Which corner of the page the document coordinates grow from.
#[derive(Clone, Copy, PartialEq, Eq, Structural, Debug)]
pub enum Origin {
    /// `top` grows downward from the top edge (the canonical convention).
    TopLeft,
    /// `top` grows upward from the bottom edge and must be flipped.
    BottomLeft,
}

/// How the fit-to-panel scale is derived from the panel and page sizes.
#[derive(Clone, Copy, PartialEq, Eq, Structural, Debug)]
pub enum FitStrategy {
    /// Page width fills the panel width.
    WidthOnly,
    /// The whole page fits the panel, aspect ratio preserved.
    UniformFit,
}

/// Division by a positive divisor, rounded to the nearest integer, halves
/// away from zero.
pub open spec fn round_div(n: int, d: int) -> int
    recommends
        d >= 1,
{
    if n >= 0 {
        (n + d / 2) / d
    } else {
        -((-n + d / 2) / d)
    }
}

/// The resolved per-frame mapping from document space to screen space.
#[derive(Clone, Copy, PartialEq, Eq, Structural, Debug)]
pub struct ViewTransform {
    /// Milli-pixels per document unit; micro-pixels per milli-unit.
    pub scale: i64,
    /// Screen offset of the document origin's axis, in micro-pixels.
    pub off_x: i64,
    /// Screen offset of the document origin's axis, in micro-pixels.
    pub off_y: i64,
    /// Page height in milli-units, used to flip a bottom-left origin.
    pub page_h: i64,
    /// The page-origin convention of the incoming coordinates.
    pub origin: Origin,
}

impl ViewTransform {
    /// Bounds under which every transform step stays in `i64` range.
    pub open spec fn wf(self) -> bool {
        &&& 1 <= self.scale <= SCALE_MAX
        &&& -MAX_OFF_UPX <= self.off_x <= MAX_OFF_UPX
        &&& -MAX_OFF_UPX <= self.off_y <= MAX_OFF_UPX
        &&& 0 <= self.page_h <= MAX_COORD_MU
    }

    /// The effective vertical document coordinate after the origin policy:
    /// a bottom-left `top` is flipped against the page height.
    pub open spec fn spec_doc_y(self, top_mu: int) -> int {
        match self.origin {
            Origin::TopLeft => top_mu,
            Origin::BottomLeft => self.page_h - top_mu,
        }
    }

    /// Where a document x coordinate lands on screen, in micro-pixels.
    pub open spec fn spec_to_screen_x(self, x_mu: int) -> int {
        self.off_x + x_mu * self.scale
    }

    /// Where a document y coordinate lands on screen, in micro-pixels.
    pub open spec fn spec_to_screen_y(self, top_mu: int) -> int {
        self.off_y + self.spec_doc_y(top_mu) * self.scale
    }

    /// The document x coordinate that a screen x came from, rounded to the
    /// nearest milli-unit.
    pub open spec fn spec_to_doc_x(self, sx_upx: int) -> int {
        round_div(sx_upx - self.off_x, self.scale as int)
    }

    /// The document y coordinate that a screen y came from, under the same
    /// origin policy as the forward map.
    pub open spec fn spec_to_doc_y(self, sy_upx: int) -> int {
        match self.origin {
            Origin::TopLeft => round_div(sy_upx - self.off_y, self.scale as int),
            Origin::BottomLeft => self.page_h - round_div(sy_upx - self.off_y, self.scale as int),
        }
    }

    /// Maps a document x coordinate to the screen.
    pub fn to_screen_x(&self, x_mu: i64) -> (r: i64)
        requires
            self.wf(),
            -MAX_COORD_MU <= x_mu <= MAX_COORD_MU,
        ensures
            r == self.spec_to_screen_x(x_mu as int),
    {
        proof {
            lemma_coord_scale_bound(x_mu as int, self.scale as int);
        }
        self.off_x + x_mu * self.scale
    }

    /// Maps a document y coordinate to the screen, flipping a bottom-left
    /// origin against the page height.
    pub fn to_screen_y(&self, top_mu: i64) -> (r: i64)
        requires
            self.wf(),
            -MAX_COORD_MU <= top_mu <= MAX_COORD_MU,
        ensures
            r == self.spec_to_screen_y(top_mu as int),
    {
        proof {
            lemma_coord_scale_bound(top_mu as int, self.scale as int);
            lemma_coord_scale_bound(self.page_h - top_mu, self.scale as int);
        }
        match self.origin {
            Origin::TopLeft => self.off_y + top_mu * self.scale,
            Origin::BottomLeft => self.off_y + (self.page_h - top_mu) * self.scale,
        }
    }

    /// Maps a screen x coordinate back to document space.
    pub fn to_doc_x(&self, sx_upx: i64) -> (r: i64)
        requires
            self.wf(),
            -MAX_OFF_UPX <= sx_upx <= MAX_OFF_UPX,
        ensures
            r == self.spec_to_doc_x(sx_upx as int),
    {
        round_div_i64(sx_upx - self.off_x, self.scale)
    }

    /// Maps a screen y coordinate back to document space.
    pub fn to_doc_y(&self, sy_upx: i64) -> (r: i64)
        requires
            self.wf(),
            -MAX_OFF_UPX <= sy_upx <= MAX_OFF_UPX,
        ensures
            r == self.spec_to_doc_y(sy_upx as int),
    {
        let d = round_div_i64(sy_upx - self.off_y, self.scale);
        match self.origin {
            Origin::TopLeft => d,
            Origin::BottomLeft => self.page_h - d,
        }
    }
}

/// A bounded document coordinate times a bounded scale stays well inside
/// the machine-integer range.
pub proof fn lemma_coord_scale_bound(p: int, s: int)
    requires
        -2 * MAX_COORD_MU <= p <= 2 * MAX_COORD_MU,
        1 <= s <= SCALE_MAX,
    ensures
        -2 * MAX_COORD_MU * SCALE_MAX <= p * s <= 2 * MAX_COORD_MU * SCALE_MAX,
{
    assert(-2 * MAX_COORD_MU * SCALE_MAX <= p * s <= 2 * MAX_COORD_MU * SCALE_MAX)
        by (nonlinear_arith)
        requires
            -2 * MAX_COORD_MU <= p <= 2 * MAX_COORD_MU,
            1 <= s <= SCALE_MAX,
    ;
}

/// Rounding division on machine integers; the divisor is a positive scale.
pub fn round_div_i64(n: i64, d: i64) -> (r: i64)
    requires
        1 <= d <= SCALE_MAX,
        -0x7000_0000_0000_0000 <= n <= 0x7000_0000_0000_0000,
    ensures
        r == round_div(n as int, d as int),
{
    let du: u64 = d as u64;
    if n >= 0 {
        let m: u64 = ((n as u64) + du / 2) / du;
        m as i64
    } else {
        let m: u64 = (((-n) as u64) + du / 2) / du;
        -(m as i64)
    }
}

/// Round-trip exactness of the transform: a document point mapped to the
/// screen and back is recovered without loss, for every well-formed view —
/// every clamped zoom, every pan offset, both origin conventions.
pub proof fn lemma_round_trip(vt: ViewTransform, x_mu: int, top_mu: int)
    requires
        vt.wf(),
        -MAX_COORD_MU <= x_mu <= MAX_COORD_MU,
        -MAX_COORD_MU <= top_mu <= MAX_COORD_MU,
    ensures
        vt.spec_to_doc_x(vt.spec_to_screen_x(x_mu)) == x_mu,
        vt.spec_to_doc_y(vt.spec_to_screen_y(top_mu)) == top_mu,
{
    lemma_round_div_of_multiple(x_mu, vt.scale as int);
    lemma_round_div_of_multiple(vt.spec_doc_y(top_mu), vt.scale as int);
}

/// Rounding division undoes multiplication by the same positive factor.
pub proof fn lemma_round_div_of_multiple(p: int, d: int)
    requires
        d >= 1,
    ensures
        round_div(p * d, d) == p,
{
    if p >= 0 {
        assert(p * d >= 0) by (nonlinear_arith)
            requires
                p >= 0,
                d >= 1,
        ;
        lemma_div_multiples_vanish_fancy(p, d / 2, d);
        lemma_mul_is_commutative(p, d);
        assert((d * p + d / 2) / d == p);
    } else {
        assert(p * d < 0) by (nonlinear_arith)
            requires
                p < 0,
                d >= 1,
        ;
        assert(-(p * d) == (-p) * d) by (nonlinear_arith);
        lemma_div_multiples_vanish_fancy(-p, d / 2, d);
        lemma_mul_is_commutative(-p, d);
        assert((d * (-p) + d / 2) / d == -p);
    }
}

/// The pixel size at which to rasterize a page so that it fills the
/// target width at the current zoom: both dimensions scaled by the
/// width-only fit times the zoom.
pub open spec fn spec_render_size(
    page_w_mu: int,
    page_h_mu: int,
    target_w_mpx: int,
    zoom_pm: int,
) -> (int, int) {
    let s = spec_view_scale(
        spec_fit_scale(FitStrategy::WidthOnly, target_w_mpx, 0, page_w_mu, page_h_mu),
        zoom_pm,
    );
    (page_w_mu * s / 1_000_000, page_h_mu * s / 1_000_000)
}

/// Computes the rasterization size of a page, in whole pixels.
pub fn render_size(page_w_mu: i64, page_h_mu: i64, target_w_mpx: i64, zoom_pm: u32) -> (r: (
    i64,
    i64,
))
    requires
        1000 <= page_w_mu <= MAX_COORD_MU,
        1000 <= page_h_mu <= MAX_COORD_MU,
        0 <= target_w_mpx <= MAX_PANEL_MPX,
        zoom_pm <= ZOOM_MAX_PM,
    ensures
        (r.0 as int, r.1 as int) == spec_render_size(
            page_w_mu as int,
            page_h_mu as int,
            target_w_mpx as int,
            zoom_pm as int,
        ),
        0 <= r.0,
        0 <= r.1,
{
    let fit = fit_scale(FitStrategy::WidthOnly, target_w_mpx, 0, page_w_mu, page_h_mu);
    let s = view_scale(fit, zoom_pm);
    proof {
        lemma_coord_scale_bound(page_w_mu as int, s as int);
        lemma_coord_scale_bound(page_h_mu as int, s as int);
        vstd::arithmetic::div_mod::lemma_div_pos_is_pos(page_w_mu * s, 1_000_000);
        vstd::arithmetic::div_mod::lemma_div_pos_is_pos(page_h_mu * s, 1_000_000);
    }
    (page_w_mu * s / 1_000_000, page_h_mu * s / 1_000_000)
}

/// Clamps a zoom value into the supported range.
pub fn clamp_zoom(z_pm: u32) -> (r: u32)
    ensures
        r == spec_clamp_zoom(z_pm as int),
{
    if z_pm < ZOOM_MIN_PM {
        ZOOM_MIN_PM
    } else if z_pm > ZOOM_MAX_PM {
        ZOOM_MAX_PM
    } else {
        z_pm
    }
}

/// The clamped zoom value, per-mille.
pub open spec fn spec_clamp_zoom(z: int) -> int {
    if z < ZOOM_MIN_PM {
        ZOOM_MIN_PM as int
    } else if z > ZOOM_MAX_PM {
        ZOOM_MAX_PM as int
    } else {
        z
    }
}

/// One discrete zoom-in step: the zoom grows by a factor 1.2, capped at the
/// upper clamp.
pub fn zoom_in_step(z_pm: u32) -> (r: u32)
    requires
        z_pm <= ZOOM_MAX_PM,
    ensures
        r == spec_clamp_zoom(z_pm as int * 6 / 5),
        ZOOM_MIN_PM <= r <= ZOOM_MAX_PM,
{
    clamp_zoom(z_pm * 6 / 5)
}

/// One discrete zoom-out step: the zoom shrinks by a factor 1.2, held at the
/// lower clamp.
pub fn zoom_out_step(z_pm: u32) -> (r: u32)
    requires
        z_pm <= ZOOM_MAX_PM,
    ensures
        r == spec_clamp_zoom(z_pm as int * 5 / 6),
        ZOOM_MIN_PM <= r <= ZOOM_MAX_PM,
{
    clamp_zoom(z_pm * 5 / 6)
}

/// Continuous wheel zoom: the zoom is scaled by `1 + delta / 1000` (a
/// per-mille wheel delta), floored at factor zero, then re-clamped.
pub fn wheel_zoom(z_pm: u32, delta_pm: i64) -> (r: u32)
    requires
        z_pm <= ZOOM_MAX_PM,
        -1_000_000 <= delta_pm <= 1_000_000,
    ensures
        r == spec_clamp_zoom(z_pm as int * spec_wheel_factor(delta_pm as int) / 1000),
        ZOOM_MIN_PM <= r <= ZOOM_MAX_PM,
{
    let factor: i64 = if delta_pm <= -1000 {
        0
    } else {
        1000 + delta_pm
    };
    proof {
        assert(0 <= z_pm * spec_wheel_factor(delta_pm as int) <= ZOOM_MAX_PM * 2_001_000)
            by (nonlinear_arith)
            requires
                0 <= z_pm <= ZOOM_MAX_PM,
                0 <= spec_wheel_factor(delta_pm as int) <= 2_001_000,
        ;
    }
    let scaled: i64 = (z_pm as i64) * factor / 1000;
    let clipped: u32 = if scaled > ZOOM_MAX_PM as i64 {
        ZOOM_MAX_PM
    } else if scaled < 0 {
        0
    } else {
        scaled as u32
    };
    clamp_zoom(clipped)
}

/// The wheel factor in per-mille: one plus the per-mille delta, never below
/// zero.
pub open spec fn spec_wheel_factor(delta: int) -> int {
    if delta <= -1000 {
        0
    } else {
        1000 + delta
    }
}

/// The fit scale in milli-pixels per document unit for a panel and page
/// size, under the chosen strategy.
pub open spec fn spec_fit_scale(
    fit: FitStrategy,
    panel_w_mpx: int,
    panel_h_mpx: int,
    page_w_mu: int,
    page_h_mu: int,
) -> int {
    let fit_w = panel_w_mpx * 1000 / page_w_mu;
    let fit_h = panel_h_mpx * 1000 / page_h_mu;
    match fit {
        FitStrategy::WidthOnly => fit_w,
        FitStrategy::UniformFit => if fit_w <= fit_h {
            fit_w
        } else {
            fit_h
        },
    }
}

/// The overall scale — fit times zoom — clamped into the supported range.
pub open spec fn spec_view_scale(fit_scale: int, zoom_pm: int) -> int {
    let s = fit_scale * zoom_pm / 1000;
    if s < 1 {
        1
    } else if s > SCALE_MAX {
        SCALE_MAX as int
    } else {
        s
    }
}

/// Computes the fit scale from the panel and page sizes.
pub fn fit_scale(
    fit: FitStrategy,
    panel_w_mpx: i64,
    panel_h_mpx: i64,
    page_w_mu: i64,
    page_h_mu: i64,
) -> (r: i64)
    requires
        0 <= panel_w_mpx <= MAX_PANEL_MPX,
        0 <= panel_h_mpx <= MAX_PANEL_MPX,
        1000 <= page_w_mu <= MAX_COORD_MU,
        1000 <= page_h_mu <= MAX_COORD_MU,
    ensures
        r == spec_fit_scale(fit, panel_w_mpx as int, panel_h_mpx as int, page_w_mu as int,
            page_h_mu as int),
        0 <= r <= MAX_PANEL_MPX,
{
    let fit_w = panel_w_mpx * 1000 / page_w_mu;
    let fit_h = panel_h_mpx * 1000 / page_h_mu;
    proof {
        lemma_fit_component_bound(panel_w_mpx as int, page_w_mu as int);
        lemma_fit_component_bound(panel_h_mpx as int, page_h_mu as int);
    }
    match fit {
        FitStrategy::WidthOnly => fit_w,
        FitStrategy::UniformFit => if fit_w <= fit_h {
            fit_w
        } else {
            fit_h
        },
    }
}

/// A panel-over-page quotient stays within the panel bound.
proof fn lemma_fit_component_bound(panel: int, page: int)
    requires
        0 <= panel <= MAX_PANEL_MPX,
        1000 <= page,
    ensures
        0 <= panel * 1000 / page <= MAX_PANEL_MPX,
{
    vstd::arithmetic::div_mod::lemma_div_is_ordered_by_denominator(panel * 1000, 1000, page);
    vstd::arithmetic::div_mod::lemma_div_by_multiple(panel, 1000);
    vstd::arithmetic::div_mod::lemma_div_pos_is_pos(panel * 1000, page);
}

/// Combines a fit scale and a zoom into the clamped view scale.
pub fn view_scale(fit_scale: i64, zoom_pm: u32) -> (r: i64)
    requires
        0 <= fit_scale <= MAX_PANEL_MPX,
        zoom_pm <= ZOOM_MAX_PM,
    ensures
        r == spec_view_scale(fit_scale as int, zoom_pm as int),
        1 <= r <= SCALE_MAX,
{
    proof {
        assert(fit_scale * zoom_pm <= MAX_PANEL_MPX * ZOOM_MAX_PM && fit_scale * zoom_pm >= 0)
            by (nonlinear_arith)
            requires
                0 <= fit_scale <= MAX_PANEL_MPX,
                0 <= zoom_pm <= ZOOM_MAX_PM,
        ;
    }
    let s = fit_scale * (zoom_pm as i64) / 1000;
    if s < 1 {
        1
    } else if s > SCALE_MAX {
        SCALE_MAX
    } else {
        s
    }
}

} // verus!
