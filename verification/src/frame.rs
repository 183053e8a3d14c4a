//! Canvas renderer orchestration: one pass per frame from state to a paint
//! plan.
//!
//! The renderer resolves the view transform, lays every item out in paint
//! order, and returns both the paint operations and the padded hit
//! rectangles.  Interaction runs against the very rectangles that were
//! painted, so what the user sees and what the pointer hits cannot drift
//! apart within a frame.

use vstd::prelude::*;

use vstd::string::StringExecFns;

use crate::interact::ScreenRect;
use crate::model::DocumentState;
use crate::numfmt::dec_rep;
use crate::numfmt::push_dec_u64;
use crate::style::Color;
use crate::transform::fit_scale;
use crate::transform::round_div;
use crate::transform::spec_fit_scale;
use crate::transform::spec_view_scale;
use crate::transform::view_scale;
use crate::transform::FitStrategy;
use crate::transform::Origin;
use crate::transform::ViewTransform;
use crate::transform::MARGIN_X_UPX;
use crate::transform::MARGIN_Y_UPX;
use crate::MAX_PAN_UPX;
use crate::MAX_PANEL_MPX;
use crate::MAX_TEXT_LEN;

verus! {

/// Margin kept free at the right edge of the panel, micro-pixels.
pub const RIGHT_MARGIN_UPX: i64 = 20_000_000;

/// The one canonical renderer policy: origin convention, fit strategy,
/// wrap threshold and hit padding, chosen explicitly instead of living in
/// parallel renderer copies.
#[derive(Clone, Copy, PartialEq, Eq, Structural, Debug)]
pub struct RenderConfig {
    /// Which corner the incoming document coordinates grow from.
    pub origin: Origin,
    /// How the fit-to-panel scale is derived.
    pub fit: FitStrategy,
    /// Character count above which text becomes wrap-eligible.
    pub wrap_threshold: usize,
    /// Padding added around an item's measured rect for hit-testing,
    /// micro-pixels.
    pub hit_padding_upx: i64,
}

impl RenderConfig {
    pub open spec fn wf(self) -> bool {
        &&& 0 <= self.hit_padding_upx <= 10_000_000
        &&& self.wrap_threshold <= MAX_TEXT_LEN
    }
}

impl Default for RenderConfig {
    /// The canonical policy: top-left origin, uniform fit, the usual wrap
    /// threshold, two pixels of hit padding.
    fn default() -> (r: Self)
        ensures
            r.origin == Origin::TopLeft,
            r.fit == FitStrategy::UniformFit,
            r.wrap_threshold == 50usize,
            r.hit_padding_upx == 2_000_000i64,
            r.wf(),
    {
        RenderConfig {
            origin: Origin::TopLeft,
            fit: FitStrategy::UniformFit,
            wrap_threshold: 50,
            hit_padding_upx: 2_000_000,
        }
    }
}

/// A filled rectangle.
#[derive(Clone, Copy, PartialEq, Eq, Structural, Debug)]
pub struct FillRectOp {
    pub x: i64,
    pub y: i64,
    pub w: i64,
    pub h: i64,
    pub color: Color,
}

/// A stroked rectangle outline.
#[derive(Clone, Copy, PartialEq, Eq, Structural, Debug)]
pub struct StrokeRectOp {
    pub x: i64,
    pub y: i64,
    pub w: i64,
    pub h: i64,
    pub stroke_upx: i64,
    pub color: Color,
}

/// A line segment.
#[derive(Clone, Copy, PartialEq, Eq, Structural, Debug)]
pub struct SegmentOp {
    pub x1: i64,
    pub y1: i64,
    pub x2: i64,
    pub y2: i64,
    pub stroke_upx: i64,
    pub color: Color,
}

/// One laid-out line of text, anchored at its top-left corner.
#[derive(Debug)]
pub struct GlyphsOp {
    pub x: i64,
    pub y: i64,
    pub font_mpx: i64,
    pub color: Color,
    pub italic: bool,
    pub bold: bool,
    pub text: String,
}

/// One drawing instruction, in micro-pixel coordinates.
#[derive(Debug)]
pub enum PaintOp {
    FillRect(FillRectOp),
    StrokeRect(StrokeRectOp),
    Segment(SegmentOp),
    Glyphs(GlyphsOp),
}

/// The view transform a frame uses, composed from the panel size, the
/// reference page size, the clamped zoom and the pan, under the configured
/// policy.
pub open spec fn spec_compute_transform(
    state: DocumentState,
    cfg: RenderConfig,
    panel_w_mpx: int,
    panel_h_mpx: int,
) -> ViewTransform {
    ViewTransform {
        scale: spec_view_scale(
            spec_fit_scale(
                cfg.fit,
                panel_w_mpx,
                panel_h_mpx,
                state.page_size.0 as int,
                state.page_size.1 as int,
            ),
            state.zoom as int,
        ) as i64,
        off_x: (MARGIN_X_UPX + state.offset.0) as i64,
        off_y: (MARGIN_Y_UPX + state.offset.1) as i64,
        page_h: state.page_size.1,
        origin: cfg.origin,
    }
}

/// Resolves the frame's view transform.
pub fn compute_transform(
    state: &DocumentState,
    cfg: &RenderConfig,
    panel_w_mpx: i64,
    panel_h_mpx: i64,
) -> (vt: ViewTransform)
    requires
        state.wf(),
        0 <= panel_w_mpx <= MAX_PANEL_MPX,
        0 <= panel_h_mpx <= MAX_PANEL_MPX,
    ensures
        vt == spec_compute_transform(*state, *cfg, panel_w_mpx as int, panel_h_mpx as int),
        vt.wf(),
{
    let fit = fit_scale(
        cfg.fit,
        panel_w_mpx,
        panel_h_mpx,
        state.page_size.0,
        state.page_size.1,
    );
    let scale = view_scale(fit, state.zoom);
    ViewTransform {
        scale,
        off_x: MARGIN_X_UPX + state.offset.0,
        off_y: MARGIN_Y_UPX + state.offset.1,
        page_h: state.page_size.1,
        origin: cfg.origin,
    }
}

/// The zoom percentage a status line reports: the per-mille zoom rounded
/// to whole percent.
pub open spec fn spec_zoom_percent(zoom_pm: int) -> int {
    round_div(zoom_pm, 10)
}

/// The status line: item count, zoom percentage, and the column count when
/// more than one column is configured.
pub open spec fn spec_status_text(item_count: int, zoom_pm: int, column_count: int) -> Seq<
    char,
> {
    let head = "\u{1f4c4} "@ + dec_rep(item_count as nat) + " items | Zoom: "@ + dec_rep(
        spec_zoom_percent(zoom_pm) as nat,
    ) + "%"@;
    if column_count > 1 {
        head + " | "@ + dec_rep(column_count as nat) + " columns"@
    } else {
        head
    }
}

/// Builds the status line.
pub fn status_text(item_count: usize, zoom_pm: u32, column_count: usize) -> (r: String)
    ensures
        r@ == spec_status_text(item_count as int, zoom_pm as int, column_count as int),
{
    let mut s = String::new();
    s.append("\u{1f4c4} ");
    push_dec_u64(&mut s, item_count as u64);
    s.append(" items | Zoom: ");
    let pct = crate::transform::round_div_i64(zoom_pm as i64, 10);
    proof {
        vstd::arithmetic::div_mod::lemma_div_pos_is_pos(zoom_pm + 5, 10);
    }
    push_dec_u64(&mut s, pct as u64);
    s.append("%");
    if column_count > 1 {
        s.append(" | ");
        push_dec_u64(&mut s, column_count as u64);
        s.append(" columns");
    }
    proof {
        assert(s@ =~= spec_status_text(item_count as int, zoom_pm as int, column_count as int));
    }
    s
}

/// A frame-computed transform: well formed, with the offset bounded by
/// the margin plus the clamped pan.
pub open spec fn spec_frame_transform_bounds(vt: ViewTransform) -> bool {
    &&& vt.wf()
    &&& -2_000_000_000_000_000 <= vt.off_x <= 2_000_000_000_000_000
    &&& -2_000_000_000_000_000 <= vt.off_y <= 2_000_000_000_000_000
}

/// Where an item's top-left corner lands on screen: the transformed
/// bounding-box corner plus the item's manual nudge.
pub open spec fn spec_item_pos(
    state: DocumentState,
    vt: ViewTransform,
    item: crate::model::DocumentItem,
) -> (int, int) {
    let d = state.spec_item_offset(item.id@);
    (
        vt.spec_to_screen_x(item.bbox.left as int) + d.0,
        vt.spec_to_screen_y(item.bbox.top as int) + d.1,
    )
}

/// One item's resolved frame data: the paint operations and the padded
/// rectangle that hit-testing must use.
#[derive(Debug)]
pub struct ItemLayout {
    /// The measured glyph rect expanded by the hit padding.
    pub rect: ScreenRect,
    /// The wrapped glyph layout behind the rect.
    pub text_layout: crate::text::TextLayout,
    /// The item is among the search results.
    pub is_match: bool,
    /// The item's paint operations: a highlight fill when matched, then
    /// its glyph lines or its checkbox glyph.
    pub ops: Vec<PaintOp>,
}

/// One wrapped line's paint operation: a glyph run at the line's slot
/// below the item position, in the resolved style, carrying exactly the
/// line's characters.
pub open spec fn spec_line_glyph(
    op: PaintOp,
    pos: (int, int),
    font: int,
    col: Color,
    italic: bool,
    bold: bool,
    text: Seq<char>,
    line: (usize, usize),
    slot: int,
) -> bool {
    match op {
        PaintOp::Glyphs(g) => {
            &&& g.x == pos.0
            &&& g.y == pos.1 + slot * crate::text::spec_line_height_upx(font)
            &&& g.font_mpx == font
            &&& g.color == col
            &&& g.italic == italic
            &&& g.bold == bold
            &&& g.text@ == text.subrange(line.0 as int, line.0 + line.1)
        },
        _ => false,
    }
}

/// The ellipsis marker of a truncated layout: a glyph run reading `...`
/// in the slot after the last line.
pub open spec fn spec_ellipsis_glyph(
    op: PaintOp,
    pos: (int, int),
    font: int,
    col: Color,
    slot: int,
) -> bool {
    match op {
        PaintOp::Glyphs(g) => {
            &&& g.x == pos.0
            &&& g.y == pos.1 + slot * crate::text::spec_line_height_upx(font)
            &&& g.font_mpx == font
            &&& g.color == col
            &&& g.text@ == "..."@
        },
        _ => false,
    }
}

/// The glyph operations of a non-checkbox item: one text op per wrapped
/// line, each at the line's slot, in the resolved font and color, plus an
/// ellipsis marker when the layout was cut short.
pub open spec fn spec_glyph_ops(
    ops: Seq<PaintOp>,
    base: int,
    pos: (int, int),
    font: int,
    col: Color,
    italic: bool,
    bold: bool,
    text: Seq<char>,
    tl: crate::text::TextLayout,
) -> bool {
    &&& ops.len() == base + tl.lines@.len() + (if tl.truncated {
        1int
    } else {
        0int
    })
    &&& forall|j: int|
        0 <= j < tl.lines@.len() ==> spec_line_glyph(
            ops[base + j],
            pos,
            font,
            col,
            italic,
            bold,
            text,
            #[trigger] tl.lines@[j],
            j,
        )
    &&& tl.truncated ==> spec_ellipsis_glyph(
        ops[base + tl.lines@.len()],
        pos,
        font,
        col,
        tl.lines@.len() as int,
    )
}

/// The glyph operations of a checkbox item: a square outline sized from
/// the font, plus a two-segment check mark when the content reads as
/// checked.
pub open spec fn spec_checkbox_ops(
    ops: Seq<PaintOp>,
    base: int,
    pos: (int, int),
    font: int,
    col: Color,
    checked: bool,
) -> bool {
    let cb = font * 800;
    &&& ops.len() == base + (if checked {
        3int
    } else {
        1int
    })
    &&& ops[base] == PaintOp::StrokeRect(
        StrokeRectOp {
            x: pos.0 as i64,
            y: pos.1 as i64,
            w: cb as i64,
            h: cb as i64,
            stroke_upx: 1_500_000,
            color: col,
        },
    )
    &&& checked ==> ops[base + 1] == PaintOp::Segment(
        SegmentOp {
            x1: (pos.0 + cb / 5) as i64,
            y1: (pos.1 + cb / 2) as i64,
            x2: (pos.0 + cb * 2 / 5) as i64,
            y2: (pos.1 + cb - cb * 3 / 10) as i64,
            stroke_upx: 2_000_000,
            color: col,
        },
    )
    &&& checked ==> ops[base + 2] == PaintOp::Segment(
        SegmentOp {
            x1: (pos.0 + cb * 2 / 5) as i64,
            y1: (pos.1 + cb - cb * 3 / 10) as i64,
            x2: (pos.0 + cb - cb / 5) as i64,
            y2: (pos.1 + cb * 3 / 10) as i64,
            stroke_upx: 2_000_000,
            color: col,
        },
    )
}

/// Everything a frame guarantees about one item's layout: the padded hit
/// rect sits at the transformed, nudged position and wraps the measured
/// footprint; the wrapped layout is structurally sound against the
/// effective text, the resolved font and the policy's width constraint;
/// the highlight comes exactly with a search match; and the paint
/// operations are the item's glyphs in the resolved style.
pub open spec fn spec_item_layout_wf(
    state: DocumentState,
    cfg: RenderConfig,
    vt: ViewTransform,
    item: crate::model::DocumentItem,
    panel_w_upx: int,
    il: ItemLayout,
) -> bool {
    let text = state.spec_effective_text(item);
    let font = crate::text::spec_effective_font_mpx(
        item.font_size as int,
        vt.scale as int,
        crate::style::spec_type_multiplier_pm(item.item_type),
    );
    let pos = spec_item_pos(state, vt, item);
    let eligible = crate::text::spec_wrap_eligible(text, cfg.wrap_threshold as int);
    let maxw = crate::text::spec_layout_max_width(
        eligible,
        item.bbox.width * vt.scale,
        panel_w_upx - pos.0 - RIGHT_MARGIN_UPX,
    );
    let col = crate::style::spec_text_color(item.item_type, il.is_match);
    let base: int = if il.is_match {
        1int
    } else {
        0int
    };
    &&& il.is_match == spec_id_in(state.search_results@, item.id@)
    &&& il.rect.x == pos.0 - cfg.hit_padding_upx
    &&& il.rect.y == pos.1 - cfg.hit_padding_upx
    &&& il.rect.w == il.text_layout.width_upx + 2 * cfg.hit_padding_upx
    &&& il.rect.h == il.text_layout.height_upx + 2 * cfg.hit_padding_upx
    &&& il.text_layout.wf(text, font, maxw)
    &&& il.is_match ==> il.ops@.len() >= 1 && il.ops@[0] == PaintOp::FillRect(
        FillRectOp {
            x: pos.0 as i64,
            y: pos.1 as i64,
            w: il.text_layout.width_upx,
            h: il.text_layout.height_upx,
            color: Color { r: 255, g: 255, b: 0, a: 60 },
        },
    )
    &&& if item.item_type == crate::model::ItemType::Checkbox {
        spec_checkbox_ops(
            il.ops@,
            base,
            pos,
            font,
            col,
            crate::text::spec_checkbox_checked(item.content@),
        )
    } else {
        spec_glyph_ops(il.ops@, base, pos, font, col, item.italic, item.bold, text, il.text_layout)
    }
    &&& -crate::MAX_OFF_UPX <= il.rect.x <= crate::MAX_OFF_UPX
    &&& -crate::MAX_OFF_UPX <= il.rect.y <= crate::MAX_OFF_UPX
    &&& 0 <= il.rect.w <= crate::MAX_OFF_UPX
    &&& 0 <= il.rect.h <= crate::MAX_OFF_UPX
}

/// An identifier occurs in a result list.
pub open spec fn spec_id_in(results: Seq<String>, id: Seq<char>) -> bool {
    exists|i: int| 0 <= i < results.len() && (#[trigger] results[i])@ == id
}

/// Appends one glyph operation per wrapped line, plus the ellipsis marker
/// of a truncated layout, leaving everything already in the list alone.
fn push_glyph_ops(
    ops: &mut Vec<PaintOp>,
    text: &String,
    tl: &crate::text::TextLayout,
    x: i64,
    y: i64,
    font: i64,
    col: Color,
    italic: bool,
    bold: bool,
)
    requires
        tl.lines@.len() <= 10,
        forall|t: int|
            0 <= t < tl.lines@.len() ==> (#[trigger] tl.lines@[t]).0 + tl.lines@[t].1
                <= text@.len(),
        text@.len() <= MAX_TEXT_LEN,
        7_000 <= font <= 29_000,
        -400_000_000_000_000_000 <= x <= 400_000_000_000_000_000,
        -400_000_000_000_000_000 <= y <= 400_000_000_000_000_000,
        old(ops)@.len() <= 1,
    ensures
        forall|t: int| 0 <= t < old(ops)@.len() ==> final(ops)@[t] == old(ops)@[t],
        final(ops)@.len() >= old(ops)@.len(),
        spec_glyph_ops(
            final(ops)@,
            old(ops)@.len() as int,
            (x as int, y as int),
            font as int,
            col,
            italic,
            bold,
            text@,
            *tl,
        ),
{
    let base_len = ops.len();
    let ghost base: int = base_len as int;
    let lineh = font * crate::text::LINE_H_PM;
    let line_count = tl.lines.len();
    let mut j: usize = 0;
    while j < line_count
        invariant
            j <= line_count,
            line_count == tl.lines@.len(),
            line_count <= 10,
            base == base_len as int,
            base <= 1,
            ops@.len() == base + j,
            forall|t: int| 0 <= t < base ==> ops@[t] == old(ops)@[t],
            forall|t: int|
                0 <= t < tl.lines@.len() ==> (#[trigger] tl.lines@[t]).0 + tl.lines@[t].1
                    <= text@.len(),
            text@.len() <= MAX_TEXT_LEN,
            7_000 <= font <= 29_000,
            -400_000_000_000_000_000 <= x <= 400_000_000_000_000_000,
            -400_000_000_000_000_000 <= y <= 400_000_000_000_000_000,
            lineh == font * crate::text::LINE_H_PM,
            forall|t: int|
                0 <= t < j ==> spec_line_glyph(
                    ops@[base + t],
                    (x as int, y as int),
                    font as int,
                    col,
                    italic,
                    bold,
                    text@,
                    #[trigger] tl.lines@[t],
                    t,
                ),
        decreases line_count - j,
    {
        let (st, ln) = tl.lines[j];
        let lt = crate::text::line_text(text.as_str(), st, ln);
        proof {
            assert(0 <= j as int * lineh <= 10 * 35_000_000) by (nonlinear_arith)
                requires
                    0 <= j < 10,
                    0 < lineh <= 35_000_000,
            ;
        }
        let ghost ops0 = ops@;
        ops.push(
            PaintOp::Glyphs(
                GlyphsOp {
                    x,
                    y: y + (j as i64) * lineh,
                    font_mpx: font,
                    color: col,
                    italic,
                    bold,
                    text: lt,
                },
            ),
        );
        j += 1;
        proof {
            assert forall|t: int|
                0 <= t < j implies spec_line_glyph(
                ops@[base + t],
                (x as int, y as int),
                font as int,
                col,
                italic,
                bold,
                text@,
                #[trigger] tl.lines@[t],
                t,
            ) by {
                if t < j - 1 {
                    assert(ops@[base + t] == ops0[base + t]);
                } else {
                    assert(ops@[base + t] == ops@.last());
                }
            }
        }
    }
    if tl.truncated {
        proof {
            assert(0 <= line_count as int * lineh <= 10 * 35_000_000) by (nonlinear_arith)
                requires
                    0 <= line_count <= 10,
                    0 < lineh <= 35_000_000,
            ;
        }
        let ghost ops0 = ops@;
        ops.push(
            PaintOp::Glyphs(
                GlyphsOp {
                    x,
                    y: y + (line_count as i64) * lineh,
                    font_mpx: font,
                    color: col,
                    italic,
                    bold,
                    text: String::from_str("..."),
                },
            ),
        );
        proof {
            assert forall|t: int| 0 <= t < line_count as int implies #[trigger] ops@[base + t]
                == ops0[base + t] by {}
        }
    }
}

/// Lays one item out: resolves its screen position from the transform and
/// its nudge, its effective text, font and colors, wraps the text, and
/// emits its paint operations together with the padded hit rect.
pub fn layout_item(
    state: &DocumentState,
    cfg: &RenderConfig,
    vt: &ViewTransform,
    idx: usize,
    panel_w_upx: i64,
) -> (il: ItemLayout)
    requires
        state.wf(),
        cfg.wf(),
        spec_frame_transform_bounds(*vt),
        idx < state.items@.len(),
        0 <= panel_w_upx <= 1_000_000_000_000,
    ensures
        spec_item_layout_wf(*state, *cfg, *vt, state.items@[idx as int], panel_w_upx as int, il),
{
    let item = &state.items[idx];
    proof {
        assert(state.items@[idx as int].wf());
        crate::model::lemma_assoc_get_is_entry(state.item_offsets@, item.id@);
        crate::model::lemma_assoc_get_is_entry(state.item_text_overrides@, item.id@);
    }
    let d = state.item_offset_of(&item.id);
    proof {
        assert(-MAX_PAN_UPX <= d.0 <= MAX_PAN_UPX && -MAX_PAN_UPX <= d.1 <= MAX_PAN_UPX);
        crate::transform::lemma_coord_scale_bound(item.bbox.left as int, vt.scale as int);
        crate::transform::lemma_coord_scale_bound(item.bbox.top as int, vt.scale as int);
        crate::transform::lemma_coord_scale_bound(
            vt.page_h - item.bbox.top,
            vt.scale as int,
        );
    }
    let sx = vt.to_screen_x(item.bbox.left);
    let sy = vt.to_screen_y(item.bbox.top);
    let x = sx + d.0;
    let y = sy + d.1;
    let is_match = id_in_results(&state.search_results, &item.id);
    let text = state.effective_text(item);
    let mult = crate::style::type_multiplier_pm(item.item_type);
    let font = crate::text::effective_font_mpx(item.font_size, vt.scale, mult);
    let eligible = crate::text::wrap_eligible(text.as_str(), cfg.wrap_threshold);
    proof {
        crate::transform::lemma_coord_scale_bound(item.bbox.width as int, vt.scale as int);
    }
    let bbw = item.bbox.width * vt.scale;
    let avail = panel_w_upx - x - RIGHT_MARGIN_UPX;
    let maxw = crate::text::layout_max_width(eligible, bbw, avail);
    let tl = crate::text::layout_text(text.as_str(), font, maxw);
    let col = crate::style::text_color(item.item_type, is_match);
    let lineh = font * crate::text::LINE_H_PM;
    let mut ops: Vec<PaintOp> = Vec::new();
    if is_match {
        ops.push(
            PaintOp::FillRect(
                FillRectOp {
                    x,
                    y,
                    w: tl.width_upx,
                    h: tl.height_upx,
                    color: crate::style::highlight_fill(),
                },
            ),
        );
    }
    let ghost base: int = if is_match {
        1int
    } else {
        0int
    };
    let is_checkbox = match item.item_type {
        crate::model::ItemType::Checkbox => true,
        _ => false,
    };
    if is_checkbox {
        let cb = font * 800;
        ops.push(
            PaintOp::StrokeRect(
                StrokeRectOp { x, y, w: cb, h: cb, stroke_upx: 1_500_000, color: col },
            ),
        );
        if crate::text::checkbox_checked(item.content.as_str()) {
            ops.push(
                PaintOp::Segment(
                    SegmentOp {
                        x1: x + cb / 5,
                        y1: y + cb / 2,
                        x2: x + cb * 2 / 5,
                        y2: y + cb - cb * 3 / 10,
                        stroke_upx: 2_000_000,
                        color: col,
                    },
                ),
            );
            ops.push(
                PaintOp::Segment(
                    SegmentOp {
                        x1: x + cb * 2 / 5,
                        y1: y + cb - cb * 3 / 10,
                        x2: x + cb - cb / 5,
                        y2: y + cb * 3 / 10,
                        stroke_upx: 2_000_000,
                        color: col,
                    },
                ),
            );
        }
    } else {
        push_glyph_ops(&mut ops, text, &tl, x, y, font, col, item.italic, item.bold);
    }
    let rect = ScreenRect {
        x: x - cfg.hit_padding_upx,
        y: y - cfg.hit_padding_upx,
        w: tl.width_upx + 2 * cfg.hit_padding_upx,
        h: tl.height_upx + 2 * cfg.hit_padding_upx,
    };
    ItemLayout { rect, text_layout: tl, is_match, ops }
}

/// Decides membership of an identifier in the search results.
pub fn id_in_results(results: &Vec<String>, id: &String) -> (r: bool)
    ensures
        r == spec_id_in(results@, id@),
{
    let n = results.len();
    let mut i: usize = 0;
    while i < n
        invariant
            i <= n,
            n == results@.len(),
            forall|t: int| 0 <= t < i ==> (#[trigger] results@[t])@ != id@,
        decreases n - i,
    {
        if results[i] == *id {
            return true;
        }
        i += 1;
    }
    false
}

/// One frame's complete paint plan: chrome painted under the items, every
/// item's layout in paint order, and the transient toast painted on top.
#[derive(Debug)]
pub struct Frame {
    /// The transform this frame resolved and used throughout.
    pub vt: ViewTransform,
    /// Background, status line, hover hint and column guides.
    pub pre_ops: Vec<PaintOp>,
    /// Per-item layouts, index-aligned with the state's items.
    pub layouts: Vec<ItemLayout>,
    /// The copied-text toast, when one is on display.
    pub post_ops: Vec<PaintOp>,
}

/// The background fill of the canvas.
pub open spec fn spec_background_op(panel_w_upx: int, panel_h_upx: int) -> PaintOp {
    PaintOp::FillRect(
        FillRectOp {
            x: 0,
            y: 0,
            w: panel_w_upx as i64,
            h: panel_h_upx as i64,
            color: Color { r: 250, g: 250, b: 250, a: 255 },
        },
    )
}

/// One column separator guide: a vertical line at the transformed
/// boundary, inset from the canvas edges.
pub open spec fn spec_guide_op(
    vt: ViewTransform,
    boundary_mu: int,
    panel_h_upx: int,
) -> PaintOp {
    PaintOp::Segment(
        SegmentOp {
            x1: vt.spec_to_screen_x(boundary_mu) as i64,
            y1: 50_000_000,
            x2: vt.spec_to_screen_x(boundary_mu) as i64,
            y2: (panel_h_upx - 20_000_000) as i64,
            stroke_upx: 1_000_000,
            color: Color { r: 59, g: 130, b: 246, a: 60 },
        },
    )
}

/// Renders one frame: resolves the transform, paints the chrome, lays
/// every item out in paint order — the same rectangles serve painting and
/// hit-testing — and shows the toast while its display window lasts.
pub fn render_frame(
    state: &DocumentState,
    cfg: &RenderConfig,
    panel_w_mpx: i64,
    panel_h_mpx: i64,
    hovered: bool,
    toast: Option<&crate::interact::Toast>,
    now_ms: u64,
) -> (r: Frame)
    requires
        state.wf(),
        cfg.wf(),
        0 <= panel_w_mpx <= MAX_PANEL_MPX,
        0 <= panel_h_mpx <= MAX_PANEL_MPX,
        match toast {
            Some(t) => t.shown_at_ms <= now_ms,
            None => true,
        },
    ensures
        r.vt == spec_compute_transform(*state, *cfg, panel_w_mpx as int, panel_h_mpx as int),
        spec_frame_transform_bounds(r.vt),
        r.layouts@.len() == state.items@.len(),
        forall|i: int|
            0 <= i < state.items@.len() ==> spec_item_layout_wf(
                *state,
                *cfg,
                r.vt,
                state.items@[i],
                panel_w_mpx as int * 1000,
                #[trigger] r.layouts@[i],
            ),
        r.pre_ops@.len() >= 2,
        r.pre_ops@[0] == spec_background_op(
            panel_w_mpx as int * 1000,
            panel_h_mpx as int * 1000,
        ),
        match r.pre_ops@[1] {
            PaintOp::Glyphs(g) => g.text@ == spec_status_text(
                state.items@.len() as int,
                state.zoom as int,
                state.column_count as int,
            ),
            _ => false,
        },
        state.column_count <= 1 ==> r.pre_ops@.len() == (if hovered {
            3int
        } else {
            2int
        }),
        state.column_count > 1 ==> r.pre_ops@.len() == (if hovered {
            3int
        } else {
            2int
        }) + state.column_boundaries@.len(),
        state.column_count > 1 ==> forall|k: int|
            0 <= k < state.column_boundaries@.len() ==> r.pre_ops@[r.pre_ops@.len()
                - state.column_boundaries@.len() + k] == spec_guide_op(
                r.vt,
                (#[trigger] state.column_boundaries@[k]) as int,
                panel_h_mpx as int * 1000,
            ),
        match toast {
            Some(t) => {
                &&& crate::interact::spec_toast_visible(t.shown_at_ms as int, now_ms as int)
                    ==> r.post_ops@.len() == 1 && match r.post_ops@[0] {
                    PaintOp::Glyphs(g) => g.text@ == "\u{1f4cb} Copied: "@ + t.text@,
                    _ => false,
                }
                &&& !crate::interact::spec_toast_visible(t.shown_at_ms as int, now_ms as int)
                    ==> r.post_ops@.len() == 0
            },
            None => r.post_ops@.len() == 0,
        },
{
    let vt = compute_transform(state, cfg, panel_w_mpx, panel_h_mpx);
    let panel_w_upx = panel_w_mpx * 1000;
    let panel_h_upx = panel_h_mpx * 1000;
    let mut pre_ops: Vec<PaintOp> = Vec::new();
    pre_ops.push(
        PaintOp::FillRect(
            FillRectOp {
                x: 0,
                y: 0,
                w: panel_w_upx,
                h: panel_h_upx,
                color: Color { r: 250, g: 250, b: 250, a: 255 },
            },
        ),
    );
    let status = status_text(state.items.len(), state.zoom, state.column_count);
    let status_color = if hovered {
        Color { r: 80, g: 80, b: 80, a: 255 }
    } else {
        Color { r: 100, g: 100, b: 100, a: 255 }
    };
    pre_ops.push(
        PaintOp::Glyphs(
            GlyphsOp {
                x: 10_000_000,
                y: 10_000_000,
                font_mpx: 12_000,
                color: status_color,
                italic: false,
                bold: false,
                text: status,
            },
        ),
    );
    if hovered {
        pre_ops.push(
            PaintOp::Glyphs(
                GlyphsOp {
                    x: 10_000_000,
                    y: 25_000_000,
                    font_mpx: 10_000,
                    color: Color { r: 120, g: 120, b: 120, a: 255 },
                    italic: false,
                    bold: false,
                    text: String::from_str("Click to copy \u{2022} Cmd+scroll to zoom"),
                },
            ),
        );
    }
    let ghost hdr = pre_ops@.len() as int;
    if state.column_count > 1 {
        let gn = state.column_boundaries.len();
        let mut k: usize = 0;
        while k < gn
            invariant
                k <= gn,
                gn == state.column_boundaries@.len(),
                spec_frame_transform_bounds(vt),
                vt == spec_compute_transform(
                    *state,
                    *cfg,
                    panel_w_mpx as int,
                    panel_h_mpx as int,
                ),
                state.wf(),
                panel_h_upx == panel_h_mpx * 1000,
                0 <= panel_h_upx <= MAX_PANEL_MPX * 1000,
                pre_ops@.len() == hdr + k,
                hdr == (if hovered {
                    3int
                } else {
                    2int
                }),
                pre_ops@[0] == spec_background_op(
                    panel_w_mpx as int * 1000,
                    panel_h_mpx as int * 1000,
                ),
                match pre_ops@[1] {
                    PaintOp::Glyphs(g) => g.text@ == spec_status_text(
                        state.items@.len() as int,
                        state.zoom as int,
                        state.column_count as int,
                    ),
                    _ => false,
                },
                forall|t: int|
                    0 <= t < k ==> pre_ops@[hdr + t] == spec_guide_op(
                        vt,
                        (#[trigger] state.column_boundaries@[t]) as int,
                        panel_h_mpx as int * 1000,
                    ),
            decreases gn - k,
        {
            let b = state.column_boundaries[k];
            let gx = vt.to_screen_x(b);
            let ghost pre0 = pre_ops@;
            pre_ops.push(
                PaintOp::Segment(
                    SegmentOp {
                        x1: gx,
                        y1: 50_000_000,
                        x2: gx,
                        y2: panel_h_upx - 20_000_000,
                        stroke_upx: 1_000_000,
                        color: crate::style::column_guide_color(),
                    },
                ),
            );
            k += 1;
            proof {
                assert forall|t: int|
                    0 <= t < k implies pre_ops@[hdr + t] == spec_guide_op(
                    vt,
                    (#[trigger] state.column_boundaries@[t]) as int,
                    panel_h_mpx as int * 1000,
                ) by {
                    if t < k - 1 {
                        assert(pre_ops@[hdr + t] == pre0[hdr + t]);
                    } else {
                        assert(pre_ops@[hdr + t] == pre_ops@.last());
                    }
                }
            }
        }
    }
    let n = state.items.len();
    let mut layouts: Vec<ItemLayout> = Vec::new();
    let mut i: usize = 0;
    while i < n
        invariant
            i <= n,
            n == state.items@.len(),
            state.wf(),
            cfg.wf(),
            spec_frame_transform_bounds(vt),
            vt == spec_compute_transform(*state, *cfg, panel_w_mpx as int, panel_h_mpx as int),
            panel_w_upx == panel_w_mpx * 1000,
            0 <= panel_w_upx <= MAX_PANEL_MPX * 1000,
            layouts@.len() == i,
            forall|t: int|
                0 <= t < i ==> spec_item_layout_wf(
                    *state,
                    *cfg,
                    vt,
                    state.items@[t],
                    panel_w_mpx as int * 1000,
                    #[trigger] layouts@[t],
                ),
        decreases n - i,
    {
        let il = layout_item(state, cfg, &vt, i, panel_w_upx);
        layouts.push(il);
        i += 1;
    }
    let mut post_ops: Vec<PaintOp> = Vec::new();
    match toast {
        Some(t) => {
            if crate::interact::toast_visible(t, now_ms) {
                let mut msg = String::from_str("\u{1f4cb} Copied: ");
                msg.append(t.text.as_str());
                post_ops.push(
                    PaintOp::Glyphs(
                        GlyphsOp {
                            x: panel_w_upx / 2,
                            y: panel_h_upx - 30_000_000,
                            font_mpx: 12_000,
                            color: crate::style::toast_color(),
                            italic: false,
                            bold: false,
                            text: msg,
                        },
                    ),
                );
            }
        },
        None => {},
    }
    Frame { vt, pre_ops, layouts, post_ops }
}

/// The hit rectangles of a frame, index-aligned with the items, for the
/// interaction controller.
pub fn frame_hit_rects(frame: &Frame) -> (r: Vec<ScreenRect>)
    ensures
        r@.len() == frame.layouts@.len(),
        forall|i: int| 0 <= i < r@.len() ==> r@[i] == (#[trigger] frame.layouts@[i]).rect,
{
    let n = frame.layouts.len();
    let mut r: Vec<ScreenRect> = Vec::new();
    let mut i: usize = 0;
    while i < n
        invariant
            i <= n,
            n == frame.layouts@.len(),
            r@.len() == i,
            forall|t: int| 0 <= t < i ==> r@[t] == (#[trigger] frame.layouts@[t]).rect,
        decreases n - i,
    {
        r.push(frame.layouts[i].rect);
        i += 1;
    }
    r
}

/// The one canonical canvas: a render state under a policy, with the
/// transient copied-text toast.  Painting, hit-testing and interaction
/// all go through the one `Frame` it renders.
#[derive(Debug)]
pub struct DocumentCanvas {
    pub document_state: DocumentState,
    pub config: RenderConfig,
    pub toast: Option<crate::interact::Toast>,
}

impl DocumentCanvas {
    /// Wraps a render state under the canonical policy, with no toast.
    pub fn new(document_state: DocumentState) -> (r: Self)
        ensures
            r.document_state == document_state,
            r.config == (RenderConfig {
                origin: Origin::TopLeft,
                fit: FitStrategy::UniformFit,
                wrap_threshold: 50usize,
                hit_padding_upx: 2_000_000i64,
            }),
            (r.toast is None),
    {
        DocumentCanvas { document_state, config: RenderConfig::default(), toast: None }
    }

    /// Overrides the state's zoom, clamped.
    pub fn with_zoom(self, zoom_pm: u32) -> (r: Self)
        ensures
            r.document_state == (DocumentState {
                zoom: crate::transform::spec_clamp_zoom(zoom_pm as int) as u32,
                ..self.document_state
            }),
            r.config == self.config,
            r.toast == self.toast,
            self.document_state.wf() ==> r.document_state.wf(),
    {
        let mut c = self;
        c.document_state.set_zoom(zoom_pm);
        c
    }

    /// Renders one frame of the canvas into a paint plan.
    pub fn ui(&self, panel_w_mpx: i64, panel_h_mpx: i64, hovered: bool, now_ms: u64) -> (r:
        Frame)
        requires
            self.document_state.wf(),
            self.config.wf(),
            0 <= panel_w_mpx <= MAX_PANEL_MPX,
            0 <= panel_h_mpx <= MAX_PANEL_MPX,
            match self.toast {
                Some(t) => t.shown_at_ms <= now_ms,
                None => true,
            },
        ensures
            r.vt == spec_compute_transform(
                self.document_state,
                self.config,
                panel_w_mpx as int,
                panel_h_mpx as int,
            ),
            spec_frame_transform_bounds(r.vt),
            r.layouts@.len() == self.document_state.items@.len(),
            forall|i: int|
                0 <= i < self.document_state.items@.len() ==> spec_item_layout_wf(
                    self.document_state,
                    self.config,
                    r.vt,
                    self.document_state.items@[i],
                    panel_w_mpx as int * 1000,
                    #[trigger] r.layouts@[i],
                ),
            r.pre_ops@.len() >= 2,
            r.pre_ops@[0] == spec_background_op(
                panel_w_mpx as int * 1000,
                panel_h_mpx as int * 1000,
            ),
            match r.pre_ops@[1] {
                PaintOp::Glyphs(g) => g.text@ == spec_status_text(
                    self.document_state.items@.len() as int,
                    self.document_state.zoom as int,
                    self.document_state.column_count as int,
                ),
                _ => false,
            },
            self.document_state.column_count <= 1 ==> r.pre_ops@.len() == (if hovered {
                3int
            } else {
                2int
            }),
            self.document_state.column_count > 1 ==> r.pre_ops@.len() == (if hovered {
                3int
            } else {
                2int
            }) + self.document_state.column_boundaries@.len(),
            self.document_state.column_count > 1 ==> forall|k: int|
                0 <= k < self.document_state.column_boundaries@.len() ==> r.pre_ops@[
                    r.pre_ops@.len() - self.document_state.column_boundaries@.len() + k]
                    == spec_guide_op(
                    r.vt,
                    (#[trigger] self.document_state.column_boundaries@[k]) as int,
                    panel_h_mpx as int * 1000,
                ),
            match self.toast {
                Some(t) => {
                    &&& crate::interact::spec_toast_visible(t.shown_at_ms as int, now_ms as int)
                        ==> r.post_ops@.len() == 1 && match r.post_ops@[0] {
                        PaintOp::Glyphs(g) => g.text@ == "\u{1f4cb} Copied: "@ + t.text@,
                        _ => false,
                    }
                    &&& !crate::interact::spec_toast_visible(
                        t.shown_at_ms as int,
                        now_ms as int,
                    ) ==> r.post_ops@.len() == 0
                },
                None => r.post_ops@.len() == 0,
            },
    {
        render_frame(
            &self.document_state,
            &self.config,
            panel_w_mpx,
            panel_h_mpx,
            hovered,
            self.toast.as_ref(),
            now_ms,
        )
    }
}

/// Nudging one item moves exactly that item.  Between two frames whose
/// states agree on everything the layout reads except one item's manual
/// nudge, every other item keeps an identical wrapped layout, match flag
/// and padded hit rect; the nudged item's rect moves by exactly the
/// delta, and keeps its size whenever its text is not wrap-eligible (only
/// wrap-eligible text has a width constraint that depends on the
/// position).
pub proof fn lemma_nudge_moves_only_target(
    s1: DocumentState,
    s2: DocumentState,
    cfg: RenderConfig,
    vt: ViewTransform,
    item: crate::model::DocumentItem,
    panel_w_upx: int,
    il1: ItemLayout,
    il2: ItemLayout,
    target: Seq<char>,
    dx: int,
    dy: int,
)
    requires
        spec_item_layout_wf(s1, cfg, vt, item, panel_w_upx, il1),
        spec_item_layout_wf(s2, cfg, vt, item, panel_w_upx, il2),
        s2.item_text_overrides == s1.item_text_overrides,
        s2.search_results == s1.search_results,
        s2.spec_item_offset(target).0 == s1.spec_item_offset(target).0 + dx,
        s2.spec_item_offset(target).1 == s1.spec_item_offset(target).1 + dy,
        forall|k: Seq<char>| k != target ==> s2.spec_item_offset(k) == s1.spec_item_offset(k),
    ensures
        item.id@ != target ==> {
            &&& il2.rect == il1.rect
            &&& il2.text_layout.lines@ == il1.text_layout.lines@
            &&& il2.text_layout.truncated == il1.text_layout.truncated
            &&& il2.is_match == il1.is_match
        },
        item.id@ == target ==> {
            &&& il2.rect.x == il1.rect.x + dx
            &&& il2.rect.y == il1.rect.y + dy
            &&& !crate::text::spec_wrap_eligible(
                s1.spec_effective_text(item),
                cfg.wrap_threshold as int,
            ) ==> il2.rect.w == il1.rect.w && il2.rect.h == il1.rect.h
        },
{
    let text = s1.spec_effective_text(item);
    assert(s2.spec_effective_text(item) == text);
    let font = crate::text::spec_effective_font_mpx(
        item.font_size as int,
        vt.scale as int,
        crate::style::spec_type_multiplier_pm(item.item_type),
    );
    let eligible = crate::text::spec_wrap_eligible(text, cfg.wrap_threshold as int);
    let bbw = item.bbox.width * vt.scale;
    let pos1 = spec_item_pos(s1, vt, item);
    let pos2 = spec_item_pos(s2, vt, item);
    let maxw1 = crate::text::spec_layout_max_width(
        eligible,
        bbw,
        panel_w_upx - pos1.0 - RIGHT_MARGIN_UPX,
    );
    let maxw2 = crate::text::spec_layout_max_width(
        eligible,
        bbw,
        panel_w_upx - pos2.0 - RIGHT_MARGIN_UPX,
    );
    if item.id@ != target {
        assert(pos2 == pos1);
        assert(maxw2 == maxw1);
        crate::text::lemma_layout_determined(
            il1.text_layout,
            il2.text_layout,
            text,
            font,
            maxw1,
        );
    } else {
        assert(pos2.0 == pos1.0 + dx && pos2.1 == pos1.1 + dy);
        if !eligible {
            assert(maxw2 == maxw1);
            crate::text::lemma_layout_determined(
                il1.text_layout,
                il2.text_layout,
                text,
                font,
                maxw1,
            );
        }
    }
}

/// Moving one item's manual nudge moves exactly that item's screen
/// position by the delta; every other item's position is untouched.
pub proof fn lemma_offset_shifts_only_target(
    s1: DocumentState,
    s2: DocumentState,
    vt: ViewTransform,
    item: crate::model::DocumentItem,
    id: Seq<char>,
    dx: int,
    dy: int,
)
    requires
        s2.spec_item_offset(id).0 == s1.spec_item_offset(id).0 + dx,
        s2.spec_item_offset(id).1 == s1.spec_item_offset(id).1 + dy,
        forall|k: Seq<char>| k != id ==> s2.spec_item_offset(k) == s1.spec_item_offset(k),
    ensures
        item.id@ == id ==> spec_item_pos(s2, vt, item) == (
            spec_item_pos(s1, vt, item).0 + dx,
            spec_item_pos(s1, vt, item).1 + dy,
        ),
        item.id@ != id ==> spec_item_pos(s2, vt, item) == spec_item_pos(s1, vt, item),
{
}

} // verus!
