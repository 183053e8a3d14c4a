//! Interaction controller: hit-testing against the painted rectangles,
//! click-to-copy with its transient toast, and the routing of wheel and
//! drag input into zoom or pan.
//!
//! All outcomes are observable through returned values and explicit state
//! mutations; hit-testing walks the same rectangles the renderer painted,
//! in paint order, and the topmost (last-painted) hit wins.

use vstd::prelude::*;

use vstd::string::StrSliceExecFns;
use vstd::string::StringExecFns;

use crate::model::DocumentItem;
use crate::model::DocumentState;
use crate::model::spec_clamp_pan;
use crate::model::clamp_pan;
use crate::transform::round_div;
use crate::transform::round_div_i64;
use crate::transform::spec_clamp_zoom;
use crate::transform::spec_wheel_factor;
use crate::transform::wheel_zoom;
use crate::MAX_OFF_UPX;

verus! {

/// How long the copied-text toast stays on screen, milliseconds.
pub const TOAST_DURATION_MS: u64 = 2000;

/// How many characters of the copied text the toast shows before an
/// ellipsis.
pub const TOAST_PREVIEW_CHARS: usize = 50;

/// A screen-space rectangle in micro-pixels: top-left corner plus a
/// non-negative extent.
#[derive(Clone, Copy, PartialEq, Eq, Structural, Debug)]
pub struct ScreenRect {
    pub x: i64,
    pub y: i64,
    pub w: i64,
    pub h: i64,
}

/// A point lies in a rectangle; edges count as inside.
pub open spec fn spec_rect_contains(r: ScreenRect, px: int, py: int) -> bool {
    &&& r.x <= px <= r.x + r.w
    &&& r.y <= py <= r.y + r.h
}

/// Decides containment.
pub fn rect_contains(r: &ScreenRect, px: i64, py: i64) -> (b: bool)
    requires
        -MAX_OFF_UPX <= r.x <= MAX_OFF_UPX,
        0 <= r.w <= MAX_OFF_UPX,
        -MAX_OFF_UPX <= r.y <= MAX_OFF_UPX,
        0 <= r.h <= MAX_OFF_UPX,
    ensures
        b == spec_rect_contains(*r, px as int, py as int),
{
    r.x <= px && px <= r.x + r.w && r.y <= py && py <= r.y + r.h
}

/// The topmost rectangle under a point: the last one in paint order that
/// contains it.
pub open spec fn spec_hit_test(rects: Seq<ScreenRect>, px: int, py: int) -> Option<int>
    decreases rects.len(),
{
    if rects.len() == 0 {
        None
    } else if spec_rect_contains(rects.last(), px, py) {
        Some(rects.len() - 1)
    } else {
        spec_hit_test(rects.drop_last(), px, py)
    }
}

/// Basic shape of a hit-test result: a hit lies in range, contains the
/// point, and nothing later does; a miss means nothing contains it.
pub proof fn lemma_hit_test_shape(rects: Seq<ScreenRect>, px: int, py: int)
    ensures
        match spec_hit_test(rects, px, py) {
            Some(i) => {
                &&& 0 <= i < rects.len()
                &&& spec_rect_contains(rects[i], px, py)
                &&& forall|j: int|
                    i < j < rects.len() ==> !spec_rect_contains(#[trigger] rects[j], px, py)
            },
            None => forall|j: int|
                0 <= j < rects.len() ==> !spec_rect_contains(#[trigger] rects[j], px, py),
        },
    decreases rects.len(),
{
    if rects.len() > 0 {
        lemma_hit_test_shape(rects.drop_last(), px, py);
        assert forall|j: int|
            0 <= j < rects.len() - 1 implies rects.drop_last()[j] == rects[j] by {}
    }
}

/// Hit-testing follows paint order: when an earlier item A and a later
/// item B both contain the point, the hit resolves at or above B, never to
/// A — the topmost painted rectangle wins.
pub proof fn lemma_hit_test_prefers_topmost(
    rects: Seq<ScreenRect>,
    a: int,
    b: int,
    px: int,
    py: int,
)
    requires
        0 <= a < b < rects.len(),
        spec_rect_contains(rects[a], px, py),
        spec_rect_contains(rects[b], px, py),
    ensures
        spec_hit_test(rects, px, py) is Some,
        spec_hit_test(rects, px, py)->Some_0 >= b,
        spec_hit_test(rects, px, py)->Some_0 != a,
{
    lemma_hit_test_shape(rects, px, py);
}

/// Finds the topmost rectangle under a point, scanning in reverse paint
/// order.
pub fn hit_test(rects: &Vec<ScreenRect>, px: i64, py: i64) -> (r: Option<usize>)
    requires
        forall|i: int|
            0 <= i < rects@.len() ==> {
                &&& -MAX_OFF_UPX <= (#[trigger] rects@[i]).x <= MAX_OFF_UPX
                &&& 0 <= rects@[i].w <= MAX_OFF_UPX
                &&& -MAX_OFF_UPX <= rects@[i].y <= MAX_OFF_UPX
                &&& 0 <= rects@[i].h <= MAX_OFF_UPX
            },
    ensures
        match r {
            Some(i) => spec_hit_test(rects@, px as int, py as int) == Some(i as int),
            None => spec_hit_test(rects@, px as int, py as int) is None,
        },
{
    let mut i: usize = rects.len();
    proof {
        assert(rects@.take(rects@.len() as int) =~= rects@);
    }
    while i > 0
        invariant
            i <= rects@.len(),
            forall|t: int|
                0 <= t < rects@.len() ==> {
                    &&& -MAX_OFF_UPX <= (#[trigger] rects@[t]).x <= MAX_OFF_UPX
                    &&& 0 <= rects@[t].w <= MAX_OFF_UPX
                    &&& -MAX_OFF_UPX <= rects@[t].y <= MAX_OFF_UPX
                    &&& 0 <= rects@[t].h <= MAX_OFF_UPX
                },
            spec_hit_test(rects@, px as int, py as int) == spec_hit_test(
                rects@.take(i as int),
                px as int,
                py as int,
            ),
        decreases i,
    {
        i -= 1;
        let hit = rect_contains(&rects[i], px, py);
        proof {
            assert(rects@.take(i + 1).last() == rects@[i as int]);
            assert(rects@.take(i + 1).drop_last() =~= rects@.take(i as int));
        }
        if hit {
            return Some(i);
        }
    }
    proof {
        assert(rects@.take(0) =~= Seq::<ScreenRect>::empty());
    }
    None
}

/// The transient confirmation shown after a copy.
#[derive(Debug)]
pub struct Toast {
    /// The preview of what was copied.
    pub text: String,
    /// When the copy happened, in the application's millisecond clock.
    pub shown_at_ms: u64,
}

/// The toast shows from the moment of the copy until its display window
/// has fully elapsed.
pub open spec fn spec_toast_visible(shown_at_ms: int, now_ms: int) -> bool {
    now_ms - shown_at_ms < TOAST_DURATION_MS
}

/// Decides whether a toast is still within its display window.
pub fn toast_visible(t: &Toast, now_ms: u64) -> (b: bool)
    requires
        t.shown_at_ms <= now_ms,
    ensures
        b == spec_toast_visible(t.shown_at_ms as int, now_ms as int),
{
    now_ms - t.shown_at_ms < TOAST_DURATION_MS
}

/// The toast preview of a copied text: the text itself, or its first
/// characters with a trailing ellipsis when it is long.
pub open spec fn spec_toast_preview(text: Seq<char>) -> Seq<char> {
    if text.len() > TOAST_PREVIEW_CHARS {
        text.subrange(0, TOAST_PREVIEW_CHARS as int) + "..."@
    } else {
        text
    }
}

/// Builds the toast preview of a copied text.
pub fn toast_preview(text: &String) -> (r: String)
    ensures
        r@ == spec_toast_preview(text@),
{
    if text.as_str().unicode_len() > TOAST_PREVIEW_CHARS {
        let mut s = crate::text::line_text(text.as_str(), 0, TOAST_PREVIEW_CHARS);
        s.append("...");
        s
    } else {
        text.clone()
    }
}

/// Resolves a click against the painted rectangles: the topmost item under
/// the pointer yields its effective text (the override when set, else the
/// content) for the clipboard, together with a fresh toast; a miss yields
/// nothing.
pub fn handle_click(
    state: &DocumentState,
    rects: &Vec<ScreenRect>,
    px: i64,
    py: i64,
    now_ms: u64,
) -> (r: Option<(usize, String, Toast)>)
    requires
        rects@.len() == state.items@.len(),
        forall|i: int|
            0 <= i < rects@.len() ==> {
                &&& -MAX_OFF_UPX <= (#[trigger] rects@[i]).x <= MAX_OFF_UPX
                &&& 0 <= rects@[i].w <= MAX_OFF_UPX
                &&& -MAX_OFF_UPX <= rects@[i].y <= MAX_OFF_UPX
                &&& 0 <= rects@[i].h <= MAX_OFF_UPX
            },
    ensures
        match r {
            Some((i, text, toast)) => {
                &&& spec_hit_test(rects@, px as int, py as int) == Some(i as int)
                &&& i < state.items@.len()
                &&& text@ == state.spec_effective_text(state.items@[i as int])
                &&& toast.text@ == spec_toast_preview(text@)
                &&& toast.shown_at_ms == now_ms
            },
            None => spec_hit_test(rects@, px as int, py as int) is None,
        },
{
    match hit_test(rects, px, py) {
        Some(i) => {
            proof {
                lemma_hit_test_shape(rects@, px as int, py as int);
            }
            let text = state.effective_text(&state.items[i]).clone();
            let preview = toast_preview(&text);
            Some((i, text, Toast { text: preview, shown_at_ms: now_ms }))
        },
        None => None,
    }
}

/// Routes wheel input: with the modifier held it zooms about the current
/// value multiplicatively and consumes the scroll; without it the same
/// input pans, component-wise and clamped.
pub fn apply_wheel(state: &mut DocumentState, modifier: bool, dx_upx: i64, dy_upx: i64)
    requires
        old(state).zoom <= crate::ZOOM_MAX_PM,
        -MAX_OFF_UPX <= old(state).offset.0 <= MAX_OFF_UPX,
        -MAX_OFF_UPX <= old(state).offset.1 <= MAX_OFF_UPX,
        -1_000_000_000_000 <= dx_upx <= 1_000_000_000_000,
        -1_000_000_000_000 <= dy_upx <= 1_000_000_000_000,
    ensures
        modifier ==> {
            &&& final(state).zoom == spec_clamp_zoom(
                old(state).zoom * spec_wheel_factor(round_div(dy_upx as int, 1_000_000)) / 1000,
            )
            &&& final(state).offset == old(state).offset
        },
        !modifier ==> {
            &&& final(state).zoom == old(state).zoom
            &&& final(state).offset.0 == spec_clamp_pan(old(state).offset.0 + dx_upx)
            &&& final(state).offset.1 == spec_clamp_pan(old(state).offset.1 + dy_upx)
        },
        final(state).items == old(state).items,
        final(state).item_offsets == old(state).item_offsets,
        final(state).item_text_overrides == old(state).item_text_overrides,
{
    if modifier {
        let delta_pm = round_div_i64(dy_upx, 1_000_000);
        state.zoom = wheel_zoom(state.zoom, delta_pm);
    } else {
        state.offset = (
            clamp_pan(state.offset.0 + dx_upx),
            clamp_pan(state.offset.1 + dy_upx),
        );
    }
}

/// Accumulates a drag of the whole canvas into the pan offset.
pub fn apply_pan_drag(state: &mut DocumentState, dx_upx: i64, dy_upx: i64)
    requires
        -MAX_OFF_UPX <= old(state).offset.0 <= MAX_OFF_UPX,
        -MAX_OFF_UPX <= old(state).offset.1 <= MAX_OFF_UPX,
        -1_000_000_000_000 <= dx_upx <= 1_000_000_000_000,
        -1_000_000_000_000 <= dy_upx <= 1_000_000_000_000,
    ensures
        final(state).offset.0 == spec_clamp_pan(old(state).offset.0 + dx_upx),
        final(state).offset.1 == spec_clamp_pan(old(state).offset.1 + dy_upx),
        final(state).zoom == old(state).zoom,
        final(state).items == old(state).items,
        final(state).item_offsets == old(state).item_offsets,
        final(state).item_text_overrides == old(state).item_text_overrides,
{
    state.offset = (clamp_pan(state.offset.0 + dx_upx), clamp_pan(state.offset.1 + dy_upx));
}

/// Accumulates a drag over one item, in edit mode, into that item's manual
/// nudge; no other item moves.
pub fn apply_item_drag(state: &mut DocumentState, id: &String, dx_upx: i64, dy_upx: i64)
    requires
        old(state).item_offsets@.len() < usize::MAX,
        -1_000_000_000_000 <= dx_upx <= 1_000_000_000_000,
        -1_000_000_000_000 <= dy_upx <= 1_000_000_000_000,
        forall|i: int|
            0 <= i < old(state).item_offsets@.len() ==> {
                &&& -crate::MAX_PAN_UPX <= (#[trigger] old(state).item_offsets@[i]).1.0
                    <= crate::MAX_PAN_UPX
                &&& -crate::MAX_PAN_UPX <= old(state).item_offsets@[i].1.1 <= crate::MAX_PAN_UPX
            },
    ensures
        final(state).spec_item_offset(id@) == (
            spec_clamp_pan(old(state).spec_item_offset(id@).0 + dx_upx),
            spec_clamp_pan(old(state).spec_item_offset(id@).1 + dy_upx),
        ),
        forall|k: Seq<char>|
            k != id@ ==> final(state).spec_item_offset(k) == old(state).spec_item_offset(k),
        final(state).items == old(state).items,
        final(state).item_text_overrides == old(state).item_text_overrides,
        assoc_keys_unique_offsets(*old(state)) ==> assoc_keys_unique_offsets(*final(state)),
{
    proof {
        crate::model::lemma_assoc_get_is_entry(state.item_offsets@, id@);
    }
    let cur = state.item_offset_of(id);
    state.set_item_offset(id, clamp_pan(cur.0 + dx_upx), clamp_pan(cur.1 + dy_upx));
}

/// The offset map of a state is keyed uniquely.
pub open spec fn assoc_keys_unique_offsets(state: DocumentState) -> bool {
    crate::model::assoc_keys_unique(state.item_offsets@)
}

} // verus!
