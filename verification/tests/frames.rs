//! Frame rendering, hit-testing and interaction checks.

use chonker3::frame::{frame_hit_rects, render_frame, DocumentCanvas, PaintOp, RenderConfig};
use chonker3::interact::{
    apply_item_drag, apply_pan_drag, apply_wheel, handle_click, hit_test, toast_preview,
    toast_visible, ScreenRect, Toast, TOAST_DURATION_MS,
};
use chonker3::model::{BoundingBox, DocumentItem, DocumentState, ItemType};

fn hello_item() -> DocumentItem {
    DocumentItem {
        id: "x".to_string(),
        bbox: BoundingBox { left: 72_000, top: 72_000, width: 200_000, height: 20_000 },
        content: "Hello World".to_string(),
        font_size: 12_000,
        item_type: ItemType::Text,
        bold: false,
        italic: false,
    }
}

fn second_item() -> DocumentItem {
    DocumentItem {
        id: "y".to_string(),
        bbox: BoundingBox { left: 300_000, top: 400_000, width: 100_000, height: 20_000 },
        content: "Goodbye".to_string(),
        font_size: 12_000,
        item_type: ItemType::Text,
        bold: false,
        italic: false,
    }
}

fn letter_state() -> DocumentState {
    let mut state = DocumentState::default();
    state.items = vec![hello_item(), second_item()];
    state
}

#[test]
fn hello_world_lands_at_the_margin_plus_fit_scaled_position() {
    // 612x792-unit page fit into a 612x792-pixel panel at zoom 1.0 and no
    // pan: fit scale is exactly 1, so the item at (72, 72) units sits at
    // (20 + 72, 50 + 72) pixels; the hit rect expands by the 2-pixel pad.
    let state = letter_state();
    let cfg = RenderConfig::default();
    let frame = render_frame(&state, &cfg, 612_000, 792_000, false, None, 0);
    assert_eq!(frame.vt.scale, 1000);
    let rect = frame.layouts[0].rect;
    assert_eq!(rect.x, 92_000_000 - 2_000_000);
    assert_eq!(rect.y, 122_000_000 - 2_000_000);
    // 11 characters at 6 px advance, one line of 14.4 px, plus padding.
    assert_eq!(rect.w, 66_000_000 + 4_000_000);
    assert_eq!(rect.h, 14_400_000 + 4_000_000);
}

#[test]
fn item_offset_shifts_only_that_item() {
    let mut state = letter_state();
    let cfg = RenderConfig::default();
    let before = render_frame(&state, &cfg, 612_000, 792_000, false, None, 0);
    state.set_item_offset(&"x".to_string(), 10_000_000, -5_000_000);
    let after = render_frame(&state, &cfg, 612_000, 792_000, false, None, 0);
    let b0 = before.layouts[0].rect;
    let a0 = after.layouts[0].rect;
    assert_eq!(a0.x, b0.x + 10_000_000);
    assert_eq!(a0.y, b0.y - 5_000_000);
    assert_eq!((a0.w, a0.h), (b0.w, b0.h));
    // The other item does not move at all.
    assert_eq!(after.layouts[1].rect, before.layouts[1].rect);
}

#[test]
fn hit_testing_resolves_overlaps_to_the_later_painted_item() {
    let a = ScreenRect { x: 0, y: 0, w: 10_000_000, h: 10_000_000 };
    let b = ScreenRect { x: 5_000_000, y: 5_000_000, w: 10_000_000, h: 10_000_000 };
    let rects = vec![a, b];
    // In the overlap both contain the point; the later one wins.
    assert_eq!(hit_test(&rects, 7_000_000, 7_000_000), Some(1));
    // Outside the overlap each is hit on its own.
    assert_eq!(hit_test(&rects, 1_000_000, 1_000_000), Some(0));
    assert_eq!(hit_test(&rects, 14_000_000, 14_000_000), Some(1));
    assert_eq!(hit_test(&rects, 40_000_000, 40_000_000), None);
}

#[test]
fn clicking_copies_the_effective_text_and_the_toast_expires() {
    let state = letter_state();
    let cfg = RenderConfig::default();
    let frame = render_frame(&state, &cfg, 612_000, 792_000, false, None, 0);
    let rects = frame_hit_rects(&frame);
    let now: u64 = 10_000;
    let hit = handle_click(&state, &rects, 95_000_000, 125_000_000, now);
    let (idx, copied, toast) = hit.expect("the click lands on the first item");
    assert_eq!(idx, 0);
    assert_eq!(copied, "Hello World");
    assert_eq!(toast.text, "Hello World");
    assert_eq!(toast.shown_at_ms, now);
    // Visible through the display window, gone once it elapses.
    assert!(toast_visible(&toast, now));
    assert!(toast_visible(&toast, now + TOAST_DURATION_MS - 1));
    assert!(!toast_visible(&toast, now + TOAST_DURATION_MS));
    assert!(!toast_visible(&toast, now + TOAST_DURATION_MS + 5_000));
}

#[test]
fn clicking_prefers_the_override_text() {
    let mut state = letter_state();
    state.set_item_override_text(&"x".to_string(), "Edited".to_string());
    let cfg = RenderConfig::default();
    let frame = render_frame(&state, &cfg, 612_000, 792_000, false, None, 0);
    let rects = frame_hit_rects(&frame);
    let (_, copied, _) = handle_click(&state, &rects, 95_000_000, 125_000_000, 0).unwrap();
    assert_eq!(copied, "Edited");
}

#[test]
fn click_outside_every_item_copies_nothing() {
    let state = letter_state();
    let cfg = RenderConfig::default();
    let frame = render_frame(&state, &cfg, 612_000, 792_000, false, None, 0);
    let rects = frame_hit_rects(&frame);
    assert!(handle_click(&state, &rects, 600_000_000, 700_000_000, 0).is_none());
}

#[test]
fn toast_preview_truncates_long_copies() {
    let short = "short".to_string();
    assert_eq!(toast_preview(&short), "short");
    let long = "a".repeat(60);
    let preview = toast_preview(&long);
    assert_eq!(preview.chars().count(), 53);
    assert!(preview.ends_with("..."));
    assert!(preview.starts_with(&"a".repeat(50)));
}

#[test]
fn wheel_routing_zooms_with_the_modifier_and_pans_without() {
    let mut state = letter_state();
    apply_wheel(&mut state, true, 0, 100_000_000);
    assert_eq!(state.zoom, 1100);
    assert_eq!(state.offset, (0, 0));
    apply_wheel(&mut state, false, 3_000_000, -4_000_000);
    assert_eq!(state.zoom, 1100);
    assert_eq!(state.offset, (3_000_000, -4_000_000));
}

#[test]
fn drags_accumulate_into_pan_or_item_offsets() {
    let mut state = letter_state();
    apply_pan_drag(&mut state, 5_000_000, 6_000_000);
    apply_pan_drag(&mut state, -1_000_000, 1_000_000);
    assert_eq!(state.offset, (4_000_000, 7_000_000));
    apply_item_drag(&mut state, &"x".to_string(), 2_000_000, 0);
    apply_item_drag(&mut state, &"x".to_string(), 3_000_000, -1_000_000);
    assert_eq!(state.item_offset_of(&"x".to_string()), (5_000_000, -1_000_000));
    assert_eq!(state.item_offset_of(&"y".to_string()), (0, 0));
}

#[test]
fn frame_chrome_reports_the_state() {
    let mut state = letter_state();
    state.zoom = 860;
    state.column_count = 3;
    state.column_boundaries = vec![200_000, 400_000];
    let cfg = RenderConfig::default();
    let frame = render_frame(&state, &cfg, 612_000, 792_000, true, None, 0);
    match &frame.pre_ops[1] {
        PaintOp::Glyphs(g) => {
            assert_eq!(g.text, "\u{1f4c4} 2 items | Zoom: 86% | 3 columns");
        },
        _ => panic!("the status line is a glyph run"),
    }
    // Hovering adds the hint line, then come the two column guides.
    assert_eq!(frame.pre_ops.len(), 3 + 2);
    match &frame.pre_ops[3] {
        PaintOp::Segment(s) => {
            // Boundary at 200 units under the fit scale of 860.
            assert_eq!(s.x1, 20_000_000 + 200_000 * 860);
        },
        _ => panic!("a column guide is a segment"),
    }
}

#[test]
fn toast_op_is_painted_only_while_visible() {
    let state = letter_state();
    let cfg = RenderConfig::default();
    let toast = Toast { text: "Hello".to_string(), shown_at_ms: 1_000 };
    let shown = render_frame(&state, &cfg, 612_000, 792_000, false, Some(&toast), 1_500);
    assert_eq!(shown.post_ops.len(), 1);
    match &shown.post_ops[0] {
        PaintOp::Glyphs(g) => assert_eq!(g.text, "\u{1f4cb} Copied: Hello"),
        _ => panic!("the toast is a glyph run"),
    }
    let gone = render_frame(&state, &cfg, 612_000, 792_000, false, Some(&toast), 3_001);
    assert!(gone.post_ops.is_empty());
}

#[test]
fn checkbox_items_render_a_glyph_not_text() {
    let mut state = DocumentState::default();
    state.items = vec![DocumentItem {
        id: "cb".to_string(),
        bbox: BoundingBox { left: 10_000, top: 10_000, width: 10_000, height: 10_000 },
        content: "X".to_string(),
        font_size: 12_000,
        item_type: ItemType::Checkbox,
        bold: false,
        italic: false,
    }];
    let cfg = RenderConfig::default();
    let frame = render_frame(&state, &cfg, 612_000, 792_000, false, None, 0);
    let ops = &frame.layouts[0].ops;
    // Outline plus the two check-mark segments.
    assert_eq!(ops.len(), 3);
    assert!(matches!(ops[0], PaintOp::StrokeRect(_)));
    assert!(matches!(ops[1], PaintOp::Segment(_)));
    assert!(matches!(ops[2], PaintOp::Segment(_)));
}

#[test]
fn search_matches_paint_a_highlight_first() {
    let mut state = letter_state();
    state.search_query = "hello".to_string();
    state.search_results = vec!["x".to_string()];
    let cfg = RenderConfig::default();
    let frame = render_frame(&state, &cfg, 612_000, 792_000, false, None, 0);
    assert!(frame.layouts[0].is_match);
    assert!(matches!(frame.layouts[0].ops[0], PaintOp::FillRect(_)));
    assert!(!frame.layouts[1].is_match);
    assert!(matches!(frame.layouts[1].ops[0], PaintOp::Glyphs(_)));
}

#[test]
fn document_canvas_wraps_state_under_the_canonical_policy() {
    let mut state = letter_state();
    state.offset = (7, -9);
    state.search_query = "hello".to_string();
    state.set_item_override_text(&"x".to_string(), "Edited".to_string());
    let canvas = DocumentCanvas::new(state).with_zoom(50_000);
    // The zoom builder changes the clamped zoom and nothing else.
    assert_eq!(canvas.document_state.zoom, 3000);
    assert_eq!(canvas.document_state.offset, (7, -9));
    assert_eq!(canvas.document_state.search_query, "hello");
    assert_eq!(canvas.document_state.item_text_overrides.len(), 1);
    assert_eq!(canvas.document_state.page_size, (612_000, 792_000));
    let frame = canvas.ui(612_000, 792_000, false, 0);
    assert_eq!(frame.layouts.len(), 2);
}
