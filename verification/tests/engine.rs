//! Coordinate transform, zoom control, text layout and formatting checks.

use chonker3::numfmt::{i64_to_string, u64_to_string};
use chonker3::text;
use chonker3::transform::{
    clamp_zoom, fit_scale, render_size, round_div_i64, view_scale, wheel_zoom, zoom_in_step,
    zoom_out_step, FitStrategy, Origin, ViewTransform,
};

fn letter_transform() -> ViewTransform {
    // US-Letter page fit into a pixel-equal panel at unit zoom: scale 1000.
    ViewTransform {
        scale: 1000,
        off_x: 20_000_000,
        off_y: 50_000_000,
        page_h: 792_000,
        origin: Origin::TopLeft,
    }
}

#[test]
fn transform_round_trip_top_left() {
    let vt = letter_transform();
    for p in [0i64, 72_000, 611_999, 123_456, -5_000] {
        let s = vt.to_screen_x(p);
        assert_eq!(vt.to_doc_x(s), p);
        let sy = vt.to_screen_y(p);
        assert_eq!(vt.to_doc_y(sy), p);
    }
}

#[test]
fn transform_round_trip_bottom_left_and_odd_scale() {
    // A pan offset, a non-unit scale and the flipped origin together.
    let vt = ViewTransform {
        scale: 777,
        off_x: -3_141_592,
        off_y: 2_718_281,
        page_h: 792_000,
        origin: Origin::BottomLeft,
    };
    for p in [0i64, 1, 72_000, 791_999, 792_000, 800_000] {
        assert_eq!(vt.to_doc_x(vt.to_screen_x(p)), p);
        assert_eq!(vt.to_doc_y(vt.to_screen_y(p)), p);
    }
}

#[test]
fn bottom_left_origin_flips_vertically() {
    let mut vt = letter_transform();
    vt.origin = Origin::BottomLeft;
    // A fragment near the top of the page in bottom-left coordinates
    // (top close to the page height) lands near the canvas top.
    let near_page_top = vt.to_screen_y(790_000);
    let near_page_bottom = vt.to_screen_y(2_000);
    assert!(near_page_top < near_page_bottom);
    assert_eq!(near_page_top, 50_000_000 + 2_000 * 1000);
}

#[test]
fn rounding_division_rounds_to_nearest() {
    assert_eq!(round_div_i64(1500, 1000), 2);
    assert_eq!(round_div_i64(1499, 1000), 1);
    assert_eq!(round_div_i64(-1500, 1000), -2);
    assert_eq!(round_div_i64(-1499, 1000), -1);
    assert_eq!(round_div_i64(0, 7), 0);
}

#[test]
fn zoom_steps_match_the_factor() {
    assert_eq!(zoom_in_step(1000), 1200);
    assert_eq!(zoom_in_step(2800), 3000);
    assert_eq!(zoom_in_step(3000), 3000);
    assert_eq!(zoom_out_step(1000), 833);
    assert_eq!(zoom_out_step(550), 500);
    assert_eq!(zoom_out_step(500), 500);
    assert_eq!(clamp_zoom(100), 500);
    assert_eq!(clamp_zoom(9999), 3000);
    assert_eq!(clamp_zoom(860), 860);
}

#[test]
fn wheel_zoom_scales_and_clamps() {
    assert_eq!(wheel_zoom(1000, 100), 1100);
    assert_eq!(wheel_zoom(1000, -100), 900);
    assert_eq!(wheel_zoom(2900, 200), 3000);
    assert_eq!(wheel_zoom(600, -2000), 500);
    assert_eq!(wheel_zoom(1000, 0), 1000);
}

#[test]
fn fit_scale_strategies_differ_on_non_square_fit() {
    // Page twice as tall as wide, square panel: width-only overflows
    // vertically, uniform fit keeps the page inside.
    let w_only = fit_scale(FitStrategy::WidthOnly, 600_000, 600_000, 300_000, 600_000);
    let uniform = fit_scale(FitStrategy::UniformFit, 600_000, 600_000, 300_000, 600_000);
    assert_eq!(w_only, 2000);
    assert_eq!(uniform, 1000);
    assert_eq!(view_scale(1000, 860), 860);
    assert_eq!(view_scale(0, 860), 1);
}

#[test]
fn render_size_matches_width_fit() {
    let (w, h) = render_size(612_000, 792_000, 612_000, 1000);
    assert_eq!((w, h), (612, 792));
    let (w2, h2) = render_size(612_000, 792_000, 612_000, 2000);
    assert_eq!((w2, h2), (1224, 1584));
}

#[test]
fn wrap_eligibility_follows_the_policy() {
    let long = "x".repeat(51);
    assert!(text::wrap_eligible(&long, 50));
    assert!(!text::wrap_eligible("short text", 50));
    assert!(text::wrap_eligible("One sentence. Another", 50));
    assert!(text::wrap_eligible("this must be signed here", 50));
}

#[test]
fn effective_font_size_clamps_and_multiplies() {
    // Unknown size falls back to the default 12 units.
    assert_eq!(text::effective_font_mpx(0, 1000, 1000), 12_000);
    assert_eq!(text::effective_font_mpx(-5, 1000, 1000), 12_000);
    // Clamped below and above.
    assert_eq!(text::effective_font_mpx(4_000, 1000, 1000), 8_000);
    assert_eq!(text::effective_font_mpx(90_000, 1000, 1000), 24_000);
    // Title multiplier 1.2 on a 12-unit font.
    assert_eq!(text::effective_font_mpx(12_000, 1000, 1200), 14_400);
    // FormField multiplier 0.95.
    assert_eq!(text::effective_font_mpx(12_000, 1000, 950), 11_400);
}

#[test]
fn wrap_eligible_text_stays_within_the_cap() {
    // 120 characters with spaces, wrap-eligible, constrained to the cap.
    let word = "abcde ";
    let long: String = word.repeat(20);
    let maxw = text::layout_max_width(true, 900_000_000, 2_000_000_000);
    assert_eq!(maxw, text::CAP_W_UPX);
    let tl = text::layout_text(&long, 12_000, maxw);
    assert!(tl.lines.len() > 1);
    assert!(tl.width_upx <= text::CAP_W_UPX);
    for &(_, len) in &tl.lines {
        assert!((len as i64) * 12_000 * 500 <= text::CAP_W_UPX);
    }
}

#[test]
fn layout_prefers_space_breaks_and_truncates() {
    // Advance 6 px per character at font 12; max width 60 px = 10 chars.
    let tl = text::layout_text("hello world again", 12_000, 60_000_000);
    // "hello" then "world" then "again": breaks at the spaces.
    assert_eq!(tl.lines[0], (0, 5));
    assert_eq!(tl.lines[1], (6, 5));
    assert_eq!(tl.lines[2], (12, 5));
    assert!(!tl.truncated);
    // A single overlong word is broken anywhere.
    let tl2 = text::layout_text("abcdefghijklmnop", 12_000, 60_000_000);
    assert_eq!(tl2.lines[0], (0, 10));
    assert_eq!(tl2.lines[1], (10, 6));
    // Far more lines than the bound: cut at the bound with the marker.
    let many: String = "word ".repeat(100);
    let tl3 = text::layout_text(&many, 12_000, 60_000_000);
    assert_eq!(tl3.lines.len(), text::MAX_LINES);
    assert!(tl3.truncated);
}

#[test]
fn layout_measures_what_it_wrapped() {
    let tl = text::layout_text("hello world", 12_000, 400_000_000);
    assert_eq!(tl.lines.len(), 1);
    assert_eq!(tl.width_upx, 11 * 6_000_000);
    assert_eq!(tl.height_upx, 14_400_000);
    let empty = text::layout_text("", 12_000, 400_000_000);
    assert_eq!(empty.lines.len(), 1);
    assert_eq!(empty.width_upx, 0);
    assert_eq!(empty.height_upx, 14_400_000);
}

#[test]
fn checkbox_marks_are_recognized() {
    assert!(text::checkbox_checked("x"));
    assert!(text::checkbox_checked("X marks"));
    assert!(text::checkbox_checked("\u{2611}"));
    assert!(text::checkbox_checked("\u{25a0}"));
    assert!(!text::checkbox_checked("empty"));
    assert!(!text::checkbox_checked(""));
}

#[test]
fn decimal_rendering_is_exact() {
    assert_eq!(u64_to_string(0), "0");
    assert_eq!(u64_to_string(1234567890), "1234567890");
    assert_eq!(i64_to_string(-42), "-42");
    assert_eq!(i64_to_string(7), "7");
    assert_eq!(i64_to_string(i64::MIN), "-9223372036854775808");
}
