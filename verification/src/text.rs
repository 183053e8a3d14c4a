//! Text layout engine: wrap eligibility, effective font sizing, greedy line
//! wrapping and measurement.
//!
//! The engine lays glyphs out on a uniform character-advance metric (half
//! the effective font size per character), so width and height are
//! measurement-driven functions of the wrapped lines, not of the incoming
//! bounding box.  Long text prefers breaking at a space; a word longer than
//! a whole line is broken anywhere, so no line ever exceeds the width it
//! was constrained to.

use vstd::prelude::*;

use vstd::string::StrSliceExecFns;

use crate::search::contains_sub;
use crate::search::str_contains;
use crate::MAX_OFF_UPX;
use crate::MAX_TEXT_LEN;
use crate::SCALE_MAX;

verus! {

/// Font size substituted when an item's own size is unknown, milli-units.
pub const DEFAULT_FONT_MU: i64 = 12_000;

/// Lower clamp of the effective font size, milli-pixels.
pub const MIN_FONT_MPX: i64 = 8_000;

/// Upper clamp of the effective font size, milli-pixels.
pub const MAX_FONT_MPX: i64 = 24_000;

/// Character advance as a fraction of the font size, per-mille.
pub const CHAR_ADV_PM: i64 = 500;

/// Line height as a fraction of the font size, per-mille.
pub const LINE_H_PM: i64 = 1200;

/// Upper bound on wrapped lines; text beyond it is truncated and marked
/// with an ellipsis.
pub const MAX_LINES: usize = 10;

/// Width cap of wrap-eligible text, micro-pixels.
pub const CAP_W_UPX: i64 = 400_000_000;

/// Width floor of non-wrap-eligible text, micro-pixels.
pub const FALLBACK_W_UPX: i64 = 100_000_000;

/// The effective font size in milli-pixels: the document font size (or the
/// default when unknown) scaled to the screen, clamped to the legible
/// range, then adjusted by the item type's multiplier.
pub open spec fn spec_effective_font_mpx(font_mu: int, scale: int, mult_pm: int) -> int {
    let base = if font_mu <= 0 {
        DEFAULT_FONT_MU as int
    } else {
        font_mu
    };
    let px_m = base * scale / 1000;
    let clamped = if px_m < MIN_FONT_MPX {
        MIN_FONT_MPX as int
    } else if px_m > MAX_FONT_MPX {
        MAX_FONT_MPX as int
    } else {
        px_m
    };
    clamped * mult_pm / 1000
}

/// Resolves the effective font size.
pub fn effective_font_mpx(font_mu: i64, scale: i64, mult_pm: u32) -> (r: i64)
    requires
        -crate::MAX_COORD_MU <= font_mu <= crate::MAX_COORD_MU,
        1 <= scale <= SCALE_MAX,
        950 <= mult_pm <= 1200,
    ensures
        r == spec_effective_font_mpx(font_mu as int, scale as int, mult_pm as int),
        7_000 <= r <= 29_000,
{
    let base: i64 = if font_mu <= 0 {
        DEFAULT_FONT_MU
    } else {
        font_mu
    };
    proof {
        crate::transform::lemma_coord_scale_bound(base as int, scale as int);
    }
    let px_m: i64 = base * scale / 1000;
    let clamped: i64 = if px_m < MIN_FONT_MPX {
        MIN_FONT_MPX
    } else if px_m > MAX_FONT_MPX {
        MAX_FONT_MPX
    } else {
        px_m
    };
    proof {
        assert(7_000 <= clamped * mult_pm / 1000 <= 29_000 && clamped * mult_pm
            <= 100_000_000) by (nonlinear_arith)
            requires
                8_000 <= clamped <= 24_000,
                950 <= mult_pm <= 1200,
        ;
    }
    clamped * (mult_pm as i64) / 1000
}

/// The character advance of a font size, micro-pixels.
pub open spec fn spec_char_advance_upx(font_mpx: int) -> int {
    font_mpx * CHAR_ADV_PM
}

/// The line height of a font size, micro-pixels.
pub open spec fn spec_line_height_upx(font_mpx: int) -> int {
    font_mpx * LINE_H_PM
}

/// Text is wrap-eligible when it is long, contains a sentence boundary, or
/// contains the configured long-phrase trigger.
pub open spec fn spec_wrap_eligible(text: Seq<char>, threshold: int) -> bool {
    ||| text.len() > threshold
    ||| contains_sub(text, ". "@)
    ||| contains_sub(text, "must be signed"@)
}

/// Decides wrap eligibility.
pub fn wrap_eligible(text: &str, threshold: usize) -> (r: bool)
    ensures
        r == spec_wrap_eligible(text@, threshold as int),
{
    if text.unicode_len() > threshold {
        return true;
    }
    if str_contains(text, ". ") {
        return true;
    }
    str_contains(text, "must be signed")
}

/// The width constraint handed to layout: wrap-eligible text is capped,
/// other text keeps at least its single-line footprint.
pub open spec fn spec_layout_max_width(
    eligible: bool,
    bbox_w_upx: int,
    avail_upx: int,
) -> int {
    if eligible {
        if avail_upx <= CAP_W_UPX {
            avail_upx
        } else {
            CAP_W_UPX as int
        }
    } else {
        if bbox_w_upx >= FALLBACK_W_UPX {
            bbox_w_upx
        } else {
            FALLBACK_W_UPX as int
        }
    }
}

/// Resolves the width constraint.
pub fn layout_max_width(eligible: bool, bbox_w_upx: i64, avail_upx: i64) -> (r: i64)
    ensures
        r == spec_layout_max_width(eligible, bbox_w_upx as int, avail_upx as int),
        eligible ==> r <= CAP_W_UPX,
{
    if eligible {
        if avail_upx <= CAP_W_UPX {
            avail_upx
        } else {
            CAP_W_UPX
        }
    } else {
        if bbox_w_upx >= FALLBACK_W_UPX {
            bbox_w_upx
        } else {
            FALLBACK_W_UPX
        }
    }
}

/// How many characters fit one line: at least one, else the constrained
/// width divided by the character advance.
pub open spec fn spec_max_chars(max_w_upx: int, adv_upx: int) -> int {
    if max_w_upx < adv_upx {
        1
    } else {
        max_w_upx / adv_upx
    }
}

/// The largest character count over the laid-out lines.
pub open spec fn max_line_chars(lines: Seq<(usize, usize)>) -> int
    decreases lines.len(),
{
    if lines.len() == 0 {
        0
    } else if lines.last().1 >= max_line_chars(lines.drop_last()) {
        lines.last().1 as int
    } else {
        max_line_chars(lines.drop_last())
    }
}

/// The break position of a line window: the largest `j` with
/// `pos < j < pos + k` carrying a space, or `-1` when no such position
/// exists.
pub open spec fn spec_space_break(text: Seq<char>, pos: int, k: int) -> int
    decreases k,
{
    if k <= 1 {
        -1
    } else if text[pos + k - 1] == ' ' {
        pos + k - 1
    } else {
        spec_space_break(text, pos, k - 1)
    }
}

/// One greedy wrapping step at `pos`: how many characters the line takes
/// and where the next line starts.  A full window ending right before a
/// space ends cleanly and skips it; otherwise the line retreats to the
/// last space inside the window; a window without one is broken at the
/// budget; the final window takes the rest.
pub open spec fn spec_wrap_step(text: Seq<char>, mc: int, pos: int) -> (int, int) {
    let m = if mc < 1 {
        1int
    } else {
        mc
    };
    let remaining = text.len() - pos;
    let take = if m < remaining {
        m
    } else {
        remaining
    };
    if take < remaining {
        if text[pos + take] == ' ' {
            (take, pos + take + 1)
        } else {
            let j = spec_space_break(text, pos, take);
            if j >= 0 {
                (j - pos, j + 1)
            } else {
                (take, pos + take)
            }
        }
    } else {
        (take, pos + take)
    }
}

/// The wrapped line windows from `pos` on, at most `lines_left` of them:
/// the functional specification of greedy wrapping.
pub open spec fn spec_wrap_from(
    text: Seq<char>,
    mc: int,
    pos: int,
    lines_left: int,
) -> Seq<(int, int)>
    decreases lines_left,
{
    if pos >= text.len() || lines_left <= 0 {
        Seq::empty()
    } else {
        let step = spec_wrap_step(text, mc, pos);
        seq![(pos, step.0)] + spec_wrap_from(text, mc, step.1, lines_left - 1)
    }
}

/// Where wrapping stops: the position reached after at most `lines_left`
/// lines.
pub open spec fn spec_wrap_end(text: Seq<char>, mc: int, pos: int, lines_left: int) -> int
    decreases lines_left,
{
    if pos >= text.len() || lines_left <= 0 {
        pos
    } else {
        spec_wrap_end(text, mc, spec_wrap_step(text, mc, pos).1, lines_left - 1)
    }
}

/// A wrapped glyph layout: each line a `(start, char count)` window into
/// the text, with the measured footprint.
#[derive(Debug)]
pub struct TextLayout {
    /// The lines in order; starts are strictly increasing and every window
    /// lies inside the text.
    pub lines: Vec<(usize, usize)>,
    /// The line bound cut the text short; an ellipsis marker is owed.
    pub truncated: bool,
    /// Measured width: the longest line at the uniform advance.
    pub width_upx: i64,
    /// Measured height: the line count at the uniform line height.
    pub height_upx: i64,
}

impl TextLayout {
    /// The layout's relation to its inputs.  The line windows are pinned
    /// to the functional wrapping spec (`spec_wrap_from`), so equal text,
    /// font and width constraints force equal layouts; the remaining
    /// clauses restate the structure the windows then have and tie the
    /// measured footprint to them.
    pub open spec fn wf(self, text: Seq<char>, font_mpx: int, max_w_upx: int) -> bool {
        let adv = spec_char_advance_upx(font_mpx);
        let mc = spec_max_chars(max_w_upx, adv);
        &&& if text.len() == 0 {
            self.lines@ =~= seq![(0usize, 0usize)]
        } else {
            self.lines@.map_values(|p: (usize, usize)| (p.0 as int, p.1 as int))
                == spec_wrap_from(text, mc, 0, MAX_LINES as int)
        }
        &&& self.truncated == (spec_wrap_end(text, mc, 0, MAX_LINES as int) < text.len())
        &&& 1 <= self.lines@.len() <= MAX_LINES
        &&& forall|i: int|
            0 <= i < self.lines@.len() ==> {
                &&& (#[trigger] self.lines@[i]).0 + self.lines@[i].1 <= text.len()
                &&& self.lines@[i].1 <= mc
            }
        &&& forall|i: int|
            0 < i < self.lines@.len() ==> (#[trigger] self.lines@[i]).0 >= self.lines@[i - 1].0
                + self.lines@[i - 1].1
        &&& self.width_upx == max_line_chars(self.lines@) * adv
        &&& self.height_upx == self.lines@.len() * spec_line_height_upx(font_mpx)
        &&& 0 <= self.width_upx <= 60_000_000_000_000
        &&& 0 <= self.height_upx <= 1_200_000_000
        &&& self.truncated ==> self.lines@.len() == MAX_LINES
        &&& !self.truncated ==> text.len() <= self.lines@.last().0 + self.lines@.last().1 + 1
    }
}

/// Two well-formed layouts of the same text under the same font and width
/// constraint are the same layout: the line windows, the truncation flag
/// and the measured footprint all coincide.
pub proof fn lemma_layout_determined(
    a: TextLayout,
    b: TextLayout,
    text: Seq<char>,
    font_mpx: int,
    max_w_upx: int,
)
    requires
        a.wf(text, font_mpx, max_w_upx),
        b.wf(text, font_mpx, max_w_upx),
    ensures
        a.lines@ == b.lines@,
        a.truncated == b.truncated,
        a.width_upx == b.width_upx,
        a.height_upx == b.height_upx,
{
    let pa = a.lines@.map_values(|p: (usize, usize)| (p.0 as int, p.1 as int));
    let pb = b.lines@.map_values(|p: (usize, usize)| (p.0 as int, p.1 as int));
    if text.len() == 0 {
        assert(a.lines@ =~= b.lines@);
    } else {
        assert(pa == pb);
        assert(a.lines@.len() == b.lines@.len()) by {
            assert(pa.len() == pb.len());
        }
        assert forall|i: int| 0 <= i < a.lines@.len() implies #[trigger] a.lines@[i]
            == b.lines@[i] by {
            assert(pa[i] == (a.lines@[i].0 as int, a.lines@[i].1 as int));
            assert(pb[i] == (b.lines@[i].0 as int, b.lines@[i].1 as int));
            assert(a.lines@[i].0 as int == b.lines@[i].0 as int);
            assert(a.lines@[i].1 as int == b.lines@[i].1 as int);
        }
        assert(a.lines@ =~= b.lines@);
    }
}

/// The last space strictly inside the window `[pos, pos + take)`, after its
/// first character.
fn find_space_break(text: &str, pos: usize, take: usize) -> (r: Option<usize>)
    requires
        pos + take <= text@.len(),
        text@.len() <= usize::MAX,
    ensures
        match r {
            Some(j) => {
                &&& j == spec_space_break(text@, pos as int, take as int)
                &&& pos < j < pos + take
                &&& text@[j as int] == ' '
            },
            None => spec_space_break(text@, pos as int, take as int) == -1,
        },
{
    let mut k: usize = take;
    while k > 1
        invariant
            k <= take,
            pos + take <= text@.len(),
            text@.len() <= usize::MAX,
            spec_space_break(text@, pos as int, take as int) == spec_space_break(
                text@,
                pos as int,
                k as int,
            ),
        decreases k,
    {
        k -= 1;
        if text.get_char(pos + k) == ' ' {
            proof {
                assert(spec_space_break(text@, pos as int, k + 1) == pos + k);
            }
            return Some(pos + k);
        }
        proof {
            assert(spec_space_break(text@, pos as int, k + 1) == spec_space_break(
                text@,
                pos as int,
                k as int,
            ));
        }
    }
    None
}

/// Wraps text greedily against a width constraint: lines prefer to end at
/// a space, a single overlong word is broken anywhere, at most `MAX_LINES`
/// lines are produced, and the measured footprint is returned with them.
pub fn layout_text(text: &str, font_mpx: i64, max_w_upx: i64) -> (r: TextLayout)
    requires
        1_000 <= font_mpx <= 100_000,
        -MAX_OFF_UPX <= max_w_upx <= MAX_OFF_UPX,
        text@.len() <= MAX_TEXT_LEN,
    ensures
        r.wf(text@, font_mpx as int, max_w_upx as int),
{
    let adv: i64 = font_mpx * CHAR_ADV_PM;
    let line_h: i64 = font_mpx * LINE_H_PM;
    let mc: i64 = if max_w_upx < adv {
        1
    } else {
        max_w_upx / adv
    };
    proof {
        assert(mc >= 1) by {
            if max_w_upx >= adv {
                vstd::arithmetic::div_mod::lemma_div_non_zero(max_w_upx as int, adv as int);
            }
        }
    }
    let len = text.unicode_len();
    let mut lines: Vec<(usize, usize)> = Vec::new();
    let mut widest: usize = 0;
    let mut pos: usize = 0;
    let ghost pairfn = |p: (usize, usize)| (p.0 as int, p.1 as int);
    if len == 0 {
        lines.push((0, 0));
        proof {
            assert(lines@ =~= seq![(0usize, 0usize)]);
            assert(max_line_chars(lines@) == 0) by {
                assert(lines@.drop_last() =~= Seq::<(usize, usize)>::empty());
                assert(max_line_chars(Seq::<(usize, usize)>::empty()) == 0);
            }
            assert(spec_wrap_end(text@, mc as int, 0, MAX_LINES as int) == 0);
        }
        return TextLayout { lines, truncated: false, width_upx: 0, height_upx: line_h };
    }
    proof {
        assert(lines@.map_values(pairfn) =~= Seq::<(int, int)>::empty());
        assert(Seq::<(int, int)>::empty() + spec_wrap_from(text@, mc as int, 0, MAX_LINES as int)
            =~= spec_wrap_from(text@, mc as int, 0, MAX_LINES as int));
    }
    while pos < len && lines.len() < MAX_LINES
        invariant
            1_000 <= font_mpx <= 100_000,
            adv == font_mpx * CHAR_ADV_PM,
            1 <= mc,
            mc == spec_max_chars(max_w_upx as int, adv as int),
            len == text@.len(),
            len <= MAX_TEXT_LEN,
            pos <= len,
            lines@.len() <= MAX_LINES,
            pos > 0 ==> lines@.len() > 0,
            forall|i: int|
                0 <= i < lines@.len() ==> {
                    &&& (#[trigger] lines@[i]).0 + lines@[i].1 <= len
                    &&& lines@[i].1 <= mc
                },
            forall|i: int|
                0 < i < lines@.len() ==> (#[trigger] lines@[i]).0 >= lines@[i - 1].0 + lines@[i
                    - 1].1,
            lines@.len() > 0 ==> lines@.last().0 + lines@.last().1 <= pos <= lines@.last().0
                + lines@.last().1 + 1,
            widest == max_line_chars(lines@),
            widest <= mc,
            widest <= len,
            pairfn == (|p: (usize, usize)| (p.0 as int, p.1 as int)),
            spec_wrap_from(text@, mc as int, 0, MAX_LINES as int) == lines@.map_values(pairfn)
                + spec_wrap_from(text@, mc as int, pos as int, MAX_LINES - lines@.len()),
            spec_wrap_end(text@, mc as int, 0, MAX_LINES as int) == spec_wrap_end(
                text@,
                mc as int,
                pos as int,
                MAX_LINES - lines@.len(),
            ),
        decreases len - pos,
    {
        let remaining = len - pos;
        let take: usize = if mc >= remaining as i64 {
            remaining
        } else {
            mc as usize
        };
        let mut line_len: usize = take;
        let mut next_pos: usize = pos + take;
        if take < remaining {
            if text.get_char(pos + take) == ' ' {
                next_pos = pos + take + 1;
            } else {
                match find_space_break(text, pos, take) {
                    Some(j) => {
                        line_len = j - pos;
                        next_pos = j + 1;
                    },
                    None => {},
                }
            }
        }
        proof {
            assert(spec_wrap_step(text@, mc as int, pos as int) == (
                line_len as int,
                next_pos as int,
            ));
        }
        let ghost lines0 = lines@;
        lines.push((pos, line_len));
        if line_len > widest {
            widest = line_len;
        }
        proof {
            assert(lines@.drop_last() =~= lines0);
            assert(lines@.last() == (pos, line_len));
            let ghost ll0 = MAX_LINES - lines0.len();
            assert(spec_wrap_from(text@, mc as int, pos as int, ll0) == seq![
                (pos as int, line_len as int),
            ] + spec_wrap_from(text@, mc as int, next_pos as int, ll0 - 1));
            assert(lines@.map_values(pairfn) =~= lines0.map_values(pairfn).push(
                (pos as int, line_len as int),
            ));
            assert(lines0.map_values(pairfn) + spec_wrap_from(text@, mc as int, pos as int, ll0)
                =~= lines@.map_values(pairfn) + spec_wrap_from(
                text@,
                mc as int,
                next_pos as int,
                ll0 - 1,
            ));
            assert(spec_wrap_end(text@, mc as int, pos as int, ll0) == spec_wrap_end(
                text@,
                mc as int,
                next_pos as int,
                ll0 - 1,
            ));
        }
        pos = next_pos;
    }
    let truncated = pos < len;
    proof {
        assert(spec_wrap_from(text@, mc as int, pos as int, MAX_LINES - lines@.len())
            =~= Seq::<(int, int)>::empty());
        assert(lines@.map_values(pairfn) + Seq::<(int, int)>::empty() =~= lines@.map_values(
            pairfn,
        ));
        assert(spec_wrap_end(text@, mc as int, pos as int, MAX_LINES - lines@.len())
            == pos);
    }
    proof {
        assert(0 <= widest * adv <= 60_000_000_000_000) by (nonlinear_arith)
            requires
                0 <= widest <= 1_000_000,
                1 <= adv <= 50_000_000,
        ;
        assert(0 <= lines@.len() * line_h <= 10 * 120_000_000) by (nonlinear_arith)
            requires
                0 <= lines@.len() <= 10,
                0 <= line_h <= 120_000_000,
        ;
    }
    let width_upx: i64 = (widest as i64) * adv;
    let height_upx: i64 = (lines.len() as i64) * line_h;
    TextLayout { lines, truncated, width_upx, height_upx }
}

/// One line's characters, as a fresh string.
pub fn line_text(text: &str, start: usize, count: usize) -> (r: String)
    requires
        start + count <= text@.len(),
        text@.len() <= usize::MAX,
    ensures
        r@ == text@.subrange(start as int, start + count as int),
{
    let sub = text.substring_char(start, start + count);
    sub.to_owned()
}

/// A line that fits the character budget of a capped width constraint is
/// never wider than the cap itself.
pub proof fn lemma_wrapped_line_within_cap(line_chars: int, max_w_upx: int, adv_upx: int)
    requires
        1 <= adv_upx <= CAP_W_UPX,
        max_w_upx <= CAP_W_UPX,
        0 <= line_chars <= spec_max_chars(max_w_upx, adv_upx),
    ensures
        line_chars * adv_upx <= CAP_W_UPX,
{
    let mc = spec_max_chars(max_w_upx, adv_upx);
    if max_w_upx < adv_upx {
        assert(line_chars * adv_upx <= 1 * adv_upx) by (nonlinear_arith)
            requires
                0 <= line_chars <= 1,
                1 <= adv_upx,
        ;
    } else {
        assert(line_chars * adv_upx <= mc * adv_upx) by (nonlinear_arith)
            requires
                0 <= line_chars <= mc,
                1 <= adv_upx,
        ;
        assert(mc * adv_upx <= max_w_upx) by (nonlinear_arith)
            requires
                mc == max_w_upx / adv_upx,
                1 <= adv_upx <= max_w_upx,
        ;
    }
}

/// The longest line is no longer than the longest allowed line.
pub proof fn lemma_max_line_chars_bounded(lines: Seq<(usize, usize)>, mc: int)
    requires
        forall|i: int| 0 <= i < lines.len() ==> (#[trigger] lines[i]).1 <= mc,
        0 <= mc,
    ensures
        0 <= max_line_chars(lines) <= mc,
    decreases lines.len(),
{
    if lines.len() > 0 {
        lemma_max_line_chars_bounded(lines.drop_last(), mc);
        assert(lines.last() == lines[lines.len() - 1]);
    }
}

/// Wrap-eligible text never lays out wider than the cap: under the
/// capped width constraint that wrap-eligible text receives, the measured
/// width of the wrapped layout — its longest line — stays within the cap.
pub proof fn lemma_wrap_eligible_width_capped(
    tl: TextLayout,
    text: Seq<char>,
    font_mpx: int,
    max_w_upx: int,
)
    requires
        tl.wf(text, font_mpx, max_w_upx),
        max_w_upx <= CAP_W_UPX,
        1 <= spec_char_advance_upx(font_mpx) <= CAP_W_UPX,
    ensures
        tl.width_upx <= CAP_W_UPX,
        forall|i: int|
            0 <= i < tl.lines@.len() ==> (#[trigger] tl.lines@[i]).1 * spec_char_advance_upx(
                font_mpx,
            ) <= CAP_W_UPX,
{
    let adv = spec_char_advance_upx(font_mpx);
    let mc = spec_max_chars(max_w_upx, adv);
    lemma_max_line_chars_bounded(tl.lines@, mc);
    lemma_wrapped_line_within_cap(max_line_chars(tl.lines@), max_w_upx, adv);
    assert forall|i: int|
        0 <= i < tl.lines@.len() implies (#[trigger] tl.lines@[i]).1 * adv <= CAP_W_UPX by {
        lemma_wrapped_line_within_cap(tl.lines@[i].1 as int, max_w_upx, adv);
    }
}

/// Whether a checkbox fragment reads as checked: its content carries any
/// of the recognized check marks.
pub open spec fn spec_checkbox_checked(content: Seq<char>) -> bool {
    ||| content.contains('x')
    ||| content.contains('X')
    ||| content.contains('\u{2611}')
    ||| content.contains('\u{25a0}')
}

/// Scans a checkbox fragment's content for a check mark.
pub fn checkbox_checked(content: &str) -> (r: bool)
    ensures
        r == spec_checkbox_checked(content@),
{
    let n = content.unicode_len();
    let mut i: usize = 0;
    while i < n
        invariant
            i <= n,
            n == content@.len(),
            forall|t: int|
                0 <= t < i ==> {
                    &&& content@[t] != 'x'
                    &&& content@[t] != 'X'
                    &&& content@[t] != '\u{2611}'
                    &&& content@[t] != '\u{25a0}'
                },
        decreases n - i,
    {
        let c = content.get_char(i);
        if c == 'x' || c == 'X' || c == '\u{2611}' || c == '\u{25a0}' {
            return true;
        }
        i += 1;
    }
    proof {
        assert(forall|t: int| 0 <= t < content@.len() ==> content@[t] != 'x');
    }
    false
}

} // verus!
