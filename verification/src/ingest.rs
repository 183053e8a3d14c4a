//! Building a render state from raw extracted items.
//!
//! The application shell reads the extraction output and hands over plain
//! raw items; everything decided about them happens here: which items the
//! page keeps, how a malformed one is dropped, how the stable identifier
//! is derived, and how the carried-over view and editor state is folded
//! into the fresh state.

use vstd::prelude::*;

use vstd::string::StrSliceExecFns;
use vstd::string::StringExecFns;

use crate::model::assoc_keys_unique;
use crate::model::BoundingBox;
use crate::model::DocumentItem;
use crate::model::DocumentState;
use crate::model::ItemType;
use crate::numfmt::dec_rep;
use crate::numfmt::dec_rep_signed;
use crate::numfmt::push_dec_i64;
use crate::numfmt::push_dec_u64;
use crate::search::find_search_matches;
use crate::search::results_from_matching;
use crate::MAX_COORD_MU;
use crate::MAX_PAN_UPX;
use crate::MAX_TEXT_LEN;

verus! {

/// Font size substituted at ingestion when an item carries none,
/// milli-units.
pub const INGEST_DEFAULT_FONT_MU: i64 = 12_000;

/// One extracted fragment as the analysis service reports it, already
/// reduced to plain values.
#[derive(Debug)]
pub struct RawItem {
    /// One-based page number the fragment belongs to.
    pub page: u64,
    /// The bounding box fields were all present and finite.
    pub has_bbox: bool,
    /// Bounding box in milli-units.
    pub left: i64,
    pub top: i64,
    pub width: i64,
    /// May arrive negative; its absolute value is used.
    pub height: i64,
    pub content: String,
    /// The analysis service's type tag.
    pub type_tag: String,
    /// Font size in milli-units; zero or below when missing.
    pub font_size: i64,
    pub bold: bool,
    pub italic: bool,
}

/// The item type a type tag maps to.
pub open spec fn spec_item_type_of(name: Seq<char>) -> ItemType {
    if name == "TitleItem"@ {
        ItemType::Title
    } else if name == "SectionHeaderItem"@ {
        ItemType::Header
    } else if name == "TableItem"@ {
        ItemType::Table
    } else {
        ItemType::Text
    }
}

/// Maps a type tag to an item type.
pub fn item_type_of(name: &String) -> (r: ItemType)
    ensures
        r == spec_item_type_of(name@),
{
    if *name == String::from_str("TitleItem") {
        ItemType::Title
    } else if *name == String::from_str("SectionHeaderItem") {
        ItemType::Header
    } else if *name == String::from_str("TableItem") {
        ItemType::Table
    } else {
        ItemType::Text
    }
}

/// An ASCII whitespace character.
pub open spec fn is_space_char(c: char) -> bool {
    ||| c == ' '
    ||| c == '\t'
    ||| c == '\n'
    ||| c == '\r'
    ||| c == '\u{b}'
    ||| c == '\u{c}'
}

/// Text that holds nothing but whitespace.
pub open spec fn spec_blank(s: Seq<char>) -> bool {
    forall|i: int| 0 <= i < s.len() ==> is_space_char(#[trigger] s[i])
}

/// Decides whether text is empty or whitespace-only.
pub fn is_blank(s: &str) -> (r: bool)
    ensures
        r == spec_blank(s@),
{
    let n = s.unicode_len();
    let mut i: usize = 0;
    while i < n
        invariant
            i <= n,
            n == s@.len(),
            forall|t: int| 0 <= t < i ==> is_space_char(#[trigger] s@[t]),
        decreases n - i,
    {
        let c = s.get_char(i);
        if !(c == ' ' || c == '\t' || c == '\n' || c == '\r' || c == '\u{b}' || c == '\u{c}') {
            return false;
        }
        i += 1;
    }
    true
}

/// The stable identifier of a fragment: the zero-based page index and the
/// milli-unit bounding-box position, so the same page region keeps its
/// identifier across re-extraction.
pub open spec fn spec_item_id(page_index: int, left_mu: int, top_mu: int) -> Seq<char> {
    "item_"@ + dec_rep(page_index as nat) + "_"@ + dec_rep_signed(left_mu) + "_"@
        + dec_rep_signed(top_mu)
}

/// Builds a fragment's stable identifier.
pub fn build_item_id(page_index: u64, left_mu: i64, top_mu: i64) -> (r: String)
    ensures
        r@ == spec_item_id(page_index as int, left_mu as int, top_mu as int),
{
    let mut s = String::new();
    s.append("item_");
    push_dec_u64(&mut s, page_index);
    s.append("_");
    push_dec_i64(&mut s, left_mu);
    s.append("_");
    push_dec_i64(&mut s, top_mu);
    proof {
        assert(s@ =~= spec_item_id(page_index as int, left_mu as int, top_mu as int));
    }
    s
}

/// A raw item the page keeps: it lies on the page, its bounding box is
/// present and within range, and its content is neither blank nor
/// oversized.
pub open spec fn spec_raw_accepted(raw: RawItem, page_index: int) -> bool {
    &&& raw.page == page_index + 1
    &&& raw.has_bbox
    &&& -MAX_COORD_MU <= raw.left <= MAX_COORD_MU
    &&& -MAX_COORD_MU <= raw.top <= MAX_COORD_MU
    &&& 0 <= raw.width <= MAX_COORD_MU
    &&& -MAX_COORD_MU <= raw.height <= MAX_COORD_MU
    &&& !spec_blank(raw.content@)
    &&& raw.content@.len() <= MAX_TEXT_LEN
}

/// The mathematical shadow of a document item, used to state exactly what
/// ingestion builds.
pub ghost struct ItemView {
    pub id: Seq<char>,
    pub left: int,
    pub top: int,
    pub width: int,
    pub height: int,
    pub content: Seq<char>,
    pub font_size: int,
    pub item_type: ItemType,
    pub bold: bool,
    pub italic: bool,
}

/// The shadow of a built document item.
pub open spec fn view_of_item(it: DocumentItem) -> ItemView {
    ItemView {
        id: it.id@,
        left: it.bbox.left as int,
        top: it.bbox.top as int,
        width: it.bbox.width as int,
        height: it.bbox.height as int,
        content: it.content@,
        font_size: it.font_size as int,
        item_type: it.item_type,
        bold: it.bold,
        italic: it.italic,
    }
}

/// The item an accepted raw item becomes: the derived identifier, the
/// height normalized to its absolute value, the default font substituted
/// for an unknown size and an oversized one clamped, the type tag mapped.
pub open spec fn spec_raw_view(raw: RawItem, page_index: int) -> ItemView {
    ItemView {
        id: spec_item_id(page_index, raw.left as int, raw.top as int),
        left: raw.left as int,
        top: raw.top as int,
        width: raw.width as int,
        height: if raw.height < 0 {
            -(raw.height as int)
        } else {
            raw.height as int
        },
        content: raw.content@,
        font_size: if raw.font_size <= 0 {
            INGEST_DEFAULT_FONT_MU as int
        } else if raw.font_size > MAX_COORD_MU {
            MAX_COORD_MU as int
        } else {
            raw.font_size as int
        },
        item_type: spec_item_type_of(raw.type_tag@),
        bold: raw.bold,
        italic: raw.italic,
    }
}

/// An identifier already occurs among the built views.
pub open spec fn spec_has_view_id(acc: Seq<ItemView>, id: Seq<char>) -> bool {
    exists|i: int| 0 <= i < acc.len() && (#[trigger] acc[i]).id == id
}

/// What one page's ingestion yields, walking the raw items in order:
/// each accepted item whose identifier is still fresh is appended, every
/// other one is dropped.
pub open spec fn spec_build_views(
    raws: Seq<RawItem>,
    page_index: int,
    acc: Seq<ItemView>,
) -> Seq<ItemView>
    decreases raws.len(),
{
    if raws.len() == 0 {
        acc
    } else {
        let r0 = raws[0];
        if spec_raw_accepted(r0, page_index) && !spec_has_view_id(
            acc,
            spec_item_id(page_index, r0.left as int, r0.top as int),
        ) {
            spec_build_views(
                raws.drop_first(),
                page_index,
                acc.push(spec_raw_view(r0, page_index)),
            )
        } else {
            spec_build_views(raws.drop_first(), page_index, acc)
        }
    }
}

/// An identifier already occurs among built items.
pub fn contains_item_id(items: &Vec<DocumentItem>, id: &String) -> (r: bool)
    ensures
        r == spec_has_view_id(items@.map_values(|it: DocumentItem| view_of_item(it)), id@),
{
    let n = items.len();
    let ghost views = items@.map_values(|it: DocumentItem| view_of_item(it));
    let mut i: usize = 0;
    while i < n
        invariant
            i <= n,
            n == items@.len(),
            views == items@.map_values(|it: DocumentItem| view_of_item(it)),
            forall|t: int| 0 <= t < i ==> (#[trigger] views[t]).id != id@,
        decreases n - i,
    {
        if items[i].id == *id {
            proof {
                assert(views[i as int].id == id@);
            }
            return true;
        }
        proof {
            assert(views[i as int].id == items@[i as int].id@);
        }
        i += 1;
    }
    false
}

/// Builds the items of one page from the raw extraction output: accepted
/// items in source order, the first occurrence of each identifier kept.
pub fn build_page_items(raws: &Vec<RawItem>, page_index: u64) -> (items: Vec<DocumentItem>)
    requires
        page_index < u64::MAX,
    ensures
        items@.map_values(|it: DocumentItem| view_of_item(it)) == spec_build_views(
            raws@,
            page_index as int,
            Seq::<ItemView>::empty(),
        ),
        forall|i: int| 0 <= i < items@.len() ==> (#[trigger] items@[i]).wf(),
        forall|i: int, j: int|
            0 <= i < j < items@.len() ==> items@[i].id@ != items@[j].id@,
{
    let n = raws.len();
    let mut items: Vec<DocumentItem> = Vec::new();
    let ghost viewfn = |it: DocumentItem| view_of_item(it);
    proof {
        assert(raws@.skip(0) =~= raws@);
        assert(items@.map_values(viewfn) =~= Seq::<ItemView>::empty());
    }
    let mut i: usize = 0;
    while i < n
        invariant
            i <= n,
            n == raws@.len(),
            page_index < u64::MAX,
            viewfn == (|it: DocumentItem| view_of_item(it)),
            spec_build_views(raws@, page_index as int, Seq::<ItemView>::empty())
                == spec_build_views(
                raws@.skip(i as int),
                page_index as int,
                items@.map_values(viewfn),
            ),
            forall|t: int| 0 <= t < items@.len() ==> (#[trigger] items@[t]).wf(),
            forall|a: int, b: int|
                0 <= a < b < items@.len() ==> items@[a].id@ != items@[b].id@,
        decreases n - i,
    {
        let raw = &raws[i];
        let ghost items0 = items@;
        let accepted = raw.page == page_index + 1 && raw.has_bbox && -MAX_COORD_MU <= raw.left
            && raw.left <= MAX_COORD_MU && -MAX_COORD_MU <= raw.top && raw.top <= MAX_COORD_MU
            && 0 <= raw.width && raw.width <= MAX_COORD_MU && -MAX_COORD_MU <= raw.height
            && raw.height <= MAX_COORD_MU && !is_blank(raw.content.as_str())
            && raw.content.as_str().unicode_len() <= MAX_TEXT_LEN;
        if accepted {
            let id = build_item_id(page_index, raw.left, raw.top);
            if !contains_item_id(&items, &id) {
                let height = if raw.height < 0 {
                    -raw.height
                } else {
                    raw.height
                };
                let font_size = if raw.font_size <= 0 {
                    INGEST_DEFAULT_FONT_MU
                } else if raw.font_size > MAX_COORD_MU {
                    MAX_COORD_MU
                } else {
                    raw.font_size
                };
                let item = DocumentItem {
                    id,
                    bbox: BoundingBox {
                        left: raw.left,
                        top: raw.top,
                        width: raw.width,
                        height,
                    },
                    content: raw.content.clone(),
                    font_size,
                    item_type: item_type_of(&raw.type_tag),
                    bold: raw.bold,
                    italic: raw.italic,
                };
                items.push(item);
                proof {
                    assert forall|a: int| 0 <= a < items0.len() implies items0[a].id@ != items@[
                        items0.len() as int].id@ by {
                        assert(items0.map_values(viewfn)[a] == viewfn(items0[a]));
                    }
                    assert(items@.map_values(viewfn) =~= items0.map_values(viewfn).push(
                        spec_raw_view(raws@[i as int], page_index as int),
                    ));
                }
            }
        }
        proof {
            assert(raws@.skip(i as int)[0] == raws@[i as int]);
            assert(raws@.skip(i as int).drop_first() =~= raws@.skip(i + 1));
        }
        i += 1;
    }
    proof {
        assert(raws@.skip(n as int) =~= Seq::<RawItem>::empty());
    }
    items
}

/// Builds a fresh render state for one page: the page's items, the search
/// results recomputed for them, and the carried-over view and editor
/// state folded in.
pub fn build_document_state(
    raws: &Vec<RawItem>,
    page_index: u64,
    zoom_pm: u32,
    pan: (i64, i64),
    search_query: &String,
    item_offsets: Vec<(String, (i64, i64))>,
    item_text_overrides: Vec<(String, String)>,
    editing_item: Option<String>,
) -> (r: DocumentState)
    requires
        page_index < u64::MAX,
        assoc_keys_unique(item_offsets@),
        assoc_keys_unique(item_text_overrides@),
        forall|i: int|
            0 <= i < item_offsets@.len() ==> {
                &&& -MAX_PAN_UPX <= (#[trigger] item_offsets@[i]).1.0 <= MAX_PAN_UPX
                &&& -MAX_PAN_UPX <= item_offsets@[i].1.1 <= MAX_PAN_UPX
            },
        forall|i: int|
            0 <= i < item_text_overrides@.len() ==> (#[trigger] item_text_overrides@[i]).1@.len()
                <= MAX_TEXT_LEN,
    ensures
        r.wf(),
        r.items@.map_values(|it: DocumentItem| view_of_item(it)) == spec_build_views(
            raws@,
            page_index as int,
            Seq::<ItemView>::empty(),
        ),
        r.page_size == (612_000i64, 792_000i64),
        r.zoom == crate::transform::spec_clamp_zoom(zoom_pm as int),
        r.offset.0 == crate::model::spec_clamp_pan(pan.0 as int),
        r.offset.1 == crate::model::spec_clamp_pan(pan.1 as int),
        r.search_query@ == search_query@,
        search_query@.len() == 0 ==> r.search_results@.len() == 0,
        search_query@.len() > 0 ==> r.search_results@.map_values(|s: String| s@)
            == r.items@.filter(
            |it: DocumentItem| crate::search::spec_is_match(it.content@, search_query@),
        ).map_values(|it: DocumentItem| it.id@),
        r.item_offsets == item_offsets,
        r.item_text_overrides == item_text_overrides,
        r.editing_item == editing_item,
        (r.selected_item is None),
        r.text_padding_factor == 1000u32,
        !r.edit_mode,
        (r.dragging_item is None),
        r.column_count == 1usize,
        r.column_boundaries@.len() == 0,
{
    let items = build_page_items(raws, page_index);
    let search_results = find_search_matches(search_query, &items);
    let r = DocumentState {
        items,
        page_size: (612_000, 792_000),
        zoom: crate::transform::clamp_zoom(zoom_pm),
        offset: (crate::model::clamp_pan(pan.0), crate::model::clamp_pan(pan.1)),
        selected_item: None,
        editing_item,
        search_query: search_query.clone(),
        search_results,
        item_offsets,
        item_text_overrides,
        text_padding_factor: 1000,
        edit_mode: false,
        dragging_item: None,
        column_count: 1,
        column_boundaries: Vec::new(),
    };
    proof {
        assert forall|i: int|
            0 <= i < r.search_results@.len() implies r.spec_ids().contains(
            (#[trigger] r.search_results@[i])@,
        ) by {
            assert(results_from_matching(r.search_results@, r.items@, search_query@));
            let j = choose|j: int|
                0 <= j < r.items@.len() && (#[trigger] r.search_results@[i])@ == r.items@[j].id@
                    && crate::search::spec_is_match(r.items@[j].content@, search_query@);
            assert(r.spec_ids()[j] == r.items@[j].id@);
        }
    }
    r
}

} // verus!
