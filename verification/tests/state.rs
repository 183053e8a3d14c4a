//! Item model, ingestion and search matcher checks.

use chonker3::ingest::{build_document_state, build_item_id, build_page_items, RawItem};
use chonker3::model::{DocumentItem, DocumentState, ItemType};
use chonker3::search::{find_search_matches, str_contains};

fn raw(page: u64, left: i64, top: i64, content: &str, tag: &str) -> RawItem {
    RawItem {
        page,
        has_bbox: true,
        left,
        top,
        width: 200_000,
        height: 20_000,
        content: content.to_string(),
        type_tag: tag.to_string(),
        font_size: 12_000,
        bold: false,
        italic: false,
    }
}

fn item(id: &str, content: &str) -> DocumentItem {
    DocumentItem {
        id: id.to_string(),
        bbox: chonker3::model::BoundingBox { left: 72_000, top: 72_000, width: 200_000, height: 20_000 },
        content: content.to_string(),
        font_size: 12_000,
        item_type: ItemType::Text,
        bold: false,
        italic: false,
    }
}

#[test]
fn item_ids_are_stable_and_page_scoped() {
    assert_eq!(build_item_id(0, 72_000, 72_000), "item_0_72000_72000");
    assert_eq!(build_item_id(3, -1_500, 0), "item_3_-1500_0");
}

#[test]
fn ingestion_keeps_only_the_page_and_drops_malformed() {
    let raws = vec![
        raw(1, 72_000, 72_000, "Hello World", "TextItem"),
        raw(2, 10_000, 10_000, "other page", "TextItem"),
        raw(1, 20_000, 30_000, "   \t\n", "TextItem"),
        RawItem { has_bbox: false, ..raw(1, 1, 1, "no box", "TextItem") },
        raw(1, 40_000, 50_000, "Titled", "TitleItem"),
    ];
    let items = build_page_items(&raws, 0);
    assert_eq!(items.len(), 2);
    assert_eq!(items[0].id, "item_0_72000_72000");
    assert_eq!(items[0].content, "Hello World");
    assert!(matches!(items[0].item_type, ItemType::Text));
    assert_eq!(items[1].id, "item_0_40000_50000");
    assert!(matches!(items[1].item_type, ItemType::Title));
}

#[test]
fn ingestion_normalizes_height_and_font() {
    let mut negative = raw(1, 1_000, 2_000, "flip", "TableItem");
    negative.height = -30_000;
    negative.font_size = 0;
    let items = build_page_items(&vec![negative], 0);
    assert_eq!(items[0].bbox.height, 30_000);
    assert_eq!(items[0].font_size, 12_000);
    assert!(matches!(items[0].item_type, ItemType::Table));
}

#[test]
fn ingestion_deduplicates_identifiers_keeping_the_first() {
    let raws = vec![
        raw(1, 72_000, 72_000, "first", "TextItem"),
        raw(1, 72_000, 72_000, "second", "TextItem"),
    ];
    let items = build_page_items(&raws, 0);
    assert_eq!(items.len(), 1);
    assert_eq!(items[0].content, "first");
}

#[test]
fn type_tags_map_to_item_types() {
    let tags = [
        ("TitleItem", ItemType::Title),
        ("SectionHeaderItem", ItemType::Header),
        ("TableItem", ItemType::Table),
        ("TextItem", ItemType::Text),
        ("anything", ItemType::Text),
    ];
    for (tag, expect) in tags {
        let items = build_page_items(&vec![raw(1, 1_000, 1_000, "c", tag)], 0);
        assert_eq!(items[0].item_type, expect);
    }
}

#[test]
fn build_document_state_recomputes_search_and_keeps_overrides() {
    let raws = vec![
        raw(1, 72_000, 72_000, "Hello World", "TextItem"),
        raw(1, 10_000, 20_000, "Goodbye", "TextItem"),
    ];
    let offsets = vec![("item_0_72000_72000".to_string(), (10_000_000i64, -5_000_000i64))];
    let overrides = vec![("item_0_72000_72000".to_string(), "Edited".to_string())];
    let state = build_document_state(
        &raws,
        0,
        9_999,
        (1, 2),
        &"hello".to_string(),
        offsets,
        overrides,
        None,
    );
    assert_eq!(state.items.len(), 2);
    assert_eq!(state.zoom, 3000);
    assert_eq!(state.offset, (1, 2));
    // Search matches content, case-insensitively, ignoring the override.
    assert_eq!(state.search_results, vec!["item_0_72000_72000".to_string()]);
    assert_eq!(state.item_offsets.len(), 1);
    assert_eq!(state.item_text_overrides.len(), 1);
}

#[test]
fn search_empty_query_matches_nothing() {
    let items = vec![item("a", "Hello"), item("b", "World")];
    let r = find_search_matches(&String::new(), &items);
    assert!(r.is_empty());
}

#[test]
fn search_is_case_insensitive_substring_on_content() {
    let items = vec![
        item("a", "Hello World"),
        item("b", "HELLOWEEN"),
        item("c", "nothing here"),
    ];
    let r = find_search_matches(&"hello".to_string(), &items);
    assert_eq!(r, vec!["a".to_string(), "b".to_string()]);
    let r2 = find_search_matches(&"WORLD".to_string(), &items);
    assert_eq!(r2, vec!["a".to_string()]);
    let r3 = find_search_matches(&"zebra".to_string(), &items);
    assert!(r3.is_empty());
}

#[test]
fn search_ignores_overrides() {
    let mut state = DocumentState::default();
    state.items = vec![item("a", "Hello")];
    state.set_item_override_text(&"a".to_string(), "replaced".to_string());
    let r = find_search_matches(&"hello".to_string(), &state.items);
    assert_eq!(r, vec!["a".to_string()]);
    let r2 = find_search_matches(&"replaced".to_string(), &state.items);
    assert!(r2.is_empty());
}

#[test]
fn substring_search_is_exact() {
    assert!(str_contains("hello world", "o w"));
    assert!(str_contains("hello", ""));
    assert!(str_contains("", ""));
    assert!(!str_contains("", "a"));
    assert!(!str_contains("abc", "abcd"));
    assert!(str_contains("aaab", "aab"));
}

#[test]
fn effective_text_prefers_the_override() {
    let mut state = DocumentState::default();
    let it = item("a", "original");
    state.items = vec![it.clone()];
    assert_eq!(state.effective_text(&it), "original");
    state.set_item_override_text(&"a".to_string(), "edited".to_string());
    assert_eq!(state.effective_text(&it), "edited");
    state.clear_overrides();
    assert_eq!(state.effective_text(&it), "original");
}

#[test]
fn item_offsets_are_per_item() {
    let mut state = DocumentState::default();
    state.set_item_offset(&"a".to_string(), 5, -7);
    state.set_item_offset(&"b".to_string(), 1, 1);
    assert_eq!(state.item_offset_of(&"a".to_string()), (5, -7));
    assert_eq!(state.item_offset_of(&"b".to_string()), (1, 1));
    assert_eq!(state.item_offset_of(&"c".to_string()), (0, 0));
    state.set_item_offset(&"a".to_string(), 9, 9);
    assert_eq!(state.item_offset_of(&"a".to_string()), (9, 9));
    assert_eq!(state.item_offsets.len(), 2);
}

#[test]
fn default_state_matches_the_reference_page() {
    let state = DocumentState::default();
    assert_eq!(state.page_size, (612_000, 792_000));
    assert_eq!(state.zoom, 1000);
    assert_eq!(state.offset, (0, 0));
    assert!(state.items.is_empty());
    assert_eq!(state.column_count, 1);
    assert_eq!(state.text_padding_factor, 1000);
}

#[test]
fn set_search_query_recomputes_results() {
    let mut state = DocumentState::default();
    state.items = vec![item("a", "Hello World"), item("b", "Goodbye")];
    state.set_search_query("WORLD".to_string());
    assert_eq!(state.search_query, "WORLD");
    assert_eq!(state.search_results, vec!["a".to_string()]);
    state.set_search_query(String::new());
    assert!(state.search_results.is_empty());
}

#[test]
fn view_setters_clamp() {
    let mut state = DocumentState::default();
    state.set_zoom(50_000);
    assert_eq!(state.zoom, 3000);
    state.set_zoom(1);
    assert_eq!(state.zoom, 500);
    state.set_pan(i64::MAX, i64::MIN);
    assert_eq!(state.offset.0, 1_000_000_000_000_000);
    assert_eq!(state.offset.1, -1_000_000_000_000_000);
}
