//! The item model: positioned text fragments and the per-frame render state.
//!
//! Per-item runtime overrides (manual screen-space nudges and user-edited
//! display text) are kept in association lists keyed by item identifier,
//! with unique keys.  `assoc_get` is the specification of lookup; the
//! executable helpers are proved against it.

use vstd::prelude::*;

use crate::MAX_COORD_MU;
use crate::MAX_PAN_UPX;
use crate::ZOOM_MAX_PM;
use crate::ZOOM_MIN_PM;

verus! {

/// The kind of a fragment, driving its font multiplier, color and
/// special-case rendering.
#[derive(Clone, Copy, PartialEq, Eq, Structural, Debug)]
pub enum ItemType {
    Text,
    Title,
    Header,
    Table,
    FormLabel,
    FormField,
    Checkbox,
}

/// A document-space rectangle in milli-units, top-left corner plus extent.
/// Heights arrive normalized: never negative.
#[derive(Clone, Copy, PartialEq, Eq, Structural, Debug)]
pub struct BoundingBox {
    pub left: i64,
    pub top: i64,
    pub width: i64,
    pub height: i64,
}

impl BoundingBox {
    /// Coordinates bounded for overflow-free transforms; extents normalized.
    pub open spec fn wf(self) -> bool {
        &&& -MAX_COORD_MU <= self.left <= MAX_COORD_MU
        &&& -MAX_COORD_MU <= self.top <= MAX_COORD_MU
        &&& 0 <= self.width <= MAX_COORD_MU
        &&& 0 <= self.height <= MAX_COORD_MU
    }
}

/// One positioned text fragment.
#[derive(Clone, Debug)]
pub struct DocumentItem {
    /// Stable identifier derived from the page index and the rounded
    /// bounding-box position.
    pub id: String,
    /// Document-space rectangle, in milli-units.
    pub bbox: BoundingBox,
    /// Immutable source text; display-text edits live in the state's
    /// override map instead.
    pub content: String,
    /// Font size in milli-units; zero or below means unknown.
    pub font_size: i64,
    pub item_type: ItemType,
    pub bold: bool,
    pub italic: bool,
}

impl DocumentItem {
    pub open spec fn wf(self) -> bool {
        &&& self.bbox.wf()
        &&& -MAX_COORD_MU <= self.font_size <= MAX_COORD_MU
        &&& self.content@.len() <= crate::MAX_TEXT_LEN
    }
}

/// First-match lookup in an association list, the specification of every
/// map-like access in the state.
pub open spec fn assoc_get<V>(m: Seq<(String, V)>, key: Seq<char>) -> Option<V>
    decreases m.len(),
{
    if m.len() == 0 {
        None
    } else if m[0].0@ == key {
        Some(m[0].1)
    } else {
        assoc_get(m.drop_first(), key)
    }
}

/// No two entries share a key.
pub open spec fn assoc_keys_unique<V>(m: Seq<(String, V)>) -> bool {
    forall|i: int, j: int| 0 <= i < j < m.len() ==> m[i].0@ != m[j].0@
}

/// First-match lookup returns the entry at the first index whose key
/// matches, and `None` exactly when no index matches.
pub proof fn lemma_assoc_get_at_first_match<V>(m: Seq<(String, V)>, key: Seq<char>, i: int)
    requires
        0 <= i < m.len(),
        m[i].0@ == key,
        forall|j: int| 0 <= j < i ==> m[j].0@ != key,
    ensures
        assoc_get(m, key) == Some(m[i].1),
    decreases m.len(),
{
    if i > 0 {
        lemma_assoc_get_at_first_match(m.drop_first(), key, i - 1);
    }
}

/// When no entry carries the key, lookup yields `None`.
pub proof fn lemma_assoc_get_none<V>(m: Seq<(String, V)>, key: Seq<char>)
    requires
        forall|j: int| 0 <= j < m.len() ==> m[j].0@ != key,
    ensures
        assoc_get(m, key) is None,
    decreases m.len(),
{
    if m.len() > 0 {
        lemma_assoc_get_none(m.drop_first(), key);
    }
}

/// A successful lookup returns the value of some entry carrying the key.
pub proof fn lemma_assoc_get_is_entry<V>(m: Seq<(String, V)>, key: Seq<char>)
    ensures
        match assoc_get(m, key) {
            Some(v) => exists|i: int|
                0 <= i < m.len() && (#[trigger] m[i]).0@ == key && m[i].1 == v,
            None => true,
        },
    decreases m.len(),
{
    if m.len() > 0 && m[0].0@ != key {
        lemma_assoc_get_is_entry(m.drop_first(), key);
        if assoc_get(m, key) is Some {
            let j = choose|j: int|
                0 <= j < m.drop_first().len() && (#[trigger] m.drop_first()[j]).0@ == key
                    && m.drop_first()[j].1 == assoc_get(m.drop_first(), key)->Some_0;
            assert(m[j + 1] == m.drop_first()[j]);
        }
    }
}

/// Replacing the value at a first-match index updates that key's lookup and
/// leaves every other key's lookup unchanged.
pub proof fn lemma_assoc_get_update<V>(m: Seq<(String, V)>, i: int, e: (String, V))
    requires
        0 <= i < m.len(),
        e.0@ == m[i].0@,
        forall|j: int| 0 <= j < i ==> m[j].0@ != m[i].0@,
    ensures
        assoc_get(m.update(i, e), m[i].0@) == Some(e.1),
        forall|k: Seq<char>|
            k != m[i].0@ ==> assoc_get(m.update(i, e), k) == assoc_get(m, k),
    decreases m.len(),
{
    let m2 = m.update(i, e);
    if i == 0 {
        assert(m2[0] == e);
        assert(m2.drop_first() =~= m.drop_first());
        assert forall|k: Seq<char>| k != m[i].0@ implies assoc_get(m2, k) == assoc_get(m, k) by {
            assert(assoc_get(m2, k) == assoc_get(m2.drop_first(), k));
            assert(assoc_get(m, k) == assoc_get(m.drop_first(), k));
        }
    } else {
        lemma_assoc_get_update(m.drop_first(), i - 1, e);
        assert(m2[0] == m[0]);
        assert(m2.drop_first() =~= m.drop_first().update(i - 1, e));
        assert(m.drop_first()[i - 1] == m[i]);
        assert(m[0].0@ != m[i].0@);
        assert(assoc_get(m2, m[i].0@) == assoc_get(m2.drop_first(), m[i].0@));
        assert forall|k: Seq<char>| k != m[i].0@ implies assoc_get(m2, k) == assoc_get(m, k) by {
            if m[0].0@ != k {
                assert(assoc_get(m2, k) == assoc_get(m2.drop_first(), k));
                assert(assoc_get(m, k) == assoc_get(m.drop_first(), k));
            }
        }
    }
}

/// Appending a fresh entry adds its key's lookup and leaves every other
/// key's lookup unchanged.
pub proof fn lemma_assoc_get_push<V>(m: Seq<(String, V)>, e: (String, V))
    requires
        forall|j: int| 0 <= j < m.len() ==> m[j].0@ != e.0@,
    ensures
        assoc_get(m.push(e), e.0@) == Some(e.1),
        forall|k: Seq<char>| k != e.0@ ==> assoc_get(m.push(e), k) == assoc_get(m, k),
    decreases m.len(),
{
    let m2 = m.push(e);
    if m.len() == 0 {
        assert(m2[0] == e);
        assert forall|k: Seq<char>| k != e.0@ implies assoc_get(m2, k) == assoc_get(m, k) by {
            assert(m2.drop_first() =~= Seq::<(String, V)>::empty());
            assert(assoc_get(m2, k) == assoc_get(m2.drop_first(), k));
        }
    } else {
        lemma_assoc_get_push(m.drop_first(), e);
        assert(m2[0] == m[0]);
        assert(m2.drop_first() =~= m.drop_first().push(e));
        assert(m[0].0@ != e.0@);
        assert(assoc_get(m2, e.0@) == assoc_get(m2.drop_first(), e.0@));
        assert forall|k: Seq<char>| k != e.0@ implies assoc_get(m2, k) == assoc_get(m, k) by {
            if m[0].0@ != k {
                assert(assoc_get(m2, k) == assoc_get(m2.drop_first(), k));
                assert(assoc_get(m, k) == assoc_get(m.drop_first(), k));
            }
        }
    }
}

/// Finds the first entry with the given key.
pub fn assoc_find<V>(m: &Vec<(String, V)>, key: &String) -> (r: Option<usize>)
    ensures
        match r {
            Some(i) => {
                &&& i < m@.len()
                &&& m@[i as int].0@ == key@
                &&& forall|j: int| 0 <= j < i ==> m@[j].0@ != key@
                &&& assoc_get(m@, key@) == Some(m@[i as int].1)
            },
            None => {
                &&& forall|j: int| 0 <= j < m@.len() ==> m@[j].0@ != key@
                &&& assoc_get(m@, key@) is None
            },
        },
{
    let n = m.len();
    let mut i: usize = 0;
    while i < n
        invariant
            i <= n,
            n == m@.len(),
            forall|j: int| 0 <= j < i ==> m@[j].0@ != key@,
        decreases n - i,
    {
        if m[i].0 == *key {
            proof {
                lemma_assoc_get_at_first_match(m@, key@, i as int);
            }
            return Some(i);
        }
        i += 1;
    }
    proof {
        lemma_assoc_get_none(m@, key@);
    }
    None
}

/// Looks a key up, returning a reference to its value.
pub fn assoc_lookup<'a, V>(m: &'a Vec<(String, V)>, key: &String) -> (r: Option<&'a V>)
    ensures
        match r {
            Some(v) => assoc_get(m@, key@) == Some(*v),
            None => assoc_get(m@, key@) is None,
        },
{
    match assoc_find(m, key) {
        Some(i) => Some(&m[i].1),
        None => None,
    }
}

/// Binds a key to a value: replaces the first matching entry, or appends a
/// new one.  Every other key's binding is untouched.
pub fn assoc_set<V>(m: &mut Vec<(String, V)>, key: &String, value: V)
    requires
        old(m)@.len() < usize::MAX,
    ensures
        assoc_get(final(m)@, key@) == Some(value),
        forall|k: Seq<char>| k != key@ ==> assoc_get(final(m)@, k) == assoc_get(old(m)@, k),
        assoc_keys_unique(old(m)@) ==> assoc_keys_unique(final(m)@),
        final(m)@.len() <= old(m)@.len() + 1,
{
    match assoc_find(m, key) {
        Some(i) => {
            let ghost m0 = m@;
            m[i] = (key.clone(), value);
            proof {
                assert(m@ =~= m0.update(i as int, (*key, value)));
                lemma_assoc_get_update(m0, i as int, (*key, value));
                if assoc_keys_unique(m0) {
                    assert forall|a: int, b: int|
                        0 <= a < b < m@.len() implies m@[a].0@ != m@[b].0@ by {
                        assert(m@[a].0@ == m0[a].0@);
                        assert(m@[b].0@ == m0[b].0@);
                        assert(m0[a].0@ != m0[b].0@);
                    }
                }
            }
        },
        None => {
            let ghost m0 = m@;
            m.push((key.clone(), value));
            proof {
                lemma_assoc_get_push(m0, (*key, value));
            }
        },
    }
}

/// One frame's render input: the item sequence in paint order plus the view
/// and editor state layered over it.
#[derive(Debug)]
pub struct DocumentState {
    /// Paint order; later items paint over earlier ones and win hit-tests.
    pub items: Vec<DocumentItem>,
    /// Reference page size in milli-units, used for the fit scale.
    pub page_size: (i64, i64),
    /// User zoom, per-mille, clamped.
    pub zoom: u32,
    /// Pan offset in micro-pixels, applied on top of the fixed margin.
    pub offset: (i64, i64),
    pub selected_item: Option<String>,
    pub editing_item: Option<String>,
    pub search_query: String,
    /// Identifiers of the items whose content matches the query.
    pub search_results: Vec<String>,
    /// Per-item manual screen-space nudge in micro-pixels, additive after
    /// the transform.
    pub item_offsets: Vec<(String, (i64, i64))>,
    /// User-edited display text, layered over `content` without mutating it.
    pub item_text_overrides: Vec<(String, String)>,
    /// Multiplier for the hit-rect padding, per-mille.
    pub text_padding_factor: u32,
    pub edit_mode: bool,
    pub dragging_item: Option<String>,
    pub column_count: usize,
    /// Document-space x coordinates of column separator guides, milli-units.
    pub column_boundaries: Vec<i64>,
}

impl DocumentState {
    /// The identifier sequence of the items, in paint order.
    pub open spec fn spec_ids(self) -> Seq<Seq<char>> {
        self.items@.map_values(|it: DocumentItem| it.id@)
    }

    /// Structural invariant: items well formed with unique identifiers, the
    /// view parameters in their clamped ranges, the override maps keyed
    /// uniquely, and every search result the identifier of some item.
    pub open spec fn wf(self) -> bool {
        &&& forall|i: int| 0 <= i < self.items@.len() ==> (#[trigger] self.items@[i]).wf()
        &&& forall|i: int, j: int|
            0 <= i < j < self.items@.len() ==> self.items@[i].id@ != self.items@[j].id@
        &&& 1000 <= self.page_size.0 <= MAX_COORD_MU
        &&& 1000 <= self.page_size.1 <= MAX_COORD_MU
        &&& ZOOM_MIN_PM <= self.zoom <= ZOOM_MAX_PM
        &&& -MAX_PAN_UPX <= self.offset.0 <= MAX_PAN_UPX
        &&& -MAX_PAN_UPX <= self.offset.1 <= MAX_PAN_UPX
        &&& assoc_keys_unique(self.item_offsets@)
        &&& assoc_keys_unique(self.item_text_overrides@)
        &&& forall|i: int|
            0 <= i < self.item_offsets@.len() ==> {
                &&& -MAX_PAN_UPX <= (#[trigger] self.item_offsets@[i]).1.0 <= MAX_PAN_UPX
                &&& -MAX_PAN_UPX <= self.item_offsets@[i].1.1 <= MAX_PAN_UPX
            }
        &&& forall|i: int|
            0 <= i < self.item_text_overrides@.len() ==> (
            #[trigger] self.item_text_overrides@[i]).1@.len() <= crate::MAX_TEXT_LEN
        &&& forall|i: int|
            0 <= i < self.search_results@.len() ==> self.spec_ids().contains(
                (#[trigger] self.search_results@[i])@,
            )
        &&& forall|i: int|
            0 <= i < self.column_boundaries@.len() ==> -MAX_COORD_MU <= (
            #[trigger] self.column_boundaries@[i]) <= MAX_COORD_MU
    }

    /// The text an item displays and copies: the override when one is set,
    /// else the immutable content.
    pub open spec fn spec_effective_text(self, item: DocumentItem) -> Seq<char> {
        match assoc_get(self.item_text_overrides@, item.id@) {
            Some(t) => t@,
            None => item.content@,
        }
    }

    /// The screen-space nudge applied to an item after the transform.
    pub open spec fn spec_item_offset(self, id: Seq<char>) -> (int, int) {
        match assoc_get(self.item_offsets@, id) {
            Some(d) => (d.0 as int, d.1 as int),
            None => (0, 0),
        }
    }

    /// Returns the display text of an item: its override when set, else its
    /// content.
    pub fn effective_text<'a>(&'a self, item: &'a DocumentItem) -> (r: &'a String)
        ensures
            r@ == self.spec_effective_text(*item),
    {
        match assoc_lookup(&self.item_text_overrides, &item.id) {
            Some(t) => t,
            None => &item.content,
        }
    }

    /// Returns an item's manual nudge, zero when none is stored.
    pub fn item_offset_of(&self, id: &String) -> (r: (i64, i64))
        ensures
            (r.0 as int, r.1 as int) == self.spec_item_offset(id@),
    {
        match assoc_lookup(&self.item_offsets, id) {
            Some(d) => *d,
            None => (0, 0),
        }
    }

    /// Stores a manual screen-space nudge for one item; no other item's
    /// nudge, and nothing else in the state, changes.
    pub fn set_item_offset(&mut self, id: &String, dx: i64, dy: i64)
        requires
            old(self).item_offsets@.len() < usize::MAX,
        ensures
            final(self).spec_item_offset(id@) == (dx as int, dy as int),
            forall|k: Seq<char>|
                k != id@ ==> final(self).spec_item_offset(k) == old(self).spec_item_offset(k),
            *final(self) == (DocumentState {
                item_offsets: final(self).item_offsets,
                ..*old(self)
            }),
            assoc_keys_unique(old(self).item_offsets@) ==> assoc_keys_unique(
                final(self).item_offsets@,
            ),
    {
        assoc_set(&mut self.item_offsets, id, (dx, dy));
    }

    /// Stores a display-text override for one item; the item's content,
    /// every other override, and everything else in the state are
    /// untouched.
    pub fn set_item_override_text(&mut self, id: &String, text: String)
        requires
            old(self).item_text_overrides@.len() < usize::MAX,
        ensures
            assoc_get(final(self).item_text_overrides@, id@) == Some(text),
            forall|k: Seq<char>|
                k != id@ ==> assoc_get(final(self).item_text_overrides@, k) == assoc_get(
                    old(self).item_text_overrides@,
                    k,
                ),
            *final(self) == (DocumentState {
                item_text_overrides: final(self).item_text_overrides,
                ..*old(self)
            }),
            assoc_keys_unique(old(self).item_text_overrides@) ==> assoc_keys_unique(
                final(self).item_text_overrides@,
            ),
    {
        assoc_set(&mut self.item_text_overrides, id, text);
    }

    /// Discards every stored nudge and display-text override; everything
    /// else in the state stays.
    pub fn clear_overrides(&mut self)
        ensures
            final(self).item_offsets@.len() == 0,
            final(self).item_text_overrides@.len() == 0,
            *final(self) == (DocumentState {
                item_offsets: final(self).item_offsets,
                item_text_overrides: final(self).item_text_overrides,
                ..*old(self)
            }),
            forall|it: DocumentItem|
                final(self).spec_effective_text(it) == it.content@,
            forall|k: Seq<char>| final(self).spec_item_offset(k) == (0int, 0int),
            old(self).wf() ==> final(self).wf(),
    {
        self.item_offsets.clear();
        self.item_text_overrides.clear();
    }

    /// Sets the zoom, clamped into the supported range; everything else in
    /// the state stays, and a well-formed state stays well formed.
    pub fn set_zoom(&mut self, zoom_pm: u32)
        ensures
            *final(self) == (DocumentState {
                zoom: crate::transform::spec_clamp_zoom(zoom_pm as int) as u32,
                ..*old(self)
            }),
            old(self).wf() ==> final(self).wf(),
    {
        self.zoom = crate::transform::clamp_zoom(zoom_pm);
    }

    /// Sets the pan offset, clamped into the supported magnitude;
    /// everything else in the state stays, and a well-formed state stays
    /// well formed.
    pub fn set_pan(&mut self, dx: i64, dy: i64)
        ensures
            *final(self) == (DocumentState {
                offset: (spec_clamp_pan(dx as int) as i64, spec_clamp_pan(dy as int) as i64),
                ..*old(self)
            }),
            old(self).wf() ==> final(self).wf(),
    {
        self.offset = (clamp_pan(dx), clamp_pan(dy));
    }
}

/// A pan component clamped into the supported magnitude.
pub open spec fn spec_clamp_pan(v: int) -> int {
    if v < -MAX_PAN_UPX {
        -MAX_PAN_UPX as int
    } else if v > MAX_PAN_UPX {
        MAX_PAN_UPX as int
    } else {
        v
    }
}

/// Clamps a pan component.
pub fn clamp_pan(v: i64) -> (r: i64)
    ensures
        r == spec_clamp_pan(v as int),
        -MAX_PAN_UPX <= r <= MAX_PAN_UPX,
{
    if v < -MAX_PAN_UPX {
        -MAX_PAN_UPX
    } else if v > MAX_PAN_UPX {
        MAX_PAN_UPX
    } else {
        v
    }
}

impl Default for DocumentState {
    /// The empty state: no items, a US-Letter reference page, unit zoom, no
    /// pan, no overrides, a single column.
    fn default() -> (r: Self)
        ensures
            r.items@.len() == 0,
            r.page_size == (612_000i64, 792_000i64),
            r.zoom == 1000u32,
            r.offset == (0i64, 0i64),
            r.selected_item is None,
            r.editing_item is None,
            r.search_query@ == Seq::<char>::empty(),
            r.search_results@.len() == 0,
            r.item_offsets@.len() == 0,
            r.item_text_overrides@.len() == 0,
            r.text_padding_factor == 1000u32,
            !r.edit_mode,
            r.dragging_item is None,
            r.column_count == 1usize,
            r.column_boundaries@.len() == 0,
            r.wf(),
    {
        DocumentState {
            items: Vec::new(),
            page_size: (612_000, 792_000),
            zoom: 1000,
            offset: (0, 0),
            selected_item: None,
            editing_item: None,
            search_query: String::new(),
            search_results: Vec::new(),
            item_offsets: Vec::new(),
            item_text_overrides: Vec::new(),
            text_padding_factor: 1000,
            edit_mode: false,
            dragging_item: None,
            column_count: 1,
            column_boundaries: Vec::new(),
        }
    }
}

} // verus!
