//! Search matcher: case-insensitive substring match over item content.
//!
//! Matching is stated against `lower_of`, the name of what Unicode
//! lowercasing returns; the substring search itself is verified in full.
//! Matching always reads the immutable `content`, never a display-text
//! override.

use vstd::prelude::*;

use vstd::string::StrSliceExecFns;
use vstd::string::StringExecFns;

use crate::model::DocumentItem;
use crate::model::DocumentState;

verus! {

/// What Unicode lowercasing returns for a character sequence.
pub uninterp spec fn lower_of(s: Seq<char>) -> Seq<char>;

/// Relies on `str::to_lowercase`: the result is a function of the
/// characters alone, and lowercasing the empty string yields the empty
/// string.
#[verifier::external_body]
fn to_lower(s: &str) -> (r: String)
    ensures
        r@ == lower_of(s@),
        s@.len() == 0 ==> r@.len() == 0,
{
    s.to_lowercase()
}

/// The needle occurs in the haystack starting at position `i`.
pub open spec fn match_at(h: Seq<char>, n: Seq<char>, i: int) -> bool {
    &&& 0 <= i
    &&& i + n.len() <= h.len()
    &&& h.subrange(i, i + n.len() as int) == n
}

/// The needle occurs somewhere in the haystack.
pub open spec fn contains_sub(h: Seq<char>, n: Seq<char>) -> bool {
    exists|i: int| match_at(h, n, i)
}

/// An item matches a query when the lowercased content contains the
/// lowercased query as a substring.
pub open spec fn spec_is_match(content: Seq<char>, query: Seq<char>) -> bool {
    contains_sub(lower_of(content), lower_of(query))
}

/// Whether the needle occurs at exactly position `i` of the haystack.
fn match_range(h: &str, n: &str, i: usize) -> (r: bool)
    requires
        i + n@.len() <= h@.len(),
        h@.len() <= usize::MAX,
    ensures
        r == match_at(h@, n@, i as int),
{
    let nl = n.unicode_len();
    let mut j: usize = 0;
    while j < nl
        invariant
            j <= nl,
            nl == n@.len(),
            i + nl <= h@.len(),
            h@.len() <= usize::MAX,
            forall|t: int| 0 <= t < j ==> h@[i + t] == n@[t],
        decreases nl - j,
    {
        let hc = h.get_char(i + j);
        let nc = n.get_char(j);
        if hc != nc {
            proof {
                assert(h@.subrange(i as int, i + nl as int)[j as int] == h@[i + j]);
            }
            return false;
        }
        j += 1;
    }
    proof {
        assert(h@.subrange(i as int, i + nl as int) =~= n@);
    }
    true
}

/// Substring search, verified character by character.
pub fn str_contains(h: &str, n: &str) -> (r: bool)
    ensures
        r == contains_sub(h@, n@),
{
    let hl = h.unicode_len();
    let nl = n.unicode_len();
    if nl > hl {
        proof {
            assert forall|i: int| !match_at(h@, n@, i) by {}
        }
        return false;
    }
    if nl == 0 {
        proof {
            assert(h@.subrange(0, 0) =~= n@);
            assert(match_at(h@, n@, 0));
        }
        return true;
    }
    let last = hl - nl;
    let mut i: usize = 0;
    while i <= last
        invariant
            1 <= nl <= hl,
            hl == h@.len(),
            nl == n@.len(),
            last == hl - nl,
            i <= last + 1,
            forall|t: int| 0 <= t < i ==> !match_at(h@, n@, t),
        decreases last + 1 - i,
    {
        if match_range(h, n, i) {
            return true;
        }
        i += 1;
    }
    proof {
        assert forall|t: int| !match_at(h@, n@, t) by {
            if 0 <= t <= last {
                assert(!match_at(h@, n@, t));
            }
        }
    }
    false
}

/// Every returned identifier belongs to some item whose content matches
/// the query.
pub open spec fn results_from_matching(
    r: Seq<String>,
    items: Seq<DocumentItem>,
    query: Seq<char>,
) -> bool {
    forall|k: int|
        0 <= k < r.len() ==> exists|j: int|
            0 <= j < items.len() && (#[trigger] r[k])@ == items[j].id@ && spec_is_match(
                items[j].content@,
                query,
            )
}

/// The identifiers, in paint order, of exactly the items whose content
/// matches the query, case-insensitively; the empty query matches nothing.
pub fn find_search_matches(query: &String, items: &Vec<DocumentItem>) -> (r: Vec<String>)
    ensures
        query@.len() == 0 ==> r@.len() == 0,
        query@.len() > 0 ==> r@.map_values(|s: String| s@) == items@.filter(
            |it: DocumentItem| spec_is_match(it.content@, query@),
        ).map_values(|it: DocumentItem| it.id@),
        results_from_matching(r@, items@, query@),
{
    let mut r: Vec<String> = Vec::new();
    if query.as_str().unicode_len() == 0 {
        return r;
    }
    let lq = to_lower(query.as_str());
    let ghost pred = |it: DocumentItem| spec_is_match(it.content@, query@);
    let ghost getid = |it: DocumentItem| it.id@;
    let ghost getview = |s: String| s@;
    let n = items.len();
    let mut i: usize = 0;
    while i < n
        invariant
            i <= n,
            n == items@.len(),
            lq@ == lower_of(query@),
            r@.map_values(getview) == items@.take(i as int).filter(pred).map_values(getid),
            pred == (|it: DocumentItem| spec_is_match(it.content@, query@)),
            getid == (|it: DocumentItem| it.id@),
            getview == (|s: String| s@),
            results_from_matching(r@, items@, query@),
        decreases n - i,
    {
        let ghost r0 = r@;
        let lc = to_lower(items[i].content.as_str());
        let hit = str_contains(lc.as_str(), lq.as_str());
        if hit {
            r.push(items[i].id.clone());
        }
        proof {
            reveal_with_fuel(Seq::<_>::filter, 2);
            let prev = items@.take(i as int);
            let cur = items@.take(i + 1);
            assert(cur.drop_last() =~= prev);
            assert(cur.last() == items@[i as int]);
            if pred(items@[i as int]) {
                assert(cur.filter(pred) =~= prev.filter(pred).push(items@[i as int]));
                assert(r@.map_values(getview) =~= r0.map_values(getview).push(
                    items@[i as int].id@,
                ));
                assert(cur.filter(pred).map_values(getid) =~= prev.filter(pred).map_values(
                    getid,
                ).push(items@[i as int].id@));
            } else {
                assert(cur.filter(pred) =~= prev.filter(pred));
            }
            assert forall|k: int| 0 <= k < r@.len() implies exists|j: int|
                0 <= j < items@.len() && (#[trigger] r@[k])@ == items@[j].id@ && spec_is_match(
                    items@[j].content@,
                    query@,
                ) by {
                if k < r0.len() {
                    assert(r@[k] == r0[k]);
                    assert(results_from_matching(r0, items@, query@));
                } else {
                    let w = i as int;
                    assert(0 <= w < items@.len() && r@[k]@ == items@[w].id@ && spec_is_match(
                        items@[w].content@,
                        query@,
                    ));
                }
            }
            assert(results_from_matching(r@, items@, query@));
        }
        i += 1;
    }
    proof {
        assert(items@.take(n as int) =~= items@);
    }
    r
}

impl DocumentState {
    /// Sets the query and recomputes the search results against the
    /// current items, as the matcher's contract states; everything else in
    /// the state is untouched, and a well-formed state stays well formed.
    pub fn set_search_query(&mut self, query: String)
        ensures
            final(self).search_query == query,
            query@.len() == 0 ==> final(self).search_results@.len() == 0,
            query@.len() > 0 ==> final(self).search_results@.map_values(|s: String| s@)
                == old(self).items@.filter(
                |it: DocumentItem| spec_is_match(it.content@, query@),
            ).map_values(|it: DocumentItem| it.id@),
            results_from_matching(final(self).search_results@, old(self).items@, query@),
            *final(self) == (DocumentState {
                search_query: final(self).search_query,
                search_results: final(self).search_results,
                ..*old(self)
            }),
            old(self).wf() ==> final(self).wf(),
    {
        self.search_results = find_search_matches(&query, &self.items);
        self.search_query = query;
        proof {
            if old(self).wf() {
                assert forall|i: int|
                    0 <= i < self.search_results@.len() implies self.spec_ids().contains(
                    (#[trigger] self.search_results@[i])@,
                ) by {
                    let j = choose|j: int|
                        0 <= j < self.items@.len() && (#[trigger] self.search_results@[i])@
                            == self.items@[j].id@ && spec_is_match(
                            self.items@[j].content@,
                            self.search_query@,
                        );
                    assert(self.spec_ids()[j] == self.items@[j].id@);
                }
            }
        }
    }
}

} // verus!
