//! Case-insensitive substring filtering of item titles.
//!
//! A title satisfies the filter when the lowercased filter text occurs as a
//! contiguous substring of the lowercased title; the empty filter matches
//! every title.  The filtered view of an item sequence is the sequence of
//! original indices of the matching items, in their original order.

use vstd::prelude::*;
use vstd::string::StrSliceExecFns;
use crate::item::Item;

verus! {

/// Abstract result of Unicode-lowercasing a character sequence.
pub uninterp spec fn lower_of(s: Seq<char>) -> Seq<char>;

/// Relies on `str::to_lowercase` of std: the returned string is the Unicode
/// lowercase of the input, a function of the input characters alone, and an
/// empty input yields an empty result.
#[verifier::external_body]
fn lowercase(s: &str) -> (r: String)
    ensures
        r@ == lower_of(s@),
        s@.len() == 0 ==> r@.len() == 0,
{
    s.to_lowercase()
}

/// `sub` occurs in `s` starting at position `i`.
pub open spec fn contains_at(s: Seq<char>, sub: Seq<char>, i: int) -> bool {
    0 <= i && i + sub.len() <= s.len() && s.subrange(i, i + sub.len() as int) == sub
}

/// `sub` occurs somewhere in `s` as a contiguous substring.
pub open spec fn contains_seq(s: Seq<char>, sub: Seq<char>) -> bool {
    exists|i: int| contains_at(s, sub, i)
}

/// A title satisfies the filter when the lowercased filter occurs in the
/// lowercased title.
pub open spec fn spec_title_matches(title: Seq<char>, filter: Seq<char>) -> bool {
    contains_seq(lower_of(title), lower_of(filter))
}

/// `sub` occurs in `s` at position `i`, decided character by character.
fn matches_at(s: &str, sub: &str, i: usize) -> (b: bool)
    requires
        i + sub@.len() <= s@.len(),
    ensures
        b == contains_at(s@, sub@, i as int),
{
    let n = s.unicode_len();
    let m = sub.unicode_len();
    let mut j: usize = 0;
    while j < m
        invariant
            n == s@.len(),
            m == sub@.len(),
            i + m <= n,
            j <= m,
            forall|k: int| 0 <= k < j ==> s@[i + k] == sub@[k],
        decreases m - j,
    {
        if s.get_char(i + j) != sub.get_char(j) {
            proof {
                assert(s@.subrange(i as int, i + sub@.len() as int) != sub@) by {
                    if s@.subrange(i as int, i + sub@.len() as int) == sub@ {
                        assert(s@.subrange(i as int, i + sub@.len() as int)[j as int] == s@[i + j]);
                    }
                }
            }
            return false;
        }
        j += 1;
    }
    proof {
        assert(s@.subrange(i as int, i + sub@.len() as int) =~= sub@);
    }
    true
}

/// Substring containment over whole strings: true exactly when `sub` occurs
/// somewhere in `s`.
pub fn contains_str(s: &str, sub: &str) -> (b: bool)
    ensures
        b == contains_seq(s@, sub@),
{
    let n = s.unicode_len();
    let m = sub.unicode_len();
    if m == 0 {
        proof {
            assert(s@.subrange(0, 0) =~= sub@);
            assert(contains_at(s@, sub@, 0));
        }
        return true;
    }
    if m > n {
        proof {
            assert forall|i: int| !contains_at(s@, sub@, i) by {}
        }
        return false;
    }
    let mut i: usize = 0;
    while i <= n - m
        invariant
            n == s@.len(),
            m == sub@.len(),
            1 <= m <= n,
            i <= n - m + 1,
            forall|k: int| 0 <= k < i ==> !contains_at(s@, sub@, k),
        decreases n - m + 1 - i,
    {
        if matches_at(s, sub, i) {
            proof {
                assert(contains_at(s@, sub@, i as int));
            }
            return true;
        }
        i += 1;
    }
    proof {
        assert forall|k: int| !contains_at(s@, sub@, k) by {
            if contains_at(s@, sub@, k) {
                assert(0 <= k <= n - m);
            }
        }
    }
    false
}

/// One item passes the filter: case-insensitive substring containment.
pub fn title_matches(title: &str, filter: &str) -> (b: bool)
    ensures
        b == spec_title_matches(title@, filter@),
{
    let lowered_title = lowercase(title);
    let lowered_filter = lowercase(filter);
    contains_str(lowered_title.as_str(), lowered_filter.as_str())
}

/// The original indices of the items whose titles satisfy the filter, in
/// their original order.
pub open spec fn filtered_indices(items: Seq<Item>, filter: Seq<char>) -> Seq<int>
    decreases items.len(),
{
    if items.len() == 0 {
        Seq::empty()
    } else {
        let prefix = filtered_indices(items.drop_last(), filter);
        if spec_title_matches(items.last().title@, filter) {
            prefix.push(items.len() - 1)
        } else {
            prefix
        }
    }
}

/// Extending the item sequence by one item extends the filtered view by that
/// item's index exactly when its title matches.
proof fn lemma_filtered_indices_take_step(items: Seq<Item>, filter: Seq<char>, k: int)
    requires
        0 <= k < items.len(),
    ensures
        filtered_indices(items.take(k + 1), filter) == (if spec_title_matches(
            items[k].title@,
            filter,
        ) {
            filtered_indices(items.take(k), filter).push(k)
        } else {
            filtered_indices(items.take(k), filter)
        }),
{
    let s = items.take(k + 1);
    assert(s.drop_last() =~= items.take(k));
    assert(s.last() == items[k]);
}

/// The filtered view holds exactly the indices of the items whose titles
/// satisfy the filter, each within bounds, in strictly increasing order.
pub proof fn lemma_filtered_indices_characterization(items: Seq<Item>, filter: Seq<char>)
    ensures
        forall|j: int|
            0 <= j < filtered_indices(items, filter).len() ==> 0 <= #[trigger] filtered_indices(
                items,
                filter,
            )[j] < items.len() && spec_title_matches(
                items[filtered_indices(items, filter)[j]].title@,
                filter,
            ),
        forall|i: int|
            0 <= i < items.len() ==> (spec_title_matches(items[i].title@, filter)
                <==> filtered_indices(items, filter).contains(i)),
        forall|j: int, k: int|
            0 <= j < k < filtered_indices(items, filter).len() ==> filtered_indices(
                items,
                filter,
            )[j] < filtered_indices(items, filter)[k],
    decreases items.len(),
{
    if items.len() > 0 {
        lemma_filtered_indices_characterization(items.drop_last(), filter);
        let prefix = filtered_indices(items.drop_last(), filter);
        let whole = filtered_indices(items, filter);
        let last = items.len() - 1;
        assert(forall|i: int| 0 <= i < last ==> items.drop_last()[i] == items[i]);
        assert forall|i: int|
            0 <= i < items.len() && spec_title_matches(items[i].title@, filter) implies whole
            .contains(i) by {
            if i < last {
                assert(prefix.contains(i));
                let j = choose|j: int| 0 <= j < prefix.len() && prefix[j] == i;
                assert(whole[j] == i);
            } else {
                assert(whole.last() == i);
            }
        }
        assert forall|i: int|
            0 <= i < items.len() && whole.contains(i) implies spec_title_matches(
            items[i].title@,
            filter,
        ) by {
            let j = choose|j: int| 0 <= j < whole.len() && whole[j] == i;
            if j < prefix.len() {
                assert(prefix.contains(i));
            }
        }
    }
}

/// Computes the filtered view of `items` under `filter`: the original
/// indices of the matching items, in their original order.
pub fn filter_items(items: &Vec<Item>, filter: &str) -> (r: Vec<usize>)
    ensures
        r@.len() == filtered_indices(items@, filter@).len(),
        forall|j: int|
            0 <= j < r@.len() ==> r@[j] as int == filtered_indices(items@, filter@)[j],
{
    let mut r: Vec<usize> = Vec::new();
    let mut k: usize = 0;
    while k < items.len()
        invariant
            k <= items@.len(),
            r@.len() == filtered_indices(items@.take(k as int), filter@).len(),
            forall|j: int|
                0 <= j < r@.len() ==> r@[j] as int == filtered_indices(
                    items@.take(k as int),
                    filter@,
                )[j],
        decreases items@.len() - k,
    {
        let matched = title_matches(items[k].title.as_str(), filter);
        proof {
            lemma_filtered_indices_take_step(items@, filter@, k as int);
        }
        if matched {
            r.push(k);
        }
        k += 1;
    }
    proof {
        assert(items@.take(items@.len() as int) =~= items@);
    }
    r
}

} // verus!
