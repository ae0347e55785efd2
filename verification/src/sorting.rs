//! The order in which entries are handed out, and the sort that establishes it.

use vstd::prelude::*;
use vstd::seq_lib::*;
use crate::entry::{entry_views, DirEntry, DirEntryView};
use crate::text::{
    lemma_lex_le_reflexive, lemma_lex_le_total, lemma_lex_le_transitive, lex_le, lowercase,
    lowercased, text_le,
};

verus! {

/// The two orders in which entries are handed out.
#[derive(Debug, Clone, Copy, PartialEq, Eq, Structural)]
pub enum ListingOrder {
    /// Directories before files; within each group by name, ignoring case.
    DirectoriesFirstByName,
    /// By full path, ignoring case.
    ByPath,
}

/// Whether `a` may stand before `b` in the given order.
pub open spec fn precedes(a: DirEntryView, b: DirEntryView, order: ListingOrder) -> bool {
    match order {
        ListingOrder::DirectoriesFirstByName => if a.is_dir != b.is_dir {
            a.is_dir
        } else {
            lex_le(lowercased(a.name), lowercased(b.name))
        },
        ListingOrder::ByPath => lex_le(lowercased(a.path), lowercased(b.path)),
    }
}

/// Whether every entry may stand before every later one.
pub open spec fn is_sorted(entries: Seq<DirEntryView>, order: ListingOrder) -> bool {
    forall|i: int, j: int|
        0 <= i < j < entries.len() ==> precedes(#[trigger] entries[i], #[trigger] entries[j], order)
}

/// Of any two entries one may stand before the other.
pub proof fn lemma_precedes_total(a: DirEntryView, b: DirEntryView, order: ListingOrder)
    ensures
        precedes(a, b, order) || precedes(b, a, order),
{
    lemma_lex_le_total(lowercased(a.name), lowercased(b.name));
    lemma_lex_le_total(lowercased(a.path), lowercased(b.path));
}

/// Every entry may stand before itself.
pub proof fn lemma_precedes_reflexive(a: DirEntryView, order: ListingOrder)
    ensures
        precedes(a, a, order),
{
    lemma_lex_le_reflexive(lowercased(a.name));
    lemma_lex_le_reflexive(lowercased(a.path));
}

/// Where `a` may stand before `b` and `b` before `c`, `a` may stand before `c`.
pub proof fn lemma_precedes_transitive(
    a: DirEntryView,
    b: DirEntryView,
    c: DirEntryView,
    order: ListingOrder,
)
    requires
        precedes(a, b, order),
        precedes(b, c, order),
    ensures
        precedes(a, c, order),
{
    match order {
        ListingOrder::DirectoriesFirstByName => {
            if a.is_dir == b.is_dir && b.is_dir == c.is_dir {
                lemma_lex_le_transitive(
                    lowercased(a.name),
                    lowercased(b.name),
                    lowercased(c.name),
                );
            }
        },
        ListingOrder::ByPath => {
            lemma_lex_le_transitive(lowercased(a.path), lowercased(b.path), lowercased(c.path));
        },
    }
}

/// Decides whether `a` may stand before `b`.
pub fn entry_precedes(a: &DirEntry, b: &DirEntry, order: ListingOrder) -> (r: bool)
    ensures
        r == precedes(a@, b@, order),
{
    match order {
        ListingOrder::DirectoriesFirstByName => {
            if a.is_dir != b.is_dir {
                a.is_dir
            } else {
                let x = lowercase(a.name.as_str());
                let y = lowercase(b.name.as_str());
                text_le(x.as_str(), y.as_str())
            }
        },
        ListingOrder::ByPath => {
            let x = lowercase(a.path.as_str());
            let y = lowercase(b.path.as_str());
            text_le(x.as_str(), y.as_str())
        },
    }
}

/// A sorted sequence stays sorted when an entry is put where everything before
/// it is strictly earlier and the entry at that place is not.
proof fn lemma_insert_keeps_sorted(
    s: Seq<DirEntryView>,
    p: int,
    e: DirEntryView,
    order: ListingOrder,
)
    requires
        is_sorted(s, order),
        0 <= p <= s.len(),
        forall|k: int| 0 <= k < p ==> !precedes(e, #[trigger] s[k], order),
        p < s.len() ==> precedes(e, s[p], order),
    ensures
        is_sorted(s.insert(p, e), order),
{
    let t = s.insert(p, e);
    assert forall|i: int, j: int| 0 <= i < j < t.len() implies precedes(
        #[trigger] t[i],
        #[trigger] t[j],
        order,
    ) by {
        if j == p {
            lemma_precedes_total(e, s[i], order);
        } else if i == p {
            if j - 1 > p {
                lemma_precedes_transitive(e, s[p], s[j - 1], order);
            }
        } else {
            let a = if i < p { i } else { i - 1 };
            let b = if j < p { j } else { j - 1 };
            assert(t[i] == s[a]);
            assert(t[j] == s[b]);
        }
    }
}

/// Where an entry goes in a sorted sequence: the place of the first entry
/// that it may stand before, or the end.
pub open spec fn insert_point(s: Seq<DirEntryView>, e: DirEntryView, order: ListingOrder) -> int
    decreases s.len(),
{
    if s.len() == 0 || precedes(e, s[0], order) {
        0
    } else {
        1 + insert_point(s.drop_first(), e, order)
    }
}

/// The entries in the given order, those that may stand either way in the
/// order in which they came: each entry goes before the first of the later
/// ones that it may stand before.
pub open spec fn stable_sorted(s: Seq<DirEntryView>, order: ListingOrder) -> Seq<DirEntryView>
    decreases s.len(),
{
    if s.len() == 0 {
        s
    } else {
        let later = stable_sorted(s.drop_first(), order);
        later.insert(insert_point(later, s[0], order), s[0])
    }
}

/// The place after entries that must all stay in front, and before one that
/// need not, is where the entry goes.
proof fn lemma_insert_point_found(
    s: Seq<DirEntryView>,
    p: int,
    e: DirEntryView,
    order: ListingOrder,
)
    requires
        0 <= p <= s.len(),
        forall|k: int| 0 <= k < p ==> !precedes(e, #[trigger] s[k], order),
        p < s.len() ==> precedes(e, s[p], order),
    ensures
        insert_point(s, e, order) == p,
    decreases s.len(),
{
    if p > 0 {
        let rest = s.drop_first();
        assert(!precedes(e, s[0], order));
        assert forall|k: int| 0 <= k < p - 1 implies !precedes(e, #[trigger] rest[k], order) by {
            assert(rest[k] == s[k + 1]);
        }
        lemma_insert_point_found(rest, p - 1, e, order);
    }
}

/// Sorts entries into the given order. The result holds the same entries, each
/// as often as before; entries that may stand either way keep the order in
/// which they came.
pub fn sort_entries(entries: Vec<DirEntry>, order: ListingOrder) -> (r: Vec<DirEntry>)
    ensures
        entry_views(r@) == stable_sorted(entry_views(entries@), order),
        is_sorted(entry_views(r@), order),
        entry_views(r@).to_multiset() == entry_views(entries@).to_multiset(),
        r@.len() == entries@.len(),
{
    let ghost all = entry_views(entries@);
    let ghost n = all.len() as int;
    let mut rest = entries;
    let mut out: Vec<DirEntry> = Vec::new();
    proof {
        assert(entry_views(out@) =~= Seq::<DirEntryView>::empty());
        assert(all.subrange(n, n) =~= Seq::<DirEntryView>::empty());
        assert(entry_views(rest@) =~= all.subrange(0, n));
    }
    while rest.len() > 0
        invariant
            n == all.len(),
            rest@.len() <= n,
            entry_views(rest@) == all.subrange(0, rest@.len() as int),
            entry_views(out@) == stable_sorted(all.subrange(rest@.len() as int, n), order),
        decreases rest@.len(),
    {
        let ghost before_rest = entry_views(rest@);
        let ghost before_out = entry_views(out@);
        let ghost k = rest@.len() as int;
        let e = rest.pop().unwrap();
        let mut p: usize = 0;
        while p < out.len() && !entry_precedes(&e, &out[p], order)
            invariant
                p <= out@.len(),
                forall|k: int| 0 <= k < p ==> !precedes(e@, #[trigger] entry_views(out@)[k], order),
            decreases out@.len() - p,
        {
            p = p + 1;
        }
        out.insert(p, e);
        proof {
            assert(entry_views(out@) =~= before_out.insert(p as int, e@));
            assert(entry_views(rest@) =~= all.subrange(0, k - 1));
            let suffix = all.subrange(k - 1, n);
            assert(before_rest[k - 1] == e@);
            assert(suffix[0] == e@);
            assert(suffix.drop_first() =~= all.subrange(k, n));
            lemma_insert_point_found(before_out, p as int, e@, order);
        }
    }
    proof {
        assert(all.subrange(0, n) =~= all);
        lemma_stable_sorted_is_sorted_permutation(all, order);
    }
    out
}

/// The stable order of a sequence is sorted and holds the same entries, each
/// as often as the sequence does.
pub proof fn lemma_stable_sorted_is_sorted_permutation(s: Seq<DirEntryView>, order: ListingOrder)
    ensures
        is_sorted(stable_sorted(s, order), order),
        stable_sorted(s, order).to_multiset() == s.to_multiset(),
        stable_sorted(s, order).len() == s.len(),
    decreases s.len(),
{
    broadcast use group_to_multiset_ensures;

    if s.len() > 0 {
        let later = stable_sorted(s.drop_first(), order);
        lemma_stable_sorted_is_sorted_permutation(s.drop_first(), order);
        lemma_insert_point_bounds(later, s[0], order);
        let p = insert_point(later, s[0], order);
        lemma_insert_keeps_sorted(later, p, s[0], order);
        to_multiset_insert(later, p, s[0]);
        assert(s =~= seq![s[0]] + s.drop_first());
        assert(s.drop_first().insert(0, s[0]) =~= s);
        to_multiset_insert(s.drop_first(), 0, s[0]);
    }
}

/// Where an entry goes, everything in front must stay in front, and the entry
/// at that place need not.
pub proof fn lemma_insert_point_bounds(s: Seq<DirEntryView>, e: DirEntryView, order: ListingOrder)
    ensures
        0 <= insert_point(s, e, order) <= s.len(),
        forall|k: int|
            0 <= k < insert_point(s, e, order) ==> !precedes(e, #[trigger] s[k], order),
        insert_point(s, e, order) < s.len() ==> precedes(
            e,
            s[insert_point(s, e, order)],
            order,
        ),
    decreases s.len(),
{
    if s.len() > 0 && !precedes(e, s[0], order) {
        let rest = s.drop_first();
        lemma_insert_point_bounds(rest, e, order);
        let q = insert_point(rest, e, order);
        assert forall|k: int| 0 <= k < q + 1 implies !precedes(e, #[trigger] s[k], order) by {
            if k > 0 {
                assert(s[k] == rest[k - 1]);
            }
        }
        if q < rest.len() {
            assert(s[q + 1] == rest[q]);
        }
    }
}

/// An element of a sequence occurs in every sequence with the same elements.
pub proof fn lemma_same_members(a: Seq<DirEntryView>, b: Seq<DirEntryView>, i: int)
    requires
        a.to_multiset() == b.to_multiset(),
        0 <= i < a.len(),
    ensures
        b.contains(a[i]),
{
    broadcast use group_to_multiset_ensures;

    assert(a.contains(a[i]));
    assert(a.to_multiset().count(a[i]) > 0);
}

} // verus!
