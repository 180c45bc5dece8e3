//! Sorting does not depend on the order in which changes are given.

use crate::diff::change::ChangeEntry;
use crate::plan::buckets::change_key;
use crate::plan::edges::NodeKey;
use crate::plan::ordering::{at_node, by_order, negated};
use crate::plan::ordering_laws::lemma_kept_satisfy;
use vstd::multiset::Multiset;
use vstd::prelude::*;

verus! {

/// The items of a list that satisfy a condition, as often as they occur.
proof fn lemma_filter_count<T>(s: Seq<T>, p: spec_fn(T) -> bool, x: T)
    ensures
        s.filter(p).to_multiset().count(x) == (if p(x) {
            s.to_multiset().count(x)
        } else {
            0
        }),
    decreases s.len(),
{
    broadcast use vstd::seq_lib::group_to_multiset_ensures;

    reveal(Seq::filter);
    if s.len() > 0 {
        let before = s.drop_last();
        let last = s.last();
        lemma_filter_count(before, p, x);
        assert(s =~= before.push(last));
        assert(s.to_multiset() =~= before.to_multiset().insert(last));
        if p(last) {
            assert(s.filter(p) == before.filter(p).push(last));
        }
    }
}

/// No two entries are about the same node.
pub open spec fn one_entry_per_node(entries: Multiset<ChangeEntry>) -> bool {
    &&& forall|e: ChangeEntry| #[trigger] entries.count(e) <= 1
    &&& forall|a: ChangeEntry, b: ChangeEntry|
        #![trigger entries.count(a), entries.count(b)]
        entries.count(a) > 0 && entries.count(b) > 0 && change_key(a.change) == change_key(b.change)
            ==> a == b
}

/// Every entry's node is listed.
pub open spec fn all_listed(entries: Multiset<ChangeEntry>, order: Seq<NodeKey>) -> bool {
    forall|e: ChangeEntry| #[trigger]
        entries.count(e) > 0 ==> order.contains(change_key(e.change))
}

/// Entries about one node: no more than one, where no two are about the same.
proof fn lemma_single(entries: Seq<ChangeEntry>, n: NodeKey)
    requires
        one_entry_per_node(entries.to_multiset()),
        forall|i: int| 0 <= i < entries.len() ==> change_key((#[trigger] entries[i]).change) == n,
    ensures
        entries.len() <= 1,
{
    broadcast use vstd::seq_lib::group_to_multiset_ensures;

    if entries.len() >= 2 {
        let m = entries.to_multiset();
        assert(entries.contains(entries[0]) && entries.contains(entries[1]));
        assert(m.count(entries[0]) > 0 && m.count(entries[1]) > 0);
        assert forall|x: ChangeEntry| m.contains(x) implies m.count(x) == 1 by {
            assert(m.count(x) <= 1);
        }
        entries.lemma_multiset_has_no_duplicates_conv();
        assert(entries[0] == entries[1]);
    }
}

/// The order in which changes are given does not matter, where no two are
/// about the same node and every node is listed.
pub proof fn law_sorting_ignores_the_given_order(
    a: Seq<ChangeEntry>,
    b: Seq<ChangeEntry>,
    order: Seq<NodeKey>,
)
    requires
        a.to_multiset() == b.to_multiset(),
        one_entry_per_node(a.to_multiset()),
        all_listed(a.to_multiset(), order),
    ensures
        by_order(a, order) == by_order(b, order),
    decreases order.len(),
{
    broadcast use vstd::seq_lib::group_to_multiset_ensures;

    let m = a.to_multiset();
    if order.len() == 0 {
        if a.len() > 0 {
            assert(a.contains(a[0]));
            assert(m.count(a[0]) > 0);
            assert(order.contains(change_key(a[0].change)));
        }
        assert(a.len() == m.len() && b.len() == m.len());
        assert(a =~= b);
    } else {
        let n = order[0];
        let p = at_node(n);
        let here_a = a.filter(p);
        let here_b = b.filter(p);
        let rest_a = a.filter(negated(p));
        let rest_b = b.filter(negated(p));
        assert forall|x: ChangeEntry| #[trigger]
            here_a.to_multiset().count(x) == here_b.to_multiset().count(x)
                && here_a.to_multiset().count(x) <= m.count(x) by {
            lemma_filter_count(a, p, x);
            lemma_filter_count(b, p, x);
        }
        assert forall|x: ChangeEntry| #[trigger]
            rest_a.to_multiset().count(x) == rest_b.to_multiset().count(x)
                && rest_a.to_multiset().count(x) <= m.count(x) by {
            lemma_filter_count(a, negated(p), x);
            lemma_filter_count(b, negated(p), x);
        }
        assert(here_a.to_multiset() =~= here_b.to_multiset());
        assert(rest_a.to_multiset() =~= rest_b.to_multiset());
        assert(one_entry_per_node(here_a.to_multiset()));
        assert(one_entry_per_node(rest_a.to_multiset()));
        assert forall|i: int| 0 <= i < here_a.len() implies change_key(
            (#[trigger] here_a[i]).change,
        ) == n by {
            lemma_kept_satisfy(a, p, i);
        }
        lemma_single(here_a, n);
        assert(here_a.len() == here_a.to_multiset().len());
        assert(here_b.len() == here_b.to_multiset().len());
        if here_a.len() == 1 {
            assert(here_a.contains(here_a[0]));
            assert(here_b.to_multiset().count(here_a[0]) > 0);
            assert(here_b.contains(here_a[0]));
        }
        assert(here_a =~= here_b);
        assert forall|e: ChangeEntry| #[trigger] rest_a.to_multiset().count(e) > 0 implies order
            .drop_first().contains(change_key(e.change)) by {
            lemma_filter_count(a, negated(p), e);
            assert(m.count(e) > 0);
            let k = order.index_of(change_key(e.change));
            assert(order.contains(change_key(e.change)));
            assert(order[k] == change_key(e.change));
            assert(k > 0);
            assert(order.drop_first()[k - 1] == order[k]);
        }
        law_sorting_ignores_the_given_order(rest_a, rest_b, order.drop_first());
    }
}

} // verus!
