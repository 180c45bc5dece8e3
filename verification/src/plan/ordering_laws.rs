//! What ordering promises as a whole.

use crate::diff::change::{Change, ChangeEntry};
use crate::identifier::QnameModel;
use crate::ir::catalog::Catalog;
use crate::ir::constraint::Constraint;
use crate::ir::table::Table;
use crate::model::models;
use crate::plan::body_cycles::{
    body_dependency_edges, closes_cycle, has_body_cycle, law_bodies_are_in_the_graph,
};
use crate::plan::buckets::{bucket_of, change_key, Bucket};
use crate::plan::edges::{catalog_graph, NodeId, NodeKey};
use crate::plan::graph::{
    is_topological_order, law_dependencies_come_first, law_reached_nodes_come_first,
    law_sorted_graph_has_no_cycle, GraphModel,
};
use crate::plan::object_edges::graph_of;
use crate::plan::ordered::{DeferredFkModel, OrderedChangeSet};
use crate::plan::ordering::{
    all_stripped, all_supported, at_node, by_order, creates_subscription, drops_subscription,
    in_bucket, is_create_order, is_ordered_by, negated, stays_inline, stripped, subscriptions_first,
    subscriptions_last,
};
use crate::plan::walks::lemma_reached_are_nodes;
use vstd::prelude::*;

verus! {

/// Where a node stands in an order; past the end where it is not listed.
pub open spec fn position(order: Seq<NodeKey>, n: NodeKey) -> nat
    decreases order.len(),
{
    if order.len() == 0 || order[0] == n {
        0
    } else {
        1 + position(order.drop_first(), n)
    }
}

/// The position of an entry's node.
pub open spec fn entry_position(order: Seq<NodeKey>, e: ChangeEntry) -> nat {
    position(order, change_key(e.change))
}

/// Earlier entries stand at earlier positions.
pub open spec fn positions_ascend(entries: Seq<ChangeEntry>, order: Seq<NodeKey>) -> bool {
    forall|i: int, j: int|
        0 <= i < j < entries.len() ==> entry_position(order, #[trigger] entries[i])
            <= entry_position(order, #[trigger] entries[j])
}

/// The items that are kept satisfy the condition.
pub proof fn lemma_kept_satisfy<T>(s: Seq<T>, p: spec_fn(T) -> bool, i: int)
    requires
        0 <= i < s.filter(p).len(),
    ensures
        p(s.filter(p)[i]),
        s.contains(s.filter(p)[i]),
{
    s.lemma_filter_pred(p, i);
    assert(s.filter(p).contains(s.filter(p)[i]));
    s.lemma_filter_contains_rev(p, s.filter(p)[i]);
}

/// Splitting a list by a condition keeps every item.
proof fn lemma_split_multiset<T>(s: Seq<T>, p: spec_fn(T) -> bool)
    ensures
        s.filter(p).to_multiset().add(s.filter(negated(p)).to_multiset()) =~= s.to_multiset(),
    decreases s.len(),
{
    broadcast use vstd::seq_lib::group_to_multiset_ensures;

    reveal(Seq::filter);
    if s.len() > 0 {
        let before = s.drop_last();
        let last = s.last();
        lemma_split_multiset(before, p);
        assert(s =~= before.push(last));
        assert(s.to_multiset() =~= before.to_multiset().insert(last));
        if p(last) {
            assert(s.filter(p) == before.filter(p).push(last));
        } else {
            assert(s.filter(negated(p)) == before.filter(negated(p)).push(last));
        }
    }
}

/// Sorting keeps every entry, and adds none.
pub proof fn law_sorting_is_a_permutation(entries: Seq<ChangeEntry>, order: Seq<NodeKey>)
    ensures
        by_order(entries, order).to_multiset() =~= entries.to_multiset(),
    decreases order.len(),
{
    if order.len() > 0 {
        let here = entries.filter(at_node(order[0]));
        let rest = entries.filter(negated(at_node(order[0])));
        law_sorting_is_a_permutation(rest, order.drop_first());
        lemma_split_multiset(entries, at_node(order[0]));
        vstd::seq_lib::lemma_multiset_commutative(here, by_order(rest, order.drop_first()));
    }
}

proof fn lemma_members_of_sorted(entries: Seq<ChangeEntry>, order: Seq<NodeKey>, e: ChangeEntry)
    requires
        by_order(entries, order).contains(e),
    ensures
        entries.contains(e),
    decreases order.len(),
{
    if order.len() > 0 {
        let here = entries.filter(at_node(order[0]));
        let rest = entries.filter(negated(at_node(order[0])));
        let tail = by_order(rest, order.drop_first());
        let k = choose|k: int| 0 <= k < (here + tail).len() && (here + tail)[k] == e;
        if k < here.len() {
            assert(here.contains(e));
            entries.lemma_filter_contains_rev(at_node(order[0]), e);
        } else {
            assert(tail[k - here.len()] == e);
            lemma_members_of_sorted(rest, order.drop_first(), e);
            entries.lemma_filter_contains_rev(negated(at_node(order[0])), e);
        }
    }
}

/// Sorted entries come in the order of their nodes; entries whose node is not
/// listed come last.
pub proof fn law_sorting_follows_the_order(entries: Seq<ChangeEntry>, order: Seq<NodeKey>)
    ensures
        positions_ascend(by_order(entries, order), order),
    decreases order.len(),
{
    if order.len() > 0 {
        let n = order[0];
        let here = entries.filter(at_node(n));
        let rest = entries.filter(negated(at_node(n)));
        let tail = by_order(rest, order.drop_first());
        law_sorting_follows_the_order(rest, order.drop_first());
        let all = here + tail;
        assert forall|i: int| here.len() <= i < all.len() implies change_key(
            (#[trigger] all[i]).change,
        ) != n by {
            let e = all[i];
            assert(tail[i - here.len()] == e);
            assert(tail.contains(e));
            lemma_members_of_sorted(rest, order.drop_first(), e);
            let k = choose|k: int| 0 <= k < rest.len() && rest[k] == e;
            lemma_kept_satisfy(entries, negated(at_node(n)), k);
        }
        assert forall|i: int| 0 <= i < here.len() implies change_key((#[trigger] all[i]).change)
            == n by {
            assert(all[i] == here[i]);
            lemma_kept_satisfy(entries, at_node(n), i);
        }
        assert forall|i: int, j: int| 0 <= i < j < all.len() implies entry_position(
            order,
            #[trigger] all[i],
        ) <= entry_position(order, #[trigger] all[j]) by {
            if i >= here.len() {
                let a = tail[i - here.len()];
                let b = tail[j - here.len()];
                assert(all[i] == a && all[j] == b);
                assert(entry_position(order.drop_first(), a) <= entry_position(
                    order.drop_first(),
                    b,
                ));
            }
        }
    } else {
        assert forall|i: int, j: int| 0 <= i < j < entries.len() implies entry_position(
            order,
            #[trigger] entries[i],
        ) <= entry_position(order, #[trigger] entries[j]) by {}
    }
}

/// Sorting is stable: the entries of one node stay in the order they came.
pub proof fn law_sorting_is_stable(
    entries: Seq<ChangeEntry>,
    order: Seq<NodeKey>,
    n: NodeKey,
)
    ensures
        by_order(entries, order).filter(at_node(n)) == entries.filter(at_node(n)),
    decreases order.len(),
{
    if order.len() > 0 {
        let m = order[0];
        let here = entries.filter(at_node(m));
        let rest = entries.filter(negated(at_node(m)));
        let tail = by_order(rest, order.drop_first());
        Seq::filter_distributes_over_add(here, tail, at_node(n));
        law_sorting_is_stable(rest, order.drop_first(), n);
        if m == n {
            lemma_filter_idempotent(entries, at_node(n));
            lemma_filter_disjoint(entries, negated(at_node(m)), at_node(n));
            assert(here.filter(at_node(n)) + Seq::empty() =~= here);
        } else {
            lemma_filter_disjoint(entries, at_node(m), at_node(n));
            lemma_filter_absorbs(entries, negated(at_node(m)), at_node(n));
            assert(Seq::<ChangeEntry>::empty() + rest.filter(at_node(n)) =~= rest.filter(
                at_node(n),
            ));
        }
    }
}

proof fn lemma_filter_idempotent<T>(s: Seq<T>, p: spec_fn(T) -> bool)
    ensures
        s.filter(p).filter(p) == s.filter(p),
    decreases s.len(),
{
    reveal(Seq::filter);
    if s.len() > 0 {
        lemma_filter_idempotent(s.drop_last(), p);
        s.drop_last().filter(p).lemma_filter_push(s.last(), p);
    }
}

proof fn lemma_filter_disjoint<T>(s: Seq<T>, p: spec_fn(T) -> bool, q: spec_fn(T) -> bool)
    requires
        forall|x: T| #[trigger] p(x) ==> !q(x),
    ensures
        s.filter(p).filter(q) == Seq::<T>::empty(),
    decreases s.len(),
{
    reveal(Seq::filter);
    if s.len() > 0 {
        lemma_filter_disjoint(s.drop_last(), p, q);
        s.drop_last().filter(p).lemma_filter_push(s.last(), q);
    } else {
        assert(s.filter(p).filter(q) =~= Seq::<T>::empty());
    }
}

proof fn lemma_filter_absorbs<T>(s: Seq<T>, p: spec_fn(T) -> bool, q: spec_fn(T) -> bool)
    requires
        forall|x: T| #[trigger] q(x) ==> p(x),
    ensures
        s.filter(p).filter(q) == s.filter(q),
    decreases s.len(),
{
    reveal(Seq::filter);
    if s.len() > 0 {
        lemma_filter_absorbs(s.drop_last(), p, q);
        s.drop_last().filter(p).lemma_filter_push(s.last(), q);
    }
}

/// Every entry that can be planned falls into exactly one of the three
/// buckets.
pub proof fn law_buckets_cover_every_entry(entries: Seq<ChangeEntry>)
    requires
        all_supported(entries),
    ensures
        entries.filter(in_bucket(Bucket::Create)).to_multiset().add(
            entries.filter(in_bucket(Bucket::Modify)).to_multiset(),
        ).add(entries.filter(in_bucket(Bucket::Drop)).to_multiset()) =~= entries.to_multiset(),
    decreases entries.len(),
{
    broadcast use vstd::seq_lib::group_to_multiset_ensures;

    reveal(Seq::filter);
    if entries.len() > 0 {
        let before = entries.drop_last();
        let last = entries.last();
        assert forall|i: int| 0 <= i < before.len() implies !(bucket_of(
            (#[trigger] before[i]).change,
        ) is Unsupported) by {
            assert(before[i] == entries[i]);
        }
        law_buckets_cover_every_entry(before);
        assert(entries =~= before.push(last));
        assert(!(bucket_of(entries[entries.len() - 1].change) is Unsupported));
        assert(entries.to_multiset() =~= before.to_multiset().insert(last));
        if bucket_of(last.change) is Create {
            assert(entries.filter(in_bucket(Bucket::Create)) == before.filter(
                in_bucket(Bucket::Create),
            ).push(last));
        } else if bucket_of(last.change) is Modify {
            assert(entries.filter(in_bucket(Bucket::Modify)) == before.filter(
                in_bucket(Bucket::Modify),
            ).push(last));
        } else {
            assert(entries.filter(in_bucket(Bucket::Drop)) == before.filter(
                in_bucket(Bucket::Drop),
            ).push(last));
        }
    }
}

proof fn lemma_position_of_index(order: Seq<NodeKey>, k: int)
    requires
        order.no_duplicates(),
        0 <= k < order.len(),
    ensures
        position(order, order[k]) == k,
    decreases k,
{
    if k > 0 {
        assert(order[0] != order[k]);
        let rest = order.drop_first();
        assert(rest[k - 1] == order[k]);
        assert forall|i: int, j: int| 0 <= i < j < rest.len() implies rest[i] != rest[j] by {
            assert(order[i + 1] != order[j + 1]);
        }
        lemma_position_of_index(rest, k - 1);
    }
}

/// In a topological order a dependency stands before what depends on it.
proof fn lemma_dependency_position(g: GraphModel<NodeKey>, order: Seq<NodeKey>, a: NodeKey, b: NodeKey)
    requires
        is_topological_order::<NodeId>(g, order),
        g.closed_under_edges(),
        g.reaches(a, b),
    ensures
        position(order, b) < position(order, a) < order.len(),
{
    law_dependencies_come_first::<NodeId>(g, order);
    lemma_reached_are_nodes(g, a, b);
    assert(order.contains(a));
    let i = choose|i: int| 0 <= i < order.len() && order[i] == a;
    law_reached_nodes_come_first::<NodeId>(g, order, i, b);
    let k = choose|k: int| 0 <= k < i && #[trigger] order[k] == b;
    lemma_position_of_index(order, i);
    lemma_position_of_index(order, k);
}

proof fn lemma_filter_keeps_positions(
    entries: Seq<ChangeEntry>,
    order: Seq<NodeKey>,
    p: spec_fn(ChangeEntry) -> bool,
)
    requires
        positions_ascend(entries, order),
    ensures
        positions_ascend(entries.filter(p), order),
    decreases entries.len(),
{
    reveal(Seq::filter);
    if entries.len() > 0 {
        let before = entries.drop_last();
        let last = entries.last();
        assert forall|i: int, j: int| 0 <= i < j < before.len() implies entry_position(
            order,
            #[trigger] before[i],
        ) <= entry_position(order, #[trigger] before[j]) by {
            assert(before[i] == entries[i] && before[j] == entries[j]);
        }
        lemma_filter_keeps_positions(before, order, p);
        let kept = before.filter(p);
        let all = entries.filter(p);
        assert forall|i: int, j: int| 0 <= i < j < all.len() implies entry_position(
            order,
            #[trigger] all[i],
        ) <= entry_position(order, #[trigger] all[j]) by {
            if j < kept.len() {
                assert(all[i] == kept[i] && all[j] == kept[j]);
            } else {
                assert(all[i] == kept[i]);
                lemma_kept_satisfy(before, p, i);
                let k = choose|k: int| 0 <= k < before.len() && before[k] == kept[i];
                assert(entries[k] == kept[i]);
                assert(entries[entries.len() - 1] == all[j]);
            }
        }
    }
}

/// The graph whose topological order [`is_create_order`] gives.
pub open spec fn create_graph(source: Catalog, cycle: Seq<NodeKey>) -> GraphModel<NodeKey> {
    if cycle.len() == 0 {
        catalog_graph(source, Seq::empty())
    } else {
        catalog_graph(source, cycle)
    }
}

/// Every edge of a catalog's graph starts and ends at a node.
proof fn lemma_catalog_graph_closed(c: Catalog, cycle: Seq<NodeKey>)
    ensures
        catalog_graph(c, cycle).closed_under_edges(),
{
    let g = catalog_graph(c, cycle);
    assert forall|a: NodeKey, b: NodeKey| #[trigger] g.edges.contains((a, b)) implies g.nodes.contains(a)
        && g.nodes.contains(b) by {}
}

/// Dependencies are created first: a create that depends on another create,
/// directly or through others, comes after it. (Subscriptions come last
/// whatever they depend on.)
#[verifier::rlimit(40)]
pub proof fn law_creates_put_dependencies_first(
    target: Catalog,
    source: Catalog,
    work: Seq<ChangeEntry>,
    cycle: Seq<NodeKey>,
    order: Seq<NodeKey>,
    drop_order: Seq<NodeKey>,
    creates: Seq<ChangeEntry>,
    out: OrderedChangeSet,
    i: int,
    j: int,
)
    requires
        is_ordered_by(target, source, work, cycle, order, drop_order, creates, out),
        0 <= i < out.creates_and_adds@.len(),
        0 <= j < out.creates_and_adds@.len(),
        !creates_subscription()(out.creates_and_adds@[i]),
        !creates_subscription()(out.creates_and_adds@[j]),
        create_graph(source, cycle).reaches(
            change_key(out.creates_and_adds@[i].change),
            change_key(out.creates_and_adds@[j].change),
        ),
    ensures
        j < i,
{
    let g = create_graph(source, cycle);
    let all = out.creates_and_adds@;
    let sorted = by_order(creates, order);
    let first = sorted.filter(negated(creates_subscription()));
    let last = sorted.filter(creates_subscription());
    lemma_catalog_graph_closed(source, Seq::empty());
    lemma_catalog_graph_closed(source, cycle);
    assert(is_topological_order::<NodeId>(g, order));
    let a = change_key(all[i].change);
    let b = change_key(all[j].change);
    lemma_dependency_position(g, order, a, b);
    law_sorting_follows_the_order(creates, order);
    lemma_filter_keeps_positions(sorted, order, negated(creates_subscription()));
    assert(all == first + last);
    if i >= first.len() {
        lemma_kept_satisfy(sorted, creates_subscription(), i - first.len());
        assert(all[i] == last[i - first.len()]);
    }
    if j >= first.len() {
        lemma_kept_satisfy(sorted, creates_subscription(), j - first.len());
        assert(all[j] == last[j - first.len()]);
    }
    assert(all[i] == first[i] && all[j] == first[j]);
    if i < j {
        assert(entry_position(order, first[i]) <= entry_position(order, first[j]));
    }
}

/// Modifies follow the same order as creates: a modify whose object depends on
/// that of another modify, directly or through others, comes after it.
#[verifier::rlimit(40)]
pub proof fn law_modifies_put_dependencies_first(
    target: Catalog,
    source: Catalog,
    work: Seq<ChangeEntry>,
    cycle: Seq<NodeKey>,
    order: Seq<NodeKey>,
    drop_order: Seq<NodeKey>,
    creates: Seq<ChangeEntry>,
    out: OrderedChangeSet,
    i: int,
    j: int,
)
    requires
        is_ordered_by(target, source, work, cycle, order, drop_order, creates, out),
        0 <= i < out.modifies@.len(),
        0 <= j < out.modifies@.len(),
        create_graph(source, cycle).reaches(
            change_key(out.modifies@[i].change),
            change_key(out.modifies@[j].change),
        ),
    ensures
        j < i,
{
    let g = create_graph(source, cycle);
    let all = out.modifies@;
    lemma_catalog_graph_closed(source, Seq::empty());
    lemma_catalog_graph_closed(source, cycle);
    assert(is_topological_order::<NodeId>(g, order));
    let a = change_key(all[i].change);
    let b = change_key(all[j].change);
    lemma_dependency_position(g, order, a, b);
    law_sorting_follows_the_order(work.filter(in_bucket(Bucket::Modify)), order);
    if i < j {
        assert(entry_position(order, all[i]) <= entry_position(order, all[j]));
    }
}

/// In a reversed topological order a dependency stands after what depends on
/// it.
proof fn lemma_reverse_dependency_position(
    g: GraphModel<NodeKey>,
    drop_order: Seq<NodeKey>,
    a: NodeKey,
    b: NodeKey,
)
    requires
        is_topological_order::<NodeId>(g, drop_order.reverse()),
        g.closed_under_edges(),
        g.reaches(a, b),
    ensures
        position(drop_order, a) < position(drop_order, b),
{
    let forward = drop_order.reverse();
    law_dependencies_come_first::<NodeId>(g, forward);
    lemma_reached_are_nodes(g, a, b);
    assert(forward.contains(a));
    let p = choose|p: int| 0 <= p < forward.len() && forward[p] == a;
    law_reached_nodes_come_first::<NodeId>(g, forward, p, b);
    let q = choose|q: int| 0 <= q < p && #[trigger] forward[q] == b;
    let m = drop_order.len();
    assert(drop_order[m - 1 - p] == a);
    assert(drop_order[m - 1 - q] == b);
    assert forall|x: int, y: int| 0 <= x < y < m implies drop_order[x] != drop_order[y] by {
        assert(forward[m - 1 - x] == drop_order[x]);
        assert(forward[m - 1 - y] == drop_order[y]);
    }
    lemma_position_of_index(drop_order, m - 1 - p);
    lemma_position_of_index(drop_order, m - 1 - q);
}

/// Among drops other than subscriptions the earlier position comes first.
proof fn lemma_drops_follow_positions(
    entries: Seq<ChangeEntry>,
    drop_order: Seq<NodeKey>,
    i: int,
    j: int,
)
    requires
        ({
            let all = subscriptions_first(by_order(entries, drop_order));
            &&& 0 <= i < all.len()
            &&& 0 <= j < all.len()
            &&& !drops_subscription()(all[i])
            &&& !drops_subscription()(all[j])
            &&& entry_position(drop_order, all[i]) < entry_position(drop_order, all[j])
        }),
    ensures
        i < j,
{
    let sorted = by_order(entries, drop_order);
    let all = subscriptions_first(sorted);
    let first = sorted.filter(drops_subscription());
    let last = sorted.filter(negated(drops_subscription()));
    law_sorting_follows_the_order(entries, drop_order);
    lemma_filter_keeps_positions(sorted, drop_order, negated(drops_subscription()));
    assert(all == first + last);
    if i < first.len() {
        lemma_kept_satisfy(sorted, drops_subscription(), i);
        assert(all[i] == first[i]);
    }
    if j < first.len() {
        lemma_kept_satisfy(sorted, drops_subscription(), j);
        assert(all[j] == first[j]);
    }
    let x = i - first.len();
    let y = j - first.len();
    assert(all[i] == last[x] && all[j] == last[y]);
    if y < x {
        assert(entry_position(drop_order, last[y]) <= entry_position(drop_order, last[x]));
    }
}

/// Dependents are dropped first: a drop whose object depends on that of
/// another drop, directly or through others, comes before it. (Subscriptions
/// come first whatever depends on them.)
#[verifier::rlimit(40)]
pub proof fn law_drops_put_dependents_first(
    target: Catalog,
    source: Catalog,
    work: Seq<ChangeEntry>,
    cycle: Seq<NodeKey>,
    order: Seq<NodeKey>,
    drop_order: Seq<NodeKey>,
    creates: Seq<ChangeEntry>,
    out: OrderedChangeSet,
    i: int,
    j: int,
)
    requires
        is_ordered_by(target, source, work, cycle, order, drop_order, creates, out),
        0 <= i < out.drops@.len(),
        0 <= j < out.drops@.len(),
        !drops_subscription()(out.drops@[i]),
        !drops_subscription()(out.drops@[j]),
        catalog_graph(target, Seq::empty()).reaches(
            change_key(out.drops@[i].change),
            change_key(out.drops@[j].change),
        ),
    ensures
        i < j,
{
    let g = catalog_graph(target, Seq::empty());
    lemma_catalog_graph_closed(target, Seq::empty());
    let a = change_key(out.drops@[i].change);
    let b = change_key(out.drops@[j].change);
    lemma_reverse_dependency_position(g, drop_order, a, b);
    lemma_drops_follow_positions(work.filter(in_bucket(Bucket::Drop)), drop_order, i, j);
}

/// Created subscriptions come after every other create, and dropped
/// subscriptions before every other drop.
pub proof fn law_subscriptions_are_created_last_and_dropped_first(
    entries: Seq<ChangeEntry>,
    i: int,
    j: int,
)
    requires
        0 <= i < entries.len(),
        0 <= j < entries.len(),
    ensures
        creates_subscription()(subscriptions_last(entries)[i]) && !creates_subscription()(
            subscriptions_last(entries)[j],
        ) ==> j < i,
        drops_subscription()(subscriptions_first(entries)[i]) && !drops_subscription()(
            subscriptions_first(entries)[j],
        ) ==> i < j,
        subscriptions_last(entries).to_multiset() =~= entries.to_multiset(),
        subscriptions_first(entries).to_multiset() =~= entries.to_multiset(),
{
    broadcast use vstd::seq_lib::group_to_multiset_ensures;

    let c = creates_subscription();
    let d = drops_subscription();
    lemma_split_multiset(entries, c);
    lemma_split_multiset(entries, d);
    vstd::seq_lib::lemma_multiset_commutative(entries.filter(negated(c)), entries.filter(c));
    vstd::seq_lib::lemma_multiset_commutative(entries.filter(d), entries.filter(negated(d)));
    let last = subscriptions_last(entries);
    let first = subscriptions_first(entries);
    assert(last.to_multiset() =~= entries.to_multiset());
    assert(first.to_multiset() =~= entries.to_multiset());
    vstd::seq_lib::to_multiset_len(last);
    vstd::seq_lib::to_multiset_len(first);
    vstd::seq_lib::to_multiset_len(entries);
    let m = entries.filter(negated(c)).len() as int;
    if i < m {
        lemma_kept_satisfy(entries, negated(c), i);
        assert(last[i] == entries.filter(negated(c))[i]);
    }
    if j >= m {
        lemma_kept_satisfy(entries, c, j - m);
        assert(last[j] == entries.filter(c)[j - m]);
    }
    let k = entries.filter(d).len() as int;
    if i >= k {
        lemma_kept_satisfy(entries, negated(d), i - k);
        assert(first[i] == entries.filter(negated(d))[i - k]);
    }
    if j < k {
        lemma_kept_satisfy(entries, d, j);
        assert(first[j] == entries.filter(d)[j]);
    }
}

/// A deferred foreign key is never also emitted inline: no created table
/// keeps a constraint that is deferred.
pub proof fn law_deferred_keys_are_not_inline(
    before: Seq<ChangeEntry>,
    after: Seq<ChangeEntry>,
    deferred: Seq<DeferredFkModel>,
    i: int,
    c: Constraint,
    k: int,
)
    requires
        all_stripped(before, after, deferred),
        0 <= i < after.len(),
        0 <= k < deferred.len(),
        after[i].change matches Change::CreateTable(t) && t.constraints@.contains(c),
    ensures
        !(deferred[k].table == after[i].change->CreateTable_0.qname@ && deferred[k].constraint.qname
            == c.qname@),
{
    assert(stripped(before[i], after[i], deferred));
    let u = after[i].change->CreateTable_0;
    match before[i].change {
        Change::CreateTable(t) => {
            let p = stays_inline(t.qname@, deferred);
            let m = choose|m: int| 0 <= m < u.constraints@.len() && u.constraints@[m] == c;
            lemma_kept_satisfy(t.constraints@, p, m);
            assert(p(c));
        },
        _ => {},
    }
}

/// Taking deferred foreign keys out loses nothing: each constraint of a created
/// table stays with the table, or a key of that table and name is deferred.
pub proof fn law_constraints_stay_or_are_deferred(
    before: Seq<ChangeEntry>,
    after: Seq<ChangeEntry>,
    deferred: Seq<DeferredFkModel>,
    i: int,
    c: Constraint,
)
    requires
        all_stripped(before, after, deferred),
        0 <= i < before.len(),
        before[i].change matches Change::CreateTable(t) && t.constraints@.contains(c),
    ensures
        after[i].change matches Change::CreateTable(u) && u.qname
            == before[i].change->CreateTable_0.qname && (u.constraints@.contains(c)
            || is_deferred_key(u.qname@, c, deferred)),
{
    assert(stripped(before[i], after[i], deferred));
    let t = before[i].change->CreateTable_0;
    let p = stays_inline(t.qname@, deferred);
    if p(c) {
        let m = choose|m: int| 0 <= m < t.constraints@.len() && t.constraints@[m] == c;
        t.constraints@.lemma_filter_contains(p, m);
    }
}

/// The table `t` is created by an entry of `out`, and the constraint `c` comes
/// with it or is deferred.
pub open spec fn creates_constraint(out: OrderedChangeSet, t: Table, c: Constraint, j: int) -> bool {
    &&& 0 <= j < out.creates_and_adds@.len()
    &&& out.creates_and_adds@[j].change matches Change::CreateTable(u) && u.qname == t.qname && (
    u.constraints@.contains(c) || is_deferred_key(t.qname@, c, models(out.deferred_fks@)))
}

/// Sorting keeps a create of something other than a subscription.
proof fn lemma_create_stays(creates: Seq<ChangeEntry>, order: Seq<NodeKey>, e: ChangeEntry)
    requires
        creates.contains(e),
        !creates_subscription()(e),
    ensures
        subscriptions_last(by_order(creates, order)).contains(e),
{
    broadcast use vstd::seq_lib::group_to_multiset_ensures;

    let sorted = by_order(creates, order);
    law_sorting_is_a_permutation(creates, order);
    assert(creates.to_multiset().contains(e));
    assert(sorted.to_multiset().contains(e));
    assert(sorted.contains(e));
    let q = negated(creates_subscription());
    let k = choose|k: int| 0 <= k < sorted.len() && sorted[k] == e;
    sorted.lemma_filter_contains(q, k);
    let first = sorted.filter(q);
    let j = choose|j: int| 0 <= j < first.len() && first[j] == e;
    assert(subscriptions_last(sorted)[j] == e);
}

/// Ordering loses no constraint: each constraint of a table to create is
/// created with the table, or deferred.
pub proof fn law_ordering_keeps_every_constraint(
    target: Catalog,
    source: Catalog,
    work: Seq<ChangeEntry>,
    cycle: Seq<NodeKey>,
    order: Seq<NodeKey>,
    drop_order: Seq<NodeKey>,
    creates: Seq<ChangeEntry>,
    out: OrderedChangeSet,
    i: int,
    t: Table,
    c: Constraint,
)
    requires
        is_ordered_by(target, source, work, cycle, order, drop_order, creates, out),
        0 <= i < work.len(),
        work[i].change == Change::CreateTable(t),
        t.constraints@.contains(c),
    ensures
        exists|j: int| #[trigger] creates_constraint(out, t, c, j),
{
    let deferred = models(out.deferred_fks@);
    let p = in_bucket(Bucket::Create);
    let bucketed = work.filter(p);
    work.lemma_filter_contains(p, i);
    let b = choose|b: int| 0 <= b < bucketed.len() && bucketed[b] == work[i];
    assert(all_stripped(bucketed, creates, deferred));
    law_constraints_stay_or_are_deferred(bucketed, creates, deferred, b, c);
    let e = creates[b];
    assert(creates.contains(e));
    lemma_create_stays(creates, order, e);
    let all = out.creates_and_adds@;
    let j = choose|j: int| 0 <= j < all.len() && all[j] == e;
    assert(creates_constraint(out, t, c, j));
}

/// A key of that table, with the constraint's name, is deferred.
pub open spec fn is_deferred_key(
    table: QnameModel,
    c: Constraint,
    deferred: Seq<DeferredFkModel>,
) -> bool {
    exists|k: int|
        0 <= k < deferred.len() && (#[trigger] deferred[k]).table == table
            && deferred[k].constraint.qname == c.qname@
}

/// The dependencies that bodies record, by themselves.
pub open spec fn body_graph(c: Catalog) -> GraphModel<NodeKey> {
    graph_of(Set::empty(), body_dependency_edges(c))
}

/// A cycle that bodies alone make is never broken: whichever foreign keys are
/// left out, a body closes a cycle, and there is no order in which the objects
/// could be created.
pub proof fn law_body_cycles_are_never_ordered(
    c: Catalog,
    n: NodeKey,
    cycle: Seq<NodeKey>,
    order: Seq<NodeKey>,
)
    requires
        body_graph(c).on_cycle(n),
    ensures
        has_body_cycle(c, catalog_graph(c, cycle)),
        !is_create_order(c, cycle, order),
{
    lemma_body_cycle_in_graph(c, n, cycle);
    lemma_body_cycle_in_graph(c, n, Seq::empty());
    if is_create_order(c, cycle, order) {
        let g = create_graph(c, cycle);
        assert(is_topological_order::<NodeId>(g, order));
        lemma_catalog_graph_closed(c, cycle);
        lemma_catalog_graph_closed(c, Seq::empty());
        lemma_reached_are_nodes(g, n, n);
        law_sorted_graph_has_no_cycle::<NodeId>(g, order, n);
    }
}

proof fn lemma_body_cycle_in_graph(c: Catalog, n: NodeKey, cycle: Seq<NodeKey>)
    requires
        body_graph(c).on_cycle(n),
    ensures
        has_body_cycle(c, catalog_graph(c, cycle)),
        catalog_graph(c, cycle).on_cycle(n),
{
    let b = body_graph(c);
    let g = catalog_graph(c, cycle);
    law_bodies_are_in_the_graph(c, cycle);
    let walk = choose|walk: Seq<NodeKey>|
        #![trigger b.is_walk(walk)]
        walk.len() >= 2 && walk[0] == n && walk.last() == n && b.is_walk(walk);
    assert forall|i: int| 0 <= i < walk.len() - 1 implies #[trigger] g.follows(walk, i) by {
        assert(b.follows(walk, i));
    }
    assert(g.is_walk(walk));
    let e = (walk[0], walk[1]);
    assert(b.follows(walk, 0));
    if walk.len() > 2 {
        let back = walk.drop_first();
        assert forall|i: int| 0 <= i < back.len() - 1 implies #[trigger] g.follows(back, i) by {
            assert(g.follows(walk, i + 1));
        }
        assert(g.is_walk(back));
        assert(back[0] == e.1 && back.last() == n);
    }
    assert(body_dependency_edges(c).contains(e) && closes_cycle(g, e));
}

} // verus!
