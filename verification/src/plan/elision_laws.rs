//! What ordering keeps of the given changes, and what it leaves out.

use crate::diff::change::{Change, ChangeEntry, MvChange, SubscriptionChange, ViewChange};
use crate::diff::table_op::TableOp;
use crate::ir::catalog::Catalog;
use crate::ir::index::{Index, IndexColumnExpr, IndexParent};
use crate::plan::buckets::Bucket;
use crate::plan::edges::NodeKey;
use crate::plan::ordered::OrderedChangeSet;
use crate::plan::ordering::{
    by_order, changes_of, creates_subscription, drops_subscription, in_bucket, is_ordered_by,
    is_worklist, negated, redundant_drop, stripped, without_redundant_drops,
};
use crate::plan::ordering_laws::{lemma_kept_satisfy, law_sorting_is_a_permutation};
use vstd::prelude::*;

verus! {

/// The index lists a column of that name, in its key or beside it.
pub open spec fn lists_column(idx: Index, column: Seq<char>) -> bool {
    ||| exists|n: int|
        0 <= n < idx.columns@.len() && ((#[trigger] idx.columns@[n]).expr matches
            IndexColumnExpr::Column(name) && name@ == column)
    ||| exists|n: int| 0 <= n < idx.included@.len() && (#[trigger] idx.included@[n])@ == column
}

/// The entry `e` alters the relation that the index is on, and its operation
/// `j` drops a column that the index lists.
pub open spec fn takes_along(e: ChangeEntry, j: int, idx: Index) -> bool {
    &&& e.change matches Change::AlterTable { qname, ops } && {
        &&& 0 <= j < ops@.len()
        &&& (match idx.on {
            IndexParent::Table(relation) => relation.schema@ == qname.schema@ && relation.name@
                == qname.name@,
            IndexParent::Mv(relation) => relation.schema@ == qname.schema@ && relation.name@
                == qname.name@,
        })
        &&& ops@[j].op matches TableOp::DropColumn { name, .. } && lists_column(idx, name@)
    }
}

/// Some entry drops a column that the index lists, of the index's own relation.
pub open spec fn goes_with_a_column(entries: Seq<ChangeEntry>, idx: Index) -> bool {
    exists|k: int, j: int|
        0 <= k < entries.len() && #[trigger] takes_along(entries[k], j, idx)
}

/// What makes a drop redundant, seen from the entries.
proof fn lemma_redundant(target: Catalog, entries: Seq<ChangeEntry>, e: ChangeEntry)
    requires
        redundant_drop(target, entries)(e),
    ensures
        e.change matches Change::DropIndex(q) && exists|m: int|
            0 <= m < target.indexes@.len() && (#[trigger] target.indexes@[m]).qname@ == q@
                && goes_with_a_column(entries, target.indexes@[m]),
{
    let q = e.change->DropIndex_0;
    let m = choose|m: int| #[trigger]
        crate::plan::ordering::last_index(target, q@, m) && crate::plan::ordering::cascades(
            entries,
            target.indexes@[m],
        );
    let idx = target.indexes@[m];
    let column = choose|column: Seq<char>| #[trigger]
        crate::plan::ordering::index_has_column(idx, column)
            && crate::plan::ordering::any_drops_column(entries, idx.on.name()@, column);
    let k = choose|k: int|
        0 <= k < entries.len() && crate::plan::ordering::drops_column(
            (#[trigger] entries[k]).change,
            idx.on.name()@,
            column,
        );
    let ops = entries[k].change->AlterTable_ops@;
    let j = choose|j: int|
        0 <= j < ops.len() && ((#[trigger] ops[j]).op matches TableOp::DropColumn { name, .. }
            && name@ == column);
    assert(lists_column(idx, column));
    assert(takes_along(entries[k], j, idx));
}

/// An index that goes with a column makes its drop redundant.
proof fn lemma_goes_with_a_column(target: Catalog, entries: Seq<ChangeEntry>, e: ChangeEntry, m: int)
    requires
        0 <= m < target.indexes@.len(),
        e.change matches Change::DropIndex(q) && target.indexes@[m].qname@ == q@ && forall|n: int|
            0 <= n < target.indexes@.len() && n != m ==> (#[trigger] target.indexes@[n]).qname@
                != q@,
        goes_with_a_column(entries, target.indexes@[m]),
    ensures
        redundant_drop(target, entries)(e),
{
    let q = e.change->DropIndex_0;
    let idx = target.indexes@[m];
    let (k, j) = choose|k: int, j: int|
        0 <= k < entries.len() && #[trigger] takes_along(entries[k], j, idx);
    let ops = entries[k].change->AlterTable_ops@;
    let column = ops[j].op->DropColumn_name@;
    let qname = entries[k].change->AlterTable_qname;
    assert(qname@ =~= idx.on.name()@);
    assert(crate::plan::ordering::ops_drop_column(ops, column));
    assert(crate::plan::ordering::drops_column(entries[k].change, idx.on.name()@, column));
    assert(crate::plan::ordering::any_drops_column(entries, idx.on.name()@, column));
    assert(crate::plan::ordering::index_has_column(idx, column));
    assert(crate::plan::ordering::cascades(entries, idx));
    assert(crate::plan::ordering::last_index(target, q@, m));
}

/// A list that is sorted keeps its members.
proof fn lemma_sorted_members(entries: Seq<ChangeEntry>, order: Seq<NodeKey>, e: ChangeEntry)
    ensures
        by_order(entries, order).contains(e) <==> entries.contains(e),
{
    broadcast use vstd::seq_lib::group_to_multiset_ensures;

    law_sorting_is_a_permutation(entries, order);
    assert(entries.to_multiset().contains(e) <==> by_order(entries, order).to_multiset().contains(
        e,
    ));
}

proof fn lemma_filter_members<T>(s: Seq<T>, p: spec_fn(T) -> bool, x: T)
    ensures
        s.filter(p).contains(x) <==> s.contains(x) && p(x),
{
    if s.contains(x) && p(x) {
        let k = choose|k: int| 0 <= k < s.len() && s[k] == x;
        s.lemma_filter_contains(p, k);
    }
    if s.filter(p).contains(x) {
        let k = choose|k: int| 0 <= k < s.filter(p).len() && s.filter(p)[k] == x;
        lemma_kept_satisfy(s, p, k);
    }
}

proof fn lemma_add_members<T>(a: Seq<T>, b: Seq<T>, x: T)
    ensures
        (a + b).contains(x) <==> a.contains(x) || b.contains(x),
{
    if a.contains(x) {
        let k = choose|k: int| 0 <= k < a.len() && a[k] == x;
        assert((a + b)[k] == x);
    }
    if b.contains(x) {
        let k = choose|k: int| 0 <= k < b.len() && b[k] == x;
        assert((a + b)[a.len() + k] == x);
    }
    if (a + b).contains(x) {
        let k = choose|k: int| 0 <= k < (a + b).len() && (a + b)[k] == x;
        if k < a.len() {
            assert(a[k] == x);
        } else {
            assert(b[k - a.len()] == x);
        }
    }
}

/// What the planned drops and modifies hold.
pub proof fn lemma_planned_members(
    target: Catalog,
    source: Catalog,
    work: Seq<ChangeEntry>,
    cycle: Seq<NodeKey>,
    order: Seq<NodeKey>,
    drop_order: Seq<NodeKey>,
    creates: Seq<ChangeEntry>,
    out: OrderedChangeSet,
    e: ChangeEntry,
)
    requires
        is_ordered_by(target, source, work, cycle, order, drop_order, creates, out),
    ensures
        out.drops@.contains(e) <==> work.contains(e) && in_bucket(Bucket::Drop)(e),
        out.modifies@.contains(e) <==> work.contains(e) && in_bucket(Bucket::Modify)(e),
        out.creates_and_adds@.contains(e) <==> creates.contains(e),
{
    let drops = work.filter(in_bucket(Bucket::Drop));
    let d = drops_subscription();
    let sorted = by_order(drops, drop_order);
    lemma_filter_members(work, in_bucket(Bucket::Drop), e);
    lemma_sorted_members(drops, drop_order, e);
    lemma_filter_members(sorted, d, e);
    lemma_filter_members(sorted, negated(d), e);
    lemma_add_members(sorted.filter(d), sorted.filter(negated(d)), e);
    let modifies = work.filter(in_bucket(Bucket::Modify));
    lemma_filter_members(work, in_bucket(Bucket::Modify), e);
    lemma_sorted_members(modifies, order, e);
    let c = creates_subscription();
    let made = by_order(creates, order);
    lemma_sorted_members(creates, order, e);
    lemma_filter_members(made, c, e);
    lemma_filter_members(made, negated(c), e);
    lemma_add_members(made.filter(negated(c)), made.filter(c), e);
}

/// The given entries that stay.
pub proof fn lemma_given_members(target: Catalog, entries: Seq<ChangeEntry>, e: ChangeEntry)
    ensures
        without_redundant_drops(target, entries).contains(e) ==> entries.contains(e),
        entries.contains(e) && !(e.change is DropIndex) ==> without_redundant_drops(
            target,
            entries,
        ).contains(e),
{
    lemma_filter_members(entries, negated(redundant_drop(target, entries)), e);
}

/// What the work list holds: the given entries that are no redundant drops,
/// and recreations.
proof fn lemma_work_members(
    target: Catalog,
    entries: Seq<ChangeEntry>,
    work: Seq<ChangeEntry>,
    e: ChangeEntry,
)
    requires
        is_worklist(target, entries, work),
    ensures
        entries.contains(e) && !redundant_drop(target, entries)(e) ==> work.contains(e),
        work.contains(e) ==> (entries.contains(e) && !redundant_drop(target, entries)(e)) || (
        recreates_a_view(e.change) && e.destructiveness is Safe),
{
    let p = negated(redundant_drop(target, entries));
    let given = without_redundant_drops(target, entries);
    let n = given.len() as int;
    lemma_filter_members(entries, p, e);
    if given.contains(e) {
        let k = choose|k: int| 0 <= k < given.len() && given[k] == e;
        assert(work.take(n)[k] == work[k]);
    }
    if work.contains(e) {
        let k = choose|k: int| 0 <= k < work.len() && work[k] == e;
        if k < n {
            assert(work.take(n)[k] == e);
            assert(given.contains(e));
        } else {
            assert(changes_of(work.skip(n))[k - n] == e.change);
        }
    }
}

/// The change replaces the body of a view or of a materialized view by itself.
pub open spec fn recreates_a_view(c: Change) -> bool {
    match c {
        Change::View(ViewChange::ReplaceBody { source, catalog, compatible }) => !compatible
            && source@ == catalog@,
        Change::Mv(MvChange::ReplaceBody { source, catalog }) => source@ == catalog@,
        _ => false,
    }
}

/// A drop of an index is left out only where another entry drops a column that
/// the index lists, of the very relation that the index is on. Every other
/// drop of an index is among the drops.
pub proof fn law_index_drops_stay_unless_a_column_takes_them(
    target: Catalog,
    source: Catalog,
    entries: Seq<ChangeEntry>,
    work: Seq<ChangeEntry>,
    cycle: Seq<NodeKey>,
    order: Seq<NodeKey>,
    drop_order: Seq<NodeKey>,
    creates: Seq<ChangeEntry>,
    out: OrderedChangeSet,
    i: int,
)
    requires
        is_worklist(target, entries, work),
        is_ordered_by(target, source, work, cycle, order, drop_order, creates, out),
        0 <= i < entries.len(),
        entries[i].change is DropIndex,
    ensures
        out.drops@.contains(entries[i]) || exists|m: int|
            0 <= m < target.indexes@.len() && (#[trigger] target.indexes@[m]).qname@
                == entries[i].change->DropIndex_0@ && goes_with_a_column(
                entries,
                target.indexes@[m],
            ),
{
    let e = entries[i];
    assert(entries.contains(e));
    lemma_work_members(target, entries, work, e);
    lemma_planned_members(
        target,
        source,
        work,
        cycle,
        order,
        drop_order,
        creates,
        out,
        e,
    );
    if redundant_drop(target, entries)(e) {
        lemma_redundant(target, entries, e);
    }
}

/// A drop of an index that a dropped column takes along is not among the
/// drops.
pub proof fn law_index_drops_go_with_their_columns(
    target: Catalog,
    source: Catalog,
    entries: Seq<ChangeEntry>,
    work: Seq<ChangeEntry>,
    cycle: Seq<NodeKey>,
    order: Seq<NodeKey>,
    drop_order: Seq<NodeKey>,
    creates: Seq<ChangeEntry>,
    out: OrderedChangeSet,
    e: ChangeEntry,
    m: int,
)
    requires
        is_worklist(target, entries, work),
        is_ordered_by(target, source, work, cycle, order, drop_order, creates, out),
        0 <= m < target.indexes@.len(),
        e.change matches Change::DropIndex(q) && target.indexes@[m].qname@ == q@ && forall|n: int|
            0 <= n < target.indexes@.len() && n != m ==> (#[trigger] target.indexes@[n]).qname@
                != q@,
        goes_with_a_column(entries, target.indexes@[m]),
    ensures
        !out.drops@.contains(e),
{
    lemma_goes_with_a_column(target, entries, e, m);
    lemma_work_members(target, entries, work, e);
    lemma_planned_members(
        target,
        source,
        work,
        cycle,
        order,
        drop_order,
        creates,
        out,
        e,
    );
}

/// Every given entry other than a drop of an index is planned once more as it
/// is, but for a created table, whose foreign keys may be deferred.
pub proof fn law_every_other_entry_is_planned(
    target: Catalog,
    source: Catalog,
    entries: Seq<ChangeEntry>,
    work: Seq<ChangeEntry>,
    cycle: Seq<NodeKey>,
    order: Seq<NodeKey>,
    drop_order: Seq<NodeKey>,
    creates: Seq<ChangeEntry>,
    out: OrderedChangeSet,
    i: int,
)
    requires
        is_worklist(target, entries, work),
        is_ordered_by(target, source, work, cycle, order, drop_order, creates, out),
        0 <= i < entries.len(),
        !(entries[i].change is DropIndex),
        !(entries[i].change is CreateTable),
        !(entries[i].change is UnsupportedDiff),
    ensures
        out.creates_and_adds@.contains(entries[i]) || out.modifies@.contains(entries[i])
            || out.drops@.contains(entries[i]),
{
    let e = entries[i];
    assert(entries.contains(e));
    lemma_work_members(target, entries, work, e);
    lemma_planned_members(
        target,
        source,
        work,
        cycle,
        order,
        drop_order,
        creates,
        out,
        e,
    );
    let bucketed = work.filter(in_bucket(Bucket::Create));
    lemma_filter_members(work, in_bucket(Bucket::Create), e);
    if bucketed.contains(e) {
        let k = choose|k: int| 0 <= k < bucketed.len() && bucketed[k] == e;
        assert(stripped(bucketed[k], creates[k], crate::model::models(out.deferred_fks@)));
        assert(creates[k] == e);
    }
}

/// Nothing is planned that was not given, but for the recreation of views,
/// which needs no approval. (A created table may have lost constraints.)
pub proof fn law_nothing_else_is_planned(
    target: Catalog,
    source: Catalog,
    entries: Seq<ChangeEntry>,
    work: Seq<ChangeEntry>,
    cycle: Seq<NodeKey>,
    order: Seq<NodeKey>,
    drop_order: Seq<NodeKey>,
    creates: Seq<ChangeEntry>,
    out: OrderedChangeSet,
    e: ChangeEntry,
)
    requires
        is_worklist(target, entries, work),
        is_ordered_by(target, source, work, cycle, order, drop_order, creates, out),
        !(e.change is CreateTable),
        out.creates_and_adds@.contains(e) || out.modifies@.contains(e) || out.drops@.contains(e),
    ensures
        entries.contains(e) || (recreates_a_view(e.change) && e.destructiveness is Safe),
{
    lemma_work_members(target, entries, work, e);
    lemma_planned_members(
        target,
        source,
        work,
        cycle,
        order,
        drop_order,
        creates,
        out,
        e,
    );
    if creates.contains(e) {
        let bucketed = work.filter(in_bucket(Bucket::Create));
        let k = choose|k: int| 0 <= k < creates.len() && creates[k] == e;
        assert(stripped(bucketed[k], creates[k], crate::model::models(out.deferred_fks@)));
        assert(bucketed[k] == e);
        assert(bucketed.contains(e));
        lemma_filter_members(work, in_bucket(Bucket::Create), e);
    }
}

/// The entry creates a subscription.
pub open spec fn makes_subscription(e: ChangeEntry) -> bool {
    e.change matches Change::Subscription(SubscriptionChange::Create(_))
}

/// The entry drops a subscription.
pub open spec fn removes_subscription(e: ChangeEntry) -> bool {
    e.change matches Change::Subscription(SubscriptionChange::Drop { .. })
}

/// In every plan a subscription is created after everything else that is
/// created, and dropped before everything else that is dropped.
pub proof fn law_plans_create_subscriptions_last_and_drop_them_first(
    target: Catalog,
    source: Catalog,
    work: Seq<ChangeEntry>,
    cycle: Seq<NodeKey>,
    order: Seq<NodeKey>,
    drop_order: Seq<NodeKey>,
    creates: Seq<ChangeEntry>,
    out: OrderedChangeSet,
    i: int,
    j: int,
)
    requires
        is_ordered_by(target, source, work, cycle, order, drop_order, creates, out),
    ensures
        0 <= i < out.creates_and_adds@.len() && 0 <= j < out.creates_and_adds@.len()
            && makes_subscription(out.creates_and_adds@[i]) && !makes_subscription(
            out.creates_and_adds@[j],
        ) ==> j < i,
        0 <= i < out.drops@.len() && 0 <= j < out.drops@.len() && removes_subscription(
            out.drops@[i],
        ) && !removes_subscription(out.drops@[j]) ==> i < j,
{
    let made = by_order(creates, order);
    let first = made.filter(negated(creates_subscription()));
    let last = made.filter(creates_subscription());
    let all = out.creates_and_adds@;
    assert(all == first + last);
    if 0 <= i < all.len() && 0 <= j < all.len() && makes_subscription(all[i])
        && !makes_subscription(all[j]) {
        if i < first.len() {
            lemma_kept_satisfy(made, negated(creates_subscription()), i);
            assert(all[i] == first[i]);
        }
        if j >= first.len() {
            lemma_kept_satisfy(made, creates_subscription(), j - first.len());
            assert(all[j] == last[j - first.len()]);
        }
    }
    let gone = by_order(work.filter(in_bucket(Bucket::Drop)), drop_order);
    let before = gone.filter(drops_subscription());
    let after = gone.filter(negated(drops_subscription()));
    let drops = out.drops@;
    assert(drops == before + after);
    if 0 <= i < drops.len() && 0 <= j < drops.len() && removes_subscription(drops[i])
        && !removes_subscription(drops[j]) {
        if i >= before.len() {
            lemma_kept_satisfy(gone, negated(drops_subscription()), i - before.len());
            assert(drops[i] == after[i - before.len()]);
        }
        if j < before.len() {
            lemma_kept_satisfy(gone, drops_subscription(), j);
            assert(drops[j] == before[j]);
        }
    }
}

} // verus!
