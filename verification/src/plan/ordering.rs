//! Three-phase ordering with foreign key cycle extraction.
//!
//! [`order`] partitions an unordered [`ChangeSet`] into the three buckets of
//! an [`OrderedChangeSet`] and sorts each by the appropriate dependency
//! graph. Foreign key cycles in the create graph are broken by moving the
//! offending constraints into [`OrderedChangeSet::deferred_fks`].

use crate::diff::change::{Change, ChangeEntry, ChangeSet, SubscriptionChange};
use crate::diff::destructiveness::Destructiveness;
use crate::diff::table_op::{TableOp, TableOpEntry};
use crate::identifier::{Identifier, QnameModel, QualifiedName};
use crate::ir::catalog::Catalog;
use crate::ir::constraint::Constraint;
use crate::ir::index::{Index, IndexColumnExpr};
use crate::ir::table::Table;
use crate::model::{models, Duplicate};
use crate::plan::body_cycles::{
    find_body_cycle, has_body_cycle, is_body_cycle, law_bodies_are_in_the_graph,
};
use crate::plan::buckets::{bucket, bucket_of, change_key, change_node, Bucket};
use crate::plan::edges::{
    build_create_graph, build_drop_graph, build_reduced_graph, catalog_graph, NodeId, NodeKey,
};
use crate::plan::error::{render_routine, PlanError};
use crate::plan::graph::{is_cycle_list, is_topological_order};
use crate::plan::grouping::reversed;
use crate::plan::object_edges::{defers, is_deferred};
use crate::plan::ordered::{DeferredFkAdd, DeferredFkModel, OrderedChangeSet};
use crate::plan::policy::PlannerPolicy;
use crate::plan::recreate_views::{
    covers_affected, extend_with_dependent_recreations, recreates, recreates_all, views_to_recreate,
};
use crate::text::{joined, texts};
use vstd::prelude::*;
use vstd::string::*;

verus! {

/// The opposite of a condition.
pub open spec fn negated<T>(p: spec_fn(T) -> bool) -> spec_fn(T) -> bool {
    |x: T| !p(x)
}

/// Parts a list in two by a condition, keeping the order in each part.
fn split_flagged<T>(
    list: Vec<T>,
    flags: Vec<bool>,
    Ghost(pred): Ghost<spec_fn(T) -> bool>,
) -> (parts: (Vec<T>, Vec<T>))
    requires
        flags@.len() == list@.len(),
        forall|i: int| 0 <= i < list@.len() ==> #[trigger] flags@[i] == pred(list@[i]),
    ensures
        parts.0@ == list@.filter(pred),
        parts.1@ == list@.filter(negated(pred)),
{
    let ghost all = list@;
    let n: usize = list.len();
    let mut rest = reversed(list);
    let mut yes: Vec<T> = Vec::new();
    let mut no: Vec<T> = Vec::new();
    let mut i: usize = 0;
    proof {
        reveal(Seq::filter);
        assert(yes@ =~= all.take(0).filter(pred));
        assert(no@ =~= all.take(0).filter(negated(pred)));
    }
    while i < n
        invariant
            i <= n,
            n == all.len(),
            flags@.len() == n,
            forall|k: int| 0 <= k < n ==> #[trigger] flags@[k] == pred(all[k]),
            rest@ == all.skip(i as int).reverse(),
            yes@ == all.take(i as int).filter(pred),
            no@ == all.take(i as int).filter(negated(pred)),
        decreases n - i,
    {
        let ghost left = rest@;
        match rest.pop() {
            Some(item) => {
                proof {
                    assert(item == all[i as int]);
                    assert(rest@ =~= all.skip(i + 1).reverse());
                    assert(all.take(i + 1) =~= all.take(i as int).push(item));
                    all.take(i as int).lemma_filter_push(item, pred);
                    all.take(i as int).lemma_filter_push(item, negated(pred));
                }
                if flags[i] {
                    yes.push(item);
                } else {
                    no.push(item);
                }
            },
            None => {
                assert(left.len() > 0);
            },
        }
        i = i + 1;
    }
    assert(all.take(n as int) =~= all);
    (yes, no)
}

// ---------------------------------------------------------------------------
// Index drops that a column drop makes redundant
// ---------------------------------------------------------------------------

/// One of the operations drops that column.
pub open spec fn ops_drop_column(ops: Seq<TableOpEntry>, column: Seq<char>) -> bool {
    exists|j: int|
        0 <= j < ops.len() && ((#[trigger] ops[j]).op matches TableOp::DropColumn { name, .. }
            && name@ == column)
}

/// The change drops that column of that table.
pub open spec fn drops_column(c: Change, table: QnameModel, column: Seq<char>) -> bool {
    c matches Change::AlterTable { qname, ops } && qname@ == table && ops_drop_column(ops@, column)
}

/// One of the changes drops that column of that table.
pub open spec fn any_drops_column(
    entries: Seq<ChangeEntry>,
    table: QnameModel,
    column: Seq<char>,
) -> bool {
    exists|i: int|
        0 <= i < entries.len() && drops_column((#[trigger] entries[i]).change, table, column)
}

/// The index has that column in its key or among its included columns.
/// Expressions are not looked into.
pub open spec fn index_has_column(idx: Index, column: Seq<char>) -> bool {
    ||| exists|j: int|
        0 <= j < idx.columns@.len() && ((#[trigger] idx.columns@[j]).expr matches
            IndexColumnExpr::Column(name) && name@ == column)
    ||| exists|j: int| 0 <= j < idx.included@.len() && (#[trigger] idx.included@[j])@ == column
}

/// PostgreSQL drops the index together with a column that the changes drop.
pub open spec fn cascades(entries: Seq<ChangeEntry>, idx: Index) -> bool {
    exists|column: Seq<char>| #[trigger]
        index_has_column(idx, column) && any_drops_column(entries, idx.on.name()@, column)
}

/// `i` is where the last index of that name stands.
pub open spec fn last_index(c: Catalog, q: QnameModel, i: int) -> bool {
    &&& 0 <= i < c.indexes@.len()
    &&& c.indexes@[i].qname@ == q
    &&& forall|k: int| i < k < c.indexes@.len() ==> #[trigger] c.indexes@[k].qname@ != q
}

/// The change drops an index that disappears with a dropped column anyway.
pub open spec fn redundant_drop(target: Catalog, entries: Seq<ChangeEntry>) -> spec_fn(
    ChangeEntry,
) -> bool {
    |e: ChangeEntry|
        e.change matches Change::DropIndex(q) && exists|i: int| #[trigger]
            last_index(target, q@, i) && cascades(entries, target.indexes@[i])
}

/// The changes without redundant index drops.
pub open spec fn without_redundant_drops(
    target: Catalog,
    entries: Seq<ChangeEntry>,
) -> Seq<ChangeEntry> {
    entries.filter(negated(redundant_drop(target, entries)))
}

fn find_dropped_column(ops: &Vec<TableOpEntry>, column: &Identifier) -> (r: bool)
    ensures
        r == ops_drop_column(ops@, column@),
{
    let mut j: usize = 0;
    while j < ops.len()
        invariant
            j <= ops@.len(),
            forall|k: int|
                0 <= k < j ==> !((#[trigger] ops@[k]).op matches TableOp::DropColumn { name, .. }
                    && name@ == column@),
        decreases ops@.len() - j,
    {
        match &ops[j].op {
            TableOp::DropColumn { name, .. } => {
                if name.same(column) {
                    assert(ops@[j as int].op matches TableOp::DropColumn { name, .. } && name@
                        == column@);
                    return true;
                }
            },
            _ => {},
        }
        j = j + 1;
    }
    false
}

fn column_is_dropped(
    entries: &Vec<ChangeEntry>,
    table: &QualifiedName,
    column: &Identifier,
) -> (r: bool)
    ensures
        r == any_drops_column(entries@, table@, column@),
{
    let mut i: usize = 0;
    while i < entries.len()
        invariant
            i <= entries@.len(),
            forall|k: int|
                0 <= k < i ==> !drops_column((#[trigger] entries@[k]).change, table@, column@),
        decreases entries@.len() - i,
    {
        match &entries[i].change {
            Change::AlterTable { qname, ops } => {
                if qname.same(table) && find_dropped_column(ops, column) {
                    assert(drops_column(entries@[i as int].change, table@, column@));
                    return true;
                }
            },
            _ => {},
        }
        i = i + 1;
    }
    false
}

fn index_cascades(entries: &Vec<ChangeEntry>, idx: &Index) -> (r: bool)
    ensures
        r == cascades(entries@, *idx),
{
    let table = idx.on.qname();
    let mut j: usize = 0;
    while j < idx.columns.len()
        invariant
            j <= idx.columns@.len(),
            *table == idx.on.name(),
            forall|k: int|
                0 <= k < j ==> !((#[trigger] idx.columns@[k]).expr matches IndexColumnExpr::Column(
                    name,
                ) && any_drops_column(entries@, table@, name@)),
        decreases idx.columns@.len() - j,
    {
        match &idx.columns[j].expr {
            IndexColumnExpr::Column(name) => {
                if column_is_dropped(entries, table, name) {
                    assert(idx.columns@[j as int].expr matches IndexColumnExpr::Column(n) && n@
                        == name@);
                    assert(index_has_column(*idx, name@));
                    return true;
                }
            },
            IndexColumnExpr::Expression(_) => {},
        }
        j = j + 1;
    }
    let mut i: usize = 0;
    while i < idx.included.len()
        invariant
            i <= idx.included@.len(),
            *table == idx.on.name(),
            forall|k: int|
                0 <= k < i ==> !any_drops_column(entries@, table@, (#[trigger] idx.included@[k])@),
        decreases idx.included@.len() - i,
    {
        if column_is_dropped(entries, table, &idx.included[i]) {
            assert(index_has_column(*idx, idx.included@[i as int]@));
            return true;
        }
        i = i + 1;
    }
    proof {
        if cascades(entries@, *idx) {
            let column = choose|column: Seq<char>| #[trigger]
                index_has_column(*idx, column) && any_drops_column(
                    entries@,
                    idx.on.name()@,
                    column,
                );
            if exists|j: int|
                0 <= j < idx.columns@.len() && ((#[trigger] idx.columns@[j]).expr matches
                    IndexColumnExpr::Column(name) && name@ == column) {
                let j = choose|j: int|
                    0 <= j < idx.columns@.len() && ((#[trigger] idx.columns@[j]).expr matches
                        IndexColumnExpr::Column(name) && name@ == column);
                assert(idx.columns@[j].expr is Column);
            } else {
                let j = choose|j: int|
                    0 <= j < idx.included@.len() && (#[trigger] idx.included@[j])@ == column;
                assert(idx.included@[j]@ == column);
            }
        }
    }
    false
}

fn find_last_index<'a>(catalog: &'a Catalog, q: &QualifiedName) -> (found: Option<&'a Index>)
    ensures
        match found {
            Some(idx) => exists|i: int| #[trigger]
                last_index(*catalog, q@, i) && catalog.indexes@[i] == *idx,
            None => forall|i: int| !#[trigger] last_index(*catalog, q@, i),
        },
{
    let mut i: usize = catalog.indexes.len();
    while i > 0
        invariant
            i <= catalog.indexes@.len(),
            forall|k: int|
                i <= k < catalog.indexes@.len() ==> #[trigger] catalog.indexes@[k].qname@ != q@,
        decreases i,
    {
        i = i - 1;
        if catalog.indexes[i].qname.same(q) {
            assert(last_index(*catalog, q@, i as int));
            return Some(&catalog.indexes[i]);
        }
    }
    None
}

/// Remove `DropIndex` changes whose index PostgreSQL drops together with a
/// column that `ALTER TABLE ... DROP COLUMN` in the same plan drops.
///
/// An explicit `DROP INDEX` in a later step would fail. Expression keys and
/// partial-index predicates are not analyzed; their `DropIndex` is retained.
pub fn elide_cascaded_index_drops(target: &Catalog, changes: ChangeSet) -> (r: ChangeSet)
    ensures
        r.entries@ == without_redundant_drops(*target, changes.entries@),
{
    let entries = changes.entries;
    let ghost pred = redundant_drop(*target, entries@);
    let mut flags: Vec<bool> = Vec::new();
    let mut i: usize = 0;
    while i < entries.len()
        invariant
            i <= entries@.len(),
            flags@.len() == i,
            pred == redundant_drop(*target, entries@),
            forall|k: int| 0 <= k < i ==> #[trigger] flags@[k] == pred(entries@[k]),
        decreases entries@.len() - i,
    {
        let flag = match &entries[i].change {
            Change::DropIndex(q) => match find_last_index(target, q) {
                Some(idx) => {
                    let r = index_cascades(&entries, idx);
                    proof {
                        let i0 = choose|i: int| #[trigger]
                            last_index(*target, q@, i) && target.indexes@[i] == *idx;
                        assert forall|k: int| #[trigger] last_index(*target, q@, k) implies k == i0 by {
                            if k < i0 {
                                assert(target.indexes@[i0].qname@ != q@);
                            } else if i0 < k {
                                assert(target.indexes@[k].qname@ != q@);
                            }
                        }
                    }
                    r
                },
                None => false,
            },
            _ => false,
        };
        assert(flag == pred(entries@[i as int]));
        flags.push(flag);
        i = i + 1;
    }
    let parts = split_flagged(entries, flags, Ghost(pred));
    ChangeSet { entries: parts.1 }
}

// ---------------------------------------------------------------------------
// Partition
// ---------------------------------------------------------------------------

/// The entries of one phase.
pub open spec fn in_bucket(b: Bucket) -> spec_fn(ChangeEntry) -> bool {
    |e: ChangeEntry| bucket_of(e.change) == b
}

/// `i` is where the first entry that cannot be planned stands.
pub open spec fn first_unsupported(entries: Seq<ChangeEntry>, i: int) -> bool {
    &&& 0 <= i < entries.len()
    &&& bucket_of(entries[i].change) is Unsupported
    &&& forall|k: int|
        0 <= k < i ==> !(bucket_of((#[trigger] entries[k]).change) is Unsupported)
}

/// Every entry can be planned.
pub open spec fn all_supported(entries: Seq<ChangeEntry>) -> bool {
    forall|i: int|
        0 <= i < entries.len() ==> !(bucket_of((#[trigger] entries[i]).change) is Unsupported)
}

fn bucket_flags(entries: &Vec<ChangeEntry>, b: Bucket) -> (flags: Vec<bool>)
    ensures
        flags@.len() == entries@.len(),
        forall|i: int|
            0 <= i < entries@.len() ==> #[trigger] flags@[i] == in_bucket(b)(entries@[i]),
{
    let mut flags: Vec<bool> = Vec::new();
    let mut i: usize = 0;
    while i < entries.len()
        invariant
            i <= entries@.len(),
            flags@.len() == i,
            forall|k: int| 0 <= k < i ==> #[trigger] flags@[k] == in_bucket(b)(entries@[k]),
        decreases entries@.len() - i,
    {
        let own = bucket(&entries[i].change);
        flags.push(own == b);
        i = i + 1;
    }
    flags
}

/// Of the entries that are not creates, the modifies are the modifies of all.
proof fn lemma_filter_twice(entries: Seq<ChangeEntry>, a: Bucket, b: Bucket)
    requires
        a != b,
    ensures
        entries.filter(negated(in_bucket(a))).filter(in_bucket(b)) == entries.filter(in_bucket(b)),
    decreases entries.len(),
{
    reveal(Seq::filter);
    if entries.len() > 0 {
        let before = entries.drop_last();
        let last = entries.last();
        lemma_filter_twice(before, a, b);
        let kept = before.filter(negated(in_bucket(a)));
        kept.lemma_filter_push(last, in_bucket(b));
    }
}

/// Split a [`ChangeSet`] into creates, modifies and drops.
///
/// Fails with [`PlanError::Internal`] if any entry cannot be planned.
pub fn partition(changes: ChangeSet) -> (r: Result<
    (Vec<ChangeEntry>, Vec<ChangeEntry>, Vec<ChangeEntry>),
    PlanError,
>)
    ensures
        match r {
            Ok((creates, modifies, drops)) => {
                &&& all_supported(changes.entries@)
                &&& creates@ == changes.entries@.filter(in_bucket(Bucket::Create))
                &&& modifies@ == changes.entries@.filter(in_bucket(Bucket::Modify))
                &&& drops@ == changes.entries@.filter(in_bucket(Bucket::Drop))
            },
            Err(e) => exists|i: int| #[trigger]
                first_unsupported(changes.entries@, i) && (e matches PlanError::Internal(message)
                    && (changes.entries@[i].change matches Change::UnsupportedDiff { reason }
                    && message@ == reason@)),
        },
{
    let entries = changes.entries;
    let mut i: usize = 0;
    while i < entries.len()
        invariant
            i <= entries@.len(),
            entries == changes.entries,
            forall|k: int|
                0 <= k < i ==> !(bucket_of((#[trigger] entries@[k]).change) is Unsupported),
        decreases entries@.len() - i,
    {
        match &entries[i].change {
            Change::UnsupportedDiff { reason } => {
                let message = reason.clone();
                assert(first_unsupported(entries@, i as int));
                return Err(PlanError::Internal(message));
            },
            _ => {},
        }
        i = i + 1;
    }
    let ghost all = entries@;
    let create_flags = bucket_flags(&entries, Bucket::Create);
    let (creates, rest) = split_flagged(
        entries,
        create_flags,
        Ghost(in_bucket(Bucket::Create)),
    );
    let modify_flags = bucket_flags(&rest, Bucket::Modify);
    let (modifies, rest2) = split_flagged(rest, modify_flags, Ghost(in_bucket(Bucket::Modify)));
    let drop_flags = bucket_flags(&rest2, Bucket::Drop);
    let (drops, _none) = split_flagged(rest2, drop_flags, Ghost(in_bucket(Bucket::Drop)));
    proof {
        let not_create = all.filter(negated(in_bucket(Bucket::Create)));
        lemma_filter_twice(all, Bucket::Create, Bucket::Modify);
        lemma_filter_twice(not_create, Bucket::Modify, Bucket::Drop);
        lemma_filter_twice(all, Bucket::Create, Bucket::Drop);
    }
    Ok((creates, modifies, drops))
}

// ---------------------------------------------------------------------------
// Sorting
// ---------------------------------------------------------------------------

/// The entries that stand at a node.
pub open spec fn at_node(n: NodeKey) -> spec_fn(ChangeEntry) -> bool {
    |e: ChangeEntry| change_key(e.change) == n
}

/// The entries in the order of their nodes: for each node its entries, in the
/// order they came; then the entries whose node is not listed.
pub open spec fn by_order(entries: Seq<ChangeEntry>, order: Seq<NodeKey>) -> Seq<ChangeEntry>
    decreases order.len(),
{
    if order.len() == 0 {
        entries
    } else {
        entries.filter(at_node(order[0])) + by_order(
            entries.filter(negated(at_node(order[0]))),
            order.drop_first(),
        )
    }
}

fn node_flags(entries: &Vec<ChangeEntry>, n: &NodeId) -> (flags: Vec<bool>)
    requires
        all_supported(entries@),
    ensures
        flags@.len() == entries@.len(),
        forall|i: int|
            0 <= i < entries@.len() ==> #[trigger] flags@[i] == at_node(n@)(entries@[i]),
{
    let mut flags: Vec<bool> = Vec::new();
    let mut i: usize = 0;
    while i < entries.len()
        invariant
            i <= entries@.len(),
            flags@.len() == i,
            all_supported(entries@),
            forall|k: int| 0 <= k < i ==> #[trigger] flags@[k] == at_node(n@)(entries@[k]),
        decreases entries@.len() - i,
    {
        assert(!(bucket_of(entries@[i as int].change) is Unsupported));
        let own = change_node(&entries[i].change);
        flags.push(own.same(n));
        i = i + 1;
    }
    flags
}

/// What is kept of a list that can be planned can be planned.
proof fn lemma_filter_supported(entries: Seq<ChangeEntry>, p: spec_fn(ChangeEntry) -> bool)
    requires
        all_supported(entries),
    ensures
        all_supported(entries.filter(p)),
{
    let kept = entries.filter(p);
    assert forall|i: int| 0 <= i < kept.len() implies !(bucket_of((#[trigger] kept[i]).change)
        is Unsupported) by {
        assert(kept.contains(kept[i]));
        entries.lemma_filter_contains_rev(p, kept[i]);
        let k = choose|k: int| 0 <= k < entries.len() && entries[k] == kept[i];
        assert(!(bucket_of(entries[k].change) is Unsupported));
    }
}

/// Sort `entries` by the position of their node in `order`.
///
/// Entries whose node is missing from `order` come at the end. The sort is
/// stable.
pub fn sort_changes_by_order(entries: Vec<ChangeEntry>, order: &Vec<NodeId>) -> (sorted: Vec<
    ChangeEntry,
>)
    requires
        all_supported(entries@),
    ensures
        sorted@ == by_order(entries@, models(order@)),
{
    let ghost all = entries@;
    let ghost keys = models(order@);
    let mut rest = entries;
    let mut out: Vec<ChangeEntry> = Vec::new();
    let mut i: usize = 0;
    assert(keys.skip(0) =~= keys);
    assert(out@ + by_order(rest@, keys.skip(0)) =~= by_order(all, keys));
    while i < order.len()
        invariant
            i <= order@.len(),
            keys == models(order@),
            all_supported(rest@),
            out@ + by_order(rest@, keys.skip(i as int)) == by_order(all, keys),
        decreases order@.len() - i,
    {
        let ghost before = rest@;
        let ghost done = out@;
        let ghost left = keys.skip(i as int);
        let flags = node_flags(&rest, &order[i]);
        let ghost n = order@[i as int]@;
        let (mut here, others) = split_flagged(rest, flags, Ghost(at_node(n)));
        proof {
            lemma_filter_supported(before, negated(at_node(n)));
            assert(left[0] == n);
            assert(left.drop_first() =~= keys.skip(i + 1));
        }
        out.append(&mut here);
        rest = others;
        assert(out@ + by_order(rest@, keys.skip(i + 1)) =~= done + (before.filter(at_node(n))
            + by_order(rest@, keys.skip(i + 1))));
        i = i + 1;
    }
    out.append(&mut rest);
    out
}

/// The entry creates a subscription.
pub open spec fn creates_subscription() -> spec_fn(ChangeEntry) -> bool {
    |e: ChangeEntry| e.change matches Change::Subscription(SubscriptionChange::Create(_))
}

/// The entry drops a subscription.
pub open spec fn drops_subscription() -> spec_fn(ChangeEntry) -> bool {
    |e: ChangeEntry| e.change matches Change::Subscription(SubscriptionChange::Drop { .. })
}

/// The entries with the created subscriptions at the end.
pub open spec fn subscriptions_last(entries: Seq<ChangeEntry>) -> Seq<ChangeEntry> {
    entries.filter(negated(creates_subscription())) + entries.filter(creates_subscription())
}

/// The entries with the dropped subscriptions at the front.
pub open spec fn subscriptions_first(entries: Seq<ChangeEntry>) -> Seq<ChangeEntry> {
    entries.filter(drops_subscription()) + entries.filter(negated(drops_subscription()))
}

/// Move all created subscriptions to the end of the creates.
///
/// Local publications that they may refer to are created by then.
pub fn tier_subscriptions_last(entries: Vec<ChangeEntry>) -> (r: Vec<ChangeEntry>)
    ensures
        r@ == subscriptions_last(entries@),
{
    let mut flags: Vec<bool> = Vec::new();
    let mut i: usize = 0;
    while i < entries.len()
        invariant
            i <= entries@.len(),
            flags@.len() == i,
            forall|k: int|
                0 <= k < i ==> #[trigger] flags@[k] == creates_subscription()(entries@[k]),
        decreases entries@.len() - i,
    {
        let flag = matches!(
            &entries[i].change,
            Change::Subscription(SubscriptionChange::Create(_))
        );
        flags.push(flag);
        i = i + 1;
    }
    let (mut subs, mut rest) = split_flagged(entries, flags, Ghost(creates_subscription()));
    rest.append(&mut subs);
    rest
}

/// Move all dropped subscriptions to the front of the drops.
///
/// They are torn down before the local publications they may refer to.
pub fn tier_subscriptions_first(entries: Vec<ChangeEntry>) -> (r: Vec<ChangeEntry>)
    ensures
        r@ == subscriptions_first(entries@),
{
    let mut flags: Vec<bool> = Vec::new();
    let mut i: usize = 0;
    while i < entries.len()
        invariant
            i <= entries@.len(),
            flags@.len() == i,
            forall|k: int|
                0 <= k < i ==> #[trigger] flags@[k] == drops_subscription()(entries@[k]),
        decreases entries@.len() - i,
    {
        let flag = matches!(
            &entries[i].change,
            Change::Subscription(SubscriptionChange::Drop { .. })
        );
        flags.push(flag);
        i = i + 1;
    }
    let (mut subs, mut rest) = split_flagged(entries, flags, Ghost(drops_subscription()));
    subs.append(&mut rest);
    subs
}


// ---------------------------------------------------------------------------
// Foreign key cycles
// ---------------------------------------------------------------------------

/// The foreign keys of one table that lie within a cycle, in order.
pub open spec fn deferred_of(
    table: QualifiedName,
    constraints: Seq<Constraint>,
    cycle: Seq<NodeKey>,
) -> Seq<DeferredFkModel>
    decreases constraints.len(),
{
    if constraints.len() == 0 {
        Seq::empty()
    } else {
        let before = deferred_of(table, constraints.drop_last(), cycle);
        if defers(cycle, table, constraints.last()) {
            before.push(DeferredFkModel { table: table@, constraint: constraints.last()@ })
        } else {
            before
        }
    }
}

/// The foreign keys that lie within a cycle, table by table.
pub open spec fn deferred_fks_of(tables: Seq<Table>, cycle: Seq<NodeKey>) -> Seq<DeferredFkModel>
    decreases tables.len(),
{
    if tables.len() == 0 {
        Seq::empty()
    } else {
        deferred_fks_of(tables.drop_last(), cycle) + deferred_of(
            tables.last().qname,
            tables.last().constraints@,
            cycle,
        )
    }
}

/// Identify the foreign keys inside a cycle for the planner's post-pass.
///
/// A foreign key is taken out iff its own and its referenced table both
/// appear in `cycle` and are distinct.
pub fn extract_fk_cycles(source: &Catalog, cycle: &Vec<NodeId>) -> (deferred: Vec<DeferredFkAdd>)
    ensures
        models(deferred@) == deferred_fks_of(source.tables@, models(cycle@)),
{
    let ghost keys = models(cycle@);
    let mut out: Vec<DeferredFkAdd> = Vec::new();
    let mut i: usize = 0;
    assert(models(out@) =~= deferred_fks_of(source.tables@.take(0), keys));
    while i < source.tables.len()
        invariant
            i <= source.tables@.len(),
            keys == models(cycle@),
            models(out@) == deferred_fks_of(source.tables@.take(i as int), keys),
        decreases source.tables@.len() - i,
    {
        let t = &source.tables[i];
        let ghost start = models(out@);
        let mut j: usize = 0;
        assert(models(out@) =~= start + deferred_of(t.qname, t.constraints@.take(0), keys));
        while j < t.constraints.len()
            invariant
                j <= t.constraints@.len(),
                keys == models(cycle@),
                models(out@) == start + deferred_of(
                    t.qname,
                    t.constraints@.take(j as int),
                    keys,
                ),
            decreases t.constraints@.len() - j,
        {
            let c = &t.constraints[j];
            let ghost before = models(out@);
            assert(t.constraints@.take(j + 1).drop_last() =~= t.constraints@.take(j as int));
            if is_deferred(cycle, &t.qname, c) {
                let fk = DeferredFkAdd { table: t.qname.duplicate(), constraint: c.duplicate() };
                out.push(fk);
                assert(models(out@) =~= before.push(fk@));
            }
            assert(models(out@) =~= start + deferred_of(
                t.qname,
                t.constraints@.take(j + 1),
                keys,
            ));
            j = j + 1;
        }
        proof {
            assert(t.constraints@.take(j as int) =~= t.constraints@);
            assert(source.tables@.take(i + 1).drop_last() =~= source.tables@.take(i as int));
        }
        i = i + 1;
    }
    assert(source.tables@.take(i as int) =~= source.tables@);
    out
}

/// A constraint that is not deferred.
pub open spec fn stays_inline(table: QnameModel, deferred: Seq<DeferredFkModel>) -> spec_fn(
    Constraint,
) -> bool {
    |c: Constraint|
        forall|k: int|
            0 <= k < deferred.len() ==> !((#[trigger] deferred[k]).table == table
                && deferred[k].constraint.qname == c.qname@)
}

/// `after` is `before` with the deferred foreign keys taken out of a created
/// table; every other entry stays as it is.
pub open spec fn stripped(
    before: ChangeEntry,
    after: ChangeEntry,
    deferred: Seq<DeferredFkModel>,
) -> bool {
    &&& after.destructiveness == before.destructiveness
    &&& match before.change {
        Change::CreateTable(t) => after.change matches Change::CreateTable(u) && u == (Table {
            constraints: u.constraints,
            ..t
        }) && u.constraints@ == t.constraints@.filter(stays_inline(t.qname@, deferred)),
        _ => after.change == before.change,
    }
}

/// [`stripped`], entry by entry.
pub open spec fn all_stripped(
    before: Seq<ChangeEntry>,
    after: Seq<ChangeEntry>,
    deferred: Seq<DeferredFkModel>,
) -> bool {
    &&& after.len() == before.len()
    &&& forall|i: int|
        0 <= i < before.len() ==> stripped(before[i], #[trigger] after[i], deferred)
}

fn inline_flags(
    table: &QualifiedName,
    constraints: &Vec<Constraint>,
    deferred: &Vec<DeferredFkAdd>,
) -> (flags: Vec<bool>)
    ensures
        flags@.len() == constraints@.len(),
        forall|i: int|
            0 <= i < constraints@.len() ==> #[trigger] flags@[i] == stays_inline(
                table@,
                models(deferred@),
            )(constraints@[i]),
{
    let ghost all = models(deferred@);
    let mut flags: Vec<bool> = Vec::new();
    let mut i: usize = 0;
    while i < constraints.len()
        invariant
            i <= constraints@.len(),
            flags@.len() == i,
            all == models(deferred@),
            forall|k: int|
                0 <= k < i ==> #[trigger] flags@[k] == stays_inline(table@, all)(constraints@[k]),
        decreases constraints@.len() - i,
    {
        let c = &constraints[i];
        let mut keep = true;
        let mut j: usize = 0;
        while j < deferred.len()
            invariant
                j <= deferred@.len(),
                all == models(deferred@),
                keep == forall|k: int|
                    0 <= k < j ==> !((#[trigger] all[k]).table == table@ && all[k].constraint.qname
                        == c.qname@),
            decreases deferred@.len() - j,
        {
            let d = &deferred[j];
            assert(all[j as int] == d@);
            if d.table.same(table) && d.constraint.qname.same(&c.qname) {
                assert(!(!(all[j as int].table == table@ && all[j as int].constraint.qname
                    == c.qname@)));
                keep = false;
            }
            j = j + 1;
        }
        flags.push(keep);
        i = i + 1;
    }
    flags
}

/// Remove every deferred foreign key from any created table, so that it is
/// not emitted both inline and in the post-pass.
pub fn strip_deferred_fks(creates: Vec<ChangeEntry>, deferred: &Vec<DeferredFkAdd>) -> (r: Vec<
    ChangeEntry,
>)
    ensures
        all_stripped(creates@, r@, models(deferred@)),
{
    let ghost all = creates@;
    let n: usize = creates.len();
    let mut rest = reversed(creates);
    let mut out: Vec<ChangeEntry> = Vec::new();
    let mut i: usize = 0;
    while i < n
        invariant
            i <= n,
            n == all.len(),
            rest@ == all.skip(i as int).reverse(),
            out@.len() == i,
            forall|k: int|
                0 <= k < i ==> stripped(all[k], #[trigger] out@[k], models(deferred@)),
        decreases n - i,
    {
        let ghost left = rest@;
        match rest.pop() {
            Some(entry) => {
                proof {
                    assert(entry == all[i as int]);
                    assert(rest@ =~= all.skip(i + 1).reverse());
                }
                let destructiveness = entry.destructiveness;
                let change = match entry.change {
                    Change::CreateTable(t) => {
                        let ghost before = t;
                        let flags = inline_flags(&t.qname, &t.constraints, deferred);
                        let (kept, _gone) = split_flagged(
                            t.constraints,
                            flags,
                            Ghost(stays_inline(t.qname@, models(deferred@))),
                        );
                        let u = Table {
                            qname: t.qname,
                            columns: t.columns,
                            constraints: kept,
                            partition_by: t.partition_by,
                            partition_of: t.partition_of,
                            comment: t.comment,
                            owner: t.owner,
                            grants: t.grants,
                            rls_enabled: t.rls_enabled,
                            rls_forced: t.rls_forced,
                            policies: t.policies,
                            storage: t.storage,
                        };
                        assert(u == (Table { constraints: u.constraints, ..before }));
                        Change::CreateTable(u)
                    },
                    other => other,
                };
                let after = ChangeEntry { change, destructiveness };
                assert(stripped(all[i as int], after, models(deferred@)));
                out.push(after);
            },
            None => {
                assert(left.len() > 0);
            },
        }
        i = i + 1;
    }
    out
}

// ---------------------------------------------------------------------------
// Node labels in error messages
// ---------------------------------------------------------------------------

/// What a node of that rank is called in messages.
pub open spec fn rank_label(rank: nat) -> Seq<char> {
    if rank == 0 {
        "schema:"@
    } else if rank == 1 {
        "table:"@
    } else if rank == 2 {
        "index:"@
    } else if rank == 3 {
        "sequence:"@
    } else if rank == 4 {
        "constraint:"@
    } else if rank == 5 {
        "view:"@
    } else if rank == 6 {
        "mv:"@
    } else if rank == 7 {
        "type:"@
    } else if rank == 8 {
        "function:"@
    } else if rank == 9 {
        "procedure:"@
    } else if rank == 10 {
        "extension:"@
    } else if rank == 11 {
        "trigger:"@
    } else if rank == 12 {
        "publication:"@
    } else if rank == 13 {
        "subscription:"@
    } else if rank == 14 {
        "statistic:"@
    } else if rank == 15 {
        "collation:"@
    } else if rank == 16 {
        "event_trigger:"@
    } else if rank == 17 {
        "aggregate:"@
    } else if rank == 18 {
        "cast:"@
    } else if rank == 19 {
        "ts_dictionary:"@
    } else {
        "ts_configuration:"@
    }
}

/// A node in messages: its kind, then its name; a routine with its argument
/// types.
pub open spec fn node_label(n: NodeKey) -> Seq<char> {
    let p = n.parts;
    if n.rank == 8 || n.rank == 17 {
        rank_label(n.rank) + (p[0] + "."@ + p[1] + "("@ + joined(p.skip(2), ","@) + ")"@)
    } else if n.rank == 18 {
        rank_label(n.rank) + (p[0] + "."@ + p[1]) + " as "@ + (p[2] + "."@ + p[3])
    } else if n.rank == 4 {
        rank_label(n.rank) + (p[0] + "."@ + p[1]) + "."@ + p[2]
    } else if p.len() == 1 {
        rank_label(n.rank) + p[0]
    } else {
        rank_label(n.rank) + (p[0] + "."@ + p[1])
    }
}

fn labelled(label: &str, text: &str) -> (r: String)
    ensures
        r@ == label@ + text@,
{
    let mut out = label.to_owned();
    out.append(text);
    out
}

/// Renders a node for an error message.
pub fn render_node(n: &NodeId) -> (text: String)
    ensures
        text@ == node_label(n@),
{
    match n {
        NodeId::Schema(s) => labelled("schema:", s.as_str()),
        NodeId::Table(q) => labelled("table:", q.to_string().as_str()),
        NodeId::Index(q) => labelled("index:", q.to_string().as_str()),
        NodeId::Sequence(q) => labelled("sequence:", q.to_string().as_str()),
        NodeId::Constraint { table, name } => {
            let mut out = labelled("constraint:", table.to_string().as_str());
            out.append(".");
            out.append(name.as_str());
            proof {
                assert(n@.parts =~= seq![table@.schema, table@.name, name@]);
            }
            out
        },
        NodeId::View(q) => labelled("view:", q.to_string().as_str()),
        NodeId::Mv(q) => labelled("mv:", q.to_string().as_str()),
        NodeId::Type(q) => labelled("type:", q.to_string().as_str()),
        NodeId::Procedure(q) => labelled("procedure:", q.to_string().as_str()),
        NodeId::Extension(name) => labelled("extension:", name.as_str()),
        NodeId::Trigger(q) => labelled("trigger:", q.to_string().as_str()),
        NodeId::Publication(name) => labelled("publication:", name.as_str()),
        NodeId::Subscription(name) => labelled("subscription:", name.as_str()),
        NodeId::Statistic(q) => labelled("statistic:", q.to_string().as_str()),
        NodeId::Collation(q) => labelled("collation:", q.to_string().as_str()),
        NodeId::EventTrigger(name) => labelled("event_trigger:", name.as_str()),
        NodeId::TsDictionary(q) => labelled("ts_dictionary:", q.to_string().as_str()),
        NodeId::TsConfiguration(q) => labelled("ts_configuration:", q.to_string().as_str()),
        NodeId::Function(q, args) => {
            proof {
                assert(n@.parts[0] == q@.schema && n@.parts[1] == q@.name);
                assert(n@.parts.skip(2) =~= args@);
            }
            labelled("function:", render_routine(q, args).as_str())
        },
        NodeId::Aggregate(q, args) => {
            proof {
                assert(n@.parts[0] == q@.schema && n@.parts[1] == q@.name);
                assert(n@.parts.skip(2) =~= args@);
            }
            labelled("aggregate:", render_routine(q, args).as_str())
        },
        NodeId::Cast(source, target) => {
            proof {
                assert(n@.parts =~= seq![source@.schema, source@.name, target@.schema, target@.name]);
            }
            let mut out = labelled("cast:", source.to_string().as_str());
            out.append(" as ");
            out.append(target.to_string().as_str());
            out
        },
    }
}

/// The labels of a list of nodes.
pub open spec fn node_labels(nodes: Seq<NodeKey>) -> Seq<Seq<char>> {
    nodes.map_values(|n: NodeKey| node_label(n))
}

fn render_nodes(nodes: &Vec<NodeId>) -> (labels: Vec<String>)
    ensures
        texts(labels@) == node_labels(models(nodes@)),
{
    let mut out: Vec<String> = Vec::new();
    let mut i: usize = 0;
    while i < nodes.len()
        invariant
            i <= nodes@.len(),
            texts(out@) =~= node_labels(models(nodes@)).take(i as int),
        decreases nodes@.len() - i,
    {
        let ghost before = texts(out@);
        let label = render_node(&nodes[i]);
        out.push(label);
        assert(texts(out@) =~= before.push(label@));
        i = i + 1;
    }
    assert(texts(out@) =~= node_labels(models(nodes@)));
    out
}

// ---------------------------------------------------------------------------
// The whole
// ---------------------------------------------------------------------------

/// The changes of a list of entries.
pub open spec fn changes_of(entries: Seq<ChangeEntry>) -> Seq<Change> {
    entries.map_values(|e: ChangeEntry| e.change)
}

/// The views that have to be recreated because of a list of entries.
pub open spec fn forced_recreations(target: Catalog, entries: Seq<ChangeEntry>) -> Seq<QnameModel> {
    views_to_recreate(changes_of(without_redundant_drops(target, entries)), target)
}

/// The entries to plan: the given ones without redundant index drops, then
/// the forced view recreations, which need no approval.
pub open spec fn is_worklist(
    target: Catalog,
    entries: Seq<ChangeEntry>,
    work: Seq<ChangeEntry>,
) -> bool {
    let given = without_redundant_drops(target, entries);
    let n = given.len() as int;
    &&& work.len() >= n
    &&& work.take(n) == given
    &&& recreates_all(changes_of(work.skip(n)), target, forced_recreations(target, entries))
    &&& forall|i: int| n <= i < work.len() ==> (#[trigger] work[i]).destructiveness is Safe
}

/// The order in which things are created. Where the create graph cycles, the
/// foreign keys within the cycle are left out of it.
pub open spec fn is_create_order(
    source: Catalog,
    cycle: Seq<NodeKey>,
    order: Seq<NodeKey>,
) -> bool {
    let whole = catalog_graph(source, Seq::empty());
    ||| cycle.len() == 0 && is_topological_order::<NodeId>(whole, order)
    ||| is_cycle_list::<NodeId>(whole, cycle) && is_topological_order::<NodeId>(
        catalog_graph(source, cycle),
        order,
    )
}

/// `out` is `work` in planned order: creates by the create order, modifies by
/// the same order, drops by the reverse of the target's topological order;
/// subscriptions created last and dropped first; deferred foreign keys taken
/// out of created tables.
pub open spec fn is_ordered_by(
    target: Catalog,
    source: Catalog,
    work: Seq<ChangeEntry>,
    cycle: Seq<NodeKey>,
    order: Seq<NodeKey>,
    drop_order: Seq<NodeKey>,
    creates: Seq<ChangeEntry>,
    out: OrderedChangeSet,
) -> bool {
    &&& is_create_order(source, cycle, order)
    &&& is_topological_order::<NodeId>(catalog_graph(target, Seq::empty()), drop_order.reverse())
    &&& models(out.deferred_fks@) == deferred_fks_of(source.tables@, cycle)
    &&& all_stripped(
        work.filter(in_bucket(Bucket::Create)),
        creates,
        models(out.deferred_fks@),
    )
    &&& out.creates_and_adds@ == subscriptions_last(by_order(creates, order))
    &&& out.modifies@ == by_order(work.filter(in_bucket(Bucket::Modify)), order)
    &&& out.drops@ == subscriptions_first(
        by_order(work.filter(in_bucket(Bucket::Drop)), drop_order),
    )
}

/// `out` is what [`order`] gives where it succeeds.
pub open spec fn is_ordering(
    target: Catalog,
    source: Catalog,
    entries: Seq<ChangeEntry>,
    out: OrderedChangeSet,
) -> bool {
    exists|
        work: Seq<ChangeEntry>,
        cycle: Seq<NodeKey>,
        order: Seq<NodeKey>,
        drop_order: Seq<NodeKey>,
        creates: Seq<ChangeEntry>,
    |
        is_worklist(target, entries, work) && #[trigger] is_ordered_by(
            target,
            source,
            work,
            cycle,
            order,
            drop_order,
            creates,
            out,
        )
}

/// Takes the entries apart.
fn unzip_entries(entries: Vec<ChangeEntry>) -> (r: (Vec<Change>, Vec<Destructiveness>))
    ensures
        r.0@ == changes_of(entries@),
        r.1@ == entries@.map_values(|e: ChangeEntry| e.destructiveness),
{
    let ghost all = entries@;
    let n: usize = entries.len();
    let mut rest = reversed(entries);
    let mut changes: Vec<Change> = Vec::new();
    let mut approvals: Vec<Destructiveness> = Vec::new();
    let mut i: usize = 0;
    while i < n
        invariant
            i <= n,
            n == all.len(),
            rest@ == all.skip(i as int).reverse(),
            changes@ =~= changes_of(all).take(i as int),
            approvals@ =~= all.map_values(|e: ChangeEntry| e.destructiveness).take(i as int),
        decreases n - i,
    {
        let ghost left = rest@;
        match rest.pop() {
            Some(entry) => {
                proof {
                    assert(entry == all[i as int]);
                    assert(rest@ =~= all.skip(i + 1).reverse());
                }
                changes.push(entry.change);
                approvals.push(entry.destructiveness);
            },
            None => {
                assert(left.len() > 0);
            },
        }
        i = i + 1;
    }
    (changes, approvals)
}

/// Puts the entries together again; changes beyond the approvals are safe.
fn zip_entries(changes: Vec<Change>, approvals: Vec<Destructiveness>) -> (entries: Vec<
    ChangeEntry,
>)
    requires
        approvals@.len() <= changes@.len(),
    ensures
        changes_of(entries@) == changes@,
        forall|i: int|
            0 <= i < entries@.len() ==> (#[trigger] entries@[i]).destructiveness == if i
                < approvals@.len() {
                approvals@[i]
            } else {
                Destructiveness::Safe
            },
{
    let ghost all = changes@;
    let ghost given = approvals@;
    let n: usize = changes.len();
    let mut rest = reversed(changes);
    let mut tags = reversed(approvals);
    let mut out: Vec<ChangeEntry> = Vec::new();
    let mut i: usize = 0;
    while i < n
        invariant
            i <= n,
            n == all.len(),
            given.len() <= n,
            rest@ == all.skip(i as int).reverse(),
            i <= given.len() ==> tags@ == given.skip(i as int).reverse(),
            i > given.len() ==> tags@.len() == 0,
            changes_of(out@) =~= all.take(i as int),
            forall|k: int|
                0 <= k < out@.len() ==> (#[trigger] out@[k]).destructiveness == if k < given.len() {
                    given[k]
                } else {
                    Destructiveness::Safe
                },
        decreases n - i,
    {
        let ghost left = rest@;
        let ghost before = out@;
        let destructiveness = match tags.pop() {
            Some(d) => d,
            None => Destructiveness::Safe,
        };
        proof {
            if i < given.len() {
                assert(tags@ =~= given.skip(i + 1).reverse());
            }
        }
        match rest.pop() {
            Some(change) => {
                proof {
                    assert(change == all[i as int]);
                    assert(rest@ =~= all.skip(i + 1).reverse());
                }
                let entry = ChangeEntry { change, destructiveness };
                out.push(entry);
                assert(changes_of(out@) =~= changes_of(before).push(change));
            },
            None => {
                assert(left.len() > 0);
            },
        }
        i = i + 1;
    }
    assert(all.take(n as int) =~= all);
    out
}

/// A view recreation can always be planned.
proof fn lemma_recreation_supported(change: Change, c: Catalog, q: QnameModel)
    requires
        recreates(change, c, q),
    ensures
        !(bucket_of(change) is Unsupported),
{
}

/// Order a `ChangeSet` into an [`OrderedChangeSet`] for plan emission.
///
/// `target` is the live database catalog; `source` is the desired one. The
/// create and modify order comes from `source`, the drop order from `target`.
///
/// `policy` gates the dependent-view recreation walk: when
/// `policy.view_drop_create_dependents()` is `false` and any change would
/// force dependent views to be recreated, this function returns
/// [`PlanError::DependentViewsBlocked`] naming the affected views.
///
/// A cycle of the create graph that is left without its foreign keys is
/// reported as [`PlanError::BodyCycle`] where a body closes it, and as
/// [`PlanError::UnbreakableCycle`] otherwise.
pub fn order(
    target: &Catalog,
    source: &Catalog,
    changes: ChangeSet,
    policy: &PlannerPolicy,
) -> (result: Result<OrderedChangeSet, PlanError>)
    ensures
        covers_affected(
            changes_of(without_redundant_drops(*target, changes.entries@)),
            *target,
            forced_recreations(*target, changes.entries@),
        ),
        ({
            let given = without_redundant_drops(*target, changes.entries@);
            let forced = forced_recreations(*target, changes.entries@);
            let blocked = forced.len() > 0 && !policy.online.view_drop_create_dependents;
            match result {
                Ok(out) => {
                    &&& !blocked
                    &&& all_supported(given)
                    &&& is_ordering(*target, *source, changes.entries@, out)
                },
                Err(PlanError::DependentViewsBlocked { views }) => {
                    &&& blocked
                    &&& models(views@) == forced
                },
                Err(PlanError::Internal(message)) => {
                    &&& !blocked
                    &&& exists|i: int| #[trigger]
                        first_unsupported(given, i) && (given[i].change matches
                            Change::UnsupportedDiff { reason } && message@ == reason@)
                },
                Err(PlanError::UnbreakableCycle(labels)) => {
                    &&& !blocked
                    &&& all_supported(given)
                    &&& exists|cycle: Seq<NodeKey>, left: Seq<NodeKey>|
                        is_cycle_list::<NodeId>(catalog_graph(*source, Seq::empty()), cycle)
                            && #[trigger] is_cycle_list::<NodeId>(
                            catalog_graph(*source, cycle),
                            left,
                        ) && !has_body_cycle(*source, catalog_graph(*source, cycle)) && texts(
                            labels@,
                        ) == node_labels(left)
                },
                Err(PlanError::BodyCycle { nodes }) => {
                    &&& !blocked
                    &&& all_supported(given)
                    &&& exists|cycle: Seq<NodeKey>| #[trigger]
                        is_cycle_list::<NodeId>(catalog_graph(*source, Seq::empty()), cycle)
                            && is_body_cycle(
                            *source,
                            catalog_graph(*source, cycle),
                            models(nodes@),
                        )
                },
                Err(PlanError::UnexpectedDropCycle(labels)) => {
                    &&& !blocked
                    &&& all_supported(given)
                    &&& exists|cycle: Seq<NodeKey>, order: Seq<NodeKey>| #[trigger]
                        is_create_order(*source, cycle, order)
                    &&& exists|left: Seq<NodeKey>| #[trigger]
                        is_cycle_list::<NodeId>(catalog_graph(*target, Seq::empty()), left)
                            && texts(labels@) == node_labels(left)
                },
                Err(_) => false,
            }
        }),
{
    let ghost entries = changes.entries@;
    let ghost given = without_redundant_drops(*target, entries);
    let elided = elide_cascaded_index_drops(target, changes);
    let (mut raw, approvals) = unzip_entries(elided.entries);
    match extend_with_dependent_recreations(&mut raw, target, policy) {
        Err(views) => {
            return Err(PlanError::DependentViewsBlocked { views });
        },
        Ok(_) => {},
    }
    let ghost full = raw@;
    let work = zip_entries(raw, approvals);
    proof {
        let n = given.len() as int;
        assert(changes_of(work@).len() == work@.len());
        assert forall|i: int| 0 <= i < n implies work@[i] == given[i] by {
            assert(changes_of(work@)[i] == full[i]);
            assert(full.take(n)[i] == changes_of(given)[i]);
        }
        assert(work@.take(n) =~= given);
        assert(changes_of(work@.skip(n)) =~= full.skip(n));
        assert(is_worklist(*target, entries, work@));
    }
    let ghost worked = work@;
    let (creates, modifies, drops) = match partition(ChangeSet { entries: work }) {
        Ok(parts) => parts,
        Err(e) => {
            proof {
                let i = choose|i: int| #[trigger]
                    first_unsupported(worked, i) && (e matches PlanError::Internal(message) && (
                    worked[i].change matches Change::UnsupportedDiff { reason } && message@
                        == reason@));
                let n = given.len() as int;
                if i >= n {
                    let forced = forced_recreations(*target, entries);
                    assert(changes_of(worked.skip(n))[i - n] == worked[i].change);
                    lemma_recreation_supported(worked[i].change, *target, forced[i - n]);
                }
                assert(worked.take(n)[i] == worked[i]);
                assert forall|k: int| 0 <= k < i implies !(bucket_of((#[trigger] given[k]).change)
                    is Unsupported) by {
                    assert(worked.take(n)[k] == worked[k]);
                }
                assert(first_unsupported(given, i));
            }
            return Err(e);
        },
    };
    proof {
        let n = given.len() as int;
        assert forall|k: int| 0 <= k < given.len() implies !(bucket_of((#[trigger] given[k]).change)
            is Unsupported) by {
            assert(worked.take(n)[k] == worked[k]);
        }
        lemma_filter_supported(worked, in_bucket(Bucket::Create));
        lemma_filter_supported(worked, in_bucket(Bucket::Modify));
        lemma_filter_supported(worked, in_bucket(Bucket::Drop));
    }
    let create_graph = build_create_graph(source);
    let mut cycle: Vec<NodeId> = Vec::new();
    let create_order = match create_graph.topological_sort() {
        Ok(sorted) => sorted,
        Err(found) => {
            let reduced = build_reduced_graph(source, &found.nodes);
            match reduced.topological_sort() {
                Ok(sorted) => {
                    cycle = found.nodes;
                    sorted
                },
                Err(left) => {
                    proof {
                        law_bodies_are_in_the_graph(*source, models(found.nodes@));
                        assert(is_cycle_list::<NodeId>(
                            catalog_graph(*source, models(found.nodes@)),
                            models(left.nodes@),
                        ));
                    }
                    match find_body_cycle(source, &reduced) {
                        Some(nodes) => {
                            return Err(PlanError::BodyCycle { nodes });
                        },
                        None => {},
                    }
                    let labels = render_nodes(&left.nodes);
                    return Err(PlanError::UnbreakableCycle(labels));
                },
            }
        },
    };
    assert(models(cycle@).len() == cycle@.len());
    assert(is_create_order(*source, models(cycle@), models(create_order@)));
    let deferred_fks = extract_fk_cycles(source, &cycle);
    let drop_graph = build_drop_graph(target);
    let drop_order = match drop_graph.reverse_topological_sort() {
        Ok(sorted) => sorted,
        Err(left) => {
            let labels = render_nodes(&left.nodes);
            proof {
                assert(is_cycle_list::<NodeId>(
                    catalog_graph(*target, Seq::empty()),
                    models(left.nodes@),
                ));
            }
            return Err(PlanError::UnexpectedDropCycle(labels));
        },
    };
    let creates = strip_deferred_fks(creates, &deferred_fks);
    let ghost inline = creates@;
    proof {
        let bucketed = worked.filter(in_bucket(Bucket::Create));
        assert forall|k: int| 0 <= k < inline.len() implies !(bucket_of(
            (#[trigger] inline[k]).change,
        ) is Unsupported) by {
            assert(stripped(bucketed[k], inline[k], models(deferred_fks@)));
            assert(!(bucket_of(bucketed[k].change) is Unsupported));
        }
    }
    let creates = sort_changes_by_order(creates, &create_order);
    let modifies = sort_changes_by_order(modifies, &create_order);
    let drops = sort_changes_by_order(drops, &drop_order);
    let creates_and_adds = tier_subscriptions_last(creates);
    let drops = tier_subscriptions_first(drops);
    let out = OrderedChangeSet { creates_and_adds, modifies, drops, deferred_fks };
    proof {
        assert(is_ordered_by(
            *target,
            *source,
            worked,
            models(cycle@),
            models(create_order@),
            models(drop_order@),
            inline,
            out,
        ));
    }
    Ok(out)
}

} // verus!
