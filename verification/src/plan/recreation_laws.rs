//! Which views a change forces to be recreated, told from the bodies of the
//! views.

use crate::diff::change::{
    Change, ChangeEntry, FunctionChange, MvChange, ProcedureChange, UserTypeChange, ViewChange,
};
use crate::diff::table_op::TableOpEntry;
use crate::identifier::QnameModel;
use crate::ir::catalog::Catalog;
use crate::ir::view::{MaterializedView, ViewDefinition};
use crate::plan::edges::{DepEdge, NodeId, NodeKey};
use crate::plan::ordered::OrderedChangeSet;
use crate::plan::ordering::{
    changes_of, forced_recreations, is_ordered_by, is_worklist, without_redundant_drops,
};
use crate::plan::recreate_views::{
    change_triggers, closed_under_reference, column_triggers, covers_affected, dep_index,
    handled_view, is_affected_set, mv_index, referred_objects, refers_into, trigger_names,
    upstream_triggers, view_index, views_to_recreate, DepTriggerModel,
};
use vstd::prelude::*;

verus! {

/// The node is a relation, a type or a routine of that name.
pub open spec fn is_object(n: NodeId, q: QnameModel) -> bool {
    match n {
        NodeId::Table(x) => x@ == q,
        NodeId::View(x) => x@ == q,
        NodeId::Mv(x) => x@ == q,
        NodeId::Type(x) => x@ == q,
        NodeId::Procedure(x) => x@ == q,
        NodeId::Function(x, _) => x@ == q,
        _ => false,
    }
}

/// The body refers to an object of that name.
pub open spec fn body_names(deps: Seq<DepEdge>, q: QnameModel) -> bool {
    exists|k: int| 0 <= k < deps.len() && is_object((#[trigger] deps[k]).to, q)
}

/// The view or materialized view of that name has a body that refers to `q`,
/// and nothing else in the catalog has its name.
pub open spec fn only_view_on(c: Catalog, view: QnameModel, q: QnameModel) -> bool {
    ||| exists|i: int|
        0 <= i < c.views@.len() && is_only_view(c, i) && (#[trigger] c.views@[i]).qname@ == view
            && body_names(c.views@[i].body_dependencies@, q)
    ||| exists|i: int|
        0 <= i < c.materialized_views@.len() && is_only_mv(c, i) && (
        #[trigger] c.materialized_views@[i]).qname@ == view && body_names(
            c.materialized_views@[i].body_dependencies@,
            q,
        )
}

/// No other view, and no materialized view, has the name of the view at `i`.
pub open spec fn is_only_view(c: Catalog, i: int) -> bool {
    &&& forall|k: int|
        0 <= k < c.views@.len() && k != i ==> (#[trigger] c.views@[k]).qname@ != c.views@[i].qname@
    &&& forall|k: int|
        0 <= k < c.materialized_views@.len() ==> (#[trigger] c.materialized_views@[k]).qname@
            != c.views@[i].qname@
}

/// No other materialized view has the name of the one at `i`.
pub open spec fn is_only_mv(c: Catalog, i: int) -> bool {
    forall|k: int|
        0 <= k < c.materialized_views@.len() && k != i ==> (
        #[trigger] c.materialized_views@[k]).qname@ != c.materialized_views@[i].qname@
}

/// A body's list of objects holds exactly what the body refers to.
proof fn lemma_referred(deps: Seq<DepEdge>, q: QnameModel)
    ensures
        referred_objects(deps).contains(q) <==> body_names(deps, q),
    decreases deps.len(),
{
    if deps.len() > 0 {
        let rest = deps.drop_last();
        lemma_referred(rest, q);
        let before = referred_objects(rest);
        let n = deps.len() - 1;
        let all = referred_objects(deps);
        if body_names(rest, q) {
            let k = choose|k: int| 0 <= k < rest.len() && is_object((#[trigger] rest[k]).to, q);
            assert(deps[k] == rest[k]);
            let m = choose|m: int| 0 <= m < before.len() && before[m] == q;
            assert(all[m] == q);
        }
        if is_object(deps[n].to, q) {
            assert(all.last() == q);
        }
        if body_names(deps, q) && !is_object(deps[n].to, q) {
            let k = choose|k: int| 0 <= k < deps.len() && is_object((#[trigger] deps[k]).to, q);
            assert(rest[k] == deps[k]);
        }
        if all.contains(q) {
            let m = choose|m: int| 0 <= m < all.len() && all[m] == q;
            if m < before.len() {
                assert(before[m] == q);
                let k = choose|k: int| 0 <= k < rest.len() && is_object((#[trigger] rest[k]).to, q);
                assert(deps[k] == rest[k]);
            } else {
                assert(is_object(deps[n].to, q));
            }
        }
    }
}

proof fn lemma_view_row(views: Seq<ViewDefinition>, i: int)
    requires
        0 <= i < views.len(),
        forall|k: int|
            0 <= k < views.len() && k != i ==> (#[trigger] views[k]).qname@ != views[i].qname@,
        referred_objects(views[i].body_dependencies@).len() > 0,
    ensures
        view_index(views).contains_key(views[i].qname@),
        view_index(views)[views[i].qname@] == referred_objects(views[i].body_dependencies@),
    decreases views.len(),
{
    let rest = views.drop_last();
    if i < rest.len() {
        assert forall|k: int| 0 <= k < rest.len() && k != i implies (#[trigger] rest[k]).qname@
            != rest[i].qname@ by {
            assert(views[k] == rest[k]);
        }
        lemma_view_row(rest, i);
        assert(views[views.len() - 1].qname@ != views[i].qname@);
    }
}

proof fn lemma_mv_row(
    base: Map<QnameModel, Seq<QnameModel>>,
    mvs: Seq<MaterializedView>,
    i: int,
)
    requires
        0 <= i < mvs.len(),
        forall|k: int| 0 <= k < mvs.len() && k != i ==> (#[trigger] mvs[k]).qname@ != mvs[i].qname@,
        referred_objects(mvs[i].body_dependencies@).len() > 0,
    ensures
        mv_index(base, mvs).contains_key(mvs[i].qname@),
        mv_index(base, mvs)[mvs[i].qname@] == referred_objects(mvs[i].body_dependencies@),
    decreases mvs.len(),
{
    let rest = mvs.drop_last();
    if i < rest.len() {
        assert forall|k: int| 0 <= k < rest.len() && k != i implies (#[trigger] rest[k]).qname@
            != rest[i].qname@ by {
            assert(mvs[k] == rest[k]);
        }
        lemma_mv_row(base, rest, i);
        assert(mvs[mvs.len() - 1].qname@ != mvs[i].qname@);
    }
}

proof fn lemma_mv_row_kept(
    base: Map<QnameModel, Seq<QnameModel>>,
    mvs: Seq<MaterializedView>,
    q: QnameModel,
)
    requires
        forall|k: int| 0 <= k < mvs.len() ==> (#[trigger] mvs[k]).qname@ != q,
    ensures
        mv_index(base, mvs).contains_key(q) <==> base.contains_key(q),
        base.contains_key(q) ==> mv_index(base, mvs)[q] == base[q],
    decreases mvs.len(),
{
    if mvs.len() > 0 {
        let rest = mvs.drop_last();
        assert forall|k: int| 0 <= k < rest.len() implies (#[trigger] rest[k]).qname@ != q by {
            assert(mvs[k] == rest[k]);
        }
        lemma_mv_row_kept(base, rest, q);
        assert(mvs[mvs.len() - 1].qname@ != q);
    }
}

/// A view or materialized view whose body refers to a relation, type or routine
/// that is disturbed, or to a view that is affected, is affected.
pub proof fn law_views_on_affected_objects_are_affected(
    c: Catalog,
    triggers: Set<QnameModel>,
    s: Set<QnameModel>,
    view: QnameModel,
    q: QnameModel,
)
    requires
        is_affected_set(dep_index(c), triggers, s),
        only_view_on(c, view, q),
        triggers.contains(q) || s.contains(q),
    ensures
        s.contains(view),
{
    let index = dep_index(c);
    if exists|i: int|
        0 <= i < c.views@.len() && is_only_view(c, i) && (#[trigger] c.views@[i]).qname@ == view
            && body_names(c.views@[i].body_dependencies@, q) {
        let i = choose|i: int|
            0 <= i < c.views@.len() && is_only_view(c, i) && (#[trigger] c.views@[i]).qname@ == view
                && body_names(c.views@[i].body_dependencies@, q);
        let deps = c.views@[i].body_dependencies@;
        lemma_referred(deps, q);
        let m = choose|m: int|
            0 <= m < referred_objects(deps).len() && referred_objects(deps)[m] == q;
        lemma_view_row(c.views@, i);
        lemma_mv_row_kept(view_index(c.views@), c.materialized_views@, view);
        assert(index[view][m] == q);
    } else {
        let i = choose|i: int|
            0 <= i < c.materialized_views@.len() && is_only_mv(c, i) && (
            #[trigger] c.materialized_views@[i]).qname@ == view && body_names(
                c.materialized_views@[i].body_dependencies@,
                q,
            );
        let deps = c.materialized_views@[i].body_dependencies@;
        lemma_referred(deps, q);
        let m = choose|m: int|
            0 <= m < referred_objects(deps).len() && referred_objects(deps)[m] == q;
        lemma_mv_row(view_index(c.views@), c.materialized_views@, i);
        assert(index[view][m] == q);
    }
    assert(refers_into(index, view, triggers.union(s)));
}

/// Some view or materialized view of that name has a body that refers to `q`.
pub open spec fn some_view_on(c: Catalog, view: QnameModel, q: QnameModel) -> bool {
    ||| exists|i: int|
        0 <= i < c.views@.len() && (#[trigger] c.views@[i]).qname@ == view && body_names(
            c.views@[i].body_dependencies@,
            q,
        )
    ||| exists|i: int|
        0 <= i < c.materialized_views@.len() && (#[trigger] c.materialized_views@[i]).qname@ == view
            && body_names(c.materialized_views@[i].body_dependencies@, q)
}

proof fn lemma_view_row_comes_from(views: Seq<ViewDefinition>, view: QnameModel, q: QnameModel)
    requires
        view_index(views).contains_key(view),
        view_index(views)[view].contains(q),
    ensures
        exists|i: int|
            0 <= i < views.len() && (#[trigger] views[i]).qname@ == view && body_names(
                views[i].body_dependencies@,
                q,
            ),
    decreases views.len(),
{
    if views.len() > 0 {
        let rest = views.drop_last();
        let last = views.last();
        if last.qname@ == view && referred_objects(last.body_dependencies@).len() > 0 {
            lemma_referred(last.body_dependencies@, q);
            assert(views[views.len() - 1].qname@ == view);
        } else {
            lemma_view_row_comes_from(rest, view, q);
            let i = choose|i: int|
                0 <= i < rest.len() && (#[trigger] rest[i]).qname@ == view && body_names(
                    rest[i].body_dependencies@,
                    q,
                );
            assert(views[i] == rest[i]);
        }
    }
}

proof fn lemma_mv_row_comes_from(
    base: Map<QnameModel, Seq<QnameModel>>,
    mvs: Seq<MaterializedView>,
    view: QnameModel,
    q: QnameModel,
)
    requires
        mv_index(base, mvs).contains_key(view),
        mv_index(base, mvs)[view].contains(q),
    ensures
        (base.contains_key(view) && base[view].contains(q)) || exists|i: int|
            0 <= i < mvs.len() && (#[trigger] mvs[i]).qname@ == view && body_names(
                mvs[i].body_dependencies@,
                q,
            ),
    decreases mvs.len(),
{
    if mvs.len() > 0 {
        let rest = mvs.drop_last();
        let last = mvs.last();
        if last.qname@ == view && referred_objects(last.body_dependencies@).len() > 0 {
            lemma_referred(last.body_dependencies@, q);
            assert(mvs[mvs.len() - 1].qname@ == view);
        } else {
            lemma_mv_row_comes_from(base, rest, view, q);
            if !(base.contains_key(view) && base[view].contains(q)) {
                let i = choose|i: int|
                    0 <= i < rest.len() && (#[trigger] rest[i]).qname@ == view && body_names(
                        rest[i].body_dependencies@,
                        q,
                    );
                assert(mvs[i] == rest[i]);
            }
        }
    }
}

/// Nothing else is affected: each affected view has a body that refers to a
/// disturbed object or to another affected view, and where nothing is disturbed
/// nothing is affected.
pub proof fn law_affected_views_refer_to_affected_objects(
    c: Catalog,
    triggers: Set<QnameModel>,
    s: Set<QnameModel>,
    view: QnameModel,
)
    requires
        is_affected_set(dep_index(c), triggers, s),
        s.contains(view),
    ensures
        exists|q: QnameModel| #[trigger]
            some_view_on(c, view, q) && (triggers.contains(q) || s.contains(q)),
        exists|q: QnameModel| triggers.contains(q),
{
    let index = dep_index(c);
    let used = Set::new(|x: QnameModel| s.contains(x) && refers_into(index, x, triggers.union(s)));
    assert forall|x: QnameModel| #[trigger] refers_into(
        index,
        x,
        triggers.union(used),
    ) implies used.contains(x) by {
        let k = choose|k: int|
            0 <= k < index[x].len() && triggers.union(used).contains(#[trigger] index[x][k]);
        assert(triggers.union(s).contains(index[x][k]));
        assert(refers_into(index, x, triggers.union(s)));
    }
    assert(closed_under_reference(index, triggers, used));
    assert(used.contains(view));
    let k = choose|k: int|
        0 <= k < index[view].len() && triggers.union(s).contains(#[trigger] index[view][k]);
    let q = index[view][k];
    assert(index[view].contains(q));
    lemma_mv_row_comes_from(view_index(c.views@), c.materialized_views@, view, q);
    if view_index(c.views@).contains_key(view) && view_index(c.views@)[view].contains(q) {
        lemma_view_row_comes_from(c.views@, view, q);
    }
    assert(some_view_on(c, view, q));
    if forall|t: QnameModel| !triggers.contains(t) {
        let none = Set::<QnameModel>::empty();
        assert forall|x: QnameModel| #[trigger] refers_into(
            index,
            x,
            triggers.union(none),
        ) implies none.contains(x) by {}
        assert(closed_under_reference(index, triggers, none));
        assert(none.contains(view));
    }
}

/// The change drops the object of that name, replaces it, or drops or retypes
/// one of its columns.
pub open spec fn disturbs(c: Change, q: QnameModel) -> bool {
    match c {
        Change::DropTable { qname, .. } => qname@ == q,
        Change::AlterTable { qname, ops } => qname@ == q && exists|j: int|
            0 <= j < ops@.len() && ((#[trigger] ops@[j]).op is DropColumn || ops@[j].op
                is AlterColumnType),
        Change::View(ViewChange::Drop(qname)) => qname@ == q,
        Change::View(ViewChange::ReplaceBody { catalog, compatible, .. }) => catalog.qname@ == q
            && !compatible,
        Change::Mv(MvChange::Drop(qname)) => qname@ == q,
        Change::Mv(MvChange::ReplaceBody { catalog, .. }) => catalog.qname@ == q,
        Change::UserType(UserTypeChange::Drop(qname)) => qname@ == q,
        Change::UserType(UserTypeChange::ReplaceWithCascade { source, .. }) => source.qname@ == q,
        Change::Function(FunctionChange::Drop { qname, .. }) => qname@ == q,
        Change::Function(FunctionChange::ReplaceWithCascade { source, .. }) => source.qname@ == q,
        Change::Procedure(ProcedureChange::Drop(qname)) => qname@ == q,
        _ => false,
    }
}

/// The triggers hold an object of that name.
spec fn triggers_name(list: Seq<DepTriggerModel>, q: QnameModel) -> bool {
    exists|i: int| 0 <= i < list.len() && (#[trigger] list[i]).qname == q
}

proof fn lemma_triggers_add(a: Seq<DepTriggerModel>, b: Seq<DepTriggerModel>, q: QnameModel)
    ensures
        triggers_name(a + b, q) <==> triggers_name(a, q) || triggers_name(b, q),
{
    let all = a + b;
    if triggers_name(a, q) {
        let i = choose|i: int| 0 <= i < a.len() && (#[trigger] a[i]).qname == q;
        assert(all[i] == a[i]);
    }
    if triggers_name(b, q) {
        let i = choose|i: int| 0 <= i < b.len() && (#[trigger] b[i]).qname == q;
        assert(all[a.len() + i] == b[i]);
    }
    if triggers_name(all, q) {
        let i = choose|i: int| 0 <= i < all.len() && (#[trigger] all[i]).qname == q;
        if i < a.len() {
            assert(a[i] == all[i]);
        } else {
            assert(b[i - a.len()] == all[i]);
        }
    }
}

proof fn lemma_column_triggers(table: QnameModel, ops: Seq<TableOpEntry>, q: QnameModel)
    ensures
        triggers_name(column_triggers(table, ops), q) <==> table == q && exists|j: int|
            0 <= j < ops.len() && ((#[trigger] ops[j]).op is DropColumn || ops[j].op
                is AlterColumnType),
    decreases ops.len(),
{
    if ops.len() > 0 {
        let rest = ops.drop_last();
        lemma_column_triggers(table, rest, q);
        let before = column_triggers(table, rest);
        let all = column_triggers(table, ops);
        let n = ops.len() - 1;
        if exists|j: int|
            0 <= j < rest.len() && ((#[trigger] rest[j]).op is DropColumn || rest[j].op
                is AlterColumnType) {
            let j = choose|j: int|
                0 <= j < rest.len() && ((#[trigger] rest[j]).op is DropColumn || rest[j].op
                    is AlterColumnType);
            assert(ops[j] == rest[j]);
        }
        if triggers_name(before, q) {
            let i = choose|i: int| 0 <= i < before.len() && (#[trigger] before[i]).qname == q;
            assert(all[i] == before[i]);
        }
        if ops[n].op is DropColumn || ops[n].op is AlterColumnType {
            assert(all[before.len() as int].qname == table);
            if triggers_name(all, q) {
                let i = choose|i: int| 0 <= i < all.len() && (#[trigger] all[i]).qname == q;
                if i < before.len() {
                    assert(before[i] == all[i]);
                }
            }
        } else {
            assert(all == before);
            if exists|j: int|
                0 <= j < ops.len() && ((#[trigger] ops[j]).op is DropColumn || ops[j].op
                    is AlterColumnType) {
                let j = choose|j: int|
                    0 <= j < ops.len() && ((#[trigger] ops[j]).op is DropColumn || ops[j].op
                        is AlterColumnType);
                assert(rest[j] == ops[j]);
            }
        }
    }
}

proof fn lemma_change_triggers(c: Change, q: QnameModel)
    ensures
        triggers_name(change_triggers(c), q) <==> disturbs(c, q),
{
    match c {
        Change::AlterTable { qname, ops } => lemma_column_triggers(qname@, ops@, q),
        _ => {
            if disturbs(c, q) {
                assert(change_triggers(c)[0].qname == q);
            }
        },
    }
}

proof fn lemma_upstream(changes: Seq<Change>, q: QnameModel)
    ensures
        triggers_name(upstream_triggers(changes), q) <==> exists|i: int|
            0 <= i < changes.len() && disturbs(#[trigger] changes[i], q),
    decreases changes.len(),
{
    if changes.len() > 0 {
        let rest = changes.drop_last();
        let n = changes.len() - 1;
        lemma_upstream(rest, q);
        lemma_change_triggers(changes.last(), q);
        lemma_triggers_add(upstream_triggers(rest), change_triggers(changes.last()), q);
        if exists|i: int| 0 <= i < rest.len() && disturbs(#[trigger] rest[i], q) {
            let i = choose|i: int| 0 <= i < rest.len() && disturbs(#[trigger] rest[i], q);
            assert(changes[i] == rest[i]);
        }
        if exists|i: int| 0 <= i < changes.len() && disturbs(#[trigger] changes[i], q) {
            let i = choose|i: int| 0 <= i < changes.len() && disturbs(#[trigger] changes[i], q);
            if i < n {
                assert(rest[i] == changes[i]);
            } else {
                assert(changes.last() == changes[i]);
            }
        }
    }
}

/// The walk starts from exactly the objects that the changes disturb.
pub proof fn law_walks_start_from_disturbed_objects(changes: Seq<Change>, q: QnameModel)
    ensures
        trigger_names(upstream_triggers(changes)).contains(q) <==> exists|i: int|
            0 <= i < changes.len() && disturbs(#[trigger] changes[i], q),
{
    lemma_upstream(changes, q);
    let list = upstream_triggers(changes);
    let names = list.map_values(|t: DepTriggerModel| t.qname);
    if triggers_name(list, q) {
        let i = choose|i: int| 0 <= i < list.len() && (#[trigger] list[i]).qname == q;
        assert(names[i] == q);
    }
    if names.contains(q) {
        let i = choose|i: int| 0 <= i < names.len() && names[i] == q;
        assert(list[i].qname == q);
    }
}

/// The change replaces or drops the view or materialized view of that name.
pub open spec fn handles(c: Change, q: QnameModel) -> bool {
    match c {
        Change::View(ViewChange::ReplaceBody { source, .. }) => source.qname@ == q,
        Change::View(ViewChange::Drop(qname)) => qname@ == q,
        Change::Mv(MvChange::ReplaceBody { source, .. }) => source.qname@ == q,
        Change::Mv(MvChange::Drop(qname)) => qname@ == q,
        _ => false,
    }
}

/// A view is recreated on top of the changes exactly where it is affected and
/// no change replaces or drops it already.
pub proof fn law_affected_views_are_recreated_once(
    changes: Seq<Change>,
    c: Catalog,
    s: Set<QnameModel>,
    order: Seq<QnameModel>,
    q: QnameModel,
)
    requires
        is_affected_set(dep_index(c), trigger_names(upstream_triggers(changes)), s),
        order == crate::plan::recreate_views::affected_order(
            c,
            trigger_names(upstream_triggers(changes)),
        ),
        order.to_set() == s,
    ensures
        views_to_recreate(changes, c).contains(q) <==> s.contains(q) && !exists|i: int|
            0 <= i < changes.len() && handles(#[trigger] changes[i], q),
{
    let keep = |x: QnameModel|
        !crate::plan::recreate_views::handled_views(changes).contains(x);
    let handled = exists|i: int| 0 <= i < changes.len() && handles(#[trigger] changes[i], q);
    assert(crate::plan::recreate_views::handled_views(changes).contains(q) <==> handled) by {
        if handled {
            let i = choose|i: int| 0 <= i < changes.len() && handles(#[trigger] changes[i], q);
            assert(handled_view(changes[i]) == Some(q));
        }
        if crate::plan::recreate_views::handled_views(changes).contains(q) {
            let i = choose|i: int|
                0 <= i < changes.len() && handled_view(#[trigger] changes[i]) == Some(q);
            assert(handles(changes[i], q));
        }
    }
    assert(order.contains(q) <==> s.contains(q)) by {
        assert(order.to_set().contains(q) <==> order.contains(q));
    }
    if order.contains(q) && keep(q) {
        let k = choose|k: int| 0 <= k < order.len() && order[k] == q;
        order.lemma_filter_contains(keep, k);
    }
    if order.filter(keep).contains(q) {
        let k = choose|k: int| 0 <= k < order.filter(keep).len() && order.filter(keep)[k] == q;
        crate::plan::ordering_laws::lemma_kept_satisfy(order, keep, k);
    }
}

/// The given changes disturb that object.
pub open spec fn some_disturbs(entries: Seq<ChangeEntry>, q: QnameModel) -> bool {
    exists|k: int| 0 <= k < entries.len() && disturbs((#[trigger] entries[k]).change, q)
}

/// The entry drops the view or materialized view of that name and creates it
/// again, and needs no approval.
pub open spec fn recreation_of(e: ChangeEntry, q: QnameModel) -> bool {
    &&& e.destructiveness is Safe
    &&& match e.change {
        Change::View(ViewChange::ReplaceBody { source, catalog, compatible }) => !compatible
            && source.qname@ == q && source@ == catalog@,
        Change::Mv(MvChange::ReplaceBody { source, catalog }) => source.qname@ == q && source@
            == catalog@,
        _ => false,
    }
}

/// In every plan, a view whose body refers to an object that a given change
/// disturbs, directly or through other views, is recreated among the
/// modifies, unless a given change replaces or drops it already.
pub proof fn law_plans_recreate_affected_views(
    target: Catalog,
    source: Catalog,
    entries: Seq<ChangeEntry>,
    work: Seq<ChangeEntry>,
    cycle: Seq<NodeKey>,
    order: Seq<NodeKey>,
    drop_order: Seq<NodeKey>,
    creates: Seq<ChangeEntry>,
    out: OrderedChangeSet,
    s: Set<QnameModel>,
    view: QnameModel,
)
    requires
        covers_affected(
            changes_of(without_redundant_drops(target, entries)),
            target,
            forced_recreations(target, entries),
        ),
        is_worklist(target, entries, work),
        is_ordered_by(target, source, work, cycle, order, drop_order, creates, out),
        is_affected_set(
            dep_index(target),
            Set::new(|q: QnameModel| some_disturbs(entries, q)),
            s,
        ),
        s.contains(view),
    ensures
        (exists|e: ChangeEntry| out.modifies@.contains(e) && #[trigger] recreation_of(e, view)) || (
        exists|k: int| 0 <= k < entries.len() && handles((#[trigger] entries[k]).change, view)),
{
    let given = without_redundant_drops(target, entries);
    let changes = changes_of(given);
    let index = dep_index(target);
    let triggers = trigger_names(upstream_triggers(changes));
    let forced = forced_recreations(target, entries);
    let disturbed = Set::new(|q: QnameModel| some_disturbs(entries, q));
    assert forall|q: QnameModel| #[trigger] triggers.contains(q) <==> disturbed.contains(q) by {
        law_walks_start_from_disturbed_objects(changes, q);
        lemma_disturbing_entries(target, entries, q);
    }
    assert(triggers =~= disturbed);
    let affected = crate::plan::recreate_views::affected_set(index, triggers);
    assert(closed_under_reference(index, triggers, affected));
    assert(s.subset_of(affected));
    assert(affected.contains(view));
    if forced.contains(view) {
        let n = given.len() as int;
        let k = choose|k: int| 0 <= k < forced.len() && forced[k] == view;
        let e = work[n + k];
        assert(changes_of(work.skip(n))[k] == e.change);
        assert(crate::plan::recreate_views::recreates(e.change, target, view));
        assert(work.contains(e));
        crate::plan::elision_laws::lemma_planned_members(
            target,
            source,
            work,
            cycle,
            order,
            drop_order,
            creates,
            out,
            e,
        );
        lemma_recreation(e, target, view);
        assert(out.modifies@.contains(e) && recreation_of(e, view));
    } else {
        let k = choose|k: int|
            0 <= k < changes.len() && handled_view(#[trigger] changes[k]) == Some(view);
        assert(handles(given[k].change, view));
        crate::plan::elision_laws::lemma_given_members(target, entries, given[k]);
        let m = choose|m: int| 0 <= m < entries.len() && entries[m] == given[k];
        assert(handles(entries[m].change, view));
    }
}

proof fn lemma_recreation(e: ChangeEntry, c: Catalog, q: QnameModel)
    requires
        crate::plan::recreate_views::recreates(e.change, c, q),
        e.destructiveness is Safe,
    ensures
        recreation_of(e, q),
        crate::plan::ordering::in_bucket(crate::plan::buckets::Bucket::Modify)(e),
{
    if exists|i: int| #[trigger] crate::plan::recreate_views::first_view(c, q, i) {
        let i = choose|i: int| #[trigger] crate::plan::recreate_views::first_view(c, q, i);
        assert(c.views@[i]@.qname == q);
    }
    if exists|i: int| #[trigger] crate::plan::recreate_views::first_mv(c, q, i) {
        let i = choose|i: int| #[trigger] crate::plan::recreate_views::first_mv(c, q, i);
        assert(c.materialized_views@[i]@.qname == q);
    }
}

proof fn lemma_disturbing_entries(target: Catalog, entries: Seq<ChangeEntry>, q: QnameModel)
    ensures
        some_disturbs(entries, q) <==> exists|i: int|
            0 <= i < changes_of(without_redundant_drops(target, entries)).len() && disturbs(
                #[trigger] changes_of(without_redundant_drops(target, entries))[i],
                q,
            ),
{
    let given = without_redundant_drops(target, entries);
    let changes = changes_of(given);
    if some_disturbs(entries, q) {
        let k = choose|k: int| 0 <= k < entries.len() && disturbs((#[trigger] entries[k]).change, q);
        crate::plan::elision_laws::lemma_given_members(target, entries, entries[k]);
        let i = choose|i: int| 0 <= i < given.len() && given[i] == entries[k];
        assert(disturbs(changes[i], q));
    }
    if exists|i: int| 0 <= i < changes.len() && disturbs(#[trigger] changes[i], q) {
        let i = choose|i: int| 0 <= i < changes.len() && disturbs(#[trigger] changes[i], q);
        crate::plan::elision_laws::lemma_given_members(target, entries, given[i]);
        let k = choose|k: int| 0 <= k < entries.len() && entries[k] == given[i];
        assert(disturbs(entries[k].change, q));
    }
}

} // verus!
