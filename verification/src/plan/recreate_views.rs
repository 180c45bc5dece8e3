//! Identifies every catalog view (transitively) affected by upstream changes,
//! and adds explicit drop-and-create changes for them.
//!
//! The planner never issues `DROP ... CASCADE`: that hides which objects were
//! destroyed. Instead it walks the recorded body dependencies to find every
//! transitively affected view, and adds an incompatible body replacement for
//! each. The resulting chain is deterministic and visible.
//!
//! When [`PlannerPolicy::view_drop_create_dependents`] is `false`, the walk
//! still runs, but affected views are reported as an error instead.

use crate::diff::change::{
    Change, FunctionChange, MvChange, ProcedureChange, UserTypeChange, ViewChange,
};
use crate::diff::table_op::{TableOp, TableOpEntry};
use crate::identifier::{Identifier, QnameModel, QualifiedName};
use crate::ir::catalog::Catalog;
use crate::ir::view::{MaterializedView, ViewDefinition};
use crate::model::{models, Duplicate};
use crate::plan::edges::{DepEdge, NodeId};
use crate::plan::graph::{
    is_best_order, law_best_order_is_unique, law_best_order_names_every_node,
    law_best_order_puts_dependencies_first, Graph, GraphModel,
};
use crate::plan::policy::PlannerPolicy;
use crate::text::opt_text;
use vstd::prelude::*;

verus! {

/// An upstream object, or a column of it, whose change forces every view that
/// refers to it to be recreated.
#[derive(Debug, Clone, PartialEq, Eq)]
pub struct DepTrigger {
    /// Object whose change was detected.
    pub qname: QualifiedName,
    /// The column, where only one is concerned.
    pub column: Option<String>,
}

/// The model of a trigger.
#[verifier::ext_equal]
pub struct DepTriggerModel {
    /// Object whose change was detected.
    pub qname: QnameModel,
    /// The column, where only one is concerned.
    pub column: Option<Seq<char>>,
}

impl View for DepTrigger {
    type V = DepTriggerModel;

    open spec fn view(&self) -> DepTriggerModel {
        DepTriggerModel { qname: self.qname@, column: opt_text(self.column) }
    }
}

/// The object that a change drops, or drops and creates again: a table, view,
/// materialized view, user-defined type, function or procedure.
pub open spec fn dropped_object(c: Change) -> Option<QnameModel> {
    match c {
        Change::DropTable { qname, .. } => Some(qname@),
        Change::View(ViewChange::Drop(qname)) => Some(qname@),
        Change::Mv(MvChange::Drop(qname)) => Some(qname@),
        Change::UserType(UserTypeChange::Drop(qname)) => Some(qname@),
        Change::Function(FunctionChange::Drop { qname, .. }) => Some(qname@),
        Change::Procedure(ProcedureChange::Drop(qname)) => Some(qname@),
        Change::UserType(UserTypeChange::ReplaceWithCascade { source, .. }) => Some(source.qname@),
        Change::Function(FunctionChange::ReplaceWithCascade { source, .. }) => Some(source.qname@),
        _ => None,
    }
}

/// The column that a table operation drops or retypes.
pub open spec fn disturbed_column(op: TableOp) -> Option<Identifier> {
    match op {
        TableOp::DropColumn { name, .. } => Some(name),
        TableOp::AlterColumnType { name, .. } => Some(name),
        _ => None,
    }
}

/// The triggers of the operations on one table.
pub open spec fn column_triggers(
    table: QnameModel,
    ops: Seq<TableOpEntry>,
) -> Seq<DepTriggerModel>
    decreases ops.len(),
{
    if ops.len() == 0 {
        Seq::empty()
    } else {
        let before = column_triggers(table, ops.drop_last());
        match disturbed_column(ops.last().op) {
            Some(name) => before.push(DepTriggerModel { qname: table, column: Some(name@) }),
            None => before,
        }
    }
}

/// The triggers of one change.
pub open spec fn change_triggers(c: Change) -> Seq<DepTriggerModel> {
    match dropped_object(c) {
        Some(q) => seq![DepTriggerModel { qname: q, column: None }],
        None => match c {
            Change::AlterTable { qname, ops } => column_triggers(qname@, ops@),
            Change::View(ViewChange::ReplaceBody { catalog, compatible, .. }) => if compatible {
                Seq::empty()
            } else {
                seq![DepTriggerModel { qname: catalog.qname@, column: None }]
            },
            Change::Mv(MvChange::ReplaceBody { catalog, .. }) => seq![
                DepTriggerModel { qname: catalog.qname@, column: None },
            ],
            _ => Seq::empty(),
        },
    }
}

/// The triggers of a list of changes.
pub open spec fn upstream_triggers(changes: Seq<Change>) -> Seq<DepTriggerModel>
    decreases changes.len(),
{
    if changes.len() == 0 {
        Seq::empty()
    } else {
        upstream_triggers(changes.drop_last()) + change_triggers(changes.last())
    }
}

/// If `change` is a drop (or destructive replace) of a top-level object,
/// gives its name.
pub fn object_drop_qname(change: &Change) -> (q: Option<QualifiedName>)
    ensures
        crate::model::opt_model(q) == dropped_object(*change),
{
    match change {
        Change::DropTable { qname, .. }
        | Change::View(ViewChange::Drop(qname))
        | Change::Mv(MvChange::Drop(qname))
        | Change::UserType(UserTypeChange::Drop(qname))
        | Change::Function(FunctionChange::Drop { qname, .. })
        | Change::Procedure(ProcedureChange::Drop(qname)) => Some(qname.duplicate()),
        Change::UserType(UserTypeChange::ReplaceWithCascade { source, .. }) => Some(
            source.qname.duplicate(),
        ),
        Change::Function(FunctionChange::ReplaceWithCascade { source, .. }) => Some(
            source.qname.duplicate(),
        ),
        _ => None,
    }
}

fn push_trigger(out: &mut Vec<DepTrigger>, qname: QualifiedName, column: Option<String>)
    ensures
        models(final(out)@) == models(old(out)@).push(
            DepTriggerModel { qname: qname@, column: opt_text(column) },
        ),
{
    let ghost before = models(out@);
    let trigger = DepTrigger { qname, column };
    out.push(trigger);
    assert(models(out@) =~= before.push(trigger@));
}

fn collect_column_triggers(qname: &QualifiedName, ops: &Vec<TableOpEntry>, out: &mut Vec<DepTrigger>)
    ensures
        models(final(out)@) == models(old(out)@) + column_triggers(qname@, ops@),
{
    let ghost start = models(out@);
    let mut i: usize = 0;
    assert(models(out@) =~= start + column_triggers(qname@, ops@.take(0)));
    while i < ops.len()
        invariant
            i <= ops@.len(),
            models(out@) == start + column_triggers(qname@, ops@.take(i as int)),
        decreases ops@.len() - i,
    {
        let ghost before = models(out@);
        assert(ops@.take(i + 1).drop_last() =~= ops@.take(i as int));
        match &ops[i].op {
            TableOp::DropColumn { name, .. } | TableOp::AlterColumnType { name, .. } => {
                push_trigger(out, qname.duplicate(), Some(name.as_str().to_owned()));
            },
            _ => {},
        }
        assert(models(out@) =~= start + column_triggers(qname@, ops@.take(i + 1)));
        i = i + 1;
    }
    assert(ops@.take(i as int) =~= ops@);
}

/// Scan the already computed changes for events that force dependent views to
/// be recreated.
pub fn collect_upstream_triggers(changes: &Vec<Change>) -> (triggers: Vec<DepTrigger>)
    ensures
        models(triggers@) == upstream_triggers(changes@),
{
    let mut out: Vec<DepTrigger> = Vec::new();
    let mut i: usize = 0;
    assert(models(out@) =~= upstream_triggers(changes@.take(0)));
    while i < changes.len()
        invariant
            i <= changes@.len(),
            models(out@) == upstream_triggers(changes@.take(i as int)),
        decreases changes@.len() - i,
    {
        let ghost before = models(out@);
        assert(changes@.take(i + 1).drop_last() =~= changes@.take(i as int));
        match object_drop_qname(&changes[i]) {
            Some(q) => {
                push_trigger(&mut out, q, None);
            },
            None => match &changes[i] {
                Change::AlterTable { qname, ops } => {
                    collect_column_triggers(qname, ops, &mut out);
                },
                Change::View(ViewChange::ReplaceBody { catalog, compatible, .. }) => {
                    if !*compatible {
                        push_trigger(&mut out, catalog.qname.duplicate(), None);
                    }
                },
                Change::Mv(MvChange::ReplaceBody { catalog, .. }) => {
                    push_trigger(&mut out, catalog.qname.duplicate(), None);
                },
                _ => {},
            },
        }
        assert(models(out@) =~= before + change_triggers(changes@[i as int]));
        i = i + 1;
    }
    assert(changes@.take(i as int) =~= changes@);
    out
}

/// The relation, type or routine that a node names. Overloads of a function
/// count as one: dropping any of them concerns every view that calls one.
pub open spec fn referred_object(n: NodeId) -> Option<QnameModel> {
    match n {
        NodeId::Table(q) => Some(q@),
        NodeId::View(q) => Some(q@),
        NodeId::Mv(q) => Some(q@),
        NodeId::Type(q) => Some(q@),
        NodeId::Procedure(q) => Some(q@),
        NodeId::Function(q, _) => Some(q@),
        _ => None,
    }
}

/// The objects that a body refers to, in order.
pub open spec fn referred_objects(deps: Seq<DepEdge>) -> Seq<QnameModel>
    decreases deps.len(),
{
    if deps.len() == 0 {
        Seq::empty()
    } else {
        let before = referred_objects(deps.drop_last());
        match referred_object(deps.last().to) {
            Some(q) => before.push(q),
            None => before,
        }
    }
}

/// What each view refers to. A view that refers to nothing is not listed, and
/// of several views of one name the last one counts.
pub open spec fn view_index(views: Seq<ViewDefinition>) -> Map<QnameModel, Seq<QnameModel>>
    decreases views.len(),
{
    if views.len() == 0 {
        Map::empty()
    } else {
        let before = view_index(views.drop_last());
        let deps = referred_objects(views.last().body_dependencies@);
        if deps.len() == 0 {
            before
        } else {
            before.insert(views.last().qname@, deps)
        }
    }
}

/// [`view_index`] with materialized views added, which override views of the
/// same name.
pub open spec fn mv_index(
    base: Map<QnameModel, Seq<QnameModel>>,
    mvs: Seq<MaterializedView>,
) -> Map<QnameModel, Seq<QnameModel>>
    decreases mvs.len(),
{
    if mvs.len() == 0 {
        base
    } else {
        let before = mv_index(base, mvs.drop_last());
        let deps = referred_objects(mvs.last().body_dependencies@);
        if deps.len() == 0 {
            before
        } else {
            before.insert(mvs.last().qname@, deps)
        }
    }
}

/// What each view and materialized view of a catalog refers to.
pub open spec fn dep_index(c: Catalog) -> Map<QnameModel, Seq<QnameModel>> {
    mv_index(view_index(c.views@), c.materialized_views@)
}

/// `q` refers to an object of `s`.
pub open spec fn refers_into(
    index: Map<QnameModel, Seq<QnameModel>>,
    q: QnameModel,
    s: Set<QnameModel>,
) -> bool {
    index.contains_key(q) && exists|k: int|
        0 <= k < index[q].len() && s.contains(#[trigger] index[q][k])
}

/// `s` holds every view that refers to a trigger or to a view of `s`.
pub open spec fn closed_under_reference(
    index: Map<QnameModel, Seq<QnameModel>>,
    triggers: Set<QnameModel>,
    s: Set<QnameModel>,
) -> bool {
    forall|q: QnameModel| #[trigger] refers_into(index, q, triggers.union(s)) ==> s.contains(q)
}

/// `s` is the set of views that the triggers affect, directly or through other
/// views: the smallest set closed under reference.
pub open spec fn is_affected_set(
    index: Map<QnameModel, Seq<QnameModel>>,
    triggers: Set<QnameModel>,
    s: Set<QnameModel>,
) -> bool {
    &&& closed_under_reference(index, triggers, s)
    &&& forall|other: Set<QnameModel>| #[trigger]
        closed_under_reference(index, triggers, other) ==> s.subset_of(other)
}

/// The views that the triggers affect.
pub open spec fn affected_set(
    index: Map<QnameModel, Seq<QnameModel>>,
    triggers: Set<QnameModel>,
) -> Set<QnameModel> {
    choose|s: Set<QnameModel>| is_affected_set(index, triggers, s)
}

/// The references among a set of views.
pub open spec fn reference_graph(
    index: Map<QnameModel, Seq<QnameModel>>,
    s: Set<QnameModel>,
) -> GraphModel<QnameModel> {
    GraphModel {
        nodes: s,
        edges: Set::new(
            |e: (QnameModel, QnameModel)|
                s.contains(e.0) && s.contains(e.1) && index.contains_key(e.0)
                    && index[e.0].contains(e.1),
        ),
    }
}

/// The affected views, each after the affected views it refers to; views that
/// refer to one another in a circle come last, by name.
pub open spec fn affected_order(c: Catalog, triggers: Set<QnameModel>) -> Seq<QnameModel> {
    let index = dep_index(c);
    choose|list: Seq<QnameModel>|
        is_best_order::<QualifiedName>(reference_graph(index, affected_set(index, triggers)), list)
}

/// The objects of a list of triggers.
pub open spec fn trigger_names(triggers: Seq<DepTriggerModel>) -> Set<QnameModel> {
    triggers.map_values(|t: DepTriggerModel| t.qname).to_set()
}

proof fn lemma_affected_set_unique(
    index: Map<QnameModel, Seq<QnameModel>>,
    triggers: Set<QnameModel>,
    s: Set<QnameModel>,
)
    requires
        is_affected_set(index, triggers, s),
    ensures
        affected_set(index, triggers) == s,
{
    let t = affected_set(index, triggers);
    assert(is_affected_set(index, triggers, t));
    assert(closed_under_reference(index, triggers, s));
    assert(closed_under_reference(index, triggers, t));
    assert(s =~= t);
}

/// One row of the dependency index.
pub struct DepRow {
    /// A view or materialized view.
    pub qname: QualifiedName,
    /// The objects it refers to.
    pub deps: Vec<QualifiedName>,
}

/// What a list of rows records; of several rows of one name the last counts.
pub open spec fn rows_index(rows: Seq<DepRow>) -> Map<QnameModel, Seq<QnameModel>>
    decreases rows.len(),
{
    if rows.len() == 0 {
        Map::empty()
    } else {
        rows_index(rows.drop_last()).insert(rows.last().qname@, models(rows.last().deps@))
    }
}

proof fn lemma_rows_index_keys(rows: Seq<DepRow>, q: QnameModel)
    ensures
        rows_index(rows).contains_key(q) <==> exists|i: int|
            0 <= i < rows.len() && (#[trigger] rows[i]).qname@ == q,
    decreases rows.len(),
{
    if rows.len() > 0 {
        let before = rows.drop_last();
        lemma_rows_index_keys(before, q);
        if rows_index(rows).contains_key(q) {
            if rows.last().qname@ == q {
                assert(rows[rows.len() - 1].qname@ == q);
            } else {
                let i = choose|i: int| 0 <= i < before.len() && (#[trigger] before[i]).qname@ == q;
                assert(rows[i].qname@ == q);
            }
        }
        if exists|i: int| 0 <= i < rows.len() && (#[trigger] rows[i]).qname@ == q {
            let i = choose|i: int| 0 <= i < rows.len() && (#[trigger] rows[i]).qname@ == q;
            if i < before.len() {
                assert(before[i].qname@ == q);
            }
        }
    }
}

/// The objects that a body refers to, in order.
fn collect_referred(deps: &Vec<DepEdge>) -> (names: Vec<QualifiedName>)
    ensures
        models(names@) == referred_objects(deps@),
{
    let mut out: Vec<QualifiedName> = Vec::new();
    let mut i: usize = 0;
    assert(models(out@) =~= referred_objects(deps@.take(0)));
    while i < deps.len()
        invariant
            i <= deps@.len(),
            models(out@) == referred_objects(deps@.take(i as int)),
        decreases deps@.len() - i,
    {
        let ghost before = models(out@);
        assert(deps@.take(i + 1).drop_last() =~= deps@.take(i as int));
        match &deps[i].to {
            NodeId::Table(q)
            | NodeId::View(q)
            | NodeId::Mv(q)
            | NodeId::Type(q)
            | NodeId::Procedure(q)
            | NodeId::Function(q, _) => {
                let name = q.duplicate();
                out.push(name);
                assert(models(out@) =~= before.push(name@));
            },
            _ => {},
        }
        i = i + 1;
    }
    assert(deps@.take(i as int) =~= deps@);
    out
}

/// Build the dependency index of a catalog.
pub fn build_dep_index(catalog: &Catalog) -> (rows: Vec<DepRow>)
    ensures
        rows_index(rows@) == dep_index(*catalog),
{
    let mut rows: Vec<DepRow> = Vec::new();
    let mut i: usize = 0;
    assert(rows_index(rows@) =~= view_index(catalog.views@.take(0)));
    while i < catalog.views.len()
        invariant
            i <= catalog.views@.len(),
            rows_index(rows@) == view_index(catalog.views@.take(i as int)),
        decreases catalog.views@.len() - i,
    {
        let ghost before = rows@;
        let v = &catalog.views[i];
        assert(catalog.views@.take(i + 1).drop_last() =~= catalog.views@.take(i as int));
        let deps = collect_referred(&v.body_dependencies);
        if deps.len() > 0 {
            rows.push(DepRow { qname: v.qname.duplicate(), deps });
            assert(rows@.drop_last() =~= before);
        } else {
            assert(models(deps@).len() == 0);
        }
        i = i + 1;
    }
    assert(catalog.views@.take(i as int) =~= catalog.views@);
    let ghost base = view_index(catalog.views@);
    let mut j: usize = 0;
    assert(mv_index(base, catalog.materialized_views@.take(0)) == base);
    while j < catalog.materialized_views.len()
        invariant
            j <= catalog.materialized_views@.len(),
            rows_index(rows@) == mv_index(base, catalog.materialized_views@.take(j as int)),
        decreases catalog.materialized_views@.len() - j,
    {
        let ghost before = rows@;
        let mv = &catalog.materialized_views[j];
        assert(catalog.materialized_views@.take(j + 1).drop_last()
            =~= catalog.materialized_views@.take(j as int));
        let deps = collect_referred(&mv.body_dependencies);
        if deps.len() > 0 {
            rows.push(DepRow { qname: mv.qname.duplicate(), deps });
            assert(rows@.drop_last() =~= before);
        } else {
            assert(models(deps@).len() == 0);
        }
        j = j + 1;
    }
    assert(catalog.materialized_views@.take(j as int) =~= catalog.materialized_views@);
    rows
}

/// What the index records of a name that it lists.
fn lookup<'a>(rows: &'a Vec<DepRow>, q: &QualifiedName) -> (deps: Option<&'a Vec<QualifiedName>>)
    ensures
        match deps {
            Some(d) => rows_index(rows@).contains_key(q@) && rows_index(rows@)[q@] == models(d@),
            None => !rows_index(rows@).contains_key(q@),
        },
{
    let mut i: usize = rows.len();
    assert(rows@.take(i as int) =~= rows@);
    while i > 0
        invariant
            i <= rows@.len(),
            rows_index(rows@).contains_key(q@) <==> rows_index(rows@.take(i as int)).contains_key(
                q@,
            ),
            rows_index(rows@)[q@] == rows_index(rows@.take(i as int))[q@],
        decreases i,
    {
        assert(rows@.take(i as int).drop_last() =~= rows@.take(i - 1));
        if rows[i - 1].qname.same(q) {
            return Some(&rows[i - 1].deps);
        }
        i = i - 1;
    }
    None
}

/// The names of the marked rows.
pub open spec fn marked_names(rows: Seq<DepRow>, hit: Seq<bool>) -> Set<QnameModel> {
    Set::new(
        |q: QnameModel|
            exists|i: int| 0 <= i < rows.len() && hit[i] && (#[trigger] rows[i]).qname@ == q,
    )
}

fn is_marked(rows: &Vec<DepRow>, hit: &Vec<bool>, q: &QualifiedName) -> (r: bool)
    requires
        rows@.len() == hit@.len(),
    ensures
        r == marked_names(rows@, hit@).contains(q@),
{
    let mut i: usize = 0;
    while i < rows.len()
        invariant
            i <= rows@.len(),
            rows@.len() == hit@.len(),
            forall|k: int| 0 <= k < i && hit@[k] ==> (#[trigger] rows@[k]).qname@ != q@,
        decreases rows@.len() - i,
    {
        if hit[i] && rows[i].qname.same(q) {
            assert(rows@[i as int].qname@ == q@);
            return true;
        }
        i = i + 1;
    }
    false
}

fn is_trigger(triggers: &Vec<DepTrigger>, q: &QualifiedName) -> (r: bool)
    ensures
        r == trigger_names(models(triggers@)).contains(q@),
{
    let ghost names = models(triggers@).map_values(|t: DepTriggerModel| t.qname);
    let mut i: usize = 0;
    while i < triggers.len()
        invariant
            i <= triggers@.len(),
            names == models(triggers@).map_values(|t: DepTriggerModel| t.qname),
            forall|k: int| 0 <= k < i ==> #[trigger] names[k] != q@,
        decreases triggers@.len() - i,
    {
        assert(names[i as int] == triggers@[i as int].qname@);
        if triggers[i].qname.same(q) {
            assert(names.contains(q@));
            return true;
        }
        i = i + 1;
    }
    assert(!names.contains(q@));
    false
}

/// Whether a view that refers to `deps` is affected.
fn hits(
    deps: &Vec<QualifiedName>,
    triggers: &Vec<DepTrigger>,
    rows: &Vec<DepRow>,
    hit: &Vec<bool>,
) -> (r: bool)
    requires
        rows@.len() == hit@.len(),
    ensures
        r == exists|k: int|
            0 <= k < models(deps@).len() && trigger_names(models(triggers@)).union(
                marked_names(rows@, hit@),
            ).contains(#[trigger] models(deps@)[k]),
{
    let ghost s = trigger_names(models(triggers@)).union(marked_names(rows@, hit@));
    let mut i: usize = 0;
    while i < deps.len()
        invariant
            i <= deps@.len(),
            rows@.len() == hit@.len(),
            s == trigger_names(models(triggers@)).union(marked_names(rows@, hit@)),
            forall|k: int| 0 <= k < i ==> !s.contains(#[trigger] models(deps@)[k]),
        decreases deps@.len() - i,
    {
        assert(models(deps@)[i as int] == deps@[i as int]@);
        if is_trigger(triggers, &deps[i]) || is_marked(rows, hit, &deps[i]) {
            assert(s.contains(models(deps@)[i as int]));
            return true;
        }
        i = i + 1;
    }
    false
}

/// How many rows are not marked.
spec fn unmarked(hit: Seq<bool>) -> nat
    decreases hit.len(),
{
    if hit.len() == 0 {
        0
    } else {
        unmarked(hit.drop_last()) + if hit.last() {
            0nat
        } else {
            1nat
        }
    }
}

proof fn lemma_marking_decreases(hit: Seq<bool>, i: int)
    requires
        0 <= i < hit.len(),
        !hit[i],
    ensures
        unmarked(hit.update(i, true)) + 1 == unmarked(hit),
    decreases hit.len(),
{
    let next = hit.update(i, true);
    if i == hit.len() - 1 {
        assert(next.drop_last() =~= hit.drop_last());
    } else {
        lemma_marking_decreases(hit.drop_last(), i);
        assert(next.drop_last() =~= hit.drop_last().update(i, true));
    }
}

/// Marks the rows of every affected view.
fn mark_affected(triggers: &Vec<DepTrigger>, rows: &Vec<DepRow>) -> (hit: Vec<bool>)
    ensures
        hit@.len() == rows@.len(),
        is_affected_set(
            rows_index(rows@),
            trigger_names(models(triggers@)),
            marked_names(rows@, hit@),
        ),
{
    let ghost index = rows_index(rows@);
    let ghost t = trigger_names(models(triggers@));
    let mut hit: Vec<bool> = Vec::new();
    while hit.len() < rows.len()
        invariant
            hit@.len() <= rows@.len(),
            forall|k: int| 0 <= k < hit@.len() ==> !#[trigger] hit@[k],
        decreases rows@.len() - hit@.len(),
    {
        hit.push(false);
    }
    let mut changed = true;
    while changed
        invariant
            index == rows_index(rows@),
            t == trigger_names(models(triggers@)),
            hit@.len() == rows@.len(),
            forall|k: int, other: Set<QnameModel>|
                0 <= k < hit@.len() && #[trigger] hit@[k] && #[trigger] closed_under_reference(
                    index,
                    t,
                    other,
                ) ==> other.contains(rows@[k].qname@),
            !changed ==> forall|k: int|
                0 <= k < hit@.len() && !#[trigger] hit@[k] ==> !refers_into(
                    index,
                    rows@[k].qname@,
                    t.union(marked_names(rows@, hit@)),
                ),
        decreases unmarked(hit@), changed as int,
    {
        changed = false;
        let ghost start = hit@;
        let mut i: usize = 0;
        while i < rows.len()
            invariant
                i <= rows@.len(),
                index == rows_index(rows@),
                t == trigger_names(models(triggers@)),
                hit@.len() == rows@.len(),
                forall|k: int, other: Set<QnameModel>|
                    0 <= k < hit@.len() && #[trigger] hit@[k] && #[trigger] closed_under_reference(
                        index,
                        t,
                        other,
                    ) ==> other.contains(rows@[k].qname@),
                unmarked(hit@) <= unmarked(start),
                changed ==> unmarked(hit@) < unmarked(start),
                !changed ==> hit@ == start && forall|k: int|
                    0 <= k < i && !#[trigger] hit@[k] ==> !refers_into(
                        index,
                        rows@[k].qname@,
                        t.union(marked_names(rows@, hit@)),
                    ),
            decreases rows@.len() - i,
        {
            if !hit[i] {
                let ghost s = marked_names(rows@, hit@);
                let ghost q = rows@[i as int].qname@;
                proof {
                    lemma_rows_index_keys(rows@, q);
                    assert(rows@[i as int].qname@ == q);
                }
                match lookup(rows, &rows[i].qname) {
                    Some(deps) => {
                        if hits(deps, triggers, rows, &hit) {
                            proof {
                                lemma_marking_decreases(hit@, i as int);
                                assert(refers_into(index, q, t.union(s)));
                                assert forall|other: Set<QnameModel>| #[trigger]
                                    closed_under_reference(index, t, other) implies other.contains(
                                    q,
                                ) by {
                                    assert(s.subset_of(other)) by {
                                        assert forall|x: QnameModel| s.contains(x) implies #[trigger] other.contains(x) by {
                                            let k = choose|k: int|
                                                0 <= k < rows@.len() && hit@[k] && (
                                                #[trigger] rows@[k]).qname@ == x;
                                            assert(hit@[k]);
                                        }
                                    }
                                    let k = choose|k: int|
                                        0 <= k < index[q].len() && t.union(s).contains(
                                            #[trigger] index[q][k],
                                        );
                                    assert(t.union(other).contains(index[q][k]));
                                    assert(refers_into(index, q, t.union(other)));
                                }
                            }
                            hit.set(i, true);
                            changed = true;
                        } else {
                            assert(!refers_into(index, q, t.union(s)));
                        }
                    },
                    None => {
                        assert(false);
                    },
                }
            }
            i = i + 1;
        }
    }
    proof {
        let s = marked_names(rows@, hit@);
        assert forall|q: QnameModel| #[trigger] refers_into(index, q, t.union(s)) implies s.contains(
            q,
        ) by {
            lemma_rows_index_keys(rows@, q);
            let i = choose|i: int| 0 <= i < rows@.len() && (#[trigger] rows@[i]).qname@ == q;
            if !hit@[i] {
                assert(!refers_into(index, rows@[i].qname@, t.union(s)));
            }
        }
        assert forall|other: Set<QnameModel>| #[trigger] closed_under_reference(index, t, other) implies s.subset_of(
            other,
        ) by {
            assert forall|x: QnameModel| s.contains(x) implies #[trigger] other.contains(x) by {
                let k = choose|k: int|
                    0 <= k < rows@.len() && hit@[k] && (#[trigger] rows@[k]).qname@ == x;
                assert(hit@[k]);
            }
        }
    }
    hit
}

/// Builds the references among the marked rows.
fn build_reference_graph(rows: &Vec<DepRow>, hit: &Vec<bool>) -> (g: Graph<QualifiedName>)
    requires
        rows@.len() == hit@.len(),
    ensures
        g.wf(),
        g@ == reference_graph(rows_index(rows@), marked_names(rows@, hit@)),
{
    let ghost index = rows_index(rows@);
    let ghost s = marked_names(rows@, hit@);
    let mut g: Graph<QualifiedName> = Graph::new();
    let mut i: usize = 0;
    while i < rows.len()
        invariant
            i <= rows@.len(),
            rows@.len() == hit@.len(),
            index == rows_index(rows@),
            s == marked_names(rows@, hit@),
            g.wf(),
            g@.nodes.subset_of(s),
            forall|k: int| 0 <= k < i && hit@[k] ==> g@.nodes.contains((#[trigger] rows@[k]).qname@),
            g@.edges.subset_of(reference_graph(index, s).edges),
            forall|k: int, d: QnameModel|
                0 <= k < i && hit@[k] && #[trigger] reference_graph(index, s).edges.contains(
                    ((#[trigger] rows@[k]).qname@, d),
                ) ==> g@.edges.contains((rows@[k].qname@, d)),
        decreases rows@.len() - i,
    {
        if hit[i] {
            let name = &rows[i].qname;
            proof {
                lemma_rows_index_keys(rows@, name@);
                assert(rows@[i as int].qname@ == name@);
                assert(s.contains(name@));
            }
            g.add_node(name.duplicate());
            match lookup(rows, name) {
                Some(deps) => {
                    let mut j: usize = 0;
                    while j < deps.len()
                        invariant
                            i < rows@.len(),
                            j <= deps@.len(),
                            rows@.len() == hit@.len(),
                            index == rows_index(rows@),
                            s == marked_names(rows@, hit@),
                            name@ == rows@[i as int].qname@,
                            index.contains_key(name@),
                            index[name@] == models(deps@),
                            s.contains(name@),
                            g.wf(),
                            g@.nodes.subset_of(s),
                            forall|k: int|
                                0 <= k <= i && hit@[k] ==> g@.nodes.contains(
                                    (#[trigger] rows@[k]).qname@,
                                ),
                            g@.edges.subset_of(reference_graph(index, s).edges),
                            forall|k: int, d: QnameModel|
                                0 <= k < i && hit@[k] && #[trigger] reference_graph(
                                    index,
                                    s,
                                ).edges.contains(((#[trigger] rows@[k]).qname@, d))
                                    ==> g@.edges.contains((rows@[k].qname@, d)),
                            forall|m: int|
                                0 <= m < j && s.contains(#[trigger] models(deps@)[m])
                                    ==> g@.edges.contains((name@, models(deps@)[m])),
                        decreases deps@.len() - j,
                    {
                        assert(models(deps@)[j as int] == deps@[j as int]@);
                        if is_marked(rows, hit, &deps[j]) {
                            proof {
                                assert(index[name@].contains(models(deps@)[j as int]));
                                assert(reference_graph(index, s).edges.contains(
                                    (name@, deps@[j as int]@),
                                ));
                            }
                            g.add_edge(name.duplicate(), deps[j].duplicate());
                        }
                        j = j + 1;
                    }
                    proof {
                        assert forall|d: QnameModel| #[trigger]
                            reference_graph(index, s).edges.contains((name@, d)) implies g@.edges.contains(
                            (name@, d),
                        ) by {
                            let m = choose|m: int| 0 <= m < models(deps@).len() && models(deps@)[m] == d;
                            assert(s.contains(models(deps@)[m]));
                        }
                    }
                },
                None => {
                    assert(false);
                },
            }
        }
        i = i + 1;
    }
    proof {
        let target = reference_graph(index, s);
        assert forall|q: QnameModel| s.contains(q) implies #[trigger] g@.nodes.contains(q) by {
            let k = choose|k: int| 0 <= k < rows@.len() && hit@[k] && (#[trigger] rows@[k]).qname@ == q;
            assert(g@.nodes.contains(rows@[k].qname@));
        }
        assert forall|e: (QnameModel, QnameModel)| target.edges.contains(e) implies #[trigger] g@.edges.contains(
            e,
        ) by {
            let k = choose|k: int| 0 <= k < rows@.len() && hit@[k] && (#[trigger] rows@[k]).qname@ == e.0;
            assert(target.edges.contains((rows@[k].qname@, e.1)));
            assert(e == (rows@[k].qname@, e.1));
        }
        assert(g@ =~= target);
    }
    g
}

/// Compute the transitive closure of views affected by `triggers`.
///
/// If view B refers to view A, A comes first.
pub fn walk_transitive(triggers: &Vec<DepTrigger>, catalog: &Catalog) -> (names: Vec<QualifiedName>)
    ensures
        models(names@) == affected_order(*catalog, trigger_names(models(triggers@))),
        ({
            let index = dep_index(*catalog);
            let s = affected_set(index, trigger_names(models(triggers@)));
            &&& is_affected_set(index, trigger_names(models(triggers@)), s)
            &&& is_best_order::<QualifiedName>(reference_graph(index, s), models(names@))
        }),
{
    let rows = build_dep_index(catalog);
    let hit = mark_affected(triggers, &rows);
    let g = build_reference_graph(&rows, &hit);
    let names = g.sort_with_leftovers();
    proof {
        let index = dep_index(*catalog);
        let t = trigger_names(models(triggers@));
        lemma_affected_set_unique(index, t, marked_names(rows@, hit@));
        let graph = reference_graph(index, affected_set(index, t));
        let other = affected_order(*catalog, t);
        assert(is_best_order::<QualifiedName>(graph, models(names@)));
        assert(is_best_order::<QualifiedName>(graph, other));
        law_best_order_is_unique::<QualifiedName>(graph, models(names@), other);
    }
    names
}


/// `i` is where the first view of that name stands.
pub open spec fn first_view(c: Catalog, q: QnameModel, i: int) -> bool {
    &&& 0 <= i < c.views@.len()
    &&& c.views@[i].qname@ == q
    &&& forall|k: int| 0 <= k < i ==> #[trigger] c.views@[k].qname@ != q
}

/// `i` is where the first materialized view of that name stands.
pub open spec fn first_mv(c: Catalog, q: QnameModel, i: int) -> bool {
    &&& 0 <= i < c.materialized_views@.len()
    &&& c.materialized_views@[i].qname@ == q
    &&& forall|k: int| 0 <= k < i ==> #[trigger] c.materialized_views@[k].qname@ != q
}

/// Finds the first view of that name.
pub fn find_view<'a>(catalog: &'a Catalog, q: &QualifiedName) -> (found: Option<&'a ViewDefinition>)
    ensures
        match found {
            Some(v) => exists|i: int| #[trigger] first_view(*catalog, q@, i) && catalog.views@[i] == *v,
            None => forall|i: int| 0 <= i < catalog.views@.len() ==> #[trigger] catalog.views@[i].qname@ != q@,
        },
{
    let mut i: usize = 0;
    while i < catalog.views.len()
        invariant
            i <= catalog.views@.len(),
            forall|k: int| 0 <= k < i ==> #[trigger] catalog.views@[k].qname@ != q@,
        decreases catalog.views@.len() - i,
    {
        if catalog.views[i].qname.same(q) {
            assert(first_view(*catalog, q@, i as int));
            return Some(&catalog.views[i]);
        }
        i = i + 1;
    }
    None
}

/// Finds the first materialized view of that name.
pub fn find_mv<'a>(catalog: &'a Catalog, q: &QualifiedName) -> (found: Option<&'a MaterializedView>)
    ensures
        match found {
            Some(v) => exists|i: int| #[trigger] first_mv(*catalog, q@, i) && catalog.materialized_views@[i] == *v,
            None => forall|i: int|
                0 <= i < catalog.materialized_views@.len() ==> #[trigger] catalog.materialized_views@[i].qname@ != q@,
        },
{
    let mut i: usize = 0;
    while i < catalog.materialized_views.len()
        invariant
            i <= catalog.materialized_views@.len(),
            forall|k: int| 0 <= k < i ==> #[trigger] catalog.materialized_views@[k].qname@ != q@,
        decreases catalog.materialized_views@.len() - i,
    {
        if catalog.materialized_views[i].qname.same(q) {
            assert(first_mv(*catalog, q@, i as int));
            return Some(&catalog.materialized_views[i]);
        }
        i = i + 1;
    }
    None
}

/// The view that a change already replaces or drops.
pub open spec fn handled_view(c: Change) -> Option<QnameModel> {
    match c {
        Change::View(ViewChange::ReplaceBody { source, .. }) => Some(source.qname@),
        Change::View(ViewChange::Drop(q)) => Some(q@),
        Change::Mv(MvChange::ReplaceBody { source, .. }) => Some(source.qname@),
        Change::Mv(MvChange::Drop(q)) => Some(q@),
        _ => None,
    }
}

/// The views that a list of changes already replaces or drops.
pub open spec fn handled_views(changes: Seq<Change>) -> Set<QnameModel> {
    Set::new(
        |q: QnameModel|
            exists|i: int| 0 <= i < changes.len() && handled_view(#[trigger] changes[i]) == Some(q),
    )
}

/// The views to recreate because of a list of changes: every affected view
/// that the changes do not handle already.
pub open spec fn views_to_recreate(changes: Seq<Change>, c: Catalog) -> Seq<QnameModel> {
    affected_order(c, trigger_names(upstream_triggers(changes))).filter(
        |q: QnameModel| !handled_views(changes).contains(q),
    )
}

/// No affected view is forgotten: the affected views are all that refer to a
/// trigger, directly or through other views, and each of them is recreated or
/// handled by the changes already.
pub open spec fn covers_affected(changes: Seq<Change>, c: Catalog, names: Seq<QnameModel>) -> bool {
    let index = dep_index(c);
    let triggers = trigger_names(upstream_triggers(changes));
    let affected = affected_set(index, triggers);
    &&& is_affected_set(index, triggers, affected)
    &&& forall|q: QnameModel| #[trigger]
        affected.contains(q) ==> names.contains(q) || handled_views(changes).contains(q)
}

/// `change` drops the view named `q` and creates it as the catalog has it; of
/// a view and a materialized view of one name the view counts.
pub open spec fn recreates(change: Change, c: Catalog, q: QnameModel) -> bool {
    ||| exists|i: int| #[trigger]
        first_view(c, q, i) && (change matches Change::View(
            ViewChange::ReplaceBody { source, catalog, compatible },
        ) && source@ == c.views@[i]@ && catalog@ == c.views@[i]@ && !compatible)
    ||| (forall|i: int| 0 <= i < c.views@.len() ==> #[trigger] c.views@[i].qname@ != q) && exists|
        i: int,
    | #[trigger]
        first_mv(c, q, i) && (change matches Change::Mv(
            MvChange::ReplaceBody { source, catalog },
        ) && source@ == c.materialized_views@[i]@ && catalog@ == c.materialized_views@[i]@)
}

/// `added` recreates the views named in `names`, one for one.
pub open spec fn recreates_all(added: Seq<Change>, c: Catalog, names: Seq<QnameModel>) -> bool {
    &&& added.len() == names.len()
    &&& forall|i: int| 0 <= i < added.len() ==> recreates(#[trigger] added[i], c, names[i])
}

fn is_handled(changes: &Vec<Change>, q: &QualifiedName) -> (r: bool)
    ensures
        r == handled_views(changes@).contains(q@),
{
    let mut i: usize = 0;
    while i < changes.len()
        invariant
            i <= changes@.len(),
            forall|k: int| 0 <= k < i ==> handled_view(#[trigger] changes@[k]) != Some(q@),
        decreases changes@.len() - i,
    {
        let found = match &changes[i] {
            Change::View(ViewChange::ReplaceBody { source, .. }) => source.qname.same(q),
            Change::View(ViewChange::Drop(name)) => name.same(q),
            Change::Mv(MvChange::ReplaceBody { source, .. }) => source.qname.same(q),
            Change::Mv(MvChange::Drop(name)) => name.same(q),
            _ => false,
        };
        if found {
            assert(handled_view(changes@[i as int]) == Some(q@));
            return true;
        }
        i = i + 1;
    }
    false
}

/// The affected views that the changes do not handle.
fn collect_new_affected(changes: &Vec<Change>, affected: Vec<QualifiedName>) -> (names: Vec<
    QualifiedName,
>)
    ensures
        models(names@) == models(affected@).filter(
            |q: QnameModel| !handled_views(changes@).contains(q),
        ),
{
    let ghost all = models(affected@);
    let ghost keep = |q: QnameModel| !handled_views(changes@).contains(q);
    let mut out: Vec<QualifiedName> = Vec::new();
    let mut i: usize = 0;
    assert(all.take(0) =~= Seq::empty());
    assert(models(out@) =~= all.take(0).filter(keep)) by {
        reveal(Seq::filter);
    }
    while i < affected.len()
        invariant
            i <= affected@.len(),
            all == models(affected@),
            keep == (|q: QnameModel| !handled_views(changes@).contains(q)),
            models(out@) == all.take(i as int).filter(keep),
        decreases affected@.len() - i,
    {
        let ghost before = models(out@);
        proof {
            assert(all.take(i + 1) =~= all.take(i as int).push(all[i as int]));
            all.take(i as int).lemma_filter_push(all[i as int], keep);
        }
        if !is_handled(changes, &affected[i]) {
            let name = affected[i].duplicate();
            out.push(name);
            assert(models(out@) =~= before.push(name@));
        }
        i = i + 1;
    }
    assert(all.take(i as int) =~= all);
    out
}

proof fn lemma_view_index_keys(views: Seq<ViewDefinition>, q: QnameModel)
    requires
        view_index(views).contains_key(q),
    ensures
        exists|i: int| 0 <= i < views.len() && (#[trigger] views[i]).qname@ == q,
    decreases views.len(),
{
    if views.len() > 0 {
        if views.last().qname@ == q {
            assert(views[views.len() - 1].qname@ == q);
        } else {
            let before = views.drop_last();
            lemma_view_index_keys(before, q);
            let i = choose|i: int| 0 <= i < before.len() && (#[trigger] before[i]).qname@ == q;
            assert(views[i].qname@ == q);
        }
    }
}

proof fn lemma_mv_index_keys(
    base: Map<QnameModel, Seq<QnameModel>>,
    mvs: Seq<MaterializedView>,
    q: QnameModel,
)
    requires
        mv_index(base, mvs).contains_key(q),
    ensures
        base.contains_key(q) || exists|i: int| 0 <= i < mvs.len() && (#[trigger] mvs[i]).qname@ == q,
    decreases mvs.len(),
{
    if mvs.len() > 0 {
        if mvs.last().qname@ == q {
            assert(mvs[mvs.len() - 1].qname@ == q);
        } else {
            let before = mvs.drop_last();
            lemma_mv_index_keys(base, before, q);
            if !base.contains_key(q) {
                let i = choose|i: int| 0 <= i < before.len() && (#[trigger] before[i]).qname@ == q;
                assert(mvs[i].qname@ == q);
            }
        }
    }
}

/// Only views and materialized views of the catalog are affected.
proof fn lemma_affected_are_views(c: Catalog, triggers: Set<QnameModel>, s: Set<QnameModel>, q: QnameModel)
    requires
        is_affected_set(dep_index(c), triggers, s),
        s.contains(q),
    ensures
        (exists|i: int| 0 <= i < c.views@.len() && #[trigger] c.views@[i].qname@ == q) || (exists|i: int|
            0 <= i < c.materialized_views@.len() && #[trigger] c.materialized_views@[i].qname@ == q),
{
    let index = dep_index(c);
    let listed = s.intersect(index.dom());
    assert forall|x: QnameModel| #[trigger] refers_into(index, x, triggers.union(listed)) implies listed.contains(x) by {
        let k = choose|k: int| 0 <= k < index[x].len() && triggers.union(listed).contains(#[trigger] index[x][k]);
        assert(triggers.union(s).contains(index[x][k]));
        assert(refers_into(index, x, triggers.union(s)));
    }
    assert(closed_under_reference(index, triggers, listed));
    assert(listed.contains(q));
    lemma_mv_index_keys(view_index(c.views@), c.materialized_views@, q);
    if view_index(c.views@).contains_key(q) {
        lemma_view_index_keys(c.views@, q);
    }
}

/// Extend `changes` with explicit drop-and-create changes for every
/// transitively affected view in `target_catalog`.
///
/// Returns `Ok(())` when the policy permits dependent recreation, or when no
/// view is affected. Returns the affected views when the policy has
/// `view_drop_create_dependents = false` and at least one view would need
/// recreation; `changes` then stays as it was.
///
/// Views that `changes` replaces or drops already are left alone. Views are
/// appended in topological order relative to each other.
pub fn extend_with_dependent_recreations(
    changes: &mut Vec<Change>,
    target_catalog: &Catalog,
    policy: &PlannerPolicy,
) -> (result: Result<(), Vec<QualifiedName>>)
    ensures
        ({
            let names = views_to_recreate(old(changes)@, *target_catalog);
            covers_affected(old(changes)@, *target_catalog, names) && match result {
                Ok(_) => {
                    &&& names.len() == 0 || policy.online.view_drop_create_dependents
                    &&& final(changes)@.len() == old(changes)@.len() + names.len()
                    &&& final(changes)@.take(old(changes)@.len() as int) == old(changes)@
                    &&& recreates_all(
                        final(changes)@.skip(old(changes)@.len() as int),
                        *target_catalog,
                        names,
                    )
                },
                Err(blocked) => {
                    &&& names.len() > 0
                    &&& !policy.online.view_drop_create_dependents
                    &&& models(blocked@) == names
                    &&& final(changes)@ == old(changes)@
                },
            }
        }),
{
    let ghost start = changes@;
    let triggers = collect_upstream_triggers(changes);
    let affected = walk_transitive(&triggers, target_catalog);
    let ghost order = models(affected@);
    let new_affected = collect_new_affected(changes, affected);
    let ghost names = views_to_recreate(start, *target_catalog);
    assert(models(new_affected@) == names);
    proof {
        let index = dep_index(*target_catalog);
        let t = trigger_names(models(triggers@));
        let s = affected_set(index, t);
        let keep = |q: QnameModel| !handled_views(start).contains(q);
        law_best_order_names_every_node::<QualifiedName>(reference_graph(index, s), order);
        assert forall|q: QnameModel| #[trigger] s.contains(q) implies names.contains(q)
            || handled_views(start).contains(q) by {
            assert(order.to_set().contains(q));
            assert(order.contains(q));
            if keep(q) {
                order.lemma_filter_contains(keep, order.index_of(q));
            }
        }
        assert(covers_affected(start, *target_catalog, names));
    }
    if new_affected.len() == 0 {
        assert(names.len() == 0);
        assert(changes@.take(start.len() as int) =~= start);
        return Ok(());
    }
    if !policy.view_drop_create_dependents() {
        return Err(new_affected);
    }
    proof {
        let index = dep_index(*target_catalog);
        let t = trigger_names(models(triggers@));
        let s = affected_set(index, t);
        assert forall|i: int| 0 <= i < names.len() implies is_view_name(*target_catalog, #[trigger] names[i]) by {
            let keep = |q: QnameModel| !handled_views(start).contains(q);
            assert(order.filter(keep).contains(names[i]));
            order.lemma_filter_contains_rev(keep, names[i]);
            assert(order.contains(names[i]));
            law_best_order_names_every_node::<QualifiedName>(reference_graph(index, s), order);
            assert(order.to_set().contains(names[i]));
            assert(s.contains(names[i]));
            lemma_affected_are_views(*target_catalog, t, s, names[i]);
        }
    }
    let mut i: usize = 0;
    assert(changes@.take(start.len() as int) =~= start);
    while i < new_affected.len()
        invariant
            i <= new_affected@.len(),
            models(new_affected@) == names,
            forall|k: int| 0 <= k < names.len() ==> is_view_name(*target_catalog, #[trigger] names[k]),
            changes@.len() == start.len() + i,
            changes@.take(start.len() as int) == start,
            forall|k: int|
                0 <= k < i ==> recreates(#[trigger] changes@.skip(start.len() as int)[k], *target_catalog, names[k]),
        decreases new_affected@.len() - i,
    {
        let ghost before = changes@;
        let q = &new_affected[i];
        assert(names[i as int] == q@);
        assert(is_view_name(*target_catalog, names[i as int]));
        match find_view(target_catalog, q) {
            Some(v) => {
                changes.push(
                    Change::View(
                        ViewChange::ReplaceBody {
                            source: v.duplicate(),
                            catalog: v.duplicate(),
                            compatible: false,
                        },
                    ),
                );
            },
            None => match find_mv(target_catalog, q) {
                Some(mv) => {
                    changes.push(
                        Change::Mv(
                            MvChange::ReplaceBody {
                                source: mv.duplicate(),
                                catalog: mv.duplicate(),
                            },
                        ),
                    );
                },
                None => {
                    assert(false);
                },
            },
        }
        proof {
            assert(changes@.take(start.len() as int) =~= before.take(start.len() as int));
            assert(recreates(changes@.last(), *target_catalog, names[i as int]));
            assert forall|k: int| 0 <= k < i + 1 implies recreates(
                #[trigger] changes@.skip(start.len() as int)[k],
                *target_catalog,
                names[k],
            ) by {
                if k < i {
                    assert(changes@.skip(start.len() as int)[k] == before.skip(start.len() as int)[k]);
                } else {
                    assert(changes@.skip(start.len() as int)[k] == changes@.last());
                }
            }
        }
        i = i + 1;
    }
    Ok(())
}

/// A view or materialized view of the catalog has that name.
spec fn is_view_name(c: Catalog, q: QnameModel) -> bool {
    (exists|i: int| 0 <= i < c.views@.len() && #[trigger] c.views@[i].qname@ == q) || (exists|i: int|
        0 <= i < c.materialized_views@.len() && #[trigger] c.materialized_views@[i].qname@ == q)
}

/// A recreated view comes after the recreated views that it refers to, unless
/// it leads to views that refer to one another in a circle.
pub proof fn law_affected_views_follow_what_they_refer_to(
    c: Catalog,
    triggers: Set<QnameModel>,
    list: Seq<QnameModel>,
    i: int,
    j: int,
)
    requires
        ({
            let index = dep_index(c);
            let g = reference_graph(index, affected_set(index, triggers));
            &&& is_best_order::<QualifiedName>(g, list)
            &&& 0 <= i < list.len()
            &&& 0 <= j < list.len()
            &&& index.contains_key(list[i])
            &&& index[list[i]].contains(list[j])
            &&& forall|n: QnameModel| #[trigger]
                g.on_cycle(n) ==> n != list[i] && !g.reaches(list[i], n)
        }),
    ensures
        j < i,
{
    let index = dep_index(c);
    let s = affected_set(index, triggers);
    let g = reference_graph(index, s);
    law_best_order_names_every_node::<QualifiedName>(g, list);
    assert(list.to_set().contains(list[i]) && list.to_set().contains(list[j]));
    assert(g.edges.contains((list[i], list[j])));
    law_best_order_puts_dependencies_first::<QualifiedName>(g, list, i, list[j]);
}

} // verus!
