//! What the dependency graph holds of the references between objects, and
//! what follows for the order of a plan.

use crate::diff::change::{
    Change, ChangeEntry, MvChange, StatisticChange, TriggerChange, UserTypeChange,
};
use crate::identifier::QualifiedName;
use crate::ir::catalog::Catalog;
use crate::ir::collation::is_builtin_collation;
use crate::ir::column_type::ColumnType;
use crate::ir::constraint::{Constraint, ConstraintKind};
use crate::ir::expr::DefaultExpr;
use crate::ir::function::ReturnType;
use crate::ir::index::IndexParent;
use crate::ir::replication::PublicationScope;
use crate::ir::routine_objects::CastMethod;
use crate::ir::table::Table;
use crate::ir::user_type::UserTypeKind;
use crate::model::models;
use crate::plan::body_cycles::{all_recorded, body_dependency_edges, Bodied};
use crate::plan::buckets::change_key;
use crate::plan::edges::{catalog_graph, dependency_edges, NodeId, NodeKey};
use crate::plan::object_edges::{
    all_declare, all_need, body_edges, first_function, function_node, Dependent, ScopeModel,
};
use crate::plan::ordered::{DeferredFkModel, OrderedChangeSet};
use crate::plan::ordering::{deferred_fks_of, deferred_of, is_ordered_by};
use crate::plan::ordering_laws::{
    create_graph, law_creates_put_dependencies_first, law_drops_put_dependents_first,
};
use crate::plan::walks::lemma_edge_reaches;
use vstd::prelude::*;

verus! {

/// In the graph of `c`, whichever foreign keys are left out, `from` depends on
/// `to`.
pub open spec fn depends(c: Catalog, cycle: Seq<NodeKey>, from: NodeId, to: NodeId) -> bool {
    catalog_graph(c, cycle).edges.contains((from@, to@))
}

/// An index depends on the relation it is on, table or materialized view, and
/// where the catalog has that relation, that is the node it depends on.
pub proof fn law_indexes_depend_on_their_relation(c: Catalog, cycle: Seq<NodeKey>, i: int)
    requires
        0 <= i < c.indexes@.len(),
    ensures
        match c.indexes@[i].on {
            IndexParent::Table(q) => depends(
                c,
                cycle,
                NodeId::Index(c.indexes@[i].qname),
                NodeId::Table(q),
            ),
            IndexParent::Mv(q) => depends(
                c,
                cycle,
                NodeId::Index(c.indexes@[i].qname),
                NodeId::Mv(q),
            ),
        },
        forall|k: int|
            0 <= k < c.tables@.len() && c.indexes@[i].on is Table && (#[trigger] c.tables@[k]).qname@
                == c.indexes@[i].on->Table_0@ ==> depends(
                c,
                cycle,
                NodeId::Index(c.indexes@[i].qname),
                NodeId::Table(c.tables@[k].qname),
            ),
        forall|k: int|
            0 <= k < c.materialized_views@.len() && c.indexes@[i].on is Mv && (
            #[trigger] c.materialized_views@[k]).qname@ == c.indexes@[i].on->Mv_0@ ==> depends(
                c,
                cycle,
                NodeId::Index(c.indexes@[i].qname),
                NodeId::Mv(c.materialized_views@[k].qname),
            ),
{
    let scope = ScopeModel { catalog: c, cycle };
    let to = match c.indexes@[i].on {
        IndexParent::Table(q) => NodeId::Table(q)@,
        IndexParent::Mv(q) => NodeId::Mv(q)@,
    };
    let e = (NodeId::Index(c.indexes@[i].qname)@, to);
    assert(c.indexes@[i].needs(scope).contains(e));
    assert(all_need(c.indexes@, scope).contains(e));
}

/// Every object of the catalog is a node of its graph, of its own kind and
/// under its own name.
pub proof fn law_objects_are_nodes(c: Catalog, cycle: Seq<NodeKey>)
    ensures
        ({
            let nodes = catalog_graph(c, cycle).nodes;
            &&& forall|i: int|
                0 <= i < c.schemas@.len() ==> nodes.contains(
                    NodeId::Schema((#[trigger] c.schemas@[i]).name)@,
                )
            &&& forall|i: int|
                0 <= i < c.tables@.len() ==> nodes.contains(
                    NodeId::Table((#[trigger] c.tables@[i]).qname)@,
                )
            &&& forall|i: int|
                0 <= i < c.indexes@.len() ==> nodes.contains(
                    NodeId::Index((#[trigger] c.indexes@[i]).qname)@,
                )
            &&& forall|i: int|
                0 <= i < c.sequences@.len() ==> nodes.contains(
                    NodeId::Sequence((#[trigger] c.sequences@[i]).qname)@,
                )
            &&& forall|i: int|
                0 <= i < c.views@.len() ==> nodes.contains(
                    NodeId::View((#[trigger] c.views@[i]).qname)@,
                )
            &&& forall|i: int|
                0 <= i < c.materialized_views@.len() ==> nodes.contains(
                    NodeId::Mv((#[trigger] c.materialized_views@[i]).qname)@,
                )
            &&& forall|i: int|
                0 <= i < c.types@.len() ==> nodes.contains(
                    NodeId::Type((#[trigger] c.types@[i]).qname)@,
                )
            &&& forall|i: int|
                0 <= i < c.procedures@.len() ==> nodes.contains(
                    NodeId::Procedure((#[trigger] c.procedures@[i]).qname)@,
                )
        }),
{
    let scope = ScopeModel { catalog: c, cycle };
    let nodes = catalog_graph(c, cycle).nodes;
    assert forall|i: int| 0 <= i < c.schemas@.len() implies nodes.contains(
        NodeId::Schema((#[trigger] c.schemas@[i]).name)@,
    ) by {
        assert(c.schemas@[i].declares(scope).contains(NodeId::Schema(c.schemas@[i].name)@));
        assert(all_declare(c.schemas@, scope).contains(NodeId::Schema(c.schemas@[i].name)@));
    }
    assert forall|i: int| 0 <= i < c.tables@.len() implies nodes.contains(
        NodeId::Table((#[trigger] c.tables@[i]).qname)@,
    ) by {
        assert(c.tables@[i].declares(scope).contains(NodeId::Table(c.tables@[i].qname)@));
        assert(all_declare(c.tables@, scope).contains(NodeId::Table(c.tables@[i].qname)@));
    }
    assert forall|i: int| 0 <= i < c.indexes@.len() implies nodes.contains(
        NodeId::Index((#[trigger] c.indexes@[i]).qname)@,
    ) by {
        assert(c.indexes@[i].declares(scope).contains(NodeId::Index(c.indexes@[i].qname)@));
        assert(all_declare(c.indexes@, scope).contains(NodeId::Index(c.indexes@[i].qname)@));
    }
    assert forall|i: int| 0 <= i < c.sequences@.len() implies nodes.contains(
        NodeId::Sequence((#[trigger] c.sequences@[i]).qname)@,
    ) by {
        assert(c.sequences@[i].declares(scope).contains(NodeId::Sequence(c.sequences@[i].qname)@));
        assert(all_declare(c.sequences@, scope).contains(NodeId::Sequence(c.sequences@[i].qname)@));
    }
    assert forall|i: int| 0 <= i < c.views@.len() implies nodes.contains(
        NodeId::View((#[trigger] c.views@[i]).qname)@,
    ) by {
        assert(c.views@[i].declares(scope).contains(NodeId::View(c.views@[i].qname)@));
        assert(all_declare(c.views@, scope).contains(NodeId::View(c.views@[i].qname)@));
    }
    assert forall|i: int| 0 <= i < c.materialized_views@.len() implies nodes.contains(
        NodeId::Mv((#[trigger] c.materialized_views@[i]).qname)@,
    ) by {
        let n = NodeId::Mv(c.materialized_views@[i].qname)@;
        assert(c.materialized_views@[i].declares(scope).contains(n));
        assert(all_declare(c.materialized_views@, scope).contains(n));
    }
    assert forall|i: int| 0 <= i < c.types@.len() implies nodes.contains(
        NodeId::Type((#[trigger] c.types@[i]).qname)@,
    ) by {
        assert(c.types@[i].declares(scope).contains(NodeId::Type(c.types@[i].qname)@));
        assert(all_declare(c.types@, scope).contains(NodeId::Type(c.types@[i].qname)@));
    }
    assert forall|i: int| 0 <= i < c.procedures@.len() implies nodes.contains(
        NodeId::Procedure((#[trigger] c.procedures@[i]).qname)@,
    ) by {
        let n = NodeId::Procedure(c.procedures@[i].qname)@;
        assert(c.procedures@[i].declares(scope).contains(n));
        assert(all_declare(c.procedures@, scope).contains(n));
    }
}

/// What lives in a schema depends on it: tables, types, functions, procedures,
/// aggregates, collations, and extensions that name one.
pub proof fn law_objects_depend_on_their_schema(c: Catalog, cycle: Seq<NodeKey>)
    ensures
        forall|i: int|
            0 <= i < c.tables@.len() ==> depends(
                c,
                cycle,
                NodeId::Table((#[trigger] c.tables@[i]).qname),
                NodeId::Schema(c.tables@[i].qname.schema),
            ),
        forall|i: int|
            0 <= i < c.types@.len() ==> depends(
                c,
                cycle,
                NodeId::Type((#[trigger] c.types@[i]).qname),
                NodeId::Schema(c.types@[i].qname.schema),
            ),
        forall|i: int|
            0 <= i < c.functions@.len() ==> depends(
                c,
                cycle,
                NodeId::Function(
                    (#[trigger] c.functions@[i]).qname,
                    c.functions@[i].arg_types_normalized,
                ),
                NodeId::Schema(c.functions@[i].qname.schema),
            ),
        forall|i: int|
            0 <= i < c.procedures@.len() ==> depends(
                c,
                cycle,
                NodeId::Procedure((#[trigger] c.procedures@[i]).qname),
                NodeId::Schema(c.procedures@[i].qname.schema),
            ),
        forall|i: int|
            0 <= i < c.collations@.len() ==> depends(
                c,
                cycle,
                NodeId::Collation((#[trigger] c.collations@[i]).qname),
                NodeId::Schema(c.collations@[i].qname.schema),
            ),
        forall|i: int|
            0 <= i < c.extensions@.len() && (#[trigger] c.extensions@[i]).schema is Some ==> depends(
                c,
                cycle,
                NodeId::Extension(c.extensions@[i].name),
                NodeId::Schema(c.extensions@[i].schema->Some_0),
            ),
{
    let scope = ScopeModel { catalog: c, cycle };
    assert forall|i: int| 0 <= i < c.tables@.len() implies depends(
        c,
        cycle,
        NodeId::Table((#[trigger] c.tables@[i]).qname),
        NodeId::Schema(c.tables@[i].qname.schema),
    ) by {
        let t = c.tables@[i];
        let e = (NodeId::Table(t.qname)@, NodeId::Schema(t.qname.schema)@);
        assert(t.needs(scope).contains(e));
        assert(all_need(c.tables@, scope).contains(e));
    }
    assert forall|i: int| 0 <= i < c.types@.len() implies depends(
        c,
        cycle,
        NodeId::Type((#[trigger] c.types@[i]).qname),
        NodeId::Schema(c.types@[i].qname.schema),
    ) by {
        let t = c.types@[i];
        let e = (NodeId::Type(t.qname)@, NodeId::Schema(t.qname.schema)@);
        assert(t.needs(scope).contains(e));
        assert(all_need(c.types@, scope).contains(e));
    }
    assert forall|i: int| 0 <= i < c.functions@.len() implies depends(
        c,
        cycle,
        NodeId::Function(
            (#[trigger] c.functions@[i]).qname,
            c.functions@[i].arg_types_normalized,
        ),
        NodeId::Schema(c.functions@[i].qname.schema),
    ) by {
        let f = c.functions@[i];
        let e = (
            NodeId::Function(f.qname, f.arg_types_normalized)@,
            NodeId::Schema(f.qname.schema)@,
        );
        assert(f.needs(scope).contains(e));
        assert(all_need(c.functions@, scope).contains(e));
    }
    assert forall|i: int| 0 <= i < c.procedures@.len() implies depends(
        c,
        cycle,
        NodeId::Procedure((#[trigger] c.procedures@[i]).qname),
        NodeId::Schema(c.procedures@[i].qname.schema),
    ) by {
        let p = c.procedures@[i];
        let e = (NodeId::Procedure(p.qname)@, NodeId::Schema(p.qname.schema)@);
        assert(p.needs(scope).contains(e));
        assert(all_need(c.procedures@, scope).contains(e));
    }
    assert forall|i: int| 0 <= i < c.collations@.len() implies depends(
        c,
        cycle,
        NodeId::Collation((#[trigger] c.collations@[i]).qname),
        NodeId::Schema(c.collations@[i].qname.schema),
    ) by {
        let l = c.collations@[i];
        let e = (NodeId::Collation(l.qname)@, NodeId::Schema(l.qname.schema)@);
        assert(l.needs(scope).contains(e));
        assert(all_need(c.collations@, scope).contains(e));
    }
    assert forall|i: int|
        0 <= i < c.extensions@.len() && (#[trigger] c.extensions@[i]).schema is Some implies depends(
        c,
        cycle,
        NodeId::Extension(c.extensions@[i].name),
        NodeId::Schema(c.extensions@[i].schema->Some_0),
    ) by {
        let x = c.extensions@[i];
        let e = (NodeId::Extension(x.name)@, NodeId::Schema(x.schema->Some_0)@);
        assert(x.needs(scope).contains(e));
        assert(all_need(c.extensions@, scope).contains(e));
    }
}

/// A table depends on the types, the managed collations and the sequences that
/// its columns use, and a partition on the table it is a part of.
pub proof fn law_tables_depend_on_what_their_columns_use(
    c: Catalog,
    cycle: Seq<NodeKey>,
    i: int,
    j: int,
)
    requires
        0 <= i < c.tables@.len(),
        0 <= j < c.tables@[i].columns@.len(),
    ensures
        ({
            let table = NodeId::Table(c.tables@[i].qname);
            let col = c.tables@[i].columns@[j];
            &&& col.ty matches ColumnType::UserDefined(q) ==> depends(
                c,
                cycle,
                table,
                NodeId::Type(q),
            )
            &&& col.default matches Some(DefaultExpr::Sequence(q)) ==> depends(
                c,
                cycle,
                table,
                NodeId::Sequence(q),
            )
            &&& forall|k: int|
                0 <= k < c.collations@.len() && col.collation is Some && (
                #[trigger] c.collations@[k]).qname@ == col.collation->Some_0@
                    && col.collation->Some_0.schema@ != "pg_catalog"@ && !is_builtin_collation(
                    col.collation->Some_0.name@,
                ) ==> depends(c, cycle, table, NodeId::Collation(c.collations@[k].qname))
        }),
{
    let scope = ScopeModel { catalog: c, cycle };
    let t = c.tables@[i];
    let table = NodeId::Table(t.qname)@;
    let col = t.columns@[j];
    if let ColumnType::UserDefined(q) = col.ty {
        let e = (table, NodeId::Type(q)@);
        assert(crate::plan::object_edges::column_edge(table, t.columns@[j], c, e));
        assert(t.needs(scope).contains(e));
        assert(all_need(c.tables@, scope).contains(e));
    }
    if let Some(DefaultExpr::Sequence(q)) = col.default {
        let e = (table, NodeId::Sequence(q)@);
        assert(crate::plan::object_edges::column_edge(table, t.columns@[j], c, e));
        assert(t.needs(scope).contains(e));
        assert(all_need(c.tables@, scope).contains(e));
    }
    if let Some(q) = col.collation {
        assert forall|k: int|
            0 <= k < c.collations@.len() && (#[trigger] c.collations@[k]).qname@ == q@ && q.schema@
                != "pg_catalog"@ && !is_builtin_collation(q.name@) implies depends(
            c,
            cycle,
            NodeId::Table(t.qname),
            NodeId::Collation(c.collations@[k].qname),
        ) by {
            let e = (table, NodeId::Collation(q)@);
            assert(c.collations@[k].qname@ == q@);
            assert(crate::plan::object_edges::manages_collation(c, q));
            assert(crate::plan::object_edges::column_edge(table, t.columns@[j], c, e));
            assert(t.needs(scope).contains(e));
            assert(all_need(c.tables@, scope).contains(e));
        }
    }
}

/// A partition depends on the table it is a part of.
pub proof fn law_partitions_depend_on_their_parent(c: Catalog, cycle: Seq<NodeKey>, i: int)
    requires
        0 <= i < c.tables@.len(),
        c.tables@[i].partition_of is Some,
    ensures
        depends(
            c,
            cycle,
            NodeId::Table(c.tables@[i].qname),
            NodeId::Table(c.tables@[i].partition_of->Some_0.parent),
        ),
{
    let scope = ScopeModel { catalog: c, cycle };
    let t = c.tables@[i];
    let e = (NodeId::Table(t.qname)@, NodeId::Table(t.partition_of->Some_0.parent)@);
    assert(t.needs(scope).contains(e));
    assert(all_need(c.tables@, scope).contains(e));
}

/// The constraint is a foreign key from `table` to another table, and both are
/// in the cycle.
pub open spec fn lies_in(cycle: Seq<NodeKey>, table: QualifiedName, c: Constraint) -> bool {
    c.kind matches ConstraintKind::ForeignKey(fk) && fk.referenced_table@ != table@
        && cycle.contains(NodeId::Table(table)@) && cycle.contains(
        NodeId::Table(fk.referenced_table)@,
    )
}

/// A constraint depends on its table, and a foreign key on the referenced
/// table too; the table itself depends on the referenced table, unless it
/// refers to itself. Only keys within the cycle are left out.
pub proof fn law_foreign_keys_depend_on_both_tables(
    c: Catalog,
    cycle: Seq<NodeKey>,
    i: int,
    j: int,
)
    requires
        0 <= i < c.tables@.len(),
        0 <= j < c.tables@[i].constraints@.len(),
        !lies_in(cycle, c.tables@[i].qname, c.tables@[i].constraints@[j]),
    ensures
        ({
            let t = c.tables@[i];
            let k = t.constraints@[j];
            let own = NodeId::Constraint { table: t.qname, name: k.qname.name };
            &&& depends(c, cycle, own, NodeId::Table(t.qname))
            &&& k.kind matches ConstraintKind::ForeignKey(fk) ==> depends(
                c,
                cycle,
                own,
                NodeId::Table(fk.referenced_table),
            ) && (fk.referenced_table@ != t.qname@ ==> depends(
                c,
                cycle,
                NodeId::Table(t.qname),
                NodeId::Table(fk.referenced_table),
            ))
        }),
{
    let scope = ScopeModel { catalog: c, cycle };
    let t = c.tables@[i];
    let k = t.constraints@[j];
    let own = (NodeId::Constraint { table: t.qname, name: k.qname.name })@;
    assert(!crate::plan::object_edges::defers(cycle, t.qname, t.constraints@[j]));
    let e = (own, NodeId::Table(t.qname)@);
    assert(crate::plan::object_edges::constraint_edge(t.qname, t.constraints@[j], e));
    assert(t.needs(scope).contains(e));
    assert(all_need(c.tables@, scope).contains(e));
    if let ConstraintKind::ForeignKey(fk) = k.kind {
        let f = (own, NodeId::Table(fk.referenced_table)@);
        assert(crate::plan::object_edges::constraint_edge(t.qname, t.constraints@[j], f));
        assert(t.needs(scope).contains(f));
        assert(all_need(c.tables@, scope).contains(f));
        if fk.referenced_table@ != t.qname@ {
            let g = (NodeId::Table(t.qname)@, NodeId::Table(fk.referenced_table)@);
            assert(crate::plan::object_edges::constraint_edge(t.qname, t.constraints@[j], g));
            assert(t.needs(scope).contains(g));
            assert(all_need(c.tables@, scope).contains(g));
        }
    }
}

/// What is on a table depends on it: statistics, the sequences it owns, and the
/// publications that publish it; publications depend on their schemas too.
pub proof fn law_objects_on_a_table_depend_on_it(c: Catalog, cycle: Seq<NodeKey>)
    ensures
        forall|i: int|
            0 <= i < c.statistics@.len() ==> depends(
                c,
                cycle,
                NodeId::Statistic((#[trigger] c.statistics@[i]).qname),
                NodeId::Table(c.statistics@[i].target),
            ),
        forall|i: int|
            0 <= i < c.sequences@.len() && (#[trigger] c.sequences@[i]).owned_by is Some ==> depends(
                c,
                cycle,
                NodeId::Sequence(c.sequences@[i].qname),
                NodeId::Table(c.sequences@[i].owned_by->Some_0.table),
            ),
{
    let scope = ScopeModel { catalog: c, cycle };
    assert forall|i: int| 0 <= i < c.statistics@.len() implies depends(
        c,
        cycle,
        NodeId::Statistic((#[trigger] c.statistics@[i]).qname),
        NodeId::Table(c.statistics@[i].target),
    ) by {
        let s = c.statistics@[i];
        let e = (NodeId::Statistic(s.qname)@, NodeId::Table(s.target)@);
        assert(s.needs(scope).contains(e));
        assert(all_need(c.statistics@, scope).contains(e));
    }
    assert forall|i: int|
        0 <= i < c.sequences@.len() && (#[trigger] c.sequences@[i]).owned_by is Some implies depends(
        c,
        cycle,
        NodeId::Sequence(c.sequences@[i].qname),
        NodeId::Table(c.sequences@[i].owned_by->Some_0.table),
    ) by {
        let s = c.sequences@[i];
        let e = (NodeId::Sequence(s.qname)@, NodeId::Table(s.owned_by->Some_0.table)@);
        assert(s.needs(scope).contains(e));
        assert(all_need(c.sequences@, scope).contains(e));
    }
}

/// A publication depends on each table and each schema that it publishes.
pub proof fn law_publications_depend_on_what_they_publish(
    c: Catalog,
    cycle: Seq<NodeKey>,
    i: int,
    j: int,
)
    requires
        0 <= i < c.publications@.len(),
    ensures
        c.publications@[i].scope matches PublicationScope::Selective { schemas, tables } ==> {
            &&& 0 <= j < tables@.len() ==> depends(
                c,
                cycle,
                NodeId::Publication(c.publications@[i].name),
                NodeId::Table(tables@[j].qname),
            )
            &&& 0 <= j < schemas@.len() ==> depends(
                c,
                cycle,
                NodeId::Publication(c.publications@[i].name),
                NodeId::Schema(schemas@[j]),
            )
        },
{
    let scope = ScopeModel { catalog: c, cycle };
    let p = c.publications@[i];
    if let PublicationScope::Selective { schemas, tables } = p.scope {
        if 0 <= j < tables@.len() {
            let e = (NodeId::Publication(p.name)@, NodeId::Table(tables@[j].qname)@);
            assert(p.needs(scope).contains(e));
            assert(all_need(c.publications@, scope).contains(e));
        }
        if 0 <= j < schemas@.len() {
            let e = (NodeId::Publication(p.name)@, NodeId::Schema(schemas@[j])@);
            assert(p.needs(scope).contains(e));
            assert(all_need(c.publications@, scope).contains(e));
        }
    }
}

/// A trigger depends on the table, view or materialized view that it is on,
/// where the catalog has it, and then on the first function of the name it
/// gives.
pub proof fn law_triggers_depend_on_relation_and_function(
    c: Catalog,
    cycle: Seq<NodeKey>,
    i: int,
    f: int,
)
    requires
        0 <= i < c.triggers@.len(),
    ensures
        ({
            let t = c.triggers@[i];
            let own = NodeId::Trigger(t.qname);
            let on_table = exists|k: int|
                0 <= k < c.tables@.len() && (#[trigger] c.tables@[k]).qname@ == t.table@;
            let on_view = exists|k: int|
                0 <= k < c.views@.len() && (#[trigger] c.views@[k]).qname@ == t.table@;
            let on_mv = exists|k: int|
                0 <= k < c.materialized_views@.len() && (#[trigger] c.materialized_views@[k]).qname@
                    == t.table@;
            &&& on_table ==> depends(c, cycle, own, NodeId::Table(t.table))
            &&& on_view && !on_table ==> depends(c, cycle, own, NodeId::View(t.table))
            &&& on_mv && !on_table && !on_view ==> depends(c, cycle, own, NodeId::Mv(t.table))
            &&& (on_table || on_view || on_mv) && is_first_of_name(c, t.function_qname, f)
                ==> depends(
                c,
                cycle,
                own,
                NodeId::Function(c.functions@[f].qname, c.functions@[f].arg_types_normalized),
            )
        }),
{
    let scope = ScopeModel { catalog: c, cycle };
    let t = c.triggers@[i];
    let own = NodeId::Trigger(t.qname)@;
    match crate::plan::object_edges::trigger_target(c, t) {
        Some(target) => {
            let e = (own, target);
            assert(t.needs(scope).contains(e));
            assert(all_need(c.triggers@, scope).contains(e));
            if is_first_of_name(c, t.function_qname, f) {
                lemma_first_of_name(c, t.function_qname, f);
                let g = (own, function_node(c.functions@[f]));
                assert(t.needs(scope).contains(g));
                assert(all_need(c.triggers@, scope).contains(g));
            }
        },
        None => {},
    }
}

/// The function at `f` is the first of that name in the catalog.
pub open spec fn is_first_of_name(c: Catalog, q: QualifiedName, f: int) -> bool {
    &&& 0 <= f < c.functions@.len()
    &&& c.functions@[f].qname@ == q@
    &&& forall|k: int| 0 <= k < f ==> (#[trigger] c.functions@[k]).qname@ != q@
}

proof fn lemma_first_of_name(c: Catalog, q: QualifiedName, f: int)
    requires
        is_first_of_name(c, q, f),
    ensures
        crate::plan::object_edges::names_function(
            c,
            q,
            NodeId::Function(c.functions@[f].qname, c.functions@[f].arg_types_normalized)@,
        ),
{
    assert(first_function(c, q, f));
}

/// What names a function depends on the first one of that name: event triggers,
/// aggregates by their state and final functions, and range types by theirs.
pub proof fn law_callers_depend_on_their_function(c: Catalog, cycle: Seq<NodeKey>, i: int, f: int)
    ensures
        0 <= f < c.functions@.len() ==> ({
            let to = NodeId::Function(c.functions@[f].qname, c.functions@[f].arg_types_normalized);
            &&& 0 <= i < c.event_triggers@.len() && is_first_of_name(
                c,
                c.event_triggers@[i].function,
                f,
            ) ==> depends(c, cycle, NodeId::EventTrigger(c.event_triggers@[i].name), to)
            &&& 0 <= i < c.aggregates@.len() && (is_first_of_name(c, c.aggregates@[i].sfunc, f) || (
            c.aggregates@[i].finalfunc is Some && is_first_of_name(
                c,
                c.aggregates@[i].finalfunc->Some_0,
                f,
            ))) ==> catalog_graph(c, cycle).edges.contains(
                (
                    NodeKey {
                        rank: 17,
                        parts: c.aggregates@[i].qname@.parts() + models(
                            c.aggregates@[i].arg_types@,
                        ),
                    },
                    to@,
                ),
            )
            &&& 0 <= i < c.types@.len() && (c.types@[i].kind matches UserTypeKind::Range {
                canonical,
                subtype_diff,
                ..
            } && ((canonical is Some && is_first_of_name(c, canonical->Some_0, f)) || (subtype_diff
                is Some && is_first_of_name(c, subtype_diff->Some_0, f)))) ==> depends(
                c,
                cycle,
                NodeId::Type(c.types@[i].qname),
                to,
            )
        }),
{
    let scope = ScopeModel { catalog: c, cycle };
    if 0 <= f < c.functions@.len() {
        let to = NodeId::Function(c.functions@[f].qname, c.functions@[f].arg_types_normalized)@;
        if 0 <= i < c.event_triggers@.len() && is_first_of_name(
            c,
            c.event_triggers@[i].function,
            f,
        ) {
            let t = c.event_triggers@[i];
            lemma_first_of_name(c, t.function, f);
            let e = (NodeId::EventTrigger(t.name)@, to);
            assert(t.needs(scope).contains(e));
            assert(all_need(c.event_triggers@, scope).contains(e));
        }
        if 0 <= i < c.aggregates@.len() {
            let a = c.aggregates@[i];
            let e = (NodeKey { rank: 17, parts: a.qname@.parts() + models(a.arg_types@) }, to);
            if is_first_of_name(c, a.sfunc, f) {
                lemma_first_of_name(c, a.sfunc, f);
                assert(a.needs(scope).contains(e));
                assert(all_need(c.aggregates@, scope).contains(e));
            }
            if a.finalfunc is Some && is_first_of_name(c, a.finalfunc->Some_0, f) {
                lemma_first_of_name(c, a.finalfunc->Some_0, f);
                assert(a.needs(scope).contains(e));
                assert(all_need(c.aggregates@, scope).contains(e));
            }
        }
        if 0 <= i < c.types@.len() {
            let t = c.types@[i];
            if let UserTypeKind::Range { canonical, subtype_diff, .. } = t.kind {
                let from = NodeId::Type(t.qname)@;
                let e = (from, to);
                if canonical is Some && is_first_of_name(c, canonical->Some_0, f) {
                    lemma_first_of_name(c, canonical->Some_0, f);
                    assert(crate::plan::object_edges::kind_edge(from, t.kind, c, e));
                    assert(t.needs(scope).contains(e));
                    assert(all_need(c.types@, scope).contains(e));
                }
                if subtype_diff is Some && is_first_of_name(c, subtype_diff->Some_0, f) {
                    lemma_first_of_name(c, subtype_diff->Some_0, f);
                    assert(crate::plan::object_edges::kind_edge(from, t.kind, c, e));
                    assert(t.needs(scope).contains(e));
                    assert(all_need(c.types@, scope).contains(e));
                }
            }
        }
    }
}

/// A cast depends on the function it converts by, of that name and those
/// argument types, where the catalog has it.
pub proof fn law_casts_depend_on_their_function(c: Catalog, cycle: Seq<NodeKey>, i: int, f: int)
    requires
        0 <= i < c.casts@.len(),
        0 <= f < c.functions@.len(),
        c.casts@[i].method matches CastMethod::Function { name, arg_types } && name@
            == c.functions@[f].qname@ && models(arg_types@) == c.functions@[f].arg_types_normalized@,
    ensures
        depends(
            c,
            cycle,
            NodeId::Cast(c.casts@[i].source, c.casts@[i].target),
            NodeId::Function(c.functions@[f].qname, c.functions@[f].arg_types_normalized),
        ),
{
    let scope = ScopeModel { catalog: c, cycle };
    let k = c.casts@[i];
    let e = (
        NodeId::Cast(k.source, k.target)@,
        NodeId::Function(c.functions@[f].qname, c.functions@[f].arg_types_normalized)@,
    );
    assert(c.functions@[f].qname@ == c.functions@[f].qname@);
    assert(k.needs(scope).contains(e));
    assert(all_need(c.casts@, scope).contains(e));
}

/// A type depends on the types that it is made of: the attributes of a
/// composite type, the base of a domain, and the subtype of a range type that
/// the catalog has.
pub proof fn law_types_depend_on_what_they_are_made_of(
    c: Catalog,
    cycle: Seq<NodeKey>,
    i: int,
    j: int,
)
    requires
        0 <= i < c.types@.len(),
    ensures
        match c.types@[i].kind {
            UserTypeKind::Composite { attributes } => 0 <= j < attributes@.len() ==> (
            attributes@[j].ty matches ColumnType::UserDefined(q) ==> depends(
                c,
                cycle,
                NodeId::Type(c.types@[i].qname),
                NodeId::Type(q),
            )),
            UserTypeKind::Domain { base, .. } => base matches ColumnType::UserDefined(q) ==> depends(
                c,
                cycle,
                NodeId::Type(c.types@[i].qname),
                NodeId::Type(q),
            ),
            UserTypeKind::Range { subtype, .. } => 0 <= j < c.types@.len() && c.types@[j].qname@
                == subtype@ && subtype.schema@ != "pg_catalog"@ ==> depends(
                c,
                cycle,
                NodeId::Type(c.types@[i].qname),
                NodeId::Type(c.types@[j].qname),
            ),
            _ => true,
        },
{
    let scope = ScopeModel { catalog: c, cycle };
    let t = c.types@[i];
    let from = NodeId::Type(t.qname)@;
    match t.kind {
        UserTypeKind::Composite { attributes } => {
            if 0 <= j < attributes@.len() {
                if let ColumnType::UserDefined(q) = attributes@[j].ty {
                    let e = (from, NodeId::Type(q)@);
                    assert(crate::plan::object_edges::attribute_edge(from, attributes@[j], c, e));
                    assert(crate::plan::object_edges::kind_edge(from, t.kind, c, e));
                    assert(t.needs(scope).contains(e));
                    assert(all_need(c.types@, scope).contains(e));
                }
            }
        },
        UserTypeKind::Domain { base, .. } => {
            if let ColumnType::UserDefined(q) = base {
                let e = (from, NodeId::Type(q)@);
                assert(crate::plan::object_edges::kind_edge(from, t.kind, c, e));
                assert(t.needs(scope).contains(e));
                assert(all_need(c.types@, scope).contains(e));
            }
        },
        UserTypeKind::Range { subtype, .. } => {
            if 0 <= j < c.types@.len() && c.types@[j].qname@ == subtype@ && subtype.schema@
                != "pg_catalog"@ {
                let e = (from, NodeId::Type(subtype)@);
                assert(c.types@[j].qname@ == subtype@);
                assert(crate::plan::object_edges::manages_type(c, subtype));
                assert(crate::plan::object_edges::kind_edge(from, t.kind, c, e));
                assert(t.needs(scope).contains(e));
                assert(all_need(c.types@, scope).contains(e));
            }
        },
        _ => {},
    }
}

/// A routine depends on the types of its arguments and of its result.
pub proof fn law_routines_depend_on_their_types(c: Catalog, cycle: Seq<NodeKey>, i: int, j: int)
    ensures
        0 <= i < c.functions@.len() ==> ({
            let f = c.functions@[i];
            let own = NodeId::Function(f.qname, f.arg_types_normalized);
            &&& 0 <= j < f.args@.len() ==> (f.args@[j].ty matches ColumnType::UserDefined(q)
                ==> depends(c, cycle, own, NodeId::Type(q)))
            &&& match f.return_type {
                ReturnType::Scalar { ty } => ty matches ColumnType::UserDefined(q) ==> depends(
                    c,
                    cycle,
                    own,
                    NodeId::Type(q),
                ),
                ReturnType::SetOf { ty } => ty matches ColumnType::UserDefined(q) ==> depends(
                    c,
                    cycle,
                    own,
                    NodeId::Type(q),
                ),
                ReturnType::Table { columns } => 0 <= j < columns@.len() ==> (columns@[j].ty matches
                    ColumnType::UserDefined(q) ==> depends(c, cycle, own, NodeId::Type(q))),
                _ => true,
            }
        }),
        0 <= i < c.procedures@.len() && 0 <= j < c.procedures@[i].args@.len() ==> (
        c.procedures@[i].args@[j].ty matches ColumnType::UserDefined(q) ==> depends(
            c,
            cycle,
            NodeId::Procedure(c.procedures@[i].qname),
            NodeId::Type(q),
        )),
{
    let scope = ScopeModel { catalog: c, cycle };
    if 0 <= i < c.functions@.len() {
        let f = c.functions@[i];
        let own = NodeId::Function(f.qname, f.arg_types_normalized)@;
        if 0 <= j < f.args@.len() {
            if let ColumnType::UserDefined(q) = f.args@[j].ty {
                let e = (own, NodeId::Type(q)@);
                assert(crate::plan::object_edges::type_edge(own, f.args@[j].ty, e));
                assert(f.needs(scope).contains(e));
                assert(all_need(c.functions@, scope).contains(e));
            }
        }
        match f.return_type {
            ReturnType::Scalar { ty } => {
                if let ColumnType::UserDefined(q) = ty {
                    let e = (own, NodeId::Type(q)@);
                    assert(f.needs(scope).contains(e));
                    assert(all_need(c.functions@, scope).contains(e));
                }
            },
            ReturnType::SetOf { ty } => {
                if let ColumnType::UserDefined(q) = ty {
                    let e = (own, NodeId::Type(q)@);
                    assert(f.needs(scope).contains(e));
                    assert(all_need(c.functions@, scope).contains(e));
                }
            },
            ReturnType::Table { columns } => {
                if 0 <= j < columns@.len() {
                    if let ColumnType::UserDefined(q) = columns@[j].ty {
                        let e = (own, NodeId::Type(q)@);
                        assert(crate::plan::object_edges::type_edge(own, columns@[j].ty, e));
                        assert(f.needs(scope).contains(e));
                        assert(all_need(c.functions@, scope).contains(e));
                    }
                }
            },
            _ => {},
        }
    }
    if 0 <= i < c.procedures@.len() && 0 <= j < c.procedures@[i].args@.len() {
        let p = c.procedures@[i];
        let own = NodeId::Procedure(p.qname)@;
        if let ColumnType::UserDefined(q) = p.args@[j].ty {
            let e = (own, NodeId::Type(q)@);
            assert(crate::plan::object_edges::type_edge(own, p.args@[j].ty, e));
            assert(p.needs(scope).contains(e));
            assert(all_need(c.procedures@, scope).contains(e));
        }
    }
}

/// Which kinds of objects refer to which, apart from what bodies record: the
/// ranks count the kinds in the order of [`NodeId`]'s variants. A table, a
/// type, a routine, an aggregate or a collation refers to no schema but its own.
pub open spec fn may_refer(from: NodeKey, to: NodeKey) -> bool {
    let own_schema = to.rank == 0 && to.parts[0] == from.parts[0];
    ||| from.rank == 1 && (own_schema || to.rank == 1 || to.rank == 3 || to.rank == 7 || to.rank == 15)
    ||| from.rank == 2 && (to.rank == 1 || to.rank == 6)
    ||| from.rank == 3 && to.rank == 1
    ||| from.rank == 4 && to.rank == 1
    ||| from.rank == 7 && (own_schema || to.rank == 7 || to.rank == 8 || to.rank == 15)
    ||| from.rank == 8 && (own_schema || to.rank == 7)
    ||| from.rank == 9 && (own_schema || to.rank == 7)
    ||| from.rank == 10 && to.rank == 0
    ||| from.rank == 11 && (to.rank == 1 || to.rank == 5 || to.rank == 6 || to.rank == 8)
    ||| from.rank == 12 && (to.rank == 0 || to.rank == 1)
    ||| from.rank == 14 && to.rank == 1
    ||| from.rank == 15 && own_schema
    ||| from.rank == 16 && to.rank == 8
    ||| from.rank == 17 && (own_schema || to.rank == 8)
    ||| from.rank == 18 && to.rank == 8
}

proof fn lemma_relation_edges(c: Catalog, scope: ScopeModel, e: (NodeKey, NodeKey))
    requires
        scope.catalog == c,
        all_need(c.tables@, scope).contains(e)
            || all_need(c.indexes@, scope).contains(e)
            || all_need(c.sequences@, scope).contains(e),
    ensures
        body_dependency_edges(c).contains(e) || may_refer(e.0, e.1),
{
    if all_need(c.tables@, scope).contains(e) {
        let i = choose|i: int|
            0 <= i < c.tables@.len() && (#[trigger] c.tables@[i]).needs(scope).contains(e);
    } else if all_need(c.indexes@, scope).contains(e) {
        let i = choose|i: int|
            0 <= i < c.indexes@.len() && (#[trigger] c.indexes@[i]).needs(scope).contains(e);
    } else if all_need(c.sequences@, scope).contains(e) {
        let i = choose|i: int|
            0 <= i < c.sequences@.len() && (#[trigger] c.sequences@[i]).needs(scope).contains(e);
    }
}

proof fn lemma_routine_edges(c: Catalog, scope: ScopeModel, e: (NodeKey, NodeKey))
    requires
        scope.catalog == c,
        all_need(c.types@, scope).contains(e)
            || all_need(c.functions@, scope).contains(e)
            || all_need(c.procedures@, scope).contains(e),
    ensures
        body_dependency_edges(c).contains(e) || may_refer(e.0, e.1),
{
    if all_need(c.types@, scope).contains(e) {
        let i = choose|i: int|
            0 <= i < c.types@.len() && (#[trigger] c.types@[i]).needs(scope).contains(e);
    } else if all_need(c.functions@, scope).contains(e) {
        let i = choose|i: int|
            0 <= i < c.functions@.len() && (#[trigger] c.functions@[i]).needs(scope).contains(e);
        if body_edges(c.functions@[i].recorded()).contains(e) {
            assert(all_recorded(c.functions@).contains(e));
        }
    } else if all_need(c.procedures@, scope).contains(e) {
        let i = choose|i: int|
            0 <= i < c.procedures@.len() && (#[trigger] c.procedures@[i]).needs(scope).contains(e);
        if body_edges(c.procedures@[i].recorded()).contains(e) {
            assert(all_recorded(c.procedures@).contains(e));
        }
    }
}

proof fn lemma_caller_edges(c: Catalog, scope: ScopeModel, e: (NodeKey, NodeKey))
    requires
        scope.catalog == c,
        all_need(c.triggers@, scope).contains(e)
            || all_need(c.event_triggers@, scope).contains(e)
            || all_need(c.aggregates@, scope).contains(e)
            || all_need(c.casts@, scope).contains(e),
    ensures
        body_dependency_edges(c).contains(e) || may_refer(e.0, e.1),
{
    if all_need(c.triggers@, scope).contains(e) {
        let i = choose|i: int|
            0 <= i < c.triggers@.len() && (#[trigger] c.triggers@[i]).needs(scope).contains(e);
    } else if all_need(c.event_triggers@, scope).contains(e) {
        let i = choose|i: int|
            0 <= i < c.event_triggers@.len() && (#[trigger] c.event_triggers@[i]).needs(scope).contains(e);
    } else if all_need(c.aggregates@, scope).contains(e) {
        let i = choose|i: int|
            0 <= i < c.aggregates@.len() && (#[trigger] c.aggregates@[i]).needs(scope).contains(e);
    } else if all_need(c.casts@, scope).contains(e) {
        let i = choose|i: int|
            0 <= i < c.casts@.len() && (#[trigger] c.casts@[i]).needs(scope).contains(e);
    }
}

proof fn lemma_other_edges(c: Catalog, scope: ScopeModel, e: (NodeKey, NodeKey))
    requires
        scope.catalog == c,
        all_need(c.extensions@, scope).contains(e)
            || all_need(c.publications@, scope).contains(e)
            || all_need(c.statistics@, scope).contains(e)
            || all_need(c.collations@, scope).contains(e),
    ensures
        body_dependency_edges(c).contains(e) || may_refer(e.0, e.1),
{
    if all_need(c.extensions@, scope).contains(e) {
        let i = choose|i: int|
            0 <= i < c.extensions@.len() && (#[trigger] c.extensions@[i]).needs(scope).contains(e);
    } else if all_need(c.publications@, scope).contains(e) {
        let i = choose|i: int|
            0 <= i < c.publications@.len() && (#[trigger] c.publications@[i]).needs(scope).contains(e);
    } else if all_need(c.statistics@, scope).contains(e) {
        let i = choose|i: int|
            0 <= i < c.statistics@.len() && (#[trigger] c.statistics@[i]).needs(scope).contains(e);
    } else if all_need(c.collations@, scope).contains(e) {
        let i = choose|i: int|
            0 <= i < c.collations@.len() && (#[trigger] c.collations@[i]).needs(scope).contains(e);
    }
}

/// No object depends on a kind of object that it has no reference to: every
/// edge that no body records leads from one kind to one that it may refer to.
pub proof fn law_edges_follow_references(c: Catalog, cycle: Seq<NodeKey>, from: NodeKey, to: NodeKey)
    requires
        catalog_graph(c, cycle).edges.contains((from, to)),
    ensures
        body_dependency_edges(c).contains((from, to)) || may_refer(from, to),
{
    let scope = ScopeModel { catalog: c, cycle };
    let e = (from, to);
    assert(dependency_edges(scope).contains(e));
    if all_need(c.views@, scope).contains(e) {
        let i = choose|i: int|
            0 <= i < c.views@.len() && (#[trigger] c.views@[i]).needs(scope).contains(e);
        assert(body_edges(c.views@[i].recorded()).contains(e));
        assert(all_recorded(c.views@).contains(e));
    } else if all_need(c.materialized_views@, scope).contains(e) {
        let i = choose|i: int|
            0 <= i < c.materialized_views@.len() && (#[trigger] c.materialized_views@[i]).needs(
                scope,
            ).contains(e);
        assert(body_edges(c.materialized_views@[i].recorded()).contains(e));
        assert(all_recorded(c.materialized_views@).contains(e));
    } else if all_need(c.tables@, scope).contains(e)
        || all_need(c.indexes@, scope).contains(e)
        || all_need(c.sequences@, scope).contains(e) {
        lemma_relation_edges(c, scope, e);
    } else if all_need(c.types@, scope).contains(e)
        || all_need(c.functions@, scope).contains(e)
        || all_need(c.procedures@, scope).contains(e) {
        lemma_routine_edges(c, scope, e);
    } else if all_need(c.triggers@, scope).contains(e)
        || all_need(c.event_triggers@, scope).contains(e)
        || all_need(c.aggregates@, scope).contains(e)
        || all_need(c.casts@, scope).contains(e) {
        lemma_caller_edges(c, scope, e);
    } else if all_need(c.schemas@, scope).contains(e) || all_need(c.subscriptions@, scope).contains(e) {
        assert(false);
    } else {
        lemma_other_edges(c, scope, e);
    }
}

/// What `later` creates refers, in the catalog `c`, to what `earlier` creates:
/// an index to its relation, a table to its schema, to the sequences and types
/// of its columns, to its parent and to the tables of its foreign keys outside
/// the cycle, a trigger to its table, a statistic to its table, and a view to
/// what its body records.
pub open spec fn creation_needs(
    c: Catalog,
    cycle: Seq<NodeKey>,
    later: Change,
    earlier: Change,
) -> bool {
    match later {
        Change::CreateIndex(idx) => exists|i: int|
            0 <= i < c.indexes@.len() && (#[trigger] c.indexes@[i]).qname@ == idx.qname@ && match (
                c.indexes@[i].on,
                earlier,
            ) {
                (IndexParent::Table(q), Change::CreateTable(t)) => q@ == t.qname@,
                (IndexParent::Mv(q), Change::Mv(MvChange::Create(mv))) => q@ == mv.qname@,
                _ => false,
            },
        Change::CreateTable(t) => exists|i: int|
            0 <= i < c.tables@.len() && (#[trigger] c.tables@[i]).qname@ == t.qname@
                && table_needs(c.tables@[i], cycle, earlier),
        Change::Statistic(StatisticChange::Create(s)) => exists|i: int|
            0 <= i < c.statistics@.len() && (#[trigger] c.statistics@[i]).qname@ == s.qname@ && (
            earlier matches Change::CreateTable(u) && c.statistics@[i].target@ == u.qname@),
        Change::Trigger(TriggerChange::Create(g)) => exists|i: int|
            0 <= i < c.triggers@.len() && (#[trigger] c.triggers@[i]).qname@ == g.qname@ && (
            earlier matches Change::CreateTable(u) && c.triggers@[i].table@ == u.qname@ && exists|
                k: int,
            |
                0 <= k < c.tables@.len() && (#[trigger] c.tables@[k]).qname@ == u.qname@),
        _ => false,
    }
}

/// The definition of a table needs what `earlier` creates.
pub open spec fn table_needs(t: Table, cycle: Seq<NodeKey>, earlier: Change) -> bool {
    match earlier {
        Change::CreateSchema(s) => t.qname.schema@ == s.name@,
        Change::CreateSequence(s) => exists|j: int|
            0 <= j < t.columns@.len() && ((#[trigger] t.columns@[j]).default matches Some(
                DefaultExpr::Sequence(q),
            ) && q@ == s.qname@),
        Change::UserType(UserTypeChange::Create(u)) => exists|j: int|
            0 <= j < t.columns@.len() && ((#[trigger] t.columns@[j]).ty matches
                ColumnType::UserDefined(q) && q@ == u.qname@),
        Change::CreateTable(u) => {
            ||| t.partition_of matches Some(po) && po.parent@ == u.qname@
            ||| exists|j: int|
                0 <= j < t.constraints@.len() && !lies_in(
                    cycle,
                    t.qname,
                    #[trigger] t.constraints@[j],
                ) && (t.constraints@[j].kind matches ConstraintKind::ForeignKey(fk)
                    && fk.referenced_table@ == u.qname@ && u.qname@ != t.qname@)
        },
        _ => false,
    }
}

/// The nodes of two creates of which one needs the other are joined by an
/// edge.
proof fn lemma_creation_needs(c: Catalog, cycle: Seq<NodeKey>, later: Change, earlier: Change)
    requires
        creation_needs(c, cycle, later, earlier),
    ensures
        catalog_graph(c, cycle).edges.contains((change_key(later), change_key(earlier))),
{
    match later {
        Change::CreateIndex(_) => lemma_index_needs(c, cycle, later, earlier),
        Change::CreateTable(t) => {
            let i = choose|i: int|
                0 <= i < c.tables@.len() && (#[trigger] c.tables@[i]).qname@ == t.qname@
                    && table_needs(c.tables@[i], cycle, earlier);
            lemma_table_needs(c, cycle, i, earlier);
        },
        Change::Statistic(_) => lemma_statistic_needs(c, cycle, later, earlier),
        Change::Trigger(_) => lemma_trigger_needs(c, cycle, later, earlier),
        _ => {},
    }
}

proof fn lemma_index_needs(c: Catalog, cycle: Seq<NodeKey>, later: Change, earlier: Change)
    requires
        later is CreateIndex,
        creation_needs(c, cycle, later, earlier),
    ensures
        catalog_graph(c, cycle).edges.contains((change_key(later), change_key(earlier))),
{
    let idx = later->CreateIndex_0;
    let i = choose|i: int|
        0 <= i < c.indexes@.len() && (#[trigger] c.indexes@[i]).qname@ == idx.qname@ && match (
            c.indexes@[i].on,
            earlier,
        ) {
            (IndexParent::Table(q), Change::CreateTable(t)) => q@ == t.qname@,
            (IndexParent::Mv(q), Change::Mv(MvChange::Create(mv))) => q@ == mv.qname@,
            _ => false,
        };
    law_indexes_depend_on_their_relation(c, cycle, i);
}

proof fn lemma_statistic_needs(c: Catalog, cycle: Seq<NodeKey>, later: Change, earlier: Change)
    requires
        later is Statistic,
        creation_needs(c, cycle, later, earlier),
    ensures
        catalog_graph(c, cycle).edges.contains((change_key(later), change_key(earlier))),
{
    let s = later->Statistic_0->Create_0;
    let u = earlier->CreateTable_0;
    let i = choose|i: int|
        0 <= i < c.statistics@.len() && (#[trigger] c.statistics@[i]).qname@ == s.qname@
            && c.statistics@[i].target@ == u.qname@;
    law_objects_on_a_table_depend_on_it(c, cycle);
    assert(c.statistics@[i].qname@ == s.qname@);
}

proof fn lemma_trigger_needs(c: Catalog, cycle: Seq<NodeKey>, later: Change, earlier: Change)
    requires
        later is Trigger,
        creation_needs(c, cycle, later, earlier),
    ensures
        catalog_graph(c, cycle).edges.contains((change_key(later), change_key(earlier))),
{
    let g = later->Trigger_0->Create_0;
    let u = earlier->CreateTable_0;
    let i = choose|i: int|
        0 <= i < c.triggers@.len() && (#[trigger] c.triggers@[i]).qname@ == g.qname@
            && c.triggers@[i].table@ == u.qname@;
    law_triggers_depend_on_relation_and_function(c, cycle, i, 0);
}

proof fn lemma_table_needs(c: Catalog, cycle: Seq<NodeKey>, i: int, earlier: Change)
    requires
        0 <= i < c.tables@.len(),
        table_needs(c.tables@[i], cycle, earlier),
    ensures
        catalog_graph(c, cycle).edges.contains(
            (NodeId::Table(c.tables@[i].qname)@, change_key(earlier)),
        ),
{
    let t = c.tables@[i];
    match earlier {
        Change::CreateSchema(s) => {
            law_objects_depend_on_their_schema(c, cycle);
            assert(c.tables@[i].qname.schema@ == s.name@);
        },
        Change::CreateSequence(s) => {
            let j = choose|j: int|
                0 <= j < t.columns@.len() && ((#[trigger] t.columns@[j]).default matches Some(
                    DefaultExpr::Sequence(q),
                ) && q@ == s.qname@);
            law_tables_depend_on_what_their_columns_use(c, cycle, i, j);
        },
        Change::UserType(UserTypeChange::Create(u)) => {
            let j = choose|j: int|
                0 <= j < t.columns@.len() && ((#[trigger] t.columns@[j]).ty matches
                    ColumnType::UserDefined(q) && q@ == u.qname@);
            law_tables_depend_on_what_their_columns_use(c, cycle, i, j);
        },
        Change::CreateTable(u) => {
            if t.partition_of is Some && t.partition_of->Some_0.parent@ == u.qname@ {
                law_partitions_depend_on_their_parent(c, cycle, i);
            } else {
                let j = choose|j: int|
                    0 <= j < t.constraints@.len() && !lies_in(
                        cycle,
                        t.qname,
                        #[trigger] t.constraints@[j],
                    ) && (t.constraints@[j].kind matches ConstraintKind::ForeignKey(fk)
                        && fk.referenced_table@ == u.qname@ && u.qname@ != t.qname@);
                law_foreign_keys_depend_on_both_tables(c, cycle, i, j);
            }
        },
        _ => {},
    }
}

/// In every plan, what a create needs is created before it. In particular a
/// materialized view is created before an index on it.
pub proof fn law_what_a_create_needs_comes_first(
    target: Catalog,
    source: Catalog,
    work: Seq<ChangeEntry>,
    cycle: Seq<NodeKey>,
    order: Seq<NodeKey>,
    drop_order: Seq<NodeKey>,
    creates: Seq<ChangeEntry>,
    out: OrderedChangeSet,
    i: int,
    j: int,
)
    requires
        is_ordered_by(target, source, work, cycle, order, drop_order, creates, out),
        0 <= i < out.creates_and_adds@.len(),
        0 <= j < out.creates_and_adds@.len(),
        creation_needs(
            source,
            cycle,
            out.creates_and_adds@[i].change,
            out.creates_and_adds@[j].change,
        ),
    ensures
        j < i,
{
    let later = out.creates_and_adds@[i].change;
    let earlier = out.creates_and_adds@[j].change;
    lemma_creation_needs(source, cycle, later, earlier);
    let g = create_graph(source, cycle);
    assert(cycle.len() == 0 ==> cycle =~= Seq::empty());
    lemma_edge_reaches(g, change_key(later), change_key(earlier));
    law_creates_put_dependencies_first(
        target,
        source,
        work,
        cycle,
        order,
        drop_order,
        creates,
        out,
        i,
        j,
    );
}

/// What `first` drops refers, in the catalog `c`, to what `second` drops: an
/// index, a trigger, a statistic or a sequence to its table, an index to its
/// materialized view, and a table to its schema or to the table of a foreign
/// key.
pub open spec fn drop_needs(c: Catalog, first: Change, second: Change) -> bool {
    match (first, second) {
        (Change::DropIndex(q), Change::DropTable { qname, .. }) => exists|i: int|
            0 <= i < c.indexes@.len() && (#[trigger] c.indexes@[i]).qname@ == q@ && (
            c.indexes@[i].on matches IndexParent::Table(r) && r@ == qname@),
        (Change::DropIndex(q), Change::Mv(MvChange::Drop(mv))) => exists|i: int|
            0 <= i < c.indexes@.len() && (#[trigger] c.indexes@[i]).qname@ == q@ && (
            c.indexes@[i].on matches IndexParent::Mv(r) && r@ == mv@),
        (Change::Statistic(StatisticChange::Drop { qname: q }), Change::DropTable { qname, .. }) =>
            exists|i: int|
            0 <= i < c.statistics@.len() && (#[trigger] c.statistics@[i]).qname@ == q@
                && c.statistics@[i].target@ == qname@,
        (Change::DropSequence(q), Change::DropTable { qname, .. }) => exists|i: int|
            0 <= i < c.sequences@.len() && (#[trigger] c.sequences@[i]).qname@ == q@ && (
            c.sequences@[i].owned_by matches Some(o) && o.table@ == qname@),
        (Change::DropTable { qname: q, .. }, Change::DropSchema(s)) => exists|i: int|
            0 <= i < c.tables@.len() && (#[trigger] c.tables@[i]).qname@ == q@
                && c.tables@[i].qname.schema@ == s@,
        (Change::DropTable { qname: q, .. }, Change::DropTable { qname, .. }) => q@ != qname@
            && exists|i: int, j: int|
            0 <= i < c.tables@.len() && 0 <= j < c.tables@[i].constraints@.len()
                && c.tables@[i].qname@ == q@ && ((
            #[trigger] c.tables@[i].constraints@[j]).kind matches ConstraintKind::ForeignKey(fk)
                && fk.referenced_table@ == qname@),
        _ => false,
    }
}

/// In every plan, what refers to an object is dropped before the object.
pub proof fn law_what_refers_is_dropped_first(
    target: Catalog,
    source: Catalog,
    work: Seq<ChangeEntry>,
    cycle: Seq<NodeKey>,
    order: Seq<NodeKey>,
    drop_order: Seq<NodeKey>,
    creates: Seq<ChangeEntry>,
    out: OrderedChangeSet,
    i: int,
    j: int,
)
    requires
        is_ordered_by(target, source, work, cycle, order, drop_order, creates, out),
        0 <= i < out.drops@.len(),
        0 <= j < out.drops@.len(),
        drop_needs(target, out.drops@[i].change, out.drops@[j].change),
    ensures
        i < j,
{
    let first = out.drops@[i].change;
    let second = out.drops@[j].change;
    lemma_drop_needs(target, first, second);
    let g = catalog_graph(target, Seq::empty());
    lemma_edge_reaches(g, change_key(first), change_key(second));
    law_drops_put_dependents_first(
        target,
        source,
        work,
        cycle,
        order,
        drop_order,
        creates,
        out,
        i,
        j,
    );
}

proof fn lemma_drop_needs(c: Catalog, first: Change, second: Change)
    requires
        drop_needs(c, first, second),
    ensures
        catalog_graph(c, Seq::empty()).edges.contains((change_key(first), change_key(second))),
{
    let none = Seq::<NodeKey>::empty();
    match (first, second) {
        (Change::DropIndex(q), Change::DropTable { qname, .. }) => {
            let i = choose|i: int|
                0 <= i < c.indexes@.len() && (#[trigger] c.indexes@[i]).qname@ == q@ && (
                c.indexes@[i].on matches IndexParent::Table(r) && r@ == qname@);
            law_indexes_depend_on_their_relation(c, none, i);
        },
        (Change::DropIndex(q), Change::Mv(MvChange::Drop(mv))) => {
            let i = choose|i: int|
                0 <= i < c.indexes@.len() && (#[trigger] c.indexes@[i]).qname@ == q@ && (
                c.indexes@[i].on matches IndexParent::Mv(r) && r@ == mv@);
            law_indexes_depend_on_their_relation(c, none, i);
        },
        (Change::Statistic(StatisticChange::Drop { qname: q }), Change::DropTable { qname, .. }) => {
            let i = choose|i: int|
                0 <= i < c.statistics@.len() && (#[trigger] c.statistics@[i]).qname@ == q@
                    && c.statistics@[i].target@ == qname@;
            law_objects_on_a_table_depend_on_it(c, none);
            assert(c.statistics@[i].qname@ == q@);
        },
        (Change::DropSequence(q), Change::DropTable { qname, .. }) => {
            let i = choose|i: int|
                0 <= i < c.sequences@.len() && (#[trigger] c.sequences@[i]).qname@ == q@ && (
                c.sequences@[i].owned_by matches Some(o) && o.table@ == qname@);
            law_objects_on_a_table_depend_on_it(c, none);
            assert(c.sequences@[i].qname@ == q@);
        },
        (Change::DropTable { qname: q, .. }, Change::DropSchema(s)) => {
            let i = choose|i: int|
                0 <= i < c.tables@.len() && (#[trigger] c.tables@[i]).qname@ == q@
                    && c.tables@[i].qname.schema@ == s@;
            law_objects_depend_on_their_schema(c, none);
            assert(c.tables@[i].qname@ == q@);
        },
        (Change::DropTable { qname: q, .. }, Change::DropTable { qname, .. }) => {
            let (i, j) = choose|i: int, j: int|
                0 <= i < c.tables@.len() && 0 <= j < c.tables@[i].constraints@.len()
                    && c.tables@[i].qname@ == q@ && ((
                #[trigger] c.tables@[i].constraints@[j]).kind matches ConstraintKind::ForeignKey(fk)
                    && fk.referenced_table@ == qname@);
            assert(!none.contains(NodeId::Table(c.tables@[i].qname)@));
            law_foreign_keys_depend_on_both_tables(c, none, i, j);
        },
        _ => {},
    }
}

/// A deferred key is a foreign key of a table of the catalog, to another
/// table, and both tables are in the cycle.
pub proof fn law_deferred_keys_lie_in_the_cycle(
    tables: Seq<Table>,
    cycle: Seq<NodeKey>,
    k: int,
)
    requires
        0 <= k < deferred_fks_of(tables, cycle).len(),
    ensures
        exists|i: int, j: int|
            0 <= i < tables.len() && 0 <= j < tables[i].constraints@.len() && lies_in(
                cycle,
                tables[i].qname,
                #[trigger] tables[i].constraints@[j],
            ) && deferred_fks_of(tables, cycle)[k].table == tables[i].qname@ && deferred_fks_of(
                tables,
                cycle,
            )[k].constraint == tables[i].constraints@[j]@,
    decreases tables.len(),
{
    if tables.len() > 0 {
        let rest = tables.drop_last();
        let before = deferred_fks_of(rest, cycle);
        let t = tables.last();
        let n = tables.len() - 1;
        if k < before.len() {
            law_deferred_keys_lie_in_the_cycle(rest, cycle, k);
            let (i, j) = choose|i: int, j: int|
                0 <= i < rest.len() && 0 <= j < rest[i].constraints@.len() && lies_in(
                    cycle,
                    rest[i].qname,
                    #[trigger] rest[i].constraints@[j],
                ) && before[k].table == rest[i].qname@ && before[k].constraint
                    == rest[i].constraints@[j]@;
            assert(tables[i] == rest[i]);
            assert(lies_in(cycle, tables[i].qname, tables[i].constraints@[j]));
        } else {
            let j = lemma_deferred_of(t.qname, t.constraints@, cycle, k - before.len());
            assert(tables[n] == t);
            assert(lies_in(cycle, tables[n].qname, tables[n].constraints@[j]));
        }
    }
}

proof fn lemma_deferred_of(
    table: QualifiedName,
    constraints: Seq<Constraint>,
    cycle: Seq<NodeKey>,
    k: int,
) -> (j: int)
    requires
        0 <= k < deferred_of(table, constraints, cycle).len(),
    ensures
        0 <= j < constraints.len(),
        lies_in(cycle, table, constraints[j]),
        deferred_of(table, constraints, cycle)[k] == (DeferredFkModel {
            table: table@,
            constraint: constraints[j]@,
        }),
    decreases constraints.len(),
{
    let rest = constraints.drop_last();
    let before = deferred_of(table, rest, cycle);
    if k < before.len() {
        lemma_deferred_of(table, rest, cycle, k)
    } else {
        constraints.len() - 1
    }
}

/// Every foreign key of the catalog that lies in the cycle is deferred.
pub proof fn law_keys_in_the_cycle_are_deferred(
    tables: Seq<Table>,
    cycle: Seq<NodeKey>,
    i: int,
    j: int,
)
    requires
        0 <= i < tables.len(),
        0 <= j < tables[i].constraints@.len(),
        lies_in(cycle, tables[i].qname, tables[i].constraints@[j]),
    ensures
        deferred_fks_of(tables, cycle).contains(
            DeferredFkModel {
                table: tables[i].qname@,
                constraint: tables[i].constraints@[j]@,
            },
        ),
    decreases tables.len(),
{
    let rest = tables.drop_last();
    let before = deferred_fks_of(rest, cycle);
    let all = deferred_fks_of(tables, cycle);
    let d = DeferredFkModel { table: tables[i].qname@, constraint: tables[i].constraints@[j]@ };
    if i < rest.len() {
        assert(rest[i] == tables[i]);
        law_keys_in_the_cycle_are_deferred(rest, cycle, i, j);
        let k = choose|k: int| 0 <= k < before.len() && before[k] == d;
        assert(all[k] == d);
    } else {
        let t = tables.last();
        let k = lemma_is_deferred_of(t.qname, t.constraints@, cycle, j);
        assert(all[before.len() + k] == d);
    }
}

proof fn lemma_is_deferred_of(
    table: QualifiedName,
    constraints: Seq<Constraint>,
    cycle: Seq<NodeKey>,
    j: int,
) -> (k: int)
    requires
        0 <= j < constraints.len(),
        lies_in(cycle, table, constraints[j]),
    ensures
        0 <= k < deferred_of(table, constraints, cycle).len(),
        deferred_of(table, constraints, cycle)[k] == (DeferredFkModel {
            table: table@,
            constraint: constraints[j]@,
        }),
    decreases constraints.len(),
{
    let rest = constraints.drop_last();
    let before = deferred_of(table, rest, cycle);
    if j < rest.len() {
        lemma_is_deferred_of(table, rest, cycle, j)
    } else {
        before.len() as int
    }
}

/// The table at `i` refers to `to`: to its schema, to what a column uses, to its
/// parent, or by a foreign key outside the cycle to another table.
pub open spec fn table_refers(c: Catalog, cycle: Seq<NodeKey>, i: int, to: NodeKey) -> bool {
    let t = c.tables@[i];
    ||| to == NodeId::Schema(t.qname.schema)@
    ||| t.partition_of matches Some(po) && to == NodeId::Table(po.parent)@
    ||| exists|j: int|
        0 <= j < t.columns@.len() && {
            ||| (#[trigger] t.columns@[j]).ty matches ColumnType::UserDefined(q) && to
                == NodeId::Type(q)@
            ||| t.columns@[j].default matches Some(DefaultExpr::Sequence(q)) && to
                == NodeId::Sequence(q)@
            ||| t.columns@[j].collation matches Some(q) && has_collation(c, q) && to
                == NodeId::Collation(q)@
        }
    ||| exists|j: int|
        0 <= j < t.constraints@.len() && !lies_in(cycle, t.qname, #[trigger] t.constraints@[j]) && (
        t.constraints@[j].kind matches ConstraintKind::ForeignKey(fk) && fk.referenced_table@
            != t.qname@ && to == NodeId::Table(fk.referenced_table)@)
}

/// The catalog has a collation of that name, which is not one that every
/// database has.
pub open spec fn has_collation(c: Catalog, q: QualifiedName) -> bool {
    &&& q.schema@ != "pg_catalog"@
    &&& !is_builtin_collation(q.name@)
    &&& exists|k: int| 0 <= k < c.collations@.len() && (#[trigger] c.collations@[k]).qname@ == q@
}

/// `from` is a constraint of the table at `i` outside the cycle, and `to` is its
/// table or, for a foreign key, the referenced one.
pub open spec fn constraint_refers(
    c: Catalog,
    cycle: Seq<NodeKey>,
    i: int,
    from: NodeKey,
    to: NodeKey,
) -> bool {
    let t = c.tables@[i];
    exists|j: int|
        0 <= j < t.constraints@.len() && !lies_in(cycle, t.qname, #[trigger] t.constraints@[j])
            && from == (NodeId::Constraint { table: t.qname, name: t.constraints@[j].qname.name })@
            && (to == NodeId::Table(t.qname)@ || (t.constraints@[j].kind matches
            ConstraintKind::ForeignKey(fk) && to == NodeId::Table(fk.referenced_table)@))
}

/// `to` is the first function of that name in the catalog.
pub open spec fn is_function_named(c: Catalog, q: QualifiedName, to: NodeKey) -> bool {
    exists|f: int| #[trigger]
        is_first_of_name(c, q, f) && to == NodeId::Function(
            c.functions@[f].qname,
            c.functions@[f].arg_types_normalized,
        )@
}

proof fn lemma_function_named(c: Catalog, q: QualifiedName, to: NodeKey)
    requires
        crate::plan::object_edges::names_function(c, q, to),
    ensures
        is_function_named(c, q, to),
{
    let f = choose|f: int| #[trigger]
        first_function(c, q, f) && to == function_node(c.functions@[f]);
    assert(is_first_of_name(c, q, f));
}

/// A type refers to `to`: to its schema, to what it is made of, to a function
/// it names, or to a collation it uses.
pub open spec fn type_refers(c: Catalog, i: int, to: NodeKey) -> bool {
    let t = c.types@[i];
    ||| to == NodeId::Schema(t.qname.schema)@
    ||| match t.kind {
        UserTypeKind::Composite { attributes } => exists|j: int|
            0 <= j < attributes@.len() && {
                ||| (#[trigger] attributes@[j]).ty matches ColumnType::UserDefined(q) && to
                    == NodeId::Type(q)@
                ||| attributes@[j].collation matches Some(q) && has_collation(c, q) && to
                    == NodeId::Collation(q)@
            },
        UserTypeKind::Domain { base, collation, .. } => {
            ||| base matches ColumnType::UserDefined(q) && to == NodeId::Type(q)@
            ||| collation matches Some(q) && has_collation(c, q) && to == NodeId::Collation(q)@
        },
        UserTypeKind::Range { subtype, canonical, subtype_diff, collation, .. } => {
            ||| to == NodeId::Type(subtype)@ && subtype.schema@ != "pg_catalog"@ && exists|k: int|
                0 <= k < c.types@.len() && (#[trigger] c.types@[k]).qname@ == subtype@
            ||| canonical matches Some(q) && is_function_named(c, q, to)
            ||| subtype_diff matches Some(q) && is_function_named(c, q, to)
            ||| collation matches Some(q) && has_collation(c, q) && to == NodeId::Collation(q)@
        },
        _ => false,
    }
}

/// Every edge of the graph that starts at a table or at a constraint, and that no
/// body records, comes from a reference of a table of the catalog.
pub proof fn law_edges_of_tables_come_from_references(
    c: Catalog,
    cycle: Seq<NodeKey>,
    from: NodeKey,
    to: NodeKey,
)
    requires
        catalog_graph(c, cycle).edges.contains((from, to)),
        from.rank == 1 || from.rank == 4,
    ensures
        body_dependency_edges(c).contains((from, to)) || exists|i: int|
            0 <= i < c.tables@.len() && ((from == NodeId::Table((#[trigger] c.tables@[i]).qname)@
                && table_refers(c, cycle, i, to)) || constraint_refers(c, cycle, i, from, to)),
{
    let scope = ScopeModel { catalog: c, cycle };
    let e = (from, to);
    lemma_edge_is_needed(c, cycle, e);
    if !body_dependency_edges(c).contains(e) {
        let i = choose|i: int|
            0 <= i < c.tables@.len() && (#[trigger] c.tables@[i]).needs(scope).contains(e);
        let t = c.tables@[i];
        let table = NodeId::Table(t.qname)@;
        if exists|j: int|
            0 <= j < t.columns@.len() && crate::plan::object_edges::column_edge(
                table,
                #[trigger] t.columns@[j],
                c,
                e,
            ) {
            let j = choose|j: int|
                0 <= j < t.columns@.len() && crate::plan::object_edges::column_edge(
                    table,
                    #[trigger] t.columns@[j],
                    c,
                    e,
                );
            if let Some(q) = t.columns@[j].collation {
                lemma_has_collation(c, q);
            }
            assert(table_refers(c, cycle, i, to));
        } else if exists|j: int|
            0 <= j < t.constraints@.len() && !crate::plan::object_edges::defers(
                cycle,
                t.qname,
                #[trigger] t.constraints@[j],
            ) && crate::plan::object_edges::constraint_edge(t.qname, t.constraints@[j], e) {
            let j = choose|j: int|
                0 <= j < t.constraints@.len() && !crate::plan::object_edges::defers(
                    cycle,
                    t.qname,
                    #[trigger] t.constraints@[j],
                ) && crate::plan::object_edges::constraint_edge(t.qname, t.constraints@[j], e);
            assert(!lies_in(cycle, t.qname, t.constraints@[j]));
            if from.rank == 4 {
                assert(constraint_refers(c, cycle, i, from, to));
            } else {
                assert(table_refers(c, cycle, i, to));
            }
        } else {
            assert(table_refers(c, cycle, i, to));
        }
        assert(c.tables@[i].qname == t.qname);
    }
}

proof fn lemma_has_collation(c: Catalog, q: QualifiedName)
    ensures
        crate::plan::object_edges::manages_collation(c, q) ==> has_collation(c, q),
{
    if crate::plan::object_edges::manages_collation(c, q) {
        let k = choose|k: int| 0 <= k < c.collations@.len() && #[trigger] c.collations@[k].qname@ == q@;
        assert(c.collations@[k].qname@ == q@);
    }
}

/// An edge that no body records is needed by an object of the kind it starts at.
proof fn lemma_edge_is_needed(c: Catalog, cycle: Seq<NodeKey>, e: (NodeKey, NodeKey))
    requires
        catalog_graph(c, cycle).edges.contains(e),
    ensures
        ({
            let scope = ScopeModel { catalog: c, cycle };
            ||| body_dependency_edges(c).contains(e)
            ||| (e.0.rank == 1 || e.0.rank == 4) && all_need(c.tables@, scope).contains(e)
            ||| e.0.rank == 2 && all_need(c.indexes@, scope).contains(e)
            ||| e.0.rank == 3 && all_need(c.sequences@, scope).contains(e)
            ||| e.0.rank == 7 && all_need(c.types@, scope).contains(e)
            ||| e.0.rank == 8 && all_need(c.functions@, scope).contains(e)
            ||| e.0.rank == 9 && all_need(c.procedures@, scope).contains(e)
            ||| e.0.rank == 10 && all_need(c.extensions@, scope).contains(e)
            ||| e.0.rank == 11 && all_need(c.triggers@, scope).contains(e)
            ||| e.0.rank == 12 && all_need(c.publications@, scope).contains(e)
            ||| e.0.rank == 14 && all_need(c.statistics@, scope).contains(e)
            ||| e.0.rank == 15 && all_need(c.collations@, scope).contains(e)
            ||| e.0.rank == 16 && all_need(c.event_triggers@, scope).contains(e)
            ||| e.0.rank == 17 && all_need(c.aggregates@, scope).contains(e)
            ||| e.0.rank == 18 && all_need(c.casts@, scope).contains(e)
        }),
{
    let scope = ScopeModel { catalog: c, cycle };
    law_edges_follow_references(c, cycle, e.0, e.1);
    assert(dependency_edges(scope).contains(e));
    if !body_dependency_edges(c).contains(e) {
        lemma_ranks_of_relations(c, scope, e);
        lemma_ranks_of_routines(c, scope, e);
        lemma_ranks_of_others(c, scope, e);
        if all_need(c.views@, scope).contains(e) {
            let i = choose|i: int|
                0 <= i < c.views@.len() && (#[trigger] c.views@[i]).needs(scope).contains(e);
            assert(body_edges(c.views@[i].recorded()).contains(e));
            assert(all_recorded(c.views@).contains(e));
        }
        if all_need(c.materialized_views@, scope).contains(e) {
            let i = choose|i: int|
                0 <= i < c.materialized_views@.len() && (#[trigger] c.materialized_views@[i]).needs(
                    scope,
                ).contains(e);
            assert(body_edges(c.materialized_views@[i].recorded()).contains(e));
            assert(all_recorded(c.materialized_views@).contains(e));
        }
    }
}

proof fn lemma_ranks_of_relations(c: Catalog, scope: ScopeModel, e: (NodeKey, NodeKey))
    requires
        scope.catalog == c,
    ensures
        all_need(c.tables@, scope).contains(e) ==> e.0.rank == 1 || e.0.rank == 4,
        all_need(c.indexes@, scope).contains(e) ==> e.0.rank == 2,
        all_need(c.sequences@, scope).contains(e) ==> e.0.rank == 3,
        all_need(c.types@, scope).contains(e) ==> e.0.rank == 7,
{
    if all_need(c.tables@, scope).contains(e) {
        let i = choose|i: int|
            0 <= i < c.tables@.len() && (#[trigger] c.tables@[i]).needs(scope).contains(e);
    }
    if all_need(c.indexes@, scope).contains(e) {
        let i = choose|i: int|
            0 <= i < c.indexes@.len() && (#[trigger] c.indexes@[i]).needs(scope).contains(e);
    }
    if all_need(c.sequences@, scope).contains(e) {
        let i = choose|i: int|
            0 <= i < c.sequences@.len() && (#[trigger] c.sequences@[i]).needs(scope).contains(e);
    }
    if all_need(c.types@, scope).contains(e) {
        let i = choose|i: int|
            0 <= i < c.types@.len() && (#[trigger] c.types@[i]).needs(scope).contains(e);
    }
}

proof fn lemma_ranks_of_routines(c: Catalog, scope: ScopeModel, e: (NodeKey, NodeKey))
    requires
        scope.catalog == c,
    ensures
        all_need(c.functions@, scope).contains(e) ==> e.0.rank == 8 || body_dependency_edges(
            c,
        ).contains(e),
        all_need(c.procedures@, scope).contains(e) ==> e.0.rank == 9 || body_dependency_edges(
            c,
        ).contains(e),
        all_need(c.triggers@, scope).contains(e) ==> e.0.rank == 11,
        all_need(c.event_triggers@, scope).contains(e) ==> e.0.rank == 16,
        all_need(c.aggregates@, scope).contains(e) ==> e.0.rank == 17,
        all_need(c.casts@, scope).contains(e) ==> e.0.rank == 18,
{
    if all_need(c.functions@, scope).contains(e) {
        let i = choose|i: int|
            0 <= i < c.functions@.len() && (#[trigger] c.functions@[i]).needs(scope).contains(e);
        if body_edges(c.functions@[i].recorded()).contains(e) {
            assert(all_recorded(c.functions@).contains(e));
        }
    }
    if all_need(c.procedures@, scope).contains(e) {
        let i = choose|i: int|
            0 <= i < c.procedures@.len() && (#[trigger] c.procedures@[i]).needs(scope).contains(e);
        if body_edges(c.procedures@[i].recorded()).contains(e) {
            assert(all_recorded(c.procedures@).contains(e));
        }
    }
    if all_need(c.triggers@, scope).contains(e) {
        let i = choose|i: int|
            0 <= i < c.triggers@.len() && (#[trigger] c.triggers@[i]).needs(scope).contains(e);
    }
    if all_need(c.event_triggers@, scope).contains(e) {
        let i = choose|i: int|
            0 <= i < c.event_triggers@.len() && (#[trigger] c.event_triggers@[i]).needs(scope).contains(e);
    }
    if all_need(c.aggregates@, scope).contains(e) {
        let i = choose|i: int|
            0 <= i < c.aggregates@.len() && (#[trigger] c.aggregates@[i]).needs(scope).contains(e);
    }
    if all_need(c.casts@, scope).contains(e) {
        let i = choose|i: int|
            0 <= i < c.casts@.len() && (#[trigger] c.casts@[i]).needs(scope).contains(e);
    }
}

proof fn lemma_ranks_of_others(c: Catalog, scope: ScopeModel, e: (NodeKey, NodeKey))
    requires
        scope.catalog == c,
    ensures
        all_need(c.extensions@, scope).contains(e) ==> e.0.rank == 10,
        all_need(c.publications@, scope).contains(e) ==> e.0.rank == 12,
        all_need(c.statistics@, scope).contains(e) ==> e.0.rank == 14,
        all_need(c.collations@, scope).contains(e) ==> e.0.rank == 15,
        !all_need(c.schemas@, scope).contains(e),
        !all_need(c.subscriptions@, scope).contains(e),
{
    if all_need(c.extensions@, scope).contains(e) {
        let i = choose|i: int|
            0 <= i < c.extensions@.len() && (#[trigger] c.extensions@[i]).needs(scope).contains(e);
    }
    if all_need(c.publications@, scope).contains(e) {
        let i = choose|i: int|
            0 <= i < c.publications@.len() && (#[trigger] c.publications@[i]).needs(scope).contains(e);
    }
    if all_need(c.statistics@, scope).contains(e) {
        let i = choose|i: int|
            0 <= i < c.statistics@.len() && (#[trigger] c.statistics@[i]).needs(scope).contains(e);
    }
    if all_need(c.collations@, scope).contains(e) {
        let i = choose|i: int|
            0 <= i < c.collations@.len() && (#[trigger] c.collations@[i]).needs(scope).contains(e);
    }
    if all_need(c.schemas@, scope).contains(e) {
        let i = choose|i: int|
            0 <= i < c.schemas@.len() && (#[trigger] c.schemas@[i]).needs(scope).contains(e);
    }
    if all_need(c.subscriptions@, scope).contains(e) {
        let i = choose|i: int|
            0 <= i < c.subscriptions@.len() && (#[trigger] c.subscriptions@[i]).needs(scope).contains(e);
    }
}

/// Every edge that starts at an index, a sequence, a statistics object, an
/// extension, a publication or a collation comes from the one reference that
/// such an object has.
pub proof fn law_edges_of_simple_objects_come_from_references(
    c: Catalog,
    cycle: Seq<NodeKey>,
    from: NodeKey,
    to: NodeKey,
)
    requires
        catalog_graph(c, cycle).edges.contains((from, to)),
        !body_dependency_edges(c).contains((from, to)),
    ensures
        from.rank == 2 ==> exists|i: int|
            0 <= i < c.indexes@.len() && from == NodeId::Index((#[trigger] c.indexes@[i]).qname)@
                && to == match c.indexes@[i].on {
                IndexParent::Table(q) => NodeId::Table(q)@,
                IndexParent::Mv(q) => NodeId::Mv(q)@,
            },
        from.rank == 3 ==> exists|i: int|
            0 <= i < c.sequences@.len() && from == NodeId::Sequence(
                (#[trigger] c.sequences@[i]).qname,
            )@ && (c.sequences@[i].owned_by matches Some(o) && to == NodeId::Table(o.table)@),
        from.rank == 14 ==> exists|i: int|
            0 <= i < c.statistics@.len() && from == NodeId::Statistic(
                (#[trigger] c.statistics@[i]).qname,
            )@ && to == NodeId::Table(c.statistics@[i].target)@,
        from.rank == 10 ==> exists|i: int|
            0 <= i < c.extensions@.len() && from == NodeId::Extension(
                (#[trigger] c.extensions@[i]).name,
            )@ && (c.extensions@[i].schema matches Some(s) && to == NodeId::Schema(s)@),
        from.rank == 15 ==> exists|i: int|
            0 <= i < c.collations@.len() && from == NodeId::Collation(
                (#[trigger] c.collations@[i]).qname,
            )@ && to == NodeId::Schema(c.collations@[i].qname.schema)@,
        from.rank == 12 ==> exists|i: int|
            0 <= i < c.publications@.len() && from == NodeId::Publication(
                (#[trigger] c.publications@[i]).name,
            )@ && c.publications@[i].scope is Selective,
{
    let scope = ScopeModel { catalog: c, cycle };
    let e = (from, to);
    lemma_edge_is_needed(c, cycle, e);
    if from.rank == 2 {
        let i = choose|i: int|
            0 <= i < c.indexes@.len() && (#[trigger] c.indexes@[i]).needs(scope).contains(e);
        assert(from == NodeId::Index(c.indexes@[i].qname)@);
    } else if from.rank == 3 {
        let i = choose|i: int|
            0 <= i < c.sequences@.len() && (#[trigger] c.sequences@[i]).needs(scope).contains(e);
        assert(from == NodeId::Sequence(c.sequences@[i].qname)@);
    } else if from.rank == 14 {
        let i = choose|i: int|
            0 <= i < c.statistics@.len() && (#[trigger] c.statistics@[i]).needs(scope).contains(e);
        assert(from == NodeId::Statistic(c.statistics@[i].qname)@);
    } else if from.rank == 10 {
        let i = choose|i: int|
            0 <= i < c.extensions@.len() && (#[trigger] c.extensions@[i]).needs(scope).contains(e);
        assert(from == NodeId::Extension(c.extensions@[i].name)@);
    } else if from.rank == 15 {
        let i = choose|i: int|
            0 <= i < c.collations@.len() && (#[trigger] c.collations@[i]).needs(scope).contains(e);
        assert(from == NodeId::Collation(c.collations@[i].qname)@);
    } else if from.rank == 12 {
        let i = choose|i: int|
            0 <= i < c.publications@.len() && (#[trigger] c.publications@[i]).needs(scope).contains(
                e,
            );
        assert(from == NodeId::Publication(c.publications@[i].name)@);
    }
}

/// Every edge that starts at a type comes from a reference of a type of the
/// catalog; one that starts at a trigger, an event trigger, an aggregate or a
/// cast comes from one of those. A trigger whose relation the catalog does not
/// have depends on nothing.
pub proof fn law_edges_of_types_and_callers_come_from_references(
    c: Catalog,
    cycle: Seq<NodeKey>,
    from: NodeKey,
    to: NodeKey,
)
    requires
        catalog_graph(c, cycle).edges.contains((from, to)),
        !body_dependency_edges(c).contains((from, to)),
    ensures
        from.rank == 7 ==> exists|i: int|
            0 <= i < c.types@.len() && from == NodeId::Type((#[trigger] c.types@[i]).qname)@
                && type_refers(c, i, to),
        from.rank == 11 ==> exists|i: int|
            0 <= i < c.triggers@.len() && from == NodeId::Trigger(
                (#[trigger] c.triggers@[i]).qname,
            )@ && has_relation(c, c.triggers@[i].table) && (to == NodeId::Table(
                c.triggers@[i].table,
            )@ || to == NodeId::View(c.triggers@[i].table)@ || to == NodeId::Mv(
                c.triggers@[i].table,
            )@ || is_function_named(c, c.triggers@[i].function_qname, to)),
        from.rank == 16 ==> exists|i: int|
            0 <= i < c.event_triggers@.len() && from == NodeId::EventTrigger(
                (#[trigger] c.event_triggers@[i]).name,
            )@ && is_function_named(c, c.event_triggers@[i].function, to),
        from.rank == 18 ==> exists|i: int|
            0 <= i < c.casts@.len() && from == NodeId::Cast(
                (#[trigger] c.casts@[i]).source,
                c.casts@[i].target,
            )@ && (c.casts@[i].method matches CastMethod::Function { name, arg_types } && to
                == (NodeKey { rank: 8, parts: name@.parts() + models(arg_types@) })),
{
    let scope = ScopeModel { catalog: c, cycle };
    let e = (from, to);
    lemma_edge_is_needed(c, cycle, e);
    if from.rank == 7 {
        let i = choose|i: int|
            0 <= i < c.types@.len() && (#[trigger] c.types@[i]).needs(scope).contains(e);
        lemma_type_refers(c, scope, i, e);
        assert(from == NodeId::Type(c.types@[i].qname)@);
    } else if from.rank == 11 {
        let i = choose|i: int|
            0 <= i < c.triggers@.len() && (#[trigger] c.triggers@[i]).needs(scope).contains(e);
        let t = c.triggers@[i];
        lemma_trigger_refers(c, t);
        if crate::plan::object_edges::names_function(c, t.function_qname, to) {
            lemma_function_named(c, t.function_qname, to);
        }
        assert(from == NodeId::Trigger(c.triggers@[i].qname)@);
    } else if from.rank == 16 {
        let i = choose|i: int|
            0 <= i < c.event_triggers@.len() && (#[trigger] c.event_triggers@[i]).needs(
                scope,
            ).contains(e);
        lemma_function_named(c, c.event_triggers@[i].function, to);
        assert(from == NodeId::EventTrigger(c.event_triggers@[i].name)@);
    } else if from.rank == 18 {
        let i = choose|i: int|
            0 <= i < c.casts@.len() && (#[trigger] c.casts@[i]).needs(scope).contains(e);
        assert(from == NodeId::Cast(c.casts@[i].source, c.casts@[i].target)@);
    }
}

/// The catalog has a table, a view or a materialized view of that name.
pub open spec fn has_relation(c: Catalog, q: QualifiedName) -> bool {
    ||| exists|k: int| 0 <= k < c.tables@.len() && (#[trigger] c.tables@[k]).qname@ == q@
    ||| exists|k: int| 0 <= k < c.views@.len() && (#[trigger] c.views@[k]).qname@ == q@
    ||| exists|k: int|
        0 <= k < c.materialized_views@.len() && (#[trigger] c.materialized_views@[k]).qname@ == q@
}

proof fn lemma_trigger_refers(c: Catalog, t: crate::ir::trigger::Trigger)
    ensures
        crate::plan::object_edges::trigger_target(c, t) is Some ==> has_relation(c, t.table),
{
    if c.has_table(t.table) {
        let k = choose|k: int| 0 <= k < c.tables@.len() && #[trigger] c.tables@[k].qname@ == t.table@;
        assert(c.tables@[k].qname@ == t.table@);
    } else if crate::plan::object_edges::has_view(c, t.table) {
        let k = choose|k: int| 0 <= k < c.views@.len() && #[trigger] c.views@[k].qname@ == t.table@;
        assert(c.views@[k].qname@ == t.table@);
    } else if crate::plan::object_edges::has_mv(c, t.table) {
        let k = choose|k: int|
            0 <= k < c.materialized_views@.len() && #[trigger] c.materialized_views@[k].qname@
                == t.table@;
        assert(c.materialized_views@[k].qname@ == t.table@);
    }
}

proof fn lemma_type_refers(c: Catalog, scope: ScopeModel, i: int, e: (NodeKey, NodeKey))
    requires
        scope.catalog == c,
        0 <= i < c.types@.len(),
        c.types@[i].needs(scope).contains(e),
    ensures
        e.0 == NodeId::Type(c.types@[i].qname)@,
        type_refers(c, i, e.1),
{
    let t = c.types@[i];
    let from = NodeId::Type(t.qname)@;
    match t.kind {
        UserTypeKind::Composite { attributes } => {
            if e != (from, NodeId::Schema(t.qname.schema)@) {
                let j = choose|j: int|
                    0 <= j < attributes@.len() && crate::plan::object_edges::attribute_edge(
                        from,
                        #[trigger] attributes@[j],
                        c,
                        e,
                    );
                if let Some(q) = attributes@[j].collation {
                    lemma_has_collation(c, q);
                }
                assert(attributes@[j] == attributes@[j]);
            }
        },
        UserTypeKind::Domain { base, collation, .. } => {
            if let Some(q) = collation {
                lemma_has_collation(c, q);
            }
        },
        UserTypeKind::Range { subtype, canonical, subtype_diff, collation, .. } => {
            if let Some(q) = collation {
                lemma_has_collation(c, q);
            }
            if let Some(q) = canonical {
                if crate::plan::object_edges::names_function(c, q, e.1) {
                    lemma_function_named(c, q, e.1);
                }
            }
            if let Some(q) = subtype_diff {
                if crate::plan::object_edges::names_function(c, q, e.1) {
                    lemma_function_named(c, q, e.1);
                }
            }
            if crate::plan::object_edges::manages_type(c, subtype) {
                let k = choose|k: int|
                    0 <= k < c.types@.len() && #[trigger] c.types@[k].qname@ == subtype@;
                assert(c.types@[k].qname@ == subtype@);
            }
        },
        _ => {},
    }
}

} // verus!
