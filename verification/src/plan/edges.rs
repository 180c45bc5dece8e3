//! Dependency edge extraction from a catalog.
//!
//! Edges follow the convention "A depends on B": for each edge `A -> B`, `B`
//! must be created before `A`. Create and drop order use the same edges; drop
//! order comes from reversing the topological sort, not from reversing edges.

use crate::identifier::{Identifier, QualifiedName};
use crate::ir::catalog::Catalog;
use crate::ir::column_type::ColumnType;
use crate::ir::function::NormalizedArgTypes;
use crate::model::{models, Duplicate};
use crate::order::{
    char_lt, compare_texts, lemma_texts_strict_total, lex_by, texts_lt, Placement,
};
use crate::plan::graph::{pair_models, pairs_ascending, Graph, GraphModel, GraphNode, Ranked};
use crate::plan::object_edges::{
    all_declare, all_need, graph_of, register_all, Draft, EdgeSet, Scope, ScopeModel,
};
use crate::text::ToSql;
use vstd::prelude::*;

verus! {

/// Identifies any object uniquely within a catalog.
///
/// Schemas, extensions, event triggers, publications and subscriptions are
/// not schema-qualified. A constraint is identified by its table and its
/// name, because constraint names are scoped to their table.
#[derive(Debug, Clone, PartialEq, Eq, PartialOrd, Ord, Hash)]
pub enum NodeId {
    /// A schema (namespace).
    Schema(Identifier),
    /// A table.
    Table(QualifiedName),
    /// An index.
    Index(QualifiedName),
    /// A sequence.
    Sequence(QualifiedName),
    /// A constraint identified by its owning table and constraint name.
    Constraint {
        /// Owning table.
        table: QualifiedName,
        /// Constraint name (the `name` half of the constraint's qname).
        name: Identifier,
    },
    /// A view.
    View(QualifiedName),
    /// A materialized view.
    Mv(QualifiedName),
    /// A user-defined type.
    Type(QualifiedName),
    /// A user-defined function, disambiguated by argument types.
    Function(QualifiedName, NormalizedArgTypes),
    /// A user-defined procedure, identified by its name only.
    Procedure(QualifiedName),
    /// An installed extension.
    Extension(Identifier),
    /// A trigger (its name is unique within its schema).
    Trigger(QualifiedName),
    /// A publication.
    Publication(Identifier),
    /// A subscription.
    Subscription(Identifier),
    /// A statistics object.
    Statistic(QualifiedName),
    /// A user-defined collation.
    Collation(QualifiedName),
    /// An event trigger.
    EventTrigger(Identifier),
    /// An aggregate, disambiguated by argument types.
    Aggregate(QualifiedName, NormalizedArgTypes),
    /// A cast, identified by its source and target types.
    Cast(QualifiedName, QualifiedName),
    /// A text search dictionary.
    TsDictionary(QualifiedName),
    /// A text search configuration.
    TsConfiguration(QualifiedName),
}

/// The model of a node: the rank of its kind, and the names that identify it.
#[verifier::ext_equal]
pub struct NodeKey {
    /// The rank of the kind.
    pub rank: nat,
    /// The identifying names.
    pub parts: Seq<Seq<char>>,
}

impl View for NodeId {
    type V = NodeKey;

    open spec fn view(&self) -> NodeKey {
        match *self {
            NodeId::Schema(s) => NodeKey { rank: 0, parts: seq![s@] },
            NodeId::Table(q) => NodeKey { rank: 1, parts: q@.parts() },
            NodeId::Index(q) => NodeKey { rank: 2, parts: q@.parts() },
            NodeId::Sequence(q) => NodeKey { rank: 3, parts: q@.parts() },
            NodeId::Constraint { table, name } => NodeKey {
                rank: 4,
                parts: table@.parts().push(name@),
            },
            NodeId::View(q) => NodeKey { rank: 5, parts: q@.parts() },
            NodeId::Mv(q) => NodeKey { rank: 6, parts: q@.parts() },
            NodeId::Type(q) => NodeKey { rank: 7, parts: q@.parts() },
            NodeId::Function(q, args) => NodeKey { rank: 8, parts: q@.parts() + args@ },
            NodeId::Procedure(q) => NodeKey { rank: 9, parts: q@.parts() },
            NodeId::Extension(s) => NodeKey { rank: 10, parts: seq![s@] },
            NodeId::Trigger(q) => NodeKey { rank: 11, parts: q@.parts() },
            NodeId::Publication(s) => NodeKey { rank: 12, parts: seq![s@] },
            NodeId::Subscription(s) => NodeKey { rank: 13, parts: seq![s@] },
            NodeId::Statistic(q) => NodeKey { rank: 14, parts: q@.parts() },
            NodeId::Collation(q) => NodeKey { rank: 15, parts: q@.parts() },
            NodeId::EventTrigger(s) => NodeKey { rank: 16, parts: seq![s@] },
            NodeId::Aggregate(q, args) => NodeKey { rank: 17, parts: q@.parts() + args@ },
            NodeId::Cast(a, b) => NodeKey { rank: 18, parts: a@.parts() + b@.parts() },
            NodeId::TsDictionary(q) => NodeKey { rank: 19, parts: q@.parts() },
            NodeId::TsConfiguration(q) => NodeKey { rank: 20, parts: q@.parts() },
        }
    }
}

impl Duplicate for NodeId {
    fn duplicate(&self) -> (copy: NodeId) {
        match self {
            NodeId::Schema(s) => NodeId::Schema(s.duplicate()),
            NodeId::Table(q) => NodeId::Table(q.duplicate()),
            NodeId::Index(q) => NodeId::Index(q.duplicate()),
            NodeId::Sequence(q) => NodeId::Sequence(q.duplicate()),
            NodeId::Constraint { table, name } => NodeId::Constraint {
                table: table.duplicate(),
                name: name.duplicate(),
            },
            NodeId::View(q) => NodeId::View(q.duplicate()),
            NodeId::Mv(q) => NodeId::Mv(q.duplicate()),
            NodeId::Type(q) => NodeId::Type(q.duplicate()),
            NodeId::Function(q, args) => NodeId::Function(q.duplicate(), args.duplicate()),
            NodeId::Procedure(q) => NodeId::Procedure(q.duplicate()),
            NodeId::Extension(s) => NodeId::Extension(s.duplicate()),
            NodeId::Trigger(q) => NodeId::Trigger(q.duplicate()),
            NodeId::Publication(s) => NodeId::Publication(s.duplicate()),
            NodeId::Subscription(s) => NodeId::Subscription(s.duplicate()),
            NodeId::Statistic(q) => NodeId::Statistic(q.duplicate()),
            NodeId::Collation(q) => NodeId::Collation(q.duplicate()),
            NodeId::EventTrigger(s) => NodeId::EventTrigger(s.duplicate()),
            NodeId::Aggregate(q, args) => NodeId::Aggregate(q.duplicate(), args.duplicate()),
            NodeId::Cast(a, b) => NodeId::Cast(a.duplicate(), b.duplicate()),
            NodeId::TsDictionary(q) => NodeId::TsDictionary(q.duplicate()),
            NodeId::TsConfiguration(q) => NodeId::TsConfiguration(q.duplicate()),
        }
    }
}

/// Where a dependency edge came from.
///
/// `Structure` edges are derived from the shape of the catalog itself.
/// `AstExtracted` edges are derived from the parsed body of an object.
/// `AstDeclared` edges come from explicit `-- @pgevolve dep:` directives.
#[derive(Debug, Clone, Copy, PartialEq, Eq, PartialOrd, Ord, Hash, Structural)]
pub enum DepSource {
    /// Derived from the shape of the catalog.
    Structure,
    /// Walked out of a parsed body.
    AstExtracted,
    /// Declared by a directive in source SQL.
    AstDeclared,
}

/// An edge in the dependency graph, with its provenance.
///
/// `from` depends on `to`, so `to` must be created before `from`.
#[derive(Debug, Clone, PartialEq, Eq, PartialOrd, Ord, Hash)]
pub struct DepEdge {
    /// Dependent node (the one that needs `to` to exist first).
    pub from: NodeId,
    /// Dependency target.
    pub to: NodeId,
    /// Provenance of this edge.
    pub source: DepSource,
}

/// The model of a dependency edge.
#[verifier::ext_equal]
pub struct DepEdgeModel {
    /// Dependent node.
    pub from: NodeKey,
    /// Dependency target.
    pub to: NodeKey,
    /// Provenance.
    pub source: DepSource,
}

impl View for DepEdge {
    type V = DepEdgeModel;

    open spec fn view(&self) -> DepEdgeModel {
        DepEdgeModel { from: self.from@, to: self.to@, source: self.source }
    }
}

impl Duplicate for DepEdge {
    fn duplicate(&self) -> (copy: DepEdge) {
        DepEdge { from: self.from.duplicate(), to: self.to.duplicate(), source: self.source }
    }
}


/// Node models compare by rank, then name by name.
pub open spec fn node_lt(a: NodeKey, b: NodeKey) -> bool {
    a.rank < b.rank || (a.rank == b.rank && texts_lt(a.parts, b.parts))
}

impl NodeId {
    /// The rank of the kind.
    fn rank(&self) -> (r: u8)
        ensures
            r == self@.rank,
    {
        match self {
            NodeId::Schema(_) => 0,
            NodeId::Table(_) => 1,
            NodeId::Index(_) => 2,
            NodeId::Sequence(_) => 3,
            NodeId::Constraint { .. } => 4,
            NodeId::View(_) => 5,
            NodeId::Mv(_) => 6,
            NodeId::Type(_) => 7,
            NodeId::Function(_, _) => 8,
            NodeId::Procedure(_) => 9,
            NodeId::Extension(_) => 10,
            NodeId::Trigger(_) => 11,
            NodeId::Publication(_) => 12,
            NodeId::Subscription(_) => 13,
            NodeId::Statistic(_) => 14,
            NodeId::Collation(_) => 15,
            NodeId::EventTrigger(_) => 16,
            NodeId::Aggregate(_, _) => 17,
            NodeId::Cast(_, _) => 18,
            NodeId::TsDictionary(_) => 19,
            NodeId::TsConfiguration(_) => 20,
        }
    }

    /// The argument types as written, for the kinds that have them.
    spec fn type_parts(&self) -> Seq<Seq<char>> {
        match *self {
            NodeId::Function(_, args) => args@,
            NodeId::Aggregate(_, args) => args@,
            _ => Seq::empty(),
        }
    }

    /// The argument types as written, for the kinds that have them.
    fn rendered_types(&self) -> (types: Vec<String>)
        ensures
            models(types@) == self.type_parts(),
    {
        match self {
            NodeId::Function(_, args) => render_all(&args.types),
            NodeId::Aggregate(_, args) => render_all(&args.types),
            _ => {
                let none: Vec<String> = Vec::new();
                assert(models(none@) =~= Seq::empty());
                none
            },
        }
    }

    /// The identifying names, without argument types.
    fn names<'a>(&'a self) -> (names: Vec<&'a str>)
        ensures
            models(names@) + self.type_parts() == self@.parts,
    {
        let mut out: Vec<&'a str> = Vec::new();
        match self {
            NodeId::Schema(s)
            | NodeId::Extension(s)
            | NodeId::Publication(s)
            | NodeId::Subscription(s)
            | NodeId::EventTrigger(s) => {
                out.push(s.as_str());
            },
            NodeId::Table(q)
            | NodeId::Index(q)
            | NodeId::Sequence(q)
            | NodeId::View(q)
            | NodeId::Mv(q)
            | NodeId::Type(q)
            | NodeId::Function(q, _)
            | NodeId::Procedure(q)
            | NodeId::Trigger(q)
            | NodeId::Statistic(q)
            | NodeId::Collation(q)
            | NodeId::Aggregate(q, _)
            | NodeId::TsDictionary(q)
            | NodeId::TsConfiguration(q) => {
                out.push(q.schema.as_str());
                out.push(q.name.as_str());
            },
            NodeId::Constraint { table, name } => {
                out.push(table.schema.as_str());
                out.push(table.name.as_str());
                out.push(name.as_str());
            },
            NodeId::Cast(a, b) => {
                out.push(a.schema.as_str());
                out.push(a.name.as_str());
                out.push(b.schema.as_str());
                out.push(b.name.as_str());
            },
        }
        assert(models(out@) + self.type_parts() =~= self@.parts);
        out
    }

    /// Whether two nodes are the same.
    pub fn same(&self, other: &NodeId) -> (r: bool)
        ensures
            r == (self@ == other@),
    {
        match self.compare(other) {
            Placement::Same => true,
            _ => false,
        }
    }
}

/// Renders each type of a list.
fn render_all(types: &Vec<ColumnType>) -> (texts: Vec<String>)
    ensures
        models(texts@) == models(types@),
{
    let mut out: Vec<String> = Vec::new();
    let mut i: usize = 0;
    while i < types.len()
        invariant
            i <= types@.len(),
            models(out@) =~= models(types@).take(i as int),
        decreases types@.len() - i,
    {
        let ghost before = models(out@);
        let text = types[i].render_sql();
        out.push(text);
        assert(models(out@) =~= before.push(text@));
        i = i + 1;
    }
    assert(models(out@) =~= models(types@));
    out
}

impl Ranked for NodeId {
    open spec fn before(a: NodeKey, b: NodeKey) -> bool {
        node_lt(a, b)
    }

    proof fn before_is_strict_total() {
        lemma_texts_strict_total();
        let l = lex_by(lex_by(char_lt()));
        assert forall|a: NodeKey| !#[trigger] Self::before(a, a) by {
            assert(!l(a.parts, a.parts));
        }
        assert forall|a: NodeKey, b: NodeKey, c: NodeKey| #[trigger]
            Self::before(a, b) && #[trigger] Self::before(b, c) implies Self::before(a, c) by {
            if a.rank == b.rank && b.rank == c.rank {
                assert(l(a.parts, b.parts) && l(b.parts, c.parts));
            }
        }
        assert forall|a: NodeKey, b: NodeKey| a != b implies #[trigger] Self::before(a, b)
            || Self::before(b, a) by {
            if a.rank == b.rank {
                assert(a.parts != b.parts);
                assert(l(a.parts, b.parts) || l(b.parts, a.parts));
            }
        }
    }
}

impl GraphNode for NodeId {
    fn compare(&self, other: &NodeId) -> (placement: Placement) {
        proof {
            Self::before_is_strict_total();
        }
        let ra: u8 = self.rank();
        let rb: u8 = other.rank();
        if ra < rb {
            return Placement::Before;
        }
        if rb < ra {
            return Placement::After;
        }
        let types_a = self.rendered_types();
        let types_b = other.rendered_types();
        let a = with_types(self.names(), &types_a);
        let b = with_types(other.names(), &types_b);
        compare_texts(&a, &b)
    }
}

/// Appends rendered types to a list of names.
fn with_types<'a>(names: Vec<&'a str>, types: &'a Vec<String>) -> (parts: Vec<&'a str>)
    ensures
        models(parts@) == models(names@) + models(types@),
{
    let ghost start = models(names@);
    let mut out = names;
    let mut i: usize = 0;
    while i < types.len()
        invariant
            i <= types@.len(),
            models(out@) =~= start + models(types@).take(i as int),
        decreases types@.len() - i,
    {
        let ghost before = models(out@);
        let text: &'a str = types[i].as_str();
        out.push(text);
        assert(models(out@) =~= before.push(text@));
        i = i + 1;
    }
    assert(models(types@).take(i as int) =~= models(types@));
    out
}


/// Every node that an object of the catalog declares.
pub open spec fn declared_nodes(scope: ScopeModel) -> Set<NodeKey> {
    let c = scope.catalog;
    all_declare(c.schemas@, scope).union(all_declare(c.tables@, scope)).union(
        all_declare(c.indexes@, scope),
    ).union(all_declare(c.sequences@, scope)).union(all_declare(c.views@, scope)).union(
        all_declare(c.materialized_views@, scope),
    ).union(all_declare(c.types@, scope)).union(all_declare(c.functions@, scope)).union(
        all_declare(c.procedures@, scope),
    ).union(all_declare(c.triggers@, scope)).union(all_declare(c.event_triggers@, scope)).union(
        all_declare(c.aggregates@, scope),
    ).union(all_declare(c.casts@, scope)).union(all_declare(c.extensions@, scope)).union(
        all_declare(c.publications@, scope),
    ).union(all_declare(c.subscriptions@, scope)).union(all_declare(c.statistics@, scope)).union(
        all_declare(c.collations@, scope),
    )
}

/// Every edge that an object of the catalog adds.
pub open spec fn dependency_edges(scope: ScopeModel) -> EdgeSet {
    let c = scope.catalog;
    all_need(c.schemas@, scope).union(all_need(c.tables@, scope)).union(
        all_need(c.indexes@, scope),
    ).union(all_need(c.sequences@, scope)).union(all_need(c.views@, scope)).union(
        all_need(c.materialized_views@, scope),
    ).union(all_need(c.types@, scope)).union(all_need(c.functions@, scope)).union(
        all_need(c.procedures@, scope),
    ).union(all_need(c.triggers@, scope)).union(all_need(c.event_triggers@, scope)).union(
        all_need(c.aggregates@, scope),
    ).union(all_need(c.casts@, scope)).union(all_need(c.extensions@, scope)).union(
        all_need(c.publications@, scope),
    ).union(all_need(c.subscriptions@, scope)).union(all_need(c.statistics@, scope)).union(
        all_need(c.collations@, scope),
    )
}

/// The dependency graph of a catalog, without the foreign keys that lie
/// within a cycle.
pub open spec fn catalog_graph(c: Catalog, cycle: Seq<NodeKey>) -> GraphModel<NodeKey> {
    let scope = ScopeModel { catalog: c, cycle };
    graph_of(declared_nodes(scope), dependency_edges(scope))
}

/// Builds the dependency graph of a catalog, leaving out the foreign keys
/// between distinct tables of `cycle`.
pub fn build_reduced_graph(catalog: &Catalog, cycle: &Vec<NodeId>) -> (g: Graph<NodeId>)
    ensures
        g.wf(),
        g@ == catalog_graph(*catalog, models(cycle@)),
{
    let scope = Scope { catalog, cycle };
    let mut draft = Draft::new();
    register_all(&catalog.schemas, &scope, &mut draft);
    register_all(&catalog.tables, &scope, &mut draft);
    register_all(&catalog.indexes, &scope, &mut draft);
    register_all(&catalog.sequences, &scope, &mut draft);
    register_all(&catalog.views, &scope, &mut draft);
    register_all(&catalog.materialized_views, &scope, &mut draft);
    register_all(&catalog.types, &scope, &mut draft);
    register_all(&catalog.functions, &scope, &mut draft);
    register_all(&catalog.procedures, &scope, &mut draft);
    register_all(&catalog.triggers, &scope, &mut draft);
    register_all(&catalog.event_triggers, &scope, &mut draft);
    register_all(&catalog.aggregates, &scope, &mut draft);
    register_all(&catalog.casts, &scope, &mut draft);
    register_all(&catalog.extensions, &scope, &mut draft);
    register_all(&catalog.publications, &scope, &mut draft);
    register_all(&catalog.subscriptions, &scope, &mut draft);
    register_all(&catalog.statistics, &scope, &mut draft);
    register_all(&catalog.collations, &scope, &mut draft);
    proof {
        assert(draft.declared() =~= declared_nodes(scope@));
        assert(draft.edges() =~= dependency_edges(scope@));
    }
    draft.finish()
}

/// Build the dependency graph for `catalog`, used for create and modify
/// ordering.
///
/// Topologically sorting this graph yields **dependencies first**: schemas
/// before tables, tables before indexes, referenced tables before foreign
/// keys, and so on.
pub fn build_create_graph(catalog: &Catalog) -> (g: Graph<NodeId>)
    ensures
        g.wf(),
        g@ == catalog_graph(*catalog, Seq::empty()),
{
    let none: Vec<NodeId> = Vec::new();
    assert(models(none@) =~= Seq::empty());
    build_reduced_graph(catalog, &none)
}

/// Build the dependency graph for drop ordering. Same edges as the create
/// graph; the ordering is reversed at sort time.
pub fn build_drop_graph(catalog: &Catalog) -> (g: Graph<NodeId>)
    ensures
        g.wf(),
        g@ == catalog_graph(*catalog, Seq::empty()),
{
    build_create_graph(catalog)
}

impl Graph<NodeId> {
    /// Edges as [`DepEdge`] records, in ascending order.
    ///
    /// Every edge is tagged [`DepSource::Structure`].
    pub fn dep_edges(&self) -> (edges: Vec<DepEdge>)
        requires
            self.wf(),
        ensures
            forall|i: int| 0 <= i < edges@.len() ==> (#[trigger] edges@[i]).source == DepSource::Structure,
            pairs_ascending::<NodeId>(dep_pairs(edges@)),
            dep_pairs(edges@).to_set() =~= self@.edges,
    {
        let pairs = self.edges();
        let mut out: Vec<DepEdge> = Vec::new();
        let mut i: usize = 0;
        while i < pairs.len()
            invariant
                i <= pairs@.len(),
                dep_pairs(out@) =~= pair_models(pairs@).take(i as int),
                forall|k: int| 0 <= k < out@.len() ==> (#[trigger] out@[k]).source == DepSource::Structure,
            decreases pairs@.len() - i,
        {
            let ghost before = dep_pairs(out@);
            let pair = pairs[i];
            let edge = DepEdge {
                from: pair.0.duplicate(),
                to: pair.1.duplicate(),
                source: DepSource::Structure,
            };
            out.push(edge);
            assert(dep_pairs(out@) =~= before.push((edge.from@, edge.to@)));
            i = i + 1;
        }
        assert(dep_pairs(out@) =~= pair_models(pairs@));
        out
    }
}

/// The endpoints of a list of edges.
pub open spec fn dep_pairs(edges: Seq<DepEdge>) -> Seq<(NodeKey, NodeKey)> {
    edges.map_values(|e: DepEdge| (e.from@, e.to@))
}

} // verus!
