//! What each kind of catalog object declares and depends on.

use crate::identifier::QualifiedName;
use crate::ir::catalog::Catalog;
use crate::ir::collation::{builtin_collation, is_builtin_collation, Collation};
use crate::ir::column_type::ColumnType;
use crate::ir::constraint::{Constraint, ConstraintKind};
use crate::ir::expr::DefaultExpr;
use crate::ir::extension::Extension;
use crate::ir::function::{Function, FunctionArg, NormalizedArgTypes, Procedure, ReturnType, TableColumn};
use crate::ir::index::{Index, IndexParent};
use crate::ir::replication::{Publication, PublicationScope, Subscription};
use crate::ir::routine_objects::{Aggregate, Cast, CastMethod};
use crate::ir::schema::Schema;
use crate::ir::sequence::Sequence;
use crate::ir::statistic::Statistic;
use crate::ir::table::{Column, Table};
use crate::ir::trigger::{EventTrigger, Trigger};
use crate::ir::user_type::{CompositeAttribute, UserType, UserTypeKind};
use crate::ir::view::{MaterializedView, ViewDefinition};
use crate::model::{models, Duplicate};
use crate::plan::edges::{DepEdge, NodeId, NodeKey};
use crate::plan::graph::{Graph, GraphModel};
use crate::text::text_eq;
use vstd::prelude::*;

verus! {

/// Edges as pairs of node models.
pub type EdgeSet = Set<(NodeKey, NodeKey)>;

/// The graph of declared nodes and edges: endpoints count as nodes even where
/// nothing declares them.
pub open spec fn graph_of(declared: Set<NodeKey>, edges: EdgeSet) -> GraphModel<NodeKey> {
    GraphModel {
        nodes: Set::new(
            |n: NodeKey|
                declared.contains(n) || (exists|m: NodeKey| #[trigger] edges.contains((n, m))) || (
                exists|m: NodeKey| #[trigger] edges.contains((m, n))),
        ),
        edges,
    }
}

/// A dependency graph under construction.
pub struct Draft {
    graph: Graph<NodeId>,
    declared: Ghost<Set<NodeKey>>,
}

impl Draft {
    /// The nodes declared so far.
    pub closed spec fn declared(&self) -> Set<NodeKey> {
        self.declared@
    }

    /// The edges added so far.
    pub closed spec fn edges(&self) -> EdgeSet {
        self.graph@.edges
    }

    /// The graph is the one of the declared nodes and the edges.
    pub closed spec fn wf(&self) -> bool {
        &&& self.graph.wf()
        &&& self.graph@ == graph_of(self.declared@, self.graph@.edges)
    }

    /// Nothing declared, no edges.
    pub fn new() -> (draft: Draft)
        ensures
            draft.wf(),
            draft.declared() == Set::<NodeKey>::empty(),
            draft.edges() == Set::<(NodeKey, NodeKey)>::empty(),
    {
        let graph: Graph<NodeId> = Graph::new();
        let draft = Draft { graph, declared: Ghost(Set::empty()) };
        assert(draft.graph@ =~= graph_of(draft.declared@, draft.graph@.edges));
        draft
    }

    /// Declares a node.
    pub fn declare(&mut self, n: NodeId)
        requires
            old(self).wf(),
        ensures
            final(self).wf(),
            final(self).declared() == old(self).declared().insert(n@),
            final(self).edges() == old(self).edges(),
    {
        let ghost key = n@;
        self.graph.add_node(n);
        self.declared = Ghost(self.declared@.insert(key));
        assert(self.graph@ =~= graph_of(self.declared@, self.graph@.edges));
    }

    /// Adds the edge `from -> to`.
    pub fn depend(&mut self, from: NodeId, to: NodeId)
        requires
            old(self).wf(),
        ensures
            final(self).wf(),
            final(self).declared() == old(self).declared(),
            final(self).edges() == old(self).edges().insert((from@, to@)),
    {
        let ghost a = from@;
        let ghost b = to@;
        let ghost before = self.graph@;
        self.graph.add_edge(from, to);
        proof {
            let after = self.graph@;
            let target = graph_of(self.declared@, after.edges);
            assert forall|n: NodeKey| #[trigger] after.nodes.contains(n) <==> target.nodes.contains(n) by {
                if before.nodes.contains(n) {
                    if exists|m: NodeKey| #[trigger] before.edges.contains((n, m)) {
                        let m = choose|m: NodeKey| #[trigger] before.edges.contains((n, m));
                        assert(after.edges.contains((n, m)));
                    }
                    if exists|m: NodeKey| #[trigger] before.edges.contains((m, n)) {
                        let m = choose|m: NodeKey| #[trigger] before.edges.contains((m, n));
                        assert(after.edges.contains((m, n)));
                    }
                }
                if n == a {
                    assert(after.edges.contains((n, b)));
                }
                if n == b {
                    assert(after.edges.contains((a, n)));
                }
                if target.nodes.contains(n) && n != a && n != b {
                    if exists|m: NodeKey| #[trigger] after.edges.contains((n, m)) {
                        let m = choose|m: NodeKey| #[trigger] after.edges.contains((n, m));
                        assert(before.edges.contains((n, m)));
                    }
                    if exists|m: NodeKey| #[trigger] after.edges.contains((m, n)) {
                        let m = choose|m: NodeKey| #[trigger] after.edges.contains((m, n));
                        assert(before.edges.contains((m, n)));
                    }
                }
            }
            assert(after =~= target);
        }
    }

    /// The finished graph.
    pub fn finish(self) -> (g: Graph<NodeId>)
        requires
            self.wf(),
        ensures
            g.wf(),
            g@ == graph_of(self.declared(), self.edges()),
    {
        self.graph
    }
}

/// What a graph is built from: a catalog, and the nodes of a cycle whose
/// foreign keys are left out.
pub struct Scope<'a> {
    /// The objects.
    pub catalog: &'a Catalog,
    /// The cycle; empty to leave nothing out.
    pub cycle: &'a Vec<NodeId>,
}

/// The model of a scope.
pub struct ScopeModel {
    /// The objects.
    pub catalog: Catalog,
    /// The nodes of the cycle.
    pub cycle: Seq<NodeKey>,
}

impl<'a> View for Scope<'a> {
    type V = ScopeModel;

    open spec fn view(&self) -> ScopeModel {
        ScopeModel { catalog: *self.catalog, cycle: models(self.cycle@) }
    }
}

/// A foreign key between two distinct tables of a cycle.
pub open spec fn defers(cycle: Seq<NodeKey>, table: QualifiedName, c: Constraint) -> bool {
    match c.kind {
        ConstraintKind::ForeignKey(fk) => {
            &&& fk.referenced_table@ != table@
            &&& cycle.contains(NodeId::Table(table)@)
            &&& cycle.contains(NodeId::Table(fk.referenced_table)@)
        },
        _ => false,
    }
}

/// Whether a node is in a list.
pub fn list_contains(list: &Vec<NodeId>, n: &NodeId) -> (r: bool)
    ensures
        r == models(list@).contains(n@),
{
    let mut i: usize = 0;
    while i < list.len()
        invariant
            i <= list@.len(),
            forall|k: int| 0 <= k < i ==> (#[trigger] list@[k])@ != n@,
        decreases list@.len() - i,
    {
        if list[i].same(n) {
            assert(models(list@)[i as int] == n@);
            return true;
        }
        i = i + 1;
    }
    assert forall|k: int| 0 <= k < models(list@).len() implies models(list@)[k] != n@ by {
        assert(models(list@)[k] == list@[k]@);
    }
    false
}

/// Decides [`defers`].
pub fn is_deferred(cycle: &Vec<NodeId>, table: &QualifiedName, c: &Constraint) -> (r: bool)
    ensures
        r == defers(models(cycle@), *table, *c),
{
    match &c.kind {
        ConstraintKind::ForeignKey(fk) => {
            if fk.referenced_table.same(table) {
                return false;
            }
            let own = NodeId::Table(table.duplicate());
            let other = NodeId::Table(fk.referenced_table.duplicate());
            list_contains(cycle, &own) && list_contains(cycle, &other)
        },
        _ => false,
    }
}

/// The catalog manages a collation of that name: it is not one that every
/// database has, and the catalog lists it.
pub open spec fn manages_collation(c: Catalog, q: QualifiedName) -> bool {
    &&& q.schema@ != "pg_catalog"@
    &&& !is_builtin_collation(q.name@)
    &&& exists|i: int| 0 <= i < c.collations@.len() && #[trigger] c.collations@[i].qname@ == q@
}

/// Returns `true` iff `qname` refers to a managed collation in `catalog`,
/// that is one to add a dependency edge for. Built-in collations are skipped.
pub fn should_add_collation_edge(qname: &QualifiedName, catalog: &Catalog) -> (r: bool)
    ensures
        r == manages_collation(*catalog, *qname),
{
    if text_eq(qname.schema.as_str(), "pg_catalog") {
        return false;
    }
    if builtin_collation(qname.name.as_str()) {
        return false;
    }
    let mut i: usize = 0;
    while i < catalog.collations.len()
        invariant
            i <= catalog.collations@.len(),
            qname.schema@ != "pg_catalog"@,
            !is_builtin_collation(qname.name@),
            forall|k: int| 0 <= k < i ==> #[trigger] catalog.collations@[k].qname@ != qname@,
        decreases catalog.collations@.len() - i,
    {
        if catalog.collations[i].qname.same(qname) {
            assert(catalog.collations@[i as int].qname@ == qname@);
            return true;
        }
        i = i + 1;
    }
    false
}

/// `i` is where the first function of that name stands.
pub open spec fn first_function(c: Catalog, q: QualifiedName, i: int) -> bool {
    &&& 0 <= i < c.functions@.len()
    &&& c.functions@[i].qname@ == q@
    &&& forall|k: int| 0 <= k < i ==> #[trigger] c.functions@[k].qname@ != q@
}

/// The node of a function.
pub open spec fn function_node(f: Function) -> NodeKey {
    NodeId::Function(f.qname, f.arg_types_normalized)@
}

/// Finds the first function of that name.
pub fn find_function<'a>(catalog: &'a Catalog, q: &QualifiedName) -> (found: Option<&'a Function>)
    ensures
        match found {
            Some(f) => exists|i: int| #[trigger] first_function(*catalog, *q, i) && catalog.functions@[i] == *f,
            None => forall|i: int| !#[trigger] first_function(*catalog, *q, i),
        },
{
    let mut i: usize = 0;
    while i < catalog.functions.len()
        invariant
            i <= catalog.functions@.len(),
            forall|k: int| 0 <= k < i ==> #[trigger] catalog.functions@[k].qname@ != q@,
        decreases catalog.functions@.len() - i,
    {
        if catalog.functions[i].qname.same(q) {
            assert(first_function(*catalog, *q, i as int));
            return Some(&catalog.functions[i]);
        }
        i = i + 1;
    }
    None
}

/// `n` is the node of the first function of that name.
pub open spec fn names_function(c: Catalog, q: QualifiedName, n: NodeKey) -> bool {
    exists|i: int| #[trigger] first_function(c, q, i) && n == function_node(c.functions@[i])
}

/// Two places of a first function are one.
proof fn lemma_first_function_unique(c: Catalog, q: QualifiedName, i: int, j: int)
    requires
        first_function(c, q, i),
        first_function(c, q, j),
    ensures
        i == j,
{
    if i < j {
        assert(c.functions@[i].qname@ != q@);
    } else if j < i {
        assert(c.functions@[j].qname@ != q@);
    }
}

/// Adds an edge from `from` to the first function of that name, if any.
fn depend_on_function(draft: &mut Draft, catalog: &Catalog, from: &NodeId, q: &QualifiedName)
    requires
        old(draft).wf(),
    ensures
        final(draft).wf(),
        final(draft).declared() == old(draft).declared(),
        final(draft).edges() =~= old(draft).edges().union(
            Set::new(|e: (NodeKey, NodeKey)| e.0 == from@ && names_function(*catalog, *q, e.1)),
        ),
{
    match find_function(catalog, q) {
        Some(f) => {
            let to = NodeId::Function(f.qname.duplicate(), f.arg_types_normalized.duplicate());
            proof {
                let i = choose|i: int| #[trigger] first_function(*catalog, *q, i) && catalog.functions@[i] == *f;
                assert(to@ == function_node(catalog.functions@[i]));
                assert forall|n: NodeKey| #[trigger] names_function(*catalog, *q, n) <==> n == to@ by {
                    if names_function(*catalog, *q, n) {
                        let j = choose|j: int| #[trigger] first_function(*catalog, *q, j) && n == function_node(catalog.functions@[j]);
                        lemma_first_function_unique(*catalog, *q, i, j);
                    }
                }
            }
            draft.depend(from.duplicate(), to);
        },
        None => {},
    }
}

/// An object of the catalog: the nodes it declares, and the edges it adds.
pub trait Dependent {
    /// The nodes it declares.
    spec fn declares(&self, scope: ScopeModel) -> Set<NodeKey>;

    /// The edges it adds.
    spec fn needs(&self, scope: ScopeModel) -> EdgeSet;
}

/// An object that registers itself in a graph.
pub trait CatalogObject: Dependent + Sized {
    /// Declares its nodes and adds its edges.
    fn register(&self, scope: &Scope, draft: &mut Draft)
        requires
            old(draft).wf(),
        ensures
            final(draft).wf(),
            final(draft).declared() == old(draft).declared().union(self.declares(scope@)),
            final(draft).edges() == old(draft).edges().union(self.needs(scope@)),
    ;
}

/// The nodes that a list of objects declares.
pub open spec fn all_declare<T: Dependent>(list: Seq<T>, scope: ScopeModel) -> Set<NodeKey> {
    Set::new(
        |n: NodeKey|
            exists|i: int| 0 <= i < list.len() && (#[trigger] list[i]).declares(scope).contains(n),
    )
}

/// The edges that a list of objects adds.
pub open spec fn all_need<T: Dependent>(list: Seq<T>, scope: ScopeModel) -> EdgeSet {
    Set::new(
        |e: (NodeKey, NodeKey)|
            exists|i: int| 0 <= i < list.len() && (#[trigger] list[i]).needs(scope).contains(e),
    )
}

proof fn lemma_all_push<T: Dependent>(list: Seq<T>, i: int, scope: ScopeModel)
    requires
        0 <= i < list.len(),
    ensures
        all_declare(list.take(i + 1), scope) =~= all_declare(list.take(i), scope).union(
            list[i].declares(scope),
        ),
        all_need(list.take(i + 1), scope) =~= all_need(list.take(i), scope).union(
            list[i].needs(scope),
        ),
{
    let a = list.take(i);
    let b = list.take(i + 1);
    assert forall|n: NodeKey| #[trigger] all_declare(b, scope).contains(n) <==> all_declare(a, scope).contains(n)
        || list[i].declares(scope).contains(n) by {
        if all_declare(b, scope).contains(n) {
            let k = choose|k: int| 0 <= k < b.len() && (#[trigger] b[k]).declares(scope).contains(n);
            if k < i {
                assert(a[k] == b[k]);
            }
        }
        if all_declare(a, scope).contains(n) {
            let k = choose|k: int| 0 <= k < a.len() && (#[trigger] a[k]).declares(scope).contains(n);
            assert(b[k] == a[k]);
        }
        if list[i].declares(scope).contains(n) {
            assert(b[i] == list[i]);
        }
    }
    assert forall|e: (NodeKey, NodeKey)| #[trigger] all_need(b, scope).contains(e) <==> all_need(a, scope).contains(e)
        || list[i].needs(scope).contains(e) by {
        if all_need(b, scope).contains(e) {
            let k = choose|k: int| 0 <= k < b.len() && (#[trigger] b[k]).needs(scope).contains(e);
            if k < i {
                assert(a[k] == b[k]);
            }
        }
        if all_need(a, scope).contains(e) {
            let k = choose|k: int| 0 <= k < a.len() && (#[trigger] a[k]).needs(scope).contains(e);
            assert(b[k] == a[k]);
        }
        if list[i].needs(scope).contains(e) {
            assert(b[i] == list[i]);
        }
    }
}

/// Registers every object of a list.
pub fn register_all<T: CatalogObject>(list: &Vec<T>, scope: &Scope, draft: &mut Draft)
    requires
        old(draft).wf(),
    ensures
        final(draft).wf(),
        final(draft).declared() =~= old(draft).declared().union(all_declare(list@, scope@)),
        final(draft).edges() =~= old(draft).edges().union(all_need(list@, scope@)),
{
    let ghost declared = draft.declared();
    let ghost edges = draft.edges();
    let mut i: usize = 0;
    assert(all_declare(list@.take(0), scope@) =~= Set::empty());
    assert(all_need(list@.take(0), scope@) =~= Set::empty());
    assert(draft.declared() =~= declared.union(all_declare(list@.take(0), scope@)));
    assert(draft.edges() =~= edges.union(all_need(list@.take(0), scope@)));
    while i < list.len()
        invariant
            i <= list@.len(),
            draft.wf(),
            draft.declared() =~= declared.union(all_declare(list@.take(i as int), scope@)),
            draft.edges() =~= edges.union(all_need(list@.take(i as int), scope@)),
        decreases list@.len() - i,
    {
        proof {
            lemma_all_push(list@, i as int, scope@);
        }
        list[i].register(scope, draft);
        i = i + 1;
    }
    assert(list@.take(i as int) =~= list@);
}

impl Dependent for Schema {
    open spec fn declares(&self, scope: ScopeModel) -> Set<NodeKey> {
        set![NodeId::Schema(self.name)@]
    }

    open spec fn needs(&self, scope: ScopeModel) -> EdgeSet {
        Set::empty()
    }
}

impl CatalogObject for Schema {
    fn register(&self, scope: &Scope, draft: &mut Draft) {
        let ghost d0 = draft.declared();
        let ghost e0 = draft.edges();
        draft.declare(NodeId::Schema(self.name.duplicate()));
        assert(draft.declared() =~= d0.union(self.declares(scope@)));
        assert(draft.edges() =~= e0.union(self.needs(scope@)));
    }
}

/// The edge from `from` that the type of a column, attribute or argument adds.
pub open spec fn type_edge(from: NodeKey, ty: ColumnType, e: (NodeKey, NodeKey)) -> bool {
    e.0 == from && (ty matches ColumnType::UserDefined(q) && e.1 == NodeId::Type(q)@)
}

/// The edge from `from` that a collation adds.
pub open spec fn collation_edge(
    from: NodeKey,
    collation: Option<QualifiedName>,
    c: Catalog,
    e: (NodeKey, NodeKey),
) -> bool {
    e.0 == from && (collation matches Some(q) && manages_collation(c, q) && e.1 == NodeId::Collation(q)@)
}

fn depend_on_type(draft: &mut Draft, from: &NodeId, ty: &ColumnType)
    requires
        old(draft).wf(),
    ensures
        final(draft).wf(),
        final(draft).declared() == old(draft).declared(),
        final(draft).edges() =~= old(draft).edges().union(
            Set::new(|e: (NodeKey, NodeKey)| type_edge(from@, *ty, e)),
        ),
{
    match ty {
        ColumnType::UserDefined(q) => {
            draft.depend(from.duplicate(), NodeId::Type(q.duplicate()));
        },
        _ => {},
    }
}

fn depend_on_collation(
    draft: &mut Draft,
    from: &NodeId,
    collation: &Option<QualifiedName>,
    catalog: &Catalog,
)
    requires
        old(draft).wf(),
    ensures
        final(draft).wf(),
        final(draft).declared() == old(draft).declared(),
        final(draft).edges() =~= old(draft).edges().union(
            Set::new(|e: (NodeKey, NodeKey)| collation_edge(from@, *collation, *catalog, e)),
        ),
{
    match collation {
        Some(q) => {
            if should_add_collation_edge(q, catalog) {
                draft.depend(from.duplicate(), NodeId::Collation(q.duplicate()));
            }
        },
        None => {},
    }
}

/// The edges that a column adds to its table.
pub open spec fn column_edge(
    table: NodeKey,
    col: Column,
    c: Catalog,
    e: (NodeKey, NodeKey),
) -> bool {
    ||| type_edge(table, col.ty, e)
    ||| collation_edge(table, col.collation, c, e)
    ||| e.0 == table && (col.default matches Some(DefaultExpr::Sequence(q)) && e.1
        == NodeId::Sequence(q)@)
}

/// The edges that a constraint adds.
pub open spec fn constraint_edge(
    table: QualifiedName,
    c: Constraint,
    e: (NodeKey, NodeKey),
) -> bool {
    let node = NodeId::Constraint { table, name: c.qname.name }@;
    ||| e == (node, NodeId::Table(table)@)
    ||| c.kind matches ConstraintKind::ForeignKey(fk) && {
        ||| e == (node, NodeId::Table(fk.referenced_table)@)
        ||| fk.referenced_table@ != table@ && e == (
            NodeId::Table(table)@,
            NodeId::Table(fk.referenced_table)@,
        )
    }
}

impl Dependent for Table {
    open spec fn declares(&self, scope: ScopeModel) -> Set<NodeKey> {
        Set::new(
            |n: NodeKey|
                n == NodeId::Table(self.qname)@ || exists|j: int|
                    0 <= j < self.constraints@.len() && !defers(
                        scope.cycle,
                        self.qname,
                        #[trigger] self.constraints@[j],
                    ) && n == (NodeId::Constraint {
                        table: self.qname,
                        name: self.constraints@[j].qname.name,
                    })@,
        )
    }

    open spec fn needs(&self, scope: ScopeModel) -> EdgeSet {
        let table = NodeId::Table(self.qname)@;
        Set::new(
            |e: (NodeKey, NodeKey)|
                {
                    ||| e == (table, NodeId::Schema(self.qname.schema)@)
                    ||| exists|j: int|
                        0 <= j < self.columns@.len() && column_edge(
                            table,
                            #[trigger] self.columns@[j],
                            scope.catalog,
                            e,
                        )
                    ||| self.partition_of matches Some(po) && e == (
                        table,
                        NodeId::Table(po.parent)@,
                    )
                    ||| exists|j: int|
                        0 <= j < self.constraints@.len() && !defers(
                            scope.cycle,
                            self.qname,
                            #[trigger] self.constraints@[j],
                        ) && constraint_edge(self.qname, self.constraints@[j], e)
                },
        )
    }
}

impl CatalogObject for Table {
    fn register(&self, scope: &Scope, draft: &mut Draft) {
        let ghost d0 = draft.declared();
        let ghost e0 = draft.edges();
        let table = NodeId::Table(self.qname.duplicate());
        draft.declare(table.duplicate());
        draft.depend(table.duplicate(), NodeId::Schema(self.qname.schema.duplicate()));
        match &self.partition_of {
            Some(po) => {
                draft.depend(table.duplicate(), NodeId::Table(po.parent.duplicate()));
            },
            None => {},
        }
        let ghost e1 = draft.edges();
        let mut j: usize = 0;
        while j < self.columns.len()
            invariant
                j <= self.columns@.len(),
                draft.wf(),
                table@ == NodeId::Table(self.qname)@,
                draft.declared() == d0.insert(table@),
                draft.edges() =~= e1.union(
                    Set::new(
                        |e: (NodeKey, NodeKey)|
                            exists|k: int|
                                0 <= k < j && column_edge(
                                    table@,
                                    #[trigger] self.columns@[k],
                                    *scope.catalog,
                                    e,
                                ),
                    ),
                ),
            decreases self.columns@.len() - j,
        {
            let col = &self.columns[j];
            let ghost before = draft.edges();
            depend_on_type(draft, &table, &col.ty);
            depend_on_collation(draft, &table, &col.collation, scope.catalog);
            match &col.default {
                Some(DefaultExpr::Sequence(q)) => {
                    draft.depend(table.duplicate(), NodeId::Sequence(q.duplicate()));
                },
                _ => {},
            }
            proof {
                let sofar = |e: (NodeKey, NodeKey)|
                    exists|k: int|
                        0 <= k < j && column_edge(table@, #[trigger] self.columns@[k], *scope.catalog, e);
                let next = |e: (NodeKey, NodeKey)|
                    exists|k: int|
                        0 <= k < j + 1 && column_edge(table@, #[trigger] self.columns@[k], *scope.catalog, e);
                assert forall|e: (NodeKey, NodeKey)| #[trigger] draft.edges().contains(e) <==> before.contains(e)
                    || column_edge(table@, *col, *scope.catalog, e) by {}
                assert forall|e: (NodeKey, NodeKey)| #[trigger] next(e) <==> sofar(e)
                    || column_edge(table@, *col, *scope.catalog, e) by {
                    if column_edge(table@, *col, *scope.catalog, e) {
                        assert(self.columns@[j as int] == *col);
                    }
                }
                assert(draft.edges() =~= e1.union(Set::new(next))) by {
                    assert forall|e: (NodeKey, NodeKey)| #[trigger] draft.edges().contains(e) <==> e1.contains(e) || next(e) by {
                        assert(before.contains(e) <==> e1.contains(e) || sofar(e));
                    }
                }
            }
            j = j + 1;
        }
        let ghost e2 = draft.edges();
        let ghost cyc = models(scope.cycle@);
        let mut i: usize = 0;
        while i < self.constraints.len()
            invariant
                i <= self.constraints@.len(),
                draft.wf(),
                cyc == models(scope.cycle@),
                table@ == NodeId::Table(self.qname)@,
                draft.declared() =~= d0.insert(table@).union(
                    Set::new(
                        |n: NodeKey|
                            exists|k: int|
                                0 <= k < i && !defers(cyc, self.qname, #[trigger] self.constraints@[k])
                                    && n == (NodeId::Constraint {
                                    table: self.qname,
                                    name: self.constraints@[k].qname.name,
                                })@,
                    ),
                ),
                draft.edges() =~= e2.union(
                    Set::new(
                        |e: (NodeKey, NodeKey)|
                            exists|k: int|
                                0 <= k < i && !defers(cyc, self.qname, #[trigger] self.constraints@[k])
                                    && constraint_edge(self.qname, self.constraints@[k], e),
                    ),
                ),
            decreases self.constraints@.len() - i,
        {
            let c = &self.constraints[i];
            let ghost before = draft.edges();
            let ghost dbefore = draft.declared();
            let skip = is_deferred(scope.cycle, &self.qname, c);
            let ghost node = (NodeId::Constraint { table: self.qname, name: c.qname.name })@;
            if !skip {
                let own = NodeId::Constraint {
                    table: self.qname.duplicate(),
                    name: c.qname.name.duplicate(),
                };
                assert(own@ == node);
                draft.declare(own.duplicate());
                draft.depend(own.duplicate(), table.duplicate());
                match &c.kind {
                    ConstraintKind::ForeignKey(fk) => {
                        draft.depend(own, NodeId::Table(fk.referenced_table.duplicate()));
                        if !fk.referenced_table.same(&self.qname) {
                            draft.depend(
                                table.duplicate(),
                                NodeId::Table(fk.referenced_table.duplicate()),
                            );
                        }
                    },
                    _ => {},
                }
            }
            proof {
                let kept = !defers(cyc, self.qname, *c);
                let sofar = |e: (NodeKey, NodeKey)|
                    exists|k: int|
                        0 <= k < i && !defers(cyc, self.qname, #[trigger] self.constraints@[k])
                            && constraint_edge(self.qname, self.constraints@[k], e);
                let next = |e: (NodeKey, NodeKey)|
                    exists|k: int|
                        0 <= k < i + 1 && !defers(cyc, self.qname, #[trigger] self.constraints@[k])
                            && constraint_edge(self.qname, self.constraints@[k], e);
                assert forall|e: (NodeKey, NodeKey)| #[trigger] draft.edges().contains(e) <==> before.contains(e)
                    || (kept && constraint_edge(self.qname, *c, e)) by {}
                assert forall|e: (NodeKey, NodeKey)| #[trigger] next(e) <==> sofar(e)
                    || (kept && constraint_edge(self.qname, *c, e)) by {
                    if kept && constraint_edge(self.qname, *c, e) {
                        assert(self.constraints@[i as int] == *c);
                    }
                }
                assert(draft.edges() =~= e2.union(Set::new(next))) by {
                    assert forall|e: (NodeKey, NodeKey)| #[trigger] draft.edges().contains(e) <==> e2.contains(e) || next(e) by {
                        assert(before.contains(e) <==> e2.contains(e) || sofar(e));
                    }
                }
                let dsofar = |n: NodeKey|
                    exists|k: int|
                        0 <= k < i && !defers(cyc, self.qname, #[trigger] self.constraints@[k])
                            && n == (NodeId::Constraint {
                            table: self.qname,
                            name: self.constraints@[k].qname.name,
                        })@;
                let dnext = |n: NodeKey|
                    exists|k: int|
                        0 <= k < i + 1 && !defers(cyc, self.qname, #[trigger] self.constraints@[k])
                            && n == (NodeId::Constraint {
                            table: self.qname,
                            name: self.constraints@[k].qname.name,
                        })@;
                assert forall|n: NodeKey| #[trigger] dnext(n) <==> dsofar(n) || (kept && n == node) by {
                    if kept && n == node {
                        assert(self.constraints@[i as int] == *c);
                    }
                }
                assert(draft.declared() =~= d0.insert(table@).union(Set::new(dnext))) by {
                    assert forall|n: NodeKey| #[trigger] draft.declared().contains(n) <==> d0.insert(table@).contains(n) || dnext(n) by {
                        assert(dbefore.contains(n) <==> d0.insert(table@).contains(n) || dsofar(n));
                    }
                }
            }
            i = i + 1;
        }
        proof {
            assert(draft.declared() =~= d0.union(self.declares(scope@)));
            assert(draft.edges() =~= e0.union(self.needs(scope@)));
        }
    }
}


impl Dependent for Index {
    open spec fn declares(&self, scope: ScopeModel) -> Set<NodeKey> {
        set![NodeId::Index(self.qname)@]
    }

    open spec fn needs(&self, scope: ScopeModel) -> EdgeSet {
        set![(
            NodeId::Index(self.qname)@,
            match self.on {
                IndexParent::Table(q) => NodeId::Table(q)@,
                IndexParent::Mv(q) => NodeId::Mv(q)@,
            },
        )]
    }
}

impl CatalogObject for Index {
    fn register(&self, scope: &Scope, draft: &mut Draft) {
        let ghost d0 = draft.declared();
        let ghost e0 = draft.edges();
        let parent = match &self.on {
            IndexParent::Table(q) => NodeId::Table(q.duplicate()),
            IndexParent::Mv(q) => NodeId::Mv(q.duplicate()),
        };
        draft.declare(NodeId::Index(self.qname.duplicate()));
        draft.depend(NodeId::Index(self.qname.duplicate()), parent);
        assert(draft.declared() =~= d0.union(self.declares(scope@)));
        assert(draft.edges() =~= e0.union(self.needs(scope@)));
    }
}

impl Dependent for Sequence {
    open spec fn declares(&self, scope: ScopeModel) -> Set<NodeKey> {
        set![NodeId::Sequence(self.qname)@]
    }

    open spec fn needs(&self, scope: ScopeModel) -> EdgeSet {
        match self.owned_by {
            Some(owner) => set![(NodeId::Sequence(self.qname)@, NodeId::Table(owner.table)@)],
            None => Set::empty(),
        }
    }
}

impl CatalogObject for Sequence {
    fn register(&self, scope: &Scope, draft: &mut Draft) {
        let ghost d0 = draft.declared();
        let ghost e0 = draft.edges();
        draft.declare(NodeId::Sequence(self.qname.duplicate()));
        match &self.owned_by {
            Some(owner) => {
                draft.depend(
                    NodeId::Sequence(self.qname.duplicate()),
                    NodeId::Table(owner.table.duplicate()),
                );
            },
            None => {},
        }
        assert(draft.declared() =~= d0.union(self.declares(scope@)));
        assert(draft.edges() =~= e0.union(self.needs(scope@)));
    }
}

/// The edges that a body records.
pub open spec fn body_edges(deps: Seq<DepEdge>) -> EdgeSet {
    Set::new(
        |e: (NodeKey, NodeKey)|
            exists|k: int|
                0 <= k < deps.len() && (#[trigger] deps[k]).from@ == e.0 && deps[k].to@ == e.1,
    )
}

/// Adds the edges that a body records.
pub fn depend_on_body(draft: &mut Draft, deps: &Vec<DepEdge>)
    requires
        old(draft).wf(),
    ensures
        final(draft).wf(),
        final(draft).declared() == old(draft).declared(),
        final(draft).edges() =~= old(draft).edges().union(body_edges(deps@)),
{
    let ghost e0 = draft.edges();
    let ghost d0 = draft.declared();
    let mut i: usize = 0;
    assert(draft.edges() =~= e0.union(body_edges(deps@.take(0))));
    while i < deps.len()
        invariant
            i <= deps@.len(),
            draft.wf(),
            draft.declared() == d0,
            draft.edges() =~= e0.union(body_edges(deps@.take(i as int))),
        decreases deps@.len() - i,
    {
        let dep = &deps[i];
        draft.depend(dep.from.duplicate(), dep.to.duplicate());
        proof {
            let a = deps@.take(i as int);
            let b = deps@.take(i + 1);
            assert forall|e: (NodeKey, NodeKey)| #[trigger] body_edges(b).contains(e) <==> body_edges(a).contains(e)
                || e == (dep.from@, dep.to@) by {
                if body_edges(b).contains(e) {
                    let k = choose|k: int|
                        0 <= k < b.len() && (#[trigger] b[k]).from@ == e.0 && b[k].to@ == e.1;
                    if k < i {
                        assert(a[k] == b[k]);
                    }
                }
                if body_edges(a).contains(e) {
                    let k = choose|k: int|
                        0 <= k < a.len() && (#[trigger] a[k]).from@ == e.0 && a[k].to@ == e.1;
                    assert(b[k] == a[k]);
                }
                if e == (dep.from@, dep.to@) {
                    assert(b[i as int] == *dep);
                }
            }
        }
        i = i + 1;
    }
    assert(deps@.take(i as int) =~= deps@);
}

impl Dependent for ViewDefinition {
    open spec fn declares(&self, scope: ScopeModel) -> Set<NodeKey> {
        set![NodeId::View(self.qname)@]
    }

    open spec fn needs(&self, scope: ScopeModel) -> EdgeSet {
        body_edges(self.body_dependencies@)
    }
}

impl CatalogObject for ViewDefinition {
    fn register(&self, scope: &Scope, draft: &mut Draft) {
        let ghost d0 = draft.declared();
        draft.declare(NodeId::View(self.qname.duplicate()));
        depend_on_body(draft, &self.body_dependencies);
        assert(draft.declared() =~= d0.union(self.declares(scope@)));
    }
}

impl Dependent for MaterializedView {
    open spec fn declares(&self, scope: ScopeModel) -> Set<NodeKey> {
        set![NodeId::Mv(self.qname)@]
    }

    open spec fn needs(&self, scope: ScopeModel) -> EdgeSet {
        body_edges(self.body_dependencies@)
    }
}

impl CatalogObject for MaterializedView {
    fn register(&self, scope: &Scope, draft: &mut Draft) {
        let ghost d0 = draft.declared();
        draft.declare(NodeId::Mv(self.qname.duplicate()));
        depend_on_body(draft, &self.body_dependencies);
        assert(draft.declared() =~= d0.union(self.declares(scope@)));
    }
}

/// The edges that an attribute adds to its composite type.
pub open spec fn attribute_edge(
    from: NodeKey,
    attr: CompositeAttribute,
    c: Catalog,
    e: (NodeKey, NodeKey),
) -> bool {
    type_edge(from, attr.ty, e) || collation_edge(from, attr.collation, c, e)
}

/// The catalog manages a type of that name.
pub open spec fn manages_type(c: Catalog, q: QualifiedName) -> bool {
    &&& q.schema@ != "pg_catalog"@
    &&& exists|i: int| 0 <= i < c.types@.len() && #[trigger] c.types@[i].qname@ == q@
}

fn is_managed_type(catalog: &Catalog, q: &QualifiedName) -> (r: bool)
    ensures
        r == manages_type(*catalog, *q),
{
    if text_eq(q.schema.as_str(), "pg_catalog") {
        return false;
    }
    let mut i: usize = 0;
    while i < catalog.types.len()
        invariant
            i <= catalog.types@.len(),
            q.schema@ != "pg_catalog"@,
            forall|k: int| 0 <= k < i ==> #[trigger] catalog.types@[k].qname@ != q@,
        decreases catalog.types@.len() - i,
    {
        if catalog.types[i].qname.same(q) {
            assert(catalog.types@[i as int].qname@ == q@);
            return true;
        }
        i = i + 1;
    }
    false
}

/// The edges that the definition of a type adds.
pub open spec fn kind_edge(
    from: NodeKey,
    kind: UserTypeKind,
    c: Catalog,
    e: (NodeKey, NodeKey),
) -> bool {
    match kind {
        UserTypeKind::Enum { .. } => false,
        UserTypeKind::Composite { attributes } => exists|j: int|
            0 <= j < attributes@.len() && attribute_edge(from, #[trigger] attributes@[j], c, e),
        UserTypeKind::Domain { base, collation, .. } => type_edge(from, base, e) || collation_edge(
            from,
            collation,
            c,
            e,
        ),
        UserTypeKind::Range { subtype, canonical, subtype_diff, collation, .. } => {
            ||| e.0 == from && manages_type(c, subtype) && e.1 == NodeId::Type(subtype)@
            ||| e.0 == from && (canonical matches Some(q) && names_function(c, q, e.1))
            ||| e.0 == from && (subtype_diff matches Some(q) && names_function(c, q, e.1))
            ||| collation_edge(from, collation, c, e)
        },
    }
}

impl Dependent for UserType {
    open spec fn declares(&self, scope: ScopeModel) -> Set<NodeKey> {
        set![NodeId::Type(self.qname)@]
    }

    open spec fn needs(&self, scope: ScopeModel) -> EdgeSet {
        let from = NodeId::Type(self.qname)@;
        Set::new(
            |e: (NodeKey, NodeKey)|
                e == (from, NodeId::Schema(self.qname.schema)@) || kind_edge(
                    from,
                    self.kind,
                    scope.catalog,
                    e,
                ),
        )
    }
}

impl CatalogObject for UserType {
    fn register(&self, scope: &Scope, draft: &mut Draft) {
        let ghost d0 = draft.declared();
        let ghost e0 = draft.edges();
        let from = NodeId::Type(self.qname.duplicate());
        draft.declare(from.duplicate());
        draft.depend(from.duplicate(), NodeId::Schema(self.qname.schema.duplicate()));
        let ghost e1 = draft.edges();
        match &self.kind {
            UserTypeKind::Enum { .. } => {},
            UserTypeKind::Composite { attributes } => {
                let mut j: usize = 0;
                while j < attributes.len()
                    invariant
                        j <= attributes@.len(),
                        draft.wf(),
                        draft.declared() == d0.insert(from@),
                        draft.edges() =~= e1.union(
                            Set::new(
                                |e: (NodeKey, NodeKey)|
                                    exists|k: int|
                                        0 <= k < j && attribute_edge(
                                            from@,
                                            #[trigger] attributes@[k],
                                            *scope.catalog,
                                            e,
                                        ),
                            ),
                        ),
                    decreases attributes@.len() - j,
                {
                    let attr = &attributes[j];
                    let ghost before = draft.edges();
                    depend_on_type(draft, &from, &attr.ty);
                    depend_on_collation(draft, &from, &attr.collation, scope.catalog);
                    proof {
                        let sofar = |e: (NodeKey, NodeKey)|
                            exists|k: int|
                                0 <= k < j && attribute_edge(from@, #[trigger] attributes@[k], *scope.catalog, e);
                        let next = |e: (NodeKey, NodeKey)|
                            exists|k: int|
                                0 <= k < j + 1 && attribute_edge(from@, #[trigger] attributes@[k], *scope.catalog, e);
                        assert forall|e: (NodeKey, NodeKey)| #[trigger] next(e) <==> sofar(e)
                            || attribute_edge(from@, *attr, *scope.catalog, e) by {
                            if attribute_edge(from@, *attr, *scope.catalog, e) {
                                assert(attributes@[j as int] == *attr);
                            }
                        }
                        assert(draft.edges() =~= e1.union(Set::new(next))) by {
                            assert forall|e: (NodeKey, NodeKey)| #[trigger] draft.edges().contains(e) <==> e1.contains(e) || next(e) by {
                                assert(before.contains(e) <==> e1.contains(e) || sofar(e));
                            }
                        }
                    }
                    j = j + 1;
                }
            },
            UserTypeKind::Domain { base, collation, .. } => {
                depend_on_type(draft, &from, base);
                depend_on_collation(draft, &from, collation, scope.catalog);
            },
            UserTypeKind::Range { subtype, canonical, subtype_diff, collation, .. } => {
                if is_managed_type(scope.catalog, subtype) {
                    draft.depend(from.duplicate(), NodeId::Type(subtype.duplicate()));
                }
                match canonical {
                    Some(q) => depend_on_function(draft, scope.catalog, &from, q),
                    None => {},
                }
                match subtype_diff {
                    Some(q) => depend_on_function(draft, scope.catalog, &from, q),
                    None => {},
                }
                depend_on_collation(draft, &from, collation, scope.catalog);
            },
        }
        proof {
            assert(draft.declared() =~= d0.union(self.declares(scope@)));
            assert(draft.edges() =~= e0.union(self.needs(scope@)));
        }
    }
}

/// The edges that a list of arguments adds.
pub open spec fn args_edge(from: NodeKey, args: Seq<FunctionArg>, e: (NodeKey, NodeKey)) -> bool {
    exists|j: int| 0 <= j < args.len() && type_edge(from, (#[trigger] args[j]).ty, e)
}

fn depend_on_args(draft: &mut Draft, from: &NodeId, args: &Vec<FunctionArg>)
    requires
        old(draft).wf(),
    ensures
        final(draft).wf(),
        final(draft).declared() == old(draft).declared(),
        final(draft).edges() =~= old(draft).edges().union(
            Set::new(|e: (NodeKey, NodeKey)| args_edge(from@, args@, e)),
        ),
{
    let ghost e0 = draft.edges();
    let ghost d0 = draft.declared();
    let mut i: usize = 0;
    assert(draft.edges() =~= e0.union(
        Set::new(|e: (NodeKey, NodeKey)| args_edge(from@, args@.take(0), e)),
    ));
    while i < args.len()
        invariant
            i <= args@.len(),
            draft.wf(),
            draft.declared() == d0,
            draft.edges() =~= e0.union(
                Set::new(|e: (NodeKey, NodeKey)| args_edge(from@, args@.take(i as int), e)),
            ),
        decreases args@.len() - i,
    {
        let ghost before = draft.edges();
        depend_on_type(draft, from, &args[i].ty);
        proof {
            let a = args@.take(i as int);
            let b = args@.take(i + 1);
            assert forall|e: (NodeKey, NodeKey)| #[trigger] args_edge(from@, b, e) <==> args_edge(from@, a, e)
                || type_edge(from@, args@[i as int].ty, e) by {
                if args_edge(from@, b, e) {
                    let k = choose|k: int| 0 <= k < b.len() && type_edge(from@, (#[trigger] b[k]).ty, e);
                    if k < i {
                        assert(a[k] == b[k]);
                    }
                }
                if args_edge(from@, a, e) {
                    let k = choose|k: int| 0 <= k < a.len() && type_edge(from@, (#[trigger] a[k]).ty, e);
                    assert(b[k] == a[k]);
                }
                if type_edge(from@, args@[i as int].ty, e) {
                    assert(b[i as int] == args@[i as int]);
                }
            }
        }
        i = i + 1;
    }
    assert(args@.take(i as int) =~= args@);
}

/// The edges that the columns of a `RETURNS TABLE` result add.
pub open spec fn result_columns_edge(
    from: NodeKey,
    columns: Seq<TableColumn>,
    e: (NodeKey, NodeKey),
) -> bool {
    exists|j: int| 0 <= j < columns.len() && type_edge(from, (#[trigger] columns[j]).ty, e)
}

fn depend_on_result_columns(draft: &mut Draft, from: &NodeId, columns: &Vec<TableColumn>)
    requires
        old(draft).wf(),
    ensures
        final(draft).wf(),
        final(draft).declared() == old(draft).declared(),
        final(draft).edges() =~= old(draft).edges().union(
            Set::new(|e: (NodeKey, NodeKey)| result_columns_edge(from@, columns@, e)),
        ),
{
    let ghost e0 = draft.edges();
    let ghost d0 = draft.declared();
    let mut i: usize = 0;
    assert(draft.edges() =~= e0.union(
        Set::new(|e: (NodeKey, NodeKey)| result_columns_edge(from@, columns@.take(0), e)),
    ));
    while i < columns.len()
        invariant
            i <= columns@.len(),
            draft.wf(),
            draft.declared() == d0,
            draft.edges() =~= e0.union(
                Set::new(
                    |e: (NodeKey, NodeKey)| result_columns_edge(from@, columns@.take(i as int), e),
                ),
            ),
        decreases columns@.len() - i,
    {
        let ghost before = draft.edges();
        depend_on_type(draft, from, &columns[i].ty);
        proof {
            let a = columns@.take(i as int);
            let b = columns@.take(i + 1);
            assert forall|e: (NodeKey, NodeKey)| #[trigger] result_columns_edge(from@, b, e)
                <==> result_columns_edge(from@, a, e) || type_edge(from@, columns@[i as int].ty, e) by {
                if result_columns_edge(from@, b, e) {
                    let k = choose|k: int| 0 <= k < b.len() && type_edge(from@, (#[trigger] b[k]).ty, e);
                    if k < i {
                        assert(a[k] == b[k]);
                    }
                }
                if result_columns_edge(from@, a, e) {
                    let k = choose|k: int| 0 <= k < a.len() && type_edge(from@, (#[trigger] a[k]).ty, e);
                    assert(b[k] == a[k]);
                }
                if type_edge(from@, columns@[i as int].ty, e) {
                    assert(b[i as int] == columns@[i as int]);
                }
            }
        }
        i = i + 1;
    }
    assert(columns@.take(i as int) =~= columns@);
}

/// The edges that a return type adds.
pub open spec fn return_edge(from: NodeKey, rt: ReturnType, e: (NodeKey, NodeKey)) -> bool {
    match rt {
        ReturnType::Scalar { ty } => type_edge(from, ty, e),
        ReturnType::SetOf { ty } => type_edge(from, ty, e),
        ReturnType::Table { columns } => result_columns_edge(from, columns@, e),
        _ => false,
    }
}

impl Dependent for Function {
    open spec fn declares(&self, scope: ScopeModel) -> Set<NodeKey> {
        set![function_node(*self)]
    }

    open spec fn needs(&self, scope: ScopeModel) -> EdgeSet {
        let from = function_node(*self);
        Set::new(
            |e: (NodeKey, NodeKey)|
                {
                    ||| e == (from, NodeId::Schema(self.qname.schema)@)
                    ||| args_edge(from, self.args@, e)
                    ||| return_edge(from, self.return_type, e)
                    ||| body_edges(self.body_dependencies@).contains(e)
                },
        )
    }
}

impl CatalogObject for Function {
    fn register(&self, scope: &Scope, draft: &mut Draft) {
        let ghost d0 = draft.declared();
        let ghost e0 = draft.edges();
        let from = NodeId::Function(
            self.qname.duplicate(),
            self.arg_types_normalized.duplicate(),
        );
        assert(from@ == function_node(*self));
        draft.declare(from.duplicate());
        draft.depend(from.duplicate(), NodeId::Schema(self.qname.schema.duplicate()));
        depend_on_args(draft, &from, &self.args);
        match &self.return_type {
            ReturnType::Scalar { ty } => depend_on_type(draft, &from, ty),
            ReturnType::SetOf { ty } => depend_on_type(draft, &from, ty),
            ReturnType::Table { columns } => depend_on_result_columns(draft, &from, columns),
            _ => {},
        }
        depend_on_body(draft, &self.body_dependencies);
        assert(draft.declared() =~= d0.union(self.declares(scope@)));
        assert(draft.edges() =~= e0.union(self.needs(scope@)));
    }
}

impl Dependent for Procedure {
    open spec fn declares(&self, scope: ScopeModel) -> Set<NodeKey> {
        set![NodeId::Procedure(self.qname)@]
    }

    open spec fn needs(&self, scope: ScopeModel) -> EdgeSet {
        let from = NodeId::Procedure(self.qname)@;
        Set::new(
            |e: (NodeKey, NodeKey)|
                {
                    ||| e == (from, NodeId::Schema(self.qname.schema)@)
                    ||| args_edge(from, self.args@, e)
                    ||| body_edges(self.body_dependencies@).contains(e)
                },
        )
    }
}

impl CatalogObject for Procedure {
    fn register(&self, scope: &Scope, draft: &mut Draft) {
        let ghost d0 = draft.declared();
        let ghost e0 = draft.edges();
        let from = NodeId::Procedure(self.qname.duplicate());
        draft.declare(from.duplicate());
        draft.depend(from.duplicate(), NodeId::Schema(self.qname.schema.duplicate()));
        depend_on_args(draft, &from, &self.args);
        depend_on_body(draft, &self.body_dependencies);
        assert(draft.declared() =~= d0.union(self.declares(scope@)));
        assert(draft.edges() =~= e0.union(self.needs(scope@)));
    }
}

/// A view of that name is in the catalog.
pub open spec fn has_view(c: Catalog, q: QualifiedName) -> bool {
    exists|i: int| 0 <= i < c.views@.len() && #[trigger] c.views@[i].qname@ == q@
}

/// A materialized view of that name is in the catalog.
pub open spec fn has_mv(c: Catalog, q: QualifiedName) -> bool {
    exists|i: int|
        0 <= i < c.materialized_views@.len() && #[trigger] c.materialized_views@[i].qname@ == q@
}

fn view_exists(catalog: &Catalog, q: &QualifiedName) -> (r: bool)
    ensures
        r == has_view(*catalog, *q),
{
    let mut i: usize = 0;
    while i < catalog.views.len()
        invariant
            i <= catalog.views@.len(),
            forall|k: int| 0 <= k < i ==> #[trigger] catalog.views@[k].qname@ != q@,
        decreases catalog.views@.len() - i,
    {
        if catalog.views[i].qname.same(q) {
            assert(catalog.views@[i as int].qname@ == q@);
            return true;
        }
        i = i + 1;
    }
    false
}

fn mv_exists(catalog: &Catalog, q: &QualifiedName) -> (r: bool)
    ensures
        r == has_mv(*catalog, *q),
{
    let mut i: usize = 0;
    while i < catalog.materialized_views.len()
        invariant
            i <= catalog.materialized_views@.len(),
            forall|k: int| 0 <= k < i ==> #[trigger] catalog.materialized_views@[k].qname@ != q@,
        decreases catalog.materialized_views@.len() - i,
    {
        if catalog.materialized_views[i].qname.same(q) {
            assert(catalog.materialized_views@[i as int].qname@ == q@);
            return true;
        }
        i = i + 1;
    }
    false
}

/// The relation a trigger is on, where the catalog has it: a table, else a
/// view, else a materialized view.
pub open spec fn trigger_target(c: Catalog, t: Trigger) -> Option<NodeKey> {
    if c.has_table(t.table) {
        Some(NodeId::Table(t.table)@)
    } else if has_view(c, t.table) {
        Some(NodeId::View(t.table)@)
    } else if has_mv(c, t.table) {
        Some(NodeId::Mv(t.table)@)
    } else {
        None
    }
}

impl Dependent for Trigger {
    open spec fn declares(&self, scope: ScopeModel) -> Set<NodeKey> {
        set![NodeId::Trigger(self.qname)@]
    }

    open spec fn needs(&self, scope: ScopeModel) -> EdgeSet {
        let from = NodeId::Trigger(self.qname)@;
        match trigger_target(scope.catalog, *self) {
            None => Set::empty(),
            Some(target) => Set::new(
                |e: (NodeKey, NodeKey)|
                    e == (from, target) || (e.0 == from && names_function(
                        scope.catalog,
                        self.function_qname,
                        e.1,
                    )),
            ),
        }
    }
}

impl CatalogObject for Trigger {
    fn register(&self, scope: &Scope, draft: &mut Draft) {
        let ghost d0 = draft.declared();
        let ghost e0 = draft.edges();
        let from = NodeId::Trigger(self.qname.duplicate());
        draft.declare(from.duplicate());
        let target = if scope.catalog.table_exists(&self.table) {
            Some(NodeId::Table(self.table.duplicate()))
        } else if view_exists(scope.catalog, &self.table) {
            Some(NodeId::View(self.table.duplicate()))
        } else if mv_exists(scope.catalog, &self.table) {
            Some(NodeId::Mv(self.table.duplicate()))
        } else {
            None
        };
        match target {
            Some(node) => {
                draft.depend(from.duplicate(), node);
                depend_on_function(draft, scope.catalog, &from, &self.function_qname);
            },
            None => {},
        }
        assert(draft.declared() =~= d0.union(self.declares(scope@)));
        assert(draft.edges() =~= e0.union(self.needs(scope@)));
    }
}

impl Dependent for EventTrigger {
    open spec fn declares(&self, scope: ScopeModel) -> Set<NodeKey> {
        set![NodeId::EventTrigger(self.name)@]
    }

    open spec fn needs(&self, scope: ScopeModel) -> EdgeSet {
        let from = NodeId::EventTrigger(self.name)@;
        Set::new(
            |e: (NodeKey, NodeKey)|
                e.0 == from && names_function(scope.catalog, self.function, e.1),
        )
    }
}

impl CatalogObject for EventTrigger {
    fn register(&self, scope: &Scope, draft: &mut Draft) {
        let ghost d0 = draft.declared();
        let ghost e0 = draft.edges();
        let from = NodeId::EventTrigger(self.name.duplicate());
        draft.declare(from.duplicate());
        depend_on_function(draft, scope.catalog, &from, &self.function);
        assert(draft.declared() =~= d0.union(self.declares(scope@)));
        assert(draft.edges() =~= e0.union(self.needs(scope@)));
    }
}

/// The node of an aggregate.
pub open spec fn aggregate_node(a: Aggregate) -> NodeKey {
    NodeKey { rank: 17, parts: a.qname@.parts() + models(a.arg_types@) }
}

/// The node of an aggregate.
pub fn aggregate_id(qname: &QualifiedName, arg_types: &Vec<ColumnType>) -> (node: NodeId)
    ensures
        node@ == (NodeKey { rank: 17, parts: qname@.parts() + models(arg_types@) }),
{
    let args = NormalizedArgTypes::from_types(arg_types);
    NodeId::Aggregate(qname.duplicate(), args)
}

impl Dependent for Aggregate {
    open spec fn declares(&self, scope: ScopeModel) -> Set<NodeKey> {
        set![aggregate_node(*self)]
    }

    open spec fn needs(&self, scope: ScopeModel) -> EdgeSet {
        let from = aggregate_node(*self);
        Set::new(
            |e: (NodeKey, NodeKey)|
                {
                    ||| e == (from, NodeId::Schema(self.qname.schema)@)
                    ||| e.0 == from && names_function(scope.catalog, self.sfunc, e.1)
                    ||| e.0 == from && (self.finalfunc matches Some(f) && names_function(
                        scope.catalog,
                        f,
                        e.1,
                    ))
                },
        )
    }
}

impl CatalogObject for Aggregate {
    fn register(&self, scope: &Scope, draft: &mut Draft) {
        let ghost d0 = draft.declared();
        let ghost e0 = draft.edges();
        let from = aggregate_id(&self.qname, &self.arg_types);
        draft.declare(from.duplicate());
        draft.depend(from.duplicate(), NodeId::Schema(self.qname.schema.duplicate()));
        depend_on_function(draft, scope.catalog, &from, &self.sfunc);
        match &self.finalfunc {
            Some(f) => depend_on_function(draft, scope.catalog, &from, f),
            None => {},
        }
        assert(draft.declared() =~= d0.union(self.declares(scope@)));
        assert(draft.edges() =~= e0.union(self.needs(scope@)));
    }
}

/// The catalog has the function of exactly that name and those types.
pub open spec fn has_overload(c: Catalog, q: QualifiedName, types: Seq<Seq<char>>) -> bool {
    exists|i: int|
        0 <= i < c.functions@.len() && (#[trigger] c.functions@[i]).qname@ == q@
            && c.functions@[i].arg_types_normalized@ == types
}

fn overload_exists(catalog: &Catalog, q: &QualifiedName, types: &NormalizedArgTypes) -> (r: bool)
    ensures
        r == has_overload(*catalog, *q, types@),
{
    let mut i: usize = 0;
    while i < catalog.functions.len()
        invariant
            i <= catalog.functions@.len(),
            forall|k: int|
                0 <= k < i ==> !((#[trigger] catalog.functions@[k]).qname@ == q@
                    && catalog.functions@[k].arg_types_normalized@ == types@),
        decreases catalog.functions@.len() - i,
    {
        let f = &catalog.functions[i];
        if f.qname.same(q) && f.arg_types_normalized.same(types) {
            assert(catalog.functions@[i as int] == *f);
            return true;
        }
        i = i + 1;
    }
    false
}

impl Dependent for Cast {
    open spec fn declares(&self, scope: ScopeModel) -> Set<NodeKey> {
        set![NodeId::Cast(self.source, self.target)@]
    }

    open spec fn needs(&self, scope: ScopeModel) -> EdgeSet {
        let from = NodeId::Cast(self.source, self.target)@;
        match self.method {
            CastMethod::Function { name, arg_types } => if has_overload(
                scope.catalog,
                name,
                models(arg_types@),
            ) {
                set![(from, NodeKey { rank: 8, parts: name@.parts() + models(arg_types@) })]
            } else {
                Set::empty()
            },
            _ => Set::empty(),
        }
    }
}

impl CatalogObject for Cast {
    fn register(&self, scope: &Scope, draft: &mut Draft) {
        let ghost d0 = draft.declared();
        let ghost e0 = draft.edges();
        let from = NodeId::Cast(self.source.duplicate(), self.target.duplicate());
        draft.declare(from.duplicate());
        match &self.method {
            CastMethod::Function { name, arg_types } => {
                let args = NormalizedArgTypes::from_types(arg_types);
                if overload_exists(scope.catalog, name, &args) {
                    draft.depend(from, NodeId::Function(name.duplicate(), args));
                }
            },
            _ => {},
        }
        assert(draft.declared() =~= d0.union(self.declares(scope@)));
        assert(draft.edges() =~= e0.union(self.needs(scope@)));
    }
}

impl Dependent for Extension {
    open spec fn declares(&self, scope: ScopeModel) -> Set<NodeKey> {
        set![NodeId::Extension(self.name)@]
    }

    open spec fn needs(&self, scope: ScopeModel) -> EdgeSet {
        match self.schema {
            Some(schema) => set![(NodeId::Extension(self.name)@, NodeId::Schema(schema)@)],
            None => Set::empty(),
        }
    }
}

impl CatalogObject for Extension {
    fn register(&self, scope: &Scope, draft: &mut Draft) {
        let ghost d0 = draft.declared();
        let ghost e0 = draft.edges();
        let from = NodeId::Extension(self.name.duplicate());
        draft.declare(from.duplicate());
        match &self.schema {
            Some(schema) => {
                draft.depend(from, NodeId::Schema(schema.duplicate()));
            },
            None => {},
        }
        assert(draft.declared() =~= d0.union(self.declares(scope@)));
        assert(draft.edges() =~= e0.union(self.needs(scope@)));
    }
}

impl Dependent for Publication {
    open spec fn declares(&self, scope: ScopeModel) -> Set<NodeKey> {
        set![NodeId::Publication(self.name)@]
    }

    open spec fn needs(&self, scope: ScopeModel) -> EdgeSet {
        let from = NodeId::Publication(self.name)@;
        match self.scope {
            PublicationScope::AllTables => Set::empty(),
            PublicationScope::Selective { schemas, tables } => Set::new(
                |e: (NodeKey, NodeKey)|
                    {
                        ||| exists|j: int|
                            0 <= j < tables@.len() && e == (
                                from,
                                NodeId::Table((#[trigger] tables@[j]).qname)@,
                            )
                        ||| exists|j: int|
                            0 <= j < schemas@.len() && e == (
                                from,
                                NodeId::Schema(#[trigger] schemas@[j])@,
                            )
                    },
            ),
        }
    }
}

impl CatalogObject for Publication {
    fn register(&self, scope: &Scope, draft: &mut Draft) {
        let ghost d0 = draft.declared();
        let ghost e0 = draft.edges();
        let from = NodeId::Publication(self.name.duplicate());
        draft.declare(from.duplicate());
        match &self.scope {
            PublicationScope::AllTables => {},
            PublicationScope::Selective { schemas, tables } => {
                let mut i: usize = 0;
                while i < tables.len()
                    invariant
                        i <= tables@.len(),
                        draft.wf(),
                        draft.declared() == d0.insert(from@),
                        draft.edges() =~= e0.union(
                            Set::new(
                                |e: (NodeKey, NodeKey)|
                                    exists|j: int|
                                        0 <= j < i && e == (
                                            from@,
                                            NodeId::Table((#[trigger] tables@[j]).qname)@,
                                        ),
                            ),
                        ),
                    decreases tables@.len() - i,
                {
                    draft.depend(from.duplicate(), NodeId::Table(tables[i].qname.duplicate()));
                    i = i + 1;
                }
                let ghost e1 = draft.edges();
                let mut j: usize = 0;
                while j < schemas.len()
                    invariant
                        j <= schemas@.len(),
                        draft.wf(),
                        draft.declared() == d0.insert(from@),
                        draft.edges() =~= e1.union(
                            Set::new(
                                |e: (NodeKey, NodeKey)|
                                    exists|k: int|
                                        0 <= k < j && e == (
                                            from@,
                                            NodeId::Schema(#[trigger] schemas@[k])@,
                                        ),
                            ),
                        ),
                    decreases schemas@.len() - j,
                {
                    draft.depend(from.duplicate(), NodeId::Schema(schemas[j].duplicate()));
                    j = j + 1;
                }
            },
        }
        assert(draft.declared() =~= d0.union(self.declares(scope@)));
        assert(draft.edges() =~= e0.union(self.needs(scope@)));
    }
}

impl Dependent for Subscription {
    open spec fn declares(&self, scope: ScopeModel) -> Set<NodeKey> {
        set![NodeId::Subscription(self.name)@]
    }

    open spec fn needs(&self, scope: ScopeModel) -> EdgeSet {
        Set::empty()
    }
}

impl CatalogObject for Subscription {
    fn register(&self, scope: &Scope, draft: &mut Draft) {
        let ghost d0 = draft.declared();
        let ghost e0 = draft.edges();
        draft.declare(NodeId::Subscription(self.name.duplicate()));
        assert(draft.declared() =~= d0.union(self.declares(scope@)));
        assert(draft.edges() =~= e0.union(self.needs(scope@)));
    }
}

impl Dependent for Statistic {
    open spec fn declares(&self, scope: ScopeModel) -> Set<NodeKey> {
        set![NodeId::Statistic(self.qname)@]
    }

    open spec fn needs(&self, scope: ScopeModel) -> EdgeSet {
        set![(NodeId::Statistic(self.qname)@, NodeId::Table(self.target)@)]
    }
}

impl CatalogObject for Statistic {
    fn register(&self, scope: &Scope, draft: &mut Draft) {
        let ghost d0 = draft.declared();
        let ghost e0 = draft.edges();
        let from = NodeId::Statistic(self.qname.duplicate());
        draft.declare(from.duplicate());
        draft.depend(from, NodeId::Table(self.target.duplicate()));
        assert(draft.declared() =~= d0.union(self.declares(scope@)));
        assert(draft.edges() =~= e0.union(self.needs(scope@)));
    }
}

impl Dependent for Collation {
    open spec fn declares(&self, scope: ScopeModel) -> Set<NodeKey> {
        set![NodeId::Collation(self.qname)@]
    }

    open spec fn needs(&self, scope: ScopeModel) -> EdgeSet {
        set![(NodeId::Collation(self.qname)@, NodeId::Schema(self.qname.schema)@)]
    }
}

impl CatalogObject for Collation {
    fn register(&self, scope: &Scope, draft: &mut Draft) {
        let ghost d0 = draft.declared();
        let ghost e0 = draft.edges();
        let from = NodeId::Collation(self.qname.duplicate());
        draft.declare(from.duplicate());
        draft.depend(from, NodeId::Schema(self.qname.schema.duplicate()));
        assert(draft.declared() =~= d0.union(self.declares(scope@)));
        assert(draft.edges() =~= e0.union(self.needs(scope@)));
    }
}

} // verus!
