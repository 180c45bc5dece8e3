//! Cycles that bodies close: view `a` queries view `b`, which queries view
//! `a`.
//!
//! No rule breaks such a cycle, so it is reported node by node, in the order
//! in which a walk along the dependencies meets them.

use crate::ir::catalog::Catalog;
use crate::ir::function::{Function, Procedure};
use crate::ir::view::{MaterializedView, ViewDefinition};
use crate::model::{models, Duplicate};
use crate::plan::edges::{
    catalog_graph, dependency_edges, DepEdge, NodeId, NodeKey,
};
use crate::plan::graph::{
    is_next_step, is_shortest_way, pair_before, pair_models, pairs_ascending, steps_well, Graph,
    GraphModel, Ranked,
};
use crate::plan::object_edges::{
    all_need, body_edges, depend_on_body, Draft, EdgeSet, ScopeModel,
};
use vstd::prelude::*;

verus! {

/// An object whose body refers to other objects.
pub trait Bodied {
    /// The edges that the body records.
    spec fn recorded(&self) -> Seq<DepEdge>;

    /// The edges that the body records.
    fn body(&self) -> (deps: &Vec<DepEdge>)
        ensures
            deps@ == self.recorded(),
    ;
}

impl Bodied for ViewDefinition {
    open spec fn recorded(&self) -> Seq<DepEdge> {
        self.body_dependencies@
    }

    fn body(&self) -> (deps: &Vec<DepEdge>) {
        &self.body_dependencies
    }
}

impl Bodied for MaterializedView {
    open spec fn recorded(&self) -> Seq<DepEdge> {
        self.body_dependencies@
    }

    fn body(&self) -> (deps: &Vec<DepEdge>) {
        &self.body_dependencies
    }
}

impl Bodied for Function {
    open spec fn recorded(&self) -> Seq<DepEdge> {
        self.body_dependencies@
    }

    fn body(&self) -> (deps: &Vec<DepEdge>) {
        &self.body_dependencies
    }
}

impl Bodied for Procedure {
    open spec fn recorded(&self) -> Seq<DepEdge> {
        self.body_dependencies@
    }

    fn body(&self) -> (deps: &Vec<DepEdge>) {
        &self.body_dependencies
    }
}

/// The edges that the bodies of a list of objects record.
pub open spec fn all_recorded<T: Bodied>(list: Seq<T>) -> EdgeSet {
    Set::new(
        |e: (NodeKey, NodeKey)|
            exists|i: int|
                0 <= i < list.len() && body_edges((#[trigger] list[i]).recorded()).contains(e),
    )
}

/// The edges that the bodies of a catalog record.
pub open spec fn body_dependency_edges(c: Catalog) -> EdgeSet {
    all_recorded(c.views@).union(all_recorded(c.materialized_views@)).union(
        all_recorded(c.functions@),
    ).union(all_recorded(c.procedures@))
}

/// The edge `e` is part of a cycle: what it leads to leads back.
pub open spec fn closes_cycle<V>(g: GraphModel<V>, e: (V, V)) -> bool {
    g.edges.contains(e) && (e.0 == e.1 || g.reaches(e.1, e.0))
}

/// A body of `c` closes a cycle in `g`.
pub open spec fn has_body_cycle(c: Catalog, g: GraphModel<NodeKey>) -> bool {
    exists|e: (NodeKey, NodeKey)| #[trigger]
        body_dependency_edges(c).contains(e) && closes_cycle(g, e)
}

/// `e` is the first edge, by its ends, with which a body of `c` closes a
/// cycle in `g`.
pub open spec fn is_first_closing(
    c: Catalog,
    g: GraphModel<NodeKey>,
    e: (NodeKey, NodeKey),
) -> bool {
    &&& body_dependency_edges(c).contains(e)
    &&& closes_cycle(g, e)
    &&& forall|f: (NodeKey, NodeKey)| #[trigger]
        body_dependency_edges(c).contains(f) && closes_cycle(g, f) ==> f == e || pair_before::<
            NodeId,
        >(e, f)
}

/// The nodes of a cycle from its second node round to its first.
pub open spec fn way_back<V>(nodes: Seq<V>) -> Seq<V> {
    nodes.drop_first().push(nodes[0])
}

/// `nodes` is the cycle that the first closing edge starts: the edge leads
/// from the first node to the second, and the shortest way leads back.
pub open spec fn is_body_cycle(
    c: Catalog,
    g: GraphModel<NodeKey>,
    nodes: Seq<NodeKey>,
) -> bool {
    &&& nodes.len() > 0
    &&& is_first_closing(c, g, (nodes[0], way_back(nodes)[0]))
    &&& is_shortest_way::<NodeId>(g, way_back(nodes))
}

/// Adds the edges that the bodies of a list of objects record.
fn depend_on_bodies<T: Bodied>(draft: &mut Draft, list: &Vec<T>)
    requires
        old(draft).wf(),
    ensures
        final(draft).wf(),
        final(draft).declared() == old(draft).declared(),
        final(draft).edges() =~= old(draft).edges().union(all_recorded(list@)),
{
    let ghost d0 = draft.declared();
    let ghost e0 = draft.edges();
    let mut i: usize = 0;
    assert(all_recorded(list@.take(0)) =~= Set::empty());
    assert(draft.edges() =~= e0.union(all_recorded(list@.take(0))));
    while i < list.len()
        invariant
            i <= list@.len(),
            draft.wf(),
            draft.declared() == d0,
            draft.edges() =~= e0.union(all_recorded(list@.take(i as int))),
        decreases list@.len() - i,
    {
        depend_on_body(draft, list[i].body());
        proof {
            let a = list@.take(i as int);
            let b = list@.take(i + 1);
            assert forall|e: (NodeKey, NodeKey)| #[trigger] all_recorded(b).contains(e)
                <==> all_recorded(a).contains(e) || body_edges(
                list@[i as int].recorded(),
            ).contains(e) by {
                if all_recorded(b).contains(e) {
                    let k = choose|k: int|
                        0 <= k < b.len() && body_edges((#[trigger] b[k]).recorded()).contains(e);
                    if k < i {
                        assert(a[k] == b[k]);
                    }
                }
                if all_recorded(a).contains(e) {
                    let k = choose|k: int|
                        0 <= k < a.len() && body_edges((#[trigger] a[k]).recorded()).contains(e);
                    assert(b[k] == a[k]);
                }
                assert(b[i as int] == list@[i as int]);
            }
        }
        i = i + 1;
    }
    assert(list@.take(i as int) =~= list@);
}

/// What bodies record is part of the dependency graph.
pub proof fn law_bodies_are_in_the_graph(c: Catalog, cycle: Seq<NodeKey>)
    ensures
        body_dependency_edges(c).subset_of(catalog_graph(c, cycle).edges),
{
    let scope = ScopeModel { catalog: c, cycle };
    assert forall|e: (NodeKey, NodeKey)| #[trigger] body_dependency_edges(c).contains(
        e,
    ) implies dependency_edges(scope).contains(e) by {
        if all_recorded(c.views@).contains(e) {
            let i = choose|i: int|
                0 <= i < c.views@.len() && body_edges((#[trigger] c.views@[i]).recorded()).contains(
                    e,
                );
            assert(all_need(c.views@, scope).contains(e));
        } else if all_recorded(c.materialized_views@).contains(e) {
            let i = choose|i: int|
                0 <= i < c.materialized_views@.len() && body_edges(
                    (#[trigger] c.materialized_views@[i]).recorded(),
                ).contains(e);
            assert(all_need(c.materialized_views@, scope).contains(e));
        } else if all_recorded(c.functions@).contains(e) {
            let i = choose|i: int|
                0 <= i < c.functions@.len() && body_edges(
                    (#[trigger] c.functions@[i]).recorded(),
                ).contains(e);
            assert(all_need(c.functions@, scope).contains(e));
        } else {
            let i = choose|i: int|
                0 <= i < c.procedures@.len() && body_edges(
                    (#[trigger] c.procedures@[i]).recorded(),
                ).contains(e);
            assert(all_need(c.procedures@, scope).contains(e));
        }
    }
}

/// Finds a cycle that the bodies of `catalog` close in a graph that holds
/// their edges.
pub fn find_body_cycle(catalog: &Catalog, graph: &Graph<NodeId>) -> (found: Option<Vec<NodeId>>)
    requires
        graph.wf(),
        body_dependency_edges(*catalog).subset_of(graph@.edges),
    ensures
        match found {
            Some(nodes) => is_body_cycle(*catalog, graph@, models(nodes@)),
            None => !has_body_cycle(*catalog, graph@),
        },
{
    let ghost body = body_dependency_edges(*catalog);
    let mut draft = Draft::new();
    depend_on_bodies(&mut draft, &catalog.views);
    depend_on_bodies(&mut draft, &catalog.materialized_views);
    depend_on_bodies(&mut draft, &catalog.functions);
    depend_on_bodies(&mut draft, &catalog.procedures);
    assert(draft.edges() =~= body);
    let bodies = draft.finish();
    let pairs = bodies.edges();
    let ghost list = pair_models(pairs@);
    let mut i: usize = 0;
    while i < pairs.len()
        invariant
            graph.wf(),
            body == body_dependency_edges(*catalog),
            body.subset_of(graph@.edges),
            i <= pairs@.len(),
            list == pair_models(pairs@),
            pairs_ascending::<NodeId>(list),
            list.to_set() =~= body,
            forall|k: int| 0 <= k < i ==> !closes_cycle(graph@, #[trigger] list[k]),
        decreases pairs@.len() - i,
    {
        let pair = pairs[i];
        let ghost e = (pair.0@, pair.1@);
        assert(list[i as int] == e);
        assert(list.to_set().contains(e));
        match graph.shortest_way(pair.1, pair.0) {
            None => {
                assert(!closes_cycle(graph@, list[i as int]));
            },
            Some(back) => {
                let mut way = back;
                let ghost walk = models(way@);
                let _last = way.pop();
                way.insert(0, pair.0.duplicate());
                proof {
                    let nodes = models(way@);
                    assert(nodes =~= seq![e.0] + walk.drop_last());
                    assert(way_back(nodes) =~= walk);
                    lemma_way_leads(graph@, walk);
                    assert(closes_cycle(graph@, e));
                    assert forall|f: (NodeKey, NodeKey)| #[trigger]
                        body.contains(f) && closes_cycle(graph@, f) implies f == e || pair_before::<
                        NodeId,
                    >(e, f) by {
                        assert(list.to_set().contains(f));
                        let k = choose|k: int| 0 <= k < list.len() && list[k] == f;
                        assert(k >= i);
                    }
                }
                return Some(way);
            },
        }
        i = i + 1;
    }
    proof {
        assert forall|e: (NodeKey, NodeKey)| #[trigger] body.contains(e) implies !closes_cycle(
            graph@,
            e,
        ) by {
            assert(list.to_set().contains(e));
            let k = choose|k: int| 0 <= k < list.len() && list[k] == e;
        }
    }
    None
}

/// A shortest way follows the edges.
proof fn lemma_way_leads(g: GraphModel<NodeKey>, way: Seq<NodeKey>)
    requires
        is_shortest_way::<NodeId>(g, way),
    ensures
        g.is_walk(way),
        way.len() == 1 || g.reaches(way[0], way.last()),
{
    assert forall|i: int| 0 <= i < way.len() - 1 implies #[trigger] g.follows(way, i) by {
        assert(steps_well::<NodeId>(g, way, i));
    }
    assert(g.is_walk(way));
}

/// A reported cycle is one: each of its nodes depends on the next, the last
/// one on the first, and each of them participates in a cycle.
pub proof fn law_body_cycle_is_a_cycle(c: Catalog, g: GraphModel<NodeKey>, nodes: Seq<NodeKey>)
    requires
        is_body_cycle(c, g, nodes),
    ensures
        g.is_walk(nodes.push(nodes[0])),
        forall|i: int| 0 <= i < nodes.len() ==> g.on_cycle(#[trigger] nodes[i]),
        has_body_cycle(c, g),
{
    let back = way_back(nodes);
    lemma_way_leads(g, back);
    let round = nodes.push(nodes[0]);
    assert(round =~= seq![nodes[0]] + back);
    assert(body_dependency_edges(c).contains((nodes[0], back[0])));
    assert forall|i: int| 0 <= i < round.len() - 1 implies #[trigger] g.follows(round, i) by {
        if i > 0 {
            assert(g.follows(back, i - 1));
        }
    }
    assert forall|i: int| 0 <= i < nodes.len() implies g.on_cycle(#[trigger] nodes[i]) by {
        let walk = round.skip(i) + nodes.subrange(1, i + 1);
        if i == 0 {
            assert(walk =~= round);
        }
        assert forall|k: int| 0 <= k < walk.len() - 1 implies #[trigger] g.follows(walk, k) by {
            let n = nodes.len() as int;
            if i + k < n {
                assert(g.follows(round, i + k));
                assert(walk[k] == round[i + k]);
                assert(walk[k + 1] == round[i + k + 1]);
            } else {
                let m = i + k - n;
                assert(g.follows(round, m));
                if m == 0 {
                    assert(walk[k] == nodes[0]);
                } else {
                    assert(walk[k] == nodes[m]);
                }
                assert(walk[k + 1] == nodes[m + 1]);
            }
        }
        assert(g.is_walk(walk));
        assert(walk[0] == nodes[i] && walk.last() == nodes[i]);
        assert(walk.len() >= 2);
    }
}

/// Which cycle is reported is determined by the catalog and the graph.
pub proof fn law_body_cycle_is_unique(
    c: Catalog,
    g: GraphModel<NodeKey>,
    first: Seq<NodeKey>,
    second: Seq<NodeKey>,
)
    requires
        is_body_cycle(c, g, first),
        is_body_cycle(c, g, second),
    ensures
        first == second,
{
    NodeId::before_is_strict_total();
    let a = way_back(first);
    let b = way_back(second);
    let e = (first[0], a[0]);
    let f = (second[0], b[0]);
    assert(body_dependency_edges(c).contains(e) && body_dependency_edges(c).contains(f));
    assert(e == f);
    lemma_shortest_way_length(g, a);
    lemma_shortest_way_length(g, b);
    assert(a.len() == b.len());
    lemma_ways_agree(g, a, b, a.len() as int);
    assert(a =~= b);
    assert(first =~= seq![first[0]] + a.drop_last());
    assert(second =~= seq![second[0]] + b.drop_last());
}

/// A shortest way over edges counts them.
proof fn lemma_shortest_way_length(g: GraphModel<NodeKey>, way: Seq<NodeKey>)
    requires
        is_shortest_way::<NodeId>(g, way),
    ensures
        g.leads(way[0], way.last(), (way.len() - 1) as nat),
{
    if way.len() > 1 {
        assert(steps_well::<NodeId>(g, way, 0));
        assert(g.edges.contains((way[0], way[1])));
        assert(g.leads(way[1], way.last(), (way.len() - 2) as nat));
    }
}

/// Two shortest ways between the same nodes take the same steps.
proof fn lemma_ways_agree(g: GraphModel<NodeKey>, a: Seq<NodeKey>, b: Seq<NodeKey>, upto: int)
    requires
        is_shortest_way::<NodeId>(g, a),
        is_shortest_way::<NodeId>(g, b),
        a.len() == b.len(),
        a[0] == b[0],
        a.last() == b.last(),
        0 <= upto <= a.len(),
    ensures
        forall|i: int| 0 <= i < upto ==> a[i] == b[i],
    decreases upto,
{
    if upto > 1 {
        lemma_ways_agree(g, a, b, upto - 1);
        NodeId::before_is_strict_total();
        let i = upto - 2;
        assert(steps_well::<NodeId>(g, a, i) && steps_well::<NodeId>(g, b, i));
        let n = (a.len() - 2 - i) as nat;
        assert(is_next_step::<NodeId>(g, a[i], a[i + 1], a.last(), n));
        assert(is_next_step::<NodeId>(g, a[i], b[i + 1], a.last(), n));
        assert(g.edges.contains((a[i], b[i + 1])) && g.edges.contains((a[i], a[i + 1])));
        assert(a[i + 1] == b[i + 1]);
    }
}

} // verus!
