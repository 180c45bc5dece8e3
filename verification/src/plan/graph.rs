//! Directed graph and topological sort over ordered node identifiers.
//!
//! Edge direction convention: `A -> B` means **`A` depends on `B`**. A
//! topological order therefore visits dependencies before their dependents,
//! which is what creation order requires.
//!
//! The sort is deterministic: when several nodes are eligible at once, the
//! smallest one comes first, so graphs with equal models sort to equal output.

use crate::identifier::{QnameModel, QualifiedName};
use crate::model::{models, Duplicate};
use crate::order::{
    char_lt, compare_text, compare_texts, lemma_text_strict_total, lemma_texts_strict_total, lex_by,
    text_lt, texts_lt, Placement,
};
use crate::plan::walks::{
    is_layout, lemma_blocked_has_cycle, lemma_push_contains, lemma_reached_are_nodes, named,
    points_at, reached_rows, shortest_rows,
};
use vstd::prelude::*;

verus! {

/// Values whose models are strictly and totally ordered.
pub trait Ranked: View {
    /// Model `a` comes before model `b`.
    spec fn before(a: Self::V, b: Self::V) -> bool;

    /// [`Ranked::before`] is a strict total order.
    proof fn before_is_strict_total()
        ensures
            forall|a: Self::V| !#[trigger] Self::before(a, a),
            forall|a: Self::V, b: Self::V, c: Self::V| #[trigger]
                Self::before(a, b) && #[trigger] Self::before(b, c) ==> Self::before(a, c),
            forall|a: Self::V, b: Self::V|
                a != b ==> #[trigger] Self::before(a, b) || Self::before(b, a),
    ;
}

/// A value that can stand as a node: it can be compared and duplicated by its
/// model.
pub trait GraphNode: Ranked + Duplicate {
    /// Decides how the two models are placed.
    fn compare(&self, other: &Self) -> (placement: Placement)
        ensures
            placement is Same <==> self@ == other@,
            placement is Before ==> Self::before(self@, other@),
            placement is After ==> Self::before(other@, self@),
    ;
}

impl Ranked for i32 {
    open spec fn before(a: i32, b: i32) -> bool {
        a < b
    }

    proof fn before_is_strict_total() {
    }
}

impl GraphNode for i32 {
    fn compare(&self, other: &i32) -> (placement: Placement) {
        if *self < *other {
            Placement::Before
        } else if *self == *other {
            Placement::Same
        } else {
            Placement::After
        }
    }
}

impl<'a> Ranked for &'a str {
    open spec fn before(a: Seq<char>, b: Seq<char>) -> bool {
        text_lt(a, b)
    }

    proof fn before_is_strict_total() {
        lemma_text_strict_total();
        let l = lex_by(char_lt());
        assert forall|a: Seq<char>| !#[trigger] Self::before(a, a) by {
            assert(!l(a, a));
        }
        assert forall|a: Seq<char>, b: Seq<char>, c: Seq<char>| #[trigger]
            Self::before(a, b) && #[trigger] Self::before(b, c) implies Self::before(a, c) by {
            assert(l(a, b) && l(b, c));
        }
        assert forall|a: Seq<char>, b: Seq<char>| a != b implies #[trigger] Self::before(a, b)
            || Self::before(b, a) by {
            assert(l(a, b) || l(b, a));
        }
    }
}

impl<'a> GraphNode for &'a str {
    fn compare(&self, other: &&'a str) -> (placement: Placement) {
        proof {
            Self::before_is_strict_total();
        }
        compare_text(*self, *other)
    }
}

impl Ranked for QualifiedName {
    open spec fn before(a: QnameModel, b: QnameModel) -> bool {
        texts_lt(a.parts(), b.parts())
    }

    proof fn before_is_strict_total() {
        lemma_texts_strict_total();
        let l = lex_by(lex_by(char_lt()));
        assert forall|a: QnameModel| !#[trigger] Self::before(a, a) by {
            assert(!l(a.parts(), a.parts()));
        }
        assert forall|a: QnameModel, b: QnameModel, c: QnameModel| #[trigger]
            Self::before(a, b) && #[trigger] Self::before(b, c) implies Self::before(a, c) by {
            assert(l(a.parts(), b.parts()) && l(b.parts(), c.parts()));
        }
        assert forall|a: QnameModel, b: QnameModel| a != b implies #[trigger] Self::before(a, b)
            || Self::before(b, a) by {
            assert(a.parts()[0] == a.schema && a.parts()[1] == a.name);
            assert(b.parts()[0] == b.schema && b.parts()[1] == b.name);
            assert(a.parts() != b.parts());
            assert(l(a.parts(), b.parts()) || l(b.parts(), a.parts()));
        }
    }
}

impl GraphNode for QualifiedName {
    fn compare(&self, other: &QualifiedName) -> (placement: Placement) {
        let mut a: Vec<&str> = Vec::new();
        a.push(self.schema.as_str());
        a.push(self.name.as_str());
        let mut b: Vec<&str> = Vec::new();
        b.push(other.schema.as_str());
        b.push(other.name.as_str());
        proof {
            Self::before_is_strict_total();
            assert(models(a@) =~= self@.parts());
            assert(models(b@) =~= other@.parts());
            assert(self@.parts()[0] == self@.schema && self@.parts()[1] == self@.name);
            assert(other@.parts()[0] == other@.schema && other@.parts()[1] == other@.name);
        }
        compare_texts(&a, &b)
    }
}

/// Strictly ascending, so also free of duplicates.
pub open spec fn ascending<N: Ranked>(list: Seq<N::V>) -> bool {
    forall|i: int, j: int| 0 <= i < j < list.len() ==> N::before(#[trigger] list[i], #[trigger] list[j])
}

/// The mathematical graph: a set of nodes and a set of `(from, to)` edges.
#[verifier::ext_equal]
#[verifier::reject_recursive_types(V)]
pub struct GraphModel<V> {
    /// The nodes.
    pub nodes: Set<V>,
    /// The pairs `(from, to)` such that `from` depends on `to`.
    pub edges: Set<(V, V)>,
}

impl<V> GraphModel<V> {
    /// No nodes, no edges.
    pub open spec fn empty() -> GraphModel<V> {
        GraphModel { nodes: Set::empty(), edges: Set::empty() }
    }

    /// With one more node.
    pub open spec fn with_node(self, n: V) -> GraphModel<V> {
        GraphModel { nodes: self.nodes.insert(n), edges: self.edges }
    }

    /// With one more edge, and its endpoints.
    pub open spec fn with_edge(self, from: V, to: V) -> GraphModel<V> {
        GraphModel {
            nodes: self.nodes.insert(from).insert(to),
            edges: self.edges.insert((from, to)),
        }
    }

    /// With one edge taken out; its endpoints stay.
    pub open spec fn without_edge(self, from: V, to: V) -> GraphModel<V> {
        GraphModel { nodes: self.nodes, edges: self.edges.remove((from, to)) }
    }

    /// Every endpoint is a node.
    pub open spec fn closed_under_edges(self) -> bool {
        forall|a: V, b: V| #[trigger]
            self.edges.contains((a, b)) ==> self.nodes.contains(a) && self.nodes.contains(b)
    }

    /// Once the nodes in `done` are placed, `n` can be placed: it is not
    /// placed yet and everything it depends on is.
    pub open spec fn ready(self, done: Set<V>, n: V) -> bool {
        &&& self.nodes.contains(n)
        &&& !done.contains(n)
        &&& forall|d: V| #[trigger] self.edges.contains((n, d)) ==> done.contains(d)
    }

    /// The node at `i` depends on the one after it.
    pub open spec fn follows(self, walk: Seq<V>, i: int) -> bool {
        self.edges.contains((walk[i], walk[i + 1]))
    }

    /// `walk` follows the edges: each of its nodes depends on the next.
    pub open spec fn is_walk(self, walk: Seq<V>) -> bool {
        forall|i: int| 0 <= i < walk.len() - 1 ==> #[trigger] self.follows(walk, i)
    }

    /// `from` depends on `to`, directly or through others.
    pub open spec fn reaches(self, from: V, to: V) -> bool {
        exists|walk: Seq<V>|
            #![trigger self.is_walk(walk)]
            walk.len() >= 2 && walk[0] == from && walk.last() == to && self.is_walk(walk)
    }

    /// `n` participates in at least one cycle.
    pub open spec fn on_cycle(self, n: V) -> bool {
        self.reaches(n, n)
    }

    /// A walk over `n` edges leads from `from` to `to`.
    pub open spec fn leads(self, from: V, to: V, n: nat) -> bool
        decreases n,
    {
        if n == 0 {
            from == to
        } else {
            exists|d: V| #[trigger]
                self.edges.contains((from, d)) && self.leads(d, to, (n - 1) as nat)
        }
    }

    /// Every node of `s` depends on a node of `s`: none of them can ever be
    /// placed before all the others.
    pub open spec fn blocked(self, s: Set<V>) -> bool {
        &&& s.subset_of(self.nodes)
        &&& forall|n: V| s.contains(n) ==> #[trigger] self.waits_in(s, n)
    }

    /// `n` depends on a node of `s`.
    pub open spec fn waits_in(self, s: Set<V>, n: V) -> bool {
        exists|d: V| s.contains(d) && #[trigger] self.edges.contains((n, d))
    }
}

/// `n` is the smallest node that can be placed after the nodes in `done`.
pub open spec fn smallest_ready<N: Ranked>(
    g: GraphModel<N::V>,
    done: Set<N::V>,
    n: N::V,
) -> bool {
    &&& g.ready(done, n)
    &&& forall|m: N::V| #[trigger] g.ready(done, m) ==> m == n || N::before(n, m)
}

/// Each node of `order` is the smallest one that could stand at its place.
pub open spec fn greedy<N: Ranked>(g: GraphModel<N::V>, order: Seq<N::V>) -> bool {
    forall|i: int|
        0 <= i < order.len() ==> smallest_ready::<N>(g, order.take(i).to_set(), #[trigger] order[i])
}

/// `order` is the topological order of `g`: greedy and complete.
pub open spec fn is_topological_order<N: Ranked>(
    g: GraphModel<N::V>,
    order: Seq<N::V>,
) -> bool {
    &&& greedy::<N>(g, order)
    &&& order.to_set() =~= g.nodes
}

/// `list` holds, in ascending order, exactly the nodes that participate in at
/// least one cycle, and there are such nodes.
pub open spec fn is_cycle_list<N: Ranked>(g: GraphModel<N::V>, list: Seq<N::V>) -> bool {
    &&& list.len() > 0
    &&& ascending::<N>(list)
    &&& forall|n: N::V| #[trigger] list.contains(n) <==> g.on_cycle(n)
}

/// `next` is the smallest node that `at` depends on and from which a walk
/// over `n` edges leads to `to`.
pub open spec fn is_next_step<N: Ranked>(
    g: GraphModel<N::V>,
    at: N::V,
    next: N::V,
    to: N::V,
    n: nat,
) -> bool {
    &&& g.edges.contains((at, next))
    &&& g.leads(next, to, n)
    &&& forall|d: N::V| #[trigger]
        g.edges.contains((at, d)) && g.leads(d, to, n) ==> d == next || N::before(next, d)
}

/// `way` is the shortest walk from its first node to its last; of several, the
/// one that takes the smallest node at each step.
pub open spec fn is_shortest_way<N: Ranked>(g: GraphModel<N::V>, way: Seq<N::V>) -> bool {
    &&& way.len() > 0
    &&& forall|m: nat| m < way.len() - 1 ==> !#[trigger] g.leads(way[0], way.last(), m)
    &&& forall|i: int| 0 <= i < way.len() - 1 ==> #[trigger] steps_well::<N>(g, way, i)
}

/// The walk `way` takes the best step at `i` towards its last node.
pub open spec fn steps_well<N: Ranked>(g: GraphModel<N::V>, way: Seq<N::V>, i: int) -> bool {
    is_next_step::<N>(g, way[i], way[i + 1], way.last(), (way.len() - 2 - i) as nat)
}

/// `list` names every node: first, greedily, those that can be placed, then
/// those that wait for one another, ascending.
pub open spec fn is_best_order<N: Ranked>(g: GraphModel<N::V>, list: Seq<N::V>) -> bool {
    exists|k: int| #[trigger] splits_at::<N>(g, list, k)
}

/// The first `k` nodes of `list` are placed greedily and no other node can
/// be; the others follow, ascending.
pub open spec fn splits_at<N: Ranked>(g: GraphModel<N::V>, list: Seq<N::V>, k: int) -> bool {
    &&& 0 <= k <= list.len()
    &&& greedy::<N>(g, list.take(k))
    &&& forall|n: N::V| !#[trigger] g.ready(list.take(k).to_set(), n)
    &&& ascending::<N>(list.skip(k))
    &&& list.skip(k).to_set() =~= g.nodes.difference(list.take(k).to_set())
}

/// A directed graph over nodes of type `N`.
#[derive(Debug, Clone)]
pub struct Graph<N> {
    /// Ascending.
    nodes: Vec<N>,
    /// `deps[i]` lists what `nodes[i]` depends on, ascending.
    deps: Vec<Vec<N>>,
}

/// A cycle reported by [`Graph::topological_sort`] and
/// [`Graph::reverse_topological_sort`].
#[derive(Debug, Clone, PartialEq, Eq)]
pub struct Cycle<N> {
    /// Nodes that participate in at least one cycle, in ascending order.
    pub nodes: Vec<N>,
}

impl<N: View> View for Graph<N> {
    type V = GraphModel<N::V>;

    closed spec fn view(&self) -> GraphModel<N::V> {
        GraphModel {
            nodes: models(self.nodes@).to_set(),
            edges: Set::new(
                |e: (N::V, N::V)|
                    exists|i: int|
                        0 <= i < self.nodes@.len() && #[trigger] self.nodes@[i]@ == e.0
                            && models(self.deps@[i]@).contains(e.1),
            ),
        }
    }
}

/// Finds where `n` stands in an ascending list, or where it would be
/// inserted.
fn locate<N: GraphNode>(list: &Vec<N>, n: &N) -> (r: (usize, bool))
    requires
        ascending::<N>(models(list@)),
    ensures
        r.0 <= list@.len(),
        r.1 == models(list@).contains(n@),
        r.1 ==> r.0 < list@.len() && list@[r.0 as int]@ == n@,
        forall|i: int| 0 <= i < r.0 ==> N::before(#[trigger] list@[i]@, n@),
        !r.1 ==> forall|i: int| r.0 <= i < list@.len() ==> N::before(n@, #[trigger] list@[i]@),
{
    proof {
        N::before_is_strict_total();
    }
    let mut k: usize = 0;
    while k < list.len()
        invariant
            k <= list@.len(),
            ascending::<N>(models(list@)),
            forall|i: int| 0 <= i < k ==> N::before(#[trigger] list@[i]@, n@),
        decreases list@.len() - k,
    {
        match list[k].compare(n) {
            Placement::Before => {
                k = k + 1;
            },
            Placement::Same => {
                assert(models(list@)[k as int] == n@);
                return (k, true);
            },
            Placement::After => {
                proof {
                    N::before_is_strict_total();
                    let m = models(list@);
                    assert(N::before(n@, list@[k as int]@));
                    assert forall|i: int| k <= i < list@.len() implies N::before(
                        n@,
                        #[trigger] list@[i]@,
                    ) by {
                        if i > k {
                            assert(N::before(m[k as int], m[i]));
                        }
                    }
                    assert forall|i: int| 0 <= i < m.len() implies m[i] != n@ by {
                        assert(m[i] == list@[i]@);
                    }
                }
                return (k, false);
            },
        }
    }
    proof {
        N::before_is_strict_total();
        let m = models(list@);
        assert forall|i: int| 0 <= i < m.len() implies m[i] != n@ by {
            assert(m[i] == list@[i]@);
        }
    }
    (k, false)
}

/// Inserting at the place found by [`locate`] keeps a list ascending.
proof fn lemma_insert_ascending<N: Ranked>(list: Seq<N>, at: int, n: N)
    requires
        ascending::<N>(models(list)),
        0 <= at <= list.len(),
        forall|i: int| 0 <= i < at ==> N::before(#[trigger] list[i]@, n@),
        forall|i: int| at <= i < list.len() ==> N::before(n@, #[trigger] list[i]@),
    ensures
        ascending::<N>(models(list.insert(at, n))),
        models(list.insert(at, n)).to_set() =~= models(list).to_set().insert(n@),
        forall|v: N::V| #[trigger]
            models(list.insert(at, n)).contains(v) <==> v == n@ || models(list).contains(v),
{
    let m = models(list);
    let w = models(list.insert(at, n));
    assert forall|i: int, j: int| 0 <= i < j < w.len() implies N::before(
        #[trigger] w[i],
        #[trigger] w[j],
    ) by {
        let oi = if i < at { i } else { i - 1 };
        let oj = if j < at { j } else { j - 1 };
        if i != at {
            assert(w[i] == list[oi]@);
        }
        if j != at {
            assert(w[j] == list[oj]@);
        }
        if i != at && j != at {
            assert(m[oi] == list[oi]@ && m[oj] == list[oj]@);
        }
    }
    assert forall|v: N::V| #[trigger] w.contains(v) <==> v == n@ || m.contains(v) by {
        if w.contains(v) {
            let k = choose|k: int| 0 <= k < w.len() && w[k] == v;
            if k < at {
                assert(m[k] == v);
            } else if k > at {
                assert(m[k - 1] == v);
            }
        }
        if m.contains(v) {
            let k = choose|k: int| 0 <= k < m.len() && m[k] == v;
            if k < at {
                assert(w[k] == v);
            } else {
                assert(w[k + 1] == v);
            }
        }
        if v == n@ {
            assert(w[at] == v);
        }
    }
}

/// Inserts a value into an ascending list. No-op if already present.
pub fn insert_ascending<N: GraphNode>(list: &mut Vec<N>, n: N)
    requires
        ascending::<N>(models(old(list)@)),
    ensures
        ascending::<N>(models(final(list)@)),
        models(final(list)@).to_set() =~= models(old(list)@).to_set().insert(n@),
{
    let ghost before = list@;
    let at = locate(list, &n);
    if at.1 {
        assert(models(list@).to_set().contains(n@));
        return;
    }
    let pos: usize = at.0;
    list.insert(pos, n);
    proof {
        lemma_insert_ascending::<N>(before, pos as int, n);
    }
}

/// In an ascending list a model stands once.
proof fn lemma_ascending_unique<N: Ranked>(list: Seq<N::V>, i: int, j: int)
    requires
        ascending::<N>(list),
        0 <= i < list.len(),
        0 <= j < list.len(),
        list[i] == list[j],
    ensures
        i == j,
{
    N::before_is_strict_total();
    if i < j {
        assert(N::before(list[i], list[j]));
    } else if j < i {
        assert(N::before(list[j], list[i]));
    }
}

impl<N: Ranked> Graph<N> {
    /// The representation invariant.
    pub closed spec fn wf(&self) -> bool {
        &&& self.nodes@.len() == self.deps@.len()
        &&& ascending::<N>(models(self.nodes@))
        &&& forall|i: int|
            0 <= i < self.deps@.len() ==> ascending::<N>(models(#[trigger] self.deps@[i]@))
        &&& forall|i: int, v: N::V|
            0 <= i < self.deps@.len() && #[trigger] models(self.deps@[i]@).contains(v)
                ==> models(self.nodes@).contains(v)
    }

    /// `e` is an edge that starts at one of the first `upto` nodes.
    spec fn has_pair_at(&self, upto: int, e: (N::V, N::V)) -> bool {
        exists|i: int|
            0 <= i < upto && #[trigger] self.nodes@[i]@ == e.0 && models(self.deps@[i]@).contains(
                e.1,
            )
    }

    spec fn row_matches(&self, i: int, row: Seq<usize>) -> bool {
        &&& row.len() == self.deps@[i]@.len()
        &&& forall|k: int|
            0 <= k < row.len() ==> (#[trigger] row[k]) < self.nodes@.len()
                && self.nodes@[row[k] as int]@ == self.deps@[i]@[k]@
    }

    spec fn rows_match(&self, rows: Seq<Vec<usize>>) -> bool {
        &&& rows.len() == self.nodes@.len()
        &&& forall|i: int| 0 <= i < rows.len() ==> self.row_matches(i, (#[trigger] rows[i])@)
    }

    spec fn undone_before(&self, done: Seq<bool>, upto: int, v: N::V) -> bool {
        exists|k: int| 0 <= k < upto && !done[k] && #[trigger] self.nodes@[k]@ == v
    }
}

impl<N: GraphNode> Graph<N> {
    /// What `nodes[i]` depends on, read off the model.
    proof fn lemma_edges_at(&self, i: int)
        requires
            self.wf(),
            0 <= i < self.nodes@.len(),
        ensures
            forall|v: N::V| #[trigger]
                self@.edges.contains((self.nodes@[i]@, v)) <==> models(self.deps@[i]@).contains(v),
    {
        assert forall|v: N::V| #[trigger]
            self@.edges.contains((self.nodes@[i]@, v)) <==> models(self.deps@[i]@).contains(v) by {
            if self@.edges.contains((self.nodes@[i]@, v)) {
                let k = choose|k: int|
                    0 <= k < self.nodes@.len() && #[trigger] self.nodes@[k]@ == self.nodes@[i]@
                        && models(self.deps@[k]@).contains(v);
                let m = models(self.nodes@);
                assert(m[k] == m[i]);
                lemma_ascending_unique::<N>(m, k, i);
            }
        }
    }

    /// Construct an empty graph.
    pub fn new() -> (g: Self)
        ensures
            g.wf(),
            g@ == GraphModel::<N::V>::empty(),
    {
        let g: Graph<N> = Graph { nodes: Vec::new(), deps: Vec::new() };
        proof {
            assert(g@ =~= GraphModel::<N::V>::empty());
        }
        g
    }

    /// Add a node. No-op if already present.
    pub fn add_node(&mut self, n: N)
        requires
            old(self).wf(),
        ensures
            final(self).wf(),
            final(self)@ == old(self)@.with_node(n@),
    {
        let ghost before = *self;
        let at = locate(&self.nodes, &n);
        if at.1 {
            proof {
                assert(self@.nodes.contains(n@));
                assert(self@ =~= before@.with_node(n@));
            }
            return;
        }
        let pos: usize = at.0;
        self.nodes.insert(pos, n);
        self.deps.insert(pos, Vec::new());
        proof {
            let p = pos as int;
            lemma_insert_ascending::<N>(before.nodes@, p, n);
            assert(self.nodes@ =~= before.nodes@.insert(p, n));
            assert(models(self.deps@[p]@) =~= Seq::<N::V>::empty());
            assert forall|i: int| 0 <= i < self.deps@.len() implies ascending::<N>(
                models(#[trigger] self.deps@[i]@),
            ) by {
                if i < p {
                    assert(self.deps@[i] == before.deps@[i]);
                } else if i > p {
                    assert(self.deps@[i] == before.deps@[i - 1]);
                }
            }
            assert forall|i: int, v: N::V|
                0 <= i < self.deps@.len() && #[trigger] models(
                    self.deps@[i]@,
                ).contains(v) implies models(self.nodes@).contains(v) by {
                if i < p {
                    assert(self.deps@[i] == before.deps@[i]);
                } else if i > p {
                    assert(self.deps@[i] == before.deps@[i - 1]);
                }
            }
            assert(self.wf());
            let target = before@.with_node(n@);
            assert forall|e: (N::V, N::V)| #[trigger]
                self@.edges.contains(e) <==> target.edges.contains(e) by {
                if self@.edges.contains(e) {
                    let k = choose|k: int|
                        0 <= k < self.nodes@.len() && #[trigger] self.nodes@[k]@ == e.0 && models(
                            self.deps@[k]@,
                        ).contains(e.1);
                    if k < p {
                        assert(before.nodes@[k]@ == e.0);
                    } else if k > p {
                        assert(before.nodes@[k - 1]@ == e.0);
                        assert(self.deps@[k] == before.deps@[k - 1]);
                    }
                }
                if before@.edges.contains(e) {
                    let k = choose|k: int|
                        0 <= k < before.nodes@.len() && #[trigger] before.nodes@[k]@ == e.0
                            && models(before.deps@[k]@).contains(e.1);
                    if k < p {
                        assert(self.nodes@[k]@ == e.0);
                    } else {
                        assert(self.nodes@[k + 1]@ == e.0);
                        assert(self.deps@[k + 1] == before.deps@[k]);
                    }
                }
            }
            assert(self@ =~= target);
        }
    }

    /// Add an edge `from -> to`, meaning `from` depends on `to`.
    /// Both endpoints are added as nodes if not already present.
    pub fn add_edge(&mut self, from: N, to: N)
        requires
            old(self).wf(),
        ensures
            final(self).wf(),
            final(self)@ == old(self)@.with_edge(from@, to@),
    {
        let ghost start = self@;
        self.add_node(from.duplicate());
        self.add_node(to.duplicate());
        let ghost before = *self;
        let at = locate(&self.nodes, &from);
        assert(at.1) by {
            assert(self@.nodes.contains(from@));
        }
        let row: usize = at.0;
        let slot = locate(&self.deps[row], &to);
        proof {
            self.lemma_edges_at(row as int);
        }
        if slot.1 {
            proof {
                assert(self@.edges.contains((from@, to@)));
                assert(self@ =~= start.with_edge(from@, to@));
            }
            return;
        }
        let pos: usize = slot.0;
        self.deps[row].insert(pos, to);
        proof {
            let r = row as int;
            assert(models(before.nodes@).contains(to@)) by {
                assert(before@.nodes.contains(to@));
            }
            lemma_insert_ascending::<N>(before.deps@[r]@, pos as int, to);
            assert(self.deps@[r]@ =~= before.deps@[r]@.insert(pos as int, to));
            assert forall|i: int| 0 <= i < self.deps@.len() implies ascending::<N>(
                models(#[trigger] self.deps@[i]@),
            ) by {
                if i != r {
                    assert(self.deps@[i] == before.deps@[i]);
                }
            }
            assert forall|i: int, v: N::V|
                0 <= i < self.deps@.len() && #[trigger] models(
                    self.deps@[i]@,
                ).contains(v) implies models(self.nodes@).contains(v) by {
                if i != r {
                    assert(self.deps@[i] == before.deps@[i]);
                }
            }
            assert(self.wf());
            let target = start.with_edge(from@, to@);
            assert forall|e: (N::V, N::V)| #[trigger]
                self@.edges.contains(e) <==> target.edges.contains(e) by {
                if self@.edges.contains(e) {
                    let k = choose|k: int|
                        0 <= k < self.nodes@.len() && #[trigger] self.nodes@[k]@ == e.0 && models(
                            self.deps@[k]@,
                        ).contains(e.1);
                    if k != r {
                        assert(self.deps@[k] == before.deps@[k]);
                    }
                    if e != (from@, to@) {
                        assert(before.nodes@[k]@ == e.0);
                        assert(before@.edges.contains(e));
                    }
                }
                if before@.edges.contains(e) {
                    let k = choose|k: int|
                        0 <= k < before.nodes@.len() && #[trigger] before.nodes@[k]@ == e.0
                            && models(before.deps@[k]@).contains(e.1);
                    assert(self.nodes@[k]@ == e.0);
                    if k != r {
                        assert(self.deps@[k] == before.deps@[k]);
                    }
                }
                if e == (from@, to@) {
                    assert(self.nodes@[r]@ == e.0);
                    assert(models(self.deps@[r]@).contains(to@));
                }
            }
            assert(self@ =~= target);
        }
    }

    /// Remove an edge `from -> to`. No-op if absent.
    pub fn remove_edge(&mut self, from: &N, to: &N)
        requires
            old(self).wf(),
        ensures
            final(self).wf(),
            final(self)@ == old(self)@.without_edge(from@, to@),
    {
        let ghost before = *self;
        let at = locate(&self.nodes, from);
        if !at.1 {
            proof {
                assert forall|v: N::V| !#[trigger] self@.edges.contains((from@, v)) by {
                    if self@.edges.contains((from@, v)) {
                        let k = choose|k: int|
                            0 <= k < self.nodes@.len() && #[trigger] self.nodes@[k]@ == from@
                                && models(self.deps@[k]@).contains(v);
                        assert(models(self.nodes@)[k] == from@);
                    }
                }
                assert(self@ =~= before@.without_edge(from@, to@));
            }
            return;
        }
        let row: usize = at.0;
        let slot = locate(&self.deps[row], to);
        proof {
            self.lemma_edges_at(row as int);
        }
        if !slot.1 {
            proof {
                assert(!self@.edges.contains((from@, to@)));
                assert(self@ =~= before@.without_edge(from@, to@));
            }
            return;
        }
        let pos: usize = slot.0;
        self.deps[row].remove(pos);
        proof {
            let r = row as int;
            let p = pos as int;
            let m = models(before.deps@[r]@);
            let w = models(self.deps@[r]@);
            assert(self.deps@[r]@ =~= before.deps@[r]@.remove(p));
            assert forall|i: int| 0 <= i < w.len() implies #[trigger] w[i] == m[if i < p {
                i
            } else {
                i + 1
            }] by {}
            assert(ascending::<N>(w));
            assert forall|v: N::V| #[trigger] w.contains(v) <==> m.contains(v) && v != to@ by {
                if w.contains(v) {
                    let k = choose|k: int| 0 <= k < w.len() && w[k] == v;
                    let o = if k < p { k } else { k + 1 };
                    assert(m[o] == v);
                    if v == to@ {
                        lemma_ascending_unique::<N>(m, o, p);
                    }
                }
                if m.contains(v) && v != to@ {
                    let k = choose|k: int| 0 <= k < m.len() && m[k] == v;
                    assert(m[p] == to@);
                    if k < p {
                        assert(w[k] == v);
                    } else {
                        assert(w[k - 1] == v);
                    }
                }
            }
            assert forall|i: int| 0 <= i < self.deps@.len() implies ascending::<N>(
                models(#[trigger] self.deps@[i]@),
            ) by {
                if i != r {
                    assert(self.deps@[i] == before.deps@[i]);
                }
            }
            assert forall|i: int, v: N::V|
                0 <= i < self.deps@.len() && #[trigger] models(
                    self.deps@[i]@,
                ).contains(v) implies models(self.nodes@).contains(v) by {
                if i != r {
                    assert(self.deps@[i] == before.deps@[i]);
                } else {
                    assert(models(before.deps@[r]@).contains(v));
                }
            }
            assert(self.wf());
            let target = before@.without_edge(from@, to@);
            assert forall|e: (N::V, N::V)| #[trigger]
                self@.edges.contains(e) <==> target.edges.contains(e) by {
                if self@.edges.contains(e) {
                    let k = choose|k: int|
                        0 <= k < self.nodes@.len() && #[trigger] self.nodes@[k]@ == e.0 && models(
                            self.deps@[k]@,
                        ).contains(e.1);
                    assert(before.nodes@[k]@ == e.0);
                    if k != r {
                        assert(self.deps@[k] == before.deps@[k]);
                        if e.0 == from@ {
                            lemma_ascending_unique::<N>(models(before.nodes@), k, r);
                        }
                    }
                }
                if target.edges.contains(e) {
                    let k = choose|k: int|
                        0 <= k < before.nodes@.len() && #[trigger] before.nodes@[k]@ == e.0
                            && models(before.deps@[k]@).contains(e.1);
                    assert(self.nodes@[k]@ == e.0);
                    if k != r {
                        assert(self.deps@[k] == before.deps@[k]);
                    }
                }
            }
            assert(self@ =~= target);
        }
    }

    /// Number of nodes in the graph.
    pub fn node_count(&self) -> (count: usize)
        requires
            self.wf(),
        ensures
            self@.nodes.finite(),
            count == self@.nodes.len(),
    {
        proof {
            let m = models(self.nodes@);
            assert forall|i: int, j: int| 0 <= i < m.len() && 0 <= j < m.len() && i != j implies m[i]
                != m[j] by {
                if m[i] == m[j] {
                    lemma_ascending_unique::<N>(m, i, j);
                }
            }
            m.unique_seq_to_set();
        }
        self.nodes.len()
    }

    /// All nodes in ascending order.
    pub fn nodes(&self) -> (nodes: &Vec<N>)
        requires
            self.wf(),
        ensures
            ascending::<N>(models(nodes@)),
            models(nodes@).to_set() == self@.nodes,
    {
        &self.nodes
    }

    /// The dependencies of `n`, in ascending order.
    pub fn dependencies_of<'a>(&'a self, n: &N) -> (deps: Vec<&'a N>)
        requires
            self.wf(),
        ensures
            ascending::<N>(models(deps@)),
            forall|d: N::V| #[trigger]
                models(deps@).contains(d) <==> self@.edges.contains((n@, d)),
    {
        let mut out: Vec<&'a N> = Vec::new();
        let at = locate(&self.nodes, n);
        if !at.1 {
            proof {
                assert forall|d: N::V| #[trigger]
                    models(out@).contains(d) <==> self@.edges.contains((n@, d)) by {
                    if self@.edges.contains((n@, d)) {
                        let k = choose|k: int|
                            0 <= k < self.nodes@.len() && #[trigger] self.nodes@[k]@ == n@
                                && models(self.deps@[k]@).contains(d);
                        assert(models(self.nodes@)[k] == n@);
                    }
                }
            }
            return out;
        }
        let row: usize = at.0;
        let mut j: usize = 0;
        while j < self.deps[row].len()
            invariant
                row < self.deps@.len(),
                j <= self.deps@[row as int]@.len(),
                models(out@) =~= models(self.deps@[row as int]@).take(j as int),
            decreases self.deps@[row as int]@.len() - j,
        {
            let ghost before = models(out@);
            let dep = &self.deps[row][j];
            out.push(dep);
            assert(models(out@) =~= before.push(dep@));
            j = j + 1;
        }
        proof {
            self.lemma_edges_at(row as int);
            assert(models(out@) =~= models(self.deps@[row as int]@));
        }
        out
    }

    /// All edges as `(from, to)` pairs, in ascending order of `from` and,
    /// below that, of `to`.
    pub fn edges(&self) -> (pairs: Vec<(&N, &N)>)
        requires
            self.wf(),
        ensures
            pairs_ascending::<N>(pair_models(pairs@)),
            pair_models(pairs@).to_set() =~= self@.edges,
    {
        let mut out: Vec<(&N, &N)> = Vec::new();
        let mut i: usize = 0;
        while i < self.nodes.len()
            invariant
                self.wf(),
                i <= self.nodes@.len(),
                pairs_ascending::<N>(pair_models(out@)),
                forall|k: int|
                    0 <= k < out@.len() ==> self.has_pair_at(i as int, (#[trigger] pair_models(out@)[k])),
                forall|e: (N::V, N::V)|
                    self.has_pair_at(i as int, e) ==> #[trigger] pair_models(out@).contains(e),
            decreases self.nodes@.len() - i,
        {
            let ghost out0 = pair_models(out@);
            let mut j: usize = 0;
            while j < self.deps[i].len()
                invariant
                    self.wf(),
                    i < self.nodes@.len(),
                    j <= self.deps@[i as int]@.len(),
                    pairs_ascending::<N>(out0),
                    forall|k: int| 0 <= k < out0.len() ==> self.has_pair_at(i as int, #[trigger] out0[k]),
                    pair_models(out@) =~= out0 + Seq::new(
                        j as nat,
                        |k: int| (self.nodes@[i as int]@, self.deps@[i as int]@[k]@),
                    ),
                decreases self.deps@[i as int]@.len() - j,
            {
                let ghost before = pair_models(out@);
                let from = &self.nodes[i];
                let to = &self.deps[i][j];
                out.push((from, to));
                assert(pair_models(out@) =~= before.push((from@, to@)));
                j = j + 1;
            }
            proof {
                let ii = i as int;
                let row = self.deps@[ii]@;
                let out1 = pair_models(out@);
                let n = models(self.nodes@);
                assert(ascending::<N>(models(row)));
                assert forall|a: int, b: int| 0 <= a < b < out1.len() implies pair_before::<N>(
                    #[trigger] out1[a],
                    #[trigger] out1[b],
                ) by {
                    if b < out0.len() {
                        assert(out1[a] == out0[a] && out1[b] == out0[b]);
                    } else if a < out0.len() {
                        assert(out1[a] == out0[a]);
                        let k = choose|k: int|
                            0 <= k < ii && #[trigger] self.nodes@[k]@ == out0[a].0 && models(
                                self.deps@[k]@,
                            ).contains(out0[a].1);
                        assert(N::before(n[k], n[ii]));
                    } else {
                        let m = models(row);
                        assert(N::before(m[a - out0.len()], m[b - out0.len()]));
                    }
                }
                assert forall|k: int| 0 <= k < out1.len() implies self.has_pair_at(
                    ii + 1,
                    #[trigger] out1[k],
                ) by {
                    if k < out0.len() {
                        assert(self.has_pair_at(ii, out0[k]));
                        let q = choose|q: int|
                            0 <= q < ii && #[trigger] self.nodes@[q]@ == out0[k].0 && models(
                                self.deps@[q]@,
                            ).contains(out0[k].1);
                        assert(0 <= q < ii + 1 && self.nodes@[q]@ == out1[k].0);
                    } else {
                        let m = models(row);
                        assert(m[k - out0.len()] == out1[k].1);
                        assert(m.contains(out1[k].1));
                        assert(self.nodes@[ii]@ == out1[k].0);
                    }
                }
                assert forall|e: (N::V, N::V)| self.has_pair_at(ii + 1, e) implies #[trigger] out1.contains(
                    e,
                ) by {
                    let q = choose|q: int|
                        0 <= q < ii + 1 && #[trigger] self.nodes@[q]@ == e.0 && models(
                            self.deps@[q]@,
                        ).contains(e.1);
                    if q < ii {
                        assert(self.has_pair_at(ii, e));
                        assert(out0.contains(e));
                        let z = choose|z: int| 0 <= z < out0.len() && out0[z] == e;
                        assert(out1[z] == e);
                    } else {
                        let m = models(row);
                        let z = choose|z: int| 0 <= z < m.len() && m[z] == e.1;
                        assert(out1[out0.len() + z] == e);
                    }
                }
            }
            i = i + 1;
        }
        proof {
            let p = pair_models(out@);
            assert forall|e: (N::V, N::V)| #[trigger]
                p.to_set().contains(e) <==> self@.edges.contains(e) by {
                if p.contains(e) {
                    let k = choose|k: int| 0 <= k < p.len() && p[k] == e;
                    assert(self.has_pair_at(self.nodes@.len() as int, p[k]));
                }
                if self@.edges.contains(e) {
                    assert(self.has_pair_at(self.nodes@.len() as int, e));
                }
            }
        }
        out
    }

    /// For each node, where its dependencies stand among the nodes.
    fn dependency_rows(&self) -> (rows: Vec<Vec<usize>>)
        requires
            self.wf(),
        ensures
            self.rows_match(rows@),
    {
        let mut rows: Vec<Vec<usize>> = Vec::new();
        let mut i: usize = 0;
        while i < self.nodes.len()
            invariant
                self.wf(),
                i <= self.nodes@.len(),
                rows@.len() == i,
                forall|k: int| 0 <= k < i ==> self.row_matches(k, (#[trigger] rows@[k])@),
            decreases self.nodes@.len() - i,
        {
            let mut row: Vec<usize> = Vec::new();
            let mut j: usize = 0;
            while j < self.deps[i].len()
                invariant
                    self.wf(),
                    i < self.nodes@.len(),
                    j <= self.deps@[i as int]@.len(),
                    row@.len() == j,
                    forall|k: int|
                        0 <= k < j ==> (#[trigger] row@[k]) < self.nodes@.len()
                            && self.nodes@[row@[k] as int]@ == self.deps@[i as int]@[k]@,
                decreases self.deps@[i as int]@.len() - j,
            {
                let at = locate(&self.nodes, &self.deps[i][j]);
                assert(at.1) by {
                    let m = models(self.deps@[i as int]@);
                    assert(m[j as int] == self.deps@[i as int]@[j as int]@);
                    assert(m.contains(m[j as int]));
                }
                row.push(at.0);
                j = j + 1;
            }
            rows.push(row);
            i = i + 1;
        }
        rows
    }

    /// Row readiness is readiness of the node.
    proof fn lemma_row_ready(&self, rows: Seq<Vec<usize>>, done: Seq<bool>, order: Seq<N::V>, i: int)
        requires
            self.wf(),
            self.rows_match(rows),
            done.len() == rows.len(),
            0 <= i < rows.len(),
            forall|k: int| 0 <= k < done.len() ==> (#[trigger] done[k] <==> order.contains(self.nodes@[k]@)),
        ensures
            row_ready(rows, done, i) <==> self@.ready(order.to_set(), self.nodes@[i]@),
    {
        self.lemma_edges_at(i);
        let n = self.nodes@[i]@;
        let m = models(self.deps@[i]@);
        assert(models(self.nodes@)[i] == n);
        assert(self@.nodes.contains(n));
        assert(self.row_matches(i, rows[i]@));
        if row_ready(rows, done, i) {
            assert(!order.to_set().contains(n)) by {
                assert(!done[i]);
            }
            assert forall|d: N::V| #[trigger] self@.edges.contains((n, d)) implies order.to_set().contains(
                d,
            ) by {
                assert(m.contains(d));
                let k = choose|k: int| 0 <= k < m.len() && m[k] == d;
                let t = rows[i]@[k] as int;
                assert(done[t]);
                assert(self.nodes@[t]@ == d);
            }
        }
        if self@.ready(order.to_set(), n) {
            assert(!done[i]);
            assert forall|k: int| 0 <= k < rows[i]@.len() implies done[(#[trigger] rows[i]@[k]) as int] by {
                let t = rows[i]@[k] as int;
                assert(m[k] == self.nodes@[t]@);
                assert(m.contains(m[k]));
                assert(self@.edges.contains((n, m[k])));
                assert(order.to_set().contains(m[k]));
            }
        }
    }

    /// Places nodes by Kahn's algorithm, smallest first, for as long as one
    /// can be placed. Gives the placed nodes and, ascending, those left over.
    fn place_all(&self) -> (parts: (Vec<N>, Vec<N>))
        requires
            self.wf(),
        ensures
            greedy::<N>(self@, models(parts.0@)),
            forall|n: N::V| !#[trigger] self@.ready(models(parts.0@).to_set(), n),
            ascending::<N>(models(parts.1@)),
            models(parts.1@).to_set() =~= self@.nodes.difference(models(parts.0@).to_set()),
            parts.1@.len() == 0 ==> is_topological_order::<N>(self@, models(parts.0@)),
            self@.blocked(models(parts.1@).to_set()),
    {
        let rows = self.dependency_rows();
        let n: usize = self.nodes.len();
        let mut done: Vec<bool> = Vec::new();
        while done.len() < n
            invariant
                n == self.nodes@.len(),
                done@.len() <= n,
                forall|k: int| 0 <= k < done@.len() ==> !#[trigger] done@[k],
            decreases n - done@.len(),
        {
            done.push(false);
        }
        let mut out: Vec<N> = Vec::new();
        proof {
            assert(models(out@).to_set() =~= Set::empty());
        }
        loop
            invariant
                self.wf(),
                self.rows_match(rows@),
                n == self.nodes@.len(),
                done@.len() == n,
                out@.len() <= n,
                greedy::<N>(self@, models(out@)),
                models(out@).no_duplicates(),
                models(out@).to_set().subset_of(self@.nodes),
                forall|k: int|
                    0 <= k < n ==> (#[trigger] done@[k] <==> models(out@).contains(self.nodes@[k]@)),
            ensures
                forall|k: int| 0 <= k < n ==> !#[trigger] row_ready(rows@, done@, k),
            decreases n - out@.len(),
        {
            match first_ready(&rows, &done) {
                None => {
                    break;
                },
                Some(i) => {
                    let ghost before = models(out@);
                    let ghost done0 = done@;
                    proof {
                        let g = self@;
                        let placed = before.to_set();
                        let v = self.nodes@[i as int]@;
                        self.lemma_row_ready(rows@, done@, before, i as int);
                        assert(g.ready(placed, v));
                        assert forall|m: N::V| #[trigger] g.ready(placed, m) implies m == v
                            || N::before(v, m) by {
                            let all = models(self.nodes@);
                            assert(all.contains(m));
                            let k = choose|k: int| 0 <= k < all.len() && all[k] == m;
                            self.lemma_row_ready(rows@, done@, before, k);
                            assert(row_ready(rows@, done@, k));
                            if k > i {
                                assert(N::before(all[i as int], all[k]));
                            }
                        }
                        lemma_bounded_by_nodes::<N>(before, v, models(self.nodes@));
                    }
                    out.push(self.nodes[i].duplicate());
                    done.set(i, true);
                    proof {
                        let v = self.nodes@[i as int]@;
                        let after = models(out@);
                        assert(after =~= before.push(v));
                        assert forall|k: int| 0 <= k < after.len() implies smallest_ready::<N>(
                            self@,
                            after.take(k).to_set(),
                            #[trigger] after[k],
                        ) by {
                            assert(after.take(k) =~= before.take(k));
                            if k < before.len() {
                                assert(after[k] == before[k]);
                            } else {
                                assert(before.take(k) =~= before);
                            }
                        }
                        assert(models(self.nodes@)[i as int] == v);
                        assert forall|k: int| 0 <= k < n implies (#[trigger] done@[k]
                            <==> after.contains(self.nodes@[k]@)) by {
                            let w = self.nodes@[k]@;
                            if k != i {
                                assert(done@[k] == done0[k]);
                                let all = models(self.nodes@);
                                if w == v {
                                    assert(all[k] == all[i as int]);
                                    lemma_ascending_unique::<N>(all, k, i as int);
                                }
                                if before.contains(w) {
                                    let z = choose|z: int| 0 <= z < before.len() && before[z] == w;
                                    assert(after[z] == w);
                                }
                            } else {
                                assert(after[before.len() as int] == v);
                            }
                        }
                        assert(after.to_set().subset_of(self@.nodes)) by {
                            assert forall|w: N::V| #[trigger] after.to_set().contains(w) implies self@.nodes.contains(w) by {
                                if w != v {
                                    let z = choose|z: int| 0 <= z < after.len() && after[z] == w;
                                    assert(before[z] == w);
                                    assert(before.to_set().contains(w));
                                }
                            }
                        }
                    }
                },
            }
        }
        let mut stuck: Vec<N> = Vec::new();
        let mut i: usize = 0;
        while i < n
            invariant
                self.wf(),
                i <= n,
                n == self.nodes@.len(),
                done@.len() == n,
                ascending::<N>(models(stuck@)),
                forall|k: int| 0 <= k < i && !#[trigger] done@[k] ==> models(stuck@).contains(self.nodes@[k]@),
                forall|z: int| 0 <= z < stuck@.len() ==> self.undone_before(done@, i as int, #[trigger] models(stuck@)[z]),
            decreases n - i,
        {
            let ghost before = models(stuck@);
            if !done[i] {
                stuck.push(self.nodes[i].duplicate());
                proof {
                    let all = models(self.nodes@);
                    let after = models(stuck@);
                    assert(after =~= before.push(self.nodes@[i as int]@));
                    assert forall|a: int, b: int| 0 <= a < b < after.len() implies N::before(
                        #[trigger] after[a],
                        #[trigger] after[b],
                    ) by {
                        if b < before.len() {
                            assert(before[a] == after[a] && before[b] == after[b]);
                        } else {
                            assert(self.undone_before(done@, i as int, before[a]));
                            let k = choose|k: int| 0 <= k < i && !done@[k] && #[trigger] self.nodes@[k]@ == before[a];
                            assert(N::before(all[k], all[i as int]));
                        }
                    }
                    assert forall|k: int| 0 <= k < i + 1 && !#[trigger] done@[k] implies after.contains(self.nodes@[k]@) by {
                        if k < i {
                            let z = choose|z: int| 0 <= z < before.len() && before[z] == self.nodes@[k]@;
                            assert(after[z] == self.nodes@[k]@);
                        } else {
                            assert(after[before.len() as int] == self.nodes@[k]@);
                        }
                    }
                }
            }
            proof {
                let after = models(stuck@);
                assert forall|z: int| 0 <= z < after.len() implies self.undone_before(done@, i + 1, #[trigger] after[z]) by {
                    if z < before.len() {
                        assert(after[z] == before[z]);
                        assert(self.undone_before(done@, i as int, before[z]));
                        let k = choose|k: int| 0 <= k < i && !done@[k] && #[trigger] self.nodes@[k]@ == before[z];
                        assert(self.nodes@[k]@ == after[z]);
                    } else {
                        assert(self.nodes@[i as int]@ == after[z]);
                    }
                }
            }
            i = i + 1;
        }
        proof {
            self.lemma_sort_outcome(rows@, done@, models(out@), models(stuck@));
        }
        (out, stuck)
    }

    /// The rows tell the edges of the model.
    proof fn lemma_rows_layout(&self, rows: Seq<Vec<usize>>)
        requires
            self.wf(),
            self.rows_match(rows),
        ensures
            is_layout::<N>(self@, models(self.nodes@), rows),
    {
        let names = models(self.nodes@);
        assert forall|i: int, k: int|
            0 <= i < rows.len() && 0 <= k < rows[i]@.len() implies (#[trigger] rows[i]@[k])
            < rows.len() && self@.edges.contains((names[i], names[rows[i]@[k] as int])) by {
            self.lemma_edges_at(i);
            assert(self.row_matches(i, rows[i]@));
            let m = models(self.deps@[i]@);
            assert(m[k] == names[rows[i]@[k] as int]);
            assert(m.contains(m[k]));
            assert(names[i] == self.nodes@[i]@);
        }
        assert forall|i: int, v: N::V|
            0 <= i < rows.len() && #[trigger] self@.edges.contains(
                (names[i], v),
            ) implies points_at::<N>(names, rows[i]@, v) by {
            self.lemma_edges_at(i);
            assert(self.row_matches(i, rows[i]@));
            assert(names[i] == self.nodes@[i]@);
            let m = models(self.deps@[i]@);
            assert(m.contains(v));
            let k = choose|k: int| 0 <= k < m.len() && m[k] == v;
            assert(names[rows[i]@[k] as int] == v);
        }
        self.law_edges_join_nodes();
    }

    /// Both ends of an edge are nodes.
    pub proof fn law_edges_join_nodes(&self)
        requires
            self.wf(),
        ensures
            self@.closed_under_edges(),
    {
        assert forall|a: N::V, b: N::V| #[trigger] self@.edges.contains((a, b)) implies
            self@.nodes.contains(a) && self@.nodes.contains(b) by {
            let i = choose|i: int|
                0 <= i < self.nodes@.len() && #[trigger] self.nodes@[i]@ == a && models(
                    self.deps@[i]@,
                ).contains(b);
            assert(models(self.nodes@)[i] == a);
        }
    }

    /// The nodes that participate in at least one cycle, in ascending order.
    fn cycle_nodes(&self) -> (list: Vec<N>)
        requires
            self.wf(),
        ensures
            ascending::<N>(models(list@)),
            forall|n: N::V| #[trigger] models(list@).contains(n) <==> self@.on_cycle(n),
    {
        let rows = self.dependency_rows();
        let ghost names = models(self.nodes@);
        proof {
            self.lemma_rows_layout(rows@);
        }
        let mut list: Vec<N> = Vec::new();
        let mut i: usize = 0;
        while i < self.nodes.len()
            invariant
                self.wf(),
                i <= self.nodes@.len(),
                names == models(self.nodes@),
                is_layout::<N>(self@, names, rows@),
                ascending::<N>(models(list@)),
                forall|n: N::V| #[trigger]
                    models(list@).contains(n) <==> names.take(i as int).contains(n)
                        && self@.on_cycle(n),
            decreases self.nodes@.len() - i,
        {
            let ghost before = models(list@);
            let ghost v = names[i as int];
            let reached = reached_rows::<N>(&rows, i, Ghost(self@), Ghost(names));
            if reached[i] {
                list.push(self.nodes[i].duplicate());
            }
            proof {
                let after = models(list@);
                let done = names.take(i as int);
                assert(names.take(i + 1) =~= done.push(v));
                assert(after =~= if self@.on_cycle(v) { before.push(v) } else { before });
                assert forall|n: N::V| #[trigger] after.contains(n) <==> names.take(
                    i + 1,
                ).contains(n) && self@.on_cycle(n) by {
                    lemma_push_contains(done, v, n);
                    lemma_push_contains(before, v, n);
                    assert(before.contains(n) <==> done.contains(n) && self@.on_cycle(n));
                }
                assert forall|a: int, b: int| 0 <= a < b < after.len() implies N::before(
                    #[trigger] after[a],
                    #[trigger] after[b],
                ) by {
                    if b < before.len() {
                        assert(before[a] == after[a] && before[b] == after[b]);
                    } else {
                        assert(before.contains(before[a]));
                        assert(done.contains(before[a]));
                        let k = choose|k: int| 0 <= k < done.len() && done[k] == before[a];
                        assert(N::before(names[k], names[i as int]));
                    }
                }
            }
            i = i + 1;
        }
        proof {
            self.law_edges_join_nodes();
            assert(names.take(i as int) =~= names);
            assert forall|n: N::V| #[trigger] models(list@).contains(n) <==> self@.on_cycle(n) by {
                if self@.on_cycle(n) {
                    lemma_reached_are_nodes(self@, n, n);
                    assert(self@.nodes.contains(n));
                    assert(names.contains(n));
                }
            }
        }
        list
    }

    /// The shortest walk from `from` to `to`; of several, the one that takes
    /// the smallest node at each step. `None` where there is no walk.
    pub fn shortest_way(&self, from: &N, to: &N) -> (way: Option<Vec<N>>)
        requires
            self.wf(),
        ensures
            match way {
                Some(w) => {
                    let m = models(w@);
                    m.len() > 0 && m[0] == from@ && m.last() == to@ && is_shortest_way::<N>(
                        self@,
                        m,
                    )
                },
                None => from@ != to@ && !self@.reaches(from@, to@),
            },
    {
        proof {
            self.law_edges_join_nodes();
        }
        let start = locate(&self.nodes, from);
        let end = locate(&self.nodes, to);
        if !start.1 || !end.1 {
            match from.compare(to) {
                Placement::Same => {
                    let mut way: Vec<N> = Vec::new();
                    way.push(from.duplicate());
                    assert(models(way@) =~= seq![from@]);
                    return Some(way);
                },
                _ => {
                    proof {
                        if self@.reaches(from@, to@) {
                            lemma_reached_are_nodes(self@, from@, to@);
                            assert(models(self.nodes@).contains(from@));
                            assert(models(self.nodes@).contains(to@));
                        }
                    }
                    return None;
                },
            }
        }
        let rows = self.dependency_rows();
        let ghost names = models(self.nodes@);
        proof {
            self.lemma_rows_layout(rows@);
            assert(names[start.0 as int] == from@ && names[end.0 as int] == to@);
            if from@ == to@ {
                lemma_ascending_unique::<N>(names, start.0 as int, end.0 as int);
            }
        }
        let found = shortest_rows::<N>(&rows, start.0, end.0, Ghost(self@), Ghost(names));
        match found {
            None => None,
            Some(places) => {
                let mut way: Vec<N> = Vec::new();
                let mut i: usize = 0;
                while i < places.len()
                    invariant
                        i <= places@.len(),
                        names == models(self.nodes@),
                        forall|k: int| 0 <= k < places@.len() ==> (#[trigger] places@[k]) < names.len(),
                        models(way@) =~= named(names, places@).take(i as int),
                    decreases places@.len() - i,
                {
                    let ghost before = models(way@);
                    let at: usize = places[i];
                    way.push(self.nodes[at].duplicate());
                    assert(models(way@) =~= before.push(names[at as int]));
                    i = i + 1;
                }
                assert(models(way@) =~= named(names, places@));
                Some(way)
            },
        }
    }

    /// Topological sort using Kahn's algorithm.
    ///
    /// Places nodes with no remaining dependencies first. Ties are broken by
    /// the smallest node, so the result is deterministic. A graph that cannot
    /// be sorted is reported by the nodes that participate in its cycles.
    pub fn topological_sort(&self) -> (result: Result<Vec<N>, Cycle<N>>)
        requires
            self.wf(),
        ensures
            match result {
                Ok(order) => is_topological_order::<N>(self@, models(order@)),
                Err(cycle) => is_cycle_list::<N>(self@, models(cycle.nodes@)),
            },
    {
        let (order, stuck) = self.place_all();
        if stuck.len() == 0 {
            Ok(order)
        } else {
            let nodes = self.cycle_nodes();
            proof {
                let left = models(stuck@);
                assert(left.to_set().contains(left[0]));
                vstd::seq_lib::seq_to_set_is_finite(left);
                lemma_blocked_has_cycle(self@, left.to_set(), left[0]);
                let n = choose|n: N::V| #[trigger] self@.on_cycle(n);
                assert(models(nodes@).contains(n));
            }
            Err(Cycle { nodes })
        }
    }

    /// All nodes: first those that can be sorted, in topological order, then
    /// those that wait for one another, in ascending order.
    pub fn sort_with_leftovers(&self) -> (list: Vec<N>)
        requires
            self.wf(),
        ensures
            is_best_order::<N>(self@, models(list@)),
    {
        let (order, stuck) = self.place_all();
        let ghost first = models(order@);
        let ghost rest = models(stuck@);
        let mut list = order;
        let mut tail = stuck;
        list.append(&mut tail);
        proof {
            let k = first.len() as int;
            assert(models(list@) =~= first + rest);
            assert(models(list@).take(k) =~= first);
            assert(models(list@).skip(k) =~= rest);
            assert(splits_at::<N>(self@, models(list@), k));
        }
        list
    }

    /// When nothing more can be placed, each node that is left waits for
    /// another one that is left.
    proof fn lemma_sort_outcome(
        &self,
        rows: Seq<Vec<usize>>,
        done: Seq<bool>,
        order: Seq<N::V>,
        stuck: Seq<N::V>,
    )
        requires
            self.wf(),
            self.rows_match(rows),
            done.len() == rows.len(),
            greedy::<N>(self@, order),
            order.to_set().subset_of(self@.nodes),
            forall|k: int| 0 <= k < done.len() ==> (#[trigger] done[k] <==> order.contains(self.nodes@[k]@)),
            forall|k: int| 0 <= k < done.len() ==> !#[trigger] row_ready(rows, done, k),
            forall|k: int| 0 <= k < done.len() && !#[trigger] done[k] ==> stuck.contains(self.nodes@[k]@),
            forall|z: int| 0 <= z < stuck.len() ==> self.undone_before(done, done.len() as int, #[trigger] stuck[z]),
            ascending::<N>(stuck),
        ensures
            stuck.len() == 0 ==> is_topological_order::<N>(self@, order),
            self@.blocked(stuck.to_set()),
            stuck.to_set() =~= self@.nodes.difference(order.to_set()),
            forall|n: N::V| !#[trigger] self@.ready(order.to_set(), n),
    {
        let g = self@;
        let all = models(self.nodes@);
        let left = stuck.to_set();
        assert forall|v: N::V| #[trigger] left.contains(v) <==> g.nodes.contains(v) && !order.contains(v) by {
            if left.contains(v) {
                let z = choose|z: int| 0 <= z < stuck.len() && stuck[z] == v;
                assert(self.undone_before(done, done.len() as int, stuck[z]));
                let k = choose|k: int| 0 <= k < done.len() && !done[k] && #[trigger] self.nodes@[k]@ == v;
                assert(all[k] == v);
            }
            if g.nodes.contains(v) && !order.contains(v) {
                assert(all.contains(v));
                let k = choose|k: int| 0 <= k < all.len() && all[k] == v;
                assert(!done[k]);
            }
        }
        assert forall|n: N::V| !#[trigger] g.ready(order.to_set(), n) by {
            if g.ready(order.to_set(), n) {
                assert(all.contains(n));
                let k = choose|k: int| 0 <= k < all.len() && all[k] == n;
                self.lemma_row_ready(rows, done, order, k);
                assert(!row_ready(rows, done, k));
            }
        }
        if stuck.len() == 0 {
            assert(order.to_set() =~= g.nodes) by {
                assert forall|v: N::V| g.nodes.contains(v) implies #[trigger] order.to_set().contains(v) by {
                    assert(!left.contains(v));
                }
            }
        }
        assert forall|v: N::V| left.contains(v) implies #[trigger] g.waits_in(left, v) by {
            assert(all.contains(v));
            let k = choose|k: int| 0 <= k < all.len() && all[k] == v;
            self.lemma_row_ready(rows, done, order, k);
            assert(!row_ready(rows, done, k));
            assert(!g.ready(order.to_set(), v));
            let d = choose|d: N::V| #[trigger]
                g.edges.contains((v, d)) && !order.to_set().contains(d);
            self.lemma_edges_at(k);
            assert(models(self.deps@[k]@).contains(d));
            assert(g.nodes.contains(d));
            assert(left.contains(d));
        }
    }

    /// Reverse topological sort: dependents first, dependencies last.
    /// Used for drop ordering (drop the index before the table it indexes).
    pub fn reverse_topological_sort(&self) -> (result: Result<Vec<N>, Cycle<N>>)
        requires
            self.wf(),
        ensures
            match result {
                Ok(order) => is_topological_order::<N>(self@, models(order@).reverse()),
                Err(cycle) => is_cycle_list::<N>(self@, models(cycle.nodes@)),
            },
    {
        match self.topological_sort() {
            Err(cycle) => Err(cycle),
            Ok(order) => {
                let ghost forward = models(order@);
                let mut rest = order;
                let mut out: Vec<N> = Vec::new();
                while rest.len() > 0
                    invariant
                        models(rest@) + models(out@).reverse() =~= forward,
                    decreases rest@.len(),
                {
                    let ghost rest0 = models(rest@);
                    let ghost out0 = models(out@);
                    match rest.pop() {
                        Some(n) => {
                            out.push(n);
                        },
                        None => {},
                    }
                    proof {
                        assert(models(rest@) =~= rest0.drop_last());
                        assert(models(out@) =~= out0.push(rest0.last()));
                        assert(models(out@).reverse() =~= seq![rest0.last()] + out0.reverse());
                    }
                }
                proof {
                    assert(models(out@).reverse() =~= forward);
                }
                Ok(out)
            },
        }
    }
}

impl<N: GraphNode> Default for Graph<N> {
    fn default() -> (g: Self)
        ensures
            g.wf(),
            g@ == GraphModel::<N::V>::empty(),
    {
        Self::new()
    }
}

/// The models of a list of pairs.
pub open spec fn pair_models<N: View>(pairs: Seq<(&N, &N)>) -> Seq<(N::V, N::V)> {
    pairs.map_values(|p: (&N, &N)| (p.0@, p.1@))
}

/// Pairs compare by their first and then by their second component.
pub open spec fn pair_before<N: Ranked>(a: (N::V, N::V), b: (N::V, N::V)) -> bool {
    N::before(a.0, b.0) || (a.0 == b.0 && N::before(a.1, b.1))
}

/// Strictly ascending in the order of pairs.
pub open spec fn pairs_ascending<N: Ranked>(pairs: Seq<(N::V, N::V)>) -> bool {
    forall|i: int, j: int|
        0 <= i < j < pairs.len() ==> pair_before::<N>(#[trigger] pairs[i], #[trigger] pairs[j])
}

/// Row `i` is not placed and all the rows it points to are.
spec fn row_ready(rows: Seq<Vec<usize>>, done: Seq<bool>, i: int) -> bool {
    !done[i] && forall|k: int| 0 <= k < rows[i]@.len() ==> done[(#[trigger] rows[i]@[k]) as int]
}

/// The first row that can be placed.
fn first_ready(rows: &Vec<Vec<usize>>, done: &Vec<bool>) -> (found: Option<usize>)
    requires
        rows@.len() == done@.len(),
        forall|i: int, k: int|
            0 <= i < rows@.len() && 0 <= k < rows@[i]@.len() ==> (#[trigger] rows@[i]@[k]) < rows@.len(),
    ensures
        match found {
            Some(i) => {
                &&& i < rows@.len()
                &&& row_ready(rows@, done@, i as int)
                &&& forall|k: int| 0 <= k < i ==> !#[trigger] row_ready(rows@, done@, k)
            },
            None => forall|k: int| 0 <= k < rows@.len() ==> !#[trigger] row_ready(rows@, done@, k),
        },
{
    let mut i: usize = 0;
    while i < rows.len()
        invariant
            i <= rows@.len(),
            rows@.len() == done@.len(),
            forall|i: int, k: int|
                0 <= i < rows@.len() && 0 <= k < rows@[i]@.len() ==> (#[trigger] rows@[i]@[k]) < rows@.len(),
            forall|k: int| 0 <= k < i ==> !#[trigger] row_ready(rows@, done@, k),
        decreases rows@.len() - i,
    {
        let mut free = !done[i];
        let mut j: usize = 0;
        while free && j < rows[i].len()
            invariant
                i < rows@.len(),
                j <= rows@[i as int]@.len(),
                rows@.len() == done@.len(),
                forall|i: int, k: int|
                    0 <= i < rows@.len() && 0 <= k < rows@[i]@.len() ==> (#[trigger] rows@[i]@[k]) < rows@.len(),
                free ==> !done@[i as int] && forall|k: int| 0 <= k < j ==> done@[(#[trigger] rows@[i as int]@[k]) as int],
                !free ==> !row_ready(rows@, done@, i as int),
            decreases rows@[i as int]@.len() - j,
        {
            let target: usize = rows[i][j];
            if !done[target] {
                free = false;
            }
            j = j + 1;
        }
        if free {
            return Some(i);
        }
        i = i + 1;
    }
    None
}

/// A list of distinct nodes that misses one node is shorter than the list of
/// all nodes.
proof fn lemma_bounded_by_nodes<N: Ranked>(order: Seq<N::V>, v: N::V, all: Seq<N::V>)
    requires
        order.no_duplicates(),
        order.to_set().subset_of(all.to_set()),
        all.contains(v),
        !order.contains(v),
    ensures
        order.len() < all.len(),
{
    let s = order.to_set();
    order.unique_seq_to_set();
    all.lemma_cardinality_of_set();
    vstd::seq_lib::seq_to_set_is_finite(all);
    vstd::seq_lib::seq_to_set_is_finite(order);
    assert(s.insert(v).subset_of(all.to_set()));
    vstd::set_lib::lemma_len_subset(s.insert(v), all.to_set());
}

/// A topological order names every node once, and every dependency before the
/// nodes that depend on it.
pub proof fn law_dependencies_come_first<N: Ranked>(g: GraphModel<N::V>, order: Seq<N::V>)
    requires
        is_topological_order::<N>(g, order),
    ensures
        order.no_duplicates(),
        forall|n: N::V| #[trigger] g.nodes.contains(n) <==> order.contains(n),
        forall|i: int, d: N::V|
            0 <= i < order.len() && #[trigger] g.edges.contains((order[i], d)) ==> exists|k: int|
                0 <= k < i && #[trigger] order[k] == d,
{
    assert forall|i: int, j: int| 0 <= i < j < order.len() implies order[i] != order[j] by {
        assert(smallest_ready::<N>(g, order.take(j).to_set(), order[j]));
        assert(order.take(j)[i] == order[i]);
    }
    assert forall|i: int, d: N::V|
        0 <= i < order.len() && #[trigger] g.edges.contains((order[i], d)) implies exists|k: int|
        0 <= k < i && #[trigger] order[k] == d by {
        assert(smallest_ready::<N>(g, order.take(i).to_set(), order[i]));
        assert(order.take(i).to_set().contains(d));
        let k = choose|k: int| 0 <= k < order.take(i).len() && order.take(i)[k] == d;
        assert(order[k] == d);
    }
    assert forall|n: N::V| #[trigger] g.nodes.contains(n) <==> order.contains(n) by {
        assert(order.to_set().contains(n) <==> g.nodes.contains(n));
    }
}

/// Sorting is deterministic: a graph has at most one topological order.
pub proof fn law_topological_order_is_unique<N: Ranked>(
    g: GraphModel<N::V>,
    first: Seq<N::V>,
    second: Seq<N::V>,
)
    requires
        is_topological_order::<N>(g, first),
        is_topological_order::<N>(g, second),
    ensures
        first == second,
{
    law_dependencies_come_first::<N>(g, first);
    law_dependencies_come_first::<N>(g, second);
    first.unique_seq_to_set();
    second.unique_seq_to_set();
    assert(first.to_set() =~= second.to_set());
    lemma_greedy_prefixes_agree::<N>(g, first, second, first.len() as int);
    assert(first.take(first.len() as int) =~= first);
    assert(second.take(first.len() as int) =~= second);
}

proof fn lemma_greedy_prefixes_agree<N: Ranked>(
    g: GraphModel<N::V>,
    first: Seq<N::V>,
    second: Seq<N::V>,
    upto: int,
)
    requires
        greedy::<N>(g, first),
        greedy::<N>(g, second),
        first.len() == second.len(),
        0 <= upto <= first.len(),
    ensures
        first.take(upto) =~= second.take(upto),
    decreases upto,
{
    if upto > 0 {
        let i = upto - 1;
        lemma_greedy_prefixes_agree::<N>(g, first, second, i);
        N::before_is_strict_total();
        let done = first.take(i).to_set();
        assert(second.take(i).to_set() == done);
        assert(smallest_ready::<N>(g, done, first[i]));
        assert(smallest_ready::<N>(g, done, second[i]));
        assert(g.ready(done, first[i]) && g.ready(done, second[i]));
        if first[i] != second[i] {
            assert(N::before(first[i], second[i]) && N::before(second[i], first[i]));
            assert(!N::before(first[i], first[i]));
        }
        assert(first.take(upto) =~= first.take(i).push(first[i]));
        assert(second.take(upto) =~= second.take(i).push(second[i]));
    }
}

/// In a topological order everything that a node depends on, directly or
/// through others, comes before it.
pub proof fn law_reached_nodes_come_first<N: Ranked>(
    g: GraphModel<N::V>,
    order: Seq<N::V>,
    i: int,
    d: N::V,
)
    requires
        is_topological_order::<N>(g, order),
        0 <= i < order.len(),
        g.reaches(order[i], d),
    ensures
        exists|k: int| 0 <= k < i && #[trigger] order[k] == d,
{
    let walk = choose|walk: Seq<N::V>|
        #![trigger g.is_walk(walk)]
        walk.len() >= 2 && walk[0] == order[i] && walk.last() == d && g.is_walk(walk);
    lemma_walk_goes_back::<N>(g, order, i, walk, walk.len() - 1);
}

proof fn lemma_walk_goes_back<N: Ranked>(
    g: GraphModel<N::V>,
    order: Seq<N::V>,
    i: int,
    walk: Seq<N::V>,
    n: int,
)
    requires
        is_topological_order::<N>(g, order),
        0 <= i < order.len(),
        g.is_walk(walk),
        0 < n < walk.len(),
        walk[0] == order[i],
    ensures
        exists|k: int| 0 <= k < i && #[trigger] order[k] == walk[n],
    decreases n,
{
    law_dependencies_come_first::<N>(g, order);
    assert(g.follows(walk, n - 1));
    if n > 1 {
        lemma_walk_goes_back::<N>(g, order, i, walk, n - 1);
        let k = choose|k: int| 0 <= k < i && #[trigger] order[k] == walk[n - 1];
        assert(g.edges.contains((order[k], walk[n])));
        let m = choose|m: int| 0 <= m < k && #[trigger] order[m] == walk[n];
        assert(0 <= m < i && order[m] == walk[n]);
    } else {
        assert(g.edges.contains((order[i], walk[n])));
    }
}

/// A graph that sorts has no cycle: none of its nodes depends on itself,
/// directly or through others.
pub proof fn law_sorted_graph_has_no_cycle<N: Ranked>(
    g: GraphModel<N::V>,
    order: Seq<N::V>,
    n: N::V,
)
    requires
        is_topological_order::<N>(g, order),
        g.nodes.contains(n),
    ensures
        !g.on_cycle(n),
{
    law_dependencies_come_first::<N>(g, order);
    if g.on_cycle(n) {
        assert(order.contains(n));
        let i = choose|i: int| 0 <= i < order.len() && order[i] == n;
        law_reached_nodes_come_first::<N>(g, order, i, n);
    }
}

/// What is reported of a graph that cannot be sorted is determined by the
/// graph.
pub proof fn law_cycle_list_is_unique<N: Ranked>(
    g: GraphModel<N::V>,
    first: Seq<N::V>,
    second: Seq<N::V>,
)
    requires
        is_cycle_list::<N>(g, first),
        is_cycle_list::<N>(g, second),
    ensures
        first == second,
{
    assert forall|n: N::V| #[trigger] first.to_set().contains(n) <==> second.to_set().contains(n) by {
        assert(first.contains(n) <==> second.contains(n));
    }
    lemma_ascending_determined::<N>(first, second);
}

/// Two ascending lists with the same members are the same list.
pub proof fn lemma_ascending_determined<N: Ranked>(first: Seq<N::V>, second: Seq<N::V>)
    requires
        ascending::<N>(first),
        ascending::<N>(second),
        first.to_set() =~= second.to_set(),
    ensures
        first == second,
    decreases first.len(),
{
    N::before_is_strict_total();
    if first.len() == 0 {
        if second.len() > 0 {
            assert(second.to_set().contains(second[0]));
            assert(first.to_set().contains(second[0]));
        }
        assert(first =~= second);
    } else {
        assert(first.to_set().contains(first[0]));
        assert(second.to_set().contains(first[0]));
        let j = choose|j: int| 0 <= j < second.len() && second[j] == first[0];
        assert(second.to_set().contains(second[0]));
        assert(first.to_set().contains(second[0]));
        let i = choose|i: int| 0 <= i < first.len() && first[i] == second[0];
        if i > 0 && j > 0 {
            assert(N::before(first[0], first[i]));
            assert(N::before(second[0], second[j]));
            assert(!N::before(first[0], first[0]));
        }
        if i > 0 && j == 0 {
            lemma_ascending_unique::<N>(first, 0, i);
        }
        if j > 0 && i == 0 {
            lemma_ascending_unique::<N>(second, 0, j);
        }
        assert(first[0] == second[0]);
        let f = first.drop_first();
        let s = second.drop_first();
        assert forall|a: int, b: int| 0 <= a < b < f.len() implies N::before(
            #[trigger] f[a],
            #[trigger] f[b],
        ) by {
            assert(N::before(first[a + 1], first[b + 1]));
        }
        assert forall|a: int, b: int| 0 <= a < b < s.len() implies N::before(
            #[trigger] s[a],
            #[trigger] s[b],
        ) by {
            assert(N::before(second[a + 1], second[b + 1]));
        }
        assert forall|v: N::V| #[trigger] f.to_set().contains(v) <==> s.to_set().contains(v) by {
            if f.contains(v) {
                let k = choose|k: int| 0 <= k < f.len() && f[k] == v;
                assert(first[k + 1] == v);
                assert(first.to_set().contains(v));
                assert(second.to_set().contains(v));
                let m = choose|m: int| 0 <= m < second.len() && second[m] == v;
                if m == 0 {
                    lemma_ascending_unique::<N>(first, 0, k + 1);
                }
                assert(s[m - 1] == v);
            }
            if s.contains(v) {
                let k = choose|k: int| 0 <= k < s.len() && s[k] == v;
                assert(second[k + 1] == v);
                assert(second.to_set().contains(v));
                assert(first.to_set().contains(v));
                let m = choose|m: int| 0 <= m < first.len() && first[m] == v;
                if m == 0 {
                    lemma_ascending_unique::<N>(second, 0, k + 1);
                }
                assert(f[m - 1] == v);
            }
        }
        lemma_ascending_determined::<N>(f, s);
        assert(first =~= seq![first[0]] + f);
        assert(second =~= seq![second[0]] + s);
    }
}

/// The best order of a graph names every node once.
pub proof fn law_best_order_names_every_node<N: Ranked>(g: GraphModel<N::V>, list: Seq<N::V>)
    requires
        is_best_order::<N>(g, list),
    ensures
        list.to_set() =~= g.nodes,
        list.no_duplicates(),
{
    let k = choose|k: int| #[trigger] splits_at::<N>(g, list, k);
    let a = list.take(k);
    let b = list.skip(k);
    assert(list =~= a + b);
    assert forall|i: int| 0 <= i < a.len() implies g.nodes.contains(#[trigger] a[i]) by {
        assert(smallest_ready::<N>(g, a.take(i).to_set(), a[i]));
    }
    assert forall|n: N::V| #[trigger] list.to_set().contains(n) <==> g.nodes.contains(n) by {
        if list.contains(n) {
            let i = choose|i: int| 0 <= i < list.len() && list[i] == n;
            if i < k {
                assert(a[i] == n);
            } else {
                assert(b[i - k] == n);
                assert(b.to_set().contains(n));
            }
        }
        if g.nodes.contains(n) {
            if a.to_set().contains(n) {
                let i = choose|i: int| 0 <= i < a.len() && a[i] == n;
                assert(list[i] == n);
            } else {
                assert(b.to_set().contains(n));
                let i = choose|i: int| 0 <= i < b.len() && b[i] == n;
                assert(list[k + i] == n);
            }
        }
    }
    assert forall|i: int, j: int| 0 <= i < j < list.len() implies list[i] != list[j] by {
        if j < k {
            assert(smallest_ready::<N>(g, a.take(j).to_set(), a[j]));
            assert(a.take(j)[i] == a[i]);
        } else if i < k {
            assert(b.to_set().contains(b[j - k]));
            assert(a.to_set().contains(a[i]));
        } else if list[i] == list[j] {
            lemma_ascending_unique::<N>(b, i - k, j - k);
        }
    }
}

/// Nodes of which none can be placed wait for one another.
proof fn lemma_leftovers_wait<V>(g: GraphModel<V>, placed: Set<V>, left: Set<V>)
    requires
        g.closed_under_edges(),
        forall|n: V| !#[trigger] g.ready(placed, n),
        left =~= g.nodes.difference(placed),
    ensures
        g.blocked(left),
{
    assert forall|v: V| left.contains(v) implies #[trigger] g.waits_in(left, v) by {
        assert(!g.ready(placed, v));
        let w = choose|w: V| #[trigger] g.edges.contains((v, w)) && !placed.contains(w);
        assert(left.contains(w));
    }
}

/// In the best order of a graph a node that leads to no cycle comes after
/// everything it depends on.
pub proof fn law_best_order_puts_dependencies_first<N: Ranked>(
    g: GraphModel<N::V>,
    list: Seq<N::V>,
    i: int,
    d: N::V,
)
    requires
        is_best_order::<N>(g, list),
        g.closed_under_edges(),
        0 <= i < list.len(),
        g.edges.contains((list[i], d)),
        forall|n: N::V| #[trigger] g.on_cycle(n) ==> n != list[i] && !g.reaches(list[i], n),
    ensures
        exists|k: int| 0 <= k < i && #[trigger] list[k] == d,
{
    let k = choose|k: int| #[trigger] splits_at::<N>(g, list, k);
    let a = list.take(k);
    let b = list.skip(k);
    if i >= k {
        let left = b.to_set();
        assert(b[i - k] == list[i]);
        assert(left.contains(list[i]));
        lemma_leftovers_wait(g, a.to_set(), left);
        vstd::seq_lib::seq_to_set_is_finite(b);
        lemma_blocked_has_cycle(g, left, list[i]);
    } else {
        assert(a[i] == list[i]);
        assert(smallest_ready::<N>(g, a.take(i).to_set(), a[i]));
        assert(a.take(i).to_set().contains(d));
        let m = choose|m: int| 0 <= m < a.take(i).len() && a.take(i)[m] == d;
        assert(list[m] == d);
    }
}

/// The best order of a graph is determined by the graph.
pub proof fn law_best_order_is_unique<N: Ranked>(
    g: GraphModel<N::V>,
    first: Seq<N::V>,
    second: Seq<N::V>,
)
    requires
        is_best_order::<N>(g, first),
        is_best_order::<N>(g, second),
    ensures
        first == second,
{
    let j = choose|j: int| #[trigger] splits_at::<N>(g, first, j);
    let k = choose|k: int| #[trigger] splits_at::<N>(g, second, k);
    lemma_greedy_stops_alike::<N>(g, first.take(j), second.take(k));
    lemma_greedy_stops_alike::<N>(g, second.take(k), first.take(j));
    let a = first.take(j);
    let b = second.take(k);
    lemma_greedy_prefixes_agree::<N>(g, a, b, j);
    assert(a.take(j) =~= a);
    assert(b.take(j) =~= b);
    lemma_ascending_determined::<N>(first.skip(j), second.skip(k));
    assert(first =~= a + first.skip(j));
    assert(second =~= b + second.skip(k));
}

/// A greedy placement that nothing can follow is at least as long as any
/// other one.
proof fn lemma_greedy_stops_alike<N: Ranked>(
    g: GraphModel<N::V>,
    full: Seq<N::V>,
    other: Seq<N::V>,
)
    requires
        greedy::<N>(g, full),
        greedy::<N>(g, other),
        forall|n: N::V| !#[trigger] g.ready(full.to_set(), n),
    ensures
        other.len() <= full.len(),
{
    if other.len() > full.len() {
        let m = full.len() as int;
        let cut = other.take(m);
        assert forall|i: int| 0 <= i < cut.len() implies smallest_ready::<N>(
            g,
            cut.take(i).to_set(),
            #[trigger] cut[i],
        ) by {
            assert(cut.take(i) =~= other.take(i));
            assert(cut[i] == other[i]);
        }
        lemma_greedy_prefixes_agree::<N>(g, full, cut, m);
        assert(full.take(m) =~= full);
        assert(cut.take(m) =~= cut);
        assert(smallest_ready::<N>(g, other.take(m).to_set(), other[m]));
        assert(g.ready(full.to_set(), other[m]));
    }
}

} // verus!
