//! Walks along the edges of a graph whose nodes are given by their places.
//!
//! A graph is laid out as the list of its nodes and, for each node, the places
//! of the nodes it depends on.

use crate::plan::graph::{
    ascending, is_next_step, is_shortest_way, steps_well, GraphModel, Ranked,
};
use vstd::prelude::*;

verus! {

/// One of the places in `row` holds `v`.
pub open spec fn points_at<N: Ranked>(names: Seq<N::V>, row: Seq<usize>, v: N::V) -> bool {
    exists|k: int| 0 <= k < row.len() && names[(#[trigger] row[k]) as int] == v
}

/// `names` are the nodes of `g`, ascending, and `rows` tells its edges.
pub open spec fn is_layout<N: Ranked>(
    g: GraphModel<N::V>,
    names: Seq<N::V>,
    rows: Seq<Vec<usize>>,
) -> bool {
    &&& ascending::<N>(names)
    &&& names.to_set() =~= g.nodes
    &&& g.closed_under_edges()
    &&& rows.len() == names.len()
    &&& forall|i: int, k: int|
        0 <= i < rows.len() && 0 <= k < rows[i]@.len() ==> (#[trigger] rows[i]@[k]) < rows.len()
            && g.edges.contains((names[i], names[rows[i]@[k] as int]))
    &&& forall|i: int, v: N::V|
        0 <= i < rows.len() && #[trigger] g.edges.contains((names[i], v)) ==> points_at::<N>(
            names,
            rows[i]@,
            v,
        )
}

/// The nodes at a list of places.
pub open spec fn named<V>(names: Seq<V>, places: Seq<usize>) -> Seq<V> {
    places.map_values(|p: usize| names[p as int])
}

/// What a list holds once `v` is pushed.
pub proof fn lemma_push_contains<V>(list: Seq<V>, v: V, n: V)
    ensures
        list.push(v).contains(n) <==> n == v || list.contains(n),
{
    if n == v {
        assert(list.push(v)[list.len() as int] == n);
    }
    if list.contains(n) {
        let k = choose|k: int| 0 <= k < list.len() && list[k] == n;
        assert(list.push(v)[k] == n);
    }
    if list.push(v).contains(n) && n != v {
        let k = choose|k: int| 0 <= k < list.push(v).len() && list.push(v)[k] == n;
        assert(list[k] == n);
    }
}

/// Both ends of a walk over edges are nodes.
pub proof fn lemma_reached_are_nodes<V>(g: GraphModel<V>, from: V, to: V)
    requires
        g.closed_under_edges(),
        g.reaches(from, to),
    ensures
        g.nodes.contains(from),
        g.nodes.contains(to),
{
    let walk = choose|walk: Seq<V>|
        #![trigger g.is_walk(walk)]
        walk.len() >= 2 && walk[0] == from && walk.last() == to && g.is_walk(walk);
    let n = walk.len() - 2;
    assert(g.follows(walk, 0));
    assert(g.follows(walk, n));
}

/// An edge is a way.
pub proof fn lemma_edge_reaches<V>(g: GraphModel<V>, from: V, to: V)
    requires
        g.edges.contains((from, to)),
    ensures
        g.reaches(from, to),
{
    let walk = seq![from, to];
    assert(walk[0] == from && walk.last() == to);
    assert(g.is_walk(walk));
}

/// A way can be continued along an edge.
pub proof fn lemma_reaches_further<V>(g: GraphModel<V>, from: V, mid: V, to: V)
    requires
        g.reaches(from, mid),
        g.edges.contains((mid, to)),
    ensures
        g.reaches(from, to),
{
    let walk = choose|walk: Seq<V>|
        #![trigger g.is_walk(walk)]
        walk.len() >= 2 && walk[0] == from && walk.last() == mid && g.is_walk(walk);
    let longer = walk.push(to);
    assert forall|i: int| 0 <= i < longer.len() - 1 implies #[trigger] g.follows(longer, i) by {
        if i < walk.len() - 1 {
            assert(g.follows(walk, i));
        }
    }
    assert(longer[0] == from && longer.last() == to);
    assert(g.is_walk(longer));
}

/// A set that holds what `from` depends on, and with each node what that node
/// depends on, holds all that `from` reaches.
proof fn lemma_closed_set_holds_reached<V>(g: GraphModel<V>, s: Set<V>, walk: Seq<V>, n: int)
    requires
        g.is_walk(walk),
        0 < n < walk.len(),
        forall|d: V| #[trigger] g.edges.contains((walk[0], d)) ==> s.contains(d),
        forall|a: V, d: V| s.contains(a) && #[trigger] g.edges.contains((a, d)) ==> s.contains(d),
    ensures
        s.contains(walk[n]),
    decreases n,
{
    assert(g.follows(walk, n - 1));
    if n > 1 {
        lemma_closed_set_holds_reached(g, s, walk, n - 1);
    }
}

/// A walk over edges counts them.
proof fn lemma_walk_leads<V>(g: GraphModel<V>, walk: Seq<V>)
    requires
        walk.len() > 0,
        g.is_walk(walk),
    ensures
        g.leads(walk[0], walk.last(), (walk.len() - 1) as nat),
    decreases walk.len(),
{
    if walk.len() > 1 {
        let rest = walk.drop_first();
        assert forall|i: int| 0 <= i < rest.len() - 1 implies #[trigger] g.follows(rest, i) by {
            assert(g.follows(walk, i + 1));
        }
        lemma_walk_leads(g, rest);
        assert(g.follows(walk, 0));
        assert(rest.last() == walk.last());
        assert(rest[0] == walk[1]);
    }
}

/// What is reached is reached over some number of edges.
pub proof fn lemma_reaches_leads<V>(g: GraphModel<V>, from: V, to: V)
    requires
        g.reaches(from, to),
    ensures
        exists|n: nat| n > 0 && #[trigger] g.leads(from, to, n),
{
    let walk = choose|walk: Seq<V>|
        #![trigger g.is_walk(walk)]
        walk.len() >= 2 && walk[0] == from && walk.last() == to && g.is_walk(walk);
    lemma_walk_leads(g, walk);
}

/// From a node of a blocked set a walk of any length stays in the set.
proof fn lemma_blocked_walk<V>(g: GraphModel<V>, s: Set<V>, start: V, n: nat) -> (walk: Seq<V>)
    requires
        g.blocked(s),
        s.contains(start),
    ensures
        walk.len() == n + 1,
        walk[0] == start,
        g.is_walk(walk),
        walk.to_set().subset_of(s),
    decreases n,
{
    if n == 0 {
        let walk = seq![start];
        assert forall|v: V| #[trigger] walk.to_set().contains(v) implies s.contains(v) by {}
        walk
    } else {
        let walk = lemma_blocked_walk(g, s, start, (n - 1) as nat);
        let at = walk.last();
        assert(walk.to_set().contains(at));
        assert(g.waits_in(s, at));
        let d = choose|d: V| s.contains(d) && #[trigger] g.edges.contains((at, d));
        let longer = walk.push(d);
        assert forall|i: int| 0 <= i < longer.len() - 1 implies #[trigger] g.follows(longer, i) by {
            if i < walk.len() - 1 {
                assert(g.follows(walk, i));
            }
        }
        assert forall|v: V| #[trigger] longer.to_set().contains(v) implies s.contains(v) by {
            lemma_push_contains(walk, d, v);
            if v != d {
                assert(walk.to_set().contains(v));
            }
        }
        longer
    }
}

/// Nodes that wait for one another lead to a cycle.
pub proof fn lemma_blocked_has_cycle<V>(g: GraphModel<V>, s: Set<V>, start: V)
    requires
        g.blocked(s),
        s.finite(),
        s.contains(start),
    ensures
        exists|n: V| #[trigger] g.on_cycle(n) && (n == start || g.reaches(start, n)),
{
    let walk = lemma_blocked_walk(g, s, start, s.len());
    if walk.no_duplicates() {
        walk.unique_seq_to_set();
        vstd::set_lib::lemma_len_subset(walk.to_set(), s);
    }
    let (i, j) = choose|i: int, j: int|
        0 <= i < walk.len() && 0 <= j < walk.len() && i != j && walk[i] == walk[j];
    let a = if i < j { i } else { j };
    let b = if i < j { j } else { i };
    let round = walk.subrange(a, b + 1);
    assert forall|k: int| 0 <= k < round.len() - 1 implies #[trigger] g.follows(round, k) by {
        assert(g.follows(walk, a + k));
    }
    assert(round[0] == walk[a] && round.last() == walk[b]);
    assert(g.is_walk(round));
    assert(g.on_cycle(walk[a]));
    if a > 0 {
        let lead = walk.take(a + 1);
        assert forall|k: int| 0 <= k < lead.len() - 1 implies #[trigger] g.follows(lead, k) by {
            assert(g.follows(walk, k));
        }
        assert(g.is_walk(lead));
        assert(lead[0] == start && lead.last() == walk[a]);
    }
}

/// Distinct places below `n` are at most `n`.
proof fn lemma_places_bounded(places: Seq<usize>, n: int)
    requires
        places.no_duplicates(),
        forall|k: int| 0 <= k < places.len() ==> (#[trigger] places[k]) < n,
        0 <= n,
    ensures
        places.len() <= n,
{
    let ints = places.map_values(|p: usize| p as int);
    assert forall|i: int, j: int| 0 <= i < ints.len() && 0 <= j < ints.len() && i != j implies ints[i]
        != ints[j] by {
        assert(ints[i] == places[i] && ints[j] == places[j]);
    }
    ints.unique_seq_to_set();
    let all = vstd::set_lib::set_int_range(0, n);
    vstd::set_lib::lemma_int_range(0, n);
    assert forall|v: int| #[trigger] ints.to_set().contains(v) implies all.contains(v) by {
        let k = choose|k: int| 0 <= k < ints.len() && ints[k] == v;
        assert(ints[k] == places[k]);
    }
    vstd::set_lib::lemma_len_subset(ints.to_set(), all);
}

/// A list of `n` times `false`.
fn none_marked(n: usize) -> (flags: Vec<bool>)
    ensures
        flags@.len() == n,
        forall|k: int| 0 <= k < n ==> !#[trigger] flags@[k],
{
    let mut flags: Vec<bool> = Vec::new();
    while flags.len() < n
        invariant
            flags@.len() <= n,
            forall|k: int| 0 <= k < flags@.len() ==> !#[trigger] flags@[k],
        decreases n - flags@.len(),
    {
        flags.push(false);
    }
    flags
}

/// All places of `row` up to `upto` are marked.
spec fn row_marked(row: Seq<usize>, seen: Seq<bool>, upto: int) -> bool {
    forall|k: int| 0 <= k < upto ==> seen[(#[trigger] row[k]) as int]
}

/// `found` are distinct places, the marked ones, and `start` reaches them all.
#[verifier::opaque]
spec fn is_found<N: Ranked>(
    g: GraphModel<N::V>,
    names: Seq<N::V>,
    start: int,
    seen: Seq<bool>,
    found: Seq<usize>,
) -> bool {
    &&& seen.len() == names.len()
    &&& found.no_duplicates()
    &&& forall|k: int|
        0 <= k < found.len() ==> (#[trigger] found[k]) < names.len() && g.reaches(
            names[start],
            names[found[k] as int],
        )
    &&& forall|j: usize| j < seen.len() ==> (#[trigger] found.contains(j) <==> seen[j as int])
}

/// A place that is marked and noted is one more place found.
proof fn lemma_found_grows<N: Ranked>(
    g: GraphModel<N::V>,
    names: Seq<N::V>,
    start: int,
    seen: Seq<bool>,
    found: Seq<usize>,
    to: usize,
)
    requires
        is_found::<N>(g, names, start, seen, found),
        to < names.len(),
        !seen[to as int],
        g.reaches(names[start], names[to as int]),
    ensures
        is_found::<N>(g, names, start, seen.update(to as int, true), found.push(to)),
{
    reveal(is_found);
    let marks = seen.update(to as int, true);
    let places = found.push(to);
    assert(!found.contains(to));
    assert forall|i: int, j: int|
        0 <= i < places.len() && 0 <= j < places.len() && i != j implies places[i] != places[j] by {
        if i < found.len() && j == found.len() {
            assert(found.contains(found[i]));
        }
        if j < found.len() && i == found.len() {
            assert(found.contains(found[j]));
        }
    }
    assert forall|j: usize| j < marks.len() implies (#[trigger] places.contains(j)
        <==> marks[j as int]) by {
        lemma_push_contains(found, to, j);
        assert(found.contains(j) <==> seen[j as int]);
    }
    assert forall|i: int| 0 <= i < places.len() implies (#[trigger] places[i]) < names.len()
        && g.reaches(names[start], names[places[i] as int]) by {
        if i < found.len() {
            assert(places[i] == found[i]);
        }
    }
}

/// Marks what the places of a row lead to.
fn mark_row<N: Ranked>(
    rows: &Vec<Vec<usize>>,
    at: usize,
    seen: &mut Vec<bool>,
    found: &mut Vec<usize>,
    Ghost(g): Ghost<GraphModel<N::V>>,
    Ghost(names): Ghost<Seq<N::V>>,
    Ghost(start): Ghost<int>,
)
    requires
        is_layout::<N>(g, names, rows@),
        at < rows@.len(),
        0 <= start < names.len(),
        at == start || g.reaches(names[start], names[at as int]),
        old(seen)@.len() == names.len(),
        is_found::<N>(g, names, start, old(seen)@, old(found)@),
    ensures
        final(seen)@.len() == names.len(),
        is_found::<N>(g, names, start, final(seen)@, final(found)@),
        row_marked(rows@[at as int]@, final(seen)@, rows@[at as int]@.len() as int),
        old(found)@.len() <= final(found)@.len(),
        final(found)@.take(old(found)@.len() as int) == old(found)@,
        forall|j: int| 0 <= j < old(seen)@.len() && #[trigger] old(seen)@[j] ==> final(seen)@[j],
{
    let ghost found0 = found@;
    let ghost seen0 = seen@;
    assert(found@.take(found0.len() as int) =~= found0);
    let mut k: usize = 0;
    while k < rows[at].len()
        invariant
            is_layout::<N>(g, names, rows@),
            at < rows@.len(),
            0 <= start < names.len(),
            at == start || g.reaches(names[start], names[at as int]),
            k <= rows@[at as int]@.len(),
            is_found::<N>(g, names, start, seen@, found@),
            row_marked(rows@[at as int]@, seen@, k as int),
            found0.len() <= found@.len(),
            found@.take(found0.len() as int) == found0,
            seen0.len() == seen@.len() == names.len(),
            forall|j: int| 0 <= j < seen0.len() && #[trigger] seen0[j] ==> seen@[j],
        decreases rows@[at as int]@.len() - k,
    {
        let to: usize = rows[at][k];
        assert(to < rows@.len() && g.edges.contains((names[at as int], names[to as int])));
        if !seen[to] {
            let ghost before = found@;
            let ghost marks = seen@;
            proof {
                if at == start {
                    lemma_edge_reaches(g, names[start], names[to as int]);
                } else {
                    lemma_reaches_further(g, names[start], names[at as int], names[to as int]);
                }
            }
            seen.set(to, true);
            found.push(to);
            proof {
                assert(found@ =~= before.push(to));
                assert(seen@ =~= marks.update(to as int, true));
                lemma_found_grows::<N>(g, names, start, marks, before, to);
                assert forall|i: int| 0 <= i < k implies seen@[(#[trigger] rows@[at as int]@[i]) as int] by {
                    assert(marks[rows@[at as int]@[i] as int]);
                }
                assert(found@.take(found0.len() as int) =~= before.take(found0.len() as int));
            }
        }
        k = k + 1;
    }
}

/// Which places a place reaches.
pub fn reached_rows<N: Ranked>(
    rows: &Vec<Vec<usize>>,
    start: usize,
    Ghost(g): Ghost<GraphModel<N::V>>,
    Ghost(names): Ghost<Seq<N::V>>,
) -> (seen: Vec<bool>)
    requires
        is_layout::<N>(g, names, rows@),
        start < rows@.len(),
    ensures
        seen@.len() == rows@.len(),
        forall|j: int|
            0 <= j < seen@.len() ==> (#[trigger] seen@[j] <==> g.reaches(
                names[start as int],
                names[j],
            )),
{
    let mut seen = none_marked(rows.len());
    let mut found: Vec<usize> = Vec::new();
    assert(is_found::<N>(g, names, start as int, seen@, found@)) by {
        reveal(is_found);
    }
    mark_row::<N>(
        rows,
        start,
        &mut seen,
        &mut found,
        Ghost(g),
        Ghost(names),
        Ghost(start as int),
    );
    let mut head: usize = 0;
    proof {
        reveal(is_found);
        lemma_places_bounded(found@, names.len() as int);
    }
    while head < found.len()
        invariant
            is_layout::<N>(g, names, rows@),
            start < rows@.len(),
            seen@.len() == names.len(),
            head <= found@.len() <= names.len(),
            is_found::<N>(g, names, start as int, seen@, found@),
            row_marked(rows@[start as int]@, seen@, rows@[start as int]@.len() as int),
            forall|h: int|
                0 <= h < head ==> row_marked(
                    rows@[(#[trigger] found@[h]) as int]@,
                    seen@,
                    rows@[found@[h] as int]@.len() as int,
                ),
        decreases names.len() - head,
    {
        let at: usize = found[head];
        let ghost found0 = found@;
        let ghost seen0 = seen@;
        assert(at < names.len() && g.reaches(names[start as int], names[at as int])) by {
            reveal(is_found);
        }
        mark_row::<N>(
            rows,
            at,
            &mut seen,
            &mut found,
            Ghost(g),
            Ghost(names),
            Ghost(start as int),
        );
        proof {
            reveal(is_found);
            lemma_places_bounded(found@, names.len() as int);
            lemma_marks_stay(rows@[start as int]@, seen0, seen@);
            assert forall|h: int| 0 <= h < head + 1 implies row_marked(
                rows@[(#[trigger] found@[h]) as int]@,
                seen@,
                rows@[found@[h] as int]@.len() as int,
            ) by {
                assert(found@.take(found0.len() as int)[h] == found@[h]);
                assert(found0[h] == found@[h]);
                if h < head {
                    assert(found0[h] < rows@.len());
                    assert forall|k: int|
                        0 <= k < rows@[found0[h] as int]@.len() implies (#[trigger] rows@[found0[h] as int]@[k])
                        < seen0.len() by {}
                    lemma_marks_stay(rows@[found0[h] as int]@, seen0, seen@);
                }
            }
        }
        head = head + 1;
    }
    proof {
        reveal(is_found);
        let s = named(names, found@).to_set();
        let from = names[start as int];
        assert forall|i: int, d: N::V|
            0 <= i < names.len() && row_marked(
                rows@[i]@,
                seen@,
                rows@[i]@.len() as int,
            ) && #[trigger] g.edges.contains((names[i], d)) implies s.contains(d) by {
            assert(points_at::<N>(names, rows@[i]@, d));
            let k = choose|k: int|
                0 <= k < rows@[i]@.len() && names[(#[trigger] rows@[i]@[k]) as int] == d;
            let j = rows@[i]@[k];
            assert(seen@[j as int]);
            assert(found@.contains(j) <==> seen@[j as int]);
            let z = choose|z: int| 0 <= z < found@.len() && found@[z] == j;
            assert(named(names, found@)[z] == d);
        }
        assert forall|a: N::V, d: N::V|
            s.contains(a) && #[trigger] g.edges.contains((a, d)) implies s.contains(d) by {
            let z = choose|z: int| 0 <= z < named(names, found@).len() && named(names, found@)[z] == a;
            assert(names[found@[z] as int] == a);
            assert(g.edges.contains((names[found@[z] as int], d)));
        }
        assert forall|d: N::V| #[trigger] g.edges.contains((from, d)) implies s.contains(d) by {
            assert(g.edges.contains((names[start as int], d)));
        }
        assert forall|j: int| 0 <= j < seen@.len() implies (#[trigger] seen@[j] <==> g.reaches(
            from,
            names[j],
        )) by {
            assert(found@.contains(j as usize) <==> seen@[(j as usize) as int]);
            if seen@[j] {
                let z = choose|z: int| 0 <= z < found@.len() && found@[z] == j as usize;
                assert(g.reaches(from, names[found@[z] as int]));
            }
            if g.reaches(from, names[j]) {
                let walk = choose|walk: Seq<N::V>|
                    #![trigger g.is_walk(walk)]
                    walk.len() >= 2 && walk[0] == from && walk.last() == names[j] && g.is_walk(
                        walk,
                    );
                lemma_closed_set_holds_reached(g, s, walk, walk.len() - 1);
                let z = choose|z: int|
                    0 <= z < named(names, found@).len() && named(names, found@)[z] == names[j];
                assert(names[found@[z] as int] == names[j]);
                N::before_is_strict_total();
                if found@[z] as int != j {
                    if (found@[z] as int) < j {
                        assert(N::before(names[found@[z] as int], names[j]));
                    } else {
                        assert(N::before(names[j], names[found@[z] as int]));
                    }
                }
                assert(found@.contains(j as usize));
            }
        }
    }
    seen
}

/// Marks that only grow keep a row marked.
proof fn lemma_marks_stay(row: Seq<usize>, before: Seq<bool>, after: Seq<bool>)
    requires
        row_marked(row, before, row.len() as int),
        before.len() == after.len(),
        forall|k: int| 0 <= k < row.len() ==> (#[trigger] row[k]) < before.len(),
        forall|j: int| 0 <= j < before.len() && #[trigger] before[j] ==> after[j],
    ensures
        row_marked(row, after, row.len() as int),
{
    assert forall|k: int| 0 <= k < row.len() implies after[(#[trigger] row[k]) as int] by {
        assert(before[row[k] as int]);
    }
}

/// `level` tells from which places a walk over `n` edges leads to `to`.
spec fn is_level<N: Ranked>(
    g: GraphModel<N::V>,
    names: Seq<N::V>,
    level: Seq<bool>,
    to: int,
    n: nat,
) -> bool {
    &&& level.len() == names.len()
    &&& forall|i: int|
        0 <= i < level.len() ==> (#[trigger] level[i] <==> g.leads(names[i], names[to], n))
}

/// The smallest marked place of a row, or the number of places.
fn first_marked(row: &Vec<usize>, level: &Vec<bool>) -> (best: usize)
    requires
        forall|k: int| 0 <= k < row@.len() ==> (#[trigger] row@[k]) < level@.len(),
    ensures
        best <= level@.len(),
        best < level@.len() ==> row@.contains(best) && level@[best as int],
        forall|k: int|
            0 <= k < row@.len() && level@[row@[k] as int] ==> best <= #[trigger] row@[k],
{
    let mut best: usize = level.len();
    let mut k: usize = 0;
    while k < row.len()
        invariant
            k <= row@.len(),
            forall|k: int| 0 <= k < row@.len() ==> (#[trigger] row@[k]) < level@.len(),
            best <= level@.len(),
            best < level@.len() ==> row@.contains(best) && level@[best as int],
            forall|j: int| 0 <= j < k && level@[row@[j] as int] ==> best <= #[trigger] row@[j],
        decreases row@.len() - k,
    {
        let at: usize = row[k];
        assert(row@[k as int] < level@.len());
        if level[at] && at < best {
            best = at;
            assert(row@.contains(row@[k as int]));
        }
        k = k + 1;
    }
    best
}

/// What the smallest marked place of a row says of the next step.
proof fn lemma_first_marked<N: Ranked>(
    g: GraphModel<N::V>,
    names: Seq<N::V>,
    rows: Seq<Vec<usize>>,
    level: Seq<bool>,
    to: int,
    n: nat,
    i: int,
    best: usize,
)
    requires
        is_layout::<N>(g, names, rows),
        is_level::<N>(g, names, level, to, n),
        0 <= i < names.len(),
        best <= level.len(),
        best < level.len() ==> rows[i]@.contains(best) && level[best as int],
        forall|k: int|
            0 <= k < rows[i]@.len() && level[rows[i]@[k] as int] ==> best <= #[trigger] rows[i]@[k],
    ensures
        best < level.len() <==> g.leads(names[i], names[to], n + 1),
        best < level.len() ==> is_next_step::<N>(g, names[i], names[best as int], names[to], n),
{
    assert forall|d: N::V| #[trigger]
        g.edges.contains((names[i], d)) && g.leads(d, names[to], n) implies best < level.len() && (d
        == names[best as int] || N::before(names[best as int], d)) by {
        assert(points_at::<N>(names, rows[i]@, d));
        let k = choose|k: int|
            0 <= k < rows[i]@.len() && names[(#[trigger] rows[i]@[k]) as int] == d;
        let j = rows[i]@[k] as int;
        assert(rows[i]@[k] < rows.len());
        assert(level[j]);
        if best < j {
            assert(N::before(names[best as int], names[j]));
        }
    }
    if best < level.len() {
        let k = choose|k: int| 0 <= k < rows[i]@.len() && rows[i]@[k] == best;
        assert(g.edges.contains((names[i], names[rows[i]@[k] as int])));
        assert(g.leads(names[best as int], names[to], n));
        assert(g.leads(names[i], names[to], n + 1));
    }
    if g.leads(names[i], names[to], n + 1) {
        let d = choose|d: N::V| #[trigger]
            g.edges.contains((names[i], d)) && g.leads(d, names[to], n);
        assert(best < level.len());
    }
}

/// From which places a walk over one edge more leads to `to`.
fn next_level<N: Ranked>(
    rows: &Vec<Vec<usize>>,
    level: &Vec<bool>,
    Ghost(g): Ghost<GraphModel<N::V>>,
    Ghost(names): Ghost<Seq<N::V>>,
    Ghost(to): Ghost<int>,
    Ghost(n): Ghost<nat>,
) -> (next: Vec<bool>)
    requires
        is_layout::<N>(g, names, rows@),
        is_level::<N>(g, names, level@, to, n),
    ensures
        is_level::<N>(g, names, next@, to, n + 1),
{
    let mut next: Vec<bool> = Vec::new();
    let mut i: usize = 0;
    while i < rows.len()
        invariant
            is_layout::<N>(g, names, rows@),
            is_level::<N>(g, names, level@, to, n),
            i <= rows@.len(),
            next@.len() == i,
            forall|k: int|
                0 <= k < i ==> (#[trigger] next@[k] <==> g.leads(names[k], names[to], n + 1)),
        decreases rows@.len() - i,
    {
        assert forall|k: int| 0 <= k < rows@[i as int]@.len() implies (#[trigger] rows@[i as int]@[k])
            < level@.len() by {}
        let best: usize = first_marked(&rows[i], level);
        proof {
            lemma_first_marked::<N>(g, names, rows@, level@, to, n, i as int, best);
        }
        next.push(best < level.len());
        i = i + 1;
    }
    next
}

/// At `k`, `places` takes the best step of a walk over `length` edges.
spec fn best_step<N: Ranked>(
    g: GraphModel<N::V>,
    names: Seq<N::V>,
    places: Seq<usize>,
    to: N::V,
    length: int,
    k: int,
) -> bool {
    is_next_step::<N>(
        g,
        names[places[k] as int],
        names[places[k + 1] as int],
        to,
        (length - 1 - k) as nat,
    )
}

/// The places on the shortest walk from `start` to `end`; of several, the one
/// that takes the smallest place at each step. `None` where there is no walk.
pub fn shortest_rows<N: Ranked>(
    rows: &Vec<Vec<usize>>,
    start: usize,
    end: usize,
    Ghost(g): Ghost<GraphModel<N::V>>,
    Ghost(names): Ghost<Seq<N::V>>,
) -> (places: Option<Vec<usize>>)
    requires
        is_layout::<N>(g, names, rows@),
        start < rows@.len(),
        end < rows@.len(),
    ensures
        match places {
            Some(p) => {
                &&& p@.len() > 0
                &&& p@[0] == start
                &&& p@.last() == end
                &&& forall|k: int| 0 <= k < p@.len() ==> (#[trigger] p@[k]) < names.len()
                &&& is_shortest_way::<N>(g, named(names, p@))
            },
            None => start != end && !g.reaches(names[start as int], names[end as int]),
        },
{
    let ghost from = names[start as int];
    let ghost to = names[end as int];
    if start != end {
        let reached = reached_rows::<N>(rows, start, Ghost(g), Ghost(names));
        if !reached[end] {
            return None;
        }
        proof {
            lemma_reaches_leads(g, from, to);
        }
    }
    proof {
        if start == end {
            assert(g.leads(from, to, 0));
        }
    }
    let ghost bound = choose|n: nat| #[trigger] g.leads(from, to, n);
    let mut base = none_marked(rows.len());
    base.set(end, true);
    proof {
        N::before_is_strict_total();
        assert forall|i: int| 0 <= i < base@.len() implies (#[trigger] base@[i] <==> g.leads(
            names[i],
            to,
            0,
        )) by {
            if i < end {
                assert(N::before(names[i], names[end as int]));
            } else if i > end {
                assert(N::before(names[end as int], names[i]));
            }
        }
    }
    let mut levels: Vec<Vec<bool>> = Vec::new();
    levels.push(base);
    let mut n: usize = 0;
    while !levels[n][start]
        invariant
            is_layout::<N>(g, names, rows@),
            start < rows@.len(),
            end < rows@.len(),
            from == names[start as int],
            to == names[end as int],
            g.leads(from, to, bound),
            n <= bound,
            levels@.len() == n + 1,
            forall|m: int|
                0 <= m < levels@.len() ==> is_level::<N>(
                    g,
                    names,
                    (#[trigger] levels@[m])@,
                    end as int,
                    m as nat,
                ),
            forall|m: nat| m < n ==> !#[trigger] g.leads(from, to, m),
        decreases bound - n,
    {
        let ghost before = levels@;
        proof {
            assert(is_level::<N>(g, names, levels@[n as int]@, end as int, n as nat));
            assert(!g.leads(from, to, n as nat));
        }
        let next = next_level::<N>(
            rows,
            &levels[n],
            Ghost(g),
            Ghost(names),
            Ghost(end as int),
            Ghost(n as nat),
        );
        levels.push(next);
        n = levels.len() - 1;
        proof {
            assert forall|m: int| 0 <= m < levels@.len() implies is_level::<N>(
                g,
                names,
                (#[trigger] levels@[m])@,
                end as int,
                m as nat,
            ) by {
                if m < before.len() {
                    assert(levels@[m] == before[m]);
                }
            }
        }
    }
    assert(is_level::<N>(g, names, levels@[n as int]@, end as int, n as nat));
    let mut places: Vec<usize> = Vec::new();
    places.push(start);
    let mut at: usize = start;
    let mut left: usize = n;
    let ghost length = n as int;
    while left > 0
        invariant
            is_layout::<N>(g, names, rows@),
            end < rows@.len(),
            at < rows@.len(),
            to == names[end as int],
            left <= length,
            levels@.len() == length + 1,
            forall|m: int|
                0 <= m < levels@.len() ==> is_level::<N>(
                    g,
                    names,
                    (#[trigger] levels@[m])@,
                    end as int,
                    m as nat,
                ),
            g.leads(names[at as int], to, left as nat),
            places@.len() == length - left + 1,
            places@[0] == start,
            places@.last() == at,
            forall|k: int| 0 <= k < places@.len() ==> (#[trigger] places@[k]) < names.len(),
            forall|k: int|
                0 <= k < places@.len() - 1 ==> #[trigger] best_step::<N>(
                    g,
                    names,
                    places@,
                    to,
                    length,
                    k,
                ),
        decreases left,
    {
        let ghost before = places@;
        left = left - 1;
        assert(is_level::<N>(g, names, levels@[left as int]@, end as int, left as nat));
        assert forall|k: int| 0 <= k < rows@[at as int]@.len() implies (#[trigger] rows@[at as int]@[k])
            < levels@[left as int]@.len() by {}
        let best: usize = first_marked(&rows[at], &levels[left]);
        proof {
            lemma_first_marked::<N>(
                g,
                names,
                rows@,
                levels@[left as int]@,
                end as int,
                left as nat,
                at as int,
                best,
            );
        }
        places.push(best);
        proof {
            assert forall|k: int| 0 <= k < places@.len() - 1 implies #[trigger] best_step::<N>(
                g,
                names,
                places@,
                to,
                length,
                k,
            ) by {
                assert(places@[k] == before[k]);
                if k < before.len() - 1 {
                    assert(best_step::<N>(g, names, before, to, length, k));
                }
            }
        }
        at = best;
    }
    proof {
        assert(names[at as int] == to);
        N::before_is_strict_total();
        if at < end {
            assert(N::before(names[at as int], names[end as int]));
        } else if end < at {
            assert(N::before(names[end as int], names[at as int]));
        }
        let way = named(names, places@);
        assert(way[0] == from && way.last() == to);
        assert forall|i: int| 0 <= i < way.len() - 1 implies #[trigger] steps_well::<N>(
            g,
            way,
            i,
        ) by {
            assert(best_step::<N>(g, names, places@, to, length, i));
        }
    }
    Some(places)
}

} // verus!
