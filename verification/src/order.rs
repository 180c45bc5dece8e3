//! Strict total orders on text and on lists of text, and the comparison that
//! decides them.

use crate::model::models;
use vstd::prelude::*;
use vstd::std_specs::iter::IteratorSpec;

verus! {

/// Where a first value stands relative to a second one.
#[derive(Clone, Copy, Debug, PartialEq, Eq, Structural)]
pub enum Placement {
    /// The first value comes first.
    Before,
    /// The two values are the same.
    Same,
    /// The second value comes first.
    After,
}

/// `lt` is irreflexive, transitive, and relates any two distinct values.
pub open spec fn strict_total<A>(lt: spec_fn(A, A) -> bool) -> bool {
    &&& forall|a: A| !#[trigger] lt(a, a)
    &&& forall|a: A, b: A, c: A| #[trigger] lt(a, b) && #[trigger] lt(b, c) ==> lt(a, c)
    &&& forall|a: A, b: A| a != b ==> #[trigger] lt(a, b) || lt(b, a)
}

/// Lexicographic comparison: the first difference decides, and a proper
/// prefix comes before the longer sequence.
pub open spec fn lex<A>(lt: spec_fn(A, A) -> bool, s: Seq<A>, t: Seq<A>) -> bool
    decreases s.len(),
{
    if t.len() == 0 {
        false
    } else if s.len() == 0 {
        true
    } else {
        lt(s[0], t[0]) || (s[0] == t[0] && lex(lt, s.drop_first(), t.drop_first()))
    }
}

/// The lexicographic order as a relation.
pub open spec fn lex_by<A>(lt: spec_fn(A, A) -> bool) -> spec_fn(Seq<A>, Seq<A>) -> bool {
    |s: Seq<A>, t: Seq<A>| lex(lt, s, t)
}

/// Characters compare by code point.
pub open spec fn char_lt() -> spec_fn(char, char) -> bool {
    |a: char, b: char| (a as int) < (b as int)
}

/// Text compares lexicographically by code point.
pub open spec fn text_lt(s: Seq<char>, t: Seq<char>) -> bool {
    lex(char_lt(), s, t)
}

/// Lists of text compare lexicographically, text by text.
pub open spec fn texts_lt(s: Seq<Seq<char>>, t: Seq<Seq<char>>) -> bool {
    lex(lex_by(char_lt()), s, t)
}

proof fn lemma_lex_irreflexive<A>(lt: spec_fn(A, A) -> bool, s: Seq<A>)
    requires
        strict_total(lt),
    ensures
        !lex(lt, s, s),
    decreases s.len(),
{
    if s.len() > 0 {
        lemma_lex_irreflexive(lt, s.drop_first());
        assert(!lt(s[0], s[0]));
    }
}

proof fn lemma_lex_transitive<A>(lt: spec_fn(A, A) -> bool, s: Seq<A>, t: Seq<A>, u: Seq<A>)
    requires
        strict_total(lt),
        lex(lt, s, t),
        lex(lt, t, u),
    ensures
        lex(lt, s, u),
    decreases s.len(),
{
    if s.len() > 0 {
        if lt(s[0], t[0]) {
            if lt(t[0], u[0]) {
                assert(lt(s[0], u[0]));
            }
        } else if !lt(t[0], u[0]) {
            lemma_lex_transitive(lt, s.drop_first(), t.drop_first(), u.drop_first());
        }
    }
}

proof fn lemma_lex_total<A>(lt: spec_fn(A, A) -> bool, s: Seq<A>, t: Seq<A>)
    requires
        strict_total(lt),
        s != t,
    ensures
        lex(lt, s, t) || lex(lt, t, s),
    decreases s.len(),
{
    if s.len() > 0 && t.len() > 0 {
        if s[0] == t[0] {
            if s.drop_first() == t.drop_first() {
                assert(s =~= seq![s[0]] + s.drop_first());
                assert(t =~= seq![t[0]] + t.drop_first());
            } else {
                lemma_lex_total(lt, s.drop_first(), t.drop_first());
            }
        } else {
            assert(lt(s[0], t[0]) || lt(t[0], s[0]));
        }
    } else if s.len() == 0 && t.len() == 0 {
        assert(s =~= t);
    }
}

/// A strict total order on elements makes a strict total order on sequences.
pub proof fn lemma_lex_strict_total<A>(lt: spec_fn(A, A) -> bool)
    requires
        strict_total(lt),
    ensures
        strict_total(lex_by(lt)),
{
    let l = lex_by(lt);
    assert forall|s: Seq<A>| !#[trigger] l(s, s) by {
        lemma_lex_irreflexive(lt, s);
    }
    assert forall|s: Seq<A>, t: Seq<A>, u: Seq<A>| #[trigger]
        l(s, t) && #[trigger] l(t, u) implies l(s, u) by {
        lemma_lex_transitive(lt, s, t, u);
    }
    assert forall|s: Seq<A>, t: Seq<A>| s != t implies #[trigger] l(s, t) || l(t, s) by {
        lemma_lex_total(lt, s, t);
    }
}

/// Text order is a strict total order.
pub proof fn lemma_text_strict_total()
    ensures
        strict_total(lex_by(char_lt())),
{
    lemma_lex_strict_total(char_lt());
}

/// The order on lists of text is a strict total order.
pub proof fn lemma_texts_strict_total()
    ensures
        strict_total(lex_by(lex_by(char_lt()))),
{
    lemma_text_strict_total();
    lemma_lex_strict_total(lex_by(char_lt()));
}

/// What a comparison result says about two texts.
pub open spec fn text_placement(s: Seq<char>, t: Seq<char>) -> Placement {
    if s == t {
        Placement::Same
    } else if text_lt(s, t) {
        Placement::Before
    } else {
        Placement::After
    }
}

/// What a comparison result says about two lists of text.
pub open spec fn texts_placement(s: Seq<Seq<char>>, t: Seq<Seq<char>>) -> Placement {
    if s == t {
        Placement::Same
    } else if texts_lt(s, t) {
        Placement::Before
    } else {
        Placement::After
    }
}

/// Compares two texts by code point.
pub fn compare_text(a: &str, b: &str) -> (placement: Placement)
    ensures
        placement == text_placement(a@, b@),
{
    let mut left = a.chars();
    let mut right = b.chars();
    loop
        invariant
            a@ == b@ <==> left.remaining() == right.remaining(),
            text_lt(a@, b@) == text_lt(left.remaining(), right.remaining()),
            left.decrease() is Some,
        decreases left.decrease()->0,
    {
        let ghost s = left.remaining();
        let ghost t = right.remaining();
        let l = left.next();
        let r = right.next();
        match (l, r) {
            (None, None) => {
                assert(s =~= t);
                return Placement::Same;
            },
            (None, Some(_)) => {
                return Placement::Before;
            },
            (Some(_), None) => {
                return Placement::After;
            },
            (Some(x), Some(y)) => {
                if x < y {
                    assert(s[0] != t[0]);
                    return Placement::Before;
                }
                if y < x {
                    assert(s[0] != t[0]);
                    return Placement::After;
                }
                proof {
                    assert(s =~= seq![s[0]] + s.drop_first());
                    assert(t =~= seq![t[0]] + t.drop_first());
                }
            },
        }
    }
}

/// Compares two lists of text.
pub fn compare_texts(a: &Vec<&str>, b: &Vec<&str>) -> (placement: Placement)
    ensures
        placement == texts_placement(models(a@), models(b@)),
{
    let ghost s = models(a@);
    let ghost t = models(b@);
    let mut i: usize = 0;
    proof {
        lemma_text_strict_total();
        assert(s.skip(0) =~= s);
        assert(t.skip(0) =~= t);
    }
    while i < a.len() && i < b.len()
        invariant
            i <= a@.len(),
            i <= b@.len(),
            s == models(a@),
            t == models(b@),
            s == t <==> s.skip(i as int) == t.skip(i as int),
            texts_lt(s, t) == texts_lt(s.skip(i as int), t.skip(i as int)),
            strict_total(lex_by(char_lt())),
        decreases a@.len() - i,
    {
        let ghost x = s.skip(i as int);
        let ghost y = t.skip(i as int);
        let ghost l = lex_by(char_lt());
        proof {
            assert(x[0] == a@[i as int]@);
            assert(y[0] == b@[i as int]@);
            assert(x.drop_first() =~= s.skip(i + 1));
            assert(y.drop_first() =~= t.skip(i + 1));
            assert(l(x[0], y[0]) == text_lt(x[0], y[0]));
            assert(!l(x[0], x[0]));
        }
        match compare_text(a[i], b[i]) {
            Placement::Before => {
                return Placement::Before;
            },
            Placement::After => {
                return Placement::After;
            },
            Placement::Same => {
                proof {
                    assert(x =~= seq![x[0]] + x.drop_first());
                    assert(y =~= seq![y[0]] + y.drop_first());
                }
                i = i + 1;
            },
        }
    }
    let ghost x = s.skip(i as int);
    let ghost y = t.skip(i as int);
    if i < a.len() {
        assert(x.len() > 0 && y.len() == 0);
        Placement::After
    } else if i < b.len() {
        assert(x.len() == 0 && y.len() > 0);
        Placement::Before
    } else {
        assert(x =~= y);
        Placement::Same
    }
}

} // verus!
