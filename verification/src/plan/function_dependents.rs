//! Enumerate every catalog object that depends on a function, which is
//! exactly what `DROP FUNCTION <f> CASCADE` would destroy.
//!
//! A function's identity is its name and its argument types. Not every
//! reference records the argument types:
//!
//! - Triggers, event triggers, aggregates and range types refer by name only.
//! - Casts and bodies record the argument types too, so an overloaded
//!   sibling is not reported.
//!
//! Where only the name is available, an overloaded name may over-report. For
//! an audit of what CASCADE destroys that is the safe direction: nothing is
//! ever left out. Every edge of the drop graph that leads to the function has
//! its dependent in the list.

use crate::identifier::{Identifier, QnameModel, QualifiedName};
use crate::ir::catalog::Catalog;
use crate::ir::function::{same_types, Function, NormalizedArgTypes, Procedure};
use crate::ir::routine_objects::{Aggregate, Cast, CastMethod};
use crate::ir::trigger::{EventTrigger, Trigger};
use crate::ir::user_type::{UserType, UserTypeKind};
use crate::ir::view::{MaterializedView, ViewDefinition};
use crate::model::{models, Duplicate};
use crate::order::{
    char_lt, compare_texts, lemma_texts_strict_total, lex_by, texts_lt, Placement,
};
use crate::plan::edges::{catalog_graph, dependency_edges, DepEdge, NodeId, NodeKey};
use crate::plan::graph::{ascending, insert_ascending, GraphNode, Ranked};
use crate::plan::object_edges::{
    all_need, body_edges, first_function, function_node, names_function, Dependent, ScopeModel,
};
use vstd::prelude::*;

verus! {

/// One object that depends on a function being replaced with CASCADE.
#[derive(Debug, Clone, PartialEq, Eq, PartialOrd, Ord)]
pub enum FunctionDependent {
    /// A trigger whose function is the dropped function.
    Trigger(QualifiedName),
    /// An event trigger whose function is the dropped function.
    EventTrigger(Identifier),
    /// An aggregate whose `sfunc` or `finalfunc` is the dropped function.
    Aggregate(QualifiedName),
    /// A cast whose conversion function is the dropped function.
    Cast {
        /// The cast's source type.
        source: QualifiedName,
        /// The cast's target type.
        target: QualifiedName,
    },
    /// A view, materialized view, function or procedure whose body refers to
    /// the dropped function, or a range type whose definition does.
    BodyRef(QualifiedName),
}

/// The model of a dependent: the rank of its kind, and its names.
#[verifier::ext_equal]
pub struct DependentKey {
    /// The rank of the kind.
    pub rank: nat,
    /// The identifying names.
    pub parts: Seq<Seq<char>>,
}

impl View for FunctionDependent {
    type V = DependentKey;

    open spec fn view(&self) -> DependentKey {
        match *self {
            FunctionDependent::Trigger(q) => DependentKey { rank: 0, parts: q@.parts() },
            FunctionDependent::EventTrigger(name) => DependentKey { rank: 1, parts: seq![name@] },
            FunctionDependent::Aggregate(q) => DependentKey { rank: 2, parts: q@.parts() },
            FunctionDependent::Cast { source, target } => DependentKey {
                rank: 3,
                parts: source@.parts() + target@.parts(),
            },
            FunctionDependent::BodyRef(q) => DependentKey { rank: 4, parts: q@.parts() },
        }
    }
}

impl Duplicate for FunctionDependent {
    fn duplicate(&self) -> (copy: FunctionDependent) {
        match self {
            FunctionDependent::Trigger(q) => FunctionDependent::Trigger(q.duplicate()),
            FunctionDependent::EventTrigger(name) => FunctionDependent::EventTrigger(
                name.duplicate(),
            ),
            FunctionDependent::Aggregate(q) => FunctionDependent::Aggregate(q.duplicate()),
            FunctionDependent::Cast { source, target } => FunctionDependent::Cast {
                source: source.duplicate(),
                target: target.duplicate(),
            },
            FunctionDependent::BodyRef(q) => FunctionDependent::BodyRef(q.duplicate()),
        }
    }
}

impl Ranked for FunctionDependent {
    open spec fn before(a: DependentKey, b: DependentKey) -> bool {
        a.rank < b.rank || (a.rank == b.rank && texts_lt(a.parts, b.parts))
    }

    proof fn before_is_strict_total() {
        lemma_texts_strict_total();
        let l = lex_by(lex_by(char_lt()));
        assert forall|a: DependentKey| !#[trigger] Self::before(a, a) by {
            assert(!l(a.parts, a.parts));
        }
        assert forall|a: DependentKey, b: DependentKey, c: DependentKey| #[trigger]
            Self::before(a, b) && #[trigger] Self::before(b, c) implies Self::before(a, c) by {
            if a.rank == b.rank && b.rank == c.rank {
                assert(l(a.parts, b.parts) && l(b.parts, c.parts));
            }
        }
        assert forall|a: DependentKey, b: DependentKey| a != b implies #[trigger] Self::before(a, b)
            || Self::before(b, a) by {
            if a.rank == b.rank {
                assert(a.parts != b.parts);
                assert(l(a.parts, b.parts) || l(b.parts, a.parts));
            }
        }
    }
}

impl FunctionDependent {
    fn rank(&self) -> (r: u8)
        ensures
            r == self@.rank,
    {
        match self {
            FunctionDependent::Trigger(_) => 0,
            FunctionDependent::EventTrigger(_) => 1,
            FunctionDependent::Aggregate(_) => 2,
            FunctionDependent::Cast { .. } => 3,
            FunctionDependent::BodyRef(_) => 4,
        }
    }

    fn names<'a>(&'a self) -> (names: Vec<&'a str>)
        ensures
            models(names@) == self@.parts,
    {
        let mut out: Vec<&'a str> = Vec::new();
        match self {
            FunctionDependent::EventTrigger(name) => {
                out.push(name.as_str());
            },
            FunctionDependent::Trigger(q)
            | FunctionDependent::Aggregate(q)
            | FunctionDependent::BodyRef(q) => {
                out.push(q.schema.as_str());
                out.push(q.name.as_str());
            },
            FunctionDependent::Cast { source, target } => {
                out.push(source.schema.as_str());
                out.push(source.name.as_str());
                out.push(target.schema.as_str());
                out.push(target.name.as_str());
            },
        }
        assert(models(out@) =~= self@.parts);
        out
    }
}

impl GraphNode for FunctionDependent {
    fn compare(&self, other: &FunctionDependent) -> (placement: Placement) {
        proof {
            Self::before_is_strict_total();
        }
        let ra: u8 = self.rank();
        let rb: u8 = other.rank();
        if ra < rb {
            return Placement::Before;
        }
        if rb < ra {
            return Placement::After;
        }
        let a = self.names();
        let b = other.names();
        compare_texts(&a, &b)
    }
}

/// A body refers to exactly that function.
pub open spec fn body_refers(
    deps: Seq<DepEdge>,
    q: QnameModel,
    types: Seq<Seq<char>>,
) -> bool {
    exists|i: int|
        0 <= i < deps.len() && ((#[trigger] deps[i]).to matches NodeId::Function(name, args)
            && name@ == q && args@ == types)
}

/// `k` is a trigger of the list that calls a function of that name.
pub open spec fn trigger_dependent(list: Seq<Trigger>, q: QnameModel, k: DependentKey) -> bool {
    exists|i: int|
        0 <= i < list.len() && (#[trigger] list[i]).function_qname@ == q && k
            == FunctionDependent::Trigger(list[i].qname)@
}

/// `k` is an event trigger of the list that calls a function of that name.
pub open spec fn event_trigger_dependent(
    list: Seq<EventTrigger>,
    q: QnameModel,
    k: DependentKey,
) -> bool {
    exists|i: int|
        0 <= i < list.len() && (#[trigger] list[i]).function@ == q && k
            == FunctionDependent::EventTrigger(list[i].name)@
}

/// The aggregate calls a function of that name.
pub open spec fn aggregate_calls(a: Aggregate, q: QnameModel) -> bool {
    a.sfunc@ == q || (a.finalfunc matches Some(f) && f@ == q)
}

/// `k` is an aggregate of the list that calls a function of that name.
pub open spec fn aggregate_dependent(list: Seq<Aggregate>, q: QnameModel, k: DependentKey) -> bool {
    exists|i: int|
        0 <= i < list.len() && aggregate_calls(#[trigger] list[i], q) && k
            == FunctionDependent::Aggregate(list[i].qname)@
}

/// The cast converts by exactly that function.
pub open spec fn cast_calls(c: Cast, q: QnameModel, types: Seq<Seq<char>>) -> bool {
    c.method matches CastMethod::Function { name, arg_types } && name@ == q && models(arg_types@)
        == types
}

/// `k` is a cast of the list that converts by exactly that function.
pub open spec fn cast_dependent(
    list: Seq<Cast>,
    q: QnameModel,
    types: Seq<Seq<char>>,
    k: DependentKey,
) -> bool {
    exists|i: int|
        0 <= i < list.len() && cast_calls(#[trigger] list[i], q, types) && k
            == (FunctionDependent::Cast { source: list[i].source, target: list[i].target })@
}

/// `k` is a view of the list whose body refers to exactly that function.
pub open spec fn view_dependent(
    list: Seq<ViewDefinition>,
    q: QnameModel,
    types: Seq<Seq<char>>,
    k: DependentKey,
) -> bool {
    exists|i: int|
        0 <= i < list.len() && body_refers((#[trigger] list[i]).body_dependencies@, q, types) && k
            == FunctionDependent::BodyRef(list[i].qname)@
}

/// `k` is a materialized view of the list whose body refers to exactly that
/// function.
pub open spec fn mv_dependent(
    list: Seq<MaterializedView>,
    q: QnameModel,
    types: Seq<Seq<char>>,
    k: DependentKey,
) -> bool {
    exists|i: int|
        0 <= i < list.len() && body_refers((#[trigger] list[i]).body_dependencies@, q, types) && k
            == FunctionDependent::BodyRef(list[i].qname)@
}

/// The function refers to another function of that identity. A function is
/// not its own dependent.
pub open spec fn function_calls(f: Function, q: QnameModel, types: Seq<Seq<char>>) -> bool {
    !(f.qname@ == q && f.arg_types_normalized@ == types) && body_refers(
        f.body_dependencies@,
        q,
        types,
    )
}

/// `k` is a function of the list that refers to that function.
pub open spec fn function_dependent(
    list: Seq<Function>,
    q: QnameModel,
    types: Seq<Seq<char>>,
    k: DependentKey,
) -> bool {
    exists|i: int|
        0 <= i < list.len() && function_calls(#[trigger] list[i], q, types) && k
            == FunctionDependent::BodyRef(list[i].qname)@
}

/// `k` is a procedure of the list whose body refers to exactly that function.
pub open spec fn procedure_dependent(
    list: Seq<Procedure>,
    q: QnameModel,
    types: Seq<Seq<char>>,
    k: DependentKey,
) -> bool {
    exists|i: int|
        0 <= i < list.len() && body_refers((#[trigger] list[i]).body_dependencies@, q, types) && k
            == FunctionDependent::BodyRef(list[i].qname)@
}

/// The type is a range type that calls a function of that name.
pub open spec fn range_calls(t: UserType, q: QnameModel) -> bool {
    t.kind matches UserTypeKind::Range { canonical, subtype_diff, .. } && ((canonical matches Some(
        f,
    ) && f@ == q) || (subtype_diff matches Some(f) && f@ == q))
}

/// `k` is a range type of the list that calls a function of that name.
pub open spec fn range_dependent(list: Seq<UserType>, q: QnameModel, k: DependentKey) -> bool {
    exists|i: int|
        0 <= i < list.len() && range_calls(#[trigger] list[i], q) && k
            == FunctionDependent::BodyRef(list[i].qname)@
}

/// `k` is an object of the catalog that depends on the function.
pub open spec fn depends_on_function(
    c: Catalog,
    q: QnameModel,
    types: Seq<Seq<char>>,
    k: DependentKey,
) -> bool {
    ||| trigger_dependent(c.triggers@, q, k)
    ||| event_trigger_dependent(c.event_triggers@, q, k)
    ||| aggregate_dependent(c.aggregates@, q, k)
    ||| cast_dependent(c.casts@, q, types, k)
    ||| view_dependent(c.views@, q, types, k)
    ||| mv_dependent(c.materialized_views@, q, types, k)
    ||| function_dependent(c.functions@, q, types, k)
    ||| procedure_dependent(c.procedures@, q, types, k)
    ||| range_dependent(c.types@, q, k)
}

/// `true` iff any edge in `deps` targets the function `(qname, arg_types)`.
pub fn body_deps_reference_function(
    deps: &Vec<DepEdge>,
    qname: &QualifiedName,
    arg_types: &NormalizedArgTypes,
) -> (r: bool)
    ensures
        r == body_refers(deps@, qname@, arg_types@),
{
    let mut i: usize = 0;
    while i < deps.len()
        invariant
            i <= deps@.len(),
            forall|k: int|
                0 <= k < i ==> !((#[trigger] deps@[k]).to matches NodeId::Function(name, args)
                    && name@ == qname@ && args@ == arg_types@),
        decreases deps@.len() - i,
    {
        match &deps[i].to {
            NodeId::Function(name, args) => {
                if name.same(qname) && args.same(arg_types) {
                    assert(deps@[i as int].to matches NodeId::Function(n, a) && n@ == qname@ && a@
                        == arg_types@);
                    return true;
                }
            },
            _ => {},
        }
        i = i + 1;
    }
    false
}

/// Decides [`range_calls`].
fn range_type_calls(t: &UserType, qname: &QualifiedName) -> (r: bool)
    ensures
        r == range_calls(*t, qname@),
{
    match &t.kind {
        UserTypeKind::Range { canonical, subtype_diff, .. } => {
            let by_canonical = match canonical {
                Some(f) => f.same(qname),
                None => false,
            };
            let by_diff = match subtype_diff {
                Some(f) => f.same(qname),
                None => false,
            };
            by_canonical || by_diff
        },
        _ => false,
    }
}

/// Every dependent of the function identified by (`qname`, `arg_types`) in
/// `target`, in ascending order and without duplicates.
pub fn enumerate_function_dependents(
    qname: &QualifiedName,
    arg_types: &NormalizedArgTypes,
    target: &Catalog,
) -> (dependents: Vec<FunctionDependent>)
    ensures
        ascending::<FunctionDependent>(models(dependents@)),
        forall|k: DependentKey| #[trigger]
            models(dependents@).contains(k) <==> depends_on_function(
                *target,
                qname@,
                arg_types@,
                k,
            ),
{
    let ghost q = qname@;
    let ghost types = arg_types@;
    let mut out: Vec<FunctionDependent> = Vec::new();
    let mut i: usize = 0;
    assert(models(out@).to_set() =~= Set::empty());
    while i < target.triggers.len()
        invariant
            i <= target.triggers@.len(),
            q == qname@,
            ascending::<FunctionDependent>(models(out@)),
            models(out@).to_set() =~= Set::new(
                |k: DependentKey| trigger_dependent(target.triggers@.take(i as int), q, k),
            ),
        decreases target.triggers@.len() - i,
    {
        let t = &target.triggers[i];
        let ghost a = target.triggers@.take(i as int);
        let ghost b = target.triggers@.take(i + 1);
        assert(b =~= a.push(*t));
        if t.function_qname.same(qname) {
            insert_ascending(&mut out, FunctionDependent::Trigger(t.qname.duplicate()));
        }
        proof {
            assert forall|k: DependentKey| #[trigger] trigger_dependent(b, q, k) <==> trigger_dependent(a, q, k)
                || (t.function_qname@ == q && k == FunctionDependent::Trigger(t.qname)@) by {
                if trigger_dependent(a, q, k) {
                    let m = choose|m: int| 0 <= m < a.len() && (#[trigger] a[m]).function_qname@ == q && k == FunctionDependent::Trigger(a[m].qname)@;
                    assert(b[m] == a[m]);
                }
                if trigger_dependent(b, q, k) {
                    let m = choose|m: int| 0 <= m < b.len() && (#[trigger] b[m]).function_qname@ == q && k == FunctionDependent::Trigger(b[m].qname)@;
                    if m < a.len() {
                        assert(a[m] == b[m]);
                    }
                }
                if t.function_qname@ == q && k == FunctionDependent::Trigger(t.qname)@ {
                    assert(b[i as int] == *t);
                }
            }
        }
        i = i + 1;
    }
    assert(target.triggers@.take(i as int) =~= target.triggers@);
    let ghost s1 = models(out@).to_set();
    i = 0;
    assert(models(out@).to_set() =~= s1.union(
        Set::new(|k: DependentKey| event_trigger_dependent(target.event_triggers@.take(0), q, k)),
    ));
    while i < target.event_triggers.len()
        invariant
            i <= target.event_triggers@.len(),
            q == qname@,
            ascending::<FunctionDependent>(models(out@)),
            models(out@).to_set() =~= s1.union(
                Set::new(
                    |k: DependentKey|
                        event_trigger_dependent(target.event_triggers@.take(i as int), q, k),
                ),
            ),
        decreases target.event_triggers@.len() - i,
    {
        let t = &target.event_triggers[i];
        let ghost a = target.event_triggers@.take(i as int);
        let ghost b = target.event_triggers@.take(i + 1);
        assert(b =~= a.push(*t));
        if t.function.same(qname) {
            insert_ascending(&mut out, FunctionDependent::EventTrigger(t.name.duplicate()));
        }
        proof {
            assert forall|k: DependentKey| #[trigger] event_trigger_dependent(b, q, k) <==> event_trigger_dependent(a, q, k)
                || (t.function@ == q && k == FunctionDependent::EventTrigger(t.name)@) by {
                if event_trigger_dependent(a, q, k) {
                    let m = choose|m: int| 0 <= m < a.len() && (#[trigger] a[m]).function@ == q && k == FunctionDependent::EventTrigger(a[m].name)@;
                    assert(b[m] == a[m]);
                }
                if event_trigger_dependent(b, q, k) {
                    let m = choose|m: int| 0 <= m < b.len() && (#[trigger] b[m]).function@ == q && k == FunctionDependent::EventTrigger(b[m].name)@;
                    if m < a.len() {
                        assert(a[m] == b[m]);
                    }
                }
                if t.function@ == q && k == FunctionDependent::EventTrigger(t.name)@ {
                    assert(b[i as int] == *t);
                }
            }
        }
        i = i + 1;
    }
    assert(target.event_triggers@.take(i as int) =~= target.event_triggers@);
    let ghost s2 = models(out@).to_set();
    i = 0;
    assert(models(out@).to_set() =~= s2.union(
        Set::new(|k: DependentKey| aggregate_dependent(target.aggregates@.take(0), q, k)),
    ));
    while i < target.aggregates.len()
        invariant
            i <= target.aggregates@.len(),
            q == qname@,
            ascending::<FunctionDependent>(models(out@)),
            models(out@).to_set() =~= s2.union(
                Set::new(
                    |k: DependentKey| aggregate_dependent(target.aggregates@.take(i as int), q, k),
                ),
            ),
        decreases target.aggregates@.len() - i,
    {
        let t = &target.aggregates[i];
        let ghost a = target.aggregates@.take(i as int);
        let ghost b = target.aggregates@.take(i + 1);
        assert(b =~= a.push(*t));
        let by_final = match &t.finalfunc {
            Some(f) => f.same(qname),
            None => false,
        };
        if t.sfunc.same(qname) || by_final {
            insert_ascending(&mut out, FunctionDependent::Aggregate(t.qname.duplicate()));
        }
        proof {
            assert forall|k: DependentKey| #[trigger] aggregate_dependent(b, q, k) <==> aggregate_dependent(a, q, k)
                || (aggregate_calls(*t, q) && k == FunctionDependent::Aggregate(t.qname)@) by {
                if aggregate_dependent(a, q, k) {
                    let m = choose|m: int| 0 <= m < a.len() && aggregate_calls(#[trigger] a[m], q) && k == FunctionDependent::Aggregate(a[m].qname)@;
                    assert(b[m] == a[m]);
                }
                if aggregate_dependent(b, q, k) {
                    let m = choose|m: int| 0 <= m < b.len() && aggregate_calls(#[trigger] b[m], q) && k == FunctionDependent::Aggregate(b[m].qname)@;
                    if m < a.len() {
                        assert(a[m] == b[m]);
                    }
                }
                if aggregate_calls(*t, q) && k == FunctionDependent::Aggregate(t.qname)@ {
                    assert(b[i as int] == *t);
                }
            }
        }
        i = i + 1;
    }
    assert(target.aggregates@.take(i as int) =~= target.aggregates@);
    let ghost s3 = models(out@).to_set();
    i = 0;
    assert(models(out@).to_set() =~= s3.union(
        Set::new(|k: DependentKey| cast_dependent(target.casts@.take(0), q, types, k)),
    ));
    while i < target.casts.len()
        invariant
            i <= target.casts@.len(),
            q == qname@,
            types == arg_types@,
            ascending::<FunctionDependent>(models(out@)),
            models(out@).to_set() =~= s3.union(
                Set::new(
                    |k: DependentKey| cast_dependent(target.casts@.take(i as int), q, types, k),
                ),
            ),
        decreases target.casts@.len() - i,
    {
        let t = &target.casts[i];
        let ghost a = target.casts@.take(i as int);
        let ghost b = target.casts@.take(i + 1);
        assert(b =~= a.push(*t));
        let ghost node = (FunctionDependent::Cast { source: t.source, target: t.target })@;
        let hit = match &t.method {
            CastMethod::Function { name, arg_types: recorded } => name.same(qname) && same_types(
                recorded,
                &arg_types.types,
            ),
            _ => false,
        };
        if hit {
            insert_ascending(
                &mut out,
                FunctionDependent::Cast {
                    source: t.source.duplicate(),
                    target: t.target.duplicate(),
                },
            );
        }
        proof {
            assert forall|k: DependentKey| #[trigger] cast_dependent(b, q, types, k) <==> cast_dependent(a, q, types, k)
                || (cast_calls(*t, q, types) && k == node) by {
                if cast_dependent(a, q, types, k) {
                    let m = choose|m: int| 0 <= m < a.len() && cast_calls(#[trigger] a[m], q, types) && k == (FunctionDependent::Cast { source: a[m].source, target: a[m].target })@;
                    assert(b[m] == a[m]);
                }
                if cast_dependent(b, q, types, k) {
                    let m = choose|m: int| 0 <= m < b.len() && cast_calls(#[trigger] b[m], q, types) && k == (FunctionDependent::Cast { source: b[m].source, target: b[m].target })@;
                    if m < a.len() {
                        assert(a[m] == b[m]);
                    }
                }
                if cast_calls(*t, q, types) && k == node {
                    assert(b[i as int] == *t);
                }
            }
        }
        i = i + 1;
    }
    assert(target.casts@.take(i as int) =~= target.casts@);
    let ghost s4 = models(out@).to_set();
    i = 0;
    assert(models(out@).to_set() =~= s4.union(
        Set::new(|k: DependentKey| view_dependent(target.views@.take(0), q, types, k)),
    ));
    while i < target.views.len()
        invariant
            i <= target.views@.len(),
            q == qname@,
            types == arg_types@,
            ascending::<FunctionDependent>(models(out@)),
            models(out@).to_set() =~= s4.union(
                Set::new(
                    |k: DependentKey| view_dependent(target.views@.take(i as int), q, types, k),
                ),
            ),
        decreases target.views@.len() - i,
    {
        let t = &target.views[i];
        let ghost a = target.views@.take(i as int);
        let ghost b = target.views@.take(i + 1);
        assert(b =~= a.push(*t));
        if body_deps_reference_function(&t.body_dependencies, qname, arg_types) {
            insert_ascending(&mut out, FunctionDependent::BodyRef(t.qname.duplicate()));
        }
        proof {
            assert forall|k: DependentKey| #[trigger] view_dependent(b, q, types, k) <==> view_dependent(a, q, types, k)
                || (body_refers(t.body_dependencies@, q, types) && k == FunctionDependent::BodyRef(t.qname)@) by {
                if view_dependent(a, q, types, k) {
                    let m = choose|m: int| 0 <= m < a.len() && body_refers((#[trigger] a[m]).body_dependencies@, q, types) && k == FunctionDependent::BodyRef(a[m].qname)@;
                    assert(b[m] == a[m]);
                }
                if view_dependent(b, q, types, k) {
                    let m = choose|m: int| 0 <= m < b.len() && body_refers((#[trigger] b[m]).body_dependencies@, q, types) && k == FunctionDependent::BodyRef(b[m].qname)@;
                    if m < a.len() {
                        assert(a[m] == b[m]);
                    }
                }
                if body_refers(t.body_dependencies@, q, types) && k == FunctionDependent::BodyRef(t.qname)@ {
                    assert(b[i as int] == *t);
                }
            }
        }
        i = i + 1;
    }
    assert(target.views@.take(i as int) =~= target.views@);
    let ghost s5 = models(out@).to_set();
    i = 0;
    assert(models(out@).to_set() =~= s5.union(
        Set::new(|k: DependentKey| mv_dependent(target.materialized_views@.take(0), q, types, k)),
    ));
    while i < target.materialized_views.len()
        invariant
            i <= target.materialized_views@.len(),
            q == qname@,
            types == arg_types@,
            ascending::<FunctionDependent>(models(out@)),
            models(out@).to_set() =~= s5.union(
                Set::new(
                    |k: DependentKey|
                        mv_dependent(target.materialized_views@.take(i as int), q, types, k),
                ),
            ),
        decreases target.materialized_views@.len() - i,
    {
        let t = &target.materialized_views[i];
        let ghost a = target.materialized_views@.take(i as int);
        let ghost b = target.materialized_views@.take(i + 1);
        assert(b =~= a.push(*t));
        if body_deps_reference_function(&t.body_dependencies, qname, arg_types) {
            insert_ascending(&mut out, FunctionDependent::BodyRef(t.qname.duplicate()));
        }
        proof {
            assert forall|k: DependentKey| #[trigger] mv_dependent(b, q, types, k) <==> mv_dependent(a, q, types, k)
                || (body_refers(t.body_dependencies@, q, types) && k == FunctionDependent::BodyRef(t.qname)@) by {
                if mv_dependent(a, q, types, k) {
                    let m = choose|m: int| 0 <= m < a.len() && body_refers((#[trigger] a[m]).body_dependencies@, q, types) && k == FunctionDependent::BodyRef(a[m].qname)@;
                    assert(b[m] == a[m]);
                }
                if mv_dependent(b, q, types, k) {
                    let m = choose|m: int| 0 <= m < b.len() && body_refers((#[trigger] b[m]).body_dependencies@, q, types) && k == FunctionDependent::BodyRef(b[m].qname)@;
                    if m < a.len() {
                        assert(a[m] == b[m]);
                    }
                }
                if body_refers(t.body_dependencies@, q, types) && k == FunctionDependent::BodyRef(t.qname)@ {
                    assert(b[i as int] == *t);
                }
            }
        }
        i = i + 1;
    }
    assert(target.materialized_views@.take(i as int) =~= target.materialized_views@);
    let ghost s6 = models(out@).to_set();
    i = 0;
    assert(models(out@).to_set() =~= s6.union(
        Set::new(|k: DependentKey| function_dependent(target.functions@.take(0), q, types, k)),
    ));
    while i < target.functions.len()
        invariant
            i <= target.functions@.len(),
            q == qname@,
            types == arg_types@,
            ascending::<FunctionDependent>(models(out@)),
            models(out@).to_set() =~= s6.union(
                Set::new(
                    |k: DependentKey|
                        function_dependent(target.functions@.take(i as int), q, types, k),
                ),
            ),
        decreases target.functions@.len() - i,
    {
        let t = &target.functions[i];
        let ghost a = target.functions@.take(i as int);
        let ghost b = target.functions@.take(i + 1);
        assert(b =~= a.push(*t));
        let own = t.qname.same(qname) && t.arg_types_normalized.same(arg_types);
        if !own && body_deps_reference_function(&t.body_dependencies, qname, arg_types) {
            insert_ascending(&mut out, FunctionDependent::BodyRef(t.qname.duplicate()));
        }
        proof {
            assert forall|k: DependentKey| #[trigger] function_dependent(b, q, types, k) <==> function_dependent(a, q, types, k)
                || (function_calls(*t, q, types) && k == FunctionDependent::BodyRef(t.qname)@) by {
                if function_dependent(a, q, types, k) {
                    let m = choose|m: int| 0 <= m < a.len() && function_calls(#[trigger] a[m], q, types) && k == FunctionDependent::BodyRef(a[m].qname)@;
                    assert(b[m] == a[m]);
                }
                if function_dependent(b, q, types, k) {
                    let m = choose|m: int| 0 <= m < b.len() && function_calls(#[trigger] b[m], q, types) && k == FunctionDependent::BodyRef(b[m].qname)@;
                    if m < a.len() {
                        assert(a[m] == b[m]);
                    }
                }
                if function_calls(*t, q, types) && k == FunctionDependent::BodyRef(t.qname)@ {
                    assert(b[i as int] == *t);
                }
            }
        }
        i = i + 1;
    }
    assert(target.functions@.take(i as int) =~= target.functions@);
    let ghost s7 = models(out@).to_set();
    i = 0;
    assert(models(out@).to_set() =~= s7.union(
        Set::new(|k: DependentKey| procedure_dependent(target.procedures@.take(0), q, types, k)),
    ));
    while i < target.procedures.len()
        invariant
            i <= target.procedures@.len(),
            q == qname@,
            types == arg_types@,
            ascending::<FunctionDependent>(models(out@)),
            models(out@).to_set() =~= s7.union(
                Set::new(
                    |k: DependentKey|
                        procedure_dependent(target.procedures@.take(i as int), q, types, k),
                ),
            ),
        decreases target.procedures@.len() - i,
    {
        let t = &target.procedures[i];
        let ghost a = target.procedures@.take(i as int);
        let ghost b = target.procedures@.take(i + 1);
        assert(b =~= a.push(*t));
        if body_deps_reference_function(&t.body_dependencies, qname, arg_types) {
            insert_ascending(&mut out, FunctionDependent::BodyRef(t.qname.duplicate()));
        }
        proof {
            assert forall|k: DependentKey| #[trigger] procedure_dependent(b, q, types, k) <==> procedure_dependent(a, q, types, k)
                || (body_refers(t.body_dependencies@, q, types) && k == FunctionDependent::BodyRef(t.qname)@) by {
                if procedure_dependent(a, q, types, k) {
                    let m = choose|m: int| 0 <= m < a.len() && body_refers((#[trigger] a[m]).body_dependencies@, q, types) && k == FunctionDependent::BodyRef(a[m].qname)@;
                    assert(b[m] == a[m]);
                }
                if procedure_dependent(b, q, types, k) {
                    let m = choose|m: int| 0 <= m < b.len() && body_refers((#[trigger] b[m]).body_dependencies@, q, types) && k == FunctionDependent::BodyRef(b[m].qname)@;
                    if m < a.len() {
                        assert(a[m] == b[m]);
                    }
                }
                if body_refers(t.body_dependencies@, q, types) && k == FunctionDependent::BodyRef(t.qname)@ {
                    assert(b[i as int] == *t);
                }
            }
        }
        i = i + 1;
    }
    assert(target.procedures@.take(i as int) =~= target.procedures@);
    let ghost s8 = models(out@).to_set();
    i = 0;
    assert(models(out@).to_set() =~= s8.union(
        Set::new(|k: DependentKey| range_dependent(target.types@.take(0), q, k)),
    ));
    while i < target.types.len()
        invariant
            i <= target.types@.len(),
            q == qname@,
            ascending::<FunctionDependent>(models(out@)),
            models(out@).to_set() =~= s8.union(
                Set::new(
                    |k: DependentKey| range_dependent(target.types@.take(i as int), q, k),
                ),
            ),
        decreases target.types@.len() - i,
    {
        let t = &target.types[i];
        let ghost a = target.types@.take(i as int);
        let ghost b = target.types@.take(i + 1);
        assert(b =~= a.push(*t));
        if range_type_calls(t, qname) {
            insert_ascending(&mut out, FunctionDependent::BodyRef(t.qname.duplicate()));
        }
        proof {
            assert forall|k: DependentKey| #[trigger] range_dependent(b, q, k) <==> range_dependent(a, q, k)
                || (range_calls(*t, q) && k == FunctionDependent::BodyRef(t.qname)@) by {
                if range_dependent(a, q, k) {
                    let m = choose|m: int| 0 <= m < a.len() && range_calls(#[trigger] a[m], q) && k == FunctionDependent::BodyRef(a[m].qname)@;
                    assert(b[m] == a[m]);
                }
                if range_dependent(b, q, k) {
                    let m = choose|m: int| 0 <= m < b.len() && range_calls(#[trigger] b[m], q) && k == FunctionDependent::BodyRef(b[m].qname)@;
                    if m < a.len() {
                        assert(a[m] == b[m]);
                    }
                }
                if range_calls(*t, q) && k == FunctionDependent::BodyRef(t.qname)@ {
                    assert(b[i as int] == *t);
                }
            }
        }
        i = i + 1;
    }
    assert(target.types@.take(i as int) =~= target.types@);
    proof {
        assert forall|k: DependentKey| #[trigger] models(out@).contains(k) <==> depends_on_function(
            *target,
            q,
            types,
            k,
        ) by {
            assert(models(out@).to_set().contains(k) <==> models(out@).contains(k));
        }
    }
    out
}

/// The enumeration never leaves a dependent out and names none twice: it is
/// determined by the catalog alone.
pub proof fn law_enumeration_is_determined(
    c: Catalog,
    q: QnameModel,
    types: Seq<Seq<char>>,
    first: Seq<DependentKey>,
    second: Seq<DependentKey>,
)
    requires
        ascending::<FunctionDependent>(first),
        ascending::<FunctionDependent>(second),
        forall|k: DependentKey| #[trigger] first.contains(k) <==> depends_on_function(c, q, types, k),
        forall|k: DependentKey| #[trigger] second.contains(k) <==> depends_on_function(c, q, types, k),
    ensures
        first == second,
        first.no_duplicates(),
{
    assert(first.to_set() =~= second.to_set()) by {
        assert forall|k: DependentKey| #[trigger] first.to_set().contains(k) <==> second.to_set().contains(k) by {
            assert(first.contains(k) <==> second.contains(k));
        }
    }
    crate::plan::graph::lemma_ascending_determined::<FunctionDependent>(first, second);
    FunctionDependent::before_is_strict_total();
    assert forall|i: int, j: int| 0 <= i < j < first.len() implies first[i] != first[j] by {
        assert(FunctionDependent::before(first[i], first[j]));
    }
}

/// Every edge that a body records starts at the object with that body.
pub open spec fn bodies_record_own_edges(c: Catalog) -> bool {
    &&& forall|i: int, k: int|
        0 <= i < c.views@.len() && 0 <= k < c.views@[i].body_dependencies@.len() ==> (
        #[trigger] c.views@[i].body_dependencies@[k]).from@ == NodeId::View(c.views@[i].qname)@
    &&& forall|i: int, k: int|
        0 <= i < c.materialized_views@.len() && 0 <= k
            < c.materialized_views@[i].body_dependencies@.len() ==> (
        #[trigger] c.materialized_views@[i].body_dependencies@[k]).from@ == NodeId::Mv(
            c.materialized_views@[i].qname,
        )@
    &&& forall|i: int, k: int|
        0 <= i < c.functions@.len() && 0 <= k < c.functions@[i].body_dependencies@.len() ==> (
        #[trigger] c.functions@[i].body_dependencies@[k]).from@ == function_node(c.functions@[i])
    &&& forall|i: int, k: int|
        0 <= i < c.procedures@.len() && 0 <= k < c.procedures@[i].body_dependencies@.len() ==> (
        #[trigger] c.procedures@[i].body_dependencies@[k]).from@ == NodeId::Procedure(
            c.procedures@[i].qname,
        )@
}

/// How the enumeration names a node of the drop graph.
pub open spec fn dependent_of(n: NodeKey) -> DependentKey {
    if n.rank == 11 {
        DependentKey { rank: 0, parts: n.parts }
    } else if n.rank == 16 {
        DependentKey { rank: 1, parts: n.parts }
    } else if n.rank == 17 {
        DependentKey { rank: 2, parts: n.parts.take(2) }
    } else if n.rank == 18 {
        DependentKey { rank: 3, parts: n.parts }
    } else {
        DependentKey { rank: 4, parts: n.parts.take(2) }
    }
}

/// The node of a function.
pub open spec fn function_key(q: QnameModel, types: Seq<Seq<char>>) -> NodeKey {
    NodeKey { rank: 8, parts: q.parts() + types }
}

/// A function's node tells its name and its argument types.
proof fn lemma_function_key(a: QnameModel, s: Seq<Seq<char>>, b: QnameModel, t: Seq<Seq<char>>)
    requires
        function_key(a, s) == function_key(b, t),
    ensures
        a == b,
        s == t,
{
    let p = a.parts() + s;
    let r = b.parts() + t;
    assert(p[0] == a.schema && p[1] == a.name);
    assert(r[0] == b.schema && r[1] == b.name);
    assert(p.skip(2) =~= s);
    assert(r.skip(2) =~= t);
    assert(a =~= b);
}

/// A recorded edge to the function is a reference to it.
proof fn lemma_body_edge_refers(
    deps: Seq<DepEdge>,
    q: QnameModel,
    types: Seq<Seq<char>>,
    n: NodeKey,
) -> (k: int)
    requires
        body_edges(deps).contains((n, function_key(q, types))),
    ensures
        0 <= k < deps.len(),
        deps[k].from@ == n,
        body_refers(deps, q, types),
{
    let k = choose|k: int|
        0 <= k < deps.len() && (#[trigger] deps[k]).from@ == n && deps[k].to@ == function_key(
            q,
            types,
        );
    match deps[k].to {
        NodeId::Function(name, args) => {
            lemma_function_key(name@, args@, q, types);
        },
        _ => {},
    }
    k
}

/// A reference by name is one to a function of that name.
proof fn lemma_named_function(c: Catalog, f: QualifiedName, q: QnameModel, types: Seq<Seq<char>>)
    requires
        names_function(c, f, function_key(q, types)),
    ensures
        f@ == q,
{
    let i = choose|i: int| #[trigger]
        first_function(c, f, i) && function_key(q, types) == function_node(c.functions@[i]);
    lemma_function_key(c.functions@[i].qname@, c.functions@[i].arg_types_normalized@, q, types);
}

/// Objects with bodies: what they record of the function is enumerated.
proof fn lemma_bodies_covered(
    c: Catalog,
    scope: ScopeModel,
    q: QnameModel,
    types: Seq<Seq<char>>,
    n: NodeKey,
)
    requires
        scope.catalog == c,
        bodies_record_own_edges(c),
        n != function_key(q, types),
        ({
            let e = (n, function_key(q, types));
            ||| all_need(c.views@, scope).contains(e)
            ||| all_need(c.materialized_views@, scope).contains(e)
            ||| all_need(c.functions@, scope).contains(e)
            ||| all_need(c.procedures@, scope).contains(e)
        }),
    ensures
        depends_on_function(c, q, types, dependent_of(n)),
{
    let e = (n, function_key(q, types));
    if all_need(c.views@, scope).contains(e) {
        let i = choose|i: int|
            0 <= i < c.views@.len() && (#[trigger] c.views@[i]).needs(scope).contains(e);
        let v = c.views@[i];
        let k = lemma_body_edge_refers(v.body_dependencies@, q, types, n);
        assert(c.views@[i].body_dependencies@[k].from@ == NodeId::View(v.qname)@);
        assert(n.parts.take(2) =~= v.qname@.parts());
        assert(view_dependent(c.views@, q, types, dependent_of(n)));
    } else if all_need(c.materialized_views@, scope).contains(e) {
        let i = choose|i: int|
            0 <= i < c.materialized_views@.len() && (
            #[trigger] c.materialized_views@[i]).needs(scope).contains(e);
        let v = c.materialized_views@[i];
        let k = lemma_body_edge_refers(v.body_dependencies@, q, types, n);
        assert(c.materialized_views@[i].body_dependencies@[k].from@ == NodeId::Mv(v.qname)@);
        assert(n.parts.take(2) =~= v.qname@.parts());
        assert(mv_dependent(c.materialized_views@, q, types, dependent_of(n)));
    } else if all_need(c.functions@, scope).contains(e) {
        let i = choose|i: int|
            0 <= i < c.functions@.len() && (#[trigger] c.functions@[i]).needs(scope).contains(e);
        let f = c.functions@[i];
        let k = lemma_body_edge_refers(f.body_dependencies@, q, types, n);
        assert(c.functions@[i].body_dependencies@[k].from@ == function_node(f));
        assert(n.parts.take(2) =~= f.qname@.parts());
        assert(function_calls(f, q, types));
        assert(function_dependent(c.functions@, q, types, dependent_of(n)));
    } else {
        let i = choose|i: int|
            0 <= i < c.procedures@.len() && (#[trigger] c.procedures@[i]).needs(scope).contains(e);
        let p = c.procedures@[i];
        let k = lemma_body_edge_refers(p.body_dependencies@, q, types, n);
        assert(c.procedures@[i].body_dependencies@[k].from@ == NodeId::Procedure(p.qname)@);
        assert(n.parts.take(2) =~= p.qname@.parts());
        assert(procedure_dependent(c.procedures@, q, types, dependent_of(n)));
    }
}

/// Objects that refer by name, and casts: their edges to the function are
/// enumerated.
proof fn lemma_references_covered(
    c: Catalog,
    scope: ScopeModel,
    q: QnameModel,
    types: Seq<Seq<char>>,
    n: NodeKey,
)
    requires
        scope.catalog == c,
        ({
            let e = (n, function_key(q, types));
            ||| all_need(c.triggers@, scope).contains(e)
            ||| all_need(c.event_triggers@, scope).contains(e)
            ||| all_need(c.aggregates@, scope).contains(e)
            ||| all_need(c.casts@, scope).contains(e)
            ||| all_need(c.types@, scope).contains(e)
        }),
    ensures
        depends_on_function(c, q, types, dependent_of(n)),
{
    let to = function_key(q, types);
    let e = (n, to);
    if all_need(c.triggers@, scope).contains(e) {
        let i = choose|i: int|
            0 <= i < c.triggers@.len() && (#[trigger] c.triggers@[i]).needs(scope).contains(e);
        lemma_named_function(c, c.triggers@[i].function_qname, q, types);
        assert(trigger_dependent(c.triggers@, q, dependent_of(n)));
    } else if all_need(c.event_triggers@, scope).contains(e) {
        let i = choose|i: int|
            0 <= i < c.event_triggers@.len() && (#[trigger] c.event_triggers@[i]).needs(
                scope,
            ).contains(e);
        lemma_named_function(c, c.event_triggers@[i].function, q, types);
        assert(event_trigger_dependent(c.event_triggers@, q, dependent_of(n)));
    } else if all_need(c.aggregates@, scope).contains(e) {
        let i = choose|i: int|
            0 <= i < c.aggregates@.len() && (#[trigger] c.aggregates@[i]).needs(scope).contains(e);
        let a = c.aggregates@[i];
        if names_function(c, a.sfunc, to) {
            lemma_named_function(c, a.sfunc, q, types);
        } else {
            lemma_named_function(c, a.finalfunc->Some_0, q, types);
        }
        assert(n.parts.take(2) =~= a.qname@.parts());
        assert(aggregate_calls(a, q));
        assert(aggregate_dependent(c.aggregates@, q, dependent_of(n)));
    } else if all_need(c.casts@, scope).contains(e) {
        let i = choose|i: int|
            0 <= i < c.casts@.len() && (#[trigger] c.casts@[i]).needs(scope).contains(e);
        let cast = c.casts@[i];
        match cast.method {
            CastMethod::Function { name, arg_types } => {
                lemma_function_key(name@, models(arg_types@), q, types);
            },
            _ => {},
        }
        assert(cast_calls(cast, q, types));
        assert(cast_dependent(c.casts@, q, types, dependent_of(n)));
    } else {
        let i = choose|i: int|
            0 <= i < c.types@.len() && (#[trigger] c.types@[i]).needs(scope).contains(e);
        let t = c.types@[i];
        match t.kind {
            UserTypeKind::Range { canonical, subtype_diff, .. } => {
                if canonical is Some && names_function(c, canonical->Some_0, to) {
                    lemma_named_function(c, canonical->Some_0, q, types);
                } else {
                    lemma_named_function(c, subtype_diff->Some_0, q, types);
                }
            },
            _ => {},
        }
        assert(range_calls(t, q));
        assert(n.parts.take(2) =~= t.qname@.parts());
        assert(range_dependent(c.types@, q, dependent_of(n)));
    }
}

/// The enumeration reproduces every edge of the drop graph that leads to the
/// function from another object: that object is in the list.
pub proof fn law_enumeration_covers_the_drop_graph(
    c: Catalog,
    q: QnameModel,
    types: Seq<Seq<char>>,
    n: NodeKey,
)
    requires
        bodies_record_own_edges(c),
        catalog_graph(c, Seq::empty()).edges.contains((n, function_key(q, types))),
        n != function_key(q, types),
    ensures
        depends_on_function(c, q, types, dependent_of(n)),
{
    let scope = ScopeModel { catalog: c, cycle: Seq::empty() };
    let e = (n, function_key(q, types));
    assert(dependency_edges(scope).contains(e));
    if all_need(c.views@, scope).contains(e) || all_need(c.materialized_views@, scope).contains(e)
        || all_need(c.functions@, scope).contains(e) || all_need(c.procedures@, scope).contains(e) {
        lemma_bodies_covered(c, scope, q, types, n);
    } else if all_need(c.triggers@, scope).contains(e) || all_need(
        c.event_triggers@,
        scope,
    ).contains(e) || all_need(c.aggregates@, scope).contains(e) || all_need(
        c.casts@,
        scope,
    ).contains(e) || all_need(c.types@, scope).contains(e) {
        lemma_references_covered(c, scope, q, types, n);
    }
}

/// What the enumeration reports refers to the function: a trigger, an event
/// trigger, an aggregate or a range type names it; a cast or a body names it
/// with exactly its argument types. A function is not reported for calling
/// itself.
pub proof fn law_enumeration_reports_only_referrers(
    c: Catalog,
    q: QnameModel,
    types: Seq<Seq<char>>,
    k: DependentKey,
)
    requires
        depends_on_function(c, q, types, k),
    ensures
        ({
            let named = |n: QualifiedName| DependentKey { rank: 4, parts: seq![n.schema@, n.name@] };
            ||| exists|i: int|
                0 <= i < c.triggers@.len() && (#[trigger] c.triggers@[i]).function_qname@ == q && k
                    == (DependentKey {
                    rank: 0,
                    parts: seq![c.triggers@[i].qname.schema@, c.triggers@[i].qname.name@],
                })
            ||| exists|i: int|
                0 <= i < c.event_triggers@.len() && (#[trigger] c.event_triggers@[i]).function@ == q
                    && k == (DependentKey { rank: 1, parts: seq![c.event_triggers@[i].name@] })
            ||| exists|i: int|
                0 <= i < c.aggregates@.len() && ((#[trigger] c.aggregates@[i]).sfunc@ == q || (
                c.aggregates@[i].finalfunc matches Some(f) && f@ == q)) && k == (DependentKey {
                    rank: 2,
                    parts: seq![c.aggregates@[i].qname.schema@, c.aggregates@[i].qname.name@],
                })
            ||| exists|i: int|
                0 <= i < c.casts@.len() && ((#[trigger] c.casts@[i]).method matches
                    CastMethod::Function { name, arg_types } && name@ == q && models(arg_types@)
                    == types) && k.rank == 3
            ||| exists|i: int|
                0 <= i < c.views@.len() && names_exactly(
                    (#[trigger] c.views@[i]).body_dependencies@,
                    q,
                    types,
                ) && k == named(c.views@[i].qname)
            ||| exists|i: int|
                0 <= i < c.materialized_views@.len() && names_exactly(
                    (#[trigger] c.materialized_views@[i]).body_dependencies@,
                    q,
                    types,
                ) && k == named(c.materialized_views@[i].qname)
            ||| exists|i: int|
                0 <= i < c.functions@.len() && names_exactly(
                    (#[trigger] c.functions@[i]).body_dependencies@,
                    q,
                    types,
                ) && k == named(c.functions@[i].qname) && (c.functions@[i].qname@ != q
                    || c.functions@[i].arg_types_normalized@ != types)
            ||| exists|i: int|
                0 <= i < c.procedures@.len() && names_exactly(
                    (#[trigger] c.procedures@[i]).body_dependencies@,
                    q,
                    types,
                ) && k == named(c.procedures@[i].qname)
            ||| exists|i: int|
                0 <= i < c.types@.len() && ((#[trigger] c.types@[i]).kind matches
                    UserTypeKind::Range { canonical, subtype_diff, .. } && ((canonical is Some
                    && canonical->Some_0@ == q) || (subtype_diff is Some && subtype_diff->Some_0@
                    == q))) && k == named(c.types@[i].qname)
        }),
{
}

/// One of the recorded edges leads to the function of that name with exactly
/// those argument types.
pub open spec fn names_exactly(
    deps: Seq<DepEdge>,
    q: QnameModel,
    types: Seq<Seq<char>>,
) -> bool {
    exists|j: int|
        0 <= j < deps.len() && (#[trigger] deps[j]).to is Function && deps[j].to->Function_0@ == q
            && deps[j].to->Function_1@ == types
}

} // verus!
