//! How objects are called in messages.

use crate::identifier::{
    folded, is_reserved, is_unquoted, name_sql, read_unquoted, Identifier, IdentifierError,
    QualifiedName,
};
use crate::ir::function::NormalizedArgTypes;
use crate::order::{char_lt, lex, lex_by, text_lt};
use crate::plan::edges::{node_lt, NodeId};
use crate::plan::error::{node_display, PlanError};
use crate::plan::graph::Ranked;
use crate::plan::ordering::node_label;
use crate::text::{doubled, joined};
use vstd::prelude::*;

verus! {

/// A node that a name and a schema identify is called by its kind and its
/// dotted name where cycles are listed.
pub proof fn law_qualified_nodes_are_labelled_by_kind_and_name(q: QualifiedName)
    ensures
        node_label(NodeId::Table(q)@) == "table:"@ + (q.schema@ + "."@ + q.name@),
        node_label(NodeId::Index(q)@) == "index:"@ + (q.schema@ + "."@ + q.name@),
        node_label(NodeId::Sequence(q)@) == "sequence:"@ + (q.schema@ + "."@ + q.name@),
        node_label(NodeId::View(q)@) == "view:"@ + (q.schema@ + "."@ + q.name@),
        node_label(NodeId::Mv(q)@) == "mv:"@ + (q.schema@ + "."@ + q.name@),
        node_label(NodeId::Type(q)@) == "type:"@ + (q.schema@ + "."@ + q.name@),
        node_label(NodeId::Procedure(q)@) == "procedure:"@ + (q.schema@ + "."@ + q.name@),
        node_label(NodeId::Statistic(q)@) == "statistic:"@ + (q.schema@ + "."@ + q.name@),
        node_label(NodeId::Collation(q)@) == "collation:"@ + (q.schema@ + "."@ + q.name@),
        node_label(NodeId::TsDictionary(q)@) == "ts_dictionary:"@ + (q.schema@ + "."@ + q.name@),
        node_label(NodeId::TsConfiguration(q)@) == "ts_configuration:"@ + (q.schema@ + "."@
            + q.name@),
        node_label(NodeId::Trigger(q)@) == "trigger:"@ + (q.schema@ + "."@ + q.name@),
{
    assert(q@.parts()[0] == q.schema@ && q@.parts()[1] == q.name@);
}

/// A node that a single name identifies is called by its kind and that name.
pub proof fn law_plain_nodes_are_labelled_by_kind_and_name(name: Identifier)
    ensures
        node_label(NodeId::Schema(name)@) == "schema:"@ + name@,
        node_label(NodeId::Extension(name)@) == "extension:"@ + name@,
        node_label(NodeId::Publication(name)@) == "publication:"@ + name@,
        node_label(NodeId::Subscription(name)@) == "subscription:"@ + name@,
        node_label(NodeId::EventTrigger(name)@) == "event_trigger:"@ + name@,
{
    assert(seq![name@][0] == name@);
}

/// A constraint is called by its table and its own name, a routine by its name
/// and its argument types, and a cast by the two types.
pub proof fn law_other_nodes_are_labelled_in_full(
    q: QualifiedName,
    to: QualifiedName,
    name: Identifier,
    args: NormalizedArgTypes,
)
    ensures
        node_label((NodeId::Constraint { table: q, name })@) == "constraint:"@ + (q.schema@ + "."@
            + q.name@) + "."@ + name@,
        node_label(NodeId::Function(q, args)@) == "function:"@ + (q.schema@ + "."@ + q.name@ + "("@
            + joined(args@, ","@) + ")"@),
        node_label(NodeId::Aggregate(q, args)@) == "aggregate:"@ + (q.schema@ + "."@ + q.name@
            + "("@ + joined(args@, ","@) + ")"@),
        node_label(NodeId::Cast(q, to)@) == "cast:"@ + (q.schema@ + "."@ + q.name@) + " as "@ + (
        to.schema@ + "."@ + to.name@),
{
    let c = (NodeId::Constraint { table: q, name })@.parts;
    assert(c =~= seq![q.schema@, q.name@, name@]);
    let f = q@.parts() + args@;
    assert(f[0] == q.schema@ && f[1] == q.name@);
    assert(f.skip(2) =~= args@);
    let k = q@.parts() + to@.parts();
    assert(k =~= seq![q.schema@, q.name@, to.schema@, to.name@]);
}

/// In the message of a cycle that bodies close, a node goes by its bare name; a
/// trigger, a constraint, a routine and a cast say more.
pub proof fn law_nodes_of_a_body_cycle_go_by_their_names(
    q: QualifiedName,
    to: QualifiedName,
    name: Identifier,
    args: NormalizedArgTypes,
)
    ensures
        node_display(NodeId::Table(q)) == q.schema@ + "."@ + q.name@,
        node_display(NodeId::Index(q)) == q.schema@ + "."@ + q.name@,
        node_display(NodeId::Sequence(q)) == q.schema@ + "."@ + q.name@,
        node_display(NodeId::View(q)) == q.schema@ + "."@ + q.name@,
        node_display(NodeId::Mv(q)) == q.schema@ + "."@ + q.name@,
        node_display(NodeId::Type(q)) == q.schema@ + "."@ + q.name@,
        node_display(NodeId::Procedure(q)) == q.schema@ + "."@ + q.name@,
        node_display(NodeId::Statistic(q)) == q.schema@ + "."@ + q.name@,
        node_display(NodeId::Collation(q)) == q.schema@ + "."@ + q.name@,
        node_display(NodeId::TsDictionary(q)) == q.schema@ + "."@ + q.name@,
        node_display(NodeId::TsConfiguration(q)) == q.schema@ + "."@ + q.name@,
        node_display(NodeId::Schema(name)) == name@,
        node_display(NodeId::Extension(name)) == name@,
        node_display(NodeId::Publication(name)) == name@,
        node_display(NodeId::Subscription(name)) == name@,
        node_display(NodeId::EventTrigger(name)) == name@,
        node_display(NodeId::Trigger(q)) == "trigger "@ + (q.schema@ + "."@ + q.name@),
        node_display(NodeId::Constraint { table: q, name }) == q.schema@ + "."@ + q.name@ + "."@
            + name@,
        node_display(NodeId::Function(q, args)) == q.schema@ + "."@ + q.name@ + "("@ + joined(
            args@,
            ","@,
        ) + ")"@,
        node_display(NodeId::Aggregate(q, args)) == q.schema@ + "."@ + q.name@ + "("@ + joined(
            args@,
            ","@,
        ) + ")"@,
        node_display(NodeId::Cast(q, to)) == "cast("@ + (q.schema@ + "."@ + q.name@) + " as "@ + (
        to.schema@ + "."@ + to.name@) + ")"@,
{
}

/// The message of a cycle that bodies close names its nodes in order, with an
/// arrow from each to the next.
pub proof fn law_body_cycles_are_told_as_a_chain(nodes: Vec<NodeId>)
    ensures
        nodes@.len() == 1 ==> (PlanError::BodyCycle { nodes }).message()
            == "body-derived dependency cycle: "@ + node_display(nodes@[0]),
        nodes@.len() == 2 ==> (PlanError::BodyCycle { nodes }).message()
            == "body-derived dependency cycle: "@ + (node_display(nodes@[0]) + " \u{2192} "@
            + node_display(nodes@[1])),
        nodes@.len() == 3 ==> (PlanError::BodyCycle { nodes }).message()
            == "body-derived dependency cycle: "@ + (node_display(nodes@[0]) + " \u{2192} "@
            + node_display(nodes@[1]) + " \u{2192} "@ + node_display(nodes@[2])),
{
    reveal_with_fuel(joined, 4);
    let d = crate::plan::error::node_displays(nodes@);
    if nodes@.len() >= 2 {
        assert(d.drop_last()[0] == d[0]);
    }
    if nodes@.len() == 3 {
        assert(d.drop_last()[1] == d[1]);
        assert(d.drop_last().drop_last()[0] == d[0]);
    }
}

/// A name is written bare only where that reads back as the same name, and in
/// double quotes otherwise; a qualified name is its two parts with a dot between.
pub proof fn law_written_names_read_back(s: Seq<char>, q: QualifiedName)
    ensures
        name_sql(s) == s || name_sql(s) == "\""@ + doubled(s, '"') + "\""@,
        name_sql(s) == s ==> read_unquoted(s) == Ok::<Seq<char>, IdentifierError>(s)
            && !is_reserved(s),
        read_unquoted(s) == Ok::<Seq<char>, IdentifierError>(s) && !is_reserved(s) ==> name_sql(s)
            == s,
        q@.sql() == name_sql(q.schema@) + "."@ + name_sql(q.name@),
{
    if name_sql(s) == s && !(is_unquoted(s) && folded(s) =~= s && !is_reserved(s)) {
        reveal_strlit("\"");
        lemma_doubled_is_longer(s);
        assert(("\""@ + doubled(s, '"') + "\""@).len() == s.len());
    }
}

proof fn lemma_doubled_is_longer(s: Seq<char>)
    ensures
        doubled(s, '"').len() >= s.len(),
    decreases s.len(),
{
    if s.len() > 0 {
        lemma_doubled_is_longer(s.drop_last());
    }
}

/// Nodes of one kind that a qualified name identifies come by schema and then by
/// name.
pub proof fn law_nodes_of_a_kind_sort_by_schema_then_name(a: QualifiedName, b: QualifiedName)
    ensures
        node_lt(NodeId::Table(a)@, NodeId::Table(b)@) <==> text_lt(a.schema@, b.schema@) || (
        a.schema@ == b.schema@ && text_lt(a.name@, b.name@)),
        node_lt(NodeId::View(a)@, NodeId::View(b)@) <==> node_lt(
            NodeId::Table(a)@,
            NodeId::Table(b)@,
        ),
        node_lt(NodeId::Index(a)@, NodeId::Index(b)@) <==> node_lt(
            NodeId::Table(a)@,
            NodeId::Table(b)@,
        ),
        node_lt(NodeId::Type(a)@, NodeId::Type(b)@) <==> node_lt(
            NodeId::Table(a)@,
            NodeId::Table(b)@,
        ),
        <QualifiedName as Ranked>::before(a@, b@) <==> node_lt(
            NodeId::Table(a)@,
            NodeId::Table(b)@,
        ),
{
    let l = lex_by(char_lt());
    let s = a@.parts();
    let t = b@.parts();
    reveal_with_fuel(lex, 3);
    assert(s[0] == a.schema@ && s[1] == a.name@ && t[0] == b.schema@ && t[1] == b.name@);
    assert(s.drop_first()[0] == a.name@ && t.drop_first()[0] == b.name@);
    assert(s.drop_first().drop_first().len() == 0 && t.drop_first().drop_first().len() == 0);
    assert(l(a.schema@, b.schema@) == text_lt(a.schema@, b.schema@));
    assert(l(a.name@, b.name@) == text_lt(a.name@, b.name@));
}

/// Nodes come by kind before anything else: schemas, tables, indexes, sequences,
/// constraints, views, materialized views, types, functions, procedures,
/// extensions, triggers, publications, subscriptions, statistics, collations,
/// event triggers, aggregates, casts, text search dictionaries and configurations.
pub proof fn law_nodes_sort_by_kind_first(
    q: QualifiedName,
    other: QualifiedName,
    name: Identifier,
    word: Identifier,
    args: NormalizedArgTypes,
    more: NormalizedArgTypes,
)
    ensures
        node_lt(NodeId::Schema(name)@, NodeId::Table(other)@),
        node_lt(NodeId::Table(q)@, NodeId::Index(other)@),
        node_lt(NodeId::Index(q)@, NodeId::Sequence(other)@),
        node_lt(NodeId::Sequence(q)@, (NodeId::Constraint { table: other, name: word })@),
        node_lt((NodeId::Constraint { table: q, name })@, NodeId::View(other)@),
        node_lt(NodeId::View(q)@, NodeId::Mv(other)@),
        node_lt(NodeId::Mv(q)@, NodeId::Type(other)@),
        node_lt(NodeId::Type(q)@, NodeId::Function(other, more)@),
        node_lt(NodeId::Function(q, args)@, NodeId::Procedure(other)@),
        node_lt(NodeId::Procedure(q)@, NodeId::Extension(word)@),
        node_lt(NodeId::Extension(name)@, NodeId::Trigger(other)@),
        node_lt(NodeId::Trigger(q)@, NodeId::Publication(word)@),
        node_lt(NodeId::Publication(name)@, NodeId::Subscription(word)@),
        node_lt(NodeId::Subscription(name)@, NodeId::Statistic(other)@),
        node_lt(NodeId::Statistic(q)@, NodeId::Collation(other)@),
        node_lt(NodeId::Collation(q)@, NodeId::EventTrigger(word)@),
        node_lt(NodeId::EventTrigger(name)@, NodeId::Aggregate(other, more)@),
        node_lt(NodeId::Aggregate(q, args)@, NodeId::Cast(other, other)@),
        node_lt(NodeId::Cast(q, q)@, NodeId::TsDictionary(other)@),
        node_lt(NodeId::TsDictionary(q)@, NodeId::TsConfiguration(other)@),
{
}

} // verus!
