//! Steps for aggregates. They carry no data, so every step is safe but a drop
//! that is flagged as needing approval.

use crate::diff::change::AggregateChange;
use crate::identifier::{name_sql, Identifier, QualifiedName};
use crate::ir::column_type::{type_sql, ColumnType};
use crate::ir::routine_objects::Aggregate;
use crate::model::models;
use crate::plan::raw_step::{
    gated_step, one_target, push_gated, push_safe, safe_step, RawStep, StepKind, StepModel,
};
use crate::text::{
    append_literal_body, append_sql, as_deref, doubled, finish_comment, join_sql, joined, opt_str,
    opt_text, prefixed, sqls, with_comment, ToSql,
};
use vstd::prelude::*;
use vstd::string::*;

verus! {

/// The argument types in brackets; `(*)` where there are none.
pub open spec fn arg_list_text(types: Seq<ColumnType>) -> Seq<char> {
    if types.len() == 0 {
        "(*)"@
    } else {
        "("@ + joined(sqls(types), ", "@) + ")"@
    }
}

/// The argument types in brackets; `(*)` where there are none.
pub fn arg_list(arg_types: &Vec<ColumnType>) -> (text: String)
    ensures
        text@ == arg_list_text(arg_types@),
{
    if arg_types.len() == 0 {
        return "(*)".to_owned();
    }
    let mut out = "(".to_owned();
    let list = join_sql(arg_types, ", ");
    out.append(list.as_str());
    out.append(")");
    out
}

/// `CREATE AGGREGATE name(args) (SFUNC = ..., STYPE = ...[, FINALFUNC = ...][, INITCOND = '...']);`
pub open spec fn create_text(agg: Aggregate) -> Seq<char> {
    let a = "CREATE AGGREGATE "@ + agg.qname@.sql() + arg_list_text(agg.arg_types@)
        + " (SFUNC = "@ + agg.sfunc@.sql() + ", STYPE = "@ + type_sql(agg.state_type);
    let b = match agg.finalfunc {
        Some(f) => a + ", FINALFUNC = "@ + f@.sql(),
        None => a,
    };
    let c = match agg.initcond {
        Some(i) => b + ", INITCOND = '"@ + doubled(i@, '\'') + "'"@,
        None => b,
    };
    c + ");"@
}

/// `CREATE AGGREGATE name(args) (SFUNC = ..., STYPE = ...[, FINALFUNC = ...][, INITCOND = '...']);`
pub fn create_sql(agg: &Aggregate) -> (sql: String)
    ensures
        sql@ == create_text(*agg),
{
    let mut out = prefixed("CREATE AGGREGATE ", &agg.qname);
    let args = arg_list(&agg.arg_types);
    out.append(args.as_str());
    out.append(" (SFUNC = ");
    append_sql(&mut out, &agg.sfunc);
    out.append(", STYPE = ");
    append_sql(&mut out, &agg.state_type);
    match &agg.finalfunc {
        Some(f) => {
            out.append(", FINALFUNC = ");
            append_sql(&mut out, f);
        },
        None => {},
    }
    match &agg.initcond {
        Some(i) => {
            out.append(", INITCOND = '");
            append_literal_body(&mut out, i.as_str());
            out.append("'");
        },
        None => {},
    }
    out.append(");");
    out
}

/// `DROP AGGREGATE name(args);`
pub open spec fn drop_text(q: QualifiedName, types: Seq<ColumnType>) -> Seq<char> {
    "DROP AGGREGATE "@ + q@.sql() + arg_list_text(types) + ";"@
}

/// `DROP AGGREGATE name(args);`
pub fn drop_sql(q: &QualifiedName, arg_types: &Vec<ColumnType>) -> (sql: String)
    ensures
        sql@ == drop_text(*q, arg_types@),
{
    let mut out = prefixed("DROP AGGREGATE ", q);
    let args = arg_list(arg_types);
    out.append(args.as_str());
    out.append(";");
    out
}

/// `ALTER AGGREGATE name(args) OWNER TO owner;`
pub open spec fn owner_text(
    q: QualifiedName,
    types: Seq<ColumnType>,
    owner: Identifier,
) -> Seq<char> {
    "ALTER AGGREGATE "@ + q@.sql() + arg_list_text(types) + " OWNER TO "@ + name_sql(owner@)
        + ";"@
}

/// `ALTER AGGREGATE name(args) OWNER TO owner;`
pub fn alter_owner_sql(
    q: &QualifiedName,
    arg_types: &Vec<ColumnType>,
    owner: &Identifier,
) -> (sql: String)
    ensures
        sql@ == owner_text(*q, arg_types@, *owner),
{
    let mut out = prefixed("ALTER AGGREGATE ", q);
    let args = arg_list(arg_types);
    out.append(args.as_str());
    out.append(" OWNER TO ");
    append_sql(&mut out, owner);
    out.append(";");
    out
}

/// `COMMENT ON AGGREGATE name(args) IS ...;`
pub open spec fn comment_text(
    q: QualifiedName,
    types: Seq<ColumnType>,
    comment: Option<Seq<char>>,
) -> Seq<char> {
    with_comment("COMMENT ON AGGREGATE "@ + q@.sql() + arg_list_text(types), comment)
}

/// `COMMENT ON AGGREGATE name(args) IS '...';` or `IS NULL;`
pub fn comment_sql(
    q: &QualifiedName,
    arg_types: &Vec<ColumnType>,
    comment: Option<&str>,
) -> (sql: String)
    ensures
        sql@ == comment_text(*q, arg_types@, opt_str(comment)),
{
    let mut head = prefixed("COMMENT ON AGGREGATE ", q);
    let args = arg_list(arg_types);
    head.append(args.as_str());
    finish_comment(head, comment)
}

/// The steps that create an aggregate: the aggregate, its owner, its comment.
pub open spec fn create_steps(agg: Aggregate) -> Seq<StepModel> {
    let a = seq![
        safe_step(StepKind::CreateAggregate, seq![agg.qname@], create_text(agg)),
    ];
    let b = match agg.owner {
        Some(owner) => a.push(
            safe_step(
                StepKind::AlterAggregateOwner,
                seq![agg.qname@],
                owner_text(agg.qname, agg.arg_types@, owner),
            ),
        ),
        None => a,
    };
    match agg.comment {
        Some(comment) => b.push(
            safe_step(
                StepKind::CommentOnAggregate,
                seq![agg.qname@],
                comment_text(agg.qname, agg.arg_types@, Some(comment@)),
            ),
        ),
        None => b,
    }
}

fn emit_create(agg: &Aggregate, out: &mut Vec<RawStep>)
    ensures
        models(final(out)@) == models(old(out)@) + create_steps(*agg),
{
    let ghost before = models(out@);
    push_safe(out, StepKind::CreateAggregate, one_target(&agg.qname), create_sql(agg));
    match &agg.owner {
        Some(owner) => {
            push_safe(
                out,
                StepKind::AlterAggregateOwner,
                one_target(&agg.qname),
                alter_owner_sql(&agg.qname, &agg.arg_types, owner),
            );
        },
        None => {},
    }
    match &agg.comment {
        Some(comment) => {
            push_safe(
                out,
                StepKind::CommentOnAggregate,
                one_target(&agg.qname),
                comment_sql(&agg.qname, &agg.arg_types, Some(comment.as_str())),
            );
        },
        None => {},
    }
    assert(models(out@) =~= before + create_steps(*agg));
}

/// The steps for a change of an aggregate.
#[verifier::opaque]
pub open spec fn aggregate_steps(
    agg: AggregateChange,
    destructive: bool,
    reason: Option<Seq<char>>,
) -> Seq<StepModel> {
    match agg {
        AggregateChange::Create(a) => create_steps(a),
        AggregateChange::Replace { from, to } => seq![
            safe_step(
                StepKind::DropAggregate,
                seq![from.qname@],
                drop_text(from.qname, from.arg_types@),
            ),
        ] + create_steps(to),
        AggregateChange::Drop { qname, arg_types } => seq![
            gated_step(
                StepKind::DropAggregate,
                destructive,
                reason,
                seq![qname@],
                drop_text(qname, arg_types@),
            ),
        ],
        AggregateChange::AlterOwner { qname, arg_types, owner } => seq![
            safe_step(
                StepKind::AlterAggregateOwner,
                seq![qname@],
                owner_text(qname, arg_types@, owner),
            ),
        ],
        AggregateChange::CommentOn { qname, arg_types, comment } => seq![
            safe_step(
                StepKind::CommentOnAggregate,
                seq![qname@],
                comment_text(qname, arg_types@, opt_text(comment)),
            ),
        ],
    }
}

/// Emits the steps for a change of an aggregate.
pub fn emit(
    agg: AggregateChange,
    destructive: bool,
    destructive_reason: Option<String>,
    out: &mut Vec<RawStep>,
)
    ensures
        models(final(out)@) == models(old(out)@) + aggregate_steps(
            agg,
            destructive,
            opt_text(destructive_reason),
        ),
{
    let ghost before = models(out@);
    match &agg {
        AggregateChange::Create(a) => {
            emit_create(a, out);
        },
        AggregateChange::Replace { from, to } => {
            push_safe(
                out,
                StepKind::DropAggregate,
                one_target(&from.qname),
                drop_sql(&from.qname, &from.arg_types),
            );
            emit_create(to, out);
        },
        AggregateChange::Drop { qname, arg_types } => {
            push_gated(
                out,
                StepKind::DropAggregate,
                destructive,
                destructive_reason,
                one_target(qname),
                drop_sql(qname, arg_types),
            );
        },
        AggregateChange::AlterOwner { qname, arg_types, owner } => {
            push_safe(
                out,
                StepKind::AlterAggregateOwner,
                one_target(qname),
                alter_owner_sql(qname, arg_types, owner),
            );
        },
        AggregateChange::CommentOn { qname, arg_types, comment } => {
            push_safe(
                out,
                StepKind::CommentOnAggregate,
                one_target(qname),
                comment_sql(qname, arg_types, as_deref(comment)),
            );
        },
    }
    proof {
        reveal(aggregate_steps);
    }
    assert(models(out@) =~= before + aggregate_steps(
        agg,
        destructive,
        opt_text(destructive_reason),
    ));
}

} // verus!
