//! Steps for casts. They carry no data, so replacing one is never destructive.

use crate::diff::change::CastChange;
use crate::identifier::QualifiedName;
use crate::ir::column_type::ColumnType;
use crate::ir::routine_objects::{Cast, CastContext, CastMethod};
use crate::model::models;
use crate::plan::raw_step::{
    gated_step, push_gated, push_safe, safe_step, two_targets, RawStep, StepKind, StepModel,
};
use crate::text::{
    append_sql, as_deref, finish_comment, join_sql, joined, opt_str, opt_text, prefixed, sqls,
    with_comment, ToSql,
};
use vstd::prelude::*;
use vstd::string::*;

verus! {

/// The targets of a step on a cast: its two types.
fn cast_targets(source: &QualifiedName, target: &QualifiedName) -> (targets: Vec<QualifiedName>)
    ensures
        models(targets@) == seq![source@, target@],
{
    two_targets(source, target)
}

/// The argument types in brackets.
pub open spec fn arg_list_text(types: Seq<ColumnType>) -> Seq<char> {
    "("@ + joined(sqls(types), ", "@) + ")"@
}

/// The argument types in brackets.
pub fn arg_list(arg_types: &Vec<ColumnType>) -> (text: String)
    ensures
        text@ == arg_list_text(arg_types@),
{
    let mut out = "(".to_owned();
    let list = join_sql(arg_types, ", ");
    out.append(list.as_str());
    out.append(")");
    out
}

/// What stands after the method: nothing for an explicit cast.
pub open spec fn context_text(context: CastContext) -> Seq<char> {
    match context {
        CastContext::Explicit => ""@,
        CastContext::Assignment => " AS ASSIGNMENT"@,
        CastContext::Implicit => " AS IMPLICIT"@,
    }
}

/// What stands after the method: nothing for an explicit cast.
pub fn context_suffix(context: CastContext) -> (text: &'static str)
    ensures
        text@ == context_text(context),
{
    match context {
        CastContext::Explicit => "",
        CastContext::Assignment => " AS ASSIGNMENT",
        CastContext::Implicit => " AS IMPLICIT",
    }
}

/// `CREATE CAST (source AS target) method[ context];`
pub open spec fn create_text(cast: Cast) -> Seq<char> {
    let a = "CREATE CAST ("@ + cast.source@.sql() + " AS "@ + cast.target@.sql() + ") "@;
    let b = match cast.method {
        CastMethod::Function { name, arg_types } => a + "WITH FUNCTION "@ + name@.sql()
            + arg_list_text(arg_types@),
        CastMethod::Inout => a + "WITH INOUT"@,
        CastMethod::Binary => a + "WITHOUT FUNCTION"@,
    };
    b + context_text(cast.context) + ";"@
}

/// `CREATE CAST (source AS target) method[ context];`
pub fn create_sql(cast: &Cast) -> (sql: String)
    ensures
        sql@ == create_text(*cast),
{
    let mut out = prefixed("CREATE CAST (", &cast.source);
    out.append(" AS ");
    append_sql(&mut out, &cast.target);
    out.append(") ");
    match &cast.method {
        CastMethod::Function { name, arg_types } => {
            out.append("WITH FUNCTION ");
            append_sql(&mut out, name);
            let args = arg_list(arg_types);
            out.append(args.as_str());
        },
        CastMethod::Inout => out.append("WITH INOUT"),
        CastMethod::Binary => out.append("WITHOUT FUNCTION"),
    }
    out.append(context_suffix(cast.context));
    out.append(";");
    out
}

/// `DROP CAST (source AS target);`
pub open spec fn drop_text(source: QualifiedName, target: QualifiedName) -> Seq<char> {
    "DROP CAST ("@ + source@.sql() + " AS "@ + target@.sql() + ");"@
}

/// `DROP CAST (source AS target);`
pub fn drop_sql(source: &QualifiedName, target: &QualifiedName) -> (sql: String)
    ensures
        sql@ == drop_text(*source, *target),
{
    let mut out = prefixed("DROP CAST (", source);
    out.append(" AS ");
    append_sql(&mut out, target);
    out.append(");");
    out
}

/// `COMMENT ON CAST (source AS target) IS ...;`
pub open spec fn comment_text(
    source: QualifiedName,
    target: QualifiedName,
    comment: Option<Seq<char>>,
) -> Seq<char> {
    with_comment("COMMENT ON CAST ("@ + source@.sql() + " AS "@ + target@.sql() + ")"@, comment)
}

/// `COMMENT ON CAST (source AS target) IS '...';` or `IS NULL;`
pub fn comment_sql(
    source: &QualifiedName,
    target: &QualifiedName,
    comment: Option<&str>,
) -> (sql: String)
    ensures
        sql@ == comment_text(*source, *target, opt_str(comment)),
{
    let mut head = prefixed("COMMENT ON CAST (", source);
    head.append(" AS ");
    append_sql(&mut head, target);
    head.append(")");
    finish_comment(head, comment)
}

/// The steps that create a cast: the cast, then its comment.
pub open spec fn create_steps(
    cast: Cast,
    destructive: bool,
    reason: Option<Seq<char>>,
) -> Seq<StepModel> {
    let targets = seq![cast.source@, cast.target@];
    let first = seq![
        gated_step(StepKind::CreateCast, destructive, reason, targets, create_text(cast)),
    ];
    match cast.comment {
        Some(comment) => first.push(
            safe_step(
                StepKind::CommentOnCast,
                targets,
                comment_text(cast.source, cast.target, Some(comment@)),
            ),
        ),
        None => first,
    }
}

fn emit_create(
    cast: &Cast,
    destructive: bool,
    destructive_reason: Option<String>,
    out: &mut Vec<RawStep>,
)
    ensures
        models(final(out)@) == models(old(out)@) + create_steps(
            *cast,
            destructive,
            opt_text(destructive_reason),
        ),
{
    let ghost before = models(out@);
    push_gated(
        out,
        StepKind::CreateCast,
        destructive,
        destructive_reason,
        cast_targets(&cast.source, &cast.target),
        create_sql(cast),
    );
    match &cast.comment {
        Some(comment) => {
            push_safe(
                out,
                StepKind::CommentOnCast,
                cast_targets(&cast.source, &cast.target),
                comment_sql(&cast.source, &cast.target, Some(comment.as_str())),
            );
        },
        None => {},
    }
    assert(models(out@) =~= before + create_steps(
        *cast,
        destructive,
        opt_text(destructive_reason),
    ));
}

/// The steps for a change of a cast.
#[verifier::opaque]
pub open spec fn cast_steps(
    cc: CastChange,
    destructive: bool,
    reason: Option<Seq<char>>,
) -> Seq<StepModel> {
    match cc {
        CastChange::Create(cast) => create_steps(cast, destructive, reason),
        CastChange::Replace { from, to } => seq![
            safe_step(
                StepKind::DropCast,
                seq![from.source@, from.target@],
                drop_text(from.source, from.target),
            ),
        ] + create_steps(to, false, None),
        CastChange::Drop { source, target } => seq![
            gated_step(
                StepKind::DropCast,
                destructive,
                reason,
                seq![source@, target@],
                drop_text(source, target),
            ),
        ],
        CastChange::CommentOn { source, target, comment } => seq![
            safe_step(
                StepKind::CommentOnCast,
                seq![source@, target@],
                comment_text(source, target, opt_text(comment)),
            ),
        ],
    }
}

/// Emits the steps for a change of a cast.
pub fn emit(
    cc: CastChange,
    destructive: bool,
    destructive_reason: Option<String>,
    out: &mut Vec<RawStep>,
)
    ensures
        models(final(out)@) == models(old(out)@) + cast_steps(
            cc,
            destructive,
            opt_text(destructive_reason),
        ),
{
    let ghost before = models(out@);
    match &cc {
        CastChange::Create(cast) => {
            emit_create(cast, destructive, destructive_reason, out);
        },
        CastChange::Replace { from, to } => {
            push_safe(
                out,
                StepKind::DropCast,
                cast_targets(&from.source, &from.target),
                drop_sql(&from.source, &from.target),
            );
            emit_create(to, false, None, out);
        },
        CastChange::Drop { source, target } => {
            push_gated(
                out,
                StepKind::DropCast,
                destructive,
                destructive_reason,
                cast_targets(source, target),
                drop_sql(source, target),
            );
        },
        CastChange::CommentOn { source, target, comment } => {
            push_safe(
                out,
                StepKind::CommentOnCast,
                cast_targets(source, target),
                comment_sql(source, target, as_deref(comment)),
            );
        },
    }
    proof {
        reveal(cast_steps);
    }
    assert(models(out@) =~= before + cast_steps(cc, destructive, opt_text(destructive_reason)));
}

} // verus!
