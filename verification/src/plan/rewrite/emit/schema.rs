//! Steps for schemas.

use crate::identifier::Identifier;
use crate::ir::schema::Schema;
use crate::model::models;
use crate::plan::raw_step::{
    gated_step, one_target, push_gated, push_safe, safe_step, RawStep, StepKind, StepModel,
};
use crate::plan::rewrite::sql::{
    comment_on_schema, comment_on_schema_sql, create_schema, create_schema_sql, drop_schema,
    drop_schema_sql,
};
use crate::plan::rewrite::targets::{own_name, schema_target};
use crate::text::{as_deref, opt_text};
use vstd::prelude::*;

verus! {

/// The steps that create a schema: the schema, then its comment.
#[verifier::opaque]
pub open spec fn create_steps(
    s: Schema,
    destructive: bool,
    reason: Option<Seq<char>>,
) -> Seq<StepModel> {
    let first = seq![
        gated_step(
            StepKind::CreateSchema,
            destructive,
            reason,
            seq![own_name(s.name@)],
            create_schema_sql(s),
        ),
    ];
    match s.comment {
        Some(c) => first.push(
            safe_step(
                StepKind::AlterSchemaComment,
                seq![own_name(s.name@)],
                comment_on_schema_sql(s.name@, Some(c@)),
            ),
        ),
        None => first,
    }
}

/// Creates a schema.
pub fn create(
    s: Schema,
    destructive: bool,
    destructive_reason: Option<String>,
    out: &mut Vec<RawStep>,
)
    ensures
        models(final(out)@) == models(old(out)@) + create_steps(
            s,
            destructive,
            opt_text(destructive_reason),
        ),
{
    let ghost before = models(out@);
    push_gated(
        out,
        StepKind::CreateSchema,
        destructive,
        destructive_reason,
        one_target(&schema_target(&s.name)),
        create_schema(&s),
    );
    match &s.comment {
        Some(c) => {
            push_safe(
                out,
                StepKind::AlterSchemaComment,
                one_target(&schema_target(&s.name)),
                comment_on_schema(&s.name, Some(c.as_str())),
            );
        },
        None => {},
    }
    proof {
        reveal(create_steps);
    }
    assert(models(out@) =~= before + create_steps(s, destructive, opt_text(destructive_reason)));
}

/// The step that drops a schema.
#[verifier::opaque]
pub open spec fn drop_steps(
    name: Identifier,
    destructive: bool,
    reason: Option<Seq<char>>,
) -> Seq<StepModel> {
    seq![
        gated_step(
            StepKind::DropSchema,
            destructive,
            reason,
            seq![own_name(name@)],
            drop_schema_sql(name@),
        ),
    ]
}

/// Drops a schema.
pub fn drop_(
    name: Identifier,
    destructive: bool,
    destructive_reason: Option<String>,
    out: &mut Vec<RawStep>,
)
    ensures
        models(final(out)@) == models(old(out)@) + drop_steps(
            name,
            destructive,
            opt_text(destructive_reason),
        ),
{
    let ghost before = models(out@);
    push_gated(
        out,
        StepKind::DropSchema,
        destructive,
        destructive_reason,
        one_target(&schema_target(&name)),
        drop_schema(&name),
    );
    proof {
        reveal(drop_steps);
    }
    assert(models(out@) =~= before + drop_steps(name, destructive, opt_text(destructive_reason)));
}

/// The step that sets a schema's comment.
#[verifier::opaque]
pub open spec fn alter_steps(name: Identifier, comment: Option<String>) -> Seq<StepModel> {
    seq![
        safe_step(
            StepKind::AlterSchemaComment,
            seq![own_name(name@)],
            comment_on_schema_sql(name@, opt_text(comment)),
        ),
    ]
}

/// Sets a schema's comment.
pub fn alter(name: Identifier, comment: Option<String>, out: &mut Vec<RawStep>)
    ensures
        models(final(out)@) == models(old(out)@) + alter_steps(name, comment),
{
    let ghost before = models(out@);
    push_safe(
        out,
        StepKind::AlterSchemaComment,
        one_target(&schema_target(&name)),
        comment_on_schema(&name, as_deref(&comment)),
    );
    proof {
        reveal(alter_steps);
    }
    assert(models(out@) =~= before + alter_steps(name, comment));
}

} // verus!
