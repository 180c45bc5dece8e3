//! Steps for functions.

use crate::diff::change::FunctionChange;
use crate::model::models;
use crate::plan::raw_step::{
    gated_step, one_target, push_gated, push_safe, safe_step, RawStep, StepKind, StepModel,
};
use crate::plan::rewrite::functions::{
    comment_on_function_sql, create_function_sql, drop_function_sql, emit_comment_on_function,
    emit_create_or_replace_function, emit_drop_function,
};
use crate::text::{as_deref, dup_opt_text, opt_text};
use vstd::prelude::*;

verus! {

/// The steps for a change of a function.
///
/// Where a function is dropped and created again, both halves need the
/// approval.
#[verifier::opaque]
pub open spec fn function_steps(
    fc: FunctionChange,
    destructive: bool,
    reason: Option<Seq<char>>,
) -> Seq<StepModel> {
    match fc {
        FunctionChange::Create(f) => {
            let first = seq![
                safe_step(
                    StepKind::CreateOrReplaceFunction,
                    seq![f.qname@],
                    create_function_sql(f),
                ),
            ];
            match f.comment {
                Some(c) => first.push(
                    safe_step(
                        StepKind::CommentOnFunction,
                        seq![f.qname@],
                        comment_on_function_sql(f.qname, f.arg_types_normalized, Some(c@)),
                    ),
                ),
                None => first,
            }
        },
        FunctionChange::Drop { qname, args } => seq![
            gated_step(
                StepKind::DropFunction,
                destructive,
                reason,
                seq![qname@],
                drop_function_sql(qname, args),
            ),
        ],
        FunctionChange::CreateOrReplace(f) => seq![
            gated_step(
                StepKind::CreateOrReplaceFunction,
                destructive,
                reason,
                seq![f.qname@],
                create_function_sql(f),
            ),
        ],
        FunctionChange::ReplaceWithCascade { source, catalog } => seq![
            gated_step(
                StepKind::DropFunction,
                destructive,
                reason,
                seq![catalog.qname@],
                drop_function_sql(catalog.qname, catalog.arg_types_normalized),
            ),
            gated_step(
                StepKind::CreateOrReplaceFunction,
                destructive,
                reason,
                seq![source.qname@],
                create_function_sql(source),
            ),
        ],
        FunctionChange::SetComment { qname, args, comment } => seq![
            safe_step(
                StepKind::CommentOnFunction,
                seq![qname@],
                comment_on_function_sql(qname, args, opt_text(comment)),
            ),
        ],
    }
}

/// Emits the steps for a change of a function.
pub fn emit(
    fc: FunctionChange,
    destructive: bool,
    destructive_reason: Option<String>,
    out: &mut Vec<RawStep>,
)
    ensures
        models(final(out)@) == models(old(out)@) + function_steps(
            fc,
            destructive,
            opt_text(destructive_reason),
        ),
{
    let ghost before = models(out@);
    match &fc {
        FunctionChange::Create(f) => {
            push_safe(
                out,
                StepKind::CreateOrReplaceFunction,
                one_target(&f.qname),
                emit_create_or_replace_function(f),
            );
            match &f.comment {
                Some(c) => {
                    push_safe(
                        out,
                        StepKind::CommentOnFunction,
                        one_target(&f.qname),
                        emit_comment_on_function(
                            &f.qname,
                            &f.arg_types_normalized,
                            Some(c.as_str()),
                        ),
                    );
                },
                None => {},
            }
        },
        FunctionChange::Drop { qname, args } => {
            push_gated(
                out,
                StepKind::DropFunction,
                destructive,
                destructive_reason,
                one_target(qname),
                emit_drop_function(qname, args),
            );
        },
        FunctionChange::CreateOrReplace(f) => {
            push_gated(
                out,
                StepKind::CreateOrReplaceFunction,
                destructive,
                destructive_reason,
                one_target(&f.qname),
                emit_create_or_replace_function(f),
            );
        },
        FunctionChange::ReplaceWithCascade { source, catalog } => {
            push_gated(
                out,
                StepKind::DropFunction,
                destructive,
                dup_opt_text(&destructive_reason),
                one_target(&catalog.qname),
                emit_drop_function(&catalog.qname, &catalog.arg_types_normalized),
            );
            push_gated(
                out,
                StepKind::CreateOrReplaceFunction,
                destructive,
                destructive_reason,
                one_target(&source.qname),
                emit_create_or_replace_function(source),
            );
        },
        FunctionChange::SetComment { qname, args, comment } => {
            push_safe(
                out,
                StepKind::CommentOnFunction,
                one_target(qname),
                emit_comment_on_function(qname, args, as_deref(comment)),
            );
        },
    }
    proof {
        reveal(function_steps);
    }
    assert(models(out@) =~= before + function_steps(
        fc,
        destructive,
        opt_text(destructive_reason),
    ));
}

} // verus!
