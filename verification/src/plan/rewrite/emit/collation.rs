//! Steps for collations.
//!
//! The provider, the locale and whether a collation is deterministic cannot be
//! altered in place, so replacing one is a drop, which takes the change's
//! approval, and a create, which is always safe.

use crate::diff::change::CollationChange;
use crate::ir::collation::Collation;
use crate::model::models;
use crate::plan::raw_step::{
    gated_step, one_target, push_gated, push_safe, safe_step, RawStep, StepKind, StepModel,
};
use crate::plan::rewrite::collations::{
    comment_on_collation, comment_on_collation_sql, create_collation, create_collation_sql,
    drop_collation, drop_collation_sql, rename_collation, rename_collation_sql,
};
use crate::text::{as_deref, opt_text};
use vstd::prelude::*;

verus! {

/// The steps that create a collation: the collation, then its comment.
pub open spec fn create_steps(c: Collation) -> Seq<StepModel> {
    let first = seq![
        safe_step(StepKind::CreateCollation, seq![c.qname@], create_collation_sql(c)),
    ];
    match c.comment {
        Some(comment) => first.push(
            safe_step(
                StepKind::CommentOnCollation,
                seq![c.qname@],
                comment_on_collation_sql(c.qname, Some(comment@)),
            ),
        ),
        None => first,
    }
}

/// The steps for a change of a collation.
#[verifier::opaque]
pub open spec fn collation_steps(
    change: CollationChange,
    destructive: bool,
    reason: Option<Seq<char>>,
) -> Seq<StepModel> {
    match change {
        CollationChange::Create(c) => create_steps(c),
        CollationChange::Drop { qname } => seq![
            gated_step(
                StepKind::DropCollation,
                destructive,
                reason,
                seq![qname@],
                drop_collation_sql(qname),
            ),
        ],
        CollationChange::Rename { from, to } => seq![
            safe_step(StepKind::RenameCollation, seq![from@], rename_collation_sql(from, to)),
        ],
        CollationChange::Replace { from, to } => seq![
            gated_step(
                StepKind::DropCollation,
                destructive,
                reason,
                seq![from.qname@],
                drop_collation_sql(from.qname),
            ),
            safe_step(StepKind::CreateCollation, seq![to.qname@], create_collation_sql(to)),
        ],
        CollationChange::CommentOn { qname, comment } => seq![
            safe_step(
                StepKind::CommentOnCollation,
                seq![qname@],
                comment_on_collation_sql(qname, opt_text(comment)),
            ),
        ],
    }
}

/// Emits the steps for a change of a collation.
pub fn emit(
    change: CollationChange,
    destructive: bool,
    destructive_reason: Option<String>,
    out: &mut Vec<RawStep>,
)
    ensures
        models(final(out)@) == models(old(out)@) + collation_steps(
            change,
            destructive,
            opt_text(destructive_reason),
        ),
{
    let ghost before = models(out@);
    match &change {
        CollationChange::Create(c) => {
            push_safe(out, StepKind::CreateCollation, one_target(&c.qname), create_collation(c));
            match &c.comment {
                Some(comment) => {
                    push_safe(
                        out,
                        StepKind::CommentOnCollation,
                        one_target(&c.qname),
                        comment_on_collation(&c.qname, Some(comment.as_str())),
                    );
                },
                None => {},
            }
        },
        CollationChange::Drop { qname } => {
            push_gated(
                out,
                StepKind::DropCollation,
                destructive,
                destructive_reason,
                one_target(qname),
                drop_collation(qname),
            );
        },
        CollationChange::Rename { from, to } => {
            push_safe(
                out,
                StepKind::RenameCollation,
                one_target(from),
                rename_collation(from, to),
            );
        },
        CollationChange::Replace { from, to } => {
            push_gated(
                out,
                StepKind::DropCollation,
                destructive,
                destructive_reason,
                one_target(&from.qname),
                drop_collation(&from.qname),
            );
            push_safe(out, StepKind::CreateCollation, one_target(&to.qname), create_collation(to));
        },
        CollationChange::CommentOn { qname, comment } => {
            push_safe(
                out,
                StepKind::CommentOnCollation,
                one_target(qname),
                comment_on_collation(qname, as_deref(comment)),
            );
        },
    }
    proof {
        reveal(collation_steps);
    }
    assert(models(out@) =~= before + collation_steps(
        change,
        destructive,
        opt_text(destructive_reason),
    ));
}

} // verus!
