//! Steps for procedures.

use crate::diff::change::ProcedureChange;
use crate::ir::function::Procedure;
use crate::model::models;
use crate::plan::raw_step::{
    gated_step, one_target, push_gated, push_safe, push_step, safe_step, unnumbered, RawStep,
    StepKind, StepModel, TransactionConstraint,
};
use crate::plan::rewrite::functions::{
    comment_on_procedure_sql, create_procedure_sql, drop_procedure_sql,
    emit_comment_on_procedure, emit_create_or_replace_procedure, emit_drop_procedure,
};
use crate::text::{as_deref, opt_text};
use vstd::prelude::*;

verus! {

/// A procedure whose body commits runs outside a transaction.
pub open spec fn placement(p: Procedure) -> TransactionConstraint {
    if p.commits_in_body {
        TransactionConstraint::OutsideTransaction
    } else {
        TransactionConstraint::InTransaction
    }
}

fn place(p: &Procedure) -> (r: TransactionConstraint)
    ensures
        r == placement(*p),
{
    if p.commits_in_body {
        TransactionConstraint::OutsideTransaction
    } else {
        TransactionConstraint::InTransaction
    }
}

/// The steps for a change of a procedure.
#[verifier::opaque]
pub open spec fn procedure_steps(
    pc: ProcedureChange,
    destructive: bool,
    reason: Option<Seq<char>>,
) -> Seq<StepModel> {
    match pc {
        ProcedureChange::Create(p) => {
            let first = seq![
                unnumbered(
                    StepKind::CreateOrReplaceProcedure,
                    false,
                    None,
                    seq![p.qname@],
                    create_procedure_sql(p),
                    placement(p),
                ),
            ];
            match p.comment {
                Some(c) => first.push(
                    safe_step(
                        StepKind::CommentOnProcedure,
                        seq![p.qname@],
                        comment_on_procedure_sql(p.qname, Some(c@)),
                    ),
                ),
                None => first,
            }
        },
        ProcedureChange::Drop(q) => seq![
            gated_step(
                StepKind::DropProcedure,
                destructive,
                reason,
                seq![q@],
                drop_procedure_sql(q),
            ),
        ],
        ProcedureChange::CreateOrReplace(p) => seq![
            unnumbered(
                StepKind::CreateOrReplaceProcedure,
                destructive,
                reason,
                seq![p.qname@],
                create_procedure_sql(p),
                placement(p),
            ),
        ],
        ProcedureChange::SetComment { qname, comment } => seq![
            safe_step(
                StepKind::CommentOnProcedure,
                seq![qname@],
                comment_on_procedure_sql(qname, opt_text(comment)),
            ),
        ],
    }
}

/// Emits the steps for a change of a procedure.
pub fn emit(
    pc: ProcedureChange,
    destructive: bool,
    destructive_reason: Option<String>,
    out: &mut Vec<RawStep>,
)
    ensures
        models(final(out)@) == models(old(out)@) + procedure_steps(
            pc,
            destructive,
            opt_text(destructive_reason),
        ),
{
    let ghost before = models(out@);
    match &pc {
        ProcedureChange::Create(p) => {
            push_step(
                out,
                StepKind::CreateOrReplaceProcedure,
                false,
                None,
                one_target(&p.qname),
                emit_create_or_replace_procedure(p),
                place(p),
            );
            match &p.comment {
                Some(c) => {
                    push_safe(
                        out,
                        StepKind::CommentOnProcedure,
                        one_target(&p.qname),
                        emit_comment_on_procedure(&p.qname, Some(c.as_str())),
                    );
                },
                None => {},
            }
        },
        ProcedureChange::Drop(q) => {
            push_gated(
                out,
                StepKind::DropProcedure,
                destructive,
                destructive_reason,
                one_target(q),
                emit_drop_procedure(q),
            );
        },
        ProcedureChange::CreateOrReplace(p) => {
            push_step(
                out,
                StepKind::CreateOrReplaceProcedure,
                destructive,
                destructive_reason,
                one_target(&p.qname),
                emit_create_or_replace_procedure(p),
                place(p),
            );
        },
        ProcedureChange::SetComment { qname, comment } => {
            push_safe(
                out,
                StepKind::CommentOnProcedure,
                one_target(qname),
                emit_comment_on_procedure(qname, as_deref(comment)),
            );
        },
    }
    proof {
        reveal(procedure_steps);
    }
    assert(models(out@) =~= before + procedure_steps(
        pc,
        destructive,
        opt_text(destructive_reason),
    ));
}

} // verus!
