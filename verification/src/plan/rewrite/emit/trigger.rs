//! Steps for triggers.

use crate::diff::change::TriggerChange;
use crate::ir::trigger::Trigger;
use crate::model::models;
use crate::plan::raw_step::{
    gated_step, one_target, push_gated, push_safe, safe_step, RawStep, StepKind, StepModel,
};
use crate::plan::rewrite::triggers::{
    comment_on_trigger, comment_on_trigger_sql, create_trigger, create_trigger_sql, drop_trigger,
    drop_trigger_sql,
};
use crate::text::{as_deref, opt_text};
use vstd::prelude::*;

verus! {

/// Steps followed by the step for a trigger's comment, where it has one.
pub open spec fn with_trigger_comment(steps: Seq<StepModel>, t: Trigger) -> Seq<StepModel> {
    match t.comment {
        Some(c) => steps.push(
            safe_step(
                StepKind::CommentOnTrigger,
                seq![t.qname@],
                comment_on_trigger_sql(t.qname, t.table, Some(c@)),
            ),
        ),
        None => steps,
    }
}

fn push_trigger_comment(t: &Trigger, out: &mut Vec<RawStep>)
    ensures
        models(final(out)@) == with_trigger_comment(models(old(out)@), *t),
{
    match &t.comment {
        Some(c) => {
            push_safe(
                out,
                StepKind::CommentOnTrigger,
                one_target(&t.qname),
                comment_on_trigger(&t.qname, &t.table, Some(c.as_str())),
            );
        },
        None => {},
    }
}

/// The steps for a change of a trigger.
#[verifier::opaque]
pub open spec fn trigger_steps(
    tc: TriggerChange,
    destructive: bool,
    reason: Option<Seq<char>>,
) -> Seq<StepModel> {
    match tc {
        TriggerChange::Create(t) => with_trigger_comment(
            seq![
                gated_step(
                    StepKind::CreateTrigger,
                    destructive,
                    reason,
                    seq![t.qname@],
                    create_trigger_sql(t),
                ),
            ],
            t,
        ),
        TriggerChange::Drop { qname, table } => seq![
            gated_step(
                StepKind::DropTrigger,
                destructive,
                reason,
                seq![qname@],
                drop_trigger_sql(qname, table),
            ),
        ],
        TriggerChange::Replace(t) => with_trigger_comment(
            seq![
                gated_step(
                    StepKind::DropTrigger,
                    destructive,
                    reason,
                    seq![t.qname@],
                    drop_trigger_sql(t.qname, t.table),
                ),
                safe_step(StepKind::CreateTrigger, seq![t.qname@], create_trigger_sql(t)),
            ],
            t,
        ),
        TriggerChange::CommentOn { qname, table, comment } => seq![
            safe_step(
                StepKind::CommentOnTrigger,
                seq![qname@],
                comment_on_trigger_sql(qname, table, opt_text(comment)),
            ),
        ],
    }
}

/// Emits the steps for a change of a trigger.
pub fn emit(
    tc: TriggerChange,
    destructive: bool,
    destructive_reason: Option<String>,
    out: &mut Vec<RawStep>,
)
    ensures
        models(final(out)@) == models(old(out)@) + trigger_steps(
            tc,
            destructive,
            opt_text(destructive_reason),
        ),
{
    let ghost before = models(out@);
    match &tc {
        TriggerChange::Create(t) => {
            push_gated(
                out,
                StepKind::CreateTrigger,
                destructive,
                destructive_reason,
                one_target(&t.qname),
                create_trigger(t),
            );
            push_trigger_comment(t, out);
        },
        TriggerChange::Drop { qname, table } => {
            push_gated(
                out,
                StepKind::DropTrigger,
                destructive,
                destructive_reason,
                one_target(qname),
                drop_trigger(qname, table),
            );
        },
        TriggerChange::Replace(t) => {
            push_gated(
                out,
                StepKind::DropTrigger,
                destructive,
                destructive_reason,
                one_target(&t.qname),
                drop_trigger(&t.qname, &t.table),
            );
            push_safe(out, StepKind::CreateTrigger, one_target(&t.qname), create_trigger(t));
            push_trigger_comment(t, out);
        },
        TriggerChange::CommentOn { qname, table, comment } => {
            push_safe(
                out,
                StepKind::CommentOnTrigger,
                one_target(qname),
                comment_on_trigger(qname, table, as_deref(comment)),
            );
        },
    }
    proof {
        reveal(trigger_steps);
    }
    assert(models(out@) =~= before + trigger_steps(
        tc,
        destructive,
        opt_text(destructive_reason),
    ));
}

} // verus!
