//! Steps for extended statistics.

use crate::diff::change::StatisticChange;
use crate::ir::statistic::Statistic;
use crate::model::models;
use crate::plan::raw_step::{
    gated_step, one_target, push_gated, push_safe, safe_step, RawStep, StepKind, StepModel,
};
use crate::plan::rewrite::statistics::{
    alter_statistic_set_target, comment_on_statistic, comment_on_statistic_sql, create_statistic,
    create_statistic_sql, drop_statistic, drop_statistic_sql, replace_statistic,
    statistic_target_sql,
};
use crate::text::{as_deref, opt_text};
use vstd::prelude::*;
use vstd::string::*;

verus! {

/// The steps that create statistics: the statistics, then their comment.
pub open spec fn create_steps(s: Statistic) -> Seq<StepModel> {
    let first = seq![
        safe_step(StepKind::CreateStatistic, seq![s.qname@], create_statistic_sql(s)),
    ];
    match s.comment {
        Some(c) => first.push(
            safe_step(
                StepKind::CommentOnStatistic,
                seq![s.qname@],
                comment_on_statistic_sql(s.qname, Some(c@)),
            ),
        ),
        None => first,
    }
}

/// The steps for a change of statistics.
#[verifier::opaque]
pub open spec fn statistic_steps(
    change: StatisticChange,
    destructive: bool,
    reason: Option<Seq<char>>,
) -> Seq<StepModel> {
    match change {
        StatisticChange::Create(s) => create_steps(s),
        StatisticChange::Drop { qname } => seq![
            gated_step(
                StepKind::DropStatistic,
                destructive,
                reason,
                seq![qname@],
                drop_statistic_sql(qname),
            ),
        ],
        StatisticChange::Replace { from, to } => seq![
            gated_step(
                StepKind::ReplaceStatistic,
                destructive,
                reason,
                seq![to.qname@],
                drop_statistic_sql(from.qname) + "\n"@ + create_statistic_sql(to),
            ),
        ],
        StatisticChange::AlterSetTarget { qname, value } => seq![
            safe_step(
                StepKind::AlterStatisticSetTarget,
                seq![qname@],
                statistic_target_sql(qname, value),
            ),
        ],
        StatisticChange::CommentOn { qname, comment } => seq![
            safe_step(
                StepKind::CommentOnStatistic,
                seq![qname@],
                comment_on_statistic_sql(qname, opt_text(comment)),
            ),
        ],
    }
}

/// Emits the steps for a change of statistics.
pub fn emit(
    change: StatisticChange,
    destructive: bool,
    destructive_reason: Option<String>,
    out: &mut Vec<RawStep>,
)
    ensures
        models(final(out)@) == models(old(out)@) + statistic_steps(
            change,
            destructive,
            opt_text(destructive_reason),
        ),
{
    let ghost before = models(out@);
    match &change {
        StatisticChange::Create(s) => {
            push_safe(out, StepKind::CreateStatistic, one_target(&s.qname), create_statistic(s));
            match &s.comment {
                Some(c) => {
                    push_safe(
                        out,
                        StepKind::CommentOnStatistic,
                        one_target(&s.qname),
                        comment_on_statistic(&s.qname, Some(c.as_str())),
                    );
                },
                None => {},
            }
        },
        StatisticChange::Drop { qname } => {
            push_gated(
                out,
                StepKind::DropStatistic,
                destructive,
                destructive_reason,
                one_target(qname),
                drop_statistic(qname),
            );
        },
        StatisticChange::Replace { from, to } => {
            let (drop_sql, create_sql) = replace_statistic(from, to);
            let mut sql = drop_sql;
            sql.append("\n");
            sql.append(create_sql.as_str());
            push_gated(
                out,
                StepKind::ReplaceStatistic,
                destructive,
                destructive_reason,
                one_target(&to.qname),
                sql,
            );
        },
        StatisticChange::AlterSetTarget { qname, value } => {
            push_safe(
                out,
                StepKind::AlterStatisticSetTarget,
                one_target(qname),
                alter_statistic_set_target(qname, *value),
            );
        },
        StatisticChange::CommentOn { qname, comment } => {
            push_safe(
                out,
                StepKind::CommentOnStatistic,
                one_target(qname),
                comment_on_statistic(qname, as_deref(comment)),
            );
        },
    }
    proof {
        reveal(statistic_steps);
    }
    assert(models(out@) =~= before + statistic_steps(
        change,
        destructive,
        opt_text(destructive_reason),
    ));
}

} // verus!
