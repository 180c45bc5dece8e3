//! Steps for materialized views. They hold derived data, so dropping one is
//! never destructive.

use crate::diff::change::MvChange;
use crate::ir::view::MaterializedView;
use crate::model::models;
use crate::plan::raw_step::{one_target, push_safe, safe_step, RawStep, StepKind, StepModel};
use crate::plan::rewrite::emit::view::{column_comments, push_column_comments};
use crate::plan::rewrite::views::{
    comment_on_mv_sql, comment_on_view_column_sql, create_mv_sql, drop_mv_sql,
    emit_comment_on_materialized_view, emit_comment_on_mv_column, emit_create_materialized_view,
    emit_drop_materialized_view, emit_refresh_mv, refresh_mv_sql,
};
use crate::text::{as_deref, opt_text};
use vstd::prelude::*;

verus! {

/// The two steps that create a materialized view and fill it.
pub open spec fn create_and_refresh(mv: MaterializedView) -> Seq<StepModel> {
    seq![
        safe_step(StepKind::CreateMaterializedView, seq![mv.qname@], create_mv_sql(mv)),
        safe_step(
            StepKind::RefreshMaterializedView,
            seq![mv.qname@],
            refresh_mv_sql(mv.qname, false),
        ),
    ]
}

fn push_create_and_refresh(mv: &MaterializedView, out: &mut Vec<RawStep>)
    ensures
        models(final(out)@) == models(old(out)@) + create_and_refresh(*mv),
{
    let ghost before = models(out@);
    push_safe(
        out,
        StepKind::CreateMaterializedView,
        one_target(&mv.qname),
        emit_create_materialized_view(mv),
    );
    push_safe(
        out,
        StepKind::RefreshMaterializedView,
        one_target(&mv.qname),
        emit_refresh_mv(&mv.qname, false),
    );
    assert(models(out@) =~= before + create_and_refresh(*mv));
}

/// The steps that create a materialized view: the view, a refresh, its
/// comment, its columns' comments.
pub open spec fn create_steps(mv: MaterializedView) -> Seq<StepModel> {
    let first = create_and_refresh(mv);
    let second = match mv.comment {
        Some(c) => first.push(
            safe_step(
                StepKind::CommentOnView,
                seq![mv.qname@],
                comment_on_mv_sql(mv.qname, Some(c@)),
            ),
        ),
        None => first,
    };
    second + column_comments(mv.qname, mv.columns@)
}

/// The steps for a change of a materialized view.
#[verifier::opaque]
pub open spec fn mv_steps(mc: MvChange) -> Seq<StepModel> {
    match mc {
        MvChange::Create(mv) => create_steps(mv),
        MvChange::Drop(q) => seq![
            safe_step(StepKind::DropMaterializedView, seq![q@], drop_mv_sql(q)),
        ],
        MvChange::ReplaceBody { source, catalog } => seq![
            safe_step(
                StepKind::DropMaterializedView,
                seq![source.qname@],
                drop_mv_sql(catalog.qname),
            ),
        ] + create_and_refresh(source),
        MvChange::SetComment { qname, comment } => seq![
            safe_step(
                StepKind::CommentOnView,
                seq![qname@],
                comment_on_mv_sql(qname, opt_text(comment)),
            ),
        ],
        MvChange::SetColumnComment { qname, column, comment } => seq![
            safe_step(
                StepKind::CommentOnView,
                seq![qname@],
                comment_on_view_column_sql(qname, column, opt_text(comment)),
            ),
        ],
    }
}

/// Emits the steps for a change of a materialized view.
pub fn emit(
    mc: MvChange,
    _destructive: bool,
    _destructive_reason: Option<String>,
    out: &mut Vec<RawStep>,
)
    ensures
        models(final(out)@) == models(old(out)@) + mv_steps(mc),
{
    let ghost before = models(out@);
    match &mc {
        MvChange::Create(mv) => {
            push_create_and_refresh(mv, out);
            match &mv.comment {
                Some(c) => {
                    push_safe(
                        out,
                        StepKind::CommentOnView,
                        one_target(&mv.qname),
                        emit_comment_on_materialized_view(&mv.qname, Some(c.as_str())),
                    );
                },
                None => {},
            }
            push_column_comments(&mv.qname, &mv.columns, out);
        },
        MvChange::Drop(q) => {
            push_safe(
                out,
                StepKind::DropMaterializedView,
                one_target(q),
                emit_drop_materialized_view(q),
            );
        },
        MvChange::ReplaceBody { source, catalog } => {
            push_safe(
                out,
                StepKind::DropMaterializedView,
                one_target(&source.qname),
                emit_drop_materialized_view(&catalog.qname),
            );
            push_create_and_refresh(source, out);
        },
        MvChange::SetComment { qname, comment } => {
            push_safe(
                out,
                StepKind::CommentOnView,
                one_target(qname),
                emit_comment_on_materialized_view(qname, as_deref(comment)),
            );
        },
        MvChange::SetColumnComment { qname, column, comment } => {
            push_safe(
                out,
                StepKind::CommentOnView,
                one_target(qname),
                emit_comment_on_mv_column(qname, column, as_deref(comment)),
            );
        },
    }
    proof {
        reveal(mv_steps);
    }
    assert(models(out@) =~= before + mv_steps(mc));
}

} // verus!
