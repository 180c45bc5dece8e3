//! Steps for views.

use crate::diff::change::ViewChange;
use crate::identifier::QualifiedName;
use crate::ir::view::{ViewColumn, ViewDefinition};
use crate::model::models;
use crate::plan::raw_step::{
    gated_step, one_target, push_gated, push_safe, safe_step, RawStep, StepKind, StepModel,
};
use crate::plan::rewrite::views::{
    comment_on_view_column_sql, comment_on_view_sql, create_view_sql, drop_view_sql,
    emit_alter_view_set_reloption, emit_comment_on_view, emit_comment_on_view_column,
    emit_create_view, emit_drop_view, view_reloption_sql,
};
use crate::text::{as_deref, opt_text};
use vstd::prelude::*;

verus! {

/// One step for each column that has a comment.
pub open spec fn column_comments(q: QualifiedName, columns: Seq<ViewColumn>) -> Seq<StepModel>
    decreases columns.len(),
{
    if columns.len() == 0 {
        Seq::empty()
    } else {
        let rest = column_comments(q, columns.drop_last());
        match columns.last().comment {
            Some(c) => rest.push(
                safe_step(
                    StepKind::CommentOnView,
                    seq![q@],
                    comment_on_view_column_sql(q, columns.last().name, Some(c@)),
                ),
            ),
            None => rest,
        }
    }
}

/// Emits one step for each column that has a comment.
pub fn push_column_comments(q: &QualifiedName, columns: &Vec<ViewColumn>, out: &mut Vec<RawStep>)
    ensures
        models(final(out)@) == models(old(out)@) + column_comments(*q, columns@),
{
    let ghost before = models(out@);
    let mut i: usize = 0;
    assert(models(out@) =~= before + column_comments(*q, columns@.take(0)));
    while i < columns.len()
        invariant
            i <= columns@.len(),
            models(out@) == before + column_comments(*q, columns@.take(i as int)),
        decreases columns@.len() - i,
    {
        assert(columns@.take(i + 1).drop_last() =~= columns@.take(i as int));
        let column = &columns[i];
        match &column.comment {
            Some(c) => {
                push_safe(
                    out,
                    StepKind::CommentOnView,
                    one_target(q),
                    emit_comment_on_view_column(q, &column.name, Some(c.as_str())),
                );
            },
            None => {},
        }
        assert(models(out@) =~= before + column_comments(*q, columns@.take(i + 1)));
        i = i + 1;
    }
    assert(columns@.take(columns@.len() as int) =~= columns@);
}

/// The steps that create a view: the view, its comment, its columns' comments.
pub open spec fn create_steps(v: ViewDefinition) -> Seq<StepModel> {
    let first = seq![safe_step(StepKind::CreateView, seq![v.qname@], create_view_sql(v, false))];
    let second = match v.comment {
        Some(c) => first.push(
            safe_step(
                StepKind::CommentOnView,
                seq![v.qname@],
                comment_on_view_sql(v.qname, Some(c@)),
            ),
        ),
        None => first,
    };
    second + column_comments(v.qname, v.columns@)
}

/// The steps for a change of a view.
#[verifier::opaque]
pub open spec fn view_steps(
    vc: ViewChange,
    destructive: bool,
    reason: Option<Seq<char>>,
) -> Seq<StepModel> {
    match vc {
        ViewChange::Create(v) => create_steps(v),
        ViewChange::Drop(q) => seq![
            gated_step(StepKind::DropView, destructive, reason, seq![q@], drop_view_sql(q)),
        ],
        ViewChange::ReplaceBody { source, catalog, compatible } => if compatible {
            seq![
                safe_step(StepKind::CreateView, seq![source.qname@], create_view_sql(source, true)),
            ]
        } else {
            seq![
                gated_step(
                    StepKind::DropView,
                    destructive,
                    reason,
                    seq![source.qname@],
                    drop_view_sql(catalog.qname),
                ),
                safe_step(StepKind::CreateView, seq![source.qname@], create_view_sql(source, false)),
            ]
        },
        ViewChange::SetReloption { qname, security_barrier, security_invoker } => seq![
            safe_step(
                StepKind::AlterViewSetReloption,
                seq![qname@],
                view_reloption_sql(qname, security_barrier, security_invoker),
            ),
        ],
        ViewChange::SetComment { qname, comment } => seq![
            safe_step(
                StepKind::CommentOnView,
                seq![qname@],
                comment_on_view_sql(qname, opt_text(comment)),
            ),
        ],
        ViewChange::SetColumnComment { qname, column, comment } => seq![
            safe_step(
                StepKind::CommentOnView,
                seq![qname@],
                comment_on_view_column_sql(qname, column, opt_text(comment)),
            ),
        ],
    }
}

/// Emits the steps for a change of a view.
pub fn emit(
    vc: ViewChange,
    destructive: bool,
    destructive_reason: Option<String>,
    out: &mut Vec<RawStep>,
)
    ensures
        models(final(out)@) == models(old(out)@) + view_steps(
            vc,
            destructive,
            opt_text(destructive_reason),
        ),
{
    let ghost before = models(out@);
    match &vc {
        ViewChange::Create(v) => {
            push_safe(out, StepKind::CreateView, one_target(&v.qname), emit_create_view(v, false));
            match &v.comment {
                Some(c) => {
                    push_safe(
                        out,
                        StepKind::CommentOnView,
                        one_target(&v.qname),
                        emit_comment_on_view(&v.qname, Some(c.as_str())),
                    );
                },
                None => {},
            }
            push_column_comments(&v.qname, &v.columns, out);
        },
        ViewChange::Drop(q) => {
            push_gated(
                out,
                StepKind::DropView,
                destructive,
                destructive_reason,
                one_target(q),
                emit_drop_view(q),
            );
        },
        ViewChange::ReplaceBody { source, catalog, compatible } => {
            if *compatible {
                push_safe(
                    out,
                    StepKind::CreateView,
                    one_target(&source.qname),
                    emit_create_view(source, true),
                );
            } else {
                push_gated(
                    out,
                    StepKind::DropView,
                    destructive,
                    destructive_reason,
                    one_target(&source.qname),
                    emit_drop_view(&catalog.qname),
                );
                push_safe(
                    out,
                    StepKind::CreateView,
                    one_target(&source.qname),
                    emit_create_view(source, false),
                );
            }
        },
        ViewChange::SetReloption { qname, security_barrier, security_invoker } => {
            push_safe(
                out,
                StepKind::AlterViewSetReloption,
                one_target(qname),
                emit_alter_view_set_reloption(qname, *security_barrier, *security_invoker),
            );
        },
        ViewChange::SetComment { qname, comment } => {
            push_safe(
                out,
                StepKind::CommentOnView,
                one_target(qname),
                emit_comment_on_view(qname, as_deref(comment)),
            );
        },
        ViewChange::SetColumnComment { qname, column, comment } => {
            push_safe(
                out,
                StepKind::CommentOnView,
                one_target(qname),
                emit_comment_on_view_column(qname, column, as_deref(comment)),
            );
        },
    }
    proof {
        reveal(view_steps);
    }
    assert(models(out@) =~= before + view_steps(vc, destructive, opt_text(destructive_reason)));
}

} // verus!
