//! Steps for indexes: create, drop, replace and recreate.
//!
//! Each side of a replacement goes through the same test for building
//! concurrently as a plain create or drop, so the policy applies uniformly.

use crate::identifier::QualifiedName;
use crate::ir::catalog::Catalog;
use crate::ir::index::Index;
use crate::model::models;
use crate::plan::policy::PlannerPolicy;
use crate::plan::raw_step::{
    gated_step, one_target, push_raw, push_safe, raw_step, safe_step, two_targets, RawStep,
    StepKind, StepModel, TransactionConstraint,
};
use crate::plan::rewrite::concurrent_index::{
    create_step, create_step_model, creates_concurrently, drop_step, drop_step_model,
    drops_concurrently, find_index, is_first_index, should_rewrite_create, should_rewrite_drop,
};
use crate::plan::rewrite::context::Ctx;
use crate::plan::rewrite::sql::{create_index, create_index_sql, drop_index, drop_index_sql};
use crate::text::{finish_comment, opt_text, prefixed, with_comment, ToSql};
use vstd::prelude::*;

verus! {

/// The step that creates an index, concurrently where that applies.
pub open spec fn one_create(
    idx: Index,
    target: Catalog,
    policy: PlannerPolicy,
    destructive: bool,
    reason: Option<Seq<char>>,
) -> StepModel {
    if creates_concurrently(idx, target, policy) {
        create_step_model(idx, destructive, reason)
    } else {
        gated_step(
            StepKind::CreateIndex,
            destructive,
            reason,
            seq![idx.qname@, idx.on.name()@],
            create_index_sql(idx, false),
        )
    }
}

fn make_create(
    idx: &Index,
    ctx: &Ctx,
    destructive: bool,
    destructive_reason: Option<String>,
) -> (step: RawStep)
    ensures
        step@ == one_create(
            *idx,
            *ctx.target,
            *ctx.policy,
            destructive,
            opt_text(destructive_reason),
        ),
{
    if should_rewrite_create(idx, ctx.target, ctx.policy) {
        create_step(idx, destructive, destructive_reason)
    } else {
        raw_step(
            StepKind::CreateIndex,
            destructive,
            destructive_reason,
            two_targets(&idx.qname, idx.on.qname()),
            create_index(idx, false),
            TransactionConstraint::InTransaction,
        )
    }
}

/// The step that drops an index, concurrently where that applies.
pub open spec fn one_drop(
    q: QualifiedName,
    target: Catalog,
    policy: PlannerPolicy,
    destructive: bool,
    reason: Option<Seq<char>>,
) -> StepModel {
    if drops_concurrently(q, target, policy) {
        drop_step_model(q, destructive, reason)
    } else {
        gated_step(StepKind::DropIndex, destructive, reason, seq![q@], drop_index_sql(q, false))
    }
}

fn make_drop(
    q: &QualifiedName,
    ctx: &Ctx,
    destructive: bool,
    destructive_reason: Option<String>,
) -> (step: RawStep)
    ensures
        step@ == one_drop(
            *q,
            *ctx.target,
            *ctx.policy,
            destructive,
            opt_text(destructive_reason),
        ),
{
    if should_rewrite_drop(q, ctx.target, ctx.policy) {
        drop_step(q, destructive, destructive_reason)
    } else {
        raw_step(
            StepKind::DropIndex,
            destructive,
            destructive_reason,
            one_target(q),
            drop_index(q, false),
            TransactionConstraint::InTransaction,
        )
    }
}

/// `COMMENT ON INDEX name IS '...';`
pub open spec fn comment_on_index_sql(q: QualifiedName, comment: Seq<char>) -> Seq<char> {
    with_comment("COMMENT ON INDEX "@ + q@.sql(), Some(comment))
}

/// The steps that create an index: the index, then its comment.
#[verifier::opaque]
pub open spec fn create_steps(
    idx: Index,
    target: Catalog,
    policy: PlannerPolicy,
    destructive: bool,
    reason: Option<Seq<char>>,
) -> Seq<StepModel> {
    let first = seq![one_create(idx, target, policy, destructive, reason)];
    match idx.comment {
        Some(c) => first.push(
            safe_step(
                StepKind::SetColumnComment,
                seq![idx.qname@],
                comment_on_index_sql(idx.qname, c@),
            ),
        ),
        None => first,
    }
}

/// Creates an index.
pub fn create(
    idx: Index,
    ctx: &Ctx,
    destructive: bool,
    destructive_reason: Option<String>,
    out: &mut Vec<RawStep>,
)
    ensures
        models(final(out)@) == models(old(out)@) + create_steps(
            idx,
            *ctx.target,
            *ctx.policy,
            destructive,
            opt_text(destructive_reason),
        ),
{
    let ghost before = models(out@);
    push_raw(out, make_create(&idx, ctx, destructive, destructive_reason));
    match &idx.comment {
        Some(c) => {
            push_safe(
                out,
                StepKind::SetColumnComment,
                one_target(&idx.qname),
                finish_comment(prefixed("COMMENT ON INDEX ", &idx.qname), Some(c.as_str())),
            );
        },
        None => {},
    }
    proof {
        reveal(create_steps);
    }
    assert(models(out@) =~= before + create_steps(
        idx,
        *ctx.target,
        *ctx.policy,
        destructive,
        opt_text(destructive_reason),
    ));
}

/// The step that drops an index.
#[verifier::opaque]
pub open spec fn drop_steps(
    q: QualifiedName,
    target: Catalog,
    policy: PlannerPolicy,
    destructive: bool,
    reason: Option<Seq<char>>,
) -> Seq<StepModel> {
    seq![one_drop(q, target, policy, destructive, reason)]
}

/// Drops an index.
pub fn drop_(
    q: QualifiedName,
    ctx: &Ctx,
    destructive: bool,
    destructive_reason: Option<String>,
    out: &mut Vec<RawStep>,
)
    ensures
        models(final(out)@) == models(old(out)@) + drop_steps(
            q,
            *ctx.target,
            *ctx.policy,
            destructive,
            opt_text(destructive_reason),
        ),
{
    let ghost before = models(out@);
    push_raw(out, make_drop(&q, ctx, destructive, destructive_reason));
    proof {
        reveal(drop_steps);
    }
    assert(models(out@) =~= before + drop_steps(
        q,
        *ctx.target,
        *ctx.policy,
        destructive,
        opt_text(destructive_reason),
    ));
}

/// The steps that replace an index: the drop, then the create.
#[verifier::opaque]
pub open spec fn replace_steps(
    from: Index,
    to: Index,
    target: Catalog,
    policy: PlannerPolicy,
) -> Seq<StepModel> {
    seq![
        one_drop(from.qname, target, policy, false, None),
        one_create(to, target, policy, false, None),
    ]
}

/// Replaces an index. That is never destructive.
pub fn replace(
    from: Index,
    to: Index,
    ctx: &Ctx,
    _destructive: bool,
    _destructive_reason: Option<String>,
    out: &mut Vec<RawStep>,
)
    ensures
        models(final(out)@) == models(old(out)@) + replace_steps(
            from,
            to,
            *ctx.target,
            *ctx.policy,
        ),
{
    let ghost before = models(out@);
    push_raw(out, make_drop(&from.qname, ctx, false, None));
    push_raw(out, make_create(&to, ctx, false, None));
    proof {
        reveal(replace_steps);
    }
    assert(models(out@) =~= before + replace_steps(from, to, *ctx.target, *ctx.policy));
}

/// The index that a catalog defines under a name: the first of that name.
pub open spec fn defined_index(list: Seq<Index>, q: QualifiedName) -> Option<Index> {
    if exists|i: int| is_first_index(list, q, i) {
        Some(list[choose|i: int| is_first_index(list, q, i)])
    } else {
        None
    }
}

/// The steps that rebuild an invalid index: the drop, then the create where
/// the source still defines the index.
#[verifier::opaque]
pub open spec fn recreate_steps(
    q: QualifiedName,
    target: Catalog,
    source: Catalog,
    policy: PlannerPolicy,
) -> Seq<StepModel> {
    let first = seq![one_drop(q, target, policy, false, None)];
    match defined_index(source.indexes@, q) {
        Some(idx) => first.push(one_create(idx, target, policy, false, None)),
        None => first,
    }
}

/// Rebuilds an invalid index. That is never destructive.
pub fn recreate(
    q: QualifiedName,
    ctx: &Ctx,
    _destructive: bool,
    _destructive_reason: Option<String>,
    out: &mut Vec<RawStep>,
)
    ensures
        models(final(out)@) == models(old(out)@) + recreate_steps(
            q,
            *ctx.target,
            *ctx.source,
            *ctx.policy,
        ),
{
    let ghost before = models(out@);
    push_raw(out, make_drop(&q, ctx, false, None));
    match find_index(&ctx.source.indexes, &q) {
        Some(i) => {
            proof {
                let list = ctx.source.indexes@;
                assert(is_first_index(list, q, i as int));
                let j = choose|j: int| is_first_index(list, q, j);
                assert(j == i) by {
                    if j < i {
                        assert(list[j].qname@ != q@);
                    } else if i < j {
                        assert(list[i as int].qname@ != q@);
                    }
                }
            }
            push_raw(out, make_create(&ctx.source.indexes[i], ctx, false, None));
        },
        None => {
            assert forall|j: int| !is_first_index(ctx.source.indexes@, q, j) by {}
        },
    }
    proof {
        reveal(recreate_steps);
    }
    assert(models(out@) =~= before + recreate_steps(
        q,
        *ctx.target,
        *ctx.source,
        *ctx.policy,
    ));
}

} // verus!
