//! `REFRESH MATERIALIZED VIEW CONCURRENTLY`.
//!
//! A refresh becomes concurrent where the materialized view has a unique
//! index. The indexes are those of the desired catalog, so that one that the
//! same plan creates counts.

use crate::identifier::{QnameModel, QualifiedName};
use crate::ir::catalog::Catalog;
use crate::ir::index::{Index, IndexParent};
use crate::model::{models, Duplicate};
use crate::plan::policy::PlannerPolicy;
use crate::plan::raw_step::{RawStep, StepKind, StepModel};
use crate::plan::rewrite::views::emit_refresh_mv;
use vstd::prelude::*;
use vstd::string::*;

verus! {

/// Whether an index is a unique one on the materialized view.
pub open spec fn is_unique_on(idx: Index, q: QnameModel) -> bool {
    idx.unique && (idx.on matches IndexParent::Mv(name) && name@ == q)
}

/// Whether a materialized view has a unique index.
pub open spec fn has_unique_index(source: Catalog, q: QnameModel) -> bool {
    exists|i: int| 0 <= i < source.indexes@.len() && is_unique_on(#[trigger] source.indexes@[i], q)
}

fn unique_index_exists(source: &Catalog, q: &QualifiedName) -> (r: bool)
    ensures
        r == has_unique_index(*source, q@),
{
    let mut i: usize = 0;
    while i < source.indexes.len()
        invariant
            i <= source.indexes@.len(),
            forall|k: int| 0 <= k < i ==> !is_unique_on(#[trigger] source.indexes@[k], q@),
        decreases source.indexes@.len() - i,
    {
        let idx = &source.indexes[i];
        match &idx.on {
            IndexParent::Mv(name) => {
                if idx.unique && name.same(q) {
                    assert(is_unique_on(source.indexes@[i as int], q@));
                    return true;
                }
            },
            IndexParent::Table(_) => {},
        }
        i = i + 1;
    }
    false
}

/// A step that refreshes one materialized view.
pub open spec fn is_refresh(step: StepModel) -> bool {
    step.kind is RefreshMaterializedView && step.targets.len() == 1
}

/// A step after the pass: a refresh of a materialized view with a unique
/// index becomes concurrent, everything else stays.
pub open spec fn upgraded(step: StepModel, source: Catalog, policy: PlannerPolicy) -> StepModel {
    if policy.effective(policy.online.refresh_mv_concurrently) && is_refresh(step)
        && has_unique_index(source, step.targets[0]) {
        StepModel {
            sql: "REFRESH MATERIALIZED VIEW CONCURRENTLY "@ + step.targets[0].sql() + ";"@,
            ..step
        }
    } else {
        step
    }
}

/// The steps after the pass.
pub open spec fn upgraded_all(
    steps: Seq<StepModel>,
    source: Catalog,
    policy: PlannerPolicy,
) -> Seq<StepModel> {
    steps.map_values(|step: StepModel| upgraded(step, source, policy))
}

/// The materialized views that are refreshed and have no unique index, where
/// the pass is enabled: readers are blocked while they are refreshed.
pub open spec fn blocking_refreshes(
    steps: Seq<StepModel>,
    source: Catalog,
    policy: PlannerPolicy,
) -> Seq<QnameModel>
    decreases steps.len(),
{
    if steps.len() == 0 {
        Seq::empty()
    } else {
        let rest = blocking_refreshes(steps.drop_last(), source, policy);
        let step = steps.last();
        if policy.effective(policy.online.refresh_mv_concurrently) && is_refresh(step)
            && !has_unique_index(source, step.targets[0]) {
            rest.push(step.targets[0])
        } else {
            rest
        }
    }
}

/// Makes refreshes concurrent where that is possible, and lists the
/// materialized views where it is not.
pub fn rewrite(
    steps: &mut Vec<RawStep>,
    source: &Catalog,
    policy: &PlannerPolicy,
    findings: &mut Vec<QualifiedName>,
)
    ensures
        models(final(steps)@) == upgraded_all(models(old(steps)@), *source, *policy),
        models(final(findings)@) == models(old(findings)@) + blocking_refreshes(
            models(old(steps)@),
            *source,
            *policy,
        ),
{
    let ghost initial = models(steps@);
    let ghost found = models(findings@);
    let mut i: usize = 0;
    assert(models(findings@) =~= found + blocking_refreshes(initial.take(0), *source, *policy));
    while i < steps.len()
        invariant
            i <= steps@.len(),
            initial.len() == steps@.len(),
            forall|k: int|
                0 <= k < i ==> (#[trigger] steps@[k])@ == upgraded(initial[k], *source, *policy),
            forall|k: int| i <= k < steps@.len() ==> (#[trigger] steps@[k])@ == initial[k],
            models(findings@) == found + blocking_refreshes(
                initial.take(i as int),
                *source,
                *policy,
            ),
        decreases steps@.len() - i,
    {
        assert(initial.take(i + 1).drop_last() =~= initial.take(i as int));
        let ghost step = steps@[i as int]@;
        assert(step == initial[i as int]);
        let ghost here = models(findings@);
        let refresh = match steps[i].kind {
            StepKind::RefreshMaterializedView => true,
            _ => false,
        };
        if policy.refresh_mv_concurrently() && refresh && steps[i].targets.len() == 1 {
            let q = steps[i].targets[0].duplicate();
            assert(q@ == step.targets[0]);
            if unique_index_exists(source, &q) {
                let sql = emit_refresh_mv(&q, true);
                steps[i].sql = sql;
            } else {
                findings.push(q);
                assert(models(findings@) =~= here.push(q@));
            }
        }
        assert(models(findings@) =~= found + blocking_refreshes(
            initial.take(i + 1),
            *source,
            *policy,
        ));
        i = i + 1;
    }
    assert(initial.take(initial.len() as int) =~= initial);
    assert(models(steps@) =~= upgraded_all(initial, *source, *policy));
}

} // verus!
