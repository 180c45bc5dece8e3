//! `CREATE INDEX CONCURRENTLY` and `DROP INDEX CONCURRENTLY`.
//!
//! On a table that exists already, building an index concurrently does not
//! block writes. `CONCURRENTLY` cannot run inside a transaction.
//!
//! Unique indexes are never built concurrently: a failed build leaves an
//! invalid index that must be cleaned up by hand.

use crate::identifier::QualifiedName;
use crate::ir::catalog::Catalog;
use crate::ir::index::{Index, IndexParent};
use crate::plan::policy::PlannerPolicy;
use crate::plan::raw_step::{
    one_target, raw_step, two_targets, unnumbered, RawStep, StepKind, StepModel,
    TransactionConstraint,
};
use crate::plan::rewrite::sql::{create_index, create_index_sql, drop_index, drop_index_sql};
use crate::text::opt_text;
use vstd::prelude::*;

verus! {

/// Whether an index is created concurrently: the policy enables it, the index
/// is on a table that exists already, and it is not unique.
///
/// An index on a materialized view is not, whatever tables there are.
pub open spec fn creates_concurrently(idx: Index, target: Catalog, policy: PlannerPolicy) -> bool {
    &&& policy.effective(policy.online.create_index_concurrent)
    &&& idx.on matches IndexParent::Table(table) && target.has_table(table)
    &&& !idx.unique
}

/// Whether an index is created concurrently.
pub fn should_rewrite_create(idx: &Index, target: &Catalog, policy: &PlannerPolicy) -> (r: bool)
    ensures
        r == creates_concurrently(*idx, *target, *policy),
{
    let on_table = match &idx.on {
        IndexParent::Table(table) => target.table_exists(table),
        IndexParent::Mv(_) => false,
    };
    policy.create_index_concurrent() && on_table && !idx.unique
}

/// Whether the index at a place is the first of its name.
pub open spec fn is_first_index(list: Seq<Index>, q: QualifiedName, i: int) -> bool {
    &&& 0 <= i < list.len()
    &&& list[i].qname@ == q@
    &&& forall|k: int| 0 <= k < i ==> (#[trigger] list[k]).qname@ != q@
}

/// The place of the first index of that name.
pub fn find_index(list: &Vec<Index>, q: &QualifiedName) -> (r: Option<usize>)
    ensures
        match r {
            Some(i) => is_first_index(list@, *q, i as int),
            None => forall|k: int| 0 <= k < list@.len() ==> (#[trigger] list@[k]).qname@ != q@,
        },
{
    let mut i: usize = 0;
    while i < list.len()
        invariant
            i <= list@.len(),
            forall|k: int| 0 <= k < i ==> (#[trigger] list@[k]).qname@ != q@,
        decreases list@.len() - i,
    {
        if list[i].qname.same(q) {
            return Some(i);
        }
        i = i + 1;
    }
    None
}

/// Whether an index is dropped concurrently: the policy enables it, and the
/// catalog knows the index and knows that it is not unique.
pub open spec fn drops_concurrently(
    q: QualifiedName,
    target: Catalog,
    policy: PlannerPolicy,
) -> bool {
    &&& policy.effective(policy.online.create_index_concurrent)
    &&& exists|i: int|
        #[trigger] is_first_index(target.indexes@, q, i) && !target.indexes@[i].unique
}

/// Whether an index is dropped concurrently.
pub fn should_rewrite_drop(
    q: &QualifiedName,
    target: &Catalog,
    policy: &PlannerPolicy,
) -> (r: bool)
    ensures
        r == drops_concurrently(*q, *target, *policy),
{
    if !policy.create_index_concurrent() {
        return false;
    }
    match find_index(&target.indexes, q) {
        Some(i) => {
            assert(is_first_index(target.indexes@, *q, i as int));
            assert forall|k: int| #[trigger] is_first_index(target.indexes@, *q, k) implies k
                == i by {
                if k < i {
                    assert(target.indexes@[k].qname@ != q@);
                }
            }
            !target.indexes[i].unique
        },
        None => false,
    }
}

/// Creating an index concurrently.
pub open spec fn create_step_model(
    idx: Index,
    destructive: bool,
    reason: Option<Seq<char>>,
) -> StepModel {
    unnumbered(
        StepKind::CreateIndexConcurrent,
        destructive,
        reason,
        seq![idx.qname@, idx.on.name()@],
        create_index_sql(idx, true),
        TransactionConstraint::OutsideTransaction,
    )
}

/// Creating an index concurrently.
pub fn create_step(
    idx: &Index,
    destructive: bool,
    destructive_reason: Option<String>,
) -> (step: RawStep)
    ensures
        step@ == create_step_model(*idx, destructive, opt_text(destructive_reason)),
{
    raw_step(
        StepKind::CreateIndexConcurrent,
        destructive,
        destructive_reason,
        two_targets(&idx.qname, idx.on.qname()),
        create_index(idx, true),
        TransactionConstraint::OutsideTransaction,
    )
}

/// Dropping an index concurrently.
pub open spec fn drop_step_model(
    q: QualifiedName,
    destructive: bool,
    reason: Option<Seq<char>>,
) -> StepModel {
    unnumbered(
        StepKind::DropIndexConcurrent,
        destructive,
        reason,
        seq![q@],
        drop_index_sql(q, true),
        TransactionConstraint::OutsideTransaction,
    )
}

/// Dropping an index concurrently.
pub fn drop_step(
    q: &QualifiedName,
    destructive: bool,
    destructive_reason: Option<String>,
) -> (step: RawStep)
    ensures
        step@ == drop_step_model(*q, destructive, opt_text(destructive_reason)),
{
    raw_step(
        StepKind::DropIndexConcurrent,
        destructive,
        destructive_reason,
        one_target(q),
        drop_index(q, true),
        TransactionConstraint::OutsideTransaction,
    )
}

} // verus!
