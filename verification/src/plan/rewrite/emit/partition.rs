//! Steps for attaching and detaching partitions.

use crate::diff::change::TableChange;
use crate::model::models;
use crate::plan::raw_step::{one_target, push_safe, safe_step, RawStep, StepKind, StepModel};
use crate::plan::rewrite::partitions::{
    attach_partition, attach_partition_sql, detach_partition, detach_partition_sql,
};
use vstd::prelude::*;

verus! {

/// The step for a change of a partition's place.
#[verifier::opaque]
pub open spec fn partition_steps(change: TableChange) -> Seq<StepModel> {
    match change {
        TableChange::AttachPartition { parent, child, bounds } => seq![
            safe_step(
                StepKind::AttachPartition,
                seq![child@],
                attach_partition_sql(parent, child, bounds),
            ),
        ],
        TableChange::DetachPartition { parent, child } => seq![
            safe_step(
                StepKind::DetachPartition,
                seq![child@],
                detach_partition_sql(parent, child),
            ),
        ],
    }
}

/// Emits the step for a change of a partition's place.
pub fn emit(change: TableChange, out: &mut Vec<RawStep>)
    ensures
        models(final(out)@) == models(old(out)@) + partition_steps(change),
{
    let ghost before = models(out@);
    match &change {
        TableChange::AttachPartition { parent, child, bounds } => {
            push_safe(
                out,
                StepKind::AttachPartition,
                one_target(child),
                attach_partition(parent, child, bounds),
            );
        },
        TableChange::DetachPartition { parent, child } => {
            push_safe(
                out,
                StepKind::DetachPartition,
                one_target(child),
                detach_partition(parent, child),
            );
        },
    }
    proof {
        reveal(partition_steps);
    }
    assert(models(out@) =~= before + partition_steps(change));
}

} // verus!
