//! Steps for foreign keys that are added at the end of the plan.

use crate::model::models;
use crate::plan::ordered::DeferredFkAdd;
use crate::plan::raw_step::{one_target, push_safe, safe_step, RawStep, StepKind, StepModel};
use crate::plan::rewrite::sql::{add_constraint_sql, alter_table_add_constraint};
use vstd::prelude::*;

verus! {

/// The step that adds a deferred foreign key.
pub open spec fn deferred_fk_steps(fk: DeferredFkAdd) -> Seq<StepModel> {
    seq![
        safe_step(
            StepKind::AddConstraint,
            seq![fk.table@],
            add_constraint_sql(fk.table, fk.constraint),
        ),
    ]
}

/// Adds a deferred foreign key.
pub fn emit(fk: &DeferredFkAdd, out: &mut Vec<RawStep>)
    ensures
        models(final(out)@) == models(old(out)@) + deferred_fk_steps(*fk),
{
    let ghost before = models(out@);
    push_safe(
        out,
        StepKind::AddConstraint,
        one_target(&fk.table),
        alter_table_add_constraint(&fk.table, &fk.constraint),
    );
    assert(models(out@) =~= before + deferred_fk_steps(*fk));
}

} // verus!
