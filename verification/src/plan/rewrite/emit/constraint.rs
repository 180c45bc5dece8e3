//! Steps for validating a constraint that was left unvalidated.

use crate::identifier::{Identifier, QualifiedName};
use crate::model::models;
use crate::plan::raw_step::{one_target, push_safe, safe_step, RawStep, StepKind, StepModel};
use crate::plan::rewrite::sql::{alter_table_validate_constraint, validate_constraint_sql};
use vstd::prelude::*;

verus! {

/// The step that validates a constraint.
#[verifier::opaque]
pub open spec fn validate_steps(table: QualifiedName, constraint: Identifier) -> Seq<StepModel> {
    seq![
        safe_step(
            StepKind::ValidateConstraint,
            seq![table@],
            validate_constraint_sql(table, constraint),
        ),
    ]
}

/// Validates a constraint. That is never destructive.
pub fn validate(
    table: QualifiedName,
    constraint: Identifier,
    _destructive: bool,
    _destructive_reason: Option<String>,
    out: &mut Vec<RawStep>,
)
    ensures
        models(final(out)@) == models(old(out)@) + validate_steps(table, constraint),
{
    let ghost before = models(out@);
    push_safe(
        out,
        StepKind::ValidateConstraint,
        one_target(&table),
        alter_table_validate_constraint(&table, &constraint),
    );
    proof {
        reveal(validate_steps);
    }
    assert(models(out@) =~= before + validate_steps(table, constraint));
}

} // verus!
