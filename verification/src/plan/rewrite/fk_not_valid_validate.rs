//! Adding a foreign key to an existing table in two steps.
//!
//! Validating the key in one shot takes a lock and scans the table, so the
//! work is split:
//!
//! 1. `ALTER TABLE ... ADD CONSTRAINT ... NOT VALID`, which is cheap.
//! 2. `ALTER TABLE ... VALIDATE CONSTRAINT ...`, which is slow.
//!
//! Both run inside a transaction. Grouping joins neighbours that do, so the
//! two steps share a transaction group.

use crate::identifier::QualifiedName;
use crate::ir::catalog::Catalog;
use crate::ir::constraint::{Constraint, ConstraintKind};
use crate::model::models;
use crate::plan::policy::PlannerPolicy;
use crate::plan::raw_step::{
    gated_step, one_target, raw_step, RawStep, StepKind, StepModel, TransactionConstraint,
};
use crate::plan::rewrite::sql::{
    add_constraint_not_valid_sql, alter_table_add_constraint_not_valid,
    alter_table_validate_constraint, validate_constraint_sql,
};
use crate::text::{dup_opt_text, opt_text};
use vstd::prelude::*;

verus! {

/// Whether the key is added in two steps: the policy enables it, the
/// constraint is a foreign key, and the table exists already.
pub open spec fn applies(
    q: QualifiedName,
    c: Constraint,
    target: Catalog,
    policy: PlannerPolicy,
) -> bool {
    &&& policy.effective(policy.online.fk_not_valid_then_validate)
    &&& c.kind is ForeignKey
    &&& target.has_table(q)
}

/// Whether the key is added in two steps.
pub fn should_rewrite(
    q: &QualifiedName,
    c: &Constraint,
    target: &Catalog,
    policy: &PlannerPolicy,
) -> (r: bool)
    ensures
        r == applies(*q, *c, *target, *policy),
{
    policy.fk_not_valid_then_validate() && matches!(c.kind, ConstraintKind::ForeignKey(_))
        && target.table_exists(q)
}

/// Adding a constraint without validating it, then validating it.
pub open spec fn two_steps(
    q: QualifiedName,
    c: Constraint,
    destructive: bool,
    reason: Option<Seq<char>>,
) -> Seq<StepModel> {
    seq![
        gated_step(
            StepKind::AddConstraintNotValid,
            destructive,
            reason,
            seq![q@],
            add_constraint_not_valid_sql(q, c),
        ),
        gated_step(
            StepKind::ValidateConstraint,
            destructive,
            reason,
            seq![q@],
            validate_constraint_sql(q, c.qname.name),
        ),
    ]
}

/// The two steps.
pub fn rewrite_steps(
    q: &QualifiedName,
    c: &Constraint,
    destructive: bool,
    destructive_reason: Option<String>,
) -> (steps: Vec<RawStep>)
    ensures
        models(steps@) == two_steps(*q, *c, destructive, opt_text(destructive_reason)),
{
    let reason = dup_opt_text(&destructive_reason);
    let steps = vec![
        raw_step(
            StepKind::AddConstraintNotValid,
            destructive,
            reason,
            one_target(q),
            alter_table_add_constraint_not_valid(q, c),
            TransactionConstraint::InTransaction,
        ),
        raw_step(
            StepKind::ValidateConstraint,
            destructive,
            destructive_reason,
            one_target(q),
            alter_table_validate_constraint(q, &c.qname.name),
            TransactionConstraint::InTransaction,
        ),
    ];
    assert(models(steps@) =~= two_steps(*q, *c, destructive, opt_text(destructive_reason)));
    steps
}

} // verus!
