//! Adding a `CHECK` to an existing table in two steps.
//!
//! Validating the constraint in one shot takes a lock and scans the table, so the
//! work is split:
//!
//! 1. `ALTER TABLE ... ADD CONSTRAINT ... NOT VALID`, which is cheap.
//! 2. `ALTER TABLE ... VALIDATE CONSTRAINT ...`, which is slow.
//!
//! Both run inside a transaction. Grouping joins neighbours that do, so the
//! two steps share a transaction group.

use crate::identifier::QualifiedName;
use crate::ir::catalog::Catalog;
use crate::ir::constraint::{Constraint, ConstraintKind};
use crate::model::models;
use crate::plan::policy::PlannerPolicy;
use crate::plan::raw_step::RawStep;
use crate::plan::rewrite::fk_not_valid_validate::{self, two_steps};
use crate::text::opt_text;
use vstd::prelude::*;

verus! {

/// Whether the constraint is added in two steps: the policy enables it, the
/// constraint is a `CHECK`, and the table exists already.
pub open spec fn applies(
    q: QualifiedName,
    c: Constraint,
    target: Catalog,
    policy: PlannerPolicy,
) -> bool {
    &&& policy.effective(policy.online.check_not_valid_then_validate)
    &&& c.kind is Check
    &&& target.has_table(q)
}

/// Whether the constraint is added in two steps.
pub fn should_rewrite(
    q: &QualifiedName,
    c: &Constraint,
    target: &Catalog,
    policy: &PlannerPolicy,
) -> (r: bool)
    ensures
        r == applies(*q, *c, *target, *policy),
{
    policy.check_not_valid_then_validate() && matches!(c.kind, ConstraintKind::Check { .. })
        && target.table_exists(q)
}

/// The two steps.
pub fn rewrite_steps(
    q: &QualifiedName,
    c: &Constraint,
    destructive: bool,
    destructive_reason: Option<String>,
) -> (steps: Vec<RawStep>)
    ensures
        models(steps@) == two_steps(*q, *c, destructive, opt_text(destructive_reason)),
{
    fk_not_valid_validate::rewrite_steps(q, c, destructive, destructive_reason)
}

} // verus!
