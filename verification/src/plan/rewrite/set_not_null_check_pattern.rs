//! `SET NOT NULL` on a column of an existing table through a `CHECK`.
//!
//! `SET NOT NULL` scans the table under a heavy lock unless a validated
//! `CHECK (column IS NOT NULL)` shows that no null is there. The pattern is:
//!
//! 1. `ADD CONSTRAINT __pgevolve_chk_<column> CHECK (...) NOT VALID`
//! 2. `VALIDATE CONSTRAINT __pgevolve_chk_<column>`
//! 3. `ALTER COLUMN ... SET NOT NULL`
//! 4. `DROP CONSTRAINT __pgevolve_chk_<column>`

use crate::identifier::{name_sql, render_name, Identifier, QualifiedName};
use crate::ir::catalog::Catalog;
use crate::ir::table::Table;
use crate::model::models;
use crate::plan::policy::PlannerPolicy;
use crate::plan::raw_step::{
    gated_step, one_target, raw_step, RawStep, StepKind, StepModel, TransactionConstraint,
};
use crate::plan::rewrite::sql::{alter_column_set_nullable, set_nullable_sql};
use crate::text::{append_sql, dup_opt_text, opt_text, prefixed, ToSql};
use vstd::prelude::*;
use vstd::string::*;

verus! {

/// Whether a table has a column of that name.
pub open spec fn has_column(t: Table, column: Identifier) -> bool {
    exists|k: int| 0 <= k < t.columns@.len() && #[trigger] t.columns@[k].name@ == column@
}

/// Whether a catalog has a table of that name with a column of that name.
pub open spec fn column_exists(target: Catalog, q: QualifiedName, column: Identifier) -> bool {
    exists|i: int|
        0 <= i < target.tables@.len() && #[trigger] target.tables@[i].qname@ == q@ && has_column(
            target.tables@[i],
            column,
        )
}

fn find_column(t: &Table, column: &Identifier) -> (r: bool)
    ensures
        r == has_column(*t, *column),
{
    let mut k: usize = 0;
    while k < t.columns.len()
        invariant
            k <= t.columns@.len(),
            forall|j: int| 0 <= j < k ==> #[trigger] t.columns@[j].name@ != column@,
        decreases t.columns@.len() - k,
    {
        if t.columns[k].name.same(column) {
            assert(t.columns@[k as int].name@ == column@);
            return true;
        }
        k = k + 1;
    }
    false
}

/// Whether the pattern is used: the policy enables it, and the column exists
/// already.
pub open spec fn applies(
    q: QualifiedName,
    column: Identifier,
    target: Catalog,
    policy: PlannerPolicy,
) -> bool {
    &&& policy.effective(policy.online.not_null_via_check_pattern)
    &&& column_exists(target, q, column)
}

/// Whether the pattern is used.
pub fn should_rewrite(
    q: &QualifiedName,
    column: &Identifier,
    target: &Catalog,
    policy: &PlannerPolicy,
) -> (r: bool)
    ensures
        r == applies(*q, *column, *target, *policy),
{
    if !policy.not_null_via_check_pattern() {
        return false;
    }
    let mut i: usize = 0;
    while i < target.tables.len()
        invariant
            i <= target.tables@.len(),
            policy.effective(policy.online.not_null_via_check_pattern),
            forall|k: int|
                0 <= k < i ==> !(#[trigger] target.tables@[k].qname@ == q@ && has_column(
                    target.tables@[k],
                    *column,
                )),
        decreases target.tables@.len() - i,
    {
        if target.tables[i].qname.same(q) && find_column(&target.tables[i], column) {
            assert(target.tables@[i as int].qname@ == q@);
            return true;
        }
        i = i + 1;
    }
    false
}

/// The name of the constraint that the pattern adds and drops.
pub open spec fn check_name(column: Identifier) -> Seq<char> {
    "__pgevolve_chk_"@ + column@
}

/// Renders the constraint's name.
fn append_check_name(out: &mut String, column: &Identifier)
    ensures
        final(out)@ == old(out)@ + name_sql(check_name(*column)),
{
    let mut name = "__pgevolve_chk_".to_owned();
    name.append(column.as_str());
    let text = render_name(name.as_str());
    out.append(text.as_str());
}

/// The first statement.
pub open spec fn add_check_sql(q: QualifiedName, column: Identifier) -> Seq<char> {
    "ALTER TABLE "@ + q@.sql() + " ADD CONSTRAINT "@ + name_sql(check_name(column)) + " CHECK ("@
        + name_sql(column@) + " IS NOT NULL) NOT VALID;"@
}

/// The second statement.
pub open spec fn validate_check_sql(q: QualifiedName, column: Identifier) -> Seq<char> {
    "ALTER TABLE "@ + q@.sql() + " VALIDATE CONSTRAINT "@ + name_sql(check_name(column)) + ";"@
}

/// The last statement.
pub open spec fn drop_check_sql(q: QualifiedName, column: Identifier) -> Seq<char> {
    "ALTER TABLE "@ + q@.sql() + " DROP CONSTRAINT "@ + name_sql(check_name(column)) + ";"@
}

fn add_check(q: &QualifiedName, column: &Identifier) -> (sql: String)
    ensures
        sql@ == add_check_sql(*q, *column),
{
    let mut out = prefixed("ALTER TABLE ", q);
    out.append(" ADD CONSTRAINT ");
    append_check_name(&mut out, column);
    out.append(" CHECK (");
    append_sql(&mut out, column);
    out.append(" IS NOT NULL) NOT VALID;");
    out
}

fn validate_check(q: &QualifiedName, column: &Identifier) -> (sql: String)
    ensures
        sql@ == validate_check_sql(*q, *column),
{
    let mut out = prefixed("ALTER TABLE ", q);
    out.append(" VALIDATE CONSTRAINT ");
    append_check_name(&mut out, column);
    out.append(";");
    out
}

fn drop_check(q: &QualifiedName, column: &Identifier) -> (sql: String)
    ensures
        sql@ == drop_check_sql(*q, *column),
{
    let mut out = prefixed("ALTER TABLE ", q);
    out.append(" DROP CONSTRAINT ");
    append_check_name(&mut out, column);
    out.append(";");
    out
}

/// The steps of the pattern.
pub open spec fn pattern_steps(
    q: QualifiedName,
    column: Identifier,
    destructive: bool,
    reason: Option<Seq<char>>,
) -> Seq<StepModel> {
    seq![
        gated_step(
            StepKind::AddCheckForNotNull,
            destructive,
            reason,
            seq![q@],
            add_check_sql(q, column),
        ),
        gated_step(
            StepKind::ValidateConstraint,
            destructive,
            reason,
            seq![q@],
            validate_check_sql(q, column),
        ),
        gated_step(
            StepKind::SetColumnNullable,
            destructive,
            reason,
            seq![q@],
            set_nullable_sql(q, column, false),
        ),
        gated_step(
            StepKind::DropConstraint,
            destructive,
            reason,
            seq![q@],
            drop_check_sql(q, column),
        ),
    ]
}

/// The steps of the pattern.
pub fn rewrite_steps(
    q: &QualifiedName,
    column: &Identifier,
    destructive: bool,
    destructive_reason: Option<String>,
) -> (steps: Vec<RawStep>)
    ensures
        models(steps@) == pattern_steps(*q, *column, destructive, opt_text(destructive_reason)),
{
    let first = dup_opt_text(&destructive_reason);
    let second = dup_opt_text(&destructive_reason);
    let third = dup_opt_text(&destructive_reason);
    let steps = vec![
        raw_step(
            StepKind::AddCheckForNotNull,
            destructive,
            first,
            one_target(q),
            add_check(q, column),
            TransactionConstraint::InTransaction,
        ),
        raw_step(
            StepKind::ValidateConstraint,
            destructive,
            second,
            one_target(q),
            validate_check(q, column),
            TransactionConstraint::InTransaction,
        ),
        raw_step(
            StepKind::SetColumnNullable,
            destructive,
            third,
            one_target(q),
            alter_column_set_nullable(q, column, false),
            TransactionConstraint::InTransaction,
        ),
        raw_step(
            StepKind::DropConstraint,
            destructive,
            destructive_reason,
            one_target(q),
            drop_check(q, column),
            TransactionConstraint::InTransaction,
        ),
    ];
    assert(models(steps@) =~= pattern_steps(
        *q,
        *column,
        destructive,
        opt_text(destructive_reason),
    ));
    steps
}

} // verus!
