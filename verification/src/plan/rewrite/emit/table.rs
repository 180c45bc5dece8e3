//! Steps for tables.

use crate::diff::table_op::{TableOp, TableOpEntry};
use crate::identifier::QualifiedName;
use crate::ir::catalog::Catalog;
use crate::ir::constraint::Constraint;
use crate::ir::table::{Column, Table};
use crate::model::models;
use crate::plan::policy::PlannerPolicy;
use crate::plan::raw_step::{
    gated_step, one_target, push_all, push_gated, push_safe, safe_step, RawStep, StepKind,
    StepModel,
};
use crate::plan::rewrite::context::Ctx;
use crate::plan::rewrite::fk_not_valid_validate::two_steps;
use crate::plan::rewrite::set_not_null_check_pattern::pattern_steps;
use crate::plan::rewrite::sql::{
    add_column_sql, add_constraint_sql, alter_column_set_compression, alter_column_set_default,
    alter_column_set_generated, alter_column_set_identity, alter_column_set_nullable,
    alter_column_set_storage, alter_column_type, alter_column_type_sql, alter_table_add_column,
    alter_table_add_constraint, alter_table_drop_column, alter_table_drop_constraint,
    comment_on_column, comment_on_column_sql, comment_on_constraint, comment_on_constraint_sql,
    comment_on_table, comment_on_table_sql, create_table, create_table_sql, drop_column_sql,
    drop_constraint_sql, drop_table, drop_table_sql, set_compression_sql, set_default_sql,
    set_generated_sql, set_identity_sql, set_nullable_sql, set_storage_sql,
};
use crate::plan::rewrite::targets::destructive_reason;
use crate::plan::rewrite::{
    check_not_valid_validate, fk_not_valid_validate, set_not_null_check_pattern,
};
use crate::text::{as_deref, opt_text};
use vstd::prelude::*;

verus! {

/// Steps followed by a `SET STORAGE` step, where the column has a storage
/// strategy of its own. A column's definition leaves the strategy out: inline
/// `STORAGE` is not known to every supported server.
pub open spec fn with_storage(
    steps: Seq<StepModel>,
    q: QualifiedName,
    col: Column,
) -> Seq<StepModel> {
    match col.storage {
        Some(storage) => steps.push(
            safe_step(
                StepKind::SetColumnStorage,
                seq![q@],
                set_storage_sql(q, col.name, storage),
            ),
        ),
        None => steps,
    }
}

fn push_set_storage_if_needed(q: &QualifiedName, col: &Column, out: &mut Vec<RawStep>)
    ensures
        models(final(out)@) == with_storage(models(old(out)@), *q, *col),
{
    match col.storage {
        Some(storage) => {
            push_safe(
                out,
                StepKind::SetColumnStorage,
                one_target(q),
                alter_column_set_storage(q, &col.name, storage),
            );
        },
        None => {},
    }
}

/// One `SET STORAGE` step for each column with a storage strategy.
pub open spec fn storage_steps(q: QualifiedName, columns: Seq<Column>) -> Seq<StepModel>
    decreases columns.len(),
{
    if columns.len() == 0 {
        Seq::empty()
    } else {
        with_storage(storage_steps(q, columns.drop_last()), q, columns.last())
    }
}

fn push_storage(q: &QualifiedName, columns: &Vec<Column>, out: &mut Vec<RawStep>)
    ensures
        models(final(out)@) == models(old(out)@) + storage_steps(*q, columns@),
{
    let ghost before = models(out@);
    let mut i: usize = 0;
    assert(models(out@) =~= before + storage_steps(*q, columns@.take(0)));
    while i < columns.len()
        invariant
            i <= columns@.len(),
            models(out@) == before + storage_steps(*q, columns@.take(i as int)),
        decreases columns@.len() - i,
    {
        assert(columns@.take(i + 1).drop_last() =~= columns@.take(i as int));
        push_set_storage_if_needed(q, &columns[i], out);
        assert(models(out@) =~= before + storage_steps(*q, columns@.take(i + 1)));
        i = i + 1;
    }
    assert(columns@.take(columns@.len() as int) =~= columns@);
}

/// One step for each column that has a comment.
pub open spec fn column_comments(q: QualifiedName, columns: Seq<Column>) -> Seq<StepModel>
    decreases columns.len(),
{
    if columns.len() == 0 {
        Seq::empty()
    } else {
        let rest = column_comments(q, columns.drop_last());
        match columns.last().comment {
            Some(c) => rest.push(
                safe_step(
                    StepKind::SetColumnComment,
                    seq![q@],
                    comment_on_column_sql(q, columns.last().name, Some(c@)),
                ),
            ),
            None => rest,
        }
    }
}

fn push_column_comments(q: &QualifiedName, columns: &Vec<Column>, out: &mut Vec<RawStep>)
    ensures
        models(final(out)@) == models(old(out)@) + column_comments(*q, columns@),
{
    let ghost before = models(out@);
    let mut i: usize = 0;
    assert(models(out@) =~= before + column_comments(*q, columns@.take(0)));
    while i < columns.len()
        invariant
            i <= columns@.len(),
            models(out@) == before + column_comments(*q, columns@.take(i as int)),
        decreases columns@.len() - i,
    {
        assert(columns@.take(i + 1).drop_last() =~= columns@.take(i as int));
        let column = &columns[i];
        match &column.comment {
            Some(c) => {
                push_safe(
                    out,
                    StepKind::SetColumnComment,
                    one_target(q),
                    comment_on_column(q, &column.name, Some(c.as_str())),
                );
            },
            None => {},
        }
        assert(models(out@) =~= before + column_comments(*q, columns@.take(i + 1)));
        i = i + 1;
    }
    assert(columns@.take(columns@.len() as int) =~= columns@);
}

/// One step for each constraint that has a comment.
pub open spec fn constraint_comments(
    q: QualifiedName,
    constraints: Seq<Constraint>,
) -> Seq<StepModel>
    decreases constraints.len(),
{
    if constraints.len() == 0 {
        Seq::empty()
    } else {
        let rest = constraint_comments(q, constraints.drop_last());
        match constraints.last().comment {
            Some(c) => rest.push(
                safe_step(
                    StepKind::SetConstraintComment,
                    seq![q@],
                    comment_on_constraint_sql(q, constraints.last().qname.name, Some(c@)),
                ),
            ),
            None => rest,
        }
    }
}

fn push_constraint_comments(
    q: &QualifiedName,
    constraints: &Vec<Constraint>,
    out: &mut Vec<RawStep>,
)
    ensures
        models(final(out)@) == models(old(out)@) + constraint_comments(*q, constraints@),
{
    let ghost before = models(out@);
    let mut i: usize = 0;
    assert(models(out@) =~= before + constraint_comments(*q, constraints@.take(0)));
    while i < constraints.len()
        invariant
            i <= constraints@.len(),
            models(out@) == before + constraint_comments(*q, constraints@.take(i as int)),
        decreases constraints@.len() - i,
    {
        assert(constraints@.take(i + 1).drop_last() =~= constraints@.take(i as int));
        let constraint = &constraints[i];
        match &constraint.comment {
            Some(c) => {
                push_safe(
                    out,
                    StepKind::SetConstraintComment,
                    one_target(q),
                    comment_on_constraint(q, &constraint.qname.name, Some(c.as_str())),
                );
            },
            None => {},
        }
        assert(models(out@) =~= before + constraint_comments(*q, constraints@.take(i + 1)));
        i = i + 1;
    }
    assert(constraints@.take(constraints@.len() as int) =~= constraints@);
}

/// The steps that create a table: the table, its columns' storage, its
/// comment, its columns' comments, its constraints' comments.
#[verifier::opaque]
pub open spec fn create_steps(
    t: Table,
    destructive: bool,
    reason: Option<Seq<char>>,
) -> Seq<StepModel> {
    let a = seq![
        gated_step(
            StepKind::CreateTable,
            destructive,
            reason,
            seq![t.qname@],
            create_table_sql(t),
        ),
    ] + storage_steps(t.qname, t.columns@);
    let b = match t.comment {
        Some(c) => a.push(
            safe_step(
                StepKind::AlterTableSetComment,
                seq![t.qname@],
                comment_on_table_sql(t.qname, Some(c@)),
            ),
        ),
        None => a,
    };
    b + column_comments(t.qname, t.columns@) + constraint_comments(t.qname, t.constraints@)
}

/// Creates a table.
pub fn create(
    t: Table,
    destructive: bool,
    destructive_reason: Option<String>,
    out: &mut Vec<RawStep>,
)
    ensures
        models(final(out)@) == models(old(out)@) + create_steps(
            t,
            destructive,
            opt_text(destructive_reason),
        ),
{
    let ghost before = models(out@);
    push_gated(
        out,
        StepKind::CreateTable,
        destructive,
        destructive_reason,
        one_target(&t.qname),
        create_table(&t),
    );
    push_storage(&t.qname, &t.columns, out);
    match &t.comment {
        Some(c) => {
            push_safe(
                out,
                StepKind::AlterTableSetComment,
                one_target(&t.qname),
                comment_on_table(&t.qname, Some(c.as_str())),
            );
        },
        None => {},
    }
    push_column_comments(&t.qname, &t.columns, out);
    push_constraint_comments(&t.qname, &t.constraints, out);
    proof {
        reveal(create_steps);
    }
    assert(models(out@) =~= before + create_steps(t, destructive, opt_text(destructive_reason)));
}

/// The step that drops a table.
#[verifier::opaque]
pub open spec fn drop_steps(
    q: QualifiedName,
    destructive: bool,
    reason: Option<Seq<char>>,
) -> Seq<StepModel> {
    seq![gated_step(StepKind::DropTable, destructive, reason, seq![q@], drop_table_sql(q))]
}

/// Drops a table.
pub fn drop_(
    q: QualifiedName,
    destructive: bool,
    destructive_reason: Option<String>,
    out: &mut Vec<RawStep>,
)
    ensures
        models(final(out)@) == models(old(out)@) + drop_steps(
            q,
            destructive,
            opt_text(destructive_reason),
        ),
{
    let ghost before = models(out@);
    push_gated(
        out,
        StepKind::DropTable,
        destructive,
        destructive_reason,
        one_target(&q),
        drop_table(&q),
    );
    proof {
        reveal(drop_steps);
    }
    assert(models(out@) =~= before + drop_steps(q, destructive, opt_text(destructive_reason)));
}

/// The steps for one operation on a table.
///
/// `SET NOT NULL` goes through a `CHECK` where that pattern applies; a foreign
/// key or a `CHECK` is added in two steps where that applies. Making a column
/// nullable again is always one cheap step.
#[verifier::opaque]
pub open spec fn op_steps(
    q: QualifiedName,
    entry: TableOpEntry,
    target: Catalog,
    policy: PlannerPolicy,
) -> Seq<StepModel> {
    let reason = entry.destructiveness.reason_text();
    let destructive = reason is Some;
    let at = seq![q@];
    match entry.op {
        TableOp::AddColumn(c) => with_storage(
            seq![
                gated_step(StepKind::AddColumn, destructive, reason, at, add_column_sql(q, c)),
            ],
            q,
            c,
        ),
        TableOp::DropColumn { name, is_populated } => seq![
            gated_step(StepKind::DropColumn, destructive, reason, at, drop_column_sql(q, name)),
        ],
        TableOp::AlterColumnType { name, from, to, using } => seq![
            gated_step(
                StepKind::AlterColumnType,
                destructive,
                reason,
                at,
                alter_column_type_sql(q, name, to, using),
            ),
        ],
        TableOp::SetColumnNullable { name, nullable } => if !nullable
            && set_not_null_check_pattern::applies(q, name, target, policy) {
            pattern_steps(q, name, destructive, reason)
        } else {
            seq![
                gated_step(
                    StepKind::SetColumnNullable,
                    destructive,
                    reason,
                    at,
                    set_nullable_sql(q, name, nullable),
                ),
            ]
        },
        TableOp::SetColumnDefault { name, default } => seq![
            safe_step(StepKind::SetColumnDefault, at, set_default_sql(q, name, default)),
        ],
        TableOp::SetColumnIdentity { name, identity } => seq![
            gated_step(
                StepKind::SetColumnIdentity,
                destructive,
                reason,
                at,
                set_identity_sql(q, name, identity),
            ),
        ],
        TableOp::SetColumnGenerated { name, generated } => seq![
            gated_step(
                StepKind::SetColumnGenerated,
                destructive,
                reason,
                at,
                set_generated_sql(q, name, generated),
            ),
        ],
        TableOp::SetColumnComment { name, comment } => seq![
            safe_step(
                StepKind::SetColumnComment,
                at,
                comment_on_column_sql(q, name, opt_text(comment)),
            ),
        ],
        TableOp::SetColumnStorage { name, from, to } => seq![
            safe_step(StepKind::SetColumnStorage, at, set_storage_sql(q, name, to)),
        ],
        TableOp::SetColumnCompression { name, compression } => seq![
            safe_step(
                StepKind::SetColumnCompression,
                at,
                set_compression_sql(q, name, compression),
            ),
        ],
        TableOp::AddConstraint(c) => if fk_not_valid_validate::applies(q, c, target, policy)
            || check_not_valid_validate::applies(q, c, target, policy) {
            two_steps(q, c, destructive, reason)
        } else {
            seq![
                gated_step(
                    StepKind::AddConstraint,
                    destructive,
                    reason,
                    at,
                    add_constraint_sql(q, c),
                ),
            ]
        },
        TableOp::DropConstraint { name } => seq![
            gated_step(
                StepKind::DropConstraint,
                destructive,
                reason,
                at,
                drop_constraint_sql(q, name),
            ),
        ],
        TableOp::SetConstraintComment { name, comment } => seq![
            safe_step(
                StepKind::SetConstraintComment,
                at,
                comment_on_constraint_sql(q, name, opt_text(comment)),
            ),
        ],
        TableOp::SetTableComment { comment } => seq![
            safe_step(
                StepKind::AlterTableSetComment,
                at,
                comment_on_table_sql(q, opt_text(comment)),
            ),
        ],
    }
}

/// Emits the steps for one operation on a table.
pub fn op(q: &QualifiedName, entry: &TableOpEntry, ctx: &Ctx, out: &mut Vec<RawStep>)
    ensures
        models(final(out)@) == models(old(out)@) + op_steps(*q, *entry, *ctx.target, *ctx.policy),
{
    let ghost before = models(out@);
    let destructive = entry.destructiveness.requires_approval();
    let reason = destructive_reason(&entry.destructiveness);
    let at = one_target(q);
    match &entry.op {
        TableOp::AddColumn(c) => {
            push_gated(
                out,
                StepKind::AddColumn,
                destructive,
                reason,
                at,
                alter_table_add_column(q, c),
            );
            push_set_storage_if_needed(q, c, out);
        },
        TableOp::DropColumn { name, .. } => {
            push_gated(
                out,
                StepKind::DropColumn,
                destructive,
                reason,
                at,
                alter_table_drop_column(q, name),
            );
        },
        TableOp::AlterColumnType { name, to, using, .. } => {
            push_gated(
                out,
                StepKind::AlterColumnType,
                destructive,
                reason,
                at,
                alter_column_type(q, name, to, using),
            );
        },
        TableOp::SetColumnNullable { name, nullable } => {
            if !*nullable && set_not_null_check_pattern::should_rewrite(
                q,
                name,
                ctx.target,
                ctx.policy,
            ) {
                push_all(
                    out,
                    set_not_null_check_pattern::rewrite_steps(q, name, destructive, reason),
                );
            } else {
                push_gated(
                    out,
                    StepKind::SetColumnNullable,
                    destructive,
                    reason,
                    at,
                    alter_column_set_nullable(q, name, *nullable),
                );
            }
        },
        TableOp::SetColumnDefault { name, default } => {
            push_safe(
                out,
                StepKind::SetColumnDefault,
                at,
                alter_column_set_default(q, name, default),
            );
        },
        TableOp::SetColumnIdentity { name, identity } => {
            push_gated(
                out,
                StepKind::SetColumnIdentity,
                destructive,
                reason,
                at,
                alter_column_set_identity(q, name, *identity),
            );
        },
        TableOp::SetColumnGenerated { name, generated } => {
            push_gated(
                out,
                StepKind::SetColumnGenerated,
                destructive,
                reason,
                at,
                alter_column_set_generated(q, name, generated),
            );
        },
        TableOp::SetColumnComment { name, comment } => {
            push_safe(
                out,
                StepKind::SetColumnComment,
                at,
                comment_on_column(q, name, as_deref(comment)),
            );
        },
        TableOp::SetColumnStorage { name, to, .. } => {
            push_safe(
                out,
                StepKind::SetColumnStorage,
                at,
                alter_column_set_storage(q, name, *to),
            );
        },
        TableOp::SetColumnCompression { name, compression } => {
            push_safe(
                out,
                StepKind::SetColumnCompression,
                at,
                alter_column_set_compression(q, name, *compression),
            );
        },
        TableOp::AddConstraint(c) => {
            if fk_not_valid_validate::should_rewrite(q, c, ctx.target, ctx.policy) {
                push_all(out, fk_not_valid_validate::rewrite_steps(q, c, destructive, reason));
            } else if check_not_valid_validate::should_rewrite(q, c, ctx.target, ctx.policy) {
                push_all(out, check_not_valid_validate::rewrite_steps(q, c, destructive, reason));
            } else {
                push_gated(
                    out,
                    StepKind::AddConstraint,
                    destructive,
                    reason,
                    at,
                    alter_table_add_constraint(q, c),
                );
            }
        },
        TableOp::DropConstraint { name } => {
            push_gated(
                out,
                StepKind::DropConstraint,
                destructive,
                reason,
                at,
                alter_table_drop_constraint(q, name),
            );
        },
        TableOp::SetConstraintComment { name, comment } => {
            push_safe(
                out,
                StepKind::SetConstraintComment,
                at,
                comment_on_constraint(q, name, as_deref(comment)),
            );
        },
        TableOp::SetTableComment { comment } => {
            push_safe(
                out,
                StepKind::AlterTableSetComment,
                at,
                comment_on_table(q, as_deref(comment)),
            );
        },
    }
    proof {
        reveal(op_steps);
    }
    assert(models(out@) =~= before + op_steps(*q, *entry, *ctx.target, *ctx.policy));
}

/// The steps for a list of operations on a table, in order.
pub open spec fn alter_steps(
    q: QualifiedName,
    ops: Seq<TableOpEntry>,
    target: Catalog,
    policy: PlannerPolicy,
) -> Seq<StepModel>
    decreases ops.len(),
{
    if ops.len() == 0 {
        Seq::empty()
    } else {
        alter_steps(q, ops.drop_last(), target, policy) + op_steps(q, ops.last(), target, policy)
    }
}

/// Alters a table.
pub fn alter(q: QualifiedName, ops: Vec<TableOpEntry>, ctx: &Ctx, out: &mut Vec<RawStep>)
    ensures
        models(final(out)@) == models(old(out)@) + alter_steps(q, ops@, *ctx.target, *ctx.policy),
{
    let ghost before = models(out@);
    let ghost target = *ctx.target;
    let ghost policy = *ctx.policy;
    let mut i: usize = 0;
    assert(models(out@) =~= before + alter_steps(q, ops@.take(0), target, policy));
    while i < ops.len()
        invariant
            i <= ops@.len(),
            target == *ctx.target,
            policy == *ctx.policy,
            models(out@) == before + alter_steps(q, ops@.take(i as int), target, policy),
        decreases ops@.len() - i,
    {
        assert(ops@.take(i + 1).drop_last() =~= ops@.take(i as int));
        op(&q, &ops[i], ctx, out);
        assert(models(out@) =~= before + alter_steps(q, ops@.take(i + 1), target, policy));
        i = i + 1;
    }
    assert(ops@.take(ops@.len() as int) =~= ops@);
}

} // verus!
