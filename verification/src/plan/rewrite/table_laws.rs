//! What the statements that alter a table say.

use crate::diff::destructiveness::Destructiveness;
use crate::diff::table_op::{TableOp, TableOpEntry};
use crate::identifier::{name_sql, Identifier, QnameModel, QualifiedName};
use crate::ir::catalog::Catalog;
use crate::ir::column_type::{type_sql, ColumnType};
use crate::ir::constraint::Constraint;
use crate::ir::expr::{DefaultExpr, NormalizedExpr};
use crate::ir::table::{Column, Compression, Identity, StorageKind, Table};
use crate::plan::policy::{PlannerPolicy, Strategy};
use crate::plan::raw_step::{StepKind, StepModel};
use crate::plan::rewrite::emit::table::{
    alter_steps, column_comments, constraint_comments, create_steps, drop_steps, op_steps,
    storage_steps,
};
use crate::plan::rewrite::sql::{column_sql, constraint_sql, create_table_sql};
use crate::text::{doubled, SqlText};
use vstd::prelude::*;

verus! {

/// A step that is not numbered, with that kind, those targets and that
/// statement, inside the transaction.
pub open spec fn says(
    step: StepModel,
    kind: StepKind,
    targets: Seq<QnameModel>,
    sql: Seq<char>,
) -> bool {
    &&& step.kind == kind
    &&& step.targets == targets
    &&& step.sql == sql
    &&& step.step_no == 0
    &&& step.intent_id is None
    &&& step.transactional is InTransaction
}

/// The step needs no approval.
pub open spec fn needs_nothing(step: StepModel) -> bool {
    !step.destructive && step.destructive_reason is None
}

/// The step needs the approval that the change was marked with.
pub open spec fn needs(step: StepModel, d: Destructiveness) -> bool {
    match d {
        Destructiveness::Safe => needs_nothing(step),
        Destructiveness::RequiresApproval { reason } => step.destructive && step.destructive_reason
            == Some(reason@),
        Destructiveness::RequiresApprovalAndDataLossWarning { reason } => step.destructive
            && step.destructive_reason == Some(reason@),
    }
}

/// The steps of one operation on the table `q`.
pub open spec fn steps_for(
    q: QualifiedName,
    op: TableOp,
    d: Destructiveness,
    target: Catalog,
    policy: PlannerPolicy,
) -> Seq<StepModel> {
    op_steps(q, TableOpEntry { op, destructiveness: d }, target, policy)
}

/// Dropping a column names the table and the column, whether or not rows have a
/// value in it.
pub proof fn law_columns_are_dropped_by_name(
    q: QualifiedName,
    name: Identifier,
    is_populated: bool,
    d: Destructiveness,
    target: Catalog,
    policy: PlannerPolicy,
)
    ensures
        ({
            let steps = steps_for(q, TableOp::DropColumn { name, is_populated }, d, target, policy);
            let sql = "ALTER TABLE "@ + q@.sql() + " DROP COLUMN "@ + name_sql(name@) + ";"@;
            &&& steps.len() == 1
            &&& says(steps[0], StepKind::DropColumn, seq![q@], sql)
            &&& needs(steps[0], d)
        }),
{
    reveal(op_steps);
}

/// Changing the type of a column says the new type, and by which expression
/// values are converted where one is given. The old type has no part in it.
pub proof fn law_columns_take_their_new_type(
    q: QualifiedName,
    name: Identifier,
    from: ColumnType,
    to: ColumnType,
    using: Option<NormalizedExpr>,
    d: Destructiveness,
    target: Catalog,
    policy: PlannerPolicy,
)
    ensures
        ({
            let steps = steps_for(q, TableOp::AlterColumnType { name, from, to, using }, d, target, policy);
            let sql = match using {
                Some(e) => "ALTER TABLE "@ + q@.sql() + " ALTER COLUMN "@ + name_sql(name@)
                    + " TYPE "@ + type_sql(to) + " USING "@ + e@ + ";"@,
                None => "ALTER TABLE "@ + q@.sql() + " ALTER COLUMN "@ + name_sql(name@) + " TYPE "@
                    + type_sql(to) + ";"@,
            };
            &&& steps.len() == 1
            &&& says(steps[0], StepKind::AlterColumnType, seq![q@], sql)
            &&& needs(steps[0], d)
        }),
{
    reveal(op_steps);
}

/// A default is set where one is given, and dropped where none is.
pub proof fn law_defaults_are_set_or_dropped(
    q: QualifiedName,
    name: Identifier,
    default: Option<DefaultExpr>,
    d: Destructiveness,
    target: Catalog,
    policy: PlannerPolicy,
)
    ensures
        ({
            let steps = steps_for(q, TableOp::SetColumnDefault { name, default }, d, target, policy);
            let sql = match default {
                Some(e) => "ALTER TABLE "@ + q@.sql() + " ALTER COLUMN "@ + name_sql(name@)
                    + " SET DEFAULT "@ + e.sql() + ";"@,
                None => "ALTER TABLE "@ + q@.sql() + " ALTER COLUMN "@ + name_sql(name@)
                    + " DROP DEFAULT;"@,
            };
            &&& steps.len() == 1
            &&& says(steps[0], StepKind::SetColumnDefault, seq![q@], sql)
            &&& needs_nothing(steps[0])
        }),
{
    reveal(op_steps);
}

/// A column becomes an identity column of the given kind, or none.
pub proof fn law_identity_is_added_or_dropped(
    q: QualifiedName,
    name: Identifier,
    identity: Option<Identity>,
    d: Destructiveness,
    target: Catalog,
    policy: PlannerPolicy,
)
    ensures
        ({
            let steps = steps_for(q, TableOp::SetColumnIdentity { name, identity }, d, target, policy);
            let sql = match identity {
                Some(Identity::Always) => "ALTER TABLE "@ + q@.sql() + " ALTER COLUMN "@
                    + name_sql(name@) + " ADD "@ + "GENERATED ALWAYS AS IDENTITY"@ + ";"@,
                Some(Identity::ByDefault) => "ALTER TABLE "@ + q@.sql() + " ALTER COLUMN "@
                    + name_sql(name@) + " ADD "@ + "GENERATED BY DEFAULT AS IDENTITY"@ + ";"@,
                None => "ALTER TABLE "@ + q@.sql() + " ALTER COLUMN "@ + name_sql(name@)
                    + " DROP IDENTITY;"@,
            };
            &&& steps.len() == 1
            &&& says(steps[0], StepKind::SetColumnIdentity, seq![q@], sql)
            &&& needs(steps[0], d)
        }),
{
    reveal(op_steps);
}

/// A generated column gets the given expression, or none.
pub proof fn law_expressions_are_set_or_dropped(
    q: QualifiedName,
    name: Identifier,
    generated: Option<NormalizedExpr>,
    d: Destructiveness,
    target: Catalog,
    policy: PlannerPolicy,
)
    ensures
        ({
            let steps = steps_for(q, TableOp::SetColumnGenerated { name, generated }, d, target, policy);
            let sql = match generated {
                Some(e) => "ALTER TABLE "@ + q@.sql() + " ALTER COLUMN "@ + name_sql(name@)
                    + " SET EXPRESSION AS ("@ + e@ + ");"@,
                None => "ALTER TABLE "@ + q@.sql() + " ALTER COLUMN "@ + name_sql(name@)
                    + " DROP EXPRESSION;"@,
            };
            &&& steps.len() == 1
            &&& says(steps[0], StepKind::SetColumnGenerated, seq![q@], sql)
            &&& needs(steps[0], d)
        }),
{
    reveal(op_steps);
}

/// A comment on a column is set or cleared.
pub proof fn law_column_comments_are_set_or_cleared(
    q: QualifiedName,
    name: Identifier,
    comment: Option<String>,
    d: Destructiveness,
    target: Catalog,
    policy: PlannerPolicy,
)
    ensures
        ({
            let steps = steps_for(q, TableOp::SetColumnComment { name, comment }, d, target, policy);
            let sql = match comment {
                Some(text) => "COMMENT ON COLUMN "@ + q@.sql() + "."@ + name_sql(name@) + " IS '"@
                    + doubled(text@, '\'') + "';"@,
                None => "COMMENT ON COLUMN "@ + q@.sql() + "."@ + name_sql(name@) + " IS NULL;"@,
            };
            &&& steps.len() == 1
            &&& says(steps[0], StepKind::SetColumnComment, seq![q@], sql)
            &&& needs_nothing(steps[0])
        }),
{
    reveal(op_steps);
}

/// The storage of a column becomes the new one. The old one has no part in it.
pub proof fn law_columns_take_their_new_storage(
    q: QualifiedName,
    name: Identifier,
    from: Option<StorageKind>,
    to: StorageKind,
    d: Destructiveness,
    target: Catalog,
    policy: PlannerPolicy,
)
    ensures
        ({
            let steps = steps_for(q, TableOp::SetColumnStorage { name, from, to }, d, target, policy);
            let sql = match to {
                StorageKind::Plain => "ALTER TABLE "@ + q@.sql() + " ALTER COLUMN "@
                    + name_sql(name@) + " SET STORAGE "@ + "PLAIN"@ + ";"@,
                StorageKind::External => "ALTER TABLE "@ + q@.sql() + " ALTER COLUMN "@
                    + name_sql(name@) + " SET STORAGE "@ + "EXTERNAL"@ + ";"@,
                StorageKind::Extended => "ALTER TABLE "@ + q@.sql() + " ALTER COLUMN "@
                    + name_sql(name@) + " SET STORAGE "@ + "EXTENDED"@ + ";"@,
                StorageKind::Main => "ALTER TABLE "@ + q@.sql() + " ALTER COLUMN "@
                    + name_sql(name@) + " SET STORAGE "@ + "MAIN"@ + ";"@,
            };
            &&& steps.len() == 1
            &&& says(steps[0], StepKind::SetColumnStorage, seq![q@], sql)
            &&& needs_nothing(steps[0])
        }),
{
    reveal(op_steps);
}

/// The compression of a column becomes the given one, or the default.
pub proof fn law_columns_take_their_new_compression(
    q: QualifiedName,
    name: Identifier,
    compression: Option<Compression>,
    d: Destructiveness,
    target: Catalog,
    policy: PlannerPolicy,
)
    ensures
        ({
            let steps = steps_for(q, TableOp::SetColumnCompression { name, compression }, d, target, policy);
            let sql = match compression {
                Some(Compression::Pglz) => "ALTER TABLE "@ + q@.sql() + " ALTER COLUMN "@
                    + name_sql(name@) + " SET COMPRESSION "@ + "pglz"@ + ";"@,
                Some(Compression::Lz4) => "ALTER TABLE "@ + q@.sql() + " ALTER COLUMN "@
                    + name_sql(name@) + " SET COMPRESSION "@ + "lz4"@ + ";"@,
                None => "ALTER TABLE "@ + q@.sql() + " ALTER COLUMN "@ + name_sql(name@)
                    + " SET COMPRESSION DEFAULT;"@,
            };
            &&& steps.len() == 1
            &&& says(steps[0], StepKind::SetColumnCompression, seq![q@], sql)
            &&& needs_nothing(steps[0])
        }),
{
    reveal(op_steps);
}

/// Dropping a constraint names the table and the constraint.
pub proof fn law_constraints_are_dropped_by_name(
    q: QualifiedName,
    name: Identifier,
    d: Destructiveness,
    target: Catalog,
    policy: PlannerPolicy,
)
    ensures
        ({
            let steps = steps_for(q, TableOp::DropConstraint { name }, d, target, policy);
            let sql = "ALTER TABLE "@ + q@.sql() + " DROP CONSTRAINT "@ + name_sql(name@) + ";"@;
            &&& steps.len() == 1
            &&& says(steps[0], StepKind::DropConstraint, seq![q@], sql)
            &&& needs(steps[0], d)
        }),
{
    reveal(op_steps);
}

/// A comment on a constraint is set or cleared.
pub proof fn law_constraint_comments_are_set_or_cleared(
    q: QualifiedName,
    name: Identifier,
    comment: Option<String>,
    d: Destructiveness,
    target: Catalog,
    policy: PlannerPolicy,
)
    ensures
        ({
            let steps = steps_for(q, TableOp::SetConstraintComment { name, comment }, d, target, policy);
            let sql = match comment {
                Some(text) => "COMMENT ON CONSTRAINT "@ + name_sql(name@) + " ON "@ + q@.sql()
                    + " IS '"@ + doubled(text@, '\'') + "';"@,
                None => "COMMENT ON CONSTRAINT "@ + name_sql(name@) + " ON "@ + q@.sql()
                    + " IS NULL;"@,
            };
            &&& steps.len() == 1
            &&& says(steps[0], StepKind::SetConstraintComment, seq![q@], sql)
            &&& needs_nothing(steps[0])
        }),
{
    reveal(op_steps);
}

/// A comment on a table is set or cleared.
pub proof fn law_table_comments_are_set_or_cleared(
    q: QualifiedName,
    comment: Option<String>,
    d: Destructiveness,
    target: Catalog,
    policy: PlannerPolicy,
)
    ensures
        ({
            let steps = steps_for(q, TableOp::SetTableComment { comment }, d, target, policy);
            let sql = match comment {
                Some(text) => "COMMENT ON TABLE "@ + q@.sql() + " IS '"@ + doubled(text@, '\'')
                    + "';"@,
                None => "COMMENT ON TABLE "@ + q@.sql() + " IS NULL;"@,
            };
            &&& steps.len() == 1
            &&& says(steps[0], StepKind::AlterTableSetComment, seq![q@], sql)
            &&& needs_nothing(steps[0])
        }),
{
    reveal(op_steps);
}

/// Two changes of a column's type that differ in the old type alone give the
/// same steps.
pub proof fn law_old_types_make_no_difference(
    q: QualifiedName,
    name: Identifier,
    from: ColumnType,
    other: ColumnType,
    to: ColumnType,
    using: Option<NormalizedExpr>,
    d: Destructiveness,
    target: Catalog,
    policy: PlannerPolicy,
)
    ensures
        steps_for(q, TableOp::AlterColumnType { name, from, to, using }, d, target, policy)
            == steps_for(
            q,
            TableOp::AlterColumnType { name, from: other, to, using },
            d,
            target,
            policy,
        ),
{
    reveal(op_steps);
}

/// Texts between the same beginning and the same end differ where they do.
proof fn lemma_between(a: Seq<char>, x: Seq<char>, y: Seq<char>, b: Seq<char>)
    requires
        a + x + b == a + y + b,
    ensures
        x == y,
{
    let s = a + x + b;
    let t = a + y + b;
    assert(s.len() == t.len());
    assert forall|i: int| 0 <= i < x.len() implies x[i] == y[i] by {
        assert(s[a.len() + i] == x[i]);
        assert(t[a.len() + i] == y[i]);
    }
    assert(x =~= y);
}

/// Two changes of a column's type to types that are written differently give
/// different statements.
pub proof fn law_new_types_tell_statements_apart(
    q: QualifiedName,
    name: Identifier,
    from: ColumnType,
    to: ColumnType,
    other: ColumnType,
    using: Option<NormalizedExpr>,
    d: Destructiveness,
    target: Catalog,
    policy: PlannerPolicy,
)
    requires
        type_sql(to) != type_sql(other),
    ensures
        steps_for(q, TableOp::AlterColumnType { name, from, to, using }, d, target, policy)[0].sql
            != steps_for(
            q,
            TableOp::AlterColumnType { name, from, to: other, using },
            d,
            target,
            policy,
        )[0].sql,
{
    law_columns_take_their_new_type(q, name, from, to, using, d, target, policy);
    law_columns_take_their_new_type(q, name, from, other, using, d, target, policy);
    let head = "ALTER TABLE "@ + q@.sql() + " ALTER COLUMN "@ + name_sql(name@) + " TYPE "@;
    let tail = match using {
        Some(e) => " USING "@ + e@ + ";"@,
        None => ";"@,
    };
    let one = steps_for(q, TableOp::AlterColumnType { name, from, to, using }, d, target, policy)[0].sql;
    let two = steps_for(
        q,
        TableOp::AlterColumnType { name, from, to: other, using },
        d,
        target,
        policy,
    )[0].sql;
    assert(one =~= head + type_sql(to) + tail);
    assert(two =~= head + type_sql(other) + tail);
    if one == two {
        lemma_between(head, type_sql(to), type_sql(other), tail);
    }
}

/// Adding a column names the table and defines the column; where the column
/// has a storage of its own, a step that sets it follows.
pub proof fn law_columns_are_added_with_their_storage(
    q: QualifiedName,
    col: Column,
    from: Option<StorageKind>,
    d: Destructiveness,
    target: Catalog,
    policy: PlannerPolicy,
)
    ensures
        ({
            let steps = steps_for(q, TableOp::AddColumn(col), d, target, policy);
            &&& steps.len() == if col.storage is Some {
                2nat
            } else {
                1nat
            }
            &&& says(
                steps[0],
                StepKind::AddColumn,
                seq![q@],
                "ALTER TABLE "@ + q@.sql() + " ADD COLUMN "@ + column_sql(col) + ";"@,
            )
            &&& needs(steps[0], d)
            &&& col.storage matches Some(to) ==> steps[1] == steps_for(
                q,
                TableOp::SetColumnStorage { name: col.name, from, to },
                d,
                target,
                policy,
            )[0]
        }),
{
    reveal(op_steps);
}

/// The table is in the live catalog.
pub open spec fn is_live(target: Catalog, q: QualifiedName) -> bool {
    exists|i: int| 0 <= i < target.tables@.len() && (#[trigger] target.tables@[i]).qname@ == q@
}

/// The table and that column of it are in the live catalog.
pub open spec fn is_live_column(target: Catalog, q: QualifiedName, name: Identifier) -> bool {
    exists|i: int, j: int|
        0 <= i < target.tables@.len() && 0 <= j < target.tables@[i].columns@.len()
            && target.tables@[i].qname@ == q@ && (#[trigger] target.tables@[i].columns@[j]).name@
            == name@
}

/// A constraint is added in one statement, or, where it is a foreign key or a
/// check on a table that is live already and the policy asks for it, without
/// validation and then validated.
pub proof fn law_constraints_are_added_at_once_or_validated_later(
    q: QualifiedName,
    c: Constraint,
    d: Destructiveness,
    target: Catalog,
    policy: PlannerPolicy,
)
    ensures
        ({
            let steps = steps_for(q, TableOp::AddConstraint(c), d, target, policy);
            let later = policy.strategy == Strategy::Online && is_live(target, q) && ((c.kind
                is ForeignKey && policy.online.fk_not_valid_then_validate) || (c.kind is Check
                && policy.online.check_not_valid_then_validate));
            let head = "ALTER TABLE "@ + q@.sql();
            if later {
                &&& steps.len() == 2
                &&& says(
                    steps[0],
                    StepKind::AddConstraintNotValid,
                    seq![q@],
                    head + " ADD "@ + constraint_sql(c) + " NOT VALID;"@,
                )
                &&& says(
                    steps[1],
                    StepKind::ValidateConstraint,
                    seq![q@],
                    head + " VALIDATE CONSTRAINT "@ + name_sql(c.qname.name@) + ";"@,
                )
                &&& needs(steps[0], d)
                &&& needs(steps[1], d)
            } else {
                &&& steps.len() == 1
                &&& says(
                    steps[0],
                    StepKind::AddConstraint,
                    seq![q@],
                    head + " ADD "@ + constraint_sql(c) + ";"@,
                )
                &&& needs(steps[0], d)
            }
        }),
{
    reveal(op_steps);
    let has = target.has_table(q);
    if has {
        let i = choose|i: int| 0 <= i < target.tables@.len() && #[trigger] target.tables@[i].qname@ == q@;
        assert(target.tables@[i].qname@ == q@);
    }
    if is_live(target, q) {
        let i = choose|i: int|
            0 <= i < target.tables@.len() && (#[trigger] target.tables@[i]).qname@ == q@;
        assert(target.tables@[i].qname@ == q@);
    }
    assert(has == is_live(target, q));
}

/// A column becomes nullable, or not, in one statement; but where the column is
/// live and the policy asks for it, forbidding nulls is prepared by a check
/// that is validated before and dropped after.
pub proof fn law_nulls_are_forbidden_at_once_or_by_a_check(
    q: QualifiedName,
    name: Identifier,
    nullable: bool,
    d: Destructiveness,
    target: Catalog,
    policy: PlannerPolicy,
)
    ensures
        ({
            let steps = steps_for(
                q,
                TableOp::SetColumnNullable { name, nullable },
                d,
                target,
                policy,
            );
            let by_check = !nullable && policy.strategy == Strategy::Online
                && policy.online.not_null_via_check_pattern && is_live_column(target, q, name);
            let head = "ALTER TABLE "@ + q@.sql();
            let check = name_sql("__pgevolve_chk_"@ + name@);
            let column = head + " ALTER COLUMN "@ + name_sql(name@);
            &&& forall|i: int| 0 <= i < steps.len() ==> needs(#[trigger] steps[i], d)
            &&& if by_check {
                &&& steps.len() == 4
                &&& says(
                    steps[0],
                    StepKind::AddCheckForNotNull,
                    seq![q@],
                    head + " ADD CONSTRAINT "@ + check + " CHECK ("@ + name_sql(name@)
                        + " IS NOT NULL) NOT VALID;"@,
                )
                &&& says(
                    steps[1],
                    StepKind::ValidateConstraint,
                    seq![q@],
                    head + " VALIDATE CONSTRAINT "@ + check + ";"@,
                )
                &&& says(
                    steps[2],
                    StepKind::SetColumnNullable,
                    seq![q@],
                    column + " SET NOT NULL;"@,
                )
                &&& says(
                    steps[3],
                    StepKind::DropConstraint,
                    seq![q@],
                    head + " DROP CONSTRAINT "@ + check + ";"@,
                )
            } else {
                &&& steps.len() == 1
                &&& says(
                    steps[0],
                    StepKind::SetColumnNullable,
                    seq![q@],
                    if nullable {
                        column + " DROP NOT NULL;"@
                    } else {
                        column + " SET NOT NULL;"@
                    },
                )
            }
        }),
{
    reveal(op_steps);
    let has = crate::plan::rewrite::set_not_null_check_pattern::column_exists(target, q, name);
    if has {
        let i = choose|i: int|
            0 <= i < target.tables@.len() && #[trigger] target.tables@[i].qname@ == q@
                && crate::plan::rewrite::set_not_null_check_pattern::has_column(
                target.tables@[i],
                name,
            );
        let t = target.tables@[i];
        let j = choose|j: int| 0 <= j < t.columns@.len() && #[trigger] t.columns@[j].name@ == name@;
        assert(target.tables@[i].columns@[j].name@ == name@);
    }
    if is_live_column(target, q, name) {
        let (i, j) = choose|i: int, j: int|
            0 <= i < target.tables@.len() && 0 <= j < target.tables@[i].columns@.len()
                && target.tables@[i].qname@ == q@ && (
            #[trigger] target.tables@[i].columns@[j]).name@ == name@;
        assert(target.tables@[i].columns@[j].name@ == name@);
        assert(crate::plan::rewrite::set_not_null_check_pattern::has_column(
            target.tables@[i],
            name,
        ));
        assert(target.tables@[i].qname@ == q@);
    }
    assert(has == is_live_column(target, q, name));
}

/// Altering a table by two lists of operations is altering it by the one and
/// then by the other; a single operation gives its own steps, and none gives
/// no step.
pub proof fn law_operations_are_emitted_in_order(
    q: QualifiedName,
    first: Seq<TableOpEntry>,
    second: Seq<TableOpEntry>,
    one: TableOpEntry,
    target: Catalog,
    policy: PlannerPolicy,
)
    ensures
        alter_steps(q, first + second, target, policy) == alter_steps(q, first, target, policy)
            + alter_steps(q, second, target, policy),
        alter_steps(q, seq![one], target, policy) == op_steps(q, one, target, policy),
        alter_steps(q, Seq::empty(), target, policy).len() == 0,
    decreases second.len(),
{
    reveal_with_fuel(alter_steps, 3);
    assert(seq![one].drop_last() =~= Seq::empty());
    assert(alter_steps(q, seq![one], target, policy) =~= op_steps(q, one, target, policy));
    if second.len() == 0 {
        assert(first + second =~= first);
        assert(alter_steps(q, first, target, policy) + alter_steps(q, second, target, policy)
            =~= alter_steps(q, first, target, policy));
    } else {
        let rest = second.drop_last();
        law_operations_are_emitted_in_order(q, first, rest, one, target, policy);
        assert((first + second).drop_last() =~= first + rest);
        assert((first + second).last() == second.last());
        assert(alter_steps(q, first + second, target, policy) =~= alter_steps(
            q,
            first,
            target,
            policy,
        ) + alter_steps(q, second, target, policy));
    }
}

/// A table is dropped by its name.
pub proof fn law_tables_are_dropped_by_name(
    q: QualifiedName,
    destructive: bool,
    reason: Option<Seq<char>>,
)
    ensures
        ({
            let steps = drop_steps(q, destructive, reason);
            &&& steps.len() == 1
            &&& says(steps[0], StepKind::DropTable, seq![q@], "DROP TABLE "@ + q@.sql() + ";"@)
            &&& steps[0].destructive == destructive
            &&& steps[0].destructive_reason == reason
        }),
{
    reveal(drop_steps);
}

/// Some step sets the storage of that column.
pub open spec fn sets_storage(steps: Seq<StepModel>, q: QualifiedName, col: Column) -> bool {
    exists|k: int|
        0 <= k < steps.len() && (#[trigger] steps[k]).kind is SetColumnStorage && steps[k].sql
            == "ALTER TABLE "@ + q@.sql() + " ALTER COLUMN "@ + name_sql(col.name@)
            + " SET STORAGE "@ + (match col.storage {
            Some(StorageKind::Plain) => "PLAIN"@,
            Some(StorageKind::External) => "EXTERNAL"@,
            Some(StorageKind::Extended) => "EXTENDED"@,
            _ => "MAIN"@,
        }) + ";"@
}

/// Some step sets that text as the comment that the statement's head speaks of.
pub open spec fn comments(steps: Seq<StepModel>, kind: StepKind, head: Seq<char>, text: Seq<char>) -> bool {
    exists|k: int|
        0 <= k < steps.len() && (#[trigger] steps[k]).kind == kind && steps[k].sql == head
            + " IS '"@ + doubled(text, '\'') + "';"@
}

proof fn lemma_storage_set(q: QualifiedName, columns: Seq<Column>, j: int)
    requires
        0 <= j < columns.len(),
        columns[j].storage is Some,
    ensures
        sets_storage(storage_steps(q, columns), q, columns[j]),
    decreases columns.len(),
{
    let rest = columns.drop_last();
    let steps = storage_steps(q, columns);
    if j < rest.len() {
        lemma_storage_set(q, rest, j);
        let before = storage_steps(q, rest);
        let k = choose|k: int|
            0 <= k < before.len() && (#[trigger] before[k]).kind is SetColumnStorage && before[k].sql
                == "ALTER TABLE "@ + q@.sql() + " ALTER COLUMN "@ + name_sql(rest[j].name@)
                + " SET STORAGE "@ + (match rest[j].storage {
                Some(StorageKind::Plain) => "PLAIN"@,
                Some(StorageKind::External) => "EXTERNAL"@,
                Some(StorageKind::Extended) => "EXTENDED"@,
                _ => "MAIN"@,
            }) + ";"@;
        assert(steps[k] == before[k]);
    } else {
        assert(steps[steps.len() - 1].kind is SetColumnStorage);
    }
}

proof fn lemma_column_comment_set(q: QualifiedName, columns: Seq<Column>, j: int)
    requires
        0 <= j < columns.len(),
        columns[j].comment is Some,
    ensures
        comments(
            column_comments(q, columns),
            StepKind::SetColumnComment,
            "COMMENT ON COLUMN "@ + q@.sql() + "."@ + name_sql(columns[j].name@),
            columns[j].comment->Some_0@,
        ),
    decreases columns.len(),
{
    let rest = columns.drop_last();
    let steps = column_comments(q, columns);
    if j < rest.len() {
        lemma_column_comment_set(q, rest, j);
        let before = column_comments(q, rest);
        let head = "COMMENT ON COLUMN "@ + q@.sql() + "."@ + name_sql(rest[j].name@);
        let k = choose|k: int|
            0 <= k < before.len() && (#[trigger] before[k]).kind == StepKind::SetColumnComment
                && before[k].sql == head + " IS '"@ + doubled(rest[j].comment->Some_0@, '\'')
                + "';"@;
        assert(steps[k] == before[k]);
    } else {
        assert(steps[steps.len() - 1].kind is SetColumnComment);
    }
}

proof fn lemma_constraint_comment_set(q: QualifiedName, constraints: Seq<Constraint>, j: int)
    requires
        0 <= j < constraints.len(),
        constraints[j].comment is Some,
    ensures
        comments(
            constraint_comments(q, constraints),
            StepKind::SetConstraintComment,
            "COMMENT ON CONSTRAINT "@ + name_sql(constraints[j].qname.name@) + " ON "@ + q@.sql(),
            constraints[j].comment->Some_0@,
        ),
    decreases constraints.len(),
{
    let rest = constraints.drop_last();
    let steps = constraint_comments(q, constraints);
    if j < rest.len() {
        lemma_constraint_comment_set(q, rest, j);
        let before = constraint_comments(q, rest);
        let head = "COMMENT ON CONSTRAINT "@ + name_sql(rest[j].qname.name@) + " ON "@ + q@.sql();
        let k = choose|k: int|
            0 <= k < before.len() && (#[trigger] before[k]).kind == StepKind::SetConstraintComment
                && before[k].sql == head + " IS '"@ + doubled(rest[j].comment->Some_0@, '\'')
                + "';"@;
        assert(steps[k] == before[k]);
    } else {
        assert(steps[steps.len() - 1].kind is SetConstraintComment);
    }
}

/// Creating a table is its own statement first; then, somewhere behind it, each
/// storage and each comment that the definition gives is set.
pub proof fn law_created_tables_are_complete(
    t: Table,
    destructive: bool,
    reason: Option<Seq<char>>,
    j: int,
)
    ensures
        ({
            let steps = create_steps(t, destructive, reason);
            &&& steps.len() >= 1
            &&& says(steps[0], StepKind::CreateTable, seq![t.qname@], create_table_sql(t))
            &&& steps[0].destructive == destructive
            &&& steps[0].destructive_reason == reason
            &&& 0 <= j < t.columns@.len() && t.columns@[j].storage is Some ==> sets_storage(
                steps,
                t.qname,
                t.columns@[j],
            )
            &&& t.comment is Some ==> comments(
                steps,
                StepKind::AlterTableSetComment,
                "COMMENT ON TABLE "@ + t.qname@.sql(),
                t.comment->Some_0@,
            )
            &&& 0 <= j < t.columns@.len() && t.columns@[j].comment is Some ==> comments(
                steps,
                StepKind::SetColumnComment,
                "COMMENT ON COLUMN "@ + t.qname@.sql() + "."@ + name_sql(t.columns@[j].name@),
                t.columns@[j].comment->Some_0@,
            )
            &&& 0 <= j < t.constraints@.len() && t.constraints@[j].comment is Some ==> comments(
                steps,
                StepKind::SetConstraintComment,
                "COMMENT ON CONSTRAINT "@ + name_sql(t.constraints@[j].qname.name@) + " ON "@
                    + t.qname@.sql(),
                t.constraints@[j].comment->Some_0@,
            )
        }),
{
    reveal(create_steps);
    let q = t.qname;
    let steps = create_steps(t, destructive, reason);
    let stored = storage_steps(q, t.columns@);
    let columns = column_comments(q, t.columns@);
    let constraints = constraint_comments(q, t.constraints@);
    let n = 1 + stored.len() + if t.comment is Some {
        1int
    } else {
        0int
    };
    assert forall|k: int| 0 <= k < stored.len() implies steps[1 + k] == #[trigger] stored[k] by {}
    assert forall|k: int| 0 <= k < columns.len() implies steps[n + k] == #[trigger] columns[k] by {}
    assert forall|k: int| 0 <= k < constraints.len() implies steps[n + columns.len() + k]
        == #[trigger] constraints[k] by {}
    if t.comment is Some {
        assert(steps[n - 1].kind is AlterTableSetComment);
    }
    if 0 <= j < t.columns@.len() && t.columns@[j].storage is Some {
        lemma_storage_set(q, t.columns@, j);
        let col = t.columns@[j];
        let k = choose|k: int|
            0 <= k < stored.len() && (#[trigger] stored[k]).kind is SetColumnStorage && stored[k].sql
                == "ALTER TABLE "@ + q@.sql() + " ALTER COLUMN "@ + name_sql(col.name@)
                + " SET STORAGE "@ + (match col.storage {
                Some(StorageKind::Plain) => "PLAIN"@,
                Some(StorageKind::External) => "EXTERNAL"@,
                Some(StorageKind::Extended) => "EXTENDED"@,
                _ => "MAIN"@,
            }) + ";"@;
        assert(steps[1 + k] == stored[k]);
    }
    if 0 <= j < t.columns@.len() && t.columns@[j].comment is Some {
        lemma_column_comment_set(q, t.columns@, j);
        let head = "COMMENT ON COLUMN "@ + q@.sql() + "."@ + name_sql(t.columns@[j].name@);
        let k = choose|k: int|
            0 <= k < columns.len() && (#[trigger] columns[k]).kind == StepKind::SetColumnComment
                && columns[k].sql == head + " IS '"@ + doubled(
                t.columns@[j].comment->Some_0@,
                '\'',
            ) + "';"@;
        assert(steps[n + k] == columns[k]);
    }
    if 0 <= j < t.constraints@.len() && t.constraints@[j].comment is Some {
        lemma_constraint_comment_set(q, t.constraints@, j);
        let head = "COMMENT ON CONSTRAINT "@ + name_sql(t.constraints@[j].qname.name@) + " ON "@
            + q@.sql();
        let k = choose|k: int|
            0 <= k < constraints.len() && (#[trigger] constraints[k]).kind
                == StepKind::SetConstraintComment && constraints[k].sql == head + " IS '"@
                    + doubled(
                t.constraints@[j].comment->Some_0@,
                '\'',
            ) + "';"@;
        assert(steps[n + columns.len() + k] == constraints[k]);
    }
}

} // verus!
