//! What the steps of each change say, and to which object.

use crate::diff::change::{
    AggregateChange, CastChange, Change, ChangeEntry, CollationChange, EventTriggerChange,
    ExtensionChange, FunctionChange, GrantDirection, MvChange, ProcedureChange, PublicationChange,
    StatisticChange, SubscriptionChange, TableChange, TriggerChange, TsConfigurationChange,
    TsDictionaryChange, UserTypeChange, ViewChange,
};
use crate::diff::destructiveness::Destructiveness;
use crate::diff::owner_op::{GrantableObject, OwnerOp};
use crate::diff::sequence_op::{SequenceOp, SequenceOpEntry};
use crate::diff::table_op::TableOpEntry;
use crate::identifier::{name_sql, Identifier, QnameModel, QualifiedName};
use crate::ir::catalog::Catalog;
use crate::ir::collation::Collation;
use crate::ir::column_type::{type_sql, ColumnType};
use crate::ir::default_privileges::DefaultPrivObjectType;
use crate::ir::expr::DefaultExpr;
use crate::ir::extension::Extension;
use crate::ir::function::{Function, NormalizedArgTypes, Procedure};
use crate::ir::grant::{Grant, GrantTarget};
use crate::ir::index::{Index, IndexParent};
use crate::ir::partition::PartitionBounds;
use crate::ir::policy::Policy;
use crate::ir::reloptions::{
    IndexStorageOptions, MaterializedViewStorageOptions, TableStorageOptions,
};
use crate::ir::replication::{Publication, PublishedTable, Subscription};
use crate::ir::routine_objects::{Aggregate, Cast};
use crate::ir::schema::Schema;
use crate::ir::sequence::Sequence;
use crate::ir::statistic::Statistic;
use crate::ir::table::Table;
use crate::ir::text_search::{TsConfiguration, TsDictionary};
use crate::ir::trigger::{EventTrigger, EventTriggerEnabled, Trigger};
use crate::ir::user_type::{CompositeAttribute, DomainCheck, UserType};
use crate::ir::view::{MaterializedView, ViewColumn, ViewDefinition};
use crate::plan::ordered::{DeferredFkAdd, OrderedChangeSet};
use crate::plan::policy::{PlannerPolicy, Strategy};
use crate::plan::raw_step::{StepKind, StepModel};
use crate::plan::rewrite::collations::create_collation_sql;
use crate::plan::rewrite::functions::{create_function_sql, create_procedure_sql};
use crate::plan::rewrite::partitions::bounds_sql;
use crate::plan::rewrite::policies::{alter_policy_sql, create_policy_sql};
use crate::plan::rewrite::publications::create_publication_sql;
use crate::plan::rewrite::reloptions::{index_storage_sql, mv_storage_sql, table_storage_sql};
use crate::plan::rewrite::sql::{constraint_sql, create_index_sql, create_sequence_sql};
use crate::plan::rewrite::statistics::create_statistic_sql;
use crate::plan::rewrite::subscriptions::create_subscription_sql;
use crate::plan::rewrite::table_laws::{comments, is_live, needs, needs_nothing, says};
use crate::plan::rewrite::triggers::create_trigger_sql;
use crate::plan::rewrite::types::create_type_sql;
use crate::plan::rewrite::views::{create_mv_sql, create_view_sql};
use crate::plan::rewrite::extensions::create_extension_sql;
use crate::plan::rewrite::refresh_mv_concurrently::upgraded_all;
use crate::plan::rewrite::{all_steps, change_steps, emit, emitted, fk_steps};
use crate::plan::type_dependents::{cascade_text, type_dependents};
use crate::text::{decimal, doubled, joined, sqls, SqlText};
use vstd::prelude::*;

verus! {

/// The steps of a change that was marked `d`.
pub open spec fn emitted_for(
    change: Change,
    d: Destructiveness,
    target: Catalog,
    source: Catalog,
    policy: PlannerPolicy,
) -> Seq<StepModel> {
    change_steps(ChangeEntry { change, destructiveness: d }, target, source, policy)
}

/// A step that is not numbered, with that kind, those targets and that
/// statement, outside a transaction.
pub open spec fn says_outside(
    step: StepModel,
    kind: StepKind,
    targets: Seq<QnameModel>,
    sql: Seq<char>,
) -> bool {
    &&& step.kind == kind
    &&& step.targets == targets
    &&& step.sql == sql
    &&& step.step_no == 0
    &&& step.intent_id is None
    &&& step.transactional is OutsideTransaction
}

/// A schema is dropped by its name.
pub proof fn law_schemas_are_dropped_by_name(
    name: Identifier,
    d: Destructiveness,
    target: Catalog,
    source: Catalog,
    policy: PlannerPolicy,
)
    ensures
        ({
            let steps = emitted_for(Change::DropSchema(name), d, target, source, policy);
            &&& steps.len() == 1
            &&& says(
                steps[0],
                StepKind::DropSchema,
                seq![QnameModel { schema: name@, name: name@ }],
                "DROP SCHEMA "@ + name_sql(name@) + ";"@,
            )
            &&& needs(steps[0], d)
        }),
{
    reveal(emit::schema::drop_steps);
}

/// A comment on a schema is set or cleared.
pub proof fn law_schema_comments_are_set_or_cleared(
    name: Identifier,
    comment: Option<String>,
    d: Destructiveness,
    target: Catalog,
    source: Catalog,
    policy: PlannerPolicy,
)
    ensures
        ({
            let steps = emitted_for(
                Change::AlterSchema { name, comment },
                d,
                target,
                source,
                policy,
            );
            &&& steps.len() == 1
            &&& says(
                steps[0],
                StepKind::AlterSchemaComment,
                seq![QnameModel { schema: name@, name: name@ }],
                match comment {
                Some(text) => "COMMENT ON SCHEMA "@ + name_sql(name@) + " IS '"@
                    + doubled(text@, '\'') + "';"@,
                None => "COMMENT ON SCHEMA "@ + name_sql(name@) + " IS NULL;"@,
            },
            )
            &&& needs_nothing(steps[0])
        }),
{
    reveal(emit::schema::alter_steps);
}

/// A sequence is dropped by its name.
pub proof fn law_sequences_are_dropped_by_name(
    q: QualifiedName,
    d: Destructiveness,
    target: Catalog,
    source: Catalog,
    policy: PlannerPolicy,
)
    ensures
        ({
            let steps = emitted_for(Change::DropSequence(q), d, target, source, policy);
            &&& steps.len() == 1
            &&& says(
                steps[0],
                StepKind::DropSequence,
                seq![q@],
                "DROP SEQUENCE "@ + q@.sql() + ";"@,
            )
            &&& needs(steps[0], d)
        }),
{
    reveal(emit::sequence::drop_steps);
}

/// A constraint that is not valid yet is validated by the names of its table
/// and its own.
pub proof fn law_constraints_are_validated_by_name(
    q: QualifiedName,
    name: Identifier,
    d: Destructiveness,
    target: Catalog,
    source: Catalog,
    policy: PlannerPolicy,
)
    ensures
        ({
            let steps = emitted_for(
                Change::ValidateConstraint { table: q, constraint: name },
                d,
                target,
                source,
                policy,
            );
            &&& steps.len() == 1
            &&& says(
                steps[0],
                StepKind::ValidateConstraint,
                seq![q@],
                "ALTER TABLE "@ + q@.sql() + " VALIDATE CONSTRAINT "@ + name_sql(name@) + ";"@,
            )
            &&& needs_nothing(steps[0])
        }),
{
    reveal(emit::constraint::validate_steps);
}

/// A view is dropped by its name.
pub proof fn law_views_are_dropped_by_name(
    q: QualifiedName,
    d: Destructiveness,
    target: Catalog,
    source: Catalog,
    policy: PlannerPolicy,
)
    ensures
        ({
            let steps = emitted_for(Change::View(ViewChange::Drop(q)), d, target, source, policy);
            &&& steps.len() == 1
            &&& says(
                steps[0],
                StepKind::DropView,
                seq![q@],
                "DROP VIEW "@ + q@.sql() + ";"@,
            )
            &&& needs(steps[0], d)
        }),
{
    reveal(emit::view::view_steps);
}

/// A comment on a view is set or cleared.
pub proof fn law_view_comments_are_set_or_cleared(
    q: QualifiedName,
    comment: Option<String>,
    d: Destructiveness,
    target: Catalog,
    source: Catalog,
    policy: PlannerPolicy,
)
    ensures
        ({
            let steps = emitted_for(
                Change::View(ViewChange::SetComment { qname: q, comment }),
                d,
                target,
                source,
                policy,
            );
            &&& steps.len() == 1
            &&& says(
                steps[0],
                StepKind::CommentOnView,
                seq![q@],
                match comment {
                Some(text) => "COMMENT ON VIEW "@ + q@.sql() + " IS '"@ + doubled(text@, '\'')
                    + "';"@,
                None => "COMMENT ON VIEW "@ + q@.sql() + " IS NULL;"@,
            },
            )
            &&& needs_nothing(steps[0])
        }),
{
    reveal(emit::view::view_steps);
}

/// A comment on a column of a view is set or cleared.
pub proof fn law_view_column_comments_are_set_or_cleared(
    q: QualifiedName,
    name: Identifier,
    comment: Option<String>,
    d: Destructiveness,
    target: Catalog,
    source: Catalog,
    policy: PlannerPolicy,
)
    ensures
        ({
            let steps = emitted_for(
                Change::View(ViewChange::SetColumnComment { qname: q, column: name, comment }),
                d,
                target,
                source,
                policy,
            );
            &&& steps.len() == 1
            &&& says(
                steps[0],
                StepKind::CommentOnView,
                seq![q@],
                match comment {
                Some(text) => "COMMENT ON COLUMN "@ + q@.sql() + "."@ + name_sql(name@) + " IS '"@
                    + doubled(text@, '\'') + "';"@,
                None => "COMMENT ON COLUMN "@ + q@.sql() + "."@ + name_sql(name@) + " IS NULL;"@,
            },
            )
            &&& needs_nothing(steps[0])
        }),
{
    reveal(emit::view::view_steps);
}

/// A view whose new body is compatible is replaced in place by the new body.
pub proof fn law_compatible_views_are_replaced_in_place(
    new: ViewDefinition,
    old: ViewDefinition,
    d: Destructiveness,
    target: Catalog,
    source: Catalog,
    policy: PlannerPolicy,
)
    ensures
        ({
            let steps = emitted_for(
                Change::View(ViewChange::ReplaceBody { source: new, catalog: old, compatible: true }),
                d,
                target,
                source,
                policy,
            );
            &&& steps.len() == 1
            &&& says(
                steps[0],
                StepKind::CreateView,
                seq![new.qname@],
                create_view_sql(new, true),
            )
            &&& needs_nothing(steps[0])
        }),
{
    reveal(emit::view::view_steps);
}

/// A view whose new body is not compatible is dropped under its old name and
/// created with its new body.
pub proof fn law_incompatible_views_are_dropped_and_created(
    new: ViewDefinition,
    old: ViewDefinition,
    d: Destructiveness,
    target: Catalog,
    source: Catalog,
    policy: PlannerPolicy,
)
    ensures
        ({
            let steps = emitted_for(
                Change::View(ViewChange::ReplaceBody { source: new, catalog: old, compatible: false }),
                d,
                target,
                source,
                policy,
            );
            &&& steps.len() == 2
            &&& says(
                steps[0],
                StepKind::DropView,
                seq![new.qname@],
                "DROP VIEW "@ + old.qname@.sql() + ";"@,
            )
            &&& needs(steps[0], d)
            &&& says(
                steps[1],
                StepKind::CreateView,
                seq![new.qname@],
                create_view_sql(new, false),
            )
            &&& needs_nothing(steps[1])
        }),
{
    reveal(emit::view::view_steps);
}

/// A materialized view is dropped by its name. Its rows can be computed again,
/// so that needs no approval.
pub proof fn law_materialized_views_are_dropped_by_name(
    q: QualifiedName,
    d: Destructiveness,
    target: Catalog,
    source: Catalog,
    policy: PlannerPolicy,
)
    ensures
        ({
            let steps = emitted_for(Change::Mv(MvChange::Drop(q)), d, target, source, policy);
            &&& steps.len() == 1
            &&& says(
                steps[0],
                StepKind::DropMaterializedView,
                seq![q@],
                "DROP MATERIALIZED VIEW "@ + q@.sql() + ";"@,
            )
            &&& needs_nothing(steps[0])
        }),
{
    reveal(emit::mv::mv_steps);
}

/// A materialized view whose body changes is dropped under its old name,
/// created with its new body, and refreshed.
pub proof fn law_materialized_views_are_replaced_by_drop_create_and_refresh(
    new: MaterializedView,
    old: MaterializedView,
    d: Destructiveness,
    target: Catalog,
    source: Catalog,
    policy: PlannerPolicy,
)
    ensures
        ({
            let steps = emitted_for(
                Change::Mv(MvChange::ReplaceBody { source: new, catalog: old }),
                d,
                target,
                source,
                policy,
            );
            &&& steps.len() == 3
            &&& says(
                steps[0],
                StepKind::DropMaterializedView,
                seq![new.qname@],
                "DROP MATERIALIZED VIEW "@ + old.qname@.sql() + ";"@,
            )
            &&& needs_nothing(steps[0])
            &&& says(
                steps[1],
                StepKind::CreateMaterializedView,
                seq![new.qname@],
                create_mv_sql(new),
            )
            &&& needs_nothing(steps[1])
            &&& says(
                steps[2],
                StepKind::RefreshMaterializedView,
                seq![new.qname@],
                "REFRESH MATERIALIZED VIEW "@ + new.qname@.sql() + ";"@,
            )
            &&& needs_nothing(steps[2])
        }),
{
    reveal(emit::mv::mv_steps);
}

/// A comment on a materialized view is set or cleared.
pub proof fn law_materialized_view_comments_are_set_or_cleared(
    q: QualifiedName,
    comment: Option<String>,
    d: Destructiveness,
    target: Catalog,
    source: Catalog,
    policy: PlannerPolicy,
)
    ensures
        ({
            let steps = emitted_for(
                Change::Mv(MvChange::SetComment { qname: q, comment }),
                d,
                target,
                source,
                policy,
            );
            &&& steps.len() == 1
            &&& says(
                steps[0],
                StepKind::CommentOnView,
                seq![q@],
                match comment {
                Some(text) => "COMMENT ON MATERIALIZED VIEW "@ + q@.sql() + " IS '"@
                    + doubled(text@, '\'') + "';"@,
                None => "COMMENT ON MATERIALIZED VIEW "@ + q@.sql() + " IS NULL;"@,
            },
            )
            &&& needs_nothing(steps[0])
        }),
{
    reveal(emit::mv::mv_steps);
}

/// A comment on a column of a materialized view is set or cleared.
pub proof fn law_materialized_view_column_comments_are_set_or_cleared(
    q: QualifiedName,
    name: Identifier,
    comment: Option<String>,
    d: Destructiveness,
    target: Catalog,
    source: Catalog,
    policy: PlannerPolicy,
)
    ensures
        ({
            let steps = emitted_for(
                Change::Mv(MvChange::SetColumnComment { qname: q, column: name, comment }),
                d,
                target,
                source,
                policy,
            );
            &&& steps.len() == 1
            &&& says(
                steps[0],
                StepKind::CommentOnView,
                seq![q@],
                match comment {
                Some(text) => "COMMENT ON COLUMN "@ + q@.sql() + "."@ + name_sql(name@) + " IS '"@
                    + doubled(text@, '\'') + "';"@,
                None => "COMMENT ON COLUMN "@ + q@.sql() + "."@ + name_sql(name@) + " IS NULL;"@,
            },
            )
            &&& needs_nothing(steps[0])
        }),
{
    reveal(emit::mv::mv_steps);
}

/// A type is dropped by its name.
pub proof fn law_types_are_dropped_by_name(
    q: QualifiedName,
    d: Destructiveness,
    target: Catalog,
    source: Catalog,
    policy: PlannerPolicy,
)
    ensures
        ({
            let steps = emitted_for(
                Change::UserType(UserTypeChange::Drop(q)),
                d,
                target,
                source,
                policy,
            );
            &&& steps.len() == 1
            &&& says(
                steps[0],
                StepKind::DropType,
                seq![q@],
                "DROP TYPE "@ + q@.sql() + ";"@,
            )
            &&& needs(steps[0], d)
        }),
{
    reveal(emit::user_type::user_type_steps);
}

/// A value of an enum is renamed from its old name to its new one.
pub proof fn law_enum_values_are_renamed_from_old_to_new(
    q: QualifiedName,
    from: String,
    to: String,
    d: Destructiveness,
    target: Catalog,
    source: Catalog,
    policy: PlannerPolicy,
)
    ensures
        ({
            let steps = emitted_for(
                Change::UserType(UserTypeChange::EnumRenameValue { qname: q, from, to }),
                d,
                target,
                source,
                policy,
            );
            &&& steps.len() == 1
            &&& says(
                steps[0],
                StepKind::AlterTypeRenameValue,
                seq![q@],
                "ALTER TYPE "@ + q@.sql() + " RENAME VALUE '"@ + doubled(from@, '\'') + "' TO '"@
                    + doubled(to@, '\'') + "';"@,
            )
            &&& needs_nothing(steps[0])
        }),
{
    reveal(emit::user_type::user_type_steps);
}

/// A value of an enum is added before the value it shall precede, else after
/// the one it shall follow, else at the end.
pub proof fn law_enum_values_are_added_at_their_place(
    q: QualifiedName,
    value: String,
    before: Option<String>,
    after: Option<String>,
    d: Destructiveness,
    target: Catalog,
    source: Catalog,
    policy: PlannerPolicy,
)
    ensures
        ({
            let steps = emitted_for(
                Change::UserType(UserTypeChange::EnumAddValue { qname: q, value, before, after }),
                d,
                target,
                source,
                policy,
            );
            &&& steps.len() == 1
            &&& says(
                steps[0],
                StepKind::AlterTypeAddValue,
                seq![q@],
                match (before, after) {
                (Some(x), _) => "ALTER TYPE "@ + q@.sql() + " ADD VALUE '"@ + doubled(value@, '\'')
                    + "'"@ + " BEFORE '"@ + doubled(x@, '\'') + "'"@ + ";"@,
                (None, Some(x)) => "ALTER TYPE "@ + q@.sql() + " ADD VALUE '"@
                    + doubled(value@, '\'') + "'"@ + " AFTER '"@ + doubled(x@, '\'') + "'"@ + ";"@,
                (None, None) => "ALTER TYPE "@ + q@.sql() + " ADD VALUE '"@ + doubled(value@, '\'')
                    + "'"@ + ";"@,
            },
            )
            &&& needs_nothing(steps[0])
        }),
{
    reveal(emit::user_type::user_type_steps);
}

/// A check of a domain is dropped by its name.
pub proof fn law_domain_checks_are_dropped_by_name(
    q: QualifiedName,
    name: Identifier,
    d: Destructiveness,
    target: Catalog,
    source: Catalog,
    policy: PlannerPolicy,
)
    ensures
        ({
            let steps = emitted_for(
                Change::UserType(UserTypeChange::DomainDropCheck { qname: q, name }),
                d,
                target,
                source,
                policy,
            );
            &&& steps.len() == 1
            &&& says(
                steps[0],
                StepKind::AlterDomainDropConstraint,
                seq![q@],
                "ALTER DOMAIN "@ + q@.sql() + " DROP CONSTRAINT "@ + name_sql(name@) + ";"@,
            )
            &&& needs(steps[0], d)
        }),
{
    reveal(emit::user_type::user_type_steps);
}

/// A check is added to a domain, under its name and with its condition.
pub proof fn law_domain_checks_are_added(
    q: QualifiedName,
    check: DomainCheck,
    d: Destructiveness,
    target: Catalog,
    source: Catalog,
    policy: PlannerPolicy,
)
    ensures
        ({
            let steps = emitted_for(
                Change::UserType(UserTypeChange::DomainAddCheck { qname: q, constraint: check }),
                d,
                target,
                source,
                policy,
            );
            &&& steps.len() == 1
            &&& says(
                steps[0],
                StepKind::AlterDomainAddConstraint,
                seq![q@],
                "ALTER DOMAIN "@ + q@.sql() + " ADD "@ + ("CONSTRAINT "@ + name_sql(check.name@)
                    + " CHECK ("@ + check.expression@ + ")"@) + ";"@,
            )
            &&& needs_nothing(steps[0])
        }),
{
    reveal(emit::user_type::user_type_steps);
}

/// The default of a domain is set where one is given, and dropped where none
/// is.
pub proof fn law_domain_defaults_are_set_or_dropped(
    q: QualifiedName,
    default: Option<DefaultExpr>,
    d: Destructiveness,
    target: Catalog,
    source: Catalog,
    policy: PlannerPolicy,
)
    ensures
        ({
            let steps = emitted_for(
                Change::UserType(UserTypeChange::DomainSetDefault { qname: q, default }),
                d,
                target,
                source,
                policy,
            );
            &&& steps.len() == 1
            &&& says(
                steps[0],
                StepKind::AlterDomainSetDefault,
                seq![q@],
                match default {
                Some(e) => "ALTER DOMAIN "@ + q@.sql() + " SET DEFAULT "@ + e.sql() + ";"@,
                None => "ALTER DOMAIN "@ + q@.sql() + " DROP DEFAULT;"@,
            },
            )
            &&& needs_nothing(steps[0])
        }),
{
    reveal(emit::user_type::user_type_steps);
}

/// A domain forbids nulls exactly where it shall.
pub proof fn law_domains_forbid_or_allow_nulls(
    q: QualifiedName,
    not_null: bool,
    d: Destructiveness,
    target: Catalog,
    source: Catalog,
    policy: PlannerPolicy,
)
    ensures
        ({
            let steps = emitted_for(
                Change::UserType(UserTypeChange::DomainSetNotNull { qname: q, not_null }),
                d,
                target,
                source,
                policy,
            );
            &&& steps.len() == 1
            &&& says(
                steps[0],
                StepKind::AlterDomainSetNotNull,
                seq![q@],
                if not_null {
                "ALTER DOMAIN "@ + q@.sql() + " SET NOT NULL;"@
            } else {
                "ALTER DOMAIN "@ + q@.sql() + " DROP NOT NULL;"@
            },
            )
            &&& needs_nothing(steps[0])
        }),
{
    reveal(emit::user_type::user_type_steps);
}

/// An attribute of a composite type is dropped by its name.
pub proof fn law_attributes_are_dropped_by_name(
    q: QualifiedName,
    name: Identifier,
    d: Destructiveness,
    target: Catalog,
    source: Catalog,
    policy: PlannerPolicy,
)
    ensures
        ({
            let steps = emitted_for(
                Change::UserType(UserTypeChange::CompositeDropAttribute { qname: q, name }),
                d,
                target,
                source,
                policy,
            );
            &&& steps.len() == 1
            &&& says(
                steps[0],
                StepKind::AlterTypeDropAttribute,
                seq![q@],
                "ALTER TYPE "@ + q@.sql() + " DROP ATTRIBUTE "@ + name_sql(name@) + ";"@,
            )
            &&& needs(steps[0], d)
        }),
{
    reveal(emit::user_type::user_type_steps);
}

/// An attribute of a composite type takes its new type.
pub proof fn law_attributes_take_their_new_type(
    q: QualifiedName,
    name: Identifier,
    new_type: ColumnType,
    d: Destructiveness,
    target: Catalog,
    source: Catalog,
    policy: PlannerPolicy,
)
    ensures
        ({
            let steps = emitted_for(
                Change::UserType(UserTypeChange::CompositeAlterAttributeType { qname: q, attribute: name, new_type }),
                d,
                target,
                source,
                policy,
            );
            &&& steps.len() == 1
            &&& says(
                steps[0],
                StepKind::AlterTypeAlterAttributeType,
                seq![q@],
                "ALTER TYPE "@ + q@.sql() + " ALTER ATTRIBUTE "@ + name_sql(name@) + " TYPE "@
                    + type_sql(new_type) + ";"@,
            )
            &&& needs(steps[0], d)
        }),
{
    reveal(emit::user_type::user_type_steps);
}

/// An attribute is added to a composite type.
pub proof fn law_attributes_are_added(
    q: QualifiedName,
    attribute: CompositeAttribute,
    d: Destructiveness,
    target: Catalog,
    source: Catalog,
    policy: PlannerPolicy,
)
    ensures
        ({
            let steps = emitted_for(
                Change::UserType(UserTypeChange::CompositeAddAttribute { qname: q, attribute }),
                d,
                target,
                source,
                policy,
            );
            &&& steps.len() == 1
            &&& says(
                steps[0],
                StepKind::AlterTypeAddAttribute,
                seq![q@],
                "ALTER TYPE "@ + q@.sql() + " ADD ATTRIBUTE "@ + attribute.sql() + ";"@,
            )
            &&& needs_nothing(steps[0])
        }),
{
    reveal(emit::user_type::user_type_steps);
}

/// A function is dropped by its name and its argument types.
pub proof fn law_functions_are_dropped_by_name_and_types(
    q: QualifiedName,
    args: NormalizedArgTypes,
    d: Destructiveness,
    target: Catalog,
    source: Catalog,
    policy: PlannerPolicy,
)
    ensures
        ({
            let steps = emitted_for(
                Change::Function(FunctionChange::Drop { qname: q, args }),
                d,
                target,
                source,
                policy,
            );
            &&& steps.len() == 1
            &&& says(
                steps[0],
                StepKind::DropFunction,
                seq![q@],
                "DROP FUNCTION "@ + q@.sql() + "("@ + joined(args@, ", "@) + ");"@,
            )
            &&& needs(steps[0], d)
        }),
{
    reveal(emit::function::function_steps);
}

/// A function is replaced in place by its new definition.
pub proof fn law_functions_are_replaced_in_place(
    f: Function,
    d: Destructiveness,
    target: Catalog,
    source: Catalog,
    policy: PlannerPolicy,
)
    ensures
        ({
            let steps = emitted_for(
                Change::Function(FunctionChange::CreateOrReplace(f)),
                d,
                target,
                source,
                policy,
            );
            &&& steps.len() == 1
            &&& says(
                steps[0],
                StepKind::CreateOrReplaceFunction,
                seq![f.qname@],
                create_function_sql(f),
            )
            &&& needs(steps[0], d)
        }),
{
    reveal(emit::function::function_steps);
}

/// A function that cannot be replaced in place is dropped under its old name
/// and types and created as the new one; both steps need the approval.
pub proof fn law_functions_are_replaced_by_drop_and_create(
    new: Function,
    old: Function,
    d: Destructiveness,
    target: Catalog,
    source: Catalog,
    policy: PlannerPolicy,
)
    ensures
        ({
            let steps = emitted_for(
                Change::Function(FunctionChange::ReplaceWithCascade { source: new, catalog: old }),
                d,
                target,
                source,
                policy,
            );
            &&& steps.len() == 2
            &&& says(
                steps[0],
                StepKind::DropFunction,
                seq![old.qname@],
                "DROP FUNCTION "@ + old.qname@.sql() + "("@
                    + joined(old.arg_types_normalized@, ", "@) + ");"@,
            )
            &&& needs(steps[0], d)
            &&& says(
                steps[1],
                StepKind::CreateOrReplaceFunction,
                seq![new.qname@],
                create_function_sql(new),
            )
            &&& needs(steps[1], d)
        }),
{
    reveal(emit::function::function_steps);
}

/// A comment on a function is set or cleared.
pub proof fn law_function_comments_are_set_or_cleared(
    q: QualifiedName,
    args: NormalizedArgTypes,
    comment: Option<String>,
    d: Destructiveness,
    target: Catalog,
    source: Catalog,
    policy: PlannerPolicy,
)
    ensures
        ({
            let steps = emitted_for(
                Change::Function(FunctionChange::SetComment { qname: q, args, comment }),
                d,
                target,
                source,
                policy,
            );
            &&& steps.len() == 1
            &&& says(
                steps[0],
                StepKind::CommentOnFunction,
                seq![q@],
                match comment {
                Some(text) => "COMMENT ON FUNCTION "@ + q@.sql() + "("@ + joined(args@, ", "@)
                    + ")"@ + " IS '"@ + doubled(text@, '\'') + "';"@,
                None => "COMMENT ON FUNCTION "@ + q@.sql() + "("@ + joined(args@, ", "@) + ")"@
                    + " IS NULL;"@,
            },
            )
            &&& needs_nothing(steps[0])
        }),
{
    reveal(emit::function::function_steps);
}

/// A procedure is dropped by its name.
pub proof fn law_procedures_are_dropped_by_name(
    q: QualifiedName,
    d: Destructiveness,
    target: Catalog,
    source: Catalog,
    policy: PlannerPolicy,
)
    ensures
        ({
            let steps = emitted_for(
                Change::Procedure(ProcedureChange::Drop(q)),
                d,
                target,
                source,
                policy,
            );
            &&& steps.len() == 1
            &&& says(
                steps[0],
                StepKind::DropProcedure,
                seq![q@],
                "DROP PROCEDURE "@ + q@.sql() + ";"@,
            )
            &&& needs(steps[0], d)
        }),
{
    reveal(emit::procedure::procedure_steps);
}

/// A comment on a procedure is set or cleared.
pub proof fn law_procedure_comments_are_set_or_cleared(
    q: QualifiedName,
    comment: Option<String>,
    d: Destructiveness,
    target: Catalog,
    source: Catalog,
    policy: PlannerPolicy,
)
    ensures
        ({
            let steps = emitted_for(
                Change::Procedure(ProcedureChange::SetComment { qname: q, comment }),
                d,
                target,
                source,
                policy,
            );
            &&& steps.len() == 1
            &&& says(
                steps[0],
                StepKind::CommentOnProcedure,
                seq![q@],
                match comment {
                Some(text) => "COMMENT ON PROCEDURE "@ + q@.sql() + " IS '"@ + doubled(text@, '\'')
                    + "';"@,
                None => "COMMENT ON PROCEDURE "@ + q@.sql() + " IS NULL;"@,
            },
            )
            &&& needs_nothing(steps[0])
        }),
{
    reveal(emit::procedure::procedure_steps);
}

/// An extension is dropped by its name, with everything that depends on it.
pub proof fn law_extensions_are_dropped_with_what_depends_on_them(
    name: Identifier,
    d: Destructiveness,
    target: Catalog,
    source: Catalog,
    policy: PlannerPolicy,
)
    ensures
        ({
            let steps = emitted_for(
                Change::Extension(ExtensionChange::Drop(name)),
                d,
                target,
                source,
                policy,
            );
            &&& steps.len() == 1
            &&& says(
                steps[0],
                StepKind::DropExtension,
                seq![QnameModel { schema: "pg_extension"@, name: name@ }],
                "DROP EXTENSION "@ + name_sql(name@) + " CASCADE;"@,
            )
            &&& needs(steps[0], d)
        }),
{
    reveal(emit::extension::extension_steps);
}

/// An extension is updated to the given version.
pub proof fn law_extensions_are_updated_to_their_version(
    name: Identifier,
    to_version: String,
    d: Destructiveness,
    target: Catalog,
    source: Catalog,
    policy: PlannerPolicy,
)
    ensures
        ({
            let steps = emitted_for(
                Change::Extension(ExtensionChange::AlterUpdate { name, to_version }),
                d,
                target,
                source,
                policy,
            );
            &&& steps.len() == 1
            &&& says(
                steps[0],
                StepKind::AlterExtensionUpdate,
                seq![QnameModel { schema: "pg_extension"@, name: name@ }],
                "ALTER EXTENSION "@ + name_sql(name@) + " UPDATE TO '"@ + doubled(to_version@, '\'')
                    + "';"@,
            )
            &&& needs_nothing(steps[0])
        }),
{
    reveal(emit::extension::extension_steps);
}

/// A comment on an extension is set or cleared.
pub proof fn law_extension_comments_are_set_or_cleared(
    name: Identifier,
    comment: Option<String>,
    d: Destructiveness,
    target: Catalog,
    source: Catalog,
    policy: PlannerPolicy,
)
    ensures
        ({
            let steps = emitted_for(
                Change::Extension(ExtensionChange::CommentOn { name, comment }),
                d,
                target,
                source,
                policy,
            );
            &&& steps.len() == 1
            &&& says(
                steps[0],
                StepKind::CommentOnExtension,
                seq![QnameModel { schema: "pg_extension"@, name: name@ }],
                match comment {
                Some(text) => "COMMENT ON EXTENSION "@ + name_sql(name@) + " IS '"@
                    + doubled(text@, '\'') + "';"@,
                None => "COMMENT ON EXTENSION "@ + name_sql(name@) + " IS NULL;"@,
            },
            )
            &&& needs_nothing(steps[0])
        }),
{
    reveal(emit::extension::extension_steps);
}

/// A trigger is dropped by its name and the table it is on.
pub proof fn law_triggers_are_dropped_from_their_table(
    q: QualifiedName,
    table: QualifiedName,
    d: Destructiveness,
    target: Catalog,
    source: Catalog,
    policy: PlannerPolicy,
)
    ensures
        ({
            let steps = emitted_for(
                Change::Trigger(TriggerChange::Drop { qname: q, table }),
                d,
                target,
                source,
                policy,
            );
            &&& steps.len() == 1
            &&& says(
                steps[0],
                StepKind::DropTrigger,
                seq![q@],
                "DROP TRIGGER "@ + name_sql(q.name@) + " ON "@ + table@.sql() + ";"@,
            )
            &&& needs(steps[0], d)
        }),
{
    reveal(emit::trigger::trigger_steps);
}

/// A comment on a trigger is set or cleared.
pub proof fn law_trigger_comments_are_set_or_cleared(
    q: QualifiedName,
    table: QualifiedName,
    comment: Option<String>,
    d: Destructiveness,
    target: Catalog,
    source: Catalog,
    policy: PlannerPolicy,
)
    ensures
        ({
            let steps = emitted_for(
                Change::Trigger(TriggerChange::CommentOn { qname: q, table, comment }),
                d,
                target,
                source,
                policy,
            );
            &&& steps.len() == 1
            &&& says(
                steps[0],
                StepKind::CommentOnTrigger,
                seq![q@],
                match comment {
                Some(text) => "COMMENT ON TRIGGER "@ + name_sql(q.name@) + " ON "@ + table@.sql()
                    + " IS '"@ + doubled(text@, '\'') + "';"@,
                None => "COMMENT ON TRIGGER "@ + name_sql(q.name@) + " ON "@ + table@.sql()
                    + " IS NULL;"@,
            },
            )
            &&& needs_nothing(steps[0])
        }),
{
    reveal(emit::trigger::trigger_steps);
}

/// A partition is attached to its parent, and is what the step is about.
pub proof fn law_partitions_are_attached_to_their_parent(
    parent: QualifiedName,
    child: QualifiedName,
    bounds: PartitionBounds,
    d: Destructiveness,
    target: Catalog,
    source: Catalog,
    policy: PlannerPolicy,
)
    ensures
        ({
            let steps = emitted_for(
                Change::Table(TableChange::AttachPartition { parent, child, bounds }),
                d,
                target,
                source,
                policy,
            );
            &&& steps.len() == 1
            &&& says(
                steps[0],
                StepKind::AttachPartition,
                seq![child@],
                "ALTER TABLE "@ + parent@.sql() + " ATTACH PARTITION "@ + child@.sql() + " "@
                    + bounds_sql(bounds) + ";"@,
            )
            &&& needs_nothing(steps[0])
        }),
{
    reveal(emit::partition::partition_steps);
}

/// A partition is detached from its parent, and is what the step is about.
pub proof fn law_partitions_are_detached_from_their_parent(
    parent: QualifiedName,
    child: QualifiedName,
    d: Destructiveness,
    target: Catalog,
    source: Catalog,
    policy: PlannerPolicy,
)
    ensures
        ({
            let steps = emitted_for(
                Change::Table(TableChange::DetachPartition { parent, child }),
                d,
                target,
                source,
                policy,
            );
            &&& steps.len() == 1
            &&& says(
                steps[0],
                StepKind::DetachPartition,
                seq![child@],
                "ALTER TABLE "@ + parent@.sql() + " DETACH PARTITION "@ + child@.sql() + ";"@,
            )
            &&& needs_nothing(steps[0])
        }),
{
    reveal(emit::partition::partition_steps);
}

/// An object gets its new owner. The old one has no part in it.
pub proof fn law_owners_are_set(
    op: OwnerOp,
    d: Destructiveness,
    target: Catalog,
    source: Catalog,
    policy: PlannerPolicy,
)
    ensures
        ({
            let steps = emitted_for(Change::AlterObjectOwner(op), d, target, source, policy);
            &&& steps.len() == 1
            &&& says(
                steps[0],
                StepKind::AlterObjectOwner,
                seq![op.object.target()],
                "ALTER "@ + op.object.keyword() + " "@ + op.object.target_sql() + " OWNER TO "@
                    + name_sql(op.to@) + ";"@,
            )
            &&& needs_nothing(steps[0])
        }),
{
    reveal(emit::access::owner_steps);
}

/// A privilege on an object is granted to the grantee, with the right to grant
/// it on exactly where that is given.
pub proof fn law_object_privileges_are_granted(
    object: GrantableObject,
    grant: Grant,
    d: Destructiveness,
    target: Catalog,
    source: Catalog,
    policy: PlannerPolicy,
)
    ensures
        ({
            let steps = emitted_for(
                Change::GrantObjectPrivilege { object, grant },
                d,
                target,
                source,
                policy,
            );
            &&& steps.len() == 1
            &&& says(
                steps[0],
                StepKind::GrantObjectPrivilege,
                seq![object.target()],
                if grant.with_grant_option {
                "GRANT "@ + grant.privilege.keyword() + " ON "@ + object.keyword() + " "@
                    + object.target_sql() + " TO "@ + (match grant.grantee {
                GrantTarget::Public => "PUBLIC"@,
                GrantTarget::Role(role) => name_sql(role@),
            }) + " WITH GRANT OPTION"@ + ";"@
            } else {
                "GRANT "@ + grant.privilege.keyword() + " ON "@ + object.keyword() + " "@
                    + object.target_sql() + " TO "@ + (match grant.grantee {
                GrantTarget::Public => "PUBLIC"@,
                GrantTarget::Role(role) => name_sql(role@),
            }) + ";"@
            },
            )
            &&& needs_nothing(steps[0])
        }),
{
    reveal(emit::access::grant_steps);
}

/// A privilege on an object is revoked from the grantee.
pub proof fn law_object_privileges_are_revoked(
    object: GrantableObject,
    grant: Grant,
    d: Destructiveness,
    target: Catalog,
    source: Catalog,
    policy: PlannerPolicy,
)
    ensures
        ({
            let steps = emitted_for(
                Change::RevokeObjectPrivilege { object, grant },
                d,
                target,
                source,
                policy,
            );
            &&& steps.len() == 1
            &&& says(
                steps[0],
                StepKind::RevokeObjectPrivilege,
                seq![object.target()],
                "REVOKE "@ + grant.privilege.keyword() + " ON "@ + object.keyword() + " "@
                    + object.target_sql() + " FROM "@ + (match grant.grantee {
                GrantTarget::Public => "PUBLIC"@,
                GrantTarget::Role(role) => name_sql(role@),
            }) + ";"@,
            )
            &&& needs_nothing(steps[0])
        }),
{
    reveal(emit::access::revoke_steps);
}

/// Row security of a table is switched on exactly where it shall be.
pub proof fn law_row_security_is_switched(
    q: QualifiedName,
    on: bool,
    d: Destructiveness,
    target: Catalog,
    source: Catalog,
    policy: PlannerPolicy,
)
    ensures
        ({
            let steps = emitted_for(
                Change::SetTableRowSecurity { qname: q, security: on },
                d,
                target,
                source,
                policy,
            );
            &&& steps.len() == 1
            &&& says(
                steps[0],
                StepKind::SetTableRowSecurity,
                seq![q@],
                if on {
                "ALTER TABLE "@ + q@.sql() + " ENABLE ROW LEVEL SECURITY;"@
            } else {
                "ALTER TABLE "@ + q@.sql() + " DISABLE ROW LEVEL SECURITY;"@
            },
            )
            &&& needs_nothing(steps[0])
        }),
{
    reveal(emit::access::row_security_steps);
}

/// Row security of a table is forced on its owner exactly where it shall be.
pub proof fn law_row_security_is_forced(
    q: QualifiedName,
    on: bool,
    d: Destructiveness,
    target: Catalog,
    source: Catalog,
    policy: PlannerPolicy,
)
    ensures
        ({
            let steps = emitted_for(
                Change::SetTableForceRowSecurity { qname: q, force: on },
                d,
                target,
                source,
                policy,
            );
            &&& steps.len() == 1
            &&& says(
                steps[0],
                StepKind::SetTableForceRowSecurity,
                seq![q@],
                if on {
                "ALTER TABLE "@ + q@.sql() + " FORCE ROW LEVEL SECURITY;"@
            } else {
                "ALTER TABLE "@ + q@.sql() + " NO FORCE ROW LEVEL SECURITY;"@
            },
            )
            &&& needs_nothing(steps[0])
        }),
{
    reveal(emit::access::force_row_security_steps);
}

/// A policy is dropped by its name and its table.
pub proof fn law_policies_are_dropped_from_their_table(
    q: QualifiedName,
    name: Identifier,
    d: Destructiveness,
    target: Catalog,
    source: Catalog,
    policy: PlannerPolicy,
)
    ensures
        ({
            let steps = emitted_for(
                Change::DropPolicy { table: q, name },
                d,
                target,
                source,
                policy,
            );
            &&& steps.len() == 1
            &&& says(
                steps[0],
                StepKind::DropPolicy,
                seq![q@],
                "DROP POLICY "@ + name_sql(name@) + " ON "@ + q@.sql() + ";"@,
            )
            &&& needs_nothing(steps[0])
        }),
{
    reveal(emit::access::drop_policy_steps);
}

/// A policy is created on its table.
pub proof fn law_policies_are_created_on_their_table(
    q: QualifiedName,
    row_policy: Policy,
    d: Destructiveness,
    target: Catalog,
    source: Catalog,
    policy: PlannerPolicy,
)
    ensures
        ({
            let steps = emitted_for(
                Change::CreatePolicy { table: q, policy: row_policy },
                d,
                target,
                source,
                policy,
            );
            &&& steps.len() == 1
            &&& says(
                steps[0],
                StepKind::CreatePolicy,
                seq![q@],
                create_policy_sql(q, row_policy),
            )
            &&& needs_nothing(steps[0])
        }),
{
    reveal(emit::access::create_policy_steps);
}

/// A policy is altered on its table.
pub proof fn law_policies_are_altered_on_their_table(
    q: QualifiedName,
    row_policy: Policy,
    d: Destructiveness,
    target: Catalog,
    source: Catalog,
    policy: PlannerPolicy,
)
    ensures
        ({
            let steps = emitted_for(
                Change::AlterPolicy { table: q, policy: row_policy },
                d,
                target,
                source,
                policy,
            );
            &&& steps.len() == 1
            &&& says(
                steps[0],
                StepKind::AlterPolicy,
                seq![q@],
                alter_policy_sql(q, row_policy),
            )
            &&& needs_nothing(steps[0])
        }),
{
    reveal(emit::access::alter_policy_steps);
}

/// The storage options of tables are set.
pub proof fn law_tables_take_their_storage_options(
    q: QualifiedName,
    options: TableStorageOptions,
    d: Destructiveness,
    target: Catalog,
    source: Catalog,
    policy: PlannerPolicy,
)
    ensures
        ({
            let steps = emitted_for(
                Change::SetTableStorage { qname: q, options },
                d,
                target,
                source,
                policy,
            );
            &&& steps.len() == 1
            &&& says(
                steps[0],
                StepKind::SetTableStorage,
                seq![q@],
                table_storage_sql(q, options),
            )
            &&& needs_nothing(steps[0])
        }),
{
    reveal(emit::storage::table_steps);
}

/// The storage options of indexes are set.
pub proof fn law_indexes_take_their_storage_options(
    q: QualifiedName,
    options: IndexStorageOptions,
    d: Destructiveness,
    target: Catalog,
    source: Catalog,
    policy: PlannerPolicy,
)
    ensures
        ({
            let steps = emitted_for(
                Change::SetIndexStorage { qname: q, options },
                d,
                target,
                source,
                policy,
            );
            &&& steps.len() == 1
            &&& says(
                steps[0],
                StepKind::SetIndexStorage,
                seq![q@],
                index_storage_sql(q, options),
            )
            &&& needs_nothing(steps[0])
        }),
{
    reveal(emit::storage::index_steps);
}

/// The storage options of materialized views are set.
pub proof fn law_materialized_views_take_their_storage_options(
    q: QualifiedName,
    options: MaterializedViewStorageOptions,
    d: Destructiveness,
    target: Catalog,
    source: Catalog,
    policy: PlannerPolicy,
)
    ensures
        ({
            let steps = emitted_for(
                Change::SetMaterializedViewStorage { qname: q, options },
                d,
                target,
                source,
                policy,
            );
            &&& steps.len() == 1
            &&& says(
                steps[0],
                StepKind::SetMaterializedViewStorage,
                seq![q@],
                mv_storage_sql(q, options),
            )
            &&& needs_nothing(steps[0])
        }),
{
    reveal(emit::storage::mv_steps);
}

/// A publication is dropped by its name.
pub proof fn law_publications_are_dropped_by_name(
    name: Identifier,
    d: Destructiveness,
    target: Catalog,
    source: Catalog,
    policy: PlannerPolicy,
)
    ensures
        ({
            let steps = emitted_for(
                Change::Publication(PublicationChange::Drop { name }),
                d,
                target,
                source,
                policy,
            );
            &&& steps.len() == 1
            &&& says(
                steps[0],
                StepKind::DropPublication,
                Seq::<QnameModel>::empty(),
                "DROP PUBLICATION "@ + name_sql(name@) + ";"@,
            )
            &&& needs(steps[0], d)
        }),
{
    reveal(emit::publication::publication_steps);
}

/// A publication is replaced in one step, which drops the old one and then
/// creates the new one.
pub proof fn law_publications_are_replaced_in_one_step(
    old: Publication,
    new: Publication,
    d: Destructiveness,
    target: Catalog,
    source: Catalog,
    policy: PlannerPolicy,
)
    ensures
        ({
            let steps = emitted_for(
                Change::Publication(PublicationChange::Replace { from: old, to: new }),
                d,
                target,
                source,
                policy,
            );
            &&& steps.len() == 1
            &&& says(
                steps[0],
                StepKind::ReplacePublication,
                Seq::<QnameModel>::empty(),
                ("DROP PUBLICATION "@ + name_sql(old.name@) + ";"@) + "\n"@
                    + create_publication_sql(new),
            )
            &&& needs(steps[0], d)
        }),
{
    reveal(emit::publication::publication_steps);
}

/// A table is added to a publication.
pub proof fn law_tables_are_added_to_publications(
    name: Identifier,
    table: PublishedTable,
    d: Destructiveness,
    target: Catalog,
    source: Catalog,
    policy: PlannerPolicy,
)
    ensures
        ({
            let steps = emitted_for(
                Change::Publication(PublicationChange::AddTable { publication: name, table }),
                d,
                target,
                source,
                policy,
            );
            &&& steps.len() == 1
            &&& says(
                steps[0],
                StepKind::AlterPublicationAddTable,
                seq![table.qname@],
                "ALTER PUBLICATION "@ + name_sql(name@) + " ADD TABLE "@ + table.sql() + ";"@,
            )
            &&& needs_nothing(steps[0])
        }),
{
    reveal(emit::publication::publication_steps);
}

/// A table is dropped from a publication.
pub proof fn law_tables_are_dropped_from_publications(
    name: Identifier,
    q: QualifiedName,
    d: Destructiveness,
    target: Catalog,
    source: Catalog,
    policy: PlannerPolicy,
)
    ensures
        ({
            let steps = emitted_for(
                Change::Publication(PublicationChange::DropTable { publication: name, qname: q }),
                d,
                target,
                source,
                policy,
            );
            &&& steps.len() == 1
            &&& says(
                steps[0],
                StepKind::AlterPublicationDropTable,
                seq![q@],
                "ALTER PUBLICATION "@ + name_sql(name@) + " DROP TABLE "@ + q@.sql() + ";"@,
            )
            &&& needs_nothing(steps[0])
        }),
{
    reveal(emit::publication::publication_steps);
}

/// A published table is reset by dropping it and adding it again, in one step.
pub proof fn law_tables_are_reset_in_publications(
    name: Identifier,
    table: PublishedTable,
    d: Destructiveness,
    target: Catalog,
    source: Catalog,
    policy: PlannerPolicy,
)
    ensures
        ({
            let steps = emitted_for(
                Change::Publication(PublicationChange::SetTable { publication: name, table }),
                d,
                target,
                source,
                policy,
            );
            &&& steps.len() == 1
            &&& says(
                steps[0],
                StepKind::AlterPublicationSetTable,
                seq![table.qname@],
                ("ALTER PUBLICATION "@ + name_sql(name@) + " DROP TABLE "@ + table.qname@.sql()
                    + ";"@) + "\n"@ + ("ALTER PUBLICATION "@ + name_sql(name@) + " ADD TABLE "@
                    + table.sql() + ";"@),
            )
            &&& needs_nothing(steps[0])
        }),
{
    reveal(emit::publication::publication_steps);
}

/// A schema is added to a publication.
pub proof fn law_schemas_are_added_to_publications(
    name: Identifier,
    schema: Identifier,
    d: Destructiveness,
    target: Catalog,
    source: Catalog,
    policy: PlannerPolicy,
)
    ensures
        ({
            let steps = emitted_for(
                Change::Publication(PublicationChange::AddSchema { publication: name, schema }),
                d,
                target,
                source,
                policy,
            );
            &&& steps.len() == 1
            &&& says(
                steps[0],
                StepKind::AlterPublicationAddSchema,
                Seq::<QnameModel>::empty(),
                "ALTER PUBLICATION "@ + name_sql(name@) + " ADD TABLES IN SCHEMA "@
                    + name_sql(schema@) + ";"@,
            )
            &&& needs_nothing(steps[0])
        }),
{
    reveal(emit::publication::publication_steps);
}

/// A schema is dropped from a publication.
pub proof fn law_schemas_are_dropped_from_publications(
    name: Identifier,
    schema: Identifier,
    d: Destructiveness,
    target: Catalog,
    source: Catalog,
    policy: PlannerPolicy,
)
    ensures
        ({
            let steps = emitted_for(
                Change::Publication(PublicationChange::DropSchema { publication: name, schema }),
                d,
                target,
                source,
                policy,
            );
            &&& steps.len() == 1
            &&& says(
                steps[0],
                StepKind::AlterPublicationDropSchema,
                Seq::<QnameModel>::empty(),
                "ALTER PUBLICATION "@ + name_sql(name@) + " DROP TABLES IN SCHEMA "@
                    + name_sql(schema@) + ";"@,
            )
            &&& needs_nothing(steps[0])
        }),
{
    reveal(emit::publication::publication_steps);
}

/// A publication publishes through the root of partitions exactly where it
/// shall.
pub proof fn law_publications_publish_through_the_root(
    name: Identifier,
    value: bool,
    d: Destructiveness,
    target: Catalog,
    source: Catalog,
    policy: PlannerPolicy,
)
    ensures
        ({
            let steps = emitted_for(
                Change::Publication(PublicationChange::SetViaRoot { publication: name, value }),
                d,
                target,
                source,
                policy,
            );
            &&& steps.len() == 1
            &&& says(
                steps[0],
                StepKind::AlterPublicationSetViaRoot,
                Seq::<QnameModel>::empty(),
                "ALTER PUBLICATION "@ + name_sql(name@) + " SET (publish_via_partition_root = "@
                    + (if value {
                "true"@
            } else {
                "false"@
            }) + ");"@,
            )
            &&& needs_nothing(steps[0])
        }),
{
    reveal(emit::publication::publication_steps);
}

/// A comment on a publication is set or cleared.
pub proof fn law_publication_comments_are_set_or_cleared(
    name: Identifier,
    comment: Option<String>,
    d: Destructiveness,
    target: Catalog,
    source: Catalog,
    policy: PlannerPolicy,
)
    ensures
        ({
            let steps = emitted_for(
                Change::Publication(PublicationChange::CommentOn { name, comment }),
                d,
                target,
                source,
                policy,
            );
            &&& steps.len() == 1
            &&& says(
                steps[0],
                StepKind::CommentOnPublication,
                Seq::<QnameModel>::empty(),
                match comment {
                Some(text) => "COMMENT ON PUBLICATION "@ + name_sql(name@) + " IS '"@
                    + doubled(text@, '\'') + "';"@,
                None => "COMMENT ON PUBLICATION "@ + name_sql(name@) + " IS NULL;"@,
            },
            )
            &&& needs_nothing(steps[0])
        }),
{
    reveal(emit::publication::publication_steps);
}

/// A subscription is dropped by its name, outside a transaction, since it may
/// have a slot.
pub proof fn law_subscriptions_are_dropped_outside_a_transaction(
    name: Identifier,
    d: Destructiveness,
    target: Catalog,
    source: Catalog,
    policy: PlannerPolicy,
)
    ensures
        ({
            let steps = emitted_for(
                Change::Subscription(SubscriptionChange::Drop { name }),
                d,
                target,
                source,
                policy,
            );
            &&& steps.len() == 1
            &&& says_outside(
                steps[0],
                StepKind::DropSubscription,
                Seq::<QnameModel>::empty(),
                "DROP SUBSCRIPTION "@ + name_sql(name@) + ";"@,
            )
            &&& needs(steps[0], d)
        }),
{
    reveal(emit::subscription::subscription_steps);
}

/// A subscription takes its new connection.
pub proof fn law_subscriptions_take_their_new_connection(
    name: Identifier,
    to: String,
    d: Destructiveness,
    target: Catalog,
    source: Catalog,
    policy: PlannerPolicy,
)
    ensures
        ({
            let steps = emitted_for(
                Change::Subscription(SubscriptionChange::AlterConnection { name, new_connection: to }),
                d,
                target,
                source,
                policy,
            );
            &&& steps.len() == 1
            &&& says(
                steps[0],
                StepKind::AlterSubscriptionConnection,
                Seq::<QnameModel>::empty(),
                "ALTER SUBSCRIPTION "@ + name_sql(name@) + " CONNECTION '"@ + doubled(to@, '\'')
                    + "';"@,
            )
            &&& needs_nothing(steps[0])
        }),
{
    reveal(emit::subscription::subscription_steps);
}

/// A subscription gains a publication.
pub proof fn law_subscriptions_gain_a_publication(
    name: Identifier,
    publication: Identifier,
    d: Destructiveness,
    target: Catalog,
    source: Catalog,
    policy: PlannerPolicy,
)
    ensures
        ({
            let steps = emitted_for(
                Change::Subscription(SubscriptionChange::AddPublication { name, publication }),
                d,
                target,
                source,
                policy,
            );
            &&& steps.len() == 1
            &&& says(
                steps[0],
                StepKind::AlterSubscriptionAddPublication,
                Seq::<QnameModel>::empty(),
                "ALTER SUBSCRIPTION "@ + name_sql(name@) + " ADD PUBLICATION "@
                    + name_sql(publication@) + ";"@,
            )
            &&& needs_nothing(steps[0])
        }),
{
    reveal(emit::subscription::subscription_steps);
}

/// A subscription loses a publication.
pub proof fn law_subscriptions_lose_a_publication(
    name: Identifier,
    publication: Identifier,
    d: Destructiveness,
    target: Catalog,
    source: Catalog,
    policy: PlannerPolicy,
)
    ensures
        ({
            let steps = emitted_for(
                Change::Subscription(SubscriptionChange::DropPublication { name, publication }),
                d,
                target,
                source,
                policy,
            );
            &&& steps.len() == 1
            &&& says(
                steps[0],
                StepKind::AlterSubscriptionDropPublication,
                Seq::<QnameModel>::empty(),
                "ALTER SUBSCRIPTION "@ + name_sql(name@) + " DROP PUBLICATION "@
                    + name_sql(publication@) + ";"@,
            )
            &&& needs_nothing(steps[0])
        }),
{
    reveal(emit::subscription::subscription_steps);
}

/// A comment on a subscription is set or cleared.
pub proof fn law_subscription_comments_are_set_or_cleared(
    name: Identifier,
    comment: Option<String>,
    d: Destructiveness,
    target: Catalog,
    source: Catalog,
    policy: PlannerPolicy,
)
    ensures
        ({
            let steps = emitted_for(
                Change::Subscription(SubscriptionChange::CommentOn { name, comment }),
                d,
                target,
                source,
                policy,
            );
            &&& steps.len() == 1
            &&& says(
                steps[0],
                StepKind::CommentOnSubscription,
                Seq::<QnameModel>::empty(),
                match comment {
                Some(text) => "COMMENT ON SUBSCRIPTION "@ + name_sql(name@) + " IS '"@
                    + doubled(text@, '\'') + "';"@,
                None => "COMMENT ON SUBSCRIPTION "@ + name_sql(name@) + " IS NULL;"@,
            },
            )
            &&& needs_nothing(steps[0])
        }),
{
    reveal(emit::subscription::subscription_steps);
}

/// A statistics object is dropped by its name.
pub proof fn law_statistics_are_dropped_by_name(
    q: QualifiedName,
    d: Destructiveness,
    target: Catalog,
    source: Catalog,
    policy: PlannerPolicy,
)
    ensures
        ({
            let steps = emitted_for(
                Change::Statistic(StatisticChange::Drop { qname: q }),
                d,
                target,
                source,
                policy,
            );
            &&& steps.len() == 1
            &&& says(
                steps[0],
                StepKind::DropStatistic,
                seq![q@],
                "DROP STATISTICS "@ + q@.sql() + ";"@,
            )
            &&& needs(steps[0], d)
        }),
{
    reveal(emit::statistic::statistic_steps);
}

/// A statistics object is replaced in one step, which drops the old one and
/// then creates the new one.
pub proof fn law_statistics_are_replaced_in_one_step(
    old: Statistic,
    new: Statistic,
    d: Destructiveness,
    target: Catalog,
    source: Catalog,
    policy: PlannerPolicy,
)
    ensures
        ({
            let steps = emitted_for(
                Change::Statistic(StatisticChange::Replace { from: old, to: new }),
                d,
                target,
                source,
                policy,
            );
            &&& steps.len() == 1
            &&& says(
                steps[0],
                StepKind::ReplaceStatistic,
                seq![new.qname@],
                ("DROP STATISTICS "@ + old.qname@.sql() + ";"@) + "\n"@ + create_statistic_sql(new),
            )
            &&& needs(steps[0], d)
        }),
{
    reveal(emit::statistic::statistic_steps);
}

/// A statistics object takes its target.
pub proof fn law_statistics_take_their_target(
    q: QualifiedName,
    value: i32,
    d: Destructiveness,
    target: Catalog,
    source: Catalog,
    policy: PlannerPolicy,
)
    ensures
        ({
            let steps = emitted_for(
                Change::Statistic(StatisticChange::AlterSetTarget { qname: q, value }),
                d,
                target,
                source,
                policy,
            );
            &&& steps.len() == 1
            &&& says(
                steps[0],
                StepKind::AlterStatisticSetTarget,
                seq![q@],
                "ALTER STATISTICS "@ + q@.sql() + " SET STATISTICS "@ + decimal(value as int)
                    + ";"@,
            )
            &&& needs_nothing(steps[0])
        }),
{
    reveal(emit::statistic::statistic_steps);
}

/// A comment on a statistics object is set or cleared.
pub proof fn law_statistic_comments_are_set_or_cleared(
    q: QualifiedName,
    comment: Option<String>,
    d: Destructiveness,
    target: Catalog,
    source: Catalog,
    policy: PlannerPolicy,
)
    ensures
        ({
            let steps = emitted_for(
                Change::Statistic(StatisticChange::CommentOn { qname: q, comment }),
                d,
                target,
                source,
                policy,
            );
            &&& steps.len() == 1
            &&& says(
                steps[0],
                StepKind::CommentOnStatistic,
                seq![q@],
                match comment {
                Some(text) => "COMMENT ON STATISTICS "@ + q@.sql() + " IS '"@ + doubled(text@, '\'')
                    + "';"@,
                None => "COMMENT ON STATISTICS "@ + q@.sql() + " IS NULL;"@,
            },
            )
            &&& needs_nothing(steps[0])
        }),
{
    reveal(emit::statistic::statistic_steps);
}

/// A collation is dropped by its name.
pub proof fn law_collations_are_dropped_by_name(
    q: QualifiedName,
    d: Destructiveness,
    target: Catalog,
    source: Catalog,
    policy: PlannerPolicy,
)
    ensures
        ({
            let steps = emitted_for(
                Change::Collation(CollationChange::Drop { qname: q }),
                d,
                target,
                source,
                policy,
            );
            &&& steps.len() == 1
            &&& says(
                steps[0],
                StepKind::DropCollation,
                seq![q@],
                "DROP COLLATION "@ + q@.sql() + ";"@,
            )
            &&& needs(steps[0], d)
        }),
{
    reveal(emit::collation::collation_steps);
}

/// A collation is renamed from its old name to its new one.
pub proof fn law_collations_are_renamed(
    q: QualifiedName,
    to: Identifier,
    d: Destructiveness,
    target: Catalog,
    source: Catalog,
    policy: PlannerPolicy,
)
    ensures
        ({
            let steps = emitted_for(
                Change::Collation(CollationChange::Rename { from: q, to }),
                d,
                target,
                source,
                policy,
            );
            &&& steps.len() == 1
            &&& says(
                steps[0],
                StepKind::RenameCollation,
                seq![q@],
                "ALTER COLLATION "@ + q@.sql() + " RENAME TO "@ + name_sql(to@) + ";"@,
            )
            &&& needs_nothing(steps[0])
        }),
{
    reveal(emit::collation::collation_steps);
}

/// A collation is replaced by dropping the old one, which needs the approval,
/// and creating the new one, which needs none.
pub proof fn law_collations_are_replaced_by_drop_and_create(
    old: Collation,
    new: Collation,
    d: Destructiveness,
    target: Catalog,
    source: Catalog,
    policy: PlannerPolicy,
)
    ensures
        ({
            let steps = emitted_for(
                Change::Collation(CollationChange::Replace { from: old, to: new }),
                d,
                target,
                source,
                policy,
            );
            &&& steps.len() == 2
            &&& says(
                steps[0],
                StepKind::DropCollation,
                seq![old.qname@],
                "DROP COLLATION "@ + old.qname@.sql() + ";"@,
            )
            &&& needs(steps[0], d)
            &&& says(
                steps[1],
                StepKind::CreateCollation,
                seq![new.qname@],
                create_collation_sql(new),
            )
            &&& needs_nothing(steps[1])
        }),
{
    reveal(emit::collation::collation_steps);
}

/// A comment on a collation is set or cleared.
pub proof fn law_collation_comments_are_set_or_cleared(
    q: QualifiedName,
    comment: Option<String>,
    d: Destructiveness,
    target: Catalog,
    source: Catalog,
    policy: PlannerPolicy,
)
    ensures
        ({
            let steps = emitted_for(
                Change::Collation(CollationChange::CommentOn { qname: q, comment }),
                d,
                target,
                source,
                policy,
            );
            &&& steps.len() == 1
            &&& says(
                steps[0],
                StepKind::CommentOnCollation,
                seq![q@],
                match comment {
                Some(text) => "COMMENT ON COLLATION "@ + q@.sql() + " IS '"@ + doubled(text@, '\'')
                    + "';"@,
                None => "COMMENT ON COLLATION "@ + q@.sql() + " IS NULL;"@,
            },
            )
            &&& needs_nothing(steps[0])
        }),
{
    reveal(emit::collation::collation_steps);
}

/// An event trigger is dropped by its name.
pub proof fn law_event_triggers_are_dropped_by_name(
    name: Identifier,
    d: Destructiveness,
    target: Catalog,
    source: Catalog,
    policy: PlannerPolicy,
)
    ensures
        ({
            let steps = emitted_for(
                Change::EventTrigger(EventTriggerChange::Drop { name }),
                d,
                target,
                source,
                policy,
            );
            &&& steps.len() == 1
            &&& says(
                steps[0],
                StepKind::DropEventTrigger,
                seq![QnameModel { schema: "pg_event_trigger"@, name: name@ }],
                "DROP EVENT TRIGGER "@ + name_sql(name@) + ";"@,
            )
            &&& needs(steps[0], d)
        }),
{
    reveal(emit::event_trigger::event_trigger_steps);
}

/// An event trigger gets its new owner.
pub proof fn law_event_triggers_take_their_owner(
    name: Identifier,
    owner: Identifier,
    d: Destructiveness,
    target: Catalog,
    source: Catalog,
    policy: PlannerPolicy,
)
    ensures
        ({
            let steps = emitted_for(
                Change::EventTrigger(EventTriggerChange::AlterOwner { name, owner }),
                d,
                target,
                source,
                policy,
            );
            &&& steps.len() == 1
            &&& says(
                steps[0],
                StepKind::AlterEventTriggerOwner,
                seq![QnameModel { schema: "pg_event_trigger"@, name: name@ }],
                "ALTER EVENT TRIGGER "@ + name_sql(name@) + " OWNER TO "@ + name_sql(owner@) + ";"@,
            )
            &&& needs_nothing(steps[0])
        }),
{
    reveal(emit::event_trigger::event_trigger_steps);
}

/// A comment on an event trigger is set or cleared.
pub proof fn law_event_trigger_comments_are_set_or_cleared(
    name: Identifier,
    comment: Option<String>,
    d: Destructiveness,
    target: Catalog,
    source: Catalog,
    policy: PlannerPolicy,
)
    ensures
        ({
            let steps = emitted_for(
                Change::EventTrigger(EventTriggerChange::CommentOn { name, comment }),
                d,
                target,
                source,
                policy,
            );
            &&& steps.len() == 1
            &&& says(
                steps[0],
                StepKind::CommentOnEventTrigger,
                seq![QnameModel { schema: "pg_event_trigger"@, name: name@ }],
                match comment {
                Some(text) => "COMMENT ON EVENT TRIGGER "@ + name_sql(name@) + " IS '"@
                    + doubled(text@, '\'') + "';"@,
                None => "COMMENT ON EVENT TRIGGER "@ + name_sql(name@) + " IS NULL;"@,
            },
            )
            &&& needs_nothing(steps[0])
        }),
{
    reveal(emit::event_trigger::event_trigger_steps);
}

/// A cast is dropped by the types it converts from and to, in that order.
pub proof fn law_casts_are_dropped_by_their_types(
    from: QualifiedName,
    to: QualifiedName,
    d: Destructiveness,
    target: Catalog,
    source: Catalog,
    policy: PlannerPolicy,
)
    ensures
        ({
            let steps = emitted_for(
                Change::Cast(CastChange::Drop { source: from, target: to }),
                d,
                target,
                source,
                policy,
            );
            &&& steps.len() == 1
            &&& says(
                steps[0],
                StepKind::DropCast,
                seq![from@, to@],
                "DROP CAST ("@ + from@.sql() + " AS "@ + to@.sql() + ");"@,
            )
            &&& needs(steps[0], d)
        }),
{
    reveal(emit::cast::cast_steps);
}

/// A comment on a cast is set or cleared.
pub proof fn law_cast_comments_are_set_or_cleared(
    from: QualifiedName,
    to: QualifiedName,
    comment: Option<String>,
    d: Destructiveness,
    target: Catalog,
    source: Catalog,
    policy: PlannerPolicy,
)
    ensures
        ({
            let steps = emitted_for(
                Change::Cast(CastChange::CommentOn { source: from, target: to, comment }),
                d,
                target,
                source,
                policy,
            );
            &&& steps.len() == 1
            &&& says(
                steps[0],
                StepKind::CommentOnCast,
                seq![from@, to@],
                match comment {
                Some(text) => "COMMENT ON CAST ("@ + from@.sql() + " AS "@ + to@.sql() + ")"@
                    + " IS '"@ + doubled(text@, '\'') + "';"@,
                None => "COMMENT ON CAST ("@ + from@.sql() + " AS "@ + to@.sql() + ")"@
                    + " IS NULL;"@,
            },
            )
            &&& needs_nothing(steps[0])
        }),
{
    reveal(emit::cast::cast_steps);
}

/// A text search dictionary is dropped by its name.
pub proof fn law_dictionaries_are_dropped_by_name(
    q: QualifiedName,
    d: Destructiveness,
    target: Catalog,
    source: Catalog,
    policy: PlannerPolicy,
)
    ensures
        ({
            let steps = emitted_for(
                Change::TsDictionary(TsDictionaryChange::Drop { qname: q }),
                d,
                target,
                source,
                policy,
            );
            &&& steps.len() == 1
            &&& says(
                steps[0],
                StepKind::DropTsDictionary,
                seq![q@],
                "DROP TEXT SEARCH DICTIONARY "@ + q@.sql() + ";"@,
            )
            &&& needs(steps[0], d)
        }),
{
    reveal(emit::ts_dictionary::ts_dictionary_steps);
}

/// A text search configuration is dropped by its name.
pub proof fn law_configurations_are_dropped_by_name(
    q: QualifiedName,
    d: Destructiveness,
    target: Catalog,
    source: Catalog,
    policy: PlannerPolicy,
)
    ensures
        ({
            let steps = emitted_for(
                Change::TsConfiguration(TsConfigurationChange::Drop { qname: q }),
                d,
                target,
                source,
                policy,
            );
            &&& steps.len() == 1
            &&& says(
                steps[0],
                StepKind::DropTsConfiguration,
                seq![q@],
                "DROP TEXT SEARCH CONFIGURATION "@ + q@.sql() + ";"@,
            )
            &&& needs(steps[0], d)
        }),
{
    reveal(emit::ts_configuration::ts_configuration_steps);
}

/// An event trigger is switched to the given mode.
pub proof fn law_event_triggers_are_switched(
    name: Identifier,
    enabled: EventTriggerEnabled,
    d: Destructiveness,
    target: Catalog,
    source: Catalog,
    policy: PlannerPolicy,
)
    ensures
        ({
            let steps = emitted_for(
                Change::EventTrigger(EventTriggerChange::AlterEnable { name, enabled }),
                d,
                target,
                source,
                policy,
            );
            &&& steps.len() == 1
            &&& says(
                steps[0],
                StepKind::AlterEventTriggerEnable,
                seq![QnameModel { schema: "pg_event_trigger"@, name: name@ }],
                "ALTER EVENT TRIGGER "@ + name_sql(name@) + " "@ + (match enabled {
                EventTriggerEnabled::Enabled => "ENABLE"@,
                EventTriggerEnabled::Disabled => "DISABLE"@,
                EventTriggerEnabled::Replica => "ENABLE REPLICA"@,
                EventTriggerEnabled::Always => "ENABLE ALWAYS"@,
            }) + ";"@,
            )
            &&& needs_nothing(steps[0])
        }),
{
    reveal(emit::event_trigger::event_trigger_steps);
}

/// An aggregate is dropped by its name and its argument types.
pub proof fn law_aggregates_are_dropped_by_name_and_types(
    q: QualifiedName,
    types: Vec<ColumnType>,
    d: Destructiveness,
    target: Catalog,
    source: Catalog,
    policy: PlannerPolicy,
)
    ensures
        ({
            let steps = emitted_for(
                Change::Aggregate(AggregateChange::Drop { qname: q, arg_types: types }),
                d,
                target,
                source,
                policy,
            );
            &&& steps.len() == 1
            &&& says(
                steps[0],
                StepKind::DropAggregate,
                seq![q@],
                "DROP AGGREGATE "@ + q@.sql() + (if types@.len() == 0 {
                "(*)"@
            } else {
                "("@ + joined(sqls(types@), ", "@) + ")"@
            }) + ";"@,
            )
            &&& needs(steps[0], d)
        }),
{
    reveal(emit::aggregate::aggregate_steps);
}

/// An aggregate gets its new owner.
pub proof fn law_aggregates_take_their_owner(
    q: QualifiedName,
    types: Vec<ColumnType>,
    owner: Identifier,
    d: Destructiveness,
    target: Catalog,
    source: Catalog,
    policy: PlannerPolicy,
)
    ensures
        ({
            let steps = emitted_for(
                Change::Aggregate(AggregateChange::AlterOwner { qname: q, arg_types: types, owner }),
                d,
                target,
                source,
                policy,
            );
            &&& steps.len() == 1
            &&& says(
                steps[0],
                StepKind::AlterAggregateOwner,
                seq![q@],
                "ALTER AGGREGATE "@ + q@.sql() + (if types@.len() == 0 {
                "(*)"@
            } else {
                "("@ + joined(sqls(types@), ", "@) + ")"@
            }) + " OWNER TO "@ + name_sql(owner@) + ";"@,
            )
            &&& needs_nothing(steps[0])
        }),
{
    reveal(emit::aggregate::aggregate_steps);
}

/// A comment on an aggregate is set or cleared.
pub proof fn law_aggregate_comments_are_set_or_cleared(
    q: QualifiedName,
    types: Vec<ColumnType>,
    comment: Option<String>,
    d: Destructiveness,
    target: Catalog,
    source: Catalog,
    policy: PlannerPolicy,
)
    ensures
        ({
            let steps = emitted_for(
                Change::Aggregate(AggregateChange::CommentOn { qname: q, arg_types: types, comment }),
                d,
                target,
                source,
                policy,
            );
            &&& steps.len() == 1
            &&& says(
                steps[0],
                StepKind::CommentOnAggregate,
                seq![q@],
                match comment {
                Some(text) => "COMMENT ON AGGREGATE "@ + q@.sql() + (if types@.len() == 0 {
                "(*)"@
            } else {
                "("@ + joined(sqls(types@), ", "@) + ")"@
            }) + " IS '"@ + doubled(text@, '\'') + "';"@,
                None => "COMMENT ON AGGREGATE "@ + q@.sql() + (if types@.len() == 0 {
                "(*)"@
            } else {
                "("@ + joined(sqls(types@), ", "@) + ")"@
            }) + " IS NULL;"@,
            },
            )
            &&& needs_nothing(steps[0])
        }),
{
    reveal(emit::aggregate::aggregate_steps);
}

/// A text search dictionary gets its new owner.
pub proof fn law_dictionaries_take_their_owner(
    q: QualifiedName,
    owner: Identifier,
    d: Destructiveness,
    target: Catalog,
    source: Catalog,
    policy: PlannerPolicy,
)
    ensures
        ({
            let steps = emitted_for(
                Change::TsDictionary(TsDictionaryChange::AlterOwner { qname: q, owner }),
                d,
                target,
                source,
                policy,
            );
            &&& steps.len() == 1
            &&& says(
                steps[0],
                StepKind::AlterTsDictionaryOwner,
                seq![q@],
                "ALTER TEXT SEARCH DICTIONARY "@ + q@.sql() + " OWNER TO "@ + name_sql(owner@)
                    + ";"@,
            )
            &&& needs_nothing(steps[0])
        }),
{
    reveal(emit::ts_dictionary::ts_dictionary_steps);
}

/// A comment on a text search dictionary is set or cleared.
pub proof fn law_dictionary_comments_are_set_or_cleared(
    q: QualifiedName,
    comment: Option<String>,
    d: Destructiveness,
    target: Catalog,
    source: Catalog,
    policy: PlannerPolicy,
)
    ensures
        ({
            let steps = emitted_for(
                Change::TsDictionary(TsDictionaryChange::CommentOn { qname: q, comment }),
                d,
                target,
                source,
                policy,
            );
            &&& steps.len() == 1
            &&& says(
                steps[0],
                StepKind::CommentOnTsDictionary,
                seq![q@],
                match comment {
                Some(text) => "COMMENT ON TEXT SEARCH DICTIONARY "@ + q@.sql() + " IS '"@
                    + doubled(text@, '\'') + "';"@,
                None => "COMMENT ON TEXT SEARCH DICTIONARY "@ + q@.sql() + " IS NULL;"@,
            },
            )
            &&& needs_nothing(steps[0])
        }),
{
    reveal(emit::ts_dictionary::ts_dictionary_steps);
}

/// A text search configuration gets its new owner.
pub proof fn law_configurations_take_their_owner(
    q: QualifiedName,
    owner: Identifier,
    d: Destructiveness,
    target: Catalog,
    source: Catalog,
    policy: PlannerPolicy,
)
    ensures
        ({
            let steps = emitted_for(
                Change::TsConfiguration(TsConfigurationChange::AlterOwner { qname: q, owner }),
                d,
                target,
                source,
                policy,
            );
            &&& steps.len() == 1
            &&& says(
                steps[0],
                StepKind::AlterTsConfigurationOwner,
                seq![q@],
                "ALTER TEXT SEARCH CONFIGURATION "@ + q@.sql() + " OWNER TO "@ + name_sql(owner@)
                    + ";"@,
            )
            &&& needs_nothing(steps[0])
        }),
{
    reveal(emit::ts_configuration::ts_configuration_steps);
}

/// A comment on a text search configuration is set or cleared.
pub proof fn law_configuration_comments_are_set_or_cleared(
    q: QualifiedName,
    comment: Option<String>,
    d: Destructiveness,
    target: Catalog,
    source: Catalog,
    policy: PlannerPolicy,
)
    ensures
        ({
            let steps = emitted_for(
                Change::TsConfiguration(TsConfigurationChange::CommentOn { qname: q, comment }),
                d,
                target,
                source,
                policy,
            );
            &&& steps.len() == 1
            &&& says(
                steps[0],
                StepKind::CommentOnTsConfiguration,
                seq![q@],
                match comment {
                Some(text) => "COMMENT ON TEXT SEARCH CONFIGURATION "@ + q@.sql() + " IS '"@
                    + doubled(text@, '\'') + "';"@,
                None => "COMMENT ON TEXT SEARCH CONFIGURATION "@ + q@.sql() + " IS NULL;"@,
            },
            )
            &&& needs_nothing(steps[0])
        }),
{
    reveal(emit::ts_configuration::ts_configuration_steps);
}

/// A token type of a configuration is mapped to its dictionaries, in order.
pub proof fn law_mappings_are_added(
    q: QualifiedName,
    token_type: String,
    dictionaries: Vec<QualifiedName>,
    d: Destructiveness,
    target: Catalog,
    source: Catalog,
    policy: PlannerPolicy,
)
    ensures
        ({
            let steps = emitted_for(
                Change::TsConfiguration(TsConfigurationChange::AddMapping { qname: q, token_type, dictionaries }),
                d,
                target,
                source,
                policy,
            );
            &&& steps.len() == 1
            &&& says(
                steps[0],
                StepKind::AddTsConfigMapping,
                seq![q@],
                "ALTER TEXT SEARCH CONFIGURATION "@ + q@.sql() + " ADD MAPPING FOR "@
                    + emit::ts_configuration::token_text(token_type@) + " WITH "@
                    + joined(sqls(dictionaries@), ", "@) + ";"@,
            )
            &&& needs_nothing(steps[0])
        }),
{
    reveal(emit::ts_configuration::ts_configuration_steps);
}

/// A token type of a configuration is mapped anew to its dictionaries, in
/// order.
pub proof fn law_mappings_are_altered(
    q: QualifiedName,
    token_type: String,
    dictionaries: Vec<QualifiedName>,
    d: Destructiveness,
    target: Catalog,
    source: Catalog,
    policy: PlannerPolicy,
)
    ensures
        ({
            let steps = emitted_for(
                Change::TsConfiguration(TsConfigurationChange::AlterMapping { qname: q, token_type, dictionaries }),
                d,
                target,
                source,
                policy,
            );
            &&& steps.len() == 1
            &&& says(
                steps[0],
                StepKind::AlterTsConfigMapping,
                seq![q@],
                "ALTER TEXT SEARCH CONFIGURATION "@ + q@.sql() + " ALTER MAPPING FOR "@
                    + emit::ts_configuration::token_text(token_type@) + " WITH "@
                    + joined(sqls(dictionaries@), ", "@) + ";"@,
            )
            &&& needs_nothing(steps[0])
        }),
{
    reveal(emit::ts_configuration::ts_configuration_steps);
}

/// The mapping of a token type is dropped, if there is one.
pub proof fn law_mappings_are_dropped(
    q: QualifiedName,
    token_type: String,
    d: Destructiveness,
    target: Catalog,
    source: Catalog,
    policy: PlannerPolicy,
)
    ensures
        ({
            let steps = emitted_for(
                Change::TsConfiguration(TsConfigurationChange::DropMapping { qname: q, token_type }),
                d,
                target,
                source,
                policy,
            );
            &&& steps.len() == 1
            &&& says(
                steps[0],
                StepKind::DropTsConfigMapping,
                seq![q@],
                "ALTER TEXT SEARCH CONFIGURATION "@ + q@.sql() + " DROP MAPPING IF EXISTS FOR "@
                    + emit::ts_configuration::token_text(token_type@) + ";"@,
            )
            &&& needs_nothing(steps[0])
        }),
{
    reveal(emit::ts_configuration::ts_configuration_steps);
}

/// A privilege on columns is granted to the grantee, with the right to grant it
/// on exactly where that is given.
pub proof fn law_column_privileges_are_granted(
    q: QualifiedName,
    grant: Grant,
    columns: Vec<Identifier>,
    d: Destructiveness,
    target: Catalog,
    source: Catalog,
    policy: PlannerPolicy,
)
    ensures
        ({
            let steps = emitted_for(
                Change::GrantColumnPrivilege { qname: q, grant: Grant { columns: Some(columns), ..grant } },
                d,
                target,
                source,
                policy,
            );
            &&& steps.len() == 1
            &&& says(
                steps[0],
                StepKind::GrantColumnPrivilege,
                seq![q@],
                if grant.with_grant_option {
                "GRANT "@ + grant.privilege.keyword() + " ("@ + joined(sqls(columns@), ", "@)
                    + ") ON TABLE "@ + q@.sql() + " TO "@ + (match grant.grantee {
                GrantTarget::Public => "PUBLIC"@,
                GrantTarget::Role(role) => name_sql(role@),
            }) + " WITH GRANT OPTION"@ + ";"@
            } else {
                "GRANT "@ + grant.privilege.keyword() + " ("@ + joined(sqls(columns@), ", "@)
                    + ") ON TABLE "@ + q@.sql() + " TO "@ + (match grant.grantee {
                GrantTarget::Public => "PUBLIC"@,
                GrantTarget::Role(role) => name_sql(role@),
            }) + ";"@
            },
            )
            &&& needs_nothing(steps[0])
        }),
{
    reveal(emit::access::grant_column_steps);
}

/// A privilege on columns is revoked from the grantee.
pub proof fn law_column_privileges_are_revoked(
    q: QualifiedName,
    grant: Grant,
    columns: Vec<Identifier>,
    d: Destructiveness,
    target: Catalog,
    source: Catalog,
    policy: PlannerPolicy,
)
    ensures
        ({
            let steps = emitted_for(
                Change::RevokeColumnPrivilege { qname: q, grant: Grant { columns: Some(columns), ..grant } },
                d,
                target,
                source,
                policy,
            );
            &&& steps.len() == 1
            &&& says(
                steps[0],
                StepKind::RevokeColumnPrivilege,
                seq![q@],
                "REVOKE "@ + grant.privilege.keyword() + " ("@ + joined(sqls(columns@), ", "@)
                    + ") ON TABLE "@ + q@.sql() + " FROM "@ + (match grant.grantee {
                GrantTarget::Public => "PUBLIC"@,
                GrantTarget::Role(role) => name_sql(role@),
            }) + ";"@,
            )
            &&& needs_nothing(steps[0])
        }),
{
    reveal(emit::access::revoke_column_steps);
}

/// A default privilege on what a role creates is granted, in a schema or
/// everywhere.
pub proof fn law_default_privileges_are_granted(
    role: Identifier,
    schema: Option<Identifier>,
    object_type: DefaultPrivObjectType,
    grant: Grant,
    d: Destructiveness,
    target: Catalog,
    source: Catalog,
    policy: PlannerPolicy,
)
    ensures
        ({
            let steps = emitted_for(
                Change::AlterDefaultPrivileges { target_role: role, schema, object_type, direction: GrantDirection::Grant, grant },
                d,
                target,
                source,
                policy,
            );
            &&& steps.len() == 1
            &&& says(
                steps[0],
                StepKind::AlterDefaultPrivileges,
                Seq::<QnameModel>::empty(),
                if grant.with_grant_option {
                (match schema {
                Some(s) => "ALTER DEFAULT PRIVILEGES FOR ROLE "@ + name_sql(role@) + " IN SCHEMA "@
                    + name_sql(s@),
                None => "ALTER DEFAULT PRIVILEGES FOR ROLE "@ + name_sql(role@),
            }) + " GRANT "@ + grant.privilege.keyword() + " ON "@ + object_type.keyword() + " TO "@
                + (match grant.grantee {
                GrantTarget::Public => "PUBLIC"@,
                GrantTarget::Role(role) => name_sql(role@),
            }) + " WITH GRANT OPTION"@ + ";"@
            } else {
                (match schema {
                Some(s) => "ALTER DEFAULT PRIVILEGES FOR ROLE "@ + name_sql(role@) + " IN SCHEMA "@
                    + name_sql(s@),
                None => "ALTER DEFAULT PRIVILEGES FOR ROLE "@ + name_sql(role@),
            }) + " GRANT "@ + grant.privilege.keyword() + " ON "@ + object_type.keyword() + " TO "@
                + (match grant.grantee {
                GrantTarget::Public => "PUBLIC"@,
                GrantTarget::Role(role) => name_sql(role@),
            }) + ";"@
            },
            )
            &&& needs_nothing(steps[0])
        }),
{
    reveal(emit::access::default_privileges_steps);
}

/// A default privilege on what a role creates is revoked, in a schema or
/// everywhere.
pub proof fn law_default_privileges_are_revoked(
    role: Identifier,
    schema: Option<Identifier>,
    object_type: DefaultPrivObjectType,
    grant: Grant,
    d: Destructiveness,
    target: Catalog,
    source: Catalog,
    policy: PlannerPolicy,
)
    ensures
        ({
            let steps = emitted_for(
                Change::AlterDefaultPrivileges { target_role: role, schema, object_type, direction: GrantDirection::Revoke, grant },
                d,
                target,
                source,
                policy,
            );
            &&& steps.len() == 1
            &&& says(
                steps[0],
                StepKind::AlterDefaultPrivileges,
                Seq::<QnameModel>::empty(),
                (match schema {
                Some(s) => "ALTER DEFAULT PRIVILEGES FOR ROLE "@ + name_sql(role@) + " IN SCHEMA "@
                    + name_sql(s@),
                None => "ALTER DEFAULT PRIVILEGES FOR ROLE "@ + name_sql(role@),
            }) + " REVOKE "@ + grant.privilege.keyword() + " ON "@ + object_type.keyword()
                + " FROM "@ + (match grant.grantee {
                GrantTarget::Public => "PUBLIC"@,
                GrantTarget::Role(role) => name_sql(role@),
            }) + ";"@,
            )
            &&& needs_nothing(steps[0])
        }),
{
    reveal(emit::access::default_privileges_steps);
}

/// Creating a schema is one statement; where it has a comment, the step that
/// would set it follows.
pub proof fn law_schemas_are_created_with_their_comment(
    o: Schema,
    d: Destructiveness,
    target: Catalog,
    source: Catalog,
    policy: PlannerPolicy,
)
    ensures
        ({
            let steps = emitted_for(Change::CreateSchema(o), d, target, source, policy);
            let note = emitted_for(
                Change::AlterSchema { name: o.name, comment: o.comment },
                d,
                target,
                source,
                policy,
            );
            &&& says(
                steps[0],
                StepKind::CreateSchema,
                seq![QnameModel { schema: o.name@, name: o.name@ }],
                "CREATE SCHEMA "@ + name_sql(o.name@) + ";"@,
            )
            &&& needs(steps[0], d)
            &&& if o.comment is Some {
                steps.len() == 2 && steps[1] == note[0]
            } else {
                steps.len() == 1
            }
        }),
{
    reveal(emit::schema::create_steps);
    reveal(emit::schema::alter_steps);
}

/// Creating a function is one statement; where it has a comment, the step that
/// would set it follows.
pub proof fn law_functions_are_created_with_their_comment(
    o: Function,
    d: Destructiveness,
    target: Catalog,
    source: Catalog,
    policy: PlannerPolicy,
)
    ensures
        ({
            let steps = emitted_for(
                Change::Function(FunctionChange::Create(o)),
                d,
                target,
                source,
                policy,
            );
            let note = emitted_for(
                Change::Function(FunctionChange::SetComment { qname: o.qname, args: o.arg_types_normalized, comment: o.comment }),
                d,
                target,
                source,
                policy,
            );
            &&& says(
                steps[0],
                StepKind::CreateOrReplaceFunction,
                seq![o.qname@],
                create_function_sql(o),
            )
            &&& needs_nothing(steps[0])
            &&& if o.comment is Some {
                steps.len() == 2 && steps[1] == note[0]
            } else {
                steps.len() == 1
            }
        }),
{
    reveal(emit::function::function_steps);
}

/// Creating an extension is one statement; where it has a comment, the step
/// that would set it follows.
pub proof fn law_extensions_are_created_with_their_comment(
    o: Extension,
    d: Destructiveness,
    target: Catalog,
    source: Catalog,
    policy: PlannerPolicy,
)
    ensures
        ({
            let steps = emitted_for(
                Change::Extension(ExtensionChange::Create(o)),
                d,
                target,
                source,
                policy,
            );
            let note = emitted_for(
                Change::Extension(ExtensionChange::CommentOn { name: o.name, comment: o.comment }),
                d,
                target,
                source,
                policy,
            );
            &&& says(
                steps[0],
                StepKind::CreateExtension,
                seq![QnameModel { schema: "pg_extension"@, name: o.name@ }],
                create_extension_sql(o),
            )
            &&& needs(steps[0], d)
            &&& if o.comment is Some {
                steps.len() == 2 && steps[1] == note[0]
            } else {
                steps.len() == 1
            }
        }),
{
    reveal(emit::extension::extension_steps);
}

/// Creating a trigger is one statement; where it has a comment, the step that
/// would set it follows.
pub proof fn law_triggers_are_created_with_their_comment(
    o: Trigger,
    d: Destructiveness,
    target: Catalog,
    source: Catalog,
    policy: PlannerPolicy,
)
    ensures
        ({
            let steps = emitted_for(
                Change::Trigger(TriggerChange::Create(o)),
                d,
                target,
                source,
                policy,
            );
            let note = emitted_for(
                Change::Trigger(TriggerChange::CommentOn { qname: o.qname, table: o.table, comment: o.comment }),
                d,
                target,
                source,
                policy,
            );
            &&& says(
                steps[0],
                StepKind::CreateTrigger,
                seq![o.qname@],
                create_trigger_sql(o),
            )
            &&& needs(steps[0], d)
            &&& if o.comment is Some {
                steps.len() == 2 && steps[1] == note[0]
            } else {
                steps.len() == 1
            }
        }),
{
    reveal(emit::trigger::trigger_steps);
}

/// Creating a publication is one statement; where it has a comment, the step
/// that would set it follows.
pub proof fn law_publications_are_created_with_their_comment(
    o: Publication,
    d: Destructiveness,
    target: Catalog,
    source: Catalog,
    policy: PlannerPolicy,
)
    ensures
        ({
            let steps = emitted_for(
                Change::Publication(PublicationChange::Create(o)),
                d,
                target,
                source,
                policy,
            );
            let note = emitted_for(
                Change::Publication(PublicationChange::CommentOn { name: o.name, comment: o.comment }),
                d,
                target,
                source,
                policy,
            );
            &&& says(
                steps[0],
                StepKind::CreatePublication,
                Seq::<QnameModel>::empty(),
                create_publication_sql(o),
            )
            &&& needs_nothing(steps[0])
            &&& if o.comment is Some {
                steps.len() == 2 && steps[1] == note[0]
            } else {
                steps.len() == 1
            }
        }),
{
    reveal(emit::publication::publication_steps);
}

/// Creating a statistics object is one statement; where it has a comment, the
/// step that would set it follows.
pub proof fn law_statistics_are_created_with_their_comment(
    o: Statistic,
    d: Destructiveness,
    target: Catalog,
    source: Catalog,
    policy: PlannerPolicy,
)
    ensures
        ({
            let steps = emitted_for(
                Change::Statistic(StatisticChange::Create(o)),
                d,
                target,
                source,
                policy,
            );
            let note = emitted_for(
                Change::Statistic(StatisticChange::CommentOn { qname: o.qname, comment: o.comment }),
                d,
                target,
                source,
                policy,
            );
            &&& says(
                steps[0],
                StepKind::CreateStatistic,
                seq![o.qname@],
                create_statistic_sql(o),
            )
            &&& needs_nothing(steps[0])
            &&& if o.comment is Some {
                steps.len() == 2 && steps[1] == note[0]
            } else {
                steps.len() == 1
            }
        }),
{
    reveal(emit::statistic::statistic_steps);
}

/// Creating a collation is one statement; where it has a comment, the step that
/// would set it follows.
pub proof fn law_collations_are_created_with_their_comment(
    o: Collation,
    d: Destructiveness,
    target: Catalog,
    source: Catalog,
    policy: PlannerPolicy,
)
    ensures
        ({
            let steps = emitted_for(
                Change::Collation(CollationChange::Create(o)),
                d,
                target,
                source,
                policy,
            );
            let note = emitted_for(
                Change::Collation(CollationChange::CommentOn { qname: o.qname, comment: o.comment }),
                d,
                target,
                source,
                policy,
            );
            &&& says(
                steps[0],
                StepKind::CreateCollation,
                seq![o.qname@],
                create_collation_sql(o),
            )
            &&& needs_nothing(steps[0])
            &&& if o.comment is Some {
                steps.len() == 2 && steps[1] == note[0]
            } else {
                steps.len() == 1
            }
        }),
{
    reveal(emit::collation::collation_steps);
}

/// Creating a cast is one statement; where it has a comment, the step that
/// would set it follows.
pub proof fn law_casts_are_created_with_their_comment(
    o: Cast,
    d: Destructiveness,
    target: Catalog,
    source: Catalog,
    policy: PlannerPolicy,
)
    ensures
        ({
            let steps = emitted_for(Change::Cast(CastChange::Create(o)), d, target, source, policy);
            let note = emitted_for(
                Change::Cast(CastChange::CommentOn { source: o.source, target: o.target, comment: o.comment }),
                d,
                target,
                source,
                policy,
            );
            &&& says(
                steps[0],
                StepKind::CreateCast,
                seq![o.source@, o.target@],
                emit::cast::create_text(o),
            )
            &&& needs(steps[0], d)
            &&& if o.comment is Some {
                steps.len() == 2 && steps[1] == note[0]
            } else {
                steps.len() == 1
            }
        }),
{
    reveal(emit::cast::cast_steps);
}

/// Creating a procedure is one statement, outside a transaction exactly where
/// its body commits; where it has a comment, the step that would set it
/// follows.
pub proof fn law_procedures_are_created_where_they_can_run(
    o: Procedure,
    d: Destructiveness,
    target: Catalog,
    source: Catalog,
    policy: PlannerPolicy,
)
    ensures
        ({
            let steps = emitted_for(
                Change::Procedure(ProcedureChange::Create(o)),
                d,
                target,
                source,
                policy,
            );
            let note = emitted_for(
                Change::Procedure(ProcedureChange::SetComment { qname: o.qname, comment: o.comment }),
                d,
                target,
                source,
                policy,
            );
            &&& if o.commits_in_body {
                says_outside(
                    steps[0],
                    StepKind::CreateOrReplaceProcedure,
                    seq![o.qname@],
                    create_procedure_sql(o),
                )
            } else {
                says(
                    steps[0],
                    StepKind::CreateOrReplaceProcedure,
                    seq![o.qname@],
                    create_procedure_sql(o),
                )
            }
            &&& needs_nothing(steps[0])
            &&& if o.comment is Some {
                steps.len() == 2 && steps[1] == note[0]
            } else {
                steps.len() == 1
            }
        }),
{
    reveal(emit::procedure::procedure_steps);
}

/// Creating a subscription is one statement, outside a transaction unless it is
/// told to create no slot; where it has a comment, the step that would set it
/// follows.
pub proof fn law_subscriptions_are_created_where_they_can_run(
    o: Subscription,
    d: Destructiveness,
    target: Catalog,
    source: Catalog,
    policy: PlannerPolicy,
)
    ensures
        ({
            let steps = emitted_for(
                Change::Subscription(SubscriptionChange::Create(o)),
                d,
                target,
                source,
                policy,
            );
            let note = emitted_for(
                Change::Subscription(SubscriptionChange::CommentOn { name: o.name, comment: o.comment }),
                d,
                target,
                source,
                policy,
            );
            &&& if o.options.create_slot != Some(false) {
                says_outside(
                    steps[0],
                    StepKind::CreateSubscription,
                    Seq::<QnameModel>::empty(),
                    create_subscription_sql(o),
                )
            } else {
                says(
                    steps[0],
                    StepKind::CreateSubscription,
                    Seq::<QnameModel>::empty(),
                    create_subscription_sql(o),
                )
            }
            &&& needs_nothing(steps[0])
            &&& if o.comment is Some {
                steps.len() == 2 && steps[1] == note[0]
            } else {
                steps.len() == 1
            }
        }),
{
    reveal(emit::subscription::subscription_steps);
}

/// Replacing a procedure in place is the statement that creates it, where that
/// can run, with the approval that the change needs.
pub proof fn law_procedures_are_replaced_in_place(
    o: Procedure,
    d: Destructiveness,
    target: Catalog,
    source: Catalog,
    policy: PlannerPolicy,
)
    ensures
        ({
            let steps = emitted_for(
                Change::Procedure(ProcedureChange::CreateOrReplace(o)),
                d,
                target,
                source,
                policy,
            );
            &&& steps.len() == 1
            &&& needs(steps[0], d)
            &&& if o.commits_in_body {
                says_outside(
                    steps[0],
                    StepKind::CreateOrReplaceProcedure,
                    seq![o.qname@],
                    create_procedure_sql(o),
                )
            } else {
                says(
                    steps[0],
                    StepKind::CreateOrReplaceProcedure,
                    seq![o.qname@],
                    create_procedure_sql(o),
                )
            }
        }),
{
    reveal(emit::procedure::procedure_steps);
}

/// Creating a materialized view is one statement, which leaves it empty; a
/// refresh follows, and then the comments that the definition gives.
pub proof fn law_materialized_views_are_created_and_refreshed(
    o: MaterializedView,
    d: Destructiveness,
    target: Catalog,
    source: Catalog,
    policy: PlannerPolicy,
)
    ensures
        ({
            let steps = emitted_for(Change::Mv(MvChange::Create(o)), d, target, source, policy);
            let note = emitted_for(
                Change::Mv(MvChange::SetComment { qname: o.qname, comment: o.comment }),
                d,
                target,
                source,
                policy,
            );
            &&& steps.len() >= 2
            &&& says(
                steps[0],
                StepKind::CreateMaterializedView,
                seq![o.qname@],
                create_mv_sql(o),
            )
            &&& says(
                steps[1],
                StepKind::RefreshMaterializedView,
                seq![o.qname@],
                "REFRESH MATERIALIZED VIEW "@ + o.qname@.sql() + ";"@,
            )
            &&& needs_nothing(steps[0])
            &&& needs_nothing(steps[1])
            &&& o.comment is Some ==> steps.len() >= 3 && steps[2] == note[0]
        }),
{
    reveal(emit::mv::mv_steps);
}

/// Creating a view is one statement, which replaces nothing; the comment that
/// the definition gives follows.
pub proof fn law_views_are_created_with_their_comment(
    o: ViewDefinition,
    d: Destructiveness,
    target: Catalog,
    source: Catalog,
    policy: PlannerPolicy,
)
    ensures
        ({
            let steps = emitted_for(Change::View(ViewChange::Create(o)), d, target, source, policy);
            let note = emitted_for(
                Change::View(ViewChange::SetComment { qname: o.qname, comment: o.comment }),
                d,
                target,
                source,
                policy,
            );
            &&& steps.len() >= 1
            &&& says(steps[0], StepKind::CreateView, seq![o.qname@], create_view_sql(o, false))
            &&& needs_nothing(steps[0])
            &&& o.comment is Some ==> steps.len() >= 2 && steps[1] == note[0]
        }),
{
    reveal(emit::view::view_steps);
}

/// Creating a type is one statement that needs no approval; where the type has
/// a comment, a step that sets it follows, which speaks of a domain exactly
/// where the type is one.
pub proof fn law_types_are_created_with_their_comment(
    o: UserType,
    d: Destructiveness,
    target: Catalog,
    source: Catalog,
    policy: PlannerPolicy,
)
    ensures
        ({
            let steps = emitted_for(
                Change::UserType(UserTypeChange::Create(o)),
                d,
                target,
                source,
                policy,
            );
            &&& says(steps[0], StepKind::CreateType, seq![o.qname@], create_type_sql(o))
            &&& needs_nothing(steps[0])
            &&& match o.comment {
                Some(text) => steps.len() == 2 && needs_nothing(steps[1]) && says(
                    steps[1],
                    StepKind::CommentOnType,
                    seq![o.qname@],
                    if o.kind is Domain {
                        "COMMENT ON DOMAIN "@ + o.qname@.sql() + " IS '"@ + doubled(text@, '\'')
                            + "';"@
                    } else {
                        "COMMENT ON TYPE "@ + o.qname@.sql() + " IS '"@ + doubled(text@, '\'')
                            + "';"@
                    },
                ),
                None => steps.len() == 1,
            }
        }),
{
    reveal(emit::user_type::user_type_steps);
}

/// Replacing a type with everything that depends on it drops the old one and
/// creates the new one. Both steps need approval where the change does, and
/// their reason is the change's own followed by what in the live catalog goes
/// with the old type.
pub proof fn law_types_are_replaced_by_drop_and_create(
    new: UserType,
    old: UserType,
    d: Destructiveness,
    target: Catalog,
    source: Catalog,
    policy: PlannerPolicy,
)
    ensures
        ({
            let steps = emitted_for(
                Change::UserType(UserTypeChange::ReplaceWithCascade { source: new, catalog: old }),
                d,
                target,
                source,
                policy,
            );
            let created = emitted_for(
                Change::UserType(UserTypeChange::Create(new)),
                d,
                target,
                source,
                policy,
            );
            &&& steps.len() == created.len() + 1
            &&& says(
                steps[0],
                StepKind::DropType,
                seq![old.qname@],
                "DROP TYPE "@ + old.qname@.sql() + " CASCADE;"@,
            )
            &&& says(steps[1], StepKind::CreateType, seq![new.qname@], create_type_sql(new))
            &&& steps[0].destructive == !(d is Safe) && steps[1].destructive == !(d is Safe)
            &&& steps[0].destructive_reason == steps[1].destructive_reason
            &&& d is Safe ==> steps[0].destructive_reason is None
            &&& match d {
                Destructiveness::Safe => true,
                Destructiveness::RequiresApproval { reason } => begins_with(
                    steps[0].destructive_reason,
                    reason@,
                ) && steps[0].destructive_reason->Some_0.skip(reason@.len() as int) =~= cascade_text(
                    old.qname@,
                    type_dependents(old.qname@, target),
                ),
                Destructiveness::RequiresApprovalAndDataLossWarning { reason } => begins_with(
                    steps[0].destructive_reason,
                    reason@,
                ) && steps[0].destructive_reason->Some_0.skip(reason@.len() as int) =~= cascade_text(
                    old.qname@,
                    type_dependents(old.qname@, target),
                ),
            }
            &&& new.comment is Some ==> steps[2] == created[1]
        }),
{
    reveal(emit::user_type::user_type_steps);
    match d {
        Destructiveness::Safe => {},
        Destructiveness::RequiresApproval { reason } => {
            let all = emit::user_type::cascade_reason(Some(reason@), old.qname, target);
            assert(all->Some_0.take(reason@.len() as int) =~= reason@);
        },
        Destructiveness::RequiresApprovalAndDataLossWarning { reason } => {
            let all = emit::user_type::cascade_reason(Some(reason@), old.qname, target);
            assert(all->Some_0.take(reason@.len() as int) =~= reason@);
        },
    }
}

/// There is a text, and it begins with `start`.
pub open spec fn begins_with(text: Option<Seq<char>>, start: Seq<char>) -> bool {
    text matches Some(t) && t.len() >= start.len() && t.take(start.len() as int) == start
}

/// An aggregate is replaced by dropping the old one and creating the new one.
/// Neither needs approval: no data is lost.
pub proof fn law_aggregates_are_replaced_by_drop_and_create(
    old: Aggregate,
    new: Aggregate,
    d: Destructiveness,
    target: Catalog,
    source: Catalog,
    policy: PlannerPolicy,
)
    ensures
        emitted_for(
            Change::Aggregate(AggregateChange::Replace { from: old, to: new }),
            d,
            target,
            source,
            policy,
        ) =~= emitted_for(
            Change::Aggregate(AggregateChange::Drop { qname: old.qname, arg_types: old.arg_types }),
            Destructiveness::Safe,
            target,
            source,
            policy,
        ) + emitted_for(Change::Aggregate(AggregateChange::Create(new)), Destructiveness::Safe, target, source, policy),
{
    reveal(emit::aggregate::aggregate_steps);
}

/// A cast is replaced by dropping the old one and creating the new one. Neither
/// needs approval: no data is lost.
pub proof fn law_casts_are_replaced_by_drop_and_create(
    old: Cast,
    new: Cast,
    d: Destructiveness,
    target: Catalog,
    source: Catalog,
    policy: PlannerPolicy,
)
    ensures
        emitted_for(
            Change::Cast(CastChange::Replace { from: old, to: new }),
            d,
            target,
            source,
            policy,
        ) =~= emitted_for(
            Change::Cast(CastChange::Drop { source: old.source, target: old.target }),
            Destructiveness::Safe,
            target,
            source,
            policy,
        ) + emitted_for(Change::Cast(CastChange::Create(new)), Destructiveness::Safe, target, source, policy),
{
    reveal(emit::cast::cast_steps);
}

/// An event trigger is replaced by dropping the old one and creating the new
/// one. The drop needs the approval that the change needs, the create none.
pub proof fn law_event_triggers_are_replaced_by_drop_and_create(
    old: EventTrigger,
    new: EventTrigger,
    d: Destructiveness,
    target: Catalog,
    source: Catalog,
    policy: PlannerPolicy,
)
    ensures
        emitted_for(
            Change::EventTrigger(EventTriggerChange::Replace { from: old, to: new }),
            d,
            target,
            source,
            policy,
        ) =~= emitted_for(
            Change::EventTrigger(EventTriggerChange::Drop { name: old.name }),
            d,
            target,
            source,
            policy,
        ) + emitted_for(Change::EventTrigger(EventTriggerChange::Create(new)), Destructiveness::Safe, target, source, policy),
{
    reveal(emit::event_trigger::event_trigger_steps);
}

/// A text search dictionary is replaced by dropping the old one and creating
/// the new one. Neither needs approval: no data is lost.
pub proof fn law_dictionaries_are_replaced_by_drop_and_create(
    old: TsDictionary,
    new: TsDictionary,
    d: Destructiveness,
    target: Catalog,
    source: Catalog,
    policy: PlannerPolicy,
)
    ensures
        emitted_for(
            Change::TsDictionary(TsDictionaryChange::Replace { from: old, to: new }),
            d,
            target,
            source,
            policy,
        ) =~= emitted_for(
            Change::TsDictionary(TsDictionaryChange::Drop { qname: old.qname }),
            Destructiveness::Safe,
            target,
            source,
            policy,
        ) + emitted_for(Change::TsDictionary(TsDictionaryChange::Create(new)), Destructiveness::Safe, target, source, policy),
{
    reveal(emit::ts_dictionary::ts_dictionary_steps);
}

/// A text search configuration is replaced by dropping the old one and creating
/// the new one. Neither needs approval: no data is lost.
pub proof fn law_configurations_are_replaced_by_drop_and_create(
    old: TsConfiguration,
    new: TsConfiguration,
    d: Destructiveness,
    target: Catalog,
    source: Catalog,
    policy: PlannerPolicy,
)
    ensures
        emitted_for(
            Change::TsConfiguration(TsConfigurationChange::Replace { from: old, to: new }),
            d,
            target,
            source,
            policy,
        ) =~= emitted_for(
            Change::TsConfiguration(TsConfigurationChange::Drop { qname: old.qname }),
            Destructiveness::Safe,
            target,
            source,
            policy,
        ) + emitted_for(Change::TsConfiguration(TsConfigurationChange::Create(new)), Destructiveness::Safe, target, source, policy),
{
    reveal(emit::ts_configuration::ts_configuration_steps);
}

/// A trigger is replaced by dropping it, which needs the approval that the
/// change needs, and creating it again, which needs none; its comment follows.
pub proof fn law_triggers_are_replaced_by_drop_and_create(
    new: Trigger,
    d: Destructiveness,
    target: Catalog,
    source: Catalog,
    policy: PlannerPolicy,
)
    ensures
        emitted_for(Change::Trigger(TriggerChange::Replace(new)), d, target, source, policy)
            =~= emitted_for(
            Change::Trigger(TriggerChange::Drop { qname: new.qname, table: new.table }),
            d,
            target,
            source,
            policy,
        ) + emitted_for(
            Change::Trigger(TriggerChange::Create(new)),
            Destructiveness::Safe,
            target,
            source,
            policy,
        ),
{
    reveal(emit::trigger::trigger_steps);
}

/// An extension is replaced by dropping it, which needs the approval that the
/// change needs, and creating it again, which needs none.
pub proof fn law_extensions_are_replaced_by_drop_and_create(
    new: Extension,
    d: Destructiveness,
    target: Catalog,
    source: Catalog,
    policy: PlannerPolicy,
)
    ensures
        ({
            let steps = emitted_for(
                Change::Extension(ExtensionChange::ReplaceWithCascade(new)),
                d,
                target,
                source,
                policy,
            );
            let dropped = emitted_for(
                Change::Extension(ExtensionChange::Drop(new.name)),
                d,
                target,
                source,
                policy,
            );
            let created = emitted_for(
                Change::Extension(ExtensionChange::Create(new)),
                Destructiveness::Safe,
                target,
                source,
                policy,
            );
            &&& steps.len() == 2
            &&& steps[0] == dropped[0]
            &&& steps[1] == created[0]
        }),
{
    reveal(emit::extension::extension_steps);
}

/// Creating an aggregate is one statement that needs no approval; the steps that
/// would set its owner and its comment follow, where it has them.
pub proof fn law_aggregates_are_created_complete(
    o: Aggregate,
    d: Destructiveness,
    target: Catalog,
    source: Catalog,
    policy: PlannerPolicy,
)
    ensures
        ({
            let steps = emitted_for(
                Change::Aggregate(AggregateChange::Create(o)),
                d,
                target,
                source,
                policy,
            );
            let note = emitted_for(
                Change::Aggregate(
                    AggregateChange::CommentOn {
                        qname: o.qname,
                        arg_types: o.arg_types,
                        comment: o.comment,
                    },
                ),
                d,
                target,
                source,
                policy,
            );
            &&& says(
                steps[0],
                StepKind::CreateAggregate,
                seq![o.qname@],
                emit::aggregate::create_text(o),
            )
            &&& needs_nothing(steps[0])
            &&& o.owner matches Some(owner) ==> steps[1] == emitted_for(
                Change::Aggregate(
                    AggregateChange::AlterOwner { qname: o.qname, arg_types: o.arg_types, owner },
                ),
                d,
                target,
                source,
                policy,
            )[0]
            &&& o.comment is Some ==> steps.last() == note[0]
            &&& steps.len() == 1 + (if o.owner is Some {
                1nat
            } else {
                0nat
            }) + (if o.comment is Some {
                1nat
            } else {
                0nat
            })
        }),
{
    reveal(emit::aggregate::aggregate_steps);
}

/// Creating an event trigger is one statement; the steps that would switch it,
/// set its owner and set its comment follow, where it is not simply enabled and
/// where it has them.
pub proof fn law_event_triggers_are_created_complete(
    o: EventTrigger,
    d: Destructiveness,
    target: Catalog,
    source: Catalog,
    policy: PlannerPolicy,
)
    ensures
        ({
            let steps = emitted_for(
                Change::EventTrigger(EventTriggerChange::Create(o)),
                d,
                target,
                source,
                policy,
            );
            let switch = emitted_for(
                Change::EventTrigger(
                    EventTriggerChange::AlterEnable { name: o.name, enabled: o.enabled },
                ),
                d,
                target,
                source,
                policy,
            );
            let note = emitted_for(
                Change::EventTrigger(
                    EventTriggerChange::CommentOn { name: o.name, comment: o.comment },
                ),
                d,
                target,
                source,
                policy,
            );
            let switched = if o.enabled is Enabled {
                0nat
            } else {
                1nat
            };
            let owned = if o.owner is Some {
                1nat
            } else {
                0nat
            };
            let noted = if o.comment is Some {
                1nat
            } else {
                0nat
            };
            &&& says(
                steps[0],
                StepKind::CreateEventTrigger,
                seq![QnameModel { schema: "pg_event_trigger"@, name: o.name@ }],
                emit::event_trigger::create_text(o),
            )
            &&& needs(steps[0], d)
            &&& steps.len() == 1 + switched + owned + noted
            &&& switched == 1 ==> steps[1] == switch[0]
            &&& o.owner matches Some(owner) ==> steps[1 + switched as int] == emitted_for(
                Change::EventTrigger(EventTriggerChange::AlterOwner { name: o.name, owner }),
                d,
                target,
                source,
                policy,
            )[0]
            &&& noted == 1 ==> steps.last() == note[0]
        }),
{
    reveal(emit::event_trigger::event_trigger_steps);
}

/// An index is built concurrently, and outside a transaction, exactly where the
/// strategy is online, the policy asks for it, the index is on a table that is
/// live, and it is not unique. The step is about the index and its relation. A
/// comment follows, where the index has one.
pub proof fn law_indexes_are_created_concurrently_on_live_tables(
    idx: Index,
    d: Destructiveness,
    target: Catalog,
    source: Catalog,
    policy: PlannerPolicy,
)
    ensures
        ({
            let steps = emitted_for(Change::CreateIndex(idx), d, target, source, policy);
            let concurrently = policy.strategy == Strategy::Online
                && policy.online.create_index_concurrent && (idx.on matches IndexParent::Table(q)
                && is_live(target, q)) && !idx.unique;
            let relation = match idx.on {
                IndexParent::Table(q) => q@,
                IndexParent::Mv(q) => q@,
            };
            &&& needs(steps[0], d)
            &&& if concurrently {
                says_outside(
                    steps[0],
                    StepKind::CreateIndexConcurrent,
                    seq![idx.qname@, relation],
                    create_index_sql(idx, true),
                )
            } else {
                says(
                    steps[0],
                    StepKind::CreateIndex,
                    seq![idx.qname@, relation],
                    create_index_sql(idx, false),
                )
            }
            &&& match idx.comment {
                Some(text) => steps.len() == 2 && needs_nothing(steps[1]) && says(
                    steps[1],
                    StepKind::SetColumnComment,
                    seq![idx.qname@],
                    "COMMENT ON INDEX "@ + idx.qname@.sql() + " IS '"@ + doubled(text@, '\'')
                        + "';"@,
                ),
                None => steps.len() == 1,
            }
        }),
{
    reveal(emit::index::create_steps);
    if let IndexParent::Table(q) = idx.on {
        lemma_live(target, q);
    }
}

proof fn lemma_live(target: Catalog, q: QualifiedName)
    ensures
        target.has_table(q) == is_live(target, q),
{
    if target.has_table(q) {
        let i = choose|i: int|
            0 <= i < target.tables@.len() && #[trigger] target.tables@[i].qname@ == q@;
        assert(target.tables@[i].qname@ == q@);
    }
    if is_live(target, q) {
        let i = choose|i: int|
            0 <= i < target.tables@.len() && (#[trigger] target.tables@[i]).qname@ == q@;
        assert(target.tables@[i].qname@ == q@);
    }
}

/// The live catalog has one index of that name, at `k`.
pub open spec fn is_only_index(c: Catalog, q: QualifiedName, k: int) -> bool {
    &&& 0 <= k < c.indexes@.len()
    &&& c.indexes@[k].qname@ == q@
    &&& forall|n: int| 0 <= n < c.indexes@.len() && n != k ==> (#[trigger] c.indexes@[n]).qname@ != q@
}

/// An index is dropped concurrently, and outside a transaction, exactly where
/// the strategy is online, the policy asks for it, and the live catalog knows
/// the index as one that is not unique.
pub proof fn law_indexes_are_dropped_concurrently_where_known(
    q: QualifiedName,
    k: int,
    d: Destructiveness,
    target: Catalog,
    source: Catalog,
    policy: PlannerPolicy,
)
    requires
        is_only_index(target, q, k) || forall|n: int|
            0 <= n < target.indexes@.len() ==> (#[trigger] target.indexes@[n]).qname@ != q@,
    ensures
        ({
            let steps = emitted_for(Change::DropIndex(q), d, target, source, policy);
            let concurrently = policy.strategy == Strategy::Online
                && policy.online.create_index_concurrent && is_only_index(target, q, k)
                && !target.indexes@[k].unique;
            &&& steps.len() == 1
            &&& needs(steps[0], d)
            &&& if concurrently {
                says_outside(
                    steps[0],
                    StepKind::DropIndexConcurrent,
                    seq![q@],
                    "DROP INDEX CONCURRENTLY "@ + q@.sql() + ";"@,
                )
            } else {
                says(
                    steps[0],
                    StepKind::DropIndex,
                    seq![q@],
                    "DROP INDEX "@ + q@.sql() + ";"@,
                )
            }
        }),
{
    reveal(emit::index::drop_steps);
    let list = target.indexes@;
    if is_only_index(target, q, k) {
        assert(crate::plan::rewrite::concurrent_index::is_first_index(list, q, k));
        assert forall|i: int| #[trigger]
            crate::plan::rewrite::concurrent_index::is_first_index(list, q, i) implies i == k by {
            assert(list[i].qname@ == q@);
        }
    } else {
        assert forall|i: int| !#[trigger]
            crate::plan::rewrite::concurrent_index::is_first_index(list, q, i) by {
            if 0 <= i < list.len() {
                assert(list[i].qname@ != q@);
            }
        }
    }
}

/// An index is replaced by dropping the old one and creating the new one, each
/// as it would be on its own; neither needs approval, and no comment follows.
pub proof fn law_indexes_are_replaced_by_drop_and_create(
    old: Index,
    new: Index,
    d: Destructiveness,
    target: Catalog,
    source: Catalog,
    policy: PlannerPolicy,
)
    ensures
        ({
            let steps = emitted_for(
                Change::ReplaceIndex { from: old, to: new },
                d,
                target,
                source,
                policy,
            );
            let safe = Destructiveness::Safe;
            &&& steps.len() == 2
            &&& steps[0] == emitted_for(Change::DropIndex(old.qname), safe, target, source, policy)[0]
            &&& steps[1] == emitted_for(Change::CreateIndex(new), safe, target, source, policy)[0]
        }),
{
    reveal(emit::index::replace_steps);
    reveal(emit::index::drop_steps);
    reveal(emit::index::create_steps);
}

/// An invalid index is recreated by dropping it and creating it as the desired
/// catalog has it; where that does not have it, it is only dropped.
pub proof fn law_indexes_are_recreated_as_desired(
    q: QualifiedName,
    k: int,
    d: Destructiveness,
    target: Catalog,
    source: Catalog,
    policy: PlannerPolicy,
)
    requires
        is_only_index(source, q, k) || forall|n: int|
            0 <= n < source.indexes@.len() ==> (#[trigger] source.indexes@[n]).qname@ != q@,
    ensures
        ({
            let steps = emitted_for(
                Change::RecreateIndex { qname: q },
                d,
                target,
                source,
                policy,
            );
            let safe = Destructiveness::Safe;
            &&& steps[0] == emitted_for(Change::DropIndex(q), safe, target, source, policy)[0]
            &&& if is_only_index(source, q, k) {
                &&& steps.len() == 2
                &&& steps[1] == emitted_for(
                    Change::CreateIndex(source.indexes@[k]),
                    safe,
                    target,
                    source,
                    policy,
                )[0]
            } else {
                steps.len() == 1
            }
        }),
{
    reveal(emit::index::recreate_steps);
    reveal(emit::index::drop_steps);
    reveal(emit::index::create_steps);
    let list = source.indexes@;
    if is_only_index(source, q, k) {
        assert(crate::plan::rewrite::concurrent_index::is_first_index(list, q, k));
        assert forall|i: int| #[trigger]
            crate::plan::rewrite::concurrent_index::is_first_index(list, q, i) implies i == k by {
            assert(list[i].qname@ == q@);
        }
    } else {
        assert forall|i: int| !#[trigger]
            crate::plan::rewrite::concurrent_index::is_first_index(list, q, i) by {
            if 0 <= i < list.len() {
                assert(list[i].qname@ != q@);
            }
        }
    }
}

/// Altering a sequence is one step for each operation, in order, and each
/// operation sets what it is about.
pub proof fn law_sequences_take_each_operation(
    q: QualifiedName,
    ops: Vec<SequenceOpEntry>,
    i: int,
    d: Destructiveness,
    target: Catalog,
    source: Catalog,
    policy: PlannerPolicy,
)
    requires
        0 <= i < ops@.len(),
    ensures
        ({
            let steps = emitted_for(
                Change::AlterSequence { qname: q, ops },
                d,
                target,
                source,
                policy,
            );
            let head = "ALTER SEQUENCE "@ + q@.sql();
            &&& steps.len() == ops@.len()
            &&& needs(steps[i], ops@[i].destructiveness)
            &&& says(
                steps[i],
                StepKind::AlterSequence,
                seq![q@],
                match ops@[i].op {
                    SequenceOp::SetIncrement(n) => head + " INCREMENT BY "@ + decimal(n as int)
                        + ";"@,
                    SequenceOp::SetMinValue(Some(n)) => head + (" "@ + "MINVALUE"@ + " "@ + decimal(
                        n as int,
                    )) + ";"@,
                    SequenceOp::SetMinValue(None) => head + (" NO "@ + "MINVALUE"@) + ";"@,
                    SequenceOp::SetMaxValue(Some(n)) => head + (" "@ + "MAXVALUE"@ + " "@ + decimal(
                        n as int,
                    )) + ";"@,
                    SequenceOp::SetMaxValue(None) => head + (" NO "@ + "MAXVALUE"@) + ";"@,
                    SequenceOp::SetCache(n) => head + " CACHE "@ + decimal(n as int) + ";"@,
                    SequenceOp::SetCycle(on) => head + if on {
                        " CYCLE;"@
                    } else {
                        " NO CYCLE;"@
                    },
                    SequenceOp::SetDataType(ty) => head + " AS "@ + type_sql(ty) + ";"@,
                    SequenceOp::SetOwnedBy(Some(o)) => head + " OWNED BY "@ + o.table@.sql() + "."@
                        + name_sql(o.column@) + ";"@,
                    SequenceOp::SetOwnedBy(None) => head + " OWNED BY NONE;"@,
                },
            )
        }),
{
}

/// Creating a sequence is one statement that needs no approval; a step that sets
/// its comment follows, where it has one.
pub proof fn law_sequences_are_created_with_their_comment(
    o: Sequence,
    d: Destructiveness,
    target: Catalog,
    source: Catalog,
    policy: PlannerPolicy,
)
    ensures
        ({
            let steps = emitted_for(Change::CreateSequence(o), d, target, source, policy);
            &&& says(
                steps[0],
                StepKind::CreateSequence,
                seq![o.qname@],
                create_sequence_sql(o),
            )
            &&& needs_nothing(steps[0])
            &&& match o.comment {
                Some(text) => steps.len() == 2 && needs_nothing(steps[1]) && says(
                    steps[1],
                    StepKind::AlterSequence,
                    seq![o.qname@],
                    "COMMENT ON SEQUENCE "@ + o.qname@.sql() + " IS '"@ + doubled(text@, '\'')
                        + "';"@,
                ),
                None => steps.len() == 1,
            }
        }),
{
    reveal(emit::sequence::create_steps);
}

/// Creating, dropping and altering a table are the steps that the laws on tables
/// speak of, with the approval that the change needs.
pub proof fn law_tables_are_emitted_by_their_own_laws(
    t: Table,
    q: QualifiedName,
    rows: Option<u64>,
    ops: Vec<TableOpEntry>,
    d: Destructiveness,
    target: Catalog,
    source: Catalog,
    policy: PlannerPolicy,
)
    ensures
        ({
            let reason = match d {
                Destructiveness::Safe => None,
                Destructiveness::RequiresApproval { reason } => Some(reason@),
                Destructiveness::RequiresApprovalAndDataLossWarning { reason } => Some(reason@),
            };
            &&& emitted_for(Change::CreateTable(t), d, target, source, policy)
                == emit::table::create_steps(t, reason is Some, reason)
            &&& emitted_for(
                Change::DropTable { qname: q, row_count_estimate: rows },
                d,
                target,
                source,
                policy,
            ) == emit::table::drop_steps(q, reason is Some, reason)
            &&& emitted_for(Change::AlterTable { qname: q, ops }, d, target, source, policy)
                == emit::table::alter_steps(q, ops@, target, policy)
        }),
{
}

/// A deferred foreign key is added to its own table, needs no approval, and is
/// added and validated in one statement.
pub proof fn law_deferred_keys_are_added_to_their_table(fk: DeferredFkAdd)
    ensures
        ({
            let steps = emit::deferred_fk::deferred_fk_steps(fk);
            &&& steps.len() == 1
            &&& needs_nothing(steps[0])
            &&& says(
                steps[0],
                StepKind::AddConstraint,
                seq![fk.table@],
                "ALTER TABLE "@ + fk.table@.sql() + " ADD "@ + constraint_sql(fk.constraint) + ";"@,
            )
        }),
{
}

/// The kind of a type that a comment speaks of is looked up in the desired
/// catalog first and in the live one where that does not have it.
pub proof fn law_type_comments_speak_of_the_desired_kind(
    q: QualifiedName,
    comment: Option<String>,
    i: int,
    d: Destructiveness,
    target: Catalog,
    source: Catalog,
    policy: PlannerPolicy,
)
    ensures
        ({
            let steps = emitted_for(
                Change::UserType(UserTypeChange::SetComment { qname: q, comment }),
                d,
                target,
                source,
                policy,
            );
            let tail = match comment {
                Some(text) => " IS '"@ + doubled(text@, '\'') + "';"@,
                None => " IS NULL;"@,
            };
            let of_domain = "COMMENT ON DOMAIN "@ + q@.sql();
            let of_type = "COMMENT ON TYPE "@ + q@.sql();
            &&& steps.len() == 1
            &&& needs_nothing(steps[0])
            &&& steps[0].kind is CommentOnType
            &&& steps[0].targets == seq![q@]
            &&& is_only_type(source.types@, q, i) ==> steps[0].sql =~= if source.types@[i].kind
                is Domain {
                of_domain + tail
            } else {
                of_type + tail
            }
            &&& lacks_type(source.types@, q) && is_only_type(target.types@, q, i)
                ==> steps[0].sql =~= if target.types@[i].kind is Domain {
                of_domain + tail
            } else {
                of_type + tail
            }
            &&& lacks_type(source.types@, q) && lacks_type(target.types@, q) ==> steps[0].sql
                =~= of_type + tail
        }),
{
    reveal(emit::user_type::user_type_steps);
    lemma_first_type(source.types@, q, i);
    lemma_first_type(target.types@, q, i);
}

/// The list has one type of that name, at `i`.
pub open spec fn is_only_type(list: Seq<UserType>, q: QualifiedName, i: int) -> bool {
    &&& 0 <= i < list.len()
    &&& list[i].qname@ == q@
    &&& forall|k: int| 0 <= k < list.len() && k != i ==> (#[trigger] list[k]).qname@ != q@
}

/// The list has no type of that name.
pub open spec fn lacks_type(list: Seq<UserType>, q: QualifiedName) -> bool {
    forall|k: int| 0 <= k < list.len() ==> (#[trigger] list[k]).qname@ != q@
}

proof fn lemma_first_type(list: Seq<UserType>, q: QualifiedName, i: int)
    ensures
        is_only_type(list, q, i) ==> emit::user_type::first_is_domain(list, q) == Some(
            list[i].kind is Domain,
        ),
        lacks_type(list, q) ==> emit::user_type::first_is_domain(list, q) is None,
    decreases list.len(),
{
    if list.len() > 0 {
        let rest = list.drop_first();
        lemma_first_type(rest, q, i - 1);
        if is_only_type(list, q, i) && i > 0 {
            assert(list[0].qname@ != q@);
            assert forall|k: int| 0 <= k < rest.len() && k != i - 1 implies (
            #[trigger] rest[k]).qname@ != q@ by {
                assert(rest[k] == list[k + 1]);
            }
            assert(is_only_type(rest, q, i - 1));
        }
        if lacks_type(list, q) {
            assert(list[0].qname@ != q@);
            assert forall|k: int| 0 <= k < rest.len() implies (#[trigger] rest[k]).qname@ != q@ by {
                assert(rest[k] == list[k + 1]);
            }
        }
    }
}

/// Changing the check option of a view creates the view in place as the desired
/// catalog has it.
pub proof fn law_check_options_are_set_by_the_desired_view(
    q: QualifiedName,
    check_option: Option<crate::ir::view::CheckOption>,
    i: int,
    d: Destructiveness,
    target: Catalog,
    source: Catalog,
    policy: PlannerPolicy,
)
    requires
        0 <= i < source.views@.len(),
        source.views@[i].qname@ == q@,
        forall|k: int|
            0 <= k < source.views@.len() && k != i ==> (#[trigger] source.views@[k]).qname@ != q@,
    ensures
        ({
            let steps = emitted_for(
                Change::AlterViewSetCheckOption { qname: q, check_option },
                d,
                target,
                source,
                policy,
            );
            &&& steps.len() == 1
            &&& needs_nothing(steps[0])
            &&& says(
                steps[0],
                StepKind::AlterViewSetCheckOption,
                seq![q@],
                create_view_sql(source.views@[i], true),
            )
        }),
{
    reveal(crate::plan::rewrite::check_option_steps);
    assert(crate::plan::recreate_views::first_view(source, q@, i));
    assert forall|k: int| #[trigger] crate::plan::recreate_views::first_view(
        source,
        q@,
        k,
    ) implies k == i by {
        assert(source.views@[k].qname@ == q@);
    }
}

/// A plan's steps are those of the creates, then those of the modifies, then
/// those of the drops, and then those of the deferred keys; within each, those
/// of one entry follow those of the entry before it.
pub proof fn law_phases_are_emitted_one_after_the_other(
    ordered: OrderedChangeSet,
    first: Seq<ChangeEntry>,
    second: Seq<ChangeEntry>,
    one: ChangeEntry,
    target: Catalog,
    source: Catalog,
    policy: PlannerPolicy,
)
    ensures
        emitted(ordered, target, source, policy) =~= all_steps(
            ordered.creates_and_adds@,
            target,
            source,
            policy,
        ) + (all_steps(ordered.modifies@, target, source, policy) + (all_steps(
            ordered.drops@,
            target,
            source,
            policy,
        ) + fk_steps(ordered.deferred_fks@))),
        all_steps(first + second, target, source, policy) == all_steps(
            first,
            target,
            source,
            policy,
        ) + all_steps(second, target, source, policy),
        all_steps(seq![one], target, source, policy) =~= change_steps(one, target, source, policy),
    decreases first.len(),
{
    reveal_with_fuel(all_steps, 3);
    assert(seq![one].drop_first() =~= Seq::empty());
    if first.len() == 0 {
        assert(first + second =~= second);
        assert(all_steps(first, target, source, policy) + all_steps(second, target, source, policy)
            =~= all_steps(second, target, source, policy));
    } else {
        let rest = first.drop_first();
        law_phases_are_emitted_one_after_the_other(
            ordered,
            rest,
            second,
            one,
            target,
            source,
            policy,
        );
        assert((first + second).drop_first() =~= rest + second);
        assert((first + second)[0] == first[0]);
        assert(all_steps(first + second, target, source, policy) =~= all_steps(
            first,
            target,
            source,
            policy,
        ) + all_steps(second, target, source, policy));
    }
}

/// A refresh is made concurrent exactly where the strategy is online, the policy
/// asks for it, and the desired catalog has a unique index on that materialized
/// view; every other step stays as it is.
pub proof fn law_refreshes_are_concurrent_where_an_index_is_unique(
    steps: Seq<StepModel>,
    i: int,
    source: Catalog,
    policy: PlannerPolicy,
)
    requires
        0 <= i < steps.len(),
    ensures
        ({
            let after = upgraded_all(steps, source, policy)[i];
            let wanted = policy.strategy == Strategy::Online
                && policy.online.refresh_mv_concurrently && steps[i].kind
                is RefreshMaterializedView && steps[i].targets.len() == 1 && exists|k: int|
                0 <= k < source.indexes@.len() && (#[trigger] source.indexes@[k]).unique && (
                source.indexes@[k].on matches IndexParent::Mv(q) && q@ == steps[i].targets[0]);
            &&& after.sql == if wanted {
                "REFRESH MATERIALIZED VIEW CONCURRENTLY "@ + steps[i].targets[0].sql() + ";"@
            } else {
                steps[i].sql
            }
            &&& (StepModel { sql: steps[i].sql, ..after }) == steps[i]
        }),
{
    if steps[i].targets.len() == 1 {
        let q = steps[i].targets[0];
        let has = crate::plan::rewrite::refresh_mv_concurrently::has_unique_index(source, q);
        if has {
            let k = choose|k: int|
                0 <= k < source.indexes@.len()
                    && crate::plan::rewrite::refresh_mv_concurrently::is_unique_on(
                    #[trigger] source.indexes@[k],
                    q,
                );
            assert(source.indexes@[k].unique);
        }
        if exists|k: int|
            0 <= k < source.indexes@.len() && (#[trigger] source.indexes@[k]).unique && (
            source.indexes@[k].on matches IndexParent::Mv(x) && x@ == q) {
            let k = choose|k: int|
                0 <= k < source.indexes@.len() && (#[trigger] source.indexes@[k]).unique && (
                source.indexes@[k].on matches IndexParent::Mv(x) && x@ == q);
            assert(crate::plan::rewrite::refresh_mv_concurrently::is_unique_on(
                source.indexes@[k],
                q,
            ));
        }
    }
}

/// Deferred keys become one step each, in their order.
pub proof fn law_deferred_keys_become_one_step_each(fks: Seq<DeferredFkAdd>, i: int)
    requires
        0 <= i < fks.len(),
    ensures
        fk_steps(fks).len() == fks.len(),
        fk_steps(fks)[i] == emit::deferred_fk::deferred_fk_steps(fks[i])[0],
    decreases fks.len(),
{
    reveal_with_fuel(fk_steps, 2);
    let rest = fks.drop_last();
    if i < rest.len() {
        assert(rest[i] == fks[i]);
    }
    if rest.len() > 0 {
        law_deferred_keys_become_one_step_each(
            rest,
            if i < rest.len() {
                i
            } else {
                0
            },
        );
    }
}

proof fn lemma_view_column_comment_set(q: QualifiedName, columns: Seq<ViewColumn>, j: int)
    requires
        0 <= j < columns.len(),
        columns[j].comment is Some,
    ensures
        comments(
            emit::view::column_comments(q, columns),
            StepKind::CommentOnView,
            "COMMENT ON COLUMN "@ + q@.sql() + "."@ + name_sql(columns[j].name@),
            columns[j].comment->Some_0@,
        ),
    decreases columns.len(),
{
    let rest = columns.drop_last();
    let steps = emit::view::column_comments(q, columns);
    if j < rest.len() {
        lemma_view_column_comment_set(q, rest, j);
        let before = emit::view::column_comments(q, rest);
        let head = "COMMENT ON COLUMN "@ + q@.sql() + "."@ + name_sql(rest[j].name@);
        let k = choose|k: int|
            0 <= k < before.len() && (#[trigger] before[k]).kind == StepKind::CommentOnView
                && before[k].sql == head + " IS '"@ + doubled(rest[j].comment->Some_0@, '\'')
                + "';"@;
        assert(steps[k] == before[k]);
    } else {
        assert(steps[steps.len() - 1].kind is CommentOnView);
    }
}

/// Creating a view or a materialized view sets the comment of each column that
/// has one.
pub proof fn law_created_views_comment_their_columns(
    v: ViewDefinition,
    mv: MaterializedView,
    j: int,
    d: Destructiveness,
    target: Catalog,
    source: Catalog,
    policy: PlannerPolicy,
)
    ensures
        0 <= j < v.columns@.len() && v.columns@[j].comment is Some ==> comments(
            emitted_for(Change::View(ViewChange::Create(v)), d, target, source, policy),
            StepKind::CommentOnView,
            "COMMENT ON COLUMN "@ + v.qname@.sql() + "."@ + name_sql(v.columns@[j].name@),
            v.columns@[j].comment->Some_0@,
        ),
        0 <= j < mv.columns@.len() && mv.columns@[j].comment is Some ==> comments(
            emitted_for(Change::Mv(MvChange::Create(mv)), d, target, source, policy),
            StepKind::CommentOnView,
            "COMMENT ON COLUMN "@ + mv.qname@.sql() + "."@ + name_sql(mv.columns@[j].name@),
            mv.columns@[j].comment->Some_0@,
        ),
{
    reveal(emit::view::view_steps);
    reveal(emit::mv::mv_steps);
    if 0 <= j < v.columns@.len() && v.columns@[j].comment is Some {
        let steps = emitted_for(Change::View(ViewChange::Create(v)), d, target, source, policy);
        let tail = emit::view::column_comments(v.qname, v.columns@);
        lemma_view_column_comment_set(v.qname, v.columns@, j);
        lemma_comments_behind(
            steps.take(steps.len() - tail.len()),
            tail,
            StepKind::CommentOnView,
            "COMMENT ON COLUMN "@ + v.qname@.sql() + "."@ + name_sql(v.columns@[j].name@),
            v.columns@[j].comment->Some_0@,
        );
        assert(steps =~= steps.take(steps.len() - tail.len()) + tail);
    }
    if 0 <= j < mv.columns@.len() && mv.columns@[j].comment is Some {
        let steps = emitted_for(Change::Mv(MvChange::Create(mv)), d, target, source, policy);
        let tail = emit::view::column_comments(mv.qname, mv.columns@);
        lemma_view_column_comment_set(mv.qname, mv.columns@, j);
        lemma_comments_behind(
            steps.take(steps.len() - tail.len()),
            tail,
            StepKind::CommentOnView,
            "COMMENT ON COLUMN "@ + mv.qname@.sql() + "."@ + name_sql(mv.columns@[j].name@),
            mv.columns@[j].comment->Some_0@,
        );
        assert(steps =~= steps.take(steps.len() - tail.len()) + tail);
    }
}

proof fn lemma_comments_behind(
    front: Seq<StepModel>,
    back: Seq<StepModel>,
    kind: StepKind,
    head: Seq<char>,
    text: Seq<char>,
)
    requires
        comments(back, kind, head, text),
    ensures
        comments(front + back, kind, head, text),
{
    let k = choose|k: int|
        0 <= k < back.len() && (#[trigger] back[k]).kind == kind && back[k].sql == head + " IS '"@
            + doubled(text, '\'') + "';"@;
    assert((front + back)[front.len() + k] == back[k]);
}

/// Creating a text search configuration is its own statement, then the step that
/// would add each mapping, in order, then those that would set its owner and its
/// comment, where it has them; none needs approval.
pub proof fn law_configurations_are_created_complete(
    o: TsConfiguration,
    i: int,
    d: Destructiveness,
    target: Catalog,
    source: Catalog,
    policy: PlannerPolicy,
)
    ensures
        ({
            let steps = emitted_for(
                Change::TsConfiguration(TsConfigurationChange::Create(o)),
                d,
                target,
                source,
                policy,
            );
            let n = o.mappings@.len();
            let owned = if o.owner is Some {
                1nat
            } else {
                0nat
            };
            let noted = if o.comment is Some {
                1nat
            } else {
                0nat
            };
            &&& steps.len() == 1 + n + owned + noted
            &&& says(
                steps[0],
                StepKind::CreateTsConfiguration,
                seq![o.qname@],
                emit::ts_configuration::create_text(o),
            )
            &&& needs_nothing(steps[0])
            &&& 0 <= i < n ==> steps[1 + i] == emitted_for(
                Change::TsConfiguration(
                    TsConfigurationChange::AddMapping {
                        qname: o.qname,
                        token_type: o.mappings@[i].token_type,
                        dictionaries: o.mappings@[i].dictionaries,
                    },
                ),
                d,
                target,
                source,
                policy,
            )[0]
            &&& o.owner matches Some(owner) ==> steps[1 + n as int] == emitted_for(
                Change::TsConfiguration(
                    TsConfigurationChange::AlterOwner { qname: o.qname, owner },
                ),
                d,
                target,
                source,
                policy,
            )[0]
            &&& o.comment is Some ==> steps.last() == emitted_for(
                Change::TsConfiguration(
                    TsConfigurationChange::CommentOn { qname: o.qname, comment: o.comment },
                ),
                d,
                target,
                source,
                policy,
            )[0]
        }),
{
    reveal(emit::ts_configuration::ts_configuration_steps);
}

/// Creating a text search dictionary is its own statement, then the steps that
/// would set its owner and its comment, where it has them; none needs approval.
pub proof fn law_dictionaries_are_created_complete(
    o: TsDictionary,
    d: Destructiveness,
    target: Catalog,
    source: Catalog,
    policy: PlannerPolicy,
)
    ensures
        ({
            let steps = emitted_for(
                Change::TsDictionary(TsDictionaryChange::Create(o)),
                d,
                target,
                source,
                policy,
            );
            &&& steps.len() == 1 + (if o.owner is Some {
                1nat
            } else {
                0nat
            }) + (if o.comment is Some {
                1nat
            } else {
                0nat
            })
            &&& says(
                steps[0],
                StepKind::CreateTsDictionary,
                seq![o.qname@],
                emit::ts_dictionary::create_text(o),
            )
            &&& needs_nothing(steps[0])
            &&& o.owner matches Some(owner) ==> steps[1] == emitted_for(
                Change::TsDictionary(TsDictionaryChange::AlterOwner { qname: o.qname, owner }),
                d,
                target,
                source,
                policy,
            )[0]
            &&& o.comment is Some ==> steps.last() == emitted_for(
                Change::TsDictionary(
                    TsDictionaryChange::CommentOn { qname: o.qname, comment: o.comment },
                ),
                d,
                target,
                source,
                policy,
            )[0]
        }),
{
    reveal(emit::ts_dictionary::ts_dictionary_steps);
}

} // verus!
