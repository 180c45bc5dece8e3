//! The names of step kinds in directive comments and intent rows.

use crate::plan::raw_step::StepKind;
use crate::text::text_eq;
use vstd::prelude::*;

verus! {

/// The snake-case name of a step kind.
pub open spec fn kind_text(k: StepKind) -> Seq<char> {
    match k {
        StepKind::CreateSchema => "create_schema"@,
        StepKind::DropSchema => "drop_schema"@,
        StepKind::AlterSchemaComment => "alter_schema_comment"@,
        StepKind::CreateTable => "create_table"@,
        StepKind::DropTable => "drop_table"@,
        StepKind::AlterTableSetComment => "alter_table_set_comment"@,
        StepKind::AlterTableSetTablespace => "alter_table_set_tablespace"@,
        StepKind::AddColumn => "add_column"@,
        StepKind::DropColumn => "drop_column"@,
        StepKind::AlterColumnType => "alter_column_type"@,
        StepKind::SetColumnNullable => "set_column_nullable"@,
        StepKind::SetColumnDefault => "set_column_default"@,
        StepKind::SetColumnComment => "set_column_comment"@,
        StepKind::SetColumnIdentity => "set_column_identity"@,
        StepKind::SetColumnGenerated => "set_column_generated"@,
        StepKind::SetColumnStorage => "set_column_storage"@,
        StepKind::SetColumnCompression => "set_column_compression"@,
        StepKind::AddConstraint => "add_constraint"@,
        StepKind::AddConstraintNotValid => "add_constraint_not_valid"@,
        StepKind::ValidateConstraint => "validate_constraint"@,
        StepKind::DropConstraint => "drop_constraint"@,
        StepKind::SetConstraintComment => "set_constraint_comment"@,
        StepKind::CreateIndex => "create_index"@,
        StepKind::CreateIndexConcurrent => "create_index_concurrent"@,
        StepKind::DropIndex => "drop_index"@,
        StepKind::DropIndexConcurrent => "drop_index_concurrent"@,
        StepKind::CreateSequence => "create_sequence"@,
        StepKind::DropSequence => "drop_sequence"@,
        StepKind::AlterSequence => "alter_sequence"@,
        StepKind::AddCheckForNotNull => "add_check_for_not_null"@,
        StepKind::CreateView => "create_view"@,
        StepKind::DropView => "drop_view"@,
        StepKind::AlterViewSetCheckOption => "alter_view_set_check_option"@,
        StepKind::CreateMaterializedView => "create_materialized_view"@,
        StepKind::DropMaterializedView => "drop_materialized_view"@,
        StepKind::RefreshMaterializedView => "refresh_materialized_view"@,
        StepKind::AlterViewSetReloption => "alter_view_set_reloption"@,
        StepKind::CommentOnView => "comment_on_view"@,
        StepKind::CreateType => "create_type"@,
        StepKind::DropType => "drop_type"@,
        StepKind::AlterTypeAddValue => "alter_type_add_value"@,
        StepKind::AlterTypeRenameValue => "alter_type_rename_value"@,
        StepKind::AlterDomainAddConstraint => "alter_domain_add_constraint"@,
        StepKind::AlterDomainDropConstraint => "alter_domain_drop_constraint"@,
        StepKind::AlterDomainSetDefault => "alter_domain_set_default"@,
        StepKind::AlterDomainSetNotNull => "alter_domain_set_not_null"@,
        StepKind::AlterTypeAddAttribute => "alter_type_add_attribute"@,
        StepKind::AlterTypeDropAttribute => "alter_type_drop_attribute"@,
        StepKind::AlterTypeAlterAttributeType => "alter_type_alter_attribute_type"@,
        StepKind::CommentOnType => "comment_on_type"@,
        StepKind::CreateOrReplaceFunction => "create_or_replace_function"@,
        StepKind::DropFunction => "drop_function"@,
        StepKind::CommentOnFunction => "comment_on_function"@,
        StepKind::CreateOrReplaceProcedure => "create_or_replace_procedure"@,
        StepKind::DropProcedure => "drop_procedure"@,
        StepKind::CommentOnProcedure => "comment_on_procedure"@,
        StepKind::CreateExtension => "create_extension"@,
        StepKind::DropExtension => "drop_extension"@,
        StepKind::AlterExtensionUpdate => "alter_extension_update"@,
        StepKind::CommentOnExtension => "comment_on_extension"@,
        StepKind::CreateTrigger => "create_trigger"@,
        StepKind::DropTrigger => "drop_trigger"@,
        StepKind::CommentOnTrigger => "comment_on_trigger"@,
        StepKind::AttachPartition => "attach_partition"@,
        StepKind::DetachPartition => "detach_partition"@,
        StepKind::CreateRole => "create_role"@,
        StepKind::DropRole => "drop_role"@,
        StepKind::AlterRole => "alter_role"@,
        StepKind::GrantRoleMembership => "grant_role_membership"@,
        StepKind::RevokeRoleMembership => "revoke_role_membership"@,
        StepKind::CommentOnRole => "comment_on_role"@,
        StepKind::CreateTablespace => "create_tablespace"@,
        StepKind::DropTablespace => "drop_tablespace"@,
        StepKind::AlterTablespaceOwner => "alter_tablespace_owner"@,
        StepKind::SetTablespaceOptions => "set_tablespace_options"@,
        StepKind::CommentOnTablespace => "comment_on_tablespace"@,
        StepKind::AlterObjectOwner => "alter_object_owner"@,
        StepKind::GrantObjectPrivilege => "grant_object_privilege"@,
        StepKind::RevokeObjectPrivilege => "revoke_object_privilege"@,
        StepKind::GrantColumnPrivilege => "grant_column_privilege"@,
        StepKind::RevokeColumnPrivilege => "revoke_column_privilege"@,
        StepKind::AlterDefaultPrivileges => "alter_default_privileges"@,
        StepKind::CreatePolicy => "create_policy"@,
        StepKind::DropPolicy => "drop_policy"@,
        StepKind::AlterPolicy => "alter_policy"@,
        StepKind::SetTableRowSecurity => "set_table_row_security"@,
        StepKind::SetTableForceRowSecurity => "set_table_force_row_security"@,
        StepKind::SetTableStorage => "set_table_storage"@,
        StepKind::SetIndexStorage => "set_index_storage"@,
        StepKind::SetMaterializedViewStorage => "set_materialized_view_storage"@,
        StepKind::CreatePublication => "create_publication"@,
        StepKind::DropPublication => "drop_publication"@,
        StepKind::ReplacePublication => "replace_publication"@,
        StepKind::AlterPublicationAddTable => "alter_publication_add_table"@,
        StepKind::AlterPublicationDropTable => "alter_publication_drop_table"@,
        StepKind::AlterPublicationSetTable => "alter_publication_set_table"@,
        StepKind::AlterPublicationAddSchema => "alter_publication_add_schema"@,
        StepKind::AlterPublicationDropSchema => "alter_publication_drop_schema"@,
        StepKind::AlterPublicationSetPublish => "alter_publication_set_publish"@,
        StepKind::AlterPublicationSetViaRoot => "alter_publication_set_via_root"@,
        StepKind::CommentOnPublication => "comment_on_publication"@,
        StepKind::CreateSubscription => "create_subscription"@,
        StepKind::DropSubscription => "drop_subscription"@,
        StepKind::AlterSubscriptionConnection => "alter_subscription_connection"@,
        StepKind::AlterSubscriptionAddPublication => "alter_subscription_add_publication"@,
        StepKind::AlterSubscriptionDropPublication => "alter_subscription_drop_publication"@,
        StepKind::AlterSubscriptionSetOptions => "alter_subscription_set_options"@,
        StepKind::CommentOnSubscription => "comment_on_subscription"@,
        StepKind::CreateStatistic => "create_statistic"@,
        StepKind::DropStatistic => "drop_statistic"@,
        StepKind::ReplaceStatistic => "replace_statistic"@,
        StepKind::AlterStatisticSetTarget => "alter_statistic_set_target"@,
        StepKind::CommentOnStatistic => "comment_on_statistic"@,
        StepKind::CreateCollation => "create_collation"@,
        StepKind::DropCollation => "drop_collation"@,
        StepKind::RenameCollation => "rename_collation"@,
        StepKind::ReplaceCollation => "replace_collation"@,
        StepKind::CommentOnCollation => "comment_on_collation"@,
        StepKind::CreateEventTrigger => "create_event_trigger"@,
        StepKind::DropEventTrigger => "drop_event_trigger"@,
        StepKind::AlterEventTriggerEnable => "alter_event_trigger_enable"@,
        StepKind::AlterEventTriggerOwner => "alter_event_trigger_owner"@,
        StepKind::CommentOnEventTrigger => "comment_on_event_trigger"@,
        StepKind::CreateAggregate => "create_aggregate"@,
        StepKind::DropAggregate => "drop_aggregate"@,
        StepKind::AlterAggregateOwner => "alter_aggregate_owner"@,
        StepKind::CommentOnAggregate => "comment_on_aggregate"@,
        StepKind::CreateCast => "create_cast"@,
        StepKind::DropCast => "drop_cast"@,
        StepKind::CommentOnCast => "comment_on_cast"@,
        StepKind::CreateTsDictionary => "create_ts_dictionary"@,
        StepKind::DropTsDictionary => "drop_ts_dictionary"@,
        StepKind::AlterTsDictionary => "alter_ts_dictionary"@,
        StepKind::AlterTsDictionaryOwner => "alter_ts_dictionary_owner"@,
        StepKind::CommentOnTsDictionary => "comment_on_ts_dictionary"@,
        StepKind::CreateTsConfiguration => "create_ts_configuration"@,
        StepKind::DropTsConfiguration => "drop_ts_configuration"@,
        StepKind::AddTsConfigMapping => "add_ts_config_mapping"@,
        StepKind::AlterTsConfigMapping => "alter_ts_config_mapping"@,
        StepKind::DropTsConfigMapping => "drop_ts_config_mapping"@,
        StepKind::AlterTsConfigurationOwner => "alter_ts_configuration_owner"@,
        StepKind::CommentOnTsConfiguration => "comment_on_ts_configuration"@,
    }
}

/// Human-readable kind name used in directive comments and intent rows.
pub fn kind_name(k: StepKind) -> (name: &'static str)
    ensures
        name@ == kind_text(k),
{
    match k {
        StepKind::CreateSchema => "create_schema",
        StepKind::DropSchema => "drop_schema",
        StepKind::AlterSchemaComment => "alter_schema_comment",
        StepKind::CreateTable => "create_table",
        StepKind::DropTable => "drop_table",
        StepKind::AlterTableSetComment => "alter_table_set_comment",
        StepKind::AlterTableSetTablespace => "alter_table_set_tablespace",
        StepKind::AddColumn => "add_column",
        StepKind::DropColumn => "drop_column",
        StepKind::AlterColumnType => "alter_column_type",
        StepKind::SetColumnNullable => "set_column_nullable",
        StepKind::SetColumnDefault => "set_column_default",
        StepKind::SetColumnComment => "set_column_comment",
        StepKind::SetColumnIdentity => "set_column_identity",
        StepKind::SetColumnGenerated => "set_column_generated",
        StepKind::SetColumnStorage => "set_column_storage",
        StepKind::SetColumnCompression => "set_column_compression",
        StepKind::AddConstraint => "add_constraint",
        StepKind::AddConstraintNotValid => "add_constraint_not_valid",
        StepKind::ValidateConstraint => "validate_constraint",
        StepKind::DropConstraint => "drop_constraint",
        StepKind::SetConstraintComment => "set_constraint_comment",
        StepKind::CreateIndex => "create_index",
        StepKind::CreateIndexConcurrent => "create_index_concurrent",
        StepKind::DropIndex => "drop_index",
        StepKind::DropIndexConcurrent => "drop_index_concurrent",
        StepKind::CreateSequence => "create_sequence",
        StepKind::DropSequence => "drop_sequence",
        StepKind::AlterSequence => "alter_sequence",
        StepKind::AddCheckForNotNull => "add_check_for_not_null",
        StepKind::CreateView => "create_view",
        StepKind::DropView => "drop_view",
        StepKind::AlterViewSetCheckOption => "alter_view_set_check_option",
        StepKind::CreateMaterializedView => "create_materialized_view",
        StepKind::DropMaterializedView => "drop_materialized_view",
        StepKind::RefreshMaterializedView => "refresh_materialized_view",
        StepKind::AlterViewSetReloption => "alter_view_set_reloption",
        StepKind::CommentOnView => "comment_on_view",
        StepKind::CreateType => "create_type",
        StepKind::DropType => "drop_type",
        StepKind::AlterTypeAddValue => "alter_type_add_value",
        StepKind::AlterTypeRenameValue => "alter_type_rename_value",
        StepKind::AlterDomainAddConstraint => "alter_domain_add_constraint",
        StepKind::AlterDomainDropConstraint => "alter_domain_drop_constraint",
        StepKind::AlterDomainSetDefault => "alter_domain_set_default",
        StepKind::AlterDomainSetNotNull => "alter_domain_set_not_null",
        StepKind::AlterTypeAddAttribute => "alter_type_add_attribute",
        StepKind::AlterTypeDropAttribute => "alter_type_drop_attribute",
        StepKind::AlterTypeAlterAttributeType => "alter_type_alter_attribute_type",
        StepKind::CommentOnType => "comment_on_type",
        StepKind::CreateOrReplaceFunction => "create_or_replace_function",
        StepKind::DropFunction => "drop_function",
        StepKind::CommentOnFunction => "comment_on_function",
        StepKind::CreateOrReplaceProcedure => "create_or_replace_procedure",
        StepKind::DropProcedure => "drop_procedure",
        StepKind::CommentOnProcedure => "comment_on_procedure",
        StepKind::CreateExtension => "create_extension",
        StepKind::DropExtension => "drop_extension",
        StepKind::AlterExtensionUpdate => "alter_extension_update",
        StepKind::CommentOnExtension => "comment_on_extension",
        StepKind::CreateTrigger => "create_trigger",
        StepKind::DropTrigger => "drop_trigger",
        StepKind::CommentOnTrigger => "comment_on_trigger",
        StepKind::AttachPartition => "attach_partition",
        StepKind::DetachPartition => "detach_partition",
        StepKind::CreateRole => "create_role",
        StepKind::DropRole => "drop_role",
        StepKind::AlterRole => "alter_role",
        StepKind::GrantRoleMembership => "grant_role_membership",
        StepKind::RevokeRoleMembership => "revoke_role_membership",
        StepKind::CommentOnRole => "comment_on_role",
        StepKind::CreateTablespace => "create_tablespace",
        StepKind::DropTablespace => "drop_tablespace",
        StepKind::AlterTablespaceOwner => "alter_tablespace_owner",
        StepKind::SetTablespaceOptions => "set_tablespace_options",
        StepKind::CommentOnTablespace => "comment_on_tablespace",
        StepKind::AlterObjectOwner => "alter_object_owner",
        StepKind::GrantObjectPrivilege => "grant_object_privilege",
        StepKind::RevokeObjectPrivilege => "revoke_object_privilege",
        StepKind::GrantColumnPrivilege => "grant_column_privilege",
        StepKind::RevokeColumnPrivilege => "revoke_column_privilege",
        StepKind::AlterDefaultPrivileges => "alter_default_privileges",
        StepKind::CreatePolicy => "create_policy",
        StepKind::DropPolicy => "drop_policy",
        StepKind::AlterPolicy => "alter_policy",
        StepKind::SetTableRowSecurity => "set_table_row_security",
        StepKind::SetTableForceRowSecurity => "set_table_force_row_security",
        StepKind::SetTableStorage => "set_table_storage",
        StepKind::SetIndexStorage => "set_index_storage",
        StepKind::SetMaterializedViewStorage => "set_materialized_view_storage",
        StepKind::CreatePublication => "create_publication",
        StepKind::DropPublication => "drop_publication",
        StepKind::ReplacePublication => "replace_publication",
        StepKind::AlterPublicationAddTable => "alter_publication_add_table",
        StepKind::AlterPublicationDropTable => "alter_publication_drop_table",
        StepKind::AlterPublicationSetTable => "alter_publication_set_table",
        StepKind::AlterPublicationAddSchema => "alter_publication_add_schema",
        StepKind::AlterPublicationDropSchema => "alter_publication_drop_schema",
        StepKind::AlterPublicationSetPublish => "alter_publication_set_publish",
        StepKind::AlterPublicationSetViaRoot => "alter_publication_set_via_root",
        StepKind::CommentOnPublication => "comment_on_publication",
        StepKind::CreateSubscription => "create_subscription",
        StepKind::DropSubscription => "drop_subscription",
        StepKind::AlterSubscriptionConnection => "alter_subscription_connection",
        StepKind::AlterSubscriptionAddPublication => "alter_subscription_add_publication",
        StepKind::AlterSubscriptionDropPublication => "alter_subscription_drop_publication",
        StepKind::AlterSubscriptionSetOptions => "alter_subscription_set_options",
        StepKind::CommentOnSubscription => "comment_on_subscription",
        StepKind::CreateStatistic => "create_statistic",
        StepKind::DropStatistic => "drop_statistic",
        StepKind::ReplaceStatistic => "replace_statistic",
        StepKind::AlterStatisticSetTarget => "alter_statistic_set_target",
        StepKind::CommentOnStatistic => "comment_on_statistic",
        StepKind::CreateCollation => "create_collation",
        StepKind::DropCollation => "drop_collation",
        StepKind::RenameCollation => "rename_collation",
        StepKind::ReplaceCollation => "replace_collation",
        StepKind::CommentOnCollation => "comment_on_collation",
        StepKind::CreateEventTrigger => "create_event_trigger",
        StepKind::DropEventTrigger => "drop_event_trigger",
        StepKind::AlterEventTriggerEnable => "alter_event_trigger_enable",
        StepKind::AlterEventTriggerOwner => "alter_event_trigger_owner",
        StepKind::CommentOnEventTrigger => "comment_on_event_trigger",
        StepKind::CreateAggregate => "create_aggregate",
        StepKind::DropAggregate => "drop_aggregate",
        StepKind::AlterAggregateOwner => "alter_aggregate_owner",
        StepKind::CommentOnAggregate => "comment_on_aggregate",
        StepKind::CreateCast => "create_cast",
        StepKind::DropCast => "drop_cast",
        StepKind::CommentOnCast => "comment_on_cast",
        StepKind::CreateTsDictionary => "create_ts_dictionary",
        StepKind::DropTsDictionary => "drop_ts_dictionary",
        StepKind::AlterTsDictionary => "alter_ts_dictionary",
        StepKind::AlterTsDictionaryOwner => "alter_ts_dictionary_owner",
        StepKind::CommentOnTsDictionary => "comment_on_ts_dictionary",
        StepKind::CreateTsConfiguration => "create_ts_configuration",
        StepKind::DropTsConfiguration => "drop_ts_configuration",
        StepKind::AddTsConfigMapping => "add_ts_config_mapping",
        StepKind::AlterTsConfigMapping => "alter_ts_config_mapping",
        StepKind::DropTsConfigMapping => "drop_ts_config_mapping",
        StepKind::AlterTsConfigurationOwner => "alter_ts_configuration_owner",
        StepKind::CommentOnTsConfiguration => "comment_on_ts_configuration",
    }
}

/// Parse [`kind_name`]'s output back into a [`StepKind`].
pub fn parse_kind_name(s: &str) -> (kind: Option<StepKind>)
    ensures
        match kind {
            Some(k) => kind_text(k) == s@,
            None => forall|k: StepKind| #[trigger] kind_text(k) != s@,
        },
{
    if text_eq(s, "create_schema") {
        return Some(StepKind::CreateSchema);
    }
    if text_eq(s, "drop_schema") {
        return Some(StepKind::DropSchema);
    }
    if text_eq(s, "alter_schema_comment") {
        return Some(StepKind::AlterSchemaComment);
    }
    if text_eq(s, "create_table") {
        return Some(StepKind::CreateTable);
    }
    if text_eq(s, "drop_table") {
        return Some(StepKind::DropTable);
    }
    if text_eq(s, "alter_table_set_comment") {
        return Some(StepKind::AlterTableSetComment);
    }
    if text_eq(s, "alter_table_set_tablespace") {
        return Some(StepKind::AlterTableSetTablespace);
    }
    if text_eq(s, "add_column") {
        return Some(StepKind::AddColumn);
    }
    if text_eq(s, "drop_column") {
        return Some(StepKind::DropColumn);
    }
    if text_eq(s, "alter_column_type") {
        return Some(StepKind::AlterColumnType);
    }
    if text_eq(s, "set_column_nullable") {
        return Some(StepKind::SetColumnNullable);
    }
    if text_eq(s, "set_column_default") {
        return Some(StepKind::SetColumnDefault);
    }
    if text_eq(s, "set_column_comment") {
        return Some(StepKind::SetColumnComment);
    }
    if text_eq(s, "set_column_identity") {
        return Some(StepKind::SetColumnIdentity);
    }
    if text_eq(s, "set_column_generated") {
        return Some(StepKind::SetColumnGenerated);
    }
    if text_eq(s, "set_column_storage") {
        return Some(StepKind::SetColumnStorage);
    }
    if text_eq(s, "set_column_compression") {
        return Some(StepKind::SetColumnCompression);
    }
    if text_eq(s, "add_constraint") {
        return Some(StepKind::AddConstraint);
    }
    if text_eq(s, "add_constraint_not_valid") {
        return Some(StepKind::AddConstraintNotValid);
    }
    if text_eq(s, "validate_constraint") {
        return Some(StepKind::ValidateConstraint);
    }
    if text_eq(s, "drop_constraint") {
        return Some(StepKind::DropConstraint);
    }
    if text_eq(s, "set_constraint_comment") {
        return Some(StepKind::SetConstraintComment);
    }
    if text_eq(s, "create_index") {
        return Some(StepKind::CreateIndex);
    }
    if text_eq(s, "create_index_concurrent") {
        return Some(StepKind::CreateIndexConcurrent);
    }
    if text_eq(s, "drop_index") {
        return Some(StepKind::DropIndex);
    }
    if text_eq(s, "drop_index_concurrent") {
        return Some(StepKind::DropIndexConcurrent);
    }
    if text_eq(s, "create_sequence") {
        return Some(StepKind::CreateSequence);
    }
    if text_eq(s, "drop_sequence") {
        return Some(StepKind::DropSequence);
    }
    if text_eq(s, "alter_sequence") {
        return Some(StepKind::AlterSequence);
    }
    if text_eq(s, "add_check_for_not_null") {
        return Some(StepKind::AddCheckForNotNull);
    }
    if text_eq(s, "create_view") {
        return Some(StepKind::CreateView);
    }
    if text_eq(s, "drop_view") {
        return Some(StepKind::DropView);
    }
    if text_eq(s, "alter_view_set_check_option") {
        return Some(StepKind::AlterViewSetCheckOption);
    }
    if text_eq(s, "create_materialized_view") {
        return Some(StepKind::CreateMaterializedView);
    }
    if text_eq(s, "drop_materialized_view") {
        return Some(StepKind::DropMaterializedView);
    }
    if text_eq(s, "refresh_materialized_view") {
        return Some(StepKind::RefreshMaterializedView);
    }
    if text_eq(s, "alter_view_set_reloption") {
        return Some(StepKind::AlterViewSetReloption);
    }
    if text_eq(s, "comment_on_view") {
        return Some(StepKind::CommentOnView);
    }
    if text_eq(s, "create_type") {
        return Some(StepKind::CreateType);
    }
    if text_eq(s, "drop_type") {
        return Some(StepKind::DropType);
    }
    if text_eq(s, "alter_type_add_value") {
        return Some(StepKind::AlterTypeAddValue);
    }
    if text_eq(s, "alter_type_rename_value") {
        return Some(StepKind::AlterTypeRenameValue);
    }
    if text_eq(s, "alter_domain_add_constraint") {
        return Some(StepKind::AlterDomainAddConstraint);
    }
    if text_eq(s, "alter_domain_drop_constraint") {
        return Some(StepKind::AlterDomainDropConstraint);
    }
    if text_eq(s, "alter_domain_set_default") {
        return Some(StepKind::AlterDomainSetDefault);
    }
    if text_eq(s, "alter_domain_set_not_null") {
        return Some(StepKind::AlterDomainSetNotNull);
    }
    if text_eq(s, "alter_type_add_attribute") {
        return Some(StepKind::AlterTypeAddAttribute);
    }
    if text_eq(s, "alter_type_drop_attribute") {
        return Some(StepKind::AlterTypeDropAttribute);
    }
    if text_eq(s, "alter_type_alter_attribute_type") {
        return Some(StepKind::AlterTypeAlterAttributeType);
    }
    if text_eq(s, "comment_on_type") {
        return Some(StepKind::CommentOnType);
    }
    if text_eq(s, "create_or_replace_function") {
        return Some(StepKind::CreateOrReplaceFunction);
    }
    if text_eq(s, "drop_function") {
        return Some(StepKind::DropFunction);
    }
    if text_eq(s, "comment_on_function") {
        return Some(StepKind::CommentOnFunction);
    }
    if text_eq(s, "create_or_replace_procedure") {
        return Some(StepKind::CreateOrReplaceProcedure);
    }
    if text_eq(s, "drop_procedure") {
        return Some(StepKind::DropProcedure);
    }
    if text_eq(s, "comment_on_procedure") {
        return Some(StepKind::CommentOnProcedure);
    }
    if text_eq(s, "create_extension") {
        return Some(StepKind::CreateExtension);
    }
    if text_eq(s, "drop_extension") {
        return Some(StepKind::DropExtension);
    }
    if text_eq(s, "alter_extension_update") {
        return Some(StepKind::AlterExtensionUpdate);
    }
    if text_eq(s, "comment_on_extension") {
        return Some(StepKind::CommentOnExtension);
    }
    if text_eq(s, "create_trigger") {
        return Some(StepKind::CreateTrigger);
    }
    if text_eq(s, "drop_trigger") {
        return Some(StepKind::DropTrigger);
    }
    if text_eq(s, "comment_on_trigger") {
        return Some(StepKind::CommentOnTrigger);
    }
    if text_eq(s, "attach_partition") {
        return Some(StepKind::AttachPartition);
    }
    if text_eq(s, "detach_partition") {
        return Some(StepKind::DetachPartition);
    }
    if text_eq(s, "create_role") {
        return Some(StepKind::CreateRole);
    }
    if text_eq(s, "drop_role") {
        return Some(StepKind::DropRole);
    }
    if text_eq(s, "alter_role") {
        return Some(StepKind::AlterRole);
    }
    if text_eq(s, "grant_role_membership") {
        return Some(StepKind::GrantRoleMembership);
    }
    if text_eq(s, "revoke_role_membership") {
        return Some(StepKind::RevokeRoleMembership);
    }
    if text_eq(s, "comment_on_role") {
        return Some(StepKind::CommentOnRole);
    }
    if text_eq(s, "create_tablespace") {
        return Some(StepKind::CreateTablespace);
    }
    if text_eq(s, "drop_tablespace") {
        return Some(StepKind::DropTablespace);
    }
    if text_eq(s, "alter_tablespace_owner") {
        return Some(StepKind::AlterTablespaceOwner);
    }
    if text_eq(s, "set_tablespace_options") {
        return Some(StepKind::SetTablespaceOptions);
    }
    if text_eq(s, "comment_on_tablespace") {
        return Some(StepKind::CommentOnTablespace);
    }
    if text_eq(s, "alter_object_owner") {
        return Some(StepKind::AlterObjectOwner);
    }
    if text_eq(s, "grant_object_privilege") {
        return Some(StepKind::GrantObjectPrivilege);
    }
    if text_eq(s, "revoke_object_privilege") {
        return Some(StepKind::RevokeObjectPrivilege);
    }
    if text_eq(s, "grant_column_privilege") {
        return Some(StepKind::GrantColumnPrivilege);
    }
    if text_eq(s, "revoke_column_privilege") {
        return Some(StepKind::RevokeColumnPrivilege);
    }
    if text_eq(s, "alter_default_privileges") {
        return Some(StepKind::AlterDefaultPrivileges);
    }
    if text_eq(s, "create_policy") {
        return Some(StepKind::CreatePolicy);
    }
    if text_eq(s, "drop_policy") {
        return Some(StepKind::DropPolicy);
    }
    if text_eq(s, "alter_policy") {
        return Some(StepKind::AlterPolicy);
    }
    if text_eq(s, "set_table_row_security") {
        return Some(StepKind::SetTableRowSecurity);
    }
    if text_eq(s, "set_table_force_row_security") {
        return Some(StepKind::SetTableForceRowSecurity);
    }
    if text_eq(s, "set_table_storage") {
        return Some(StepKind::SetTableStorage);
    }
    if text_eq(s, "set_index_storage") {
        return Some(StepKind::SetIndexStorage);
    }
    if text_eq(s, "set_materialized_view_storage") {
        return Some(StepKind::SetMaterializedViewStorage);
    }
    if text_eq(s, "create_publication") {
        return Some(StepKind::CreatePublication);
    }
    if text_eq(s, "drop_publication") {
        return Some(StepKind::DropPublication);
    }
    if text_eq(s, "replace_publication") {
        return Some(StepKind::ReplacePublication);
    }
    if text_eq(s, "alter_publication_add_table") {
        return Some(StepKind::AlterPublicationAddTable);
    }
    if text_eq(s, "alter_publication_drop_table") {
        return Some(StepKind::AlterPublicationDropTable);
    }
    if text_eq(s, "alter_publication_set_table") {
        return Some(StepKind::AlterPublicationSetTable);
    }
    if text_eq(s, "alter_publication_add_schema") {
        return Some(StepKind::AlterPublicationAddSchema);
    }
    if text_eq(s, "alter_publication_drop_schema") {
        return Some(StepKind::AlterPublicationDropSchema);
    }
    if text_eq(s, "alter_publication_set_publish") {
        return Some(StepKind::AlterPublicationSetPublish);
    }
    if text_eq(s, "alter_publication_set_via_root") {
        return Some(StepKind::AlterPublicationSetViaRoot);
    }
    if text_eq(s, "comment_on_publication") {
        return Some(StepKind::CommentOnPublication);
    }
    if text_eq(s, "create_subscription") {
        return Some(StepKind::CreateSubscription);
    }
    if text_eq(s, "drop_subscription") {
        return Some(StepKind::DropSubscription);
    }
    if text_eq(s, "alter_subscription_connection") {
        return Some(StepKind::AlterSubscriptionConnection);
    }
    if text_eq(s, "alter_subscription_add_publication") {
        return Some(StepKind::AlterSubscriptionAddPublication);
    }
    if text_eq(s, "alter_subscription_drop_publication") {
        return Some(StepKind::AlterSubscriptionDropPublication);
    }
    if text_eq(s, "alter_subscription_set_options") {
        return Some(StepKind::AlterSubscriptionSetOptions);
    }
    if text_eq(s, "comment_on_subscription") {
        return Some(StepKind::CommentOnSubscription);
    }
    if text_eq(s, "create_statistic") {
        return Some(StepKind::CreateStatistic);
    }
    if text_eq(s, "drop_statistic") {
        return Some(StepKind::DropStatistic);
    }
    if text_eq(s, "replace_statistic") {
        return Some(StepKind::ReplaceStatistic);
    }
    if text_eq(s, "alter_statistic_set_target") {
        return Some(StepKind::AlterStatisticSetTarget);
    }
    if text_eq(s, "comment_on_statistic") {
        return Some(StepKind::CommentOnStatistic);
    }
    if text_eq(s, "create_collation") {
        return Some(StepKind::CreateCollation);
    }
    if text_eq(s, "drop_collation") {
        return Some(StepKind::DropCollation);
    }
    if text_eq(s, "rename_collation") {
        return Some(StepKind::RenameCollation);
    }
    if text_eq(s, "replace_collation") {
        return Some(StepKind::ReplaceCollation);
    }
    if text_eq(s, "comment_on_collation") {
        return Some(StepKind::CommentOnCollation);
    }
    if text_eq(s, "create_event_trigger") {
        return Some(StepKind::CreateEventTrigger);
    }
    if text_eq(s, "drop_event_trigger") {
        return Some(StepKind::DropEventTrigger);
    }
    if text_eq(s, "alter_event_trigger_enable") {
        return Some(StepKind::AlterEventTriggerEnable);
    }
    if text_eq(s, "alter_event_trigger_owner") {
        return Some(StepKind::AlterEventTriggerOwner);
    }
    if text_eq(s, "comment_on_event_trigger") {
        return Some(StepKind::CommentOnEventTrigger);
    }
    if text_eq(s, "create_aggregate") {
        return Some(StepKind::CreateAggregate);
    }
    if text_eq(s, "drop_aggregate") {
        return Some(StepKind::DropAggregate);
    }
    if text_eq(s, "alter_aggregate_owner") {
        return Some(StepKind::AlterAggregateOwner);
    }
    if text_eq(s, "comment_on_aggregate") {
        return Some(StepKind::CommentOnAggregate);
    }
    if text_eq(s, "create_cast") {
        return Some(StepKind::CreateCast);
    }
    if text_eq(s, "drop_cast") {
        return Some(StepKind::DropCast);
    }
    if text_eq(s, "comment_on_cast") {
        return Some(StepKind::CommentOnCast);
    }
    if text_eq(s, "create_ts_dictionary") {
        return Some(StepKind::CreateTsDictionary);
    }
    if text_eq(s, "drop_ts_dictionary") {
        return Some(StepKind::DropTsDictionary);
    }
    if text_eq(s, "alter_ts_dictionary") {
        return Some(StepKind::AlterTsDictionary);
    }
    if text_eq(s, "alter_ts_dictionary_owner") {
        return Some(StepKind::AlterTsDictionaryOwner);
    }
    if text_eq(s, "comment_on_ts_dictionary") {
        return Some(StepKind::CommentOnTsDictionary);
    }
    if text_eq(s, "create_ts_configuration") {
        return Some(StepKind::CreateTsConfiguration);
    }
    if text_eq(s, "drop_ts_configuration") {
        return Some(StepKind::DropTsConfiguration);
    }
    if text_eq(s, "add_ts_config_mapping") {
        return Some(StepKind::AddTsConfigMapping);
    }
    if text_eq(s, "alter_ts_config_mapping") {
        return Some(StepKind::AlterTsConfigMapping);
    }
    if text_eq(s, "drop_ts_config_mapping") {
        return Some(StepKind::DropTsConfigMapping);
    }
    if text_eq(s, "alter_ts_configuration_owner") {
        return Some(StepKind::AlterTsConfigurationOwner);
    }
    if text_eq(s, "comment_on_ts_configuration") {
        return Some(StepKind::CommentOnTsConfiguration);
    }
    None
}

/// A number that tells the kind names apart: it mixes the length and four
/// characters.
spec fn fingerprint(s: Seq<char>) -> int {
    let n = s.len() as int;
    (((n * 128 + s[0] as int) * 128 + s[7] as int) * 128 + s[n - 2] as int) * 128 + s[n
        - 7] as int
}

/// The kind whose name has that fingerprint.
spec fn kind_of_fingerprint(code: int) -> StepKind {
    if code == 3699177183 {
        StepKind::CreateSchema
    } else if code == 3164223199 {
        StepKind::DropSchema
    } else if code == 5573769059 {
        StepKind::AlterSchemaComment
    } else if code == 3430757989 {
        StepKind::CreateTable
    } else if code == 2895689328 {
        StepKind::DropTable
    } else if code == 6379042659 {
        StepKind::AlterTableSetComment
    } else if code == 7184347628 {
        StepKind::AlterTableSetTablespace
    } else if code == 2889709279 {
        StepKind::AddColumn
    } else if code == 3164288735 {
        StepKind::DropColumn
    } else if code == 4768659565 {
        StepKind::AlterColumnType
    } else if code == 5343377013 {
        StepKind::SetColumnNullable
    } else if code == 5074941540 {
        StepKind::SetColumnDefault
    } else if code == 5074941795 {
        StepKind::SetColumnComment
    } else if code == 5343378020 {
        StepKind::SetColumnIdentity
    } else if code == 5611811566 {
        StepKind::SetColumnGenerated
    } else if code == 5074940915 {
        StepKind::SetColumnStorage
    } else if code == 6148683762 {
        StepKind::SetColumnCompression
    } else if code == 3963418483 {
        StepKind::AddConstraint
    } else if code == 6647772404 {
        StepKind::AddConstraintNotValid
    } else if code == 5349406579 {
        StepKind::ValidateConstraint
    } else if code == 4238063475 {
        StepKind::DropConstraint
    } else if code == 6148650851 {
        StepKind::SetConstraintComment
    } else if code == 3430576869 {
        StepKind::CreateIndex
    } else if code == 6383368035 {
        StepKind::CreateIndexConcurrent
    } else if code == 2895721200 {
        StepKind::DropIndex
    } else if code == 5848512355 {
        StepKind::DropIndexConcurrent
    } else if code == 4236046821 {
        StepKind::CreateSequence
    } else if code == 3701240293 {
        StepKind::DropSequence
    } else if code == 3963187685 {
        StepKind::AlterSequence
    } else if code == 6110639727 {
        StepKind::AddCheckForNotNull
    } else if code == 3162354420 {
        StepKind::CreateView
    } else if code == 2627302127 {
        StepKind::DropView
    } else if code == 7452915679 {
        StepKind::AlterViewSetCheckOption
    } else if code == 6651867877 {
        StepKind::CreateMaterializedView
    } else if code == 6117208805 {
        StepKind::DropMaterializedView
    } else if code == 6951531237 {
        StepKind::RefreshMaterializedView
    } else if code == 6647609324 {
        StepKind::AlterViewSetReloption
    } else if code == 4235719407 {
        StepKind::CommentOnView
    } else if code == 3162323060 {
        StepKind::CreateType
    } else if code == 2627483759 {
        StepKind::DropType
    } else if code == 5574130404 {
        StepKind::AlterTypeAddValue
    } else if code == 6379436773 {
        StepKind::AlterTypeRenameValue
    } else if code == 7453013875 {
        StepKind::AlterDomainAddConstraint
    } else if code == 7721449331 {
        StepKind::AlterDomainDropConstraint
    } else if code == 6647707236 {
        StepKind::AlterDomainSetDefault
    } else if code == 6916142703 {
        StepKind::AlterDomainSetNotNull
    } else if code == 6647872116 {
        StepKind::AlterTypeAddAttribute
    } else if code == 6916307572 {
        StepKind::AlterTypeDropAttribute
    } else if code == 8526919796 {
        StepKind::AlterTypeAlterAttributeType
    } else if code == 4235720815 {
        StepKind::CommentOnType
    } else if code == 7188772853 {
        StepKind::CreateOrReplaceFunction
    } else if code == 3701192693 {
        StepKind::DropFunction
    } else if code == 5309462517 {
        StepKind::CommentOnFunction
    } else if code == 7457208687 {
        StepKind::CreateOrReplaceProcedure
    } else if code == 3969644911 {
        StepKind::DropProcedure
    } else if code == 5577898351 {
        StepKind::CommentOnProcedure
    } else if code == 4504254452 {
        StepKind::CreateExtension
    } else if code == 3969726452 {
        StepKind::DropExtension
    } else if code == 6110984799 {
        StepKind::AlterExtensionUpdate
    } else if code == 5577897972 {
        StepKind::CommentOnExtension
    } else if code == 3967628020 {
        StepKind::CreateTrigger
    } else if code == 3432674036 {
        StepKind::DropTrigger
    } else if code == 5041025780 {
        StepKind::CommentOnTrigger
    } else if code == 4500240370 {
        StepKind::AttachPartition
    } else if code == 4506531826 {
        StepKind::DetachPartition
    } else if code == 3162289780 {
        StepKind::CreateRole
    } else if code == 2627417711 {
        StepKind::DropRole
    } else if code == 2889610853 {
        StepKind::AlterRole
    } else if code == 5854983394 {
        StepKind::GrantRoleMembership
    } else if code == 6146536674 {
        StepKind::RevokeRoleMembership
    } else if code == 4235720303 {
        StepKind::CommentOnRole
    } else if code == 4772934124 {
        StepKind::CreateTablespace
    } else if code == 4237865452 {
        StepKind::DropTablespace
    } else if code == 6110606053 {
        StepKind::AlterTablespaceOwner
    } else if code == 6148536175 {
        StepKind::SetTablespaceOptions
    } else if code == 5846331884 {
        StepKind::CommentOnTablespace
    } else if code == 5036880628 {
        StepKind::AlterObjectOwner
    } else if code == 6123205609 {
        StepKind::GrantObjectPrivilege
    } else if code == 6414922729 {
        StepKind::RevokeObjectPrivilege
    } else if code == 6123418601 {
        StepKind::GrantColumnPrivilege
    } else if code == 6414726121 {
        StepKind::RevokeColumnPrivilege
    } else if code == 6647542518 {
        StepKind::AlterDefaultPrivileges
    } else if code == 3699126751 {
        StepKind::CreatePolicy
    } else if code == 3164287455 {
        StepKind::DropPolicy
    } else if code == 3426480607 {
        StepKind::AlterPolicy
    } else if code == 6148536933 {
        StepKind::SetTableRowSecurity
    } else if code == 7759149669 {
        StepKind::SetTableForceRowSecurity
    } else if code == 4806358003 {
        StepKind::SetTableStorage
    } else if code == 4806243315 {
        StepKind::SetIndexStorage
    } else if code == 8027468787 {
        StepKind::SetMaterializedViewStorage
    } else if code == 5041305577 {
        StepKind::CreatePublication
    } else if code == 4506302441 {
        StepKind::DropPublication
    } else if code == 5340919785 {
        StepKind::ReplacePublication
    } else if code == 7453111908 {
        StepKind::AlterPublicationAddTable
    } else if code == 7721547376 {
        StepKind::AlterPublicationDropTable
    } else if code == 7453111924 {
        StepKind::AlterPublicationSetTable
    } else if code == 7721547487 {
        StepKind::AlterPublicationAddSchema
    } else if code == 7989982943 {
        StepKind::AlterPublicationDropSchema
    } else if code == 7989983728 {
        StepKind::AlterPublicationSetPublish
    } else if code == 8258418665 {
        StepKind::AlterPublicationSetViaRoot
    } else if code == 6114768873 {
        StepKind::CommentOnPublication
    } else if code == 5309790194 {
        StepKind::CreateSubscription
    } else if code == 4774737906 {
        StepKind::DropSubscription
    } else if code == 7989983214 {
        StepKind::AlterSubscriptionConnection
    } else if code == 9332160489 {
        StepKind::AlterSubscriptionAddPublication
    } else if code == 9600595945 {
        StepKind::AlterSubscriptionDropPublication
    } else if code == 8258418543 {
        StepKind::AlterSubscriptionSetOptions
    } else if code == 6383204338 {
        StepKind::CommentOnSubscription
    } else if code == 4504483041 {
        StepKind::CreateStatistic
    } else if code == 3969414369 {
        StepKind::DropStatistic
    } else if code == 4804048097 {
        StepKind::ReplaceStatistic
    } else if code == 7184659167 {
        StepKind::AlterStatisticSetTarget
    } else if code == 5577897185 {
        StepKind::CommentOnStatistic
    } else if code == 4504221676 {
        StepKind::CreateCollation
    } else if code == 3969595372 {
        StepKind::DropCollation
    } else if code == 4535678956 {
        StepKind::RenameCollation
    } else if code == 4804048876 {
        StepKind::ReplaceCollation
    } else if code == 5577897964 {
        StepKind::CommentOnCollation
    } else if code == 5577994996 {
        StepKind::CreateEventTrigger
    } else if code == 5043221236 {
        StepKind::DropEventTrigger
    } else if code == 7184692831 {
        StepKind::AlterEventTriggerEnable
    } else if code == 6916256498 {
        StepKind::AlterEventTriggerOwner
    } else if code == 6651638516 {
        StepKind::CommentOnEventTrigger
    } else if code == 4504189543 {
        StepKind::CreateAggregate
    } else if code == 3969514087 {
        StepKind::DropAggregate
    } else if code == 5842268901 {
        StepKind::AlterAggregateOwner
    } else if code == 5577898599 {
        StepKind::CommentOnAggregate
    } else if code == 3162044916 {
        StepKind::CreateCast
    } else if code == 2627533295 {
        StepKind::DropCast
    } else if code == 4235721199 {
        StepKind::CommentOnCast
    } else if code == 5578242420 {
        StepKind::CreateTsDictionary
    } else if code == 5043124596 {
        StepKind::DropTsDictionary
    } else if code == 5305596276 {
        StepKind::AlterTsDictionary
    } else if code == 6916207353 {
        StepKind::AlterTsDictionaryOwner
    } else if code == 6651640180 {
        StepKind::CommentOnTsDictionary
    } else if code == 6383548405 {
        StepKind::CreateTsConfiguration
    } else if code == 5848430581 {
        StepKind::DropTsConfiguration
    } else if code == 5842204525 {
        StepKind::AddTsConfigMapping
    } else if code == 6379337581 {
        StepKind::AlterTsConfigMapping
    } else if code == 6116865901 {
        StepKind::DropTsConfigMapping
    } else if code == 7721513710 {
        StepKind::AlterTsConfigurationOwner
    } else {
        StepKind::CommentOnTsConfiguration
    }
}

/// Every kind can be recovered from the fingerprint of its name.
proof fn lemma_fingerprint_recovers(k: StepKind)
    ensures
        kind_of_fingerprint(fingerprint(kind_text(k))) == k,
{
    match k {
        StepKind::CreateSchema => {
            reveal_strlit("create_schema");
            assert(fingerprint("create_schema"@) == 3699177183);
        },
        StepKind::DropSchema => {
            reveal_strlit("drop_schema");
            assert(fingerprint("drop_schema"@) == 3164223199);
        },
        StepKind::AlterSchemaComment => {
            reveal_strlit("alter_schema_comment");
            assert(fingerprint("alter_schema_comment"@) == 5573769059);
        },
        StepKind::CreateTable => {
            reveal_strlit("create_table");
            assert(fingerprint("create_table"@) == 3430757989);
        },
        StepKind::DropTable => {
            reveal_strlit("drop_table");
            assert(fingerprint("drop_table"@) == 2895689328);
        },
        StepKind::AlterTableSetComment => {
            reveal_strlit("alter_table_set_comment");
            assert(fingerprint("alter_table_set_comment"@) == 6379042659);
        },
        StepKind::AlterTableSetTablespace => {
            reveal_strlit("alter_table_set_tablespace");
            assert(fingerprint("alter_table_set_tablespace"@) == 7184347628);
        },
        StepKind::AddColumn => {
            reveal_strlit("add_column");
            assert(fingerprint("add_column"@) == 2889709279);
        },
        StepKind::DropColumn => {
            reveal_strlit("drop_column");
            assert(fingerprint("drop_column"@) == 3164288735);
        },
        StepKind::AlterColumnType => {
            reveal_strlit("alter_column_type");
            assert(fingerprint("alter_column_type"@) == 4768659565);
        },
        StepKind::SetColumnNullable => {
            reveal_strlit("set_column_nullable");
            assert(fingerprint("set_column_nullable"@) == 5343377013);
        },
        StepKind::SetColumnDefault => {
            reveal_strlit("set_column_default");
            assert(fingerprint("set_column_default"@) == 5074941540);
        },
        StepKind::SetColumnComment => {
            reveal_strlit("set_column_comment");
            assert(fingerprint("set_column_comment"@) == 5074941795);
        },
        StepKind::SetColumnIdentity => {
            reveal_strlit("set_column_identity");
            assert(fingerprint("set_column_identity"@) == 5343378020);
        },
        StepKind::SetColumnGenerated => {
            reveal_strlit("set_column_generated");
            assert(fingerprint("set_column_generated"@) == 5611811566);
        },
        StepKind::SetColumnStorage => {
            reveal_strlit("set_column_storage");
            assert(fingerprint("set_column_storage"@) == 5074940915);
        },
        StepKind::SetColumnCompression => {
            reveal_strlit("set_column_compression");
            assert(fingerprint("set_column_compression"@) == 6148683762);
        },
        StepKind::AddConstraint => {
            reveal_strlit("add_constraint");
            assert(fingerprint("add_constraint"@) == 3963418483);
        },
        StepKind::AddConstraintNotValid => {
            reveal_strlit("add_constraint_not_valid");
            assert(fingerprint("add_constraint_not_valid"@) == 6647772404);
        },
        StepKind::ValidateConstraint => {
            reveal_strlit("validate_constraint");
            assert(fingerprint("validate_constraint"@) == 5349406579);
        },
        StepKind::DropConstraint => {
            reveal_strlit("drop_constraint");
            assert(fingerprint("drop_constraint"@) == 4238063475);
        },
        StepKind::SetConstraintComment => {
            reveal_strlit("set_constraint_comment");
            assert(fingerprint("set_constraint_comment"@) == 6148650851);
        },
        StepKind::CreateIndex => {
            reveal_strlit("create_index");
            assert(fingerprint("create_index"@) == 3430576869);
        },
        StepKind::CreateIndexConcurrent => {
            reveal_strlit("create_index_concurrent");
            assert(fingerprint("create_index_concurrent"@) == 6383368035);
        },
        StepKind::DropIndex => {
            reveal_strlit("drop_index");
            assert(fingerprint("drop_index"@) == 2895721200);
        },
        StepKind::DropIndexConcurrent => {
            reveal_strlit("drop_index_concurrent");
            assert(fingerprint("drop_index_concurrent"@) == 5848512355);
        },
        StepKind::CreateSequence => {
            reveal_strlit("create_sequence");
            assert(fingerprint("create_sequence"@) == 4236046821);
        },
        StepKind::DropSequence => {
            reveal_strlit("drop_sequence");
            assert(fingerprint("drop_sequence"@) == 3701240293);
        },
        StepKind::AlterSequence => {
            reveal_strlit("alter_sequence");
            assert(fingerprint("alter_sequence"@) == 3963187685);
        },
        StepKind::AddCheckForNotNull => {
            reveal_strlit("add_check_for_not_null");
            assert(fingerprint("add_check_for_not_null"@) == 6110639727);
        },
        StepKind::CreateView => {
            reveal_strlit("create_view");
            assert(fingerprint("create_view"@) == 3162354420);
        },
        StepKind::DropView => {
            reveal_strlit("drop_view");
            assert(fingerprint("drop_view"@) == 2627302127);
        },
        StepKind::AlterViewSetCheckOption => {
            reveal_strlit("alter_view_set_check_option");
            assert(fingerprint("alter_view_set_check_option"@) == 7452915679);
        },
        StepKind::CreateMaterializedView => {
            reveal_strlit("create_materialized_view");
            assert(fingerprint("create_materialized_view"@) == 6651867877);
        },
        StepKind::DropMaterializedView => {
            reveal_strlit("drop_materialized_view");
            assert(fingerprint("drop_materialized_view"@) == 6117208805);
        },
        StepKind::RefreshMaterializedView => {
            reveal_strlit("refresh_materialized_view");
            assert(fingerprint("refresh_materialized_view"@) == 6951531237);
        },
        StepKind::AlterViewSetReloption => {
            reveal_strlit("alter_view_set_reloption");
            assert(fingerprint("alter_view_set_reloption"@) == 6647609324);
        },
        StepKind::CommentOnView => {
            reveal_strlit("comment_on_view");
            assert(fingerprint("comment_on_view"@) == 4235719407);
        },
        StepKind::CreateType => {
            reveal_strlit("create_type");
            assert(fingerprint("create_type"@) == 3162323060);
        },
        StepKind::DropType => {
            reveal_strlit("drop_type");
            assert(fingerprint("drop_type"@) == 2627483759);
        },
        StepKind::AlterTypeAddValue => {
            reveal_strlit("alter_type_add_value");
            assert(fingerprint("alter_type_add_value"@) == 5574130404);
        },
        StepKind::AlterTypeRenameValue => {
            reveal_strlit("alter_type_rename_value");
            assert(fingerprint("alter_type_rename_value"@) == 6379436773);
        },
        StepKind::AlterDomainAddConstraint => {
            reveal_strlit("alter_domain_add_constraint");
            assert(fingerprint("alter_domain_add_constraint"@) == 7453013875);
        },
        StepKind::AlterDomainDropConstraint => {
            reveal_strlit("alter_domain_drop_constraint");
            assert(fingerprint("alter_domain_drop_constraint"@) == 7721449331);
        },
        StepKind::AlterDomainSetDefault => {
            reveal_strlit("alter_domain_set_default");
            assert(fingerprint("alter_domain_set_default"@) == 6647707236);
        },
        StepKind::AlterDomainSetNotNull => {
            reveal_strlit("alter_domain_set_not_null");
            assert(fingerprint("alter_domain_set_not_null"@) == 6916142703);
        },
        StepKind::AlterTypeAddAttribute => {
            reveal_strlit("alter_type_add_attribute");
            assert(fingerprint("alter_type_add_attribute"@) == 6647872116);
        },
        StepKind::AlterTypeDropAttribute => {
            reveal_strlit("alter_type_drop_attribute");
            assert(fingerprint("alter_type_drop_attribute"@) == 6916307572);
        },
        StepKind::AlterTypeAlterAttributeType => {
            reveal_strlit("alter_type_alter_attribute_type");
            assert(fingerprint("alter_type_alter_attribute_type"@) == 8526919796);
        },
        StepKind::CommentOnType => {
            reveal_strlit("comment_on_type");
            assert(fingerprint("comment_on_type"@) == 4235720815);
        },
        StepKind::CreateOrReplaceFunction => {
            reveal_strlit("create_or_replace_function");
            assert(fingerprint("create_or_replace_function"@) == 7188772853);
        },
        StepKind::DropFunction => {
            reveal_strlit("drop_function");
            assert(fingerprint("drop_function"@) == 3701192693);
        },
        StepKind::CommentOnFunction => {
            reveal_strlit("comment_on_function");
            assert(fingerprint("comment_on_function"@) == 5309462517);
        },
        StepKind::CreateOrReplaceProcedure => {
            reveal_strlit("create_or_replace_procedure");
            assert(fingerprint("create_or_replace_procedure"@) == 7457208687);
        },
        StepKind::DropProcedure => {
            reveal_strlit("drop_procedure");
            assert(fingerprint("drop_procedure"@) == 3969644911);
        },
        StepKind::CommentOnProcedure => {
            reveal_strlit("comment_on_procedure");
            assert(fingerprint("comment_on_procedure"@) == 5577898351);
        },
        StepKind::CreateExtension => {
            reveal_strlit("create_extension");
            assert(fingerprint("create_extension"@) == 4504254452);
        },
        StepKind::DropExtension => {
            reveal_strlit("drop_extension");
            assert(fingerprint("drop_extension"@) == 3969726452);
        },
        StepKind::AlterExtensionUpdate => {
            reveal_strlit("alter_extension_update");
            assert(fingerprint("alter_extension_update"@) == 6110984799);
        },
        StepKind::CommentOnExtension => {
            reveal_strlit("comment_on_extension");
            assert(fingerprint("comment_on_extension"@) == 5577897972);
        },
        StepKind::CreateTrigger => {
            reveal_strlit("create_trigger");
            assert(fingerprint("create_trigger"@) == 3967628020);
        },
        StepKind::DropTrigger => {
            reveal_strlit("drop_trigger");
            assert(fingerprint("drop_trigger"@) == 3432674036);
        },
        StepKind::CommentOnTrigger => {
            reveal_strlit("comment_on_trigger");
            assert(fingerprint("comment_on_trigger"@) == 5041025780);
        },
        StepKind::AttachPartition => {
            reveal_strlit("attach_partition");
            assert(fingerprint("attach_partition"@) == 4500240370);
        },
        StepKind::DetachPartition => {
            reveal_strlit("detach_partition");
            assert(fingerprint("detach_partition"@) == 4506531826);
        },
        StepKind::CreateRole => {
            reveal_strlit("create_role");
            assert(fingerprint("create_role"@) == 3162289780);
        },
        StepKind::DropRole => {
            reveal_strlit("drop_role");
            assert(fingerprint("drop_role"@) == 2627417711);
        },
        StepKind::AlterRole => {
            reveal_strlit("alter_role");
            assert(fingerprint("alter_role"@) == 2889610853);
        },
        StepKind::GrantRoleMembership => {
            reveal_strlit("grant_role_membership");
            assert(fingerprint("grant_role_membership"@) == 5854983394);
        },
        StepKind::RevokeRoleMembership => {
            reveal_strlit("revoke_role_membership");
            assert(fingerprint("revoke_role_membership"@) == 6146536674);
        },
        StepKind::CommentOnRole => {
            reveal_strlit("comment_on_role");
            assert(fingerprint("comment_on_role"@) == 4235720303);
        },
        StepKind::CreateTablespace => {
            reveal_strlit("create_tablespace");
            assert(fingerprint("create_tablespace"@) == 4772934124);
        },
        StepKind::DropTablespace => {
            reveal_strlit("drop_tablespace");
            assert(fingerprint("drop_tablespace"@) == 4237865452);
        },
        StepKind::AlterTablespaceOwner => {
            reveal_strlit("alter_tablespace_owner");
            assert(fingerprint("alter_tablespace_owner"@) == 6110606053);
        },
        StepKind::SetTablespaceOptions => {
            reveal_strlit("set_tablespace_options");
            assert(fingerprint("set_tablespace_options"@) == 6148536175);
        },
        StepKind::CommentOnTablespace => {
            reveal_strlit("comment_on_tablespace");
            assert(fingerprint("comment_on_tablespace"@) == 5846331884);
        },
        StepKind::AlterObjectOwner => {
            reveal_strlit("alter_object_owner");
            assert(fingerprint("alter_object_owner"@) == 5036880628);
        },
        StepKind::GrantObjectPrivilege => {
            reveal_strlit("grant_object_privilege");
            assert(fingerprint("grant_object_privilege"@) == 6123205609);
        },
        StepKind::RevokeObjectPrivilege => {
            reveal_strlit("revoke_object_privilege");
            assert(fingerprint("revoke_object_privilege"@) == 6414922729);
        },
        StepKind::GrantColumnPrivilege => {
            reveal_strlit("grant_column_privilege");
            assert(fingerprint("grant_column_privilege"@) == 6123418601);
        },
        StepKind::RevokeColumnPrivilege => {
            reveal_strlit("revoke_column_privilege");
            assert(fingerprint("revoke_column_privilege"@) == 6414726121);
        },
        StepKind::AlterDefaultPrivileges => {
            reveal_strlit("alter_default_privileges");
            assert(fingerprint("alter_default_privileges"@) == 6647542518);
        },
        StepKind::CreatePolicy => {
            reveal_strlit("create_policy");
            assert(fingerprint("create_policy"@) == 3699126751);
        },
        StepKind::DropPolicy => {
            reveal_strlit("drop_policy");
            assert(fingerprint("drop_policy"@) == 3164287455);
        },
        StepKind::AlterPolicy => {
            reveal_strlit("alter_policy");
            assert(fingerprint("alter_policy"@) == 3426480607);
        },
        StepKind::SetTableRowSecurity => {
            reveal_strlit("set_table_row_security");
            assert(fingerprint("set_table_row_security"@) == 6148536933);
        },
        StepKind::SetTableForceRowSecurity => {
            reveal_strlit("set_table_force_row_security");
            assert(fingerprint("set_table_force_row_security"@) == 7759149669);
        },
        StepKind::SetTableStorage => {
            reveal_strlit("set_table_storage");
            assert(fingerprint("set_table_storage"@) == 4806358003);
        },
        StepKind::SetIndexStorage => {
            reveal_strlit("set_index_storage");
            assert(fingerprint("set_index_storage"@) == 4806243315);
        },
        StepKind::SetMaterializedViewStorage => {
            reveal_strlit("set_materialized_view_storage");
            assert(fingerprint("set_materialized_view_storage"@) == 8027468787);
        },
        StepKind::CreatePublication => {
            reveal_strlit("create_publication");
            assert(fingerprint("create_publication"@) == 5041305577);
        },
        StepKind::DropPublication => {
            reveal_strlit("drop_publication");
            assert(fingerprint("drop_publication"@) == 4506302441);
        },
        StepKind::ReplacePublication => {
            reveal_strlit("replace_publication");
            assert(fingerprint("replace_publication"@) == 5340919785);
        },
        StepKind::AlterPublicationAddTable => {
            reveal_strlit("alter_publication_add_table");
            assert(fingerprint("alter_publication_add_table"@) == 7453111908);
        },
        StepKind::AlterPublicationDropTable => {
            reveal_strlit("alter_publication_drop_table");
            assert(fingerprint("alter_publication_drop_table"@) == 7721547376);
        },
        StepKind::AlterPublicationSetTable => {
            reveal_strlit("alter_publication_set_table");
            assert(fingerprint("alter_publication_set_table"@) == 7453111924);
        },
        StepKind::AlterPublicationAddSchema => {
            reveal_strlit("alter_publication_add_schema");
            assert(fingerprint("alter_publication_add_schema"@) == 7721547487);
        },
        StepKind::AlterPublicationDropSchema => {
            reveal_strlit("alter_publication_drop_schema");
            assert(fingerprint("alter_publication_drop_schema"@) == 7989982943);
        },
        StepKind::AlterPublicationSetPublish => {
            reveal_strlit("alter_publication_set_publish");
            assert(fingerprint("alter_publication_set_publish"@) == 7989983728);
        },
        StepKind::AlterPublicationSetViaRoot => {
            reveal_strlit("alter_publication_set_via_root");
            assert(fingerprint("alter_publication_set_via_root"@) == 8258418665);
        },
        StepKind::CommentOnPublication => {
            reveal_strlit("comment_on_publication");
            assert(fingerprint("comment_on_publication"@) == 6114768873);
        },
        StepKind::CreateSubscription => {
            reveal_strlit("create_subscription");
            assert(fingerprint("create_subscription"@) == 5309790194);
        },
        StepKind::DropSubscription => {
            reveal_strlit("drop_subscription");
            assert(fingerprint("drop_subscription"@) == 4774737906);
        },
        StepKind::AlterSubscriptionConnection => {
            reveal_strlit("alter_subscription_connection");
            assert(fingerprint("alter_subscription_connection"@) == 7989983214);
        },
        StepKind::AlterSubscriptionAddPublication => {
            reveal_strlit("alter_subscription_add_publication");
            assert(fingerprint("alter_subscription_add_publication"@) == 9332160489);
        },
        StepKind::AlterSubscriptionDropPublication => {
            reveal_strlit("alter_subscription_drop_publication");
            assert(fingerprint("alter_subscription_drop_publication"@) == 9600595945);
        },
        StepKind::AlterSubscriptionSetOptions => {
            reveal_strlit("alter_subscription_set_options");
            assert(fingerprint("alter_subscription_set_options"@) == 8258418543);
        },
        StepKind::CommentOnSubscription => {
            reveal_strlit("comment_on_subscription");
            assert(fingerprint("comment_on_subscription"@) == 6383204338);
        },
        StepKind::CreateStatistic => {
            reveal_strlit("create_statistic");
            assert(fingerprint("create_statistic"@) == 4504483041);
        },
        StepKind::DropStatistic => {
            reveal_strlit("drop_statistic");
            assert(fingerprint("drop_statistic"@) == 3969414369);
        },
        StepKind::ReplaceStatistic => {
            reveal_strlit("replace_statistic");
            assert(fingerprint("replace_statistic"@) == 4804048097);
        },
        StepKind::AlterStatisticSetTarget => {
            reveal_strlit("alter_statistic_set_target");
            assert(fingerprint("alter_statistic_set_target"@) == 7184659167);
        },
        StepKind::CommentOnStatistic => {
            reveal_strlit("comment_on_statistic");
            assert(fingerprint("comment_on_statistic"@) == 5577897185);
        },
        StepKind::CreateCollation => {
            reveal_strlit("create_collation");
            assert(fingerprint("create_collation"@) == 4504221676);
        },
        StepKind::DropCollation => {
            reveal_strlit("drop_collation");
            assert(fingerprint("drop_collation"@) == 3969595372);
        },
        StepKind::RenameCollation => {
            reveal_strlit("rename_collation");
            assert(fingerprint("rename_collation"@) == 4535678956);
        },
        StepKind::ReplaceCollation => {
            reveal_strlit("replace_collation");
            assert(fingerprint("replace_collation"@) == 4804048876);
        },
        StepKind::CommentOnCollation => {
            reveal_strlit("comment_on_collation");
            assert(fingerprint("comment_on_collation"@) == 5577897964);
        },
        StepKind::CreateEventTrigger => {
            reveal_strlit("create_event_trigger");
            assert(fingerprint("create_event_trigger"@) == 5577994996);
        },
        StepKind::DropEventTrigger => {
            reveal_strlit("drop_event_trigger");
            assert(fingerprint("drop_event_trigger"@) == 5043221236);
        },
        StepKind::AlterEventTriggerEnable => {
            reveal_strlit("alter_event_trigger_enable");
            assert(fingerprint("alter_event_trigger_enable"@) == 7184692831);
        },
        StepKind::AlterEventTriggerOwner => {
            reveal_strlit("alter_event_trigger_owner");
            assert(fingerprint("alter_event_trigger_owner"@) == 6916256498);
        },
        StepKind::CommentOnEventTrigger => {
            reveal_strlit("comment_on_event_trigger");
            assert(fingerprint("comment_on_event_trigger"@) == 6651638516);
        },
        StepKind::CreateAggregate => {
            reveal_strlit("create_aggregate");
            assert(fingerprint("create_aggregate"@) == 4504189543);
        },
        StepKind::DropAggregate => {
            reveal_strlit("drop_aggregate");
            assert(fingerprint("drop_aggregate"@) == 3969514087);
        },
        StepKind::AlterAggregateOwner => {
            reveal_strlit("alter_aggregate_owner");
            assert(fingerprint("alter_aggregate_owner"@) == 5842268901);
        },
        StepKind::CommentOnAggregate => {
            reveal_strlit("comment_on_aggregate");
            assert(fingerprint("comment_on_aggregate"@) == 5577898599);
        },
        StepKind::CreateCast => {
            reveal_strlit("create_cast");
            assert(fingerprint("create_cast"@) == 3162044916);
        },
        StepKind::DropCast => {
            reveal_strlit("drop_cast");
            assert(fingerprint("drop_cast"@) == 2627533295);
        },
        StepKind::CommentOnCast => {
            reveal_strlit("comment_on_cast");
            assert(fingerprint("comment_on_cast"@) == 4235721199);
        },
        StepKind::CreateTsDictionary => {
            reveal_strlit("create_ts_dictionary");
            assert(fingerprint("create_ts_dictionary"@) == 5578242420);
        },
        StepKind::DropTsDictionary => {
            reveal_strlit("drop_ts_dictionary");
            assert(fingerprint("drop_ts_dictionary"@) == 5043124596);
        },
        StepKind::AlterTsDictionary => {
            reveal_strlit("alter_ts_dictionary");
            assert(fingerprint("alter_ts_dictionary"@) == 5305596276);
        },
        StepKind::AlterTsDictionaryOwner => {
            reveal_strlit("alter_ts_dictionary_owner");
            assert(fingerprint("alter_ts_dictionary_owner"@) == 6916207353);
        },
        StepKind::CommentOnTsDictionary => {
            reveal_strlit("comment_on_ts_dictionary");
            assert(fingerprint("comment_on_ts_dictionary"@) == 6651640180);
        },
        StepKind::CreateTsConfiguration => {
            reveal_strlit("create_ts_configuration");
            assert(fingerprint("create_ts_configuration"@) == 6383548405);
        },
        StepKind::DropTsConfiguration => {
            reveal_strlit("drop_ts_configuration");
            assert(fingerprint("drop_ts_configuration"@) == 5848430581);
        },
        StepKind::AddTsConfigMapping => {
            reveal_strlit("add_ts_config_mapping");
            assert(fingerprint("add_ts_config_mapping"@) == 5842204525);
        },
        StepKind::AlterTsConfigMapping => {
            reveal_strlit("alter_ts_config_mapping");
            assert(fingerprint("alter_ts_config_mapping"@) == 6379337581);
        },
        StepKind::DropTsConfigMapping => {
            reveal_strlit("drop_ts_config_mapping");
            assert(fingerprint("drop_ts_config_mapping"@) == 6116865901);
        },
        StepKind::AlterTsConfigurationOwner => {
            reveal_strlit("alter_ts_configuration_owner");
            assert(fingerprint("alter_ts_configuration_owner"@) == 7721513710);
        },
        StepKind::CommentOnTsConfiguration => {
            reveal_strlit("comment_on_ts_configuration");
            assert(fingerprint("comment_on_ts_configuration"@) == 7456946165);
        },
    }
}

/// Names of kinds hold no white space.
pub proof fn lemma_kind_names_are_words(k: StepKind)
    ensures
        crate::timestamp::spaceless(kind_text(k)),
{
    match k {
        StepKind::CreateSchema => reveal_strlit("create_schema"),
        StepKind::DropSchema => reveal_strlit("drop_schema"),
        StepKind::AlterSchemaComment => reveal_strlit("alter_schema_comment"),
        StepKind::CreateTable => reveal_strlit("create_table"),
        StepKind::DropTable => reveal_strlit("drop_table"),
        StepKind::AlterTableSetComment => reveal_strlit("alter_table_set_comment"),
        StepKind::AlterTableSetTablespace => reveal_strlit("alter_table_set_tablespace"),
        StepKind::AddColumn => reveal_strlit("add_column"),
        StepKind::DropColumn => reveal_strlit("drop_column"),
        StepKind::AlterColumnType => reveal_strlit("alter_column_type"),
        StepKind::SetColumnNullable => reveal_strlit("set_column_nullable"),
        StepKind::SetColumnDefault => reveal_strlit("set_column_default"),
        StepKind::SetColumnComment => reveal_strlit("set_column_comment"),
        StepKind::SetColumnIdentity => reveal_strlit("set_column_identity"),
        StepKind::SetColumnGenerated => reveal_strlit("set_column_generated"),
        StepKind::SetColumnStorage => reveal_strlit("set_column_storage"),
        StepKind::SetColumnCompression => reveal_strlit("set_column_compression"),
        StepKind::AddConstraint => reveal_strlit("add_constraint"),
        StepKind::AddConstraintNotValid => reveal_strlit("add_constraint_not_valid"),
        StepKind::ValidateConstraint => reveal_strlit("validate_constraint"),
        StepKind::DropConstraint => reveal_strlit("drop_constraint"),
        StepKind::SetConstraintComment => reveal_strlit("set_constraint_comment"),
        StepKind::CreateIndex => reveal_strlit("create_index"),
        StepKind::CreateIndexConcurrent => reveal_strlit("create_index_concurrent"),
        StepKind::DropIndex => reveal_strlit("drop_index"),
        StepKind::DropIndexConcurrent => reveal_strlit("drop_index_concurrent"),
        StepKind::CreateSequence => reveal_strlit("create_sequence"),
        StepKind::DropSequence => reveal_strlit("drop_sequence"),
        StepKind::AlterSequence => reveal_strlit("alter_sequence"),
        StepKind::AddCheckForNotNull => reveal_strlit("add_check_for_not_null"),
        StepKind::CreateView => reveal_strlit("create_view"),
        StepKind::DropView => reveal_strlit("drop_view"),
        StepKind::AlterViewSetCheckOption => reveal_strlit("alter_view_set_check_option"),
        StepKind::CreateMaterializedView => reveal_strlit("create_materialized_view"),
        StepKind::DropMaterializedView => reveal_strlit("drop_materialized_view"),
        StepKind::RefreshMaterializedView => reveal_strlit("refresh_materialized_view"),
        StepKind::AlterViewSetReloption => reveal_strlit("alter_view_set_reloption"),
        StepKind::CommentOnView => reveal_strlit("comment_on_view"),
        StepKind::CreateType => reveal_strlit("create_type"),
        StepKind::DropType => reveal_strlit("drop_type"),
        StepKind::AlterTypeAddValue => reveal_strlit("alter_type_add_value"),
        StepKind::AlterTypeRenameValue => reveal_strlit("alter_type_rename_value"),
        StepKind::AlterDomainAddConstraint => reveal_strlit("alter_domain_add_constraint"),
        StepKind::AlterDomainDropConstraint => reveal_strlit("alter_domain_drop_constraint"),
        StepKind::AlterDomainSetDefault => reveal_strlit("alter_domain_set_default"),
        StepKind::AlterDomainSetNotNull => reveal_strlit("alter_domain_set_not_null"),
        StepKind::AlterTypeAddAttribute => reveal_strlit("alter_type_add_attribute"),
        StepKind::AlterTypeDropAttribute => reveal_strlit("alter_type_drop_attribute"),
        StepKind::AlterTypeAlterAttributeType => reveal_strlit("alter_type_alter_attribute_type"),
        StepKind::CommentOnType => reveal_strlit("comment_on_type"),
        StepKind::CreateOrReplaceFunction => reveal_strlit("create_or_replace_function"),
        StepKind::DropFunction => reveal_strlit("drop_function"),
        StepKind::CommentOnFunction => reveal_strlit("comment_on_function"),
        StepKind::CreateOrReplaceProcedure => reveal_strlit("create_or_replace_procedure"),
        StepKind::DropProcedure => reveal_strlit("drop_procedure"),
        StepKind::CommentOnProcedure => reveal_strlit("comment_on_procedure"),
        StepKind::CreateExtension => reveal_strlit("create_extension"),
        StepKind::DropExtension => reveal_strlit("drop_extension"),
        StepKind::AlterExtensionUpdate => reveal_strlit("alter_extension_update"),
        StepKind::CommentOnExtension => reveal_strlit("comment_on_extension"),
        StepKind::CreateTrigger => reveal_strlit("create_trigger"),
        StepKind::DropTrigger => reveal_strlit("drop_trigger"),
        StepKind::CommentOnTrigger => reveal_strlit("comment_on_trigger"),
        StepKind::AttachPartition => reveal_strlit("attach_partition"),
        StepKind::DetachPartition => reveal_strlit("detach_partition"),
        StepKind::CreateRole => reveal_strlit("create_role"),
        StepKind::DropRole => reveal_strlit("drop_role"),
        StepKind::AlterRole => reveal_strlit("alter_role"),
        StepKind::GrantRoleMembership => reveal_strlit("grant_role_membership"),
        StepKind::RevokeRoleMembership => reveal_strlit("revoke_role_membership"),
        StepKind::CommentOnRole => reveal_strlit("comment_on_role"),
        StepKind::CreateTablespace => reveal_strlit("create_tablespace"),
        StepKind::DropTablespace => reveal_strlit("drop_tablespace"),
        StepKind::AlterTablespaceOwner => reveal_strlit("alter_tablespace_owner"),
        StepKind::SetTablespaceOptions => reveal_strlit("set_tablespace_options"),
        StepKind::CommentOnTablespace => reveal_strlit("comment_on_tablespace"),
        StepKind::AlterObjectOwner => reveal_strlit("alter_object_owner"),
        StepKind::GrantObjectPrivilege => reveal_strlit("grant_object_privilege"),
        StepKind::RevokeObjectPrivilege => reveal_strlit("revoke_object_privilege"),
        StepKind::GrantColumnPrivilege => reveal_strlit("grant_column_privilege"),
        StepKind::RevokeColumnPrivilege => reveal_strlit("revoke_column_privilege"),
        StepKind::AlterDefaultPrivileges => reveal_strlit("alter_default_privileges"),
        StepKind::CreatePolicy => reveal_strlit("create_policy"),
        StepKind::DropPolicy => reveal_strlit("drop_policy"),
        StepKind::AlterPolicy => reveal_strlit("alter_policy"),
        StepKind::SetTableRowSecurity => reveal_strlit("set_table_row_security"),
        StepKind::SetTableForceRowSecurity => reveal_strlit("set_table_force_row_security"),
        StepKind::SetTableStorage => reveal_strlit("set_table_storage"),
        StepKind::SetIndexStorage => reveal_strlit("set_index_storage"),
        StepKind::SetMaterializedViewStorage => reveal_strlit("set_materialized_view_storage"),
        StepKind::CreatePublication => reveal_strlit("create_publication"),
        StepKind::DropPublication => reveal_strlit("drop_publication"),
        StepKind::ReplacePublication => reveal_strlit("replace_publication"),
        StepKind::AlterPublicationAddTable => reveal_strlit("alter_publication_add_table"),
        StepKind::AlterPublicationDropTable => reveal_strlit("alter_publication_drop_table"),
        StepKind::AlterPublicationSetTable => reveal_strlit("alter_publication_set_table"),
        StepKind::AlterPublicationAddSchema => reveal_strlit("alter_publication_add_schema"),
        StepKind::AlterPublicationDropSchema => reveal_strlit("alter_publication_drop_schema"),
        StepKind::AlterPublicationSetPublish => reveal_strlit("alter_publication_set_publish"),
        StepKind::AlterPublicationSetViaRoot => reveal_strlit("alter_publication_set_via_root"),
        StepKind::CommentOnPublication => reveal_strlit("comment_on_publication"),
        StepKind::CreateSubscription => reveal_strlit("create_subscription"),
        StepKind::DropSubscription => reveal_strlit("drop_subscription"),
        StepKind::AlterSubscriptionConnection => reveal_strlit("alter_subscription_connection"),
        StepKind::AlterSubscriptionAddPublication => reveal_strlit("alter_subscription_add_publication"),
        StepKind::AlterSubscriptionDropPublication => reveal_strlit("alter_subscription_drop_publication"),
        StepKind::AlterSubscriptionSetOptions => reveal_strlit("alter_subscription_set_options"),
        StepKind::CommentOnSubscription => reveal_strlit("comment_on_subscription"),
        StepKind::CreateStatistic => reveal_strlit("create_statistic"),
        StepKind::DropStatistic => reveal_strlit("drop_statistic"),
        StepKind::ReplaceStatistic => reveal_strlit("replace_statistic"),
        StepKind::AlterStatisticSetTarget => reveal_strlit("alter_statistic_set_target"),
        StepKind::CommentOnStatistic => reveal_strlit("comment_on_statistic"),
        StepKind::CreateCollation => reveal_strlit("create_collation"),
        StepKind::DropCollation => reveal_strlit("drop_collation"),
        StepKind::RenameCollation => reveal_strlit("rename_collation"),
        StepKind::ReplaceCollation => reveal_strlit("replace_collation"),
        StepKind::CommentOnCollation => reveal_strlit("comment_on_collation"),
        StepKind::CreateEventTrigger => reveal_strlit("create_event_trigger"),
        StepKind::DropEventTrigger => reveal_strlit("drop_event_trigger"),
        StepKind::AlterEventTriggerEnable => reveal_strlit("alter_event_trigger_enable"),
        StepKind::AlterEventTriggerOwner => reveal_strlit("alter_event_trigger_owner"),
        StepKind::CommentOnEventTrigger => reveal_strlit("comment_on_event_trigger"),
        StepKind::CreateAggregate => reveal_strlit("create_aggregate"),
        StepKind::DropAggregate => reveal_strlit("drop_aggregate"),
        StepKind::AlterAggregateOwner => reveal_strlit("alter_aggregate_owner"),
        StepKind::CommentOnAggregate => reveal_strlit("comment_on_aggregate"),
        StepKind::CreateCast => reveal_strlit("create_cast"),
        StepKind::DropCast => reveal_strlit("drop_cast"),
        StepKind::CommentOnCast => reveal_strlit("comment_on_cast"),
        StepKind::CreateTsDictionary => reveal_strlit("create_ts_dictionary"),
        StepKind::DropTsDictionary => reveal_strlit("drop_ts_dictionary"),
        StepKind::AlterTsDictionary => reveal_strlit("alter_ts_dictionary"),
        StepKind::AlterTsDictionaryOwner => reveal_strlit("alter_ts_dictionary_owner"),
        StepKind::CommentOnTsDictionary => reveal_strlit("comment_on_ts_dictionary"),
        StepKind::CreateTsConfiguration => reveal_strlit("create_ts_configuration"),
        StepKind::DropTsConfiguration => reveal_strlit("drop_ts_configuration"),
        StepKind::AddTsConfigMapping => reveal_strlit("add_ts_config_mapping"),
        StepKind::AlterTsConfigMapping => reveal_strlit("alter_ts_config_mapping"),
        StepKind::DropTsConfigMapping => reveal_strlit("drop_ts_config_mapping"),
        StepKind::AlterTsConfigurationOwner => reveal_strlit("alter_ts_configuration_owner"),
        StepKind::CommentOnTsConfiguration => reveal_strlit("comment_on_ts_configuration"),
    }
}

/// Different kinds have different names.
pub proof fn law_kind_names_are_distinct(a: StepKind, b: StepKind)
    requires
        kind_text(a) == kind_text(b),
    ensures
        a == b,
{
    lemma_fingerprint_recovers(a);
    lemma_fingerprint_recovers(b);
}

/// Parsing the name of a kind gives that kind back: whatever
/// [`parse_kind_name`] may answer on `kind_text(k)` is `k`.
pub proof fn law_parsing_inverts_naming(k: StepKind, answer: Option<StepKind>)
    requires
        match answer {
            Some(found) => kind_text(found) == kind_text(k),
            None => forall|other: StepKind| #[trigger] kind_text(other) != kind_text(k),
        },
    ensures
        answer == Some(k),
{
    match answer {
        Some(found) => {
            law_kind_names_are_distinct(found, k);
        },
        None => {
            assert(kind_text(k).len() >= 0);
        },
    }
}

} // verus!
