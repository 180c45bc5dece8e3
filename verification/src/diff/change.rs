//! Changes between two catalogs.

use crate::diff::destructiveness::Destructiveness;
use crate::diff::owner_op::{GrantableObject, OwnerOp};
use crate::diff::sequence_op::SequenceOpEntry;
use crate::diff::table_op::TableOpEntry;
use crate::identifier::{Identifier, QualifiedName};
use crate::ir::collation::Collation;
use crate::ir::column_type::ColumnType;
use crate::ir::default_privileges::DefaultPrivObjectType;
use crate::ir::expr::DefaultExpr;
use crate::ir::extension::Extension;
use crate::ir::function::{Function, NormalizedArgTypes, Procedure};
use crate::ir::grant::Grant;
use crate::ir::index::Index;
use crate::ir::partition::PartitionBounds;
use crate::ir::policy::Policy;
use crate::ir::reloptions::{
    IndexStorageOptions, MaterializedViewStorageOptions, TableStorageOptions,
};
use crate::ir::replication::{
    Publication, PublishKinds, PublishedTable, Subscription, SubscriptionOptions,
};
use crate::ir::routine_objects::{Aggregate, Cast};
use crate::ir::schema::Schema;
use crate::ir::sequence::Sequence;
use crate::ir::statistic::Statistic;
use crate::ir::table::Table;
use crate::ir::text_search::{TsConfiguration, TsDictionary};
use crate::ir::trigger::{EventTrigger, EventTriggerEnabled, Trigger};
use crate::ir::user_type::{CompositeAttribute, DomainCheck, UserType};
use crate::ir::view::{CheckOption, MaterializedView, ViewDefinition};
use vstd::prelude::*;

verus! {

/// A change to a view.
#[derive(Debug, Clone, PartialEq, Eq)]
pub enum ViewChange {
    /// Create it.
    Create(ViewDefinition),
    /// Drop it.
    Drop(QualifiedName),
    /// Replace its query.
    ReplaceBody {
        /// The desired view.
        source: ViewDefinition,
        /// The live view.
        catalog: ViewDefinition,
        /// Whether `CREATE OR REPLACE VIEW` can do it; otherwise the view is
        /// dropped and created again.
        compatible: bool,
    },
    /// Set its options.
    SetReloption {
        /// The view.
        qname: QualifiedName,
        /// `security_barrier`.
        security_barrier: Option<bool>,
        /// `security_invoker`.
        security_invoker: Option<bool>,
    },
    /// Set or drop its comment.
    SetComment {
        /// The view.
        qname: QualifiedName,
        /// Its new comment.
        comment: Option<String>,
    },
    /// Set or drop the comment of a column.
    SetColumnComment {
        /// The view.
        qname: QualifiedName,
        /// The column.
        column: Identifier,
        /// Its new comment.
        comment: Option<String>,
    },
}

/// A change to a materialized view.
#[derive(Debug, Clone, PartialEq, Eq)]
pub enum MvChange {
    /// Create it.
    Create(MaterializedView),
    /// Drop it.
    Drop(QualifiedName),
    /// Replace its query.
    ReplaceBody {
        /// The desired view.
        source: MaterializedView,
        /// The live view.
        catalog: MaterializedView,
    },
    /// Set or drop its comment.
    SetComment {
        /// The view.
        qname: QualifiedName,
        /// Its new comment.
        comment: Option<String>,
    },
    /// Set or drop the comment of a column.
    SetColumnComment {
        /// The view.
        qname: QualifiedName,
        /// The column.
        column: Identifier,
        /// Its new comment.
        comment: Option<String>,
    },
}

/// A change to a user-defined type.
#[derive(Debug, Clone, PartialEq, Eq)]
pub enum UserTypeChange {
    /// Create it.
    Create(UserType),
    /// Drop it.
    Drop(QualifiedName),
    /// Drop it with everything that uses it, and create it again.
    ReplaceWithCascade {
        /// The desired type.
        source: UserType,
        /// The live type.
        catalog: UserType,
    },
    /// Add an enum label.
    EnumAddValue {
        /// The type.
        qname: QualifiedName,
        /// The label.
        value: String,
        /// The label it goes before.
        before: Option<String>,
        /// The label it goes after.
        after: Option<String>,
    },
    /// Rename an enum label.
    EnumRenameValue {
        /// The type.
        qname: QualifiedName,
        /// The label so far.
        from: String,
        /// The new label.
        to: String,
    },
    /// Add a check to a domain.
    DomainAddCheck {
        /// The domain.
        qname: QualifiedName,
        /// The check.
        constraint: DomainCheck,
    },
    /// Drop a check of a domain.
    DomainDropCheck {
        /// The domain.
        qname: QualifiedName,
        /// The check.
        name: Identifier,
    },
    /// Set or drop the default of a domain.
    DomainSetDefault {
        /// The domain.
        qname: QualifiedName,
        /// Its new default.
        default: Option<DefaultExpr>,
    },
    /// Refuse or accept null in a domain.
    DomainSetNotNull {
        /// The domain.
        qname: QualifiedName,
        /// Whether it refuses null.
        not_null: bool,
    },
    /// Add an attribute to a composite type.
    CompositeAddAttribute {
        /// The type.
        qname: QualifiedName,
        /// The attribute.
        attribute: CompositeAttribute,
    },
    /// Drop an attribute of a composite type.
    CompositeDropAttribute {
        /// The type.
        qname: QualifiedName,
        /// The attribute.
        name: Identifier,
    },
    /// Change the type of an attribute.
    CompositeAlterAttributeType {
        /// The type.
        qname: QualifiedName,
        /// The attribute.
        attribute: Identifier,
        /// Its new type.
        new_type: ColumnType,
    },
    /// Set or drop its comment.
    SetComment {
        /// The type.
        qname: QualifiedName,
        /// Its new comment.
        comment: Option<String>,
    },
}

/// A change to a function.
#[derive(Debug, Clone, PartialEq, Eq)]
pub enum FunctionChange {
    /// Create it.
    Create(Function),
    /// Drop it.
    Drop {
        /// The function.
        qname: QualifiedName,
        /// Its argument types.
        args: NormalizedArgTypes,
    },
    /// Replace it in place.
    CreateOrReplace(Function),
    /// Drop it with everything that uses it, and create it again.
    ReplaceWithCascade {
        /// The desired function.
        source: Function,
        /// The live function.
        catalog: Function,
    },
    /// Set or drop its comment.
    SetComment {
        /// The function.
        qname: QualifiedName,
        /// Its argument types.
        args: NormalizedArgTypes,
        /// Its new comment.
        comment: Option<String>,
    },
}

/// A change to a procedure.
#[derive(Debug, Clone, PartialEq, Eq)]
pub enum ProcedureChange {
    /// Create it.
    Create(Procedure),
    /// Drop it.
    Drop(QualifiedName),
    /// Replace it in place.
    CreateOrReplace(Procedure),
    /// Set or drop its comment.
    SetComment {
        /// The procedure.
        qname: QualifiedName,
        /// Its new comment.
        comment: Option<String>,
    },
}

/// A change to an extension.
#[derive(Debug, Clone, PartialEq, Eq)]
pub enum ExtensionChange {
    /// Create it.
    Create(Extension),
    /// Drop it.
    Drop(Identifier),
    /// Update its version.
    AlterUpdate {
        /// The extension.
        name: Identifier,
        /// Its new version.
        to_version: String,
    },
    /// Drop it with everything that uses it, and create it again.
    ReplaceWithCascade(Extension),
    /// Set or drop its comment.
    CommentOn {
        /// The extension.
        name: Identifier,
        /// Its new comment.
        comment: Option<String>,
    },
}

/// A change to a trigger.
#[derive(Debug, Clone, PartialEq, Eq)]
pub enum TriggerChange {
    /// Create it.
    Create(Trigger),
    /// Drop it.
    Drop {
        /// The trigger.
        qname: QualifiedName,
        /// The relation it is on.
        table: QualifiedName,
    },
    /// Drop it and create it again.
    Replace(Trigger),
    /// Set or drop its comment.
    CommentOn {
        /// The trigger.
        qname: QualifiedName,
        /// The relation it is on.
        table: QualifiedName,
        /// Its new comment.
        comment: Option<String>,
    },
}

/// A change of partition membership.
#[derive(Debug, Clone, PartialEq, Eq)]
pub enum TableChange {
    /// Attach a partition.
    AttachPartition {
        /// The partitioned table.
        parent: QualifiedName,
        /// The partition.
        child: QualifiedName,
        /// The rows it holds.
        bounds: PartitionBounds,
    },
    /// Detach a partition.
    DetachPartition {
        /// The partitioned table.
        parent: QualifiedName,
        /// The partition.
        child: QualifiedName,
    },
}

/// A change to a publication.
#[derive(Debug, Clone, PartialEq, Eq)]
pub enum PublicationChange {
    /// Create it.
    Create(Publication),
    /// Drop it.
    Drop {
        /// The publication.
        name: Identifier,
    },
    /// Drop it and create it again.
    Replace {
        /// The live publication.
        from: Publication,
        /// The desired publication.
        to: Publication,
    },
    /// Add a table.
    AddTable {
        /// The publication.
        publication: Identifier,
        /// The table.
        table: PublishedTable,
    },
    /// Drop a table.
    DropTable {
        /// The publication.
        publication: Identifier,
        /// The table.
        qname: QualifiedName,
    },
    /// Change how a table is published.
    SetTable {
        /// The publication.
        publication: Identifier,
        /// The table.
        table: PublishedTable,
    },
    /// Add a schema.
    AddSchema {
        /// The publication.
        publication: Identifier,
        /// The schema.
        schema: Identifier,
    },
    /// Drop a schema.
    DropSchema {
        /// The publication.
        publication: Identifier,
        /// The schema.
        schema: Identifier,
    },
    /// Set the operations it publishes.
    SetPublish {
        /// The publication.
        publication: Identifier,
        /// The operations.
        kinds: PublishKinds,
    },
    /// Set `publish_via_partition_root`.
    SetViaRoot {
        /// The publication.
        publication: Identifier,
        /// The value.
        value: bool,
    },
    /// Set or drop its comment.
    CommentOn {
        /// The publication.
        name: Identifier,
        /// Its new comment.
        comment: Option<String>,
    },
}

/// A change to a subscription.
#[derive(Debug, Clone, PartialEq, Eq)]
pub enum SubscriptionChange {
    /// Create it.
    Create(Subscription),
    /// Drop it.
    Drop {
        /// The subscription.
        name: Identifier,
    },
    /// Change its connection string.
    AlterConnection {
        /// The subscription.
        name: Identifier,
        /// The connection string.
        new_connection: String,
    },
    /// Add a publication.
    AddPublication {
        /// The subscription.
        name: Identifier,
        /// The publication.
        publication: Identifier,
    },
    /// Drop a publication.
    DropPublication {
        /// The subscription.
        name: Identifier,
        /// The publication.
        publication: Identifier,
    },
    /// Set options.
    SetOptions {
        /// The subscription.
        name: Identifier,
        /// The options.
        options: SubscriptionOptions,
    },
    /// Set or drop its comment.
    CommentOn {
        /// The subscription.
        name: Identifier,
        /// Its new comment.
        comment: Option<String>,
    },
}

/// A change to a statistics object.
#[derive(Debug, Clone, PartialEq, Eq)]
pub enum StatisticChange {
    /// Create it.
    Create(Statistic),
    /// Drop it.
    Drop {
        /// The statistics object.
        qname: QualifiedName,
    },
    /// Drop it and create it again.
    Replace {
        /// The live object.
        from: Statistic,
        /// The desired object.
        to: Statistic,
    },
    /// Set its statistics target.
    AlterSetTarget {
        /// The statistics object.
        qname: QualifiedName,
        /// The target.
        value: i32,
    },
    /// Set or drop its comment.
    CommentOn {
        /// The statistics object.
        qname: QualifiedName,
        /// Its new comment.
        comment: Option<String>,
    },
}

/// A change to a collation.
#[derive(Debug, Clone, PartialEq, Eq)]
pub enum CollationChange {
    /// Create it.
    Create(Collation),
    /// Drop it.
    Drop {
        /// The collation.
        qname: QualifiedName,
    },
    /// Rename it.
    Rename {
        /// The collation.
        from: QualifiedName,
        /// Its new name.
        to: Identifier,
    },
    /// Drop it and create it again.
    Replace {
        /// The live collation.
        from: Collation,
        /// The desired collation.
        to: Collation,
    },
    /// Set or drop its comment.
    CommentOn {
        /// The collation.
        qname: QualifiedName,
        /// Its new comment.
        comment: Option<String>,
    },
}

/// A change to an event trigger.
#[derive(Debug, Clone, PartialEq, Eq)]
pub enum EventTriggerChange {
    /// Create it.
    Create(EventTrigger),
    /// Drop it and create it again.
    Replace {
        /// The live event trigger.
        from: EventTrigger,
        /// The desired event trigger.
        to: EventTrigger,
    },
    /// Drop it.
    Drop {
        /// The event trigger.
        name: Identifier,
    },
    /// Enable or disable it.
    AlterEnable {
        /// The event trigger.
        name: Identifier,
        /// Whether it fires.
        enabled: EventTriggerEnabled,
    },
    /// Change its owner.
    AlterOwner {
        /// The event trigger.
        name: Identifier,
        /// Its new owner.
        owner: Identifier,
    },
    /// Set or drop its comment.
    CommentOn {
        /// The event trigger.
        name: Identifier,
        /// Its new comment.
        comment: Option<String>,
    },
}

/// A change to an aggregate.
#[derive(Debug, Clone, PartialEq, Eq)]
pub enum AggregateChange {
    /// Create it.
    Create(Aggregate),
    /// Drop it and create it again.
    Replace {
        /// The live aggregate.
        from: Aggregate,
        /// The desired aggregate.
        to: Aggregate,
    },
    /// Drop it.
    Drop {
        /// The aggregate.
        qname: QualifiedName,
        /// Its argument types.
        arg_types: Vec<ColumnType>,
    },
    /// Change its owner.
    AlterOwner {
        /// The aggregate.
        qname: QualifiedName,
        /// Its argument types.
        arg_types: Vec<ColumnType>,
        /// Its new owner.
        owner: Identifier,
    },
    /// Set or drop its comment.
    CommentOn {
        /// The aggregate.
        qname: QualifiedName,
        /// Its argument types.
        arg_types: Vec<ColumnType>,
        /// Its new comment.
        comment: Option<String>,
    },
}

/// A change to a cast.
#[derive(Debug, Clone, PartialEq, Eq)]
pub enum CastChange {
    /// Create it.
    Create(Cast),
    /// Drop it and create it again.
    Replace {
        /// The live cast.
        from: Cast,
        /// The desired cast.
        to: Cast,
    },
    /// Drop it.
    Drop {
        /// The type it converts from.
        source: QualifiedName,
        /// The type it converts to.
        target: QualifiedName,
    },
    /// Set or drop its comment.
    CommentOn {
        /// The type it converts from.
        source: QualifiedName,
        /// The type it converts to.
        target: QualifiedName,
        /// Its new comment.
        comment: Option<String>,
    },
}

/// A change to a text search dictionary.
#[derive(Debug, Clone, PartialEq, Eq)]
pub enum TsDictionaryChange {
    /// Create it.
    Create(TsDictionary),
    /// Drop it and create it again.
    Replace {
        /// The live dictionary.
        from: TsDictionary,
        /// The desired dictionary.
        to: TsDictionary,
    },
    /// Drop it.
    Drop {
        /// The dictionary.
        qname: QualifiedName,
    },
    /// Set options.
    AlterOptions {
        /// The dictionary.
        qname: QualifiedName,
        /// The options, as key and value.
        options: Vec<(String, String)>,
    },
    /// Change its owner.
    AlterOwner {
        /// The dictionary.
        qname: QualifiedName,
        /// Its new owner.
        owner: Identifier,
    },
    /// Set or drop its comment.
    CommentOn {
        /// The dictionary.
        qname: QualifiedName,
        /// Its new comment.
        comment: Option<String>,
    },
}

/// A change to a text search configuration.
#[derive(Debug, Clone, PartialEq, Eq)]
pub enum TsConfigurationChange {
    /// Create it.
    Create(TsConfiguration),
    /// Drop it and create it again.
    Replace {
        /// The live configuration.
        from: TsConfiguration,
        /// The desired configuration.
        to: TsConfiguration,
    },
    /// Drop it.
    Drop {
        /// The configuration.
        qname: QualifiedName,
    },
    /// Add a mapping.
    AddMapping {
        /// The configuration.
        qname: QualifiedName,
        /// The token type alias.
        token_type: String,
        /// The dictionaries, in order.
        dictionaries: Vec<QualifiedName>,
    },
    /// Change a mapping.
    AlterMapping {
        /// The configuration.
        qname: QualifiedName,
        /// The token type alias.
        token_type: String,
        /// The dictionaries, in order.
        dictionaries: Vec<QualifiedName>,
    },
    /// Drop a mapping.
    DropMapping {
        /// The configuration.
        qname: QualifiedName,
        /// The token type alias.
        token_type: String,
    },
    /// Change its owner.
    AlterOwner {
        /// The configuration.
        qname: QualifiedName,
        /// Its new owner.
        owner: Identifier,
    },
    /// Set or drop its comment.
    CommentOn {
        /// The configuration.
        qname: QualifiedName,
        /// Its new comment.
        comment: Option<String>,
    },
}

/// Whether a default privilege is given or taken.
#[derive(Debug, Clone, Copy, PartialEq, Eq, Structural)]
pub enum GrantDirection {
    /// Given.
    Grant,
    /// Taken.
    Revoke,
}

/// One change between two catalogs.
#[derive(Debug, Clone, PartialEq, Eq)]
pub enum Change {
    /// Create a schema.
    CreateSchema(Schema),
    /// Drop a schema.
    DropSchema(Identifier),
    /// Set or drop the comment of a schema.
    AlterSchema {
        /// The schema.
        name: Identifier,
        /// Its new comment.
        comment: Option<String>,
    },
    /// Create a table.
    CreateTable(Table),
    /// Drop a table.
    DropTable {
        /// The table.
        qname: QualifiedName,
        /// How many rows it holds, roughly.
        row_count_estimate: Option<u64>,
    },
    /// Operations on a table.
    AlterTable {
        /// The table.
        qname: QualifiedName,
        /// The operations, in order.
        ops: Vec<TableOpEntry>,
    },
    /// Create an index.
    CreateIndex(Index),
    /// Drop an index.
    DropIndex(QualifiedName),
    /// Drop an index and create it again.
    ReplaceIndex {
        /// The live index.
        from: Index,
        /// The desired index.
        to: Index,
    },
    /// Create a sequence.
    CreateSequence(Sequence),
    /// Drop a sequence.
    DropSequence(QualifiedName),
    /// Operations on a sequence.
    AlterSequence {
        /// The sequence.
        qname: QualifiedName,
        /// The operations, in order.
        ops: Vec<SequenceOpEntry>,
    },
    /// Validate a constraint that is not valid yet.
    ValidateConstraint {
        /// Its table.
        table: QualifiedName,
        /// The constraint.
        constraint: Identifier,
    },
    /// Drop an invalid index and create it again.
    RecreateIndex {
        /// The index.
        qname: QualifiedName,
    },
    /// A change to a view.
    View(ViewChange),
    /// Set the check option of a view.
    AlterViewSetCheckOption {
        /// The view.
        qname: QualifiedName,
        /// Its new check option.
        check_option: Option<CheckOption>,
    },
    /// A change to a materialized view.
    Mv(MvChange),
    /// A change to a user-defined type.
    UserType(UserTypeChange),
    /// A change to a function.
    Function(FunctionChange),
    /// A change to a procedure.
    Procedure(ProcedureChange),
    /// A change to an extension.
    Extension(ExtensionChange),
    /// A change to a trigger.
    Trigger(TriggerChange),
    /// A change of partition membership.
    Table(TableChange),
    /// A change of owner.
    AlterObjectOwner(OwnerOp),
    /// Grant a privilege on an object.
    GrantObjectPrivilege {
        /// The object.
        object: GrantableObject,
        /// The grant.
        grant: Grant,
    },
    /// Revoke a privilege on an object.
    RevokeObjectPrivilege {
        /// The object.
        object: GrantableObject,
        /// The grant.
        grant: Grant,
    },
    /// Grant a privilege on columns.
    GrantColumnPrivilege {
        /// The table.
        qname: QualifiedName,
        /// The grant.
        grant: Grant,
    },
    /// Revoke a privilege on columns.
    RevokeColumnPrivilege {
        /// The table.
        qname: QualifiedName,
        /// The grant.
        grant: Grant,
    },
    /// Change default privileges.
    AlterDefaultPrivileges {
        /// The role whose objects are concerned.
        target_role: Identifier,
        /// The schema, where the rule is limited to one.
        schema: Option<Identifier>,
        /// The objects concerned.
        object_type: DefaultPrivObjectType,
        /// Given or taken.
        direction: GrantDirection,
        /// The grant.
        grant: Grant,
    },
    /// Create a row-level security policy.
    CreatePolicy {
        /// The table.
        table: QualifiedName,
        /// The policy.
        policy: Policy,
    },
    /// Drop a row-level security policy.
    DropPolicy {
        /// The table.
        table: QualifiedName,
        /// The policy.
        name: Identifier,
    },
    /// Change a row-level security policy.
    AlterPolicy {
        /// The table.
        table: QualifiedName,
        /// The policy.
        policy: Policy,
    },
    /// Enable or disable row-level security.
    SetTableRowSecurity {
        /// The table.
        qname: QualifiedName,
        /// Whether it is enabled.
        security: bool,
    },
    /// Force row-level security on the owner, or not.
    SetTableForceRowSecurity {
        /// The table.
        qname: QualifiedName,
        /// Whether it is forced.
        force: bool,
    },
    /// Set storage options of a table.
    SetTableStorage {
        /// The table.
        qname: QualifiedName,
        /// The options.
        options: TableStorageOptions,
    },
    /// Set storage options of an index.
    SetIndexStorage {
        /// The index.
        qname: QualifiedName,
        /// The options.
        options: IndexStorageOptions,
    },
    /// Set storage options of a materialized view.
    SetMaterializedViewStorage {
        /// The materialized view.
        qname: QualifiedName,
        /// The options.
        options: MaterializedViewStorageOptions,
    },
    /// A change to a publication.
    Publication(PublicationChange),
    /// A change to a subscription.
    Subscription(SubscriptionChange),
    /// A change to a statistics object.
    Statistic(StatisticChange),
    /// A change to a collation.
    Collation(CollationChange),
    /// A change to an event trigger.
    EventTrigger(EventTriggerChange),
    /// A change to an aggregate.
    Aggregate(AggregateChange),
    /// A change to a cast.
    Cast(CastChange),
    /// A change to a text search dictionary.
    TsDictionary(TsDictionaryChange),
    /// A change to a text search configuration.
    TsConfiguration(TsConfigurationChange),
    /// A difference that cannot be planned.
    UnsupportedDiff {
        /// Why.
        reason: String,
    },
}

/// One change and the approval it needs.
#[derive(Debug, Clone, PartialEq, Eq)]
pub struct ChangeEntry {
    /// The change.
    pub change: Change,
    /// The approval it needs.
    pub destructiveness: Destructiveness,
}

/// The changes between two catalogs.
#[derive(Debug, Clone, PartialEq, Eq)]
pub struct ChangeSet {
    /// The changes.
    pub entries: Vec<ChangeEntry>,
}

impl ChangeSet {
    /// No changes.
    pub fn new() -> (changes: ChangeSet)
        ensures
            changes.entries@.len() == 0,
    {
        ChangeSet { entries: Vec::new() }
    }

    /// Appends a change.
    pub fn push(&mut self, change: Change, destructiveness: Destructiveness)
        ensures
            final(self).entries@ == old(self).entries@.push(
                (ChangeEntry { change, destructiveness }),
            ),
    {
        self.entries.push(ChangeEntry { change, destructiveness });
    }
}

} // verus!
