//! When a change is planned, and at which node of the dependency graph.

use crate::diff::change::{
    AggregateChange, CastChange, Change, CollationChange, EventTriggerChange, ExtensionChange,
    FunctionChange, MvChange, ProcedureChange, PublicationChange, StatisticChange,
    SubscriptionChange, TableChange, TriggerChange, TsConfigurationChange, TsDictionaryChange,
    UserTypeChange, ViewChange,
};
use crate::diff::owner_op::{GrantableObject, OwnerOp};
use crate::diff::sequence_op::SequenceOpEntry;
use crate::diff::table_op::TableOpEntry;
use crate::identifier::{Identifier, QualifiedName};
use crate::ir::collation::Collation;
use crate::ir::extension::Extension;
use crate::ir::function::{Function, NormalizedArgTypes, Procedure};
use crate::ir::grant::Grant;
use crate::ir::index::Index;
use crate::ir::policy::Policy;
use crate::ir::replication::{Publication, Subscription};
use crate::ir::routine_objects::{Aggregate, Cast};
use crate::ir::schema::Schema;
use crate::ir::sequence::Sequence;
use crate::ir::statistic::Statistic;
use crate::ir::table::Table;
use crate::ir::text_search::{TsConfiguration, TsDictionary};
use crate::ir::trigger::{EventTrigger, Trigger};
use crate::ir::user_type::UserType;
use crate::ir::view::{MaterializedView, ViewDefinition};
use crate::plan::buckets::{bucket_of, change_key};
use crate::plan::edges::NodeKey;
use crate::plan::object_edges::{Dependent, ScopeModel};
use vstd::prelude::*;

verus! {

/// The change is planned among the creates, at that node.
pub open spec fn is_created_at(c: Change, n: NodeKey) -> bool {
    bucket_of(c) is Create && change_key(c) == n
}

/// The change is planned among the drops, at that node.
pub open spec fn is_dropped_at(c: Change, n: NodeKey) -> bool {
    bucket_of(c) is Drop && change_key(c) == n
}

/// The change is planned among the modifies, at that node.
pub open spec fn is_modified_at(c: Change, n: NodeKey) -> bool {
    bucket_of(c) is Modify && change_key(c) == n
}

/// Creating a schema is planned among the creates, at the node that the schema
/// declares, and dropping it among the drops, at the same node.
pub proof fn law_schema_is_created_and_dropped_at_its_node(o: Schema, scope: ScopeModel)
    ensures
        o.declares(scope).contains(change_key(Change::CreateSchema(o))),
        bucket_of(Change::CreateSchema(o)) is Create,
        is_dropped_at(
            Change::DropSchema(o.name),
            change_key(Change::CreateSchema(o)),
        ),
{
}

/// Creating a table is planned among the creates, at the node that the table
/// declares, and dropping it among the drops, at the same node.
pub proof fn law_table_is_created_and_dropped_at_its_node(o: Table, scope: ScopeModel, rows: Option<u64>)
    ensures
        o.declares(scope).contains(change_key(Change::CreateTable(o))),
        bucket_of(Change::CreateTable(o)) is Create,
        is_dropped_at(
            Change::DropTable { qname: o.qname, row_count_estimate: rows },
            change_key(Change::CreateTable(o)),
        ),
{
}

/// Creating an index is planned among the creates, at the node that the index
/// declares, and dropping it among the drops, at the same node.
pub proof fn law_index_is_created_and_dropped_at_its_node(o: Index, scope: ScopeModel)
    ensures
        o.declares(scope).contains(change_key(Change::CreateIndex(o))),
        bucket_of(Change::CreateIndex(o)) is Create,
        is_dropped_at(
            Change::DropIndex(o.qname),
            change_key(Change::CreateIndex(o)),
        ),
{
}

/// Creating a sequence is planned among the creates, at the node that the sequence
/// declares, and dropping it among the drops, at the same node.
pub proof fn law_sequence_is_created_and_dropped_at_its_node(o: Sequence, scope: ScopeModel)
    ensures
        o.declares(scope).contains(change_key(Change::CreateSequence(o))),
        bucket_of(Change::CreateSequence(o)) is Create,
        is_dropped_at(
            Change::DropSequence(o.qname),
            change_key(Change::CreateSequence(o)),
        ),
{
}

/// Creating a view is planned among the creates, at the node that the view
/// declares, and dropping it among the drops, at the same node.
pub proof fn law_view_is_created_and_dropped_at_its_node(o: ViewDefinition, scope: ScopeModel)
    ensures
        o.declares(scope).contains(change_key(Change::View(ViewChange::Create(o)))),
        bucket_of(Change::View(ViewChange::Create(o))) is Create,
        is_dropped_at(
            Change::View(ViewChange::Drop(o.qname)),
            change_key(Change::View(ViewChange::Create(o))),
        ),
{
}

/// Creating a materialized view is planned among the creates, at the node that the materialized view
/// declares, and dropping it among the drops, at the same node.
pub proof fn law_mv_is_created_and_dropped_at_its_node(o: MaterializedView, scope: ScopeModel)
    ensures
        o.declares(scope).contains(change_key(Change::Mv(MvChange::Create(o)))),
        bucket_of(Change::Mv(MvChange::Create(o))) is Create,
        is_dropped_at(
            Change::Mv(MvChange::Drop(o.qname)),
            change_key(Change::Mv(MvChange::Create(o))),
        ),
{
}

/// Creating a type is planned among the creates, at the node that the type
/// declares, and dropping it among the drops, at the same node.
pub proof fn law_ty_is_created_and_dropped_at_its_node(o: UserType, scope: ScopeModel)
    ensures
        o.declares(scope).contains(change_key(Change::UserType(UserTypeChange::Create(o)))),
        bucket_of(Change::UserType(UserTypeChange::Create(o))) is Create,
        is_dropped_at(
            Change::UserType(UserTypeChange::Drop(o.qname)),
            change_key(Change::UserType(UserTypeChange::Create(o))),
        ),
{
}

/// Creating a function is planned among the creates, at the node that the function
/// declares, and dropping it among the drops, at the same node.
pub proof fn law_function_is_created_and_dropped_at_its_node(o: Function, scope: ScopeModel)
    ensures
        o.declares(scope).contains(change_key(Change::Function(FunctionChange::Create(o)))),
        bucket_of(Change::Function(FunctionChange::Create(o))) is Create,
        is_dropped_at(
            Change::Function(FunctionChange::Drop { qname: o.qname, args: o.arg_types_normalized }),
            change_key(Change::Function(FunctionChange::Create(o))),
        ),
{
}

/// Creating a procedure is planned among the creates, at the node that the procedure
/// declares, and dropping it among the drops, at the same node.
pub proof fn law_procedure_is_created_and_dropped_at_its_node(o: Procedure, scope: ScopeModel)
    ensures
        o.declares(scope).contains(change_key(Change::Procedure(ProcedureChange::Create(o)))),
        bucket_of(Change::Procedure(ProcedureChange::Create(o))) is Create,
        is_dropped_at(
            Change::Procedure(ProcedureChange::Drop(o.qname)),
            change_key(Change::Procedure(ProcedureChange::Create(o))),
        ),
{
}

/// Creating an extension is planned among the creates, at the node that the extension
/// declares, and dropping it among the drops, at the same node.
pub proof fn law_extension_is_created_and_dropped_at_its_node(o: Extension, scope: ScopeModel)
    ensures
        o.declares(scope).contains(change_key(Change::Extension(ExtensionChange::Create(o)))),
        bucket_of(Change::Extension(ExtensionChange::Create(o))) is Create,
        is_dropped_at(
            Change::Extension(ExtensionChange::Drop(o.name)),
            change_key(Change::Extension(ExtensionChange::Create(o))),
        ),
{
}

/// Creating a trigger is planned among the creates, at the node that the trigger
/// declares, and dropping it among the drops, at the same node.
pub proof fn law_trigger_is_created_and_dropped_at_its_node(o: Trigger, scope: ScopeModel)
    ensures
        o.declares(scope).contains(change_key(Change::Trigger(TriggerChange::Create(o)))),
        bucket_of(Change::Trigger(TriggerChange::Create(o))) is Create,
        is_dropped_at(
            Change::Trigger(TriggerChange::Drop { qname: o.qname, table: o.table }),
            change_key(Change::Trigger(TriggerChange::Create(o))),
        ),
{
}

/// Creating a publication is planned among the creates, at the node that the publication
/// declares, and dropping it among the drops, at the same node.
pub proof fn law_publication_is_created_and_dropped_at_its_node(o: Publication, scope: ScopeModel)
    ensures
        o.declares(scope).contains(change_key(Change::Publication(PublicationChange::Create(o)))),
        bucket_of(Change::Publication(PublicationChange::Create(o))) is Create,
        is_dropped_at(
            Change::Publication(PublicationChange::Drop { name: o.name }),
            change_key(Change::Publication(PublicationChange::Create(o))),
        ),
{
}

/// Creating a subscription is planned among the creates, at the node that the subscription
/// declares, and dropping it among the drops, at the same node.
pub proof fn law_subscription_is_created_and_dropped_at_its_node(o: Subscription, scope: ScopeModel)
    ensures
        o.declares(scope).contains(change_key(Change::Subscription(SubscriptionChange::Create(o)))),
        bucket_of(Change::Subscription(SubscriptionChange::Create(o))) is Create,
        is_dropped_at(
            Change::Subscription(SubscriptionChange::Drop { name: o.name }),
            change_key(Change::Subscription(SubscriptionChange::Create(o))),
        ),
{
}

/// Creating a statistic is planned among the creates, at the node that the statistic
/// declares, and dropping it among the drops, at the same node.
pub proof fn law_statistic_is_created_and_dropped_at_its_node(o: Statistic, scope: ScopeModel)
    ensures
        o.declares(scope).contains(change_key(Change::Statistic(StatisticChange::Create(o)))),
        bucket_of(Change::Statistic(StatisticChange::Create(o))) is Create,
        is_dropped_at(
            Change::Statistic(StatisticChange::Drop { qname: o.qname }),
            change_key(Change::Statistic(StatisticChange::Create(o))),
        ),
{
}

/// Creating a collation is planned among the creates, at the node that the collation
/// declares, and dropping it among the drops, at the same node.
pub proof fn law_collation_is_created_and_dropped_at_its_node(o: Collation, scope: ScopeModel)
    ensures
        o.declares(scope).contains(change_key(Change::Collation(CollationChange::Create(o)))),
        bucket_of(Change::Collation(CollationChange::Create(o))) is Create,
        is_dropped_at(
            Change::Collation(CollationChange::Drop { qname: o.qname }),
            change_key(Change::Collation(CollationChange::Create(o))),
        ),
{
}

/// Creating an event trigger is planned among the creates, at the node that the event trigger
/// declares, and dropping it among the drops, at the same node.
pub proof fn law_event_trigger_is_created_and_dropped_at_its_node(o: EventTrigger, scope: ScopeModel)
    ensures
        o.declares(scope).contains(change_key(Change::EventTrigger(EventTriggerChange::Create(o)))),
        bucket_of(Change::EventTrigger(EventTriggerChange::Create(o))) is Create,
        is_dropped_at(
            Change::EventTrigger(EventTriggerChange::Drop { name: o.name }),
            change_key(Change::EventTrigger(EventTriggerChange::Create(o))),
        ),
{
}

/// Creating an aggregate is planned among the creates, at the node that the aggregate
/// declares, and dropping it among the drops, at the same node.
pub proof fn law_aggregate_is_created_and_dropped_at_its_node(o: Aggregate, scope: ScopeModel)
    ensures
        o.declares(scope).contains(change_key(Change::Aggregate(AggregateChange::Create(o)))),
        bucket_of(Change::Aggregate(AggregateChange::Create(o))) is Create,
        is_dropped_at(
            Change::Aggregate(AggregateChange::Drop { qname: o.qname, arg_types: o.arg_types }),
            change_key(Change::Aggregate(AggregateChange::Create(o))),
        ),
{
}

/// Creating a cast is planned among the creates, at the node that the cast
/// declares, and dropping it among the drops, at the same node.
pub proof fn law_cast_is_created_and_dropped_at_its_node(o: Cast, scope: ScopeModel)
    ensures
        o.declares(scope).contains(change_key(Change::Cast(CastChange::Create(o)))),
        bucket_of(Change::Cast(CastChange::Create(o))) is Create,
        is_dropped_at(
            Change::Cast(CastChange::Drop { source: o.source, target: o.target }),
            change_key(Change::Cast(CastChange::Create(o))),
        ),
{
}

/// Altering a table in any way is planned among the modifies, at the node at
/// which the table is dropped; a partition is attached and detached at its own
/// node.
pub proof fn law_tables_are_altered_at_their_node(
    q: QualifiedName,
    other: QualifiedName,
    rows: Option<u64>,
    ops: Vec<TableOpEntry>,
    name: Identifier,
    policy: Policy,
    grant: Grant,
    flag: bool,
    bounds: crate::ir::partition::PartitionBounds,
    options: crate::ir::reloptions::TableStorageOptions,
)
    ensures
        ({
            let n = change_key(Change::DropTable { qname: q, row_count_estimate: rows });
            &&& is_modified_at(Change::AlterTable { qname: q, ops }, n)
            &&& is_modified_at(Change::ValidateConstraint { table: q, constraint: name }, n)
            &&& is_modified_at(Change::CreatePolicy { table: q, policy }, n)
            &&& is_modified_at(Change::AlterPolicy { table: q, policy }, n)
            &&& is_modified_at(Change::DropPolicy { table: q, name }, n)
            &&& is_modified_at(Change::SetTableRowSecurity { qname: q, security: flag }, n)
            &&& is_modified_at(Change::SetTableForceRowSecurity { qname: q, force: flag }, n)
            &&& is_modified_at(Change::SetTableStorage { qname: q, options }, n)
            &&& is_modified_at(Change::GrantColumnPrivilege { qname: q, grant }, n)
            &&& is_modified_at(Change::RevokeColumnPrivilege { qname: q, grant }, n)
            &&& is_modified_at(
                Change::Table(TableChange::AttachPartition { parent: other, child: q, bounds }),
                n,
            )
            &&& is_modified_at(
                Change::Table(TableChange::DetachPartition { parent: other, child: q }),
                n,
            )
        }),
{
}

/// Altering a schema, an index, a sequence, a view or a materialized view is
/// planned among the modifies, at the node at which it is dropped. An index
/// that is replaced stands at the node of the new one, a view whose body is
/// replaced at the node of the new body.
pub proof fn law_relations_are_altered_at_their_node(
    q: QualifiedName,
    name: Identifier,
    comment: Option<String>,
    from: Index,
    to: Index,
    ops: Vec<SequenceOpEntry>,
    old_view: ViewDefinition,
    new_view: ViewDefinition,
    old_mv: MaterializedView,
    new_mv: MaterializedView,
    flag: bool,
    setting: Option<bool>,
    check: Option<crate::ir::view::CheckOption>,
    index_options: crate::ir::reloptions::IndexStorageOptions,
    mv_options: crate::ir::reloptions::MaterializedViewStorageOptions,
)
    ensures
        is_modified_at(
            Change::AlterSchema { name, comment },
            change_key(Change::DropSchema(name)),
        ),
        is_modified_at(Change::ReplaceIndex { from, to }, change_key(Change::CreateIndex(to))),
        is_modified_at(Change::RecreateIndex { qname: q }, change_key(Change::DropIndex(q))),
        is_modified_at(
            Change::SetIndexStorage { qname: q, options: index_options },
            change_key(Change::DropIndex(q)),
        ),
        is_modified_at(
            Change::AlterSequence { qname: q, ops },
            change_key(Change::DropSequence(q)),
        ),
        ({
            let n = change_key(Change::View(ViewChange::Drop(q)));
            &&& is_modified_at(
                Change::View(
                    ViewChange::ReplaceBody {
                        source: new_view,
                        catalog: old_view,
                        compatible: flag,
                    },
                ),
                change_key(Change::View(ViewChange::Create(new_view))),
            )
            &&& is_modified_at(
                Change::View(
                    ViewChange::SetReloption {
                        qname: q,
                        security_barrier: setting,
                        security_invoker: setting,
                    },
                ),
                n,
            )
            &&& is_modified_at(Change::View(ViewChange::SetComment { qname: q, comment }), n)
            &&& is_modified_at(
                Change::View(ViewChange::SetColumnComment { qname: q, column: name, comment }),
                n,
            )
            &&& is_modified_at(
                Change::AlterViewSetCheckOption { qname: q, check_option: check },
                n,
            )
        }),
        ({
            let n = change_key(Change::Mv(MvChange::Drop(q)));
            &&& is_modified_at(
                Change::Mv(MvChange::ReplaceBody { source: new_mv, catalog: old_mv }),
                change_key(Change::Mv(MvChange::Create(new_mv))),
            )
            &&& is_modified_at(Change::Mv(MvChange::SetComment { qname: q, comment }), n)
            &&& is_modified_at(
                Change::Mv(MvChange::SetColumnComment { qname: q, column: name, comment }),
                n,
            )
            &&& is_modified_at(
                Change::SetMaterializedViewStorage { qname: q, options: mv_options },
                n,
            )
        }),
{
}

/// Altering a type, a routine or an extension is planned among the modifies, at
/// the node at which it is dropped; replacing one with everything that depends
/// on it is planned among the drops.
pub proof fn law_types_and_routines_are_altered_at_their_node(
    q: QualifiedName,
    name: Identifier,
    text: String,
    opt: Option<String>,
    old_type: UserType,
    new_type: UserType,
    check: crate::ir::user_type::DomainCheck,
    default: Option<crate::ir::expr::DefaultExpr>,
    flag: bool,
    attribute: crate::ir::user_type::CompositeAttribute,
    ty: crate::ir::column_type::ColumnType,
    old_function: Function,
    new_function: Function,
    args: NormalizedArgTypes,
    procedure: Procedure,
    extension: Extension,
)
    ensures
        ({
            let n = change_key(Change::UserType(UserTypeChange::Drop(q)));
            &&& is_modified_at(
                Change::UserType(
                    UserTypeChange::EnumAddValue { qname: q, value: text, before: opt, after: opt },
                ),
                n,
            )
            &&& is_modified_at(
                Change::UserType(UserTypeChange::EnumRenameValue { qname: q, from: text, to: text }),
                n,
            )
            &&& is_modified_at(
                Change::UserType(UserTypeChange::DomainAddCheck { qname: q, constraint: check }),
                n,
            )
            &&& is_modified_at(
                Change::UserType(UserTypeChange::DomainDropCheck { qname: q, name }),
                n,
            )
            &&& is_modified_at(
                Change::UserType(UserTypeChange::DomainSetDefault { qname: q, default }),
                n,
            )
            &&& is_modified_at(
                Change::UserType(UserTypeChange::DomainSetNotNull { qname: q, not_null: flag }),
                n,
            )
            &&& is_modified_at(
                Change::UserType(UserTypeChange::CompositeAddAttribute { qname: q, attribute }),
                n,
            )
            &&& is_modified_at(
                Change::UserType(UserTypeChange::CompositeDropAttribute { qname: q, name }),
                n,
            )
            &&& is_modified_at(
                Change::UserType(
                    UserTypeChange::CompositeAlterAttributeType {
                        qname: q,
                        attribute: name,
                        new_type: ty,
                    },
                ),
                n,
            )
            &&& is_modified_at(
                Change::UserType(UserTypeChange::SetComment { qname: q, comment: opt }),
                n,
            )
        }),
        is_dropped_at(
            Change::UserType(
                UserTypeChange::ReplaceWithCascade { source: new_type, catalog: old_type },
            ),
            change_key(Change::UserType(UserTypeChange::Create(new_type))),
        ),
        is_modified_at(
            Change::Function(FunctionChange::CreateOrReplace(new_function)),
            change_key(Change::Function(FunctionChange::Create(new_function))),
        ),
        is_dropped_at(
            Change::Function(
                FunctionChange::ReplaceWithCascade {
                    source: new_function,
                    catalog: old_function,
                },
            ),
            change_key(Change::Function(FunctionChange::Create(new_function))),
        ),
        is_modified_at(
            Change::Function(FunctionChange::SetComment { qname: q, args, comment: opt }),
            change_key(Change::Function(FunctionChange::Drop { qname: q, args })),
        ),
        is_modified_at(
            Change::Procedure(ProcedureChange::CreateOrReplace(procedure)),
            change_key(Change::Procedure(ProcedureChange::Create(procedure))),
        ),
        is_modified_at(
            Change::Procedure(ProcedureChange::SetComment { qname: q, comment: opt }),
            change_key(Change::Procedure(ProcedureChange::Drop(q))),
        ),
        is_modified_at(
            Change::Extension(ExtensionChange::AlterUpdate { name, to_version: text }),
            change_key(Change::Extension(ExtensionChange::Drop(name))),
        ),
        is_modified_at(
            Change::Extension(ExtensionChange::CommentOn { name, comment: opt }),
            change_key(Change::Extension(ExtensionChange::Drop(name))),
        ),
        is_dropped_at(
            Change::Extension(ExtensionChange::ReplaceWithCascade(extension)),
            change_key(Change::Extension(ExtensionChange::Create(extension))),
        ),
{
}

/// Replacing an object that cannot be altered in place is planned among the
/// drops, at the node at which the new one is created.
pub proof fn law_replacements_are_planned_among_the_drops(
    trigger: Trigger,
    publications: (Publication, Publication),
    statistics: (Statistic, Statistic),
    collations: (Collation, Collation),
    event_triggers: (EventTrigger, EventTrigger),
    aggregates: (Aggregate, Aggregate),
    casts: (Cast, Cast),
    dictionaries: (TsDictionary, TsDictionary),
    configurations: (TsConfiguration, TsConfiguration),
)
    ensures
        is_dropped_at(
            Change::Trigger(TriggerChange::Replace(trigger)),
            change_key(Change::Trigger(TriggerChange::Create(trigger))),
        ),
        is_dropped_at(
            Change::Publication(
                PublicationChange::Replace { from: publications.0, to: publications.1 },
            ),
            change_key(Change::Publication(PublicationChange::Create(publications.1))),
        ),
        is_dropped_at(
            Change::Statistic(StatisticChange::Replace { from: statistics.0, to: statistics.1 }),
            change_key(Change::Statistic(StatisticChange::Create(statistics.1))),
        ),
        is_dropped_at(
            Change::Collation(CollationChange::Replace { from: collations.0, to: collations.1 }),
            change_key(Change::Collation(CollationChange::Create(collations.1))),
        ),
        is_dropped_at(
            Change::EventTrigger(
                EventTriggerChange::Replace { from: event_triggers.0, to: event_triggers.1 },
            ),
            change_key(Change::EventTrigger(EventTriggerChange::Create(event_triggers.1))),
        ),
        is_dropped_at(
            Change::Aggregate(AggregateChange::Replace { from: aggregates.0, to: aggregates.1 }),
            change_key(Change::Aggregate(AggregateChange::Create(aggregates.1))),
        ),
        is_dropped_at(
            Change::Cast(CastChange::Replace { from: casts.0, to: casts.1 }),
            change_key(Change::Cast(CastChange::Create(casts.1))),
        ),
        is_dropped_at(
            Change::TsDictionary(
                TsDictionaryChange::Replace { from: dictionaries.0, to: dictionaries.1 },
            ),
            change_key(Change::TsDictionary(TsDictionaryChange::Create(dictionaries.1))),
        ),
        is_dropped_at(
            Change::TsConfiguration(
                TsConfigurationChange::Replace { from: configurations.0, to: configurations.1 },
            ),
            change_key(Change::TsConfiguration(TsConfigurationChange::Create(configurations.1))),
        ),
        bucket_of(Change::TsDictionary(TsDictionaryChange::Create(dictionaries.0))) is Create,
        bucket_of(Change::TsConfiguration(TsConfigurationChange::Create(configurations.0))) is Create,
        is_dropped_at(
            Change::TsDictionary(TsDictionaryChange::Drop { qname: dictionaries.0.qname }),
            change_key(Change::TsDictionary(TsDictionaryChange::Create(dictionaries.0))),
        ),
        is_dropped_at(
            Change::TsConfiguration(
                TsConfigurationChange::Drop { qname: configurations.0.qname },
            ),
            change_key(Change::TsConfiguration(TsConfigurationChange::Create(configurations.0))),
        ),
{
}

/// A comment on an object stands at the node at which the object is dropped,
/// among the modifies.
pub proof fn law_comments_are_planned_at_their_node(
    q: QualifiedName,
    other: QualifiedName,
    name: Identifier,
    types: Vec<crate::ir::column_type::ColumnType>,
    comment: Option<String>,
)
    ensures
        is_modified_at(
            Change::Trigger(TriggerChange::CommentOn { qname: q, table: other, comment }),
            change_key(Change::Trigger(TriggerChange::Drop { qname: q, table: other })),
        ),
        is_modified_at(
            Change::Publication(PublicationChange::CommentOn { name, comment }),
            change_key(Change::Publication(PublicationChange::Drop { name })),
        ),
        is_modified_at(
            Change::Subscription(SubscriptionChange::CommentOn { name, comment }),
            change_key(Change::Subscription(SubscriptionChange::Drop { name })),
        ),
        is_modified_at(
            Change::Statistic(StatisticChange::CommentOn { qname: q, comment }),
            change_key(Change::Statistic(StatisticChange::Drop { qname: q })),
        ),
        is_modified_at(
            Change::Collation(CollationChange::CommentOn { qname: q, comment }),
            change_key(Change::Collation(CollationChange::Drop { qname: q })),
        ),
        is_modified_at(
            Change::Collation(CollationChange::Rename { from: q, to: name }),
            change_key(Change::Collation(CollationChange::Drop { qname: q })),
        ),
        is_modified_at(
            Change::EventTrigger(EventTriggerChange::CommentOn { name, comment }),
            change_key(Change::EventTrigger(EventTriggerChange::Drop { name })),
        ),
        is_modified_at(
            Change::Aggregate(
                AggregateChange::CommentOn { qname: q, arg_types: types, comment },
            ),
            change_key(Change::Aggregate(AggregateChange::Drop { qname: q, arg_types: types })),
        ),
        is_modified_at(
            Change::Aggregate(
                AggregateChange::AlterOwner { qname: q, arg_types: types, owner: name },
            ),
            change_key(Change::Aggregate(AggregateChange::Drop { qname: q, arg_types: types })),
        ),
        is_modified_at(
            Change::Cast(CastChange::CommentOn { source: q, target: other, comment }),
            change_key(Change::Cast(CastChange::Drop { source: q, target: other })),
        ),
        is_modified_at(
            Change::TsDictionary(TsDictionaryChange::CommentOn { qname: q, comment }),
            change_key(Change::TsDictionary(TsDictionaryChange::Drop { qname: q })),
        ),
        is_modified_at(
            Change::TsConfiguration(TsConfigurationChange::CommentOn { qname: q, comment }),
            change_key(Change::TsConfiguration(TsConfigurationChange::Drop { qname: q })),
        ),
{
}

/// Altering a publication or a subscription is planned among the modifies, at
/// the node at which it is dropped.
pub proof fn law_replication_is_altered_at_its_node(
    name: Identifier,
    other: Identifier,
    q: QualifiedName,
    table: crate::ir::replication::PublishedTable,
    kinds: crate::ir::replication::PublishKinds,
    flag: bool,
    text: String,
    options: crate::ir::replication::SubscriptionOptions,
)
    ensures
        ({
            let n = change_key(Change::Publication(PublicationChange::Drop { name }));
            &&& is_modified_at(
                Change::Publication(PublicationChange::AddTable { publication: name, table }),
                n,
            )
            &&& is_modified_at(
                Change::Publication(PublicationChange::DropTable { publication: name, qname: q }),
                n,
            )
            &&& is_modified_at(
                Change::Publication(PublicationChange::SetTable { publication: name, table }),
                n,
            )
            &&& is_modified_at(
                Change::Publication(
                    PublicationChange::AddSchema { publication: name, schema: other },
                ),
                n,
            )
            &&& is_modified_at(
                Change::Publication(
                    PublicationChange::DropSchema { publication: name, schema: other },
                ),
                n,
            )
            &&& is_modified_at(
                Change::Publication(PublicationChange::SetPublish { publication: name, kinds }),
                n,
            )
            &&& is_modified_at(
                Change::Publication(
                    PublicationChange::SetViaRoot { publication: name, value: flag },
                ),
                n,
            )
        }),
        ({
            let n = change_key(Change::Subscription(SubscriptionChange::Drop { name }));
            &&& is_modified_at(
                Change::Subscription(
                    SubscriptionChange::AlterConnection { name, new_connection: text },
                ),
                n,
            )
            &&& is_modified_at(
                Change::Subscription(
                    SubscriptionChange::AddPublication { name, publication: other },
                ),
                n,
            )
            &&& is_modified_at(
                Change::Subscription(
                    SubscriptionChange::DropPublication { name, publication: other },
                ),
                n,
            )
            &&& is_modified_at(
                Change::Subscription(SubscriptionChange::SetOptions { name, options }),
                n,
            )
        }),
{
}

/// Privileges on an object are granted and revoked at one node, and its owner
/// is set among the modifies too; that of a schema at the schema's own node,
/// and that of what a schema holds at the node of a table of that name. Default
/// privileges stand at the node of a schema of the role's name.
pub proof fn law_access_is_altered_among_the_modifies(
    object: GrantableObject,
    grant: Grant,
    other: Grant,
    op: OwnerOp,
    name: Identifier,
    q: QualifiedName,
    schema: Option<Identifier>,
    object_type: crate::ir::default_privileges::DefaultPrivObjectType,
    direction: crate::diff::change::GrantDirection,
)
    ensures
        is_modified_at(
            Change::GrantObjectPrivilege { object, grant },
            change_key(Change::RevokeObjectPrivilege { object, grant: other }),
        ),
        bucket_of(Change::RevokeObjectPrivilege { object, grant }) is Modify,
        bucket_of(Change::AlterObjectOwner(op)) is Modify,
        op.object == GrantableObject::Schema(name) ==> change_key(Change::AlterObjectOwner(op))
            == change_key(Change::DropSchema(name)),
        op.object == GrantableObject::Publication(name) ==> change_key(Change::AlterObjectOwner(op))
            == change_key(Change::Publication(PublicationChange::Drop { name })),
        op.object == GrantableObject::Subscription(name) ==> change_key(
            Change::AlterObjectOwner(op),
        ) == change_key(Change::Subscription(SubscriptionChange::Drop { name })),
        ({
            let n = change_key(Change::DropTable { qname: q, row_count_estimate: None });
            &&& object == GrantableObject::Table(q) || object == GrantableObject::Sequence(q)
                || object == GrantableObject::Type(q) || object == GrantableObject::Collation(q)
                || object == GrantableObject::Statistics(q) ==> change_key(
                Change::GrantObjectPrivilege { object, grant },
            ) == n
            &&& op.object == GrantableObject::Table(q) || op.object == GrantableObject::Sequence(q)
                || op.object == GrantableObject::Type(q) || op.object
                == GrantableObject::Collation(q) || op.object == GrantableObject::Statistics(q)
                ==> change_key(Change::AlterObjectOwner(op)) == n
        }),
        is_modified_at(
            Change::AlterDefaultPrivileges {
                target_role: name,
                schema,
                object_type,
                direction,
                grant,
            },
            change_key(Change::DropSchema(name)),
        ),
{
}

/// A change cannot be planned exactly where the differ could not express it.
pub proof fn law_only_unsupported_changes_cannot_be_planned(c: Change)
    ensures
        bucket_of(c) is Unsupported <==> c is UnsupportedDiff,
{
}

} // verus!
