//! Which phase a change belongs to, and which node it stands at.

use crate::diff::change::{
    AggregateChange, CastChange, Change, CollationChange, EventTriggerChange, ExtensionChange,
    FunctionChange, MvChange, ProcedureChange, PublicationChange, StatisticChange,
    SubscriptionChange, TableChange, TriggerChange, TsConfigurationChange, TsDictionaryChange,
    UserTypeChange, ViewChange,
};
use crate::diff::owner_op::GrantableObject;
use crate::identifier::{Identifier, QualifiedName};
use crate::ir::column_type::ColumnType;
use crate::model::{models, Duplicate};
use crate::plan::edges::{NodeId, NodeKey};
use crate::plan::object_edges::aggregate_id;
use vstd::prelude::*;

verus! {

/// The phase a change belongs to.
#[derive(Debug, Clone, Copy, PartialEq, Eq, Structural)]
pub enum Bucket {
    /// Creates: ordered dependencies first.
    Create,
    /// Alterations, replacements, comments, grants and drift recovery.
    Modify,
    /// Drops: ordered dependents first.
    Drop,
    /// A difference that cannot be planned.
    Unsupported,
}

/// The phase of a change. What drops an object and creates it again counts as
/// a drop, unless `ALTER` does both.
pub open spec fn bucket_of(c: Change) -> Bucket {
    match c {
        Change::CreateSchema(_) => Bucket::Create,
        Change::CreateTable(_) => Bucket::Create,
        Change::CreateIndex(_) => Bucket::Create,
        Change::CreateSequence(_) => Bucket::Create,
        Change::DropSchema(_) => Bucket::Drop,
        Change::DropTable { .. } => Bucket::Drop,
        Change::DropIndex(_) => Bucket::Drop,
        Change::DropSequence(_) => Bucket::Drop,
        Change::View(ViewChange::Create(_)) => Bucket::Create,
        Change::View(ViewChange::Drop(_)) => Bucket::Drop,
        Change::Mv(MvChange::Create(_)) => Bucket::Create,
        Change::Mv(MvChange::Drop(_)) => Bucket::Drop,
        Change::UserType(UserTypeChange::Create(_)) => Bucket::Create,
        Change::UserType(UserTypeChange::Drop(_)) => Bucket::Drop,
        Change::UserType(UserTypeChange::ReplaceWithCascade { .. }) => Bucket::Drop,
        Change::Function(FunctionChange::Create(_)) => Bucket::Create,
        Change::Function(FunctionChange::Drop { .. }) => Bucket::Drop,
        Change::Function(FunctionChange::ReplaceWithCascade { .. }) => Bucket::Drop,
        Change::Procedure(ProcedureChange::Create(_)) => Bucket::Create,
        Change::Procedure(ProcedureChange::Drop(_)) => Bucket::Drop,
        Change::Extension(ExtensionChange::Create(_)) => Bucket::Create,
        Change::Extension(ExtensionChange::Drop(_)) => Bucket::Drop,
        Change::Extension(ExtensionChange::ReplaceWithCascade(_)) => Bucket::Drop,
        Change::Trigger(TriggerChange::Create(_)) => Bucket::Create,
        Change::Trigger(TriggerChange::Drop { .. }) => Bucket::Drop,
        Change::Trigger(TriggerChange::Replace(_)) => Bucket::Drop,
        Change::Publication(PublicationChange::Create(_)) => Bucket::Create,
        Change::Publication(PublicationChange::Drop { .. }) => Bucket::Drop,
        Change::Publication(PublicationChange::Replace { .. }) => Bucket::Drop,
        Change::Subscription(SubscriptionChange::Create(_)) => Bucket::Create,
        Change::Subscription(SubscriptionChange::Drop { .. }) => Bucket::Drop,
        Change::Statistic(StatisticChange::Create(_)) => Bucket::Create,
        Change::Statistic(StatisticChange::Drop { .. }) => Bucket::Drop,
        Change::Statistic(StatisticChange::Replace { .. }) => Bucket::Drop,
        Change::Collation(CollationChange::Create(_)) => Bucket::Create,
        Change::Collation(CollationChange::Drop { .. }) => Bucket::Drop,
        Change::Collation(CollationChange::Replace { .. }) => Bucket::Drop,
        Change::EventTrigger(EventTriggerChange::Create(_)) => Bucket::Create,
        Change::EventTrigger(EventTriggerChange::Drop { .. }) => Bucket::Drop,
        Change::EventTrigger(EventTriggerChange::Replace { .. }) => Bucket::Drop,
        Change::Aggregate(AggregateChange::Create(_)) => Bucket::Create,
        Change::Aggregate(AggregateChange::Drop { .. }) => Bucket::Drop,
        Change::Aggregate(AggregateChange::Replace { .. }) => Bucket::Drop,
        Change::Cast(CastChange::Create(_)) => Bucket::Create,
        Change::Cast(CastChange::Drop { .. }) => Bucket::Drop,
        Change::Cast(CastChange::Replace { .. }) => Bucket::Drop,
        Change::TsDictionary(TsDictionaryChange::Create(_)) => Bucket::Create,
        Change::TsDictionary(TsDictionaryChange::Drop { .. }) => Bucket::Drop,
        Change::TsDictionary(TsDictionaryChange::Replace { .. }) => Bucket::Drop,
        Change::TsConfiguration(TsConfigurationChange::Create(_)) => Bucket::Create,
        Change::TsConfiguration(TsConfigurationChange::Drop { .. }) => Bucket::Drop,
        Change::TsConfiguration(TsConfigurationChange::Replace { .. }) => Bucket::Drop,
        Change::UnsupportedDiff { .. } => Bucket::Unsupported,
        _ => Bucket::Modify,
    }
}

/// The phase of a change.
pub fn bucket(c: &Change) -> (b: Bucket)
    ensures
        b == bucket_of(*c),
{
    match c {
        Change::CreateSchema(_)
        | Change::CreateTable(_)
        | Change::CreateIndex(_)
        | Change::CreateSequence(_)
        | Change::View(ViewChange::Create(_))
        | Change::Mv(MvChange::Create(_))
        | Change::UserType(UserTypeChange::Create(_))
        | Change::Function(FunctionChange::Create(_))
        | Change::Procedure(ProcedureChange::Create(_))
        | Change::Extension(ExtensionChange::Create(_))
        | Change::Trigger(TriggerChange::Create(_))
        | Change::Publication(PublicationChange::Create(_))
        | Change::Subscription(SubscriptionChange::Create(_))
        | Change::Statistic(StatisticChange::Create(_))
        | Change::Collation(CollationChange::Create(_))
        | Change::EventTrigger(EventTriggerChange::Create(_))
        | Change::Aggregate(AggregateChange::Create(_))
        | Change::Cast(CastChange::Create(_))
        | Change::TsDictionary(TsDictionaryChange::Create(_))
        | Change::TsConfiguration(TsConfigurationChange::Create(_)) => Bucket::Create,
        Change::DropSchema(_)
        | Change::DropTable { .. }
        | Change::DropIndex(_)
        | Change::DropSequence(_)
        | Change::View(ViewChange::Drop(_))
        | Change::Mv(MvChange::Drop(_))
        | Change::UserType(UserTypeChange::Drop(_) | UserTypeChange::ReplaceWithCascade { .. })
        | Change::Function(
            FunctionChange::Drop { .. } | FunctionChange::ReplaceWithCascade { .. },
        )
        | Change::Procedure(ProcedureChange::Drop(_))
        | Change::Extension(ExtensionChange::Drop(_) | ExtensionChange::ReplaceWithCascade(_))
        | Change::Trigger(TriggerChange::Drop { .. } | TriggerChange::Replace(_))
        | Change::Publication(PublicationChange::Drop { .. } | PublicationChange::Replace { .. })
        | Change::Subscription(SubscriptionChange::Drop { .. })
        | Change::Statistic(StatisticChange::Drop { .. } | StatisticChange::Replace { .. })
        | Change::Collation(CollationChange::Drop { .. } | CollationChange::Replace { .. })
        | Change::EventTrigger(EventTriggerChange::Drop { .. } | EventTriggerChange::Replace { .. })
        | Change::Aggregate(AggregateChange::Drop { .. } | AggregateChange::Replace { .. })
        | Change::Cast(CastChange::Drop { .. } | CastChange::Replace { .. })
        | Change::TsDictionary(TsDictionaryChange::Drop { .. } | TsDictionaryChange::Replace { .. })
        | Change::TsConfiguration(
            TsConfigurationChange::Drop { .. } | TsConfigurationChange::Replace { .. },
        ) => Bucket::Drop,
        Change::UnsupportedDiff { .. } => Bucket::Unsupported,
        _ => Bucket::Modify,
    }
}

/// The name of a view, materialized view or the like that a change concerns.
pub open spec fn view_name(c: ViewChange) -> QualifiedName {
    match c {
        ViewChange::Create(v) => v.qname,
        ViewChange::Drop(q) => q,
        ViewChange::ReplaceBody { source, .. } => source.qname,
        ViewChange::SetReloption { qname, .. } => qname,
        ViewChange::SetComment { qname, .. } => qname,
        ViewChange::SetColumnComment { qname, .. } => qname,
    }
}

/// The materialized view that a change concerns.
pub open spec fn mv_name(c: MvChange) -> QualifiedName {
    match c {
        MvChange::Create(mv) => mv.qname,
        MvChange::Drop(q) => q,
        MvChange::ReplaceBody { source, .. } => source.qname,
        MvChange::SetComment { qname, .. } => qname,
        MvChange::SetColumnComment { qname, .. } => qname,
    }
}

/// The type that a change concerns.
pub open spec fn user_type_name(c: UserTypeChange) -> QualifiedName {
    match c {
        UserTypeChange::Create(ut) => ut.qname,
        UserTypeChange::Drop(q) => q,
        UserTypeChange::ReplaceWithCascade { source, .. } => source.qname,
        UserTypeChange::EnumAddValue { qname, .. } => qname,
        UserTypeChange::EnumRenameValue { qname, .. } => qname,
        UserTypeChange::DomainAddCheck { qname, .. } => qname,
        UserTypeChange::DomainDropCheck { qname, .. } => qname,
        UserTypeChange::DomainSetDefault { qname, .. } => qname,
        UserTypeChange::DomainSetNotNull { qname, .. } => qname,
        UserTypeChange::CompositeAddAttribute { qname, .. } => qname,
        UserTypeChange::CompositeDropAttribute { qname, .. } => qname,
        UserTypeChange::CompositeAlterAttributeType { qname, .. } => qname,
        UserTypeChange::SetComment { qname, .. } => qname,
    }
}

/// The node of the function that a change concerns.
pub open spec fn function_change_node(c: FunctionChange) -> NodeKey {
    match c {
        FunctionChange::Create(f) => NodeId::Function(f.qname, f.arg_types_normalized)@,
        FunctionChange::CreateOrReplace(f) => NodeId::Function(f.qname, f.arg_types_normalized)@,
        FunctionChange::ReplaceWithCascade { source, .. } => NodeId::Function(
            source.qname,
            source.arg_types_normalized,
        )@,
        FunctionChange::Drop { qname, args } => NodeId::Function(qname, args)@,
        FunctionChange::SetComment { qname, args, .. } => NodeId::Function(qname, args)@,
    }
}

/// The procedure that a change concerns.
pub open spec fn procedure_name(c: ProcedureChange) -> QualifiedName {
    match c {
        ProcedureChange::Create(p) => p.qname,
        ProcedureChange::CreateOrReplace(p) => p.qname,
        ProcedureChange::Drop(q) => q,
        ProcedureChange::SetComment { qname, .. } => qname,
    }
}

/// The extension that a change concerns.
pub open spec fn extension_name(c: ExtensionChange) -> Identifier {
    match c {
        ExtensionChange::Create(e) => e.name,
        ExtensionChange::ReplaceWithCascade(e) => e.name,
        ExtensionChange::Drop(name) => name,
        ExtensionChange::AlterUpdate { name, .. } => name,
        ExtensionChange::CommentOn { name, .. } => name,
    }
}

/// The trigger that a change concerns.
pub open spec fn trigger_name(c: TriggerChange) -> QualifiedName {
    match c {
        TriggerChange::Create(t) => t.qname,
        TriggerChange::Replace(t) => t.qname,
        TriggerChange::Drop { qname, .. } => qname,
        TriggerChange::CommentOn { qname, .. } => qname,
    }
}

/// The publication that a change concerns.
pub open spec fn publication_name(c: PublicationChange) -> Identifier {
    match c {
        PublicationChange::Create(p) => p.name,
        PublicationChange::Drop { name } => name,
        PublicationChange::Replace { to, .. } => to.name,
        PublicationChange::AddTable { publication, .. } => publication,
        PublicationChange::DropTable { publication, .. } => publication,
        PublicationChange::SetTable { publication, .. } => publication,
        PublicationChange::AddSchema { publication, .. } => publication,
        PublicationChange::DropSchema { publication, .. } => publication,
        PublicationChange::SetPublish { publication, .. } => publication,
        PublicationChange::SetViaRoot { publication, .. } => publication,
        PublicationChange::CommentOn { name, .. } => name,
    }
}

/// The subscription that a change concerns.
pub open spec fn subscription_name(c: SubscriptionChange) -> Identifier {
    match c {
        SubscriptionChange::Create(s) => s.name,
        SubscriptionChange::Drop { name } => name,
        SubscriptionChange::AlterConnection { name, .. } => name,
        SubscriptionChange::AddPublication { name, .. } => name,
        SubscriptionChange::DropPublication { name, .. } => name,
        SubscriptionChange::SetOptions { name, .. } => name,
        SubscriptionChange::CommentOn { name, .. } => name,
    }
}

/// The statistics object that a change concerns.
pub open spec fn statistic_name(c: StatisticChange) -> QualifiedName {
    match c {
        StatisticChange::Create(s) => s.qname,
        StatisticChange::Drop { qname } => qname,
        StatisticChange::Replace { to, .. } => to.qname,
        StatisticChange::AlterSetTarget { qname, .. } => qname,
        StatisticChange::CommentOn { qname, .. } => qname,
    }
}

/// The collation that a change concerns.
pub open spec fn collation_name(c: CollationChange) -> QualifiedName {
    match c {
        CollationChange::Create(coll) => coll.qname,
        CollationChange::Drop { qname } => qname,
        CollationChange::Rename { from, .. } => from,
        CollationChange::Replace { to, .. } => to.qname,
        CollationChange::CommentOn { qname, .. } => qname,
    }
}

/// The event trigger that a change concerns.
pub open spec fn event_trigger_name(c: EventTriggerChange) -> Identifier {
    match c {
        EventTriggerChange::Create(et) => et.name,
        EventTriggerChange::Replace { to, .. } => to.name,
        EventTriggerChange::Drop { name } => name,
        EventTriggerChange::AlterEnable { name, .. } => name,
        EventTriggerChange::AlterOwner { name, .. } => name,
        EventTriggerChange::CommentOn { name, .. } => name,
    }
}

/// The node of an aggregate of that name and those argument types.
pub open spec fn aggregate_key(q: QualifiedName, types: Vec<ColumnType>) -> NodeKey {
    NodeKey { rank: 17, parts: q@.parts() + models(types@) }
}

/// The node of the aggregate that a change concerns.
pub open spec fn aggregate_change_node(c: AggregateChange) -> NodeKey {
    match c {
        AggregateChange::Create(a) => aggregate_key(a.qname, a.arg_types),
        AggregateChange::Replace { to, .. } => aggregate_key(to.qname, to.arg_types),
        AggregateChange::Drop { qname, arg_types } => aggregate_key(qname, arg_types),
        AggregateChange::AlterOwner { qname, arg_types, .. } => aggregate_key(qname, arg_types),
        AggregateChange::CommentOn { qname, arg_types, .. } => aggregate_key(qname, arg_types),
    }
}

/// The node of the cast that a change concerns.
pub open spec fn cast_change_node(c: CastChange) -> NodeKey {
    match c {
        CastChange::Create(cast) => NodeId::Cast(cast.source, cast.target)@,
        CastChange::Replace { to, .. } => NodeId::Cast(to.source, to.target)@,
        CastChange::Drop { source, target } => NodeId::Cast(source, target)@,
        CastChange::CommentOn { source, target, .. } => NodeId::Cast(source, target)@,
    }
}

/// The text search dictionary that a change concerns.
pub open spec fn dictionary_name(c: TsDictionaryChange) -> QualifiedName {
    match c {
        TsDictionaryChange::Create(d) => d.qname,
        TsDictionaryChange::Replace { to, .. } => to.qname,
        TsDictionaryChange::Drop { qname } => qname,
        TsDictionaryChange::AlterOptions { qname, .. } => qname,
        TsDictionaryChange::AlterOwner { qname, .. } => qname,
        TsDictionaryChange::CommentOn { qname, .. } => qname,
    }
}

/// The text search configuration that a change concerns.
pub open spec fn configuration_name(c: TsConfigurationChange) -> QualifiedName {
    match c {
        TsConfigurationChange::Create(cfg) => cfg.qname,
        TsConfigurationChange::Replace { to, .. } => to.qname,
        TsConfigurationChange::Drop { qname } => qname,
        TsConfigurationChange::AddMapping { qname, .. } => qname,
        TsConfigurationChange::AlterMapping { qname, .. } => qname,
        TsConfigurationChange::DropMapping { qname, .. } => qname,
        TsConfigurationChange::AlterOwner { qname, .. } => qname,
        TsConfigurationChange::CommentOn { qname, .. } => qname,
    }
}

/// The node of an object whose owner changes.
pub open spec fn owner_node(object: GrantableObject) -> NodeKey {
    match object {
        GrantableObject::Schema(name) => NodeId::Schema(name)@,
        GrantableObject::Publication(name) => NodeId::Publication(name)@,
        GrantableObject::Subscription(name) => NodeId::Subscription(name)@,
        _ => NodeKey { rank: 1, parts: object.target().parts() },
    }
}

/// The node that a change stands at in the dependency graph.
///
/// Changes to parts of a table ride with the table. A default privilege has
/// no node of its own; a schema node named like its role anchors it.
pub open spec fn change_key(c: Change) -> NodeKey {
    match c {
        Change::CreateSchema(s) => NodeId::Schema(s.name)@,
        Change::DropSchema(name) => NodeId::Schema(name)@,
        Change::AlterSchema { name, .. } => NodeId::Schema(name)@,
        Change::CreateTable(t) => NodeId::Table(t.qname)@,
        Change::DropTable { qname, .. } => NodeId::Table(qname)@,
        Change::AlterTable { qname, .. } => NodeId::Table(qname)@,
        Change::CreateIndex(i) => NodeId::Index(i.qname)@,
        Change::DropIndex(qname) => NodeId::Index(qname)@,
        Change::RecreateIndex { qname } => NodeId::Index(qname)@,
        Change::ReplaceIndex { to, .. } => NodeId::Index(to.qname)@,
        Change::CreateSequence(s) => NodeId::Sequence(s.qname)@,
        Change::DropSequence(qname) => NodeId::Sequence(qname)@,
        Change::AlterSequence { qname, .. } => NodeId::Sequence(qname)@,
        Change::ValidateConstraint { table, .. } => NodeId::Table(table)@,
        Change::View(vc) => NodeId::View(view_name(vc))@,
        Change::AlterViewSetCheckOption { qname, .. } => NodeId::View(qname)@,
        Change::Mv(mc) => NodeId::Mv(mv_name(mc))@,
        Change::UserType(utc) => NodeId::Type(user_type_name(utc))@,
        Change::Function(fc) => function_change_node(fc),
        Change::Procedure(pc) => NodeId::Procedure(procedure_name(pc))@,
        Change::Extension(ec) => NodeId::Extension(extension_name(ec))@,
        Change::Trigger(tc) => NodeId::Trigger(trigger_name(tc))@,
        Change::Table(TableChange::AttachPartition { child, .. }) => NodeId::Table(child)@,
        Change::Table(TableChange::DetachPartition { child, .. }) => NodeId::Table(child)@,
        Change::GrantObjectPrivilege { object, .. } => NodeKey {
            rank: 1,
            parts: object.target().parts(),
        },
        Change::RevokeObjectPrivilege { object, .. } => NodeKey {
            rank: 1,
            parts: object.target().parts(),
        },
        Change::GrantColumnPrivilege { qname, .. } => NodeId::Table(qname)@,
        Change::RevokeColumnPrivilege { qname, .. } => NodeId::Table(qname)@,
        Change::AlterObjectOwner(op) => owner_node(op.object),
        Change::AlterDefaultPrivileges { target_role, .. } => NodeId::Schema(target_role)@,
        Change::CreatePolicy { table, .. } => NodeId::Table(table)@,
        Change::DropPolicy { table, .. } => NodeId::Table(table)@,
        Change::AlterPolicy { table, .. } => NodeId::Table(table)@,
        Change::SetTableRowSecurity { qname, .. } => NodeId::Table(qname)@,
        Change::SetTableForceRowSecurity { qname, .. } => NodeId::Table(qname)@,
        Change::SetTableStorage { qname, .. } => NodeId::Table(qname)@,
        Change::SetIndexStorage { qname, .. } => NodeId::Index(qname)@,
        Change::SetMaterializedViewStorage { qname, .. } => NodeId::Mv(qname)@,
        Change::Publication(pc) => NodeId::Publication(publication_name(pc))@,
        Change::Subscription(sc) => NodeId::Subscription(subscription_name(sc))@,
        Change::Statistic(sc) => NodeId::Statistic(statistic_name(sc))@,
        Change::Collation(cc) => NodeId::Collation(collation_name(cc))@,
        Change::EventTrigger(ec) => NodeId::EventTrigger(event_trigger_name(ec))@,
        Change::Aggregate(ac) => aggregate_change_node(ac),
        Change::Cast(cc) => cast_change_node(cc),
        Change::TsDictionary(dc) => NodeId::TsDictionary(dictionary_name(dc))@,
        Change::TsConfiguration(cc) => NodeId::TsConfiguration(configuration_name(cc))@,
        Change::UnsupportedDiff { .. } => NodeKey { rank: 0, parts: Seq::empty() },
    }
}

/// Map a [`Change`] to the [`NodeId`] that represents it in the dependency
/// graph.
pub fn change_node(change: &Change) -> (node: NodeId)
    requires
        !(bucket_of(*change) is Unsupported),
    ensures
        node@ == change_key(*change),
{
    match change {
        Change::CreateSchema(s) => NodeId::Schema(s.name.duplicate()),
        Change::DropSchema(name) | Change::AlterSchema { name, .. } => NodeId::Schema(
            name.duplicate(),
        ),
        Change::CreateTable(t) => NodeId::Table(t.qname.duplicate()),
        Change::DropTable { qname, .. } | Change::AlterTable { qname, .. } => NodeId::Table(
            qname.duplicate(),
        ),
        Change::CreateIndex(i) => NodeId::Index(i.qname.duplicate()),
        Change::DropIndex(qname) | Change::RecreateIndex { qname } => NodeId::Index(
            qname.duplicate(),
        ),
        Change::ReplaceIndex { to, .. } => NodeId::Index(to.qname.duplicate()),
        Change::CreateSequence(s) => NodeId::Sequence(s.qname.duplicate()),
        Change::DropSequence(qname) | Change::AlterSequence { qname, .. } => NodeId::Sequence(
            qname.duplicate(),
        ),
        Change::ValidateConstraint { table, .. } => NodeId::Table(table.duplicate()),
        Change::View(vc) => {
            let qname = match vc {
                ViewChange::Create(v) => &v.qname,
                ViewChange::ReplaceBody { source, .. } => &source.qname,
                ViewChange::Drop(q) => q,
                ViewChange::SetReloption { qname, .. } => qname,
                ViewChange::SetComment { qname, .. } => qname,
                ViewChange::SetColumnComment { qname, .. } => qname,
            };
            NodeId::View(qname.duplicate())
        },
        Change::AlterViewSetCheckOption { qname, .. } => NodeId::View(qname.duplicate()),
        Change::Mv(mc) => {
            let qname = match mc {
                MvChange::Create(mv) => &mv.qname,
                MvChange::ReplaceBody { source, .. } => &source.qname,
                MvChange::Drop(q) => q,
                MvChange::SetComment { qname, .. } => qname,
                MvChange::SetColumnComment { qname, .. } => qname,
            };
            NodeId::Mv(qname.duplicate())
        },
        Change::UserType(utc) => {
            let qname = match utc {
                UserTypeChange::Create(ut) => &ut.qname,
                UserTypeChange::Drop(q) => q,
                UserTypeChange::ReplaceWithCascade { source, .. } => &source.qname,
                UserTypeChange::EnumAddValue { qname: q, .. }
                | UserTypeChange::EnumRenameValue { qname: q, .. }
                | UserTypeChange::DomainAddCheck { qname: q, .. }
                | UserTypeChange::DomainDropCheck { qname: q, .. }
                | UserTypeChange::DomainSetDefault { qname: q, .. }
                | UserTypeChange::DomainSetNotNull { qname: q, .. }
                | UserTypeChange::CompositeAddAttribute { qname: q, .. }
                | UserTypeChange::CompositeDropAttribute { qname: q, .. }
                | UserTypeChange::CompositeAlterAttributeType { qname: q, .. }
                | UserTypeChange::SetComment { qname: q, .. } => q,
            };
            NodeId::Type(qname.duplicate())
        },
        Change::Function(fc) => match fc {
            FunctionChange::Create(f) | FunctionChange::CreateOrReplace(f) => NodeId::Function(
                f.qname.duplicate(),
                f.arg_types_normalized.duplicate(),
            ),
            FunctionChange::ReplaceWithCascade { source, .. } => NodeId::Function(
                source.qname.duplicate(),
                source.arg_types_normalized.duplicate(),
            ),
            FunctionChange::Drop { qname, args } => NodeId::Function(
                qname.duplicate(),
                args.duplicate(),
            ),
            FunctionChange::SetComment { qname, args, .. } => NodeId::Function(
                qname.duplicate(),
                args.duplicate(),
            ),
        },
        Change::Procedure(pc) => {
            let qname = match pc {
                ProcedureChange::Create(p) | ProcedureChange::CreateOrReplace(p) => &p.qname,
                ProcedureChange::Drop(q) | ProcedureChange::SetComment { qname: q, .. } => q,
            };
            NodeId::Procedure(qname.duplicate())
        },
        Change::Extension(ec) => {
            let name = match ec {
                ExtensionChange::Create(e) | ExtensionChange::ReplaceWithCascade(e) => &e.name,
                ExtensionChange::Drop(n)
                | ExtensionChange::AlterUpdate { name: n, .. }
                | ExtensionChange::CommentOn { name: n, .. } => n,
            };
            NodeId::Extension(name.duplicate())
        },
        Change::Trigger(tc) => {
            let qname = match tc {
                TriggerChange::Create(t) | TriggerChange::Replace(t) => &t.qname,
                TriggerChange::Drop { qname, .. } | TriggerChange::CommentOn { qname, .. } => qname,
            };
            NodeId::Trigger(qname.duplicate())
        },
        Change::Table(tc) => {
            let child = match tc {
                TableChange::AttachPartition { child, .. } => child,
                TableChange::DetachPartition { child, .. } => child,
            };
            NodeId::Table(child.duplicate())
        },
        Change::GrantObjectPrivilege { object, .. }
        | Change::RevokeObjectPrivilege { object, .. } => NodeId::Table(object.target_qname()),
        Change::GrantColumnPrivilege { qname, .. }
        | Change::RevokeColumnPrivilege { qname, .. } => NodeId::Table(qname.duplicate()),
        Change::AlterObjectOwner(op) => match &op.object {
            GrantableObject::Schema(name) => NodeId::Schema(name.duplicate()),
            GrantableObject::Publication(name) => NodeId::Publication(name.duplicate()),
            GrantableObject::Subscription(name) => NodeId::Subscription(name.duplicate()),
            _ => NodeId::Table(op.object.target_qname()),
        },
        Change::AlterDefaultPrivileges { target_role, .. } => NodeId::Schema(
            target_role.duplicate(),
        ),
        Change::CreatePolicy { table, .. }
        | Change::DropPolicy { table, .. }
        | Change::AlterPolicy { table, .. } => NodeId::Table(table.duplicate()),
        Change::SetTableRowSecurity { qname, .. }
        | Change::SetTableForceRowSecurity { qname, .. }
        | Change::SetTableStorage { qname, .. } => NodeId::Table(qname.duplicate()),
        Change::SetIndexStorage { qname, .. } => NodeId::Index(qname.duplicate()),
        Change::SetMaterializedViewStorage { qname, .. } => NodeId::Mv(qname.duplicate()),
        Change::Publication(pc) => {
            let name = match pc {
                PublicationChange::Create(p) => &p.name,
                PublicationChange::Replace { to, .. } => &to.name,
                PublicationChange::Drop { name } => name,
                PublicationChange::CommentOn { name, .. } => name,
                PublicationChange::AddTable { publication, .. }
                | PublicationChange::DropTable { publication, .. }
                | PublicationChange::SetTable { publication, .. }
                | PublicationChange::AddSchema { publication, .. }
                | PublicationChange::DropSchema { publication, .. }
                | PublicationChange::SetPublish { publication, .. }
                | PublicationChange::SetViaRoot { publication, .. } => publication,
            };
            NodeId::Publication(name.duplicate())
        },
        Change::Subscription(sc) => {
            let name = match sc {
                SubscriptionChange::Create(s) => &s.name,
                SubscriptionChange::Drop { name }
                | SubscriptionChange::AlterConnection { name, .. }
                | SubscriptionChange::AddPublication { name, .. }
                | SubscriptionChange::DropPublication { name, .. }
                | SubscriptionChange::SetOptions { name, .. }
                | SubscriptionChange::CommentOn { name, .. } => name,
            };
            NodeId::Subscription(name.duplicate())
        },
        Change::Statistic(sc) => {
            let qname = match sc {
                StatisticChange::Create(s) => &s.qname,
                StatisticChange::Replace { to, .. } => &to.qname,
                StatisticChange::Drop { qname }
                | StatisticChange::AlterSetTarget { qname, .. }
                | StatisticChange::CommentOn { qname, .. } => qname,
            };
            NodeId::Statistic(qname.duplicate())
        },
        Change::Collation(cc) => {
            let qname = match cc {
                CollationChange::Create(c) => &c.qname,
                CollationChange::Replace { to, .. } => &to.qname,
                CollationChange::Rename { from, .. } => from,
                CollationChange::Drop { qname } => qname,
                CollationChange::CommentOn { qname, .. } => qname,
            };
            NodeId::Collation(qname.duplicate())
        },
        Change::EventTrigger(ec) => {
            let name = match ec {
                EventTriggerChange::Create(et) => &et.name,
                EventTriggerChange::Replace { to, .. } => &to.name,
                EventTriggerChange::Drop { name }
                | EventTriggerChange::AlterEnable { name, .. }
                | EventTriggerChange::AlterOwner { name, .. }
                | EventTriggerChange::CommentOn { name, .. } => name,
            };
            NodeId::EventTrigger(name.duplicate())
        },
        Change::Aggregate(ac) => match ac {
            AggregateChange::Create(a) => aggregate_id(&a.qname, &a.arg_types),
            AggregateChange::Replace { to, .. } => aggregate_id(&to.qname, &to.arg_types),
            AggregateChange::Drop { qname, arg_types } => aggregate_id(qname, arg_types),
            AggregateChange::AlterOwner { qname, arg_types, .. } => aggregate_id(qname, arg_types),
            AggregateChange::CommentOn { qname, arg_types, .. } => aggregate_id(qname, arg_types),
        },
        Change::Cast(cc) => match cc {
            CastChange::Create(c) => NodeId::Cast(c.source.duplicate(), c.target.duplicate()),
            CastChange::Replace { to, .. } => NodeId::Cast(
                to.source.duplicate(),
                to.target.duplicate(),
            ),
            CastChange::Drop { source, target } => NodeId::Cast(
                source.duplicate(),
                target.duplicate(),
            ),
            CastChange::CommentOn { source, target, .. } => NodeId::Cast(
                source.duplicate(),
                target.duplicate(),
            ),
        },
        Change::TsDictionary(dc) => {
            let qname = match dc {
                TsDictionaryChange::Create(d) => &d.qname,
                TsDictionaryChange::Replace { to, .. } => &to.qname,
                TsDictionaryChange::Drop { qname }
                | TsDictionaryChange::AlterOptions { qname, .. }
                | TsDictionaryChange::AlterOwner { qname, .. }
                | TsDictionaryChange::CommentOn { qname, .. } => qname,
            };
            NodeId::TsDictionary(qname.duplicate())
        },
        Change::TsConfiguration(cc) => {
            let qname = match cc {
                TsConfigurationChange::Create(c) => &c.qname,
                TsConfigurationChange::Replace { to, .. } => &to.qname,
                TsConfigurationChange::Drop { qname }
                | TsConfigurationChange::AddMapping { qname, .. }
                | TsConfigurationChange::AlterMapping { qname, .. }
                | TsConfigurationChange::DropMapping { qname, .. }
                | TsConfigurationChange::AlterOwner { qname, .. }
                | TsConfigurationChange::CommentOn { qname, .. } => qname,
            };
            NodeId::TsConfiguration(qname.duplicate())
        },
        Change::UnsupportedDiff { .. } => vstd::pervasive::unreached(),
    }
}

} // verus!
