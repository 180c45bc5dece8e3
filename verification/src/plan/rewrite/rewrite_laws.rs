//! Laws of the rewrite pass.

use crate::diff::change::{
    AggregateChange, CastChange, Change, ChangeEntry, CollationChange, EventTriggerChange,
    ExtensionChange, FunctionChange, MvChange, ProcedureChange, PublicationChange, StatisticChange,
    SubscriptionChange, TriggerChange, TsConfigurationChange, TsDictionaryChange, UserTypeChange,
    ViewChange,
};
use crate::diff::table_op::TableOpEntry;
use crate::identifier::QualifiedName;
use crate::ir::catalog::Catalog;
use crate::ir::constraint::Constraint;
use crate::ir::index::Index;
use crate::ir::table::{Column, Table};
use crate::ir::view::ViewColumn;
use crate::plan::ordered::{DeferredFkAdd, OrderedChangeSet};
use crate::plan::policy::PlannerPolicy;
use crate::plan::raw_step::StepModel;
use crate::plan::rewrite::emit;
use crate::plan::rewrite::refresh_mv_concurrently::{has_unique_index, upgraded, upgraded_all};
use crate::plan::rewrite::{
    all_self_contained, all_steps, change_steps, check_option_steps, emitted, fk_steps, rewritten,
    self_contained,
};
use vstd::prelude::*;

verus! {

/// A step as the pass leaves it: not numbered, without an intent, destructive
/// exactly where it has a reason, and outside a transaction where it builds or
/// drops an index concurrently. Where `inside` is set, it is also inside a
/// transaction.
pub open spec fn proper(step: StepModel, inside: bool) -> bool {
    &&& step.step_no == 0
    &&& step.intent_id is None
    &&& step.destructive == step.destructive_reason is Some
    &&& (step.kind is CreateIndexConcurrent || step.kind is DropIndexConcurrent)
        ==> step.transactional is OutsideTransaction
    &&& inside ==> step.transactional is InTransaction
}

/// Every step of a list is proper.
pub open spec fn all_proper(steps: Seq<StepModel>, inside: bool) -> bool {
    forall|i: int| 0 <= i < steps.len() ==> proper(#[trigger] steps[i], inside)
}

/// The changes that need a step outside a transaction under every policy:
/// creating a subscription with a slot, dropping a subscription, and creating
/// a procedure whose body commits.
pub open spec fn leaves_transaction(change: Change) -> bool {
    match change {
        Change::Subscription(SubscriptionChange::Create(s)) => s.options.create_slot != Some(
            false,
        ),
        Change::Subscription(SubscriptionChange::Drop { name }) => true,
        Change::Procedure(ProcedureChange::Create(p)) => p.commits_in_body,
        Change::Procedure(ProcedureChange::CreateOrReplace(p)) => p.commits_in_body,
        _ => false,
    }
}

proof fn lemma_proper_add(a: Seq<StepModel>, b: Seq<StepModel>, inside: bool)
    requires
        all_proper(a, inside),
        all_proper(b, inside),
    ensures
        all_proper(a + b, inside),
{
    assert forall|i: int| 0 <= i < (a + b).len() implies proper(#[trigger] (a + b)[i], inside) by {
        if i < a.len() {
            assert((a + b)[i] == a[i]);
        } else {
            assert((a + b)[i] == b[i - a.len()]);
        }
    }
}

proof fn lemma_view_columns(q: QualifiedName, columns: Seq<ViewColumn>, inside: bool)
    ensures
        all_proper(emit::view::column_comments(q, columns), inside),
    decreases columns.len(),
{
    if columns.len() > 0 {
        lemma_view_columns(q, columns.drop_last(), inside);
    }
}

proof fn lemma_table_storage(q: QualifiedName, columns: Seq<Column>, inside: bool)
    ensures
        all_proper(emit::table::storage_steps(q, columns), inside),
    decreases columns.len(),
{
    if columns.len() > 0 {
        lemma_table_storage(q, columns.drop_last(), inside);
    }
}

proof fn lemma_table_columns(q: QualifiedName, columns: Seq<Column>, inside: bool)
    ensures
        all_proper(emit::table::column_comments(q, columns), inside),
    decreases columns.len(),
{
    if columns.len() > 0 {
        lemma_table_columns(q, columns.drop_last(), inside);
    }
}

proof fn lemma_table_constraints(q: QualifiedName, constraints: Seq<Constraint>, inside: bool)
    ensures
        all_proper(emit::table::constraint_comments(q, constraints), inside),
    decreases constraints.len(),
{
    if constraints.len() > 0 {
        lemma_table_constraints(q, constraints.drop_last(), inside);
    }
}

proof fn lemma_table_create(t: Table, reason: Option<Seq<char>>, inside: bool)
    ensures
        all_proper(emit::table::create_steps(t, reason is Some, reason), inside),
{
    reveal(emit::table::create_steps);
    lemma_table_storage(t.qname, t.columns@, inside);
    lemma_table_columns(t.qname, t.columns@, inside);
    lemma_table_constraints(t.qname, t.constraints@, inside);
}

#[verifier::spinoff_prover]
proof fn lemma_table_op(
    q: QualifiedName,
    entry: TableOpEntry,
    target: Catalog,
    policy: PlannerPolicy,
    inside: bool,
)
    ensures
        all_proper(emit::table::op_steps(q, entry, target, policy), inside),
{
    reveal(emit::table::op_steps);
}

proof fn lemma_table_alter(
    q: QualifiedName,
    ops: Seq<TableOpEntry>,
    target: Catalog,
    policy: PlannerPolicy,
    inside: bool,
)
    ensures
        all_proper(emit::table::alter_steps(q, ops, target, policy), inside),
    decreases ops.len(),
{
    if ops.len() > 0 {
        lemma_table_alter(q, ops.drop_last(), target, policy, inside);
        lemma_table_op(q, ops.last(), target, policy, inside);
    }
}

proof fn lemma_schema_create(s: crate::ir::schema::Schema, reason: Option<Seq<char>>, inside: bool)
    ensures
        all_proper(emit::schema::create_steps(s, reason is Some, reason), inside),
{
    reveal(emit::schema::create_steps);
}

proof fn lemma_index_create(idx: Index, target: Catalog, policy: PlannerPolicy, reason: Option<Seq<char>>, inside: bool)
    requires
        inside ==> policy.strategy is Atomic,
    ensures
        all_proper(emit::index::create_steps(idx, target, policy, reason is Some, reason), inside),
{
    reveal(emit::index::create_steps);
}

proof fn lemma_index_drop(q: QualifiedName, target: Catalog, policy: PlannerPolicy, reason: Option<Seq<char>>, inside: bool)
    requires
        inside ==> policy.strategy is Atomic,
    ensures
        all_proper(emit::index::drop_steps(q, target, policy, reason is Some, reason), inside),
{
    reveal(emit::index::drop_steps);
}

proof fn lemma_index_replace(from: Index, to: Index, target: Catalog, policy: PlannerPolicy, inside: bool)
    requires
        inside ==> policy.strategy is Atomic,
    ensures
        all_proper(emit::index::replace_steps(from, to, target, policy), inside),
{
    reveal(emit::index::replace_steps);
}

proof fn lemma_index_recreate(q: QualifiedName, target: Catalog, source: Catalog, policy: PlannerPolicy, inside: bool)
    requires
        inside ==> policy.strategy is Atomic,
    ensures
        all_proper(emit::index::recreate_steps(q, target, source, policy), inside),
{
    reveal(emit::index::recreate_steps);
}

proof fn lemma_view(vc: ViewChange, reason: Option<Seq<char>>, inside: bool)
    ensures
        all_proper(emit::view::view_steps(vc, reason is Some, reason), inside),
{
    reveal(emit::view::view_steps);
    if let ViewChange::Create(v) = vc {
        lemma_view_columns(v.qname, v.columns@, inside);
    }
}

proof fn lemma_mv(mc: MvChange, inside: bool)
    ensures
        all_proper(emit::mv::mv_steps(mc), inside),
{
    reveal(emit::mv::mv_steps);
    if let MvChange::Create(mv) = mc {
        lemma_view_columns(mv.qname, mv.columns@, inside);
    }
}

proof fn lemma_user_type(utc: UserTypeChange, source: Catalog, target: Catalog, reason: Option<Seq<char>>, inside: bool)
    ensures
        all_proper(emit::user_type::user_type_steps(utc, reason is Some, reason, source, target), inside),
{
    reveal(emit::user_type::user_type_steps);
}

proof fn lemma_function(fc: FunctionChange, reason: Option<Seq<char>>, inside: bool)
    ensures
        all_proper(emit::function::function_steps(fc, reason is Some, reason), inside),
{
    reveal(emit::function::function_steps);
}

proof fn lemma_procedure(pc: ProcedureChange, reason: Option<Seq<char>>, inside: bool)
    requires
        inside ==> !leaves_transaction(Change::Procedure(pc)),
    ensures
        all_proper(emit::procedure::procedure_steps(pc, reason is Some, reason), inside),
{
    reveal(emit::procedure::procedure_steps);
}

proof fn lemma_extension(ec: ExtensionChange, reason: Option<Seq<char>>, inside: bool)
    ensures
        all_proper(emit::extension::extension_steps(ec, reason is Some, reason), inside),
{
    reveal(emit::extension::extension_steps);
}

proof fn lemma_trigger(tc: TriggerChange, reason: Option<Seq<char>>, inside: bool)
    ensures
        all_proper(emit::trigger::trigger_steps(tc, reason is Some, reason), inside),
{
    reveal(emit::trigger::trigger_steps);
}

proof fn lemma_publication(c: PublicationChange, reason: Option<Seq<char>>, inside: bool)
    ensures
        all_proper(emit::publication::publication_steps(c, reason is Some, reason), inside),
{
    reveal(emit::publication::publication_steps);
}

proof fn lemma_subscription(c: SubscriptionChange, reason: Option<Seq<char>>, inside: bool)
    requires
        inside ==> !leaves_transaction(Change::Subscription(c)),
    ensures
        all_proper(emit::subscription::subscription_steps(c, reason is Some, reason), inside),
{
    reveal(emit::subscription::subscription_steps);
}

proof fn lemma_statistic(c: StatisticChange, reason: Option<Seq<char>>, inside: bool)
    ensures
        all_proper(emit::statistic::statistic_steps(c, reason is Some, reason), inside),
{
    reveal(emit::statistic::statistic_steps);
}

proof fn lemma_collation(c: CollationChange, reason: Option<Seq<char>>, inside: bool)
    ensures
        all_proper(emit::collation::collation_steps(c, reason is Some, reason), inside),
{
    reveal(emit::collation::collation_steps);
}

proof fn lemma_event_trigger(c: EventTriggerChange, reason: Option<Seq<char>>, inside: bool)
    ensures
        all_proper(emit::event_trigger::event_trigger_steps(c, reason is Some, reason), inside),
{
    reveal(emit::event_trigger::event_trigger_steps);
}

proof fn lemma_aggregate(c: AggregateChange, reason: Option<Seq<char>>, inside: bool)
    ensures
        all_proper(emit::aggregate::aggregate_steps(c, reason is Some, reason), inside),
{
    reveal(emit::aggregate::aggregate_steps);
}

proof fn lemma_cast(c: CastChange, reason: Option<Seq<char>>, inside: bool)
    ensures
        all_proper(emit::cast::cast_steps(c, reason is Some, reason), inside),
{
    reveal(emit::cast::cast_steps);
}

proof fn lemma_ts_dictionary(c: TsDictionaryChange, reason: Option<Seq<char>>, inside: bool)
    ensures
        all_proper(emit::ts_dictionary::ts_dictionary_steps(c, reason is Some, reason), inside),
{
    reveal(emit::ts_dictionary::ts_dictionary_steps);
}

proof fn lemma_ts_configuration(c: TsConfigurationChange, reason: Option<Seq<char>>, inside: bool)
    ensures
        all_proper(emit::ts_configuration::ts_configuration_steps(c, reason is Some, reason), inside),
{
    reveal(emit::ts_configuration::ts_configuration_steps);
}

/// What holds of every step of every change: it is not numbered, it is
/// destructive exactly where it has a reason, and an index is built or dropped
/// concurrently only outside a transaction. Where the strategy is atomic, and
/// the change does not need to leave the transaction under every policy, all
/// its steps are inside a transaction: no online rewrite is applied.
#[verifier::spinoff_prover]
#[verifier::rlimit(50)]
pub proof fn law_steps_of_a_change_are_proper(
    entry: ChangeEntry,
    target: Catalog,
    source: Catalog,
    policy: PlannerPolicy,
)
    ensures
        all_proper(
            change_steps(entry, target, source, policy),
            policy.strategy is Atomic && !leaves_transaction(entry.change),
        ),
{
    let inside = policy.strategy is Atomic && !leaves_transaction(entry.change);
    let reason = entry.destructiveness.reason_text();
    match entry.change {
        Change::CreateSchema(s) => lemma_schema_create(s, reason, inside),
        Change::CreateTable(t) => lemma_table_create(t, reason, inside),
        Change::AlterTable { qname, ops } => {
            lemma_table_alter(qname, ops@, target, policy, inside);
        },
        Change::CreateIndex(idx) => lemma_index_create(idx, target, policy, reason, inside),
        Change::DropIndex(q) => lemma_index_drop(q, target, policy, reason, inside),
        Change::ReplaceIndex { from, to } => {
            lemma_index_replace(from, to, target, policy, inside);
        },
        Change::RecreateIndex { qname } => {
            lemma_index_recreate(qname, target, source, policy, inside);
        },
        Change::View(vc) => lemma_view(vc, reason, inside),
        Change::Mv(mc) => lemma_mv(mc, inside),
        Change::UserType(utc) => lemma_user_type(utc, source, target, reason, inside),
        Change::Function(fc) => lemma_function(fc, reason, inside),
        Change::Procedure(pc) => lemma_procedure(pc, reason, inside),
        Change::Extension(ec) => lemma_extension(ec, reason, inside),
        Change::Trigger(tc) => lemma_trigger(tc, reason, inside),
        Change::Publication(c) => lemma_publication(c, reason, inside),
        Change::Subscription(c) => lemma_subscription(c, reason, inside),
        Change::Statistic(c) => lemma_statistic(c, reason, inside),
        Change::Collation(c) => lemma_collation(c, reason, inside),
        Change::EventTrigger(c) => lemma_event_trigger(c, reason, inside),
        Change::Aggregate(c) => lemma_aggregate(c, reason, inside),
        Change::Cast(c) => lemma_cast(c, reason, inside),
        Change::TsDictionary(c) => lemma_ts_dictionary(c, reason, inside),
        Change::TsConfiguration(c) => lemma_ts_configuration(c, reason, inside),
        Change::CreateSequence(s) => {
            reveal(emit::sequence::create_steps);
        },
        Change::Table(tc) => {
            reveal(emit::partition::partition_steps);
        },
        Change::DropSchema(name) => {
            reveal(emit::schema::drop_steps);
        },
        Change::AlterSchema { name, comment } => {
            reveal(emit::schema::alter_steps);
        },
        Change::DropTable { qname, row_count_estimate } => {
            reveal(emit::table::drop_steps);
        },
        Change::DropSequence(q) => {
            reveal(emit::sequence::drop_steps);
        },
        Change::ValidateConstraint { table, constraint } => {
            reveal(emit::constraint::validate_steps);
        },
        Change::AlterViewSetCheckOption { qname, check_option } => {
            reveal(check_option_steps);
        },
        Change::AlterObjectOwner(op) => {
            reveal(emit::access::owner_steps);
        },
        Change::GrantObjectPrivilege { object, grant } => {
            reveal(emit::access::grant_steps);
        },
        Change::RevokeObjectPrivilege { object, grant } => {
            reveal(emit::access::revoke_steps);
        },
        Change::GrantColumnPrivilege { qname, grant } => {
            reveal(emit::access::grant_column_steps);
        },
        Change::RevokeColumnPrivilege { qname, grant } => {
            reveal(emit::access::revoke_column_steps);
        },
        Change::AlterDefaultPrivileges { target_role, schema, object_type, direction, grant } => {
            reveal(emit::access::default_privileges_steps);
        },
        Change::CreatePolicy { table, policy: p } => {
            reveal(emit::access::create_policy_steps);
        },
        Change::DropPolicy { table, name } => {
            reveal(emit::access::drop_policy_steps);
        },
        Change::AlterPolicy { table, policy: p } => {
            reveal(emit::access::alter_policy_steps);
        },
        Change::SetTableRowSecurity { qname, security } => {
            reveal(emit::access::row_security_steps);
        },
        Change::SetTableForceRowSecurity { qname, force } => {
            reveal(emit::access::force_row_security_steps);
        },
        Change::SetTableStorage { qname, options } => {
            reveal(emit::storage::table_steps);
        },
        Change::SetIndexStorage { qname, options } => {
            reveal(emit::storage::index_steps);
        },
        Change::SetMaterializedViewStorage { qname, options } => {
            reveal(emit::storage::mv_steps);
        },
        _ => {},
    }
}

/// Two catalogs without objects say the same of every change.
#[verifier::spinoff_prover]
proof fn lemma_empty_source_change(
    entry: ChangeEntry,
    target: Catalog,
    a: Catalog,
    b: Catalog,
    policy: PlannerPolicy,
)
    requires
        a.is_empty(),
        b.is_empty(),
        self_contained(entry.change),
    ensures
        change_steps(entry, target, a, policy) == change_steps(entry, target, b, policy),
{
    assert(a.indexes@ =~= b.indexes@);
    assert(a.types@ =~= b.types@);
    match entry.change {
        Change::RecreateIndex { qname } => {
            reveal(emit::index::recreate_steps);
        },
        Change::UserType(utc) => {
            reveal(emit::user_type::user_type_steps);
        },
        _ => {},
    }
}

proof fn lemma_empty_source_list(
    entries: Seq<ChangeEntry>,
    target: Catalog,
    a: Catalog,
    b: Catalog,
    policy: PlannerPolicy,
)
    requires
        a.is_empty(),
        b.is_empty(),
        all_self_contained(entries),
    ensures
        all_steps(entries, target, a, policy) == all_steps(entries, target, b, policy),
    decreases entries.len(),
{
    if entries.len() > 0 {
        let rest = entries.drop_first();
        assert forall|i: int| 0 <= i < rest.len() implies self_contained(
            (#[trigger] rest[i]).change,
        ) by {
            assert(rest[i] == entries[i + 1]);
        }
        lemma_empty_source_change(entries[0], target, a, b, policy);
        lemma_empty_source_list(rest, target, a, b, policy);
    }
}

/// Two catalogs without objects say the same of every set of changes.
pub proof fn lemma_empty_sources(
    ordered: OrderedChangeSet,
    target: Catalog,
    a: Catalog,
    b: Catalog,
    policy: PlannerPolicy,
)
    requires
        a.is_empty(),
        b.is_empty(),
        all_self_contained(ordered.creates_and_adds@),
        all_self_contained(ordered.modifies@),
        all_self_contained(ordered.drops@),
    ensures
        rewritten(ordered, target, a, policy) == rewritten(ordered, target, b, policy),
{
    lemma_empty_source_list(ordered.creates_and_adds@, target, a, b, policy);
    lemma_empty_source_list(ordered.modifies@, target, a, b, policy);
    lemma_empty_source_list(ordered.drops@, target, a, b, policy);
    let steps = emitted(ordered, target, a, policy);
    assert(upgraded_all(steps, a, policy) =~= upgraded_all(steps, b, policy));
}

/// Whether a change of the list needs to leave the transaction under every
/// policy.
pub open spec fn some_leaves_transaction(entries: Seq<ChangeEntry>) -> bool {
    exists|i: int| 0 <= i < entries.len() && leaves_transaction((#[trigger] entries[i]).change)
}

proof fn lemma_list_proper(
    entries: Seq<ChangeEntry>,
    target: Catalog,
    source: Catalog,
    policy: PlannerPolicy,
    inside: bool,
)
    requires
        inside ==> policy.strategy is Atomic && !some_leaves_transaction(entries),
    ensures
        all_proper(all_steps(entries, target, source, policy), inside),
    decreases entries.len(),
{
    if entries.len() > 0 {
        let rest = entries.drop_first();
        if some_leaves_transaction(rest) {
            let i = choose|i: int|
                0 <= i < rest.len() && leaves_transaction((#[trigger] rest[i]).change);
            assert(rest[i] == entries[i + 1]);
        }
        law_steps_of_a_change_are_proper(entries[0], target, source, policy);
        assert(inside ==> !leaves_transaction(entries[0].change));
        let first = change_steps(entries[0], target, source, policy);
        assert(all_proper(first, inside)) by {
            assert forall|i: int| 0 <= i < first.len() implies proper(
                #[trigger] first[i],
                inside,
            ) by {}
        }
        lemma_list_proper(rest, target, source, policy, inside);
        lemma_proper_add(first, all_steps(rest, target, source, policy), inside);
    }
}

proof fn lemma_fks_proper(fks: Seq<DeferredFkAdd>, inside: bool)
    ensures
        all_proper(fk_steps(fks), inside),
    decreases fks.len(),
{
    if fks.len() > 0 {
        lemma_fks_proper(fks.drop_last(), inside);
        lemma_proper_add(
            fk_steps(fks.drop_last()),
            emit::deferred_fk::deferred_fk_steps(fks.last()),
            inside,
        );
    }
}

/// What holds of every step of a whole plan: it is not numbered, it is
/// destructive exactly where it has a reason, and an index is built or dropped
/// concurrently only outside a transaction. Under the atomic strategy the whole
/// plan is one transaction, unless a change needs to leave it under every
/// policy.
pub proof fn law_rewritten_steps_are_proper(
    ordered: OrderedChangeSet,
    target: Catalog,
    source: Catalog,
    policy: PlannerPolicy,
)
    ensures
        all_proper(
            rewritten(ordered, target, source, policy),
            policy.strategy is Atomic && !some_leaves_transaction(ordered.creates_and_adds@)
                && !some_leaves_transaction(ordered.modifies@) && !some_leaves_transaction(
                ordered.drops@,
            ),
        ),
{
    let inside = policy.strategy is Atomic && !some_leaves_transaction(ordered.creates_and_adds@)
        && !some_leaves_transaction(ordered.modifies@) && !some_leaves_transaction(ordered.drops@);
    let a = all_steps(ordered.creates_and_adds@, target, source, policy);
    let b = all_steps(ordered.modifies@, target, source, policy);
    let c = all_steps(ordered.drops@, target, source, policy);
    let d = fk_steps(ordered.deferred_fks@);
    lemma_list_proper(ordered.creates_and_adds@, target, source, policy, inside);
    lemma_list_proper(ordered.modifies@, target, source, policy, inside);
    lemma_list_proper(ordered.drops@, target, source, policy, inside);
    lemma_fks_proper(ordered.deferred_fks@, inside);
    lemma_proper_add(a, b, inside);
    lemma_proper_add(a + b, c, inside);
    lemma_proper_add(a + b + c, d, inside);
    let steps = emitted(ordered, target, source, policy);
    assert(all_proper(steps, inside));
    let last = rewritten(ordered, target, source, policy);
    assert forall|i: int| 0 <= i < last.len() implies proper(#[trigger] last[i], inside) by {
        assert(last[i] == upgraded(steps[i], source, policy));
        assert(proper(steps[i], inside));
    }
}

/// Making refreshes concurrent changes nothing but the SQL of refreshes: no
/// step is added, dropped or moved.
pub proof fn law_refresh_pass_keeps_steps(
    steps: Seq<StepModel>,
    source: Catalog,
    policy: PlannerPolicy,
    i: int,
)
    requires
        0 <= i < steps.len(),
    ensures
        upgraded_all(steps, source, policy).len() == steps.len(),
        (StepModel { sql: steps[i].sql, ..upgraded_all(steps, source, policy)[i] }) == steps[i],
        upgraded_all(steps, source, policy)[i] != steps[i] ==> steps[i].kind
            is RefreshMaterializedView && has_unique_index(source, steps[i].targets[0]),
        policy.strategy is Atomic ==> upgraded_all(steps, source, policy)[i] == steps[i],
{
}

} // verus!
