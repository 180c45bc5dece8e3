//! Rewrite pass: turn an ordered change set into a flat list of steps.
//!
//! Each change is dispatched to an emitter that produces one or more steps.
//! Most produce a single step; the online rewrites produce several. Online
//! rewrites are gated on the policy's switches.

pub mod check_not_valid_validate;
pub mod collations;
pub mod concurrent_index;
pub mod context;
pub mod definition_laws;
pub mod emit;
pub mod extensions;
pub mod fk_not_valid_validate;
pub mod functions;
pub mod grants;
pub mod object_laws;
pub mod partitions;
pub mod policies;
pub mod publications;
pub mod refresh_mv_concurrently;
pub mod reloptions;
pub mod rewrite_laws;
pub mod set_not_null_check_pattern;
pub mod sql;
pub mod statistics;
pub mod subscriptions;
pub mod table_laws;
pub mod targets;
pub mod triggers;
pub mod types;
pub mod views;

use crate::diff::change::{Change, ChangeEntry};
use crate::identifier::QualifiedName;
use crate::ir::catalog::Catalog;
use crate::ir::view::ViewDefinition;
use crate::model::models;
use crate::plan::ordered::{DeferredFkAdd, OrderedChangeSet};
use crate::plan::policy::PlannerPolicy;
use crate::plan::raw_step::{
    one_target, push_safe, safe_step, RawStep, StepKind, StepModel,
};
use crate::plan::recreate_views::{find_view, first_view};
use crate::plan::rewrite::context::Ctx;
use crate::plan::rewrite::refresh_mv_concurrently::upgraded_all;
use crate::plan::rewrite::targets::destructive_reason;
use crate::plan::rewrite::views::{create_view_sql, emit_alter_view_set_check_option};
use vstd::prelude::*;

verus! {

/// The view that a catalog defines under a name: the first of that name.
pub open spec fn defined_view(c: Catalog, q: QualifiedName) -> ViewDefinition {
    c.views@[choose|i: int| first_view(c, q@, i)]
}

/// The step that changes a view's check option: the view is replaced in place
/// by its definition in the source.
#[verifier::opaque]
pub open spec fn check_option_steps(q: QualifiedName, source: Catalog) -> Seq<StepModel> {
    seq![
        safe_step(
            StepKind::AlterViewSetCheckOption,
            seq![q@],
            create_view_sql(defined_view(source, q), true),
        ),
    ]
}

fn set_check_option(q: QualifiedName, source: &Catalog, out: &mut Vec<RawStep>)
    requires
        exists|i: int| first_view(*source, q@, i),
    ensures
        models(final(out)@) == models(old(out)@) + check_option_steps(q, *source),
{
    let ghost before = models(out@);
    match find_view(source, &q) {
        Some(view) => {
            proof {
                let i = choose|i: int| #[trigger]
                    first_view(*source, q@, i) && source.views@[i] == *view;
                let j = choose|j: int| first_view(*source, q@, j);
                if i < j {
                    assert(source.views@[i].qname@ != q@);
                } else if j < i {
                    assert(source.views@[j].qname@ != q@);
                }
            }
            push_safe(
                out,
                StepKind::AlterViewSetCheckOption,
                one_target(&q),
                emit_alter_view_set_check_option(view),
            );
            proof {
                reveal(check_option_steps);
            }
            assert(models(out@) =~= before + check_option_steps(q, *source));
        },
        None => {
            proof {
                let j = choose|j: int| first_view(*source, q@, j);
                assert(source.views@[j].qname@ != q@);
            }
        },
    }
}

/// The changes that can be turned into steps.
///
/// An unsupported difference is rejected when the changes are ordered. A
/// changed check option needs the view in the source, and a grant on columns
/// needs columns.
pub open spec fn emittable(change: Change, source: Catalog) -> bool {
    match change {
        Change::UnsupportedDiff { reason } => false,
        Change::AlterViewSetCheckOption { qname, check_option } => exists|i: int|
            first_view(source, qname@, i),
        Change::GrantColumnPrivilege { qname, grant } => grant.columns is Some,
        Change::RevokeColumnPrivilege { qname, grant } => grant.columns is Some,
        _ => true,
    }
}

/// The steps for one change.
pub open spec fn change_steps(
    entry: ChangeEntry,
    target: Catalog,
    source: Catalog,
    policy: PlannerPolicy,
) -> Seq<StepModel> {
    let reason = entry.destructiveness.reason_text();
    let destructive = reason is Some;
    match entry.change {
        Change::CreateSchema(s) => emit::schema::create_steps(s, destructive, reason),
        Change::DropSchema(name) => emit::schema::drop_steps(name, destructive, reason),
        Change::AlterSchema { name, comment } => emit::schema::alter_steps(name, comment),
        Change::CreateTable(t) => emit::table::create_steps(t, destructive, reason),
        Change::DropTable { qname, row_count_estimate } => emit::table::drop_steps(
            qname,
            destructive,
            reason,
        ),
        Change::AlterTable { qname, ops } => emit::table::alter_steps(qname, ops@, target, policy),
        Change::CreateIndex(idx) => emit::index::create_steps(
            idx,
            target,
            policy,
            destructive,
            reason,
        ),
        Change::DropIndex(qname) => emit::index::drop_steps(
            qname,
            target,
            policy,
            destructive,
            reason,
        ),
        Change::ReplaceIndex { from, to } => emit::index::replace_steps(from, to, target, policy),
        Change::CreateSequence(s) => emit::sequence::create_steps(s),
        Change::DropSequence(qname) => emit::sequence::drop_steps(qname, destructive, reason),
        Change::AlterSequence { qname, ops } => emit::sequence::alter_steps(qname, ops@),
        Change::ValidateConstraint { table, constraint } => emit::constraint::validate_steps(
            table,
            constraint,
        ),
        Change::RecreateIndex { qname } => emit::index::recreate_steps(
            qname,
            target,
            source,
            policy,
        ),
        Change::View(vc) => emit::view::view_steps(vc, destructive, reason),
        Change::AlterViewSetCheckOption { qname, check_option } => check_option_steps(
            qname,
            source,
        ),
        Change::Mv(mc) => emit::mv::mv_steps(mc),
        Change::UserType(utc) => emit::user_type::user_type_steps(
            utc,
            destructive,
            reason,
            source,
            target,
        ),
        Change::Function(fc) => emit::function::function_steps(fc, destructive, reason),
        Change::Procedure(pc) => emit::procedure::procedure_steps(pc, destructive, reason),
        Change::Extension(ec) => emit::extension::extension_steps(ec, destructive, reason),
        Change::Trigger(tc) => emit::trigger::trigger_steps(tc, destructive, reason),
        Change::Table(tc) => emit::partition::partition_steps(tc),
        Change::AlterObjectOwner(op) => emit::access::owner_steps(op),
        Change::GrantObjectPrivilege { object, grant } => emit::access::grant_steps(object, grant),
        Change::RevokeObjectPrivilege { object, grant } => emit::access::revoke_steps(
            object,
            grant,
        ),
        Change::GrantColumnPrivilege { qname, grant } => emit::access::grant_column_steps(
            qname,
            grant,
        ),
        Change::RevokeColumnPrivilege { qname, grant } => emit::access::revoke_column_steps(
            qname,
            grant,
        ),
        Change::AlterDefaultPrivileges { target_role, schema, object_type, direction, grant } =>
            emit::access::default_privileges_steps(
            target_role,
            schema,
            object_type,
            direction,
            grant,
        ),
        Change::CreatePolicy { table, policy: p } => emit::access::create_policy_steps(table, p),
        Change::DropPolicy { table, name } => emit::access::drop_policy_steps(table, name),
        Change::AlterPolicy { table, policy: p } => emit::access::alter_policy_steps(table, p),
        Change::SetTableRowSecurity { qname, security } => emit::access::row_security_steps(
            qname,
            security,
        ),
        Change::SetTableForceRowSecurity { qname, force } =>
            emit::access::force_row_security_steps(qname, force),
        Change::SetTableStorage { qname, options } => emit::storage::table_steps(qname, options),
        Change::SetIndexStorage { qname, options } => emit::storage::index_steps(qname, options),
        Change::SetMaterializedViewStorage { qname, options } => emit::storage::mv_steps(
            qname,
            options,
        ),
        Change::Publication(c) => emit::publication::publication_steps(c, destructive, reason),
        Change::Subscription(c) => emit::subscription::subscription_steps(c, destructive, reason),
        Change::Statistic(c) => emit::statistic::statistic_steps(c, destructive, reason),
        Change::Collation(c) => emit::collation::collation_steps(c, destructive, reason),
        Change::EventTrigger(c) => emit::event_trigger::event_trigger_steps(
            c,
            destructive,
            reason,
        ),
        Change::Aggregate(c) => emit::aggregate::aggregate_steps(c, destructive, reason),
        Change::Cast(c) => emit::cast::cast_steps(c, destructive, reason),
        Change::TsDictionary(c) => emit::ts_dictionary::ts_dictionary_steps(
            c,
            destructive,
            reason,
        ),
        Change::TsConfiguration(c) => emit::ts_configuration::ts_configuration_steps(
            c,
            destructive,
            reason,
        ),
        Change::UnsupportedDiff { reason: r } => Seq::empty(),
    }
}

/// Emits the steps for one change.
pub fn emit_change(entry: ChangeEntry, ctx: &Ctx, out: &mut Vec<RawStep>)
    requires
        emittable(entry.change, *ctx.source),
    ensures
        models(final(out)@) == models(old(out)@) + change_steps(
            entry,
            *ctx.target,
            *ctx.source,
            *ctx.policy,
        ),
{
    let reason = destructive_reason(&entry.destructiveness);
    let destructive = entry.destructiveness.requires_approval();
    match entry.change {
        Change::CreateSchema(s) => emit::schema::create(s, destructive, reason, out),
        Change::DropSchema(name) => emit::schema::drop_(name, destructive, reason, out),
        Change::AlterSchema { name, comment } => emit::schema::alter(name, comment, out),
        Change::CreateTable(t) => emit::table::create(t, destructive, reason, out),
        Change::DropTable { qname, .. } => emit::table::drop_(qname, destructive, reason, out),
        Change::AlterTable { qname, ops } => emit::table::alter(qname, ops, ctx, out),
        Change::CreateIndex(idx) => emit::index::create(idx, ctx, destructive, reason, out),
        Change::DropIndex(qname) => emit::index::drop_(qname, ctx, destructive, reason, out),
        Change::ReplaceIndex { from, to } => emit::index::replace(
            from,
            to,
            ctx,
            destructive,
            reason,
            out,
        ),
        Change::CreateSequence(s) => emit::sequence::create(s, destructive, reason, out),
        Change::DropSequence(qname) => emit::sequence::drop_(qname, destructive, reason, out),
        Change::AlterSequence { qname, ops } => emit::sequence::alter(qname, ops, out),
        Change::ValidateConstraint { table, constraint } => emit::constraint::validate(
            table,
            constraint,
            destructive,
            reason,
            out,
        ),
        Change::RecreateIndex { qname } => emit::index::recreate(
            qname,
            ctx,
            destructive,
            reason,
            out,
        ),
        Change::View(vc) => emit::view::emit(vc, destructive, reason, out),
        Change::AlterViewSetCheckOption { qname, .. } => set_check_option(qname, ctx.source, out),
        Change::Mv(mc) => emit::mv::emit(mc, destructive, reason, out),
        Change::UserType(utc) => emit::user_type::emit(utc, destructive, reason, ctx, out),
        Change::Function(fc) => emit::function::emit(fc, destructive, reason, out),
        Change::Procedure(pc) => emit::procedure::emit(pc, destructive, reason, out),
        Change::Extension(ec) => emit::extension::emit(ec, destructive, reason, out),
        Change::Trigger(tc) => emit::trigger::emit(tc, destructive, reason, out),
        Change::Table(tc) => emit::partition::emit(tc, out),
        Change::AlterObjectOwner(op) => emit::access::alter_owner(op, out),
        Change::GrantObjectPrivilege { object, grant } => emit::access::grant_object(
            object,
            grant,
            out,
        ),
        Change::RevokeObjectPrivilege { object, grant } => emit::access::revoke_object(
            object,
            grant,
            out,
        ),
        Change::GrantColumnPrivilege { qname, grant } => emit::access::grant_columns(
            qname,
            grant,
            out,
        ),
        Change::RevokeColumnPrivilege { qname, grant } => emit::access::revoke_columns(
            qname,
            grant,
            out,
        ),
        Change::AlterDefaultPrivileges { target_role, schema, object_type, direction, grant } =>
            emit::access::default_privileges(
            target_role,
            schema,
            object_type,
            direction,
            grant,
            out,
        ),
        Change::CreatePolicy { table, policy } => emit::access::add_policy(table, policy, out),
        Change::DropPolicy { table, name } => emit::access::remove_policy(table, name, out),
        Change::AlterPolicy { table, policy } => emit::access::change_policy(table, policy, out),
        Change::SetTableRowSecurity { qname, security } => emit::access::row_security(
            qname,
            security,
            out,
        ),
        Change::SetTableForceRowSecurity { qname, force } => emit::access::force_row_security(
            qname,
            force,
            out,
        ),
        Change::SetTableStorage { qname, options } => emit::storage::table(qname, options, out),
        Change::SetIndexStorage { qname, options } => emit::storage::index(qname, options, out),
        Change::SetMaterializedViewStorage { qname, options } => emit::storage::mv(
            qname,
            options,
            out,
        ),
        Change::Publication(c) => emit::publication::emit(c, destructive, reason, out),
        Change::Subscription(c) => emit::subscription::emit(c, destructive, reason, out),
        Change::Statistic(c) => emit::statistic::emit(c, destructive, reason, out),
        Change::Collation(c) => emit::collation::emit(c, destructive, reason, out),
        Change::EventTrigger(c) => emit::event_trigger::emit(c, destructive, reason, out),
        Change::Aggregate(c) => emit::aggregate::emit(c, destructive, reason, out),
        Change::Cast(c) => emit::cast::emit(c, destructive, reason, out),
        Change::TsDictionary(c) => emit::ts_dictionary::emit(c, destructive, reason, out),
        Change::TsConfiguration(c) => emit::ts_configuration::emit(c, destructive, reason, out),
        Change::UnsupportedDiff { .. } => {},
    }
}

/// The steps for a list of changes, in order.
pub open spec fn all_steps(
    entries: Seq<ChangeEntry>,
    target: Catalog,
    source: Catalog,
    policy: PlannerPolicy,
) -> Seq<StepModel>
    decreases entries.len(),
{
    if entries.len() == 0 {
        Seq::empty()
    } else {
        change_steps(entries[0], target, source, policy) + all_steps(
            entries.drop_first(),
            target,
            source,
            policy,
        )
    }
}

/// Whether every change of a list can be turned into steps.
pub open spec fn all_emittable(entries: Seq<ChangeEntry>, source: Catalog) -> bool {
    forall|i: int| 0 <= i < entries.len() ==> emittable((#[trigger] entries[i]).change, source)
}

fn emit_all(entries: Vec<ChangeEntry>, ctx: &Ctx, out: &mut Vec<RawStep>)
    requires
        all_emittable(entries@, *ctx.source),
    ensures
        models(final(out)@) == models(old(out)@) + all_steps(
            entries@,
            *ctx.target,
            *ctx.source,
            *ctx.policy,
        ),
{
    let ghost before = models(out@);
    let ghost target = *ctx.target;
    let ghost source = *ctx.source;
    let ghost policy = *ctx.policy;
    let mut rest = crate::plan::grouping::reversed(entries);
    let ghost mut left = entries@;
    assert(models(out@) + all_steps(left, target, source, policy) =~= before + all_steps(
        entries@,
        target,
        source,
        policy,
    ));
    while rest.len() > 0
        invariant
            target == *ctx.target,
            source == *ctx.source,
            policy == *ctx.policy,
            rest@ =~= left.reverse(),
            all_emittable(left, source),
            models(out@) + all_steps(left, target, source, policy) == before + all_steps(
                entries@,
                target,
                source,
                policy,
            ),
        decreases rest@.len(),
    {
        let ghost here = models(out@);
        match rest.pop() {
            Some(entry) => {
                assert(entry == left[0]);
                let ghost next = left.drop_first();
                assert(rest@ =~= next.reverse());
                assert forall|i: int| 0 <= i < next.len() implies emittable(
                    (#[trigger] next[i]).change,
                    source,
                ) by {
                    assert(next[i] == left[i + 1]);
                }
                emit_change(entry, ctx, out);
                assert(models(out@) + all_steps(next, target, source, policy) =~= here + all_steps(
                    left,
                    target,
                    source,
                    policy,
                ));
                proof {
                    left = next;
                }
            },
            None => {},
        }
    }
    assert(left.len() == 0);
    assert(models(out@) =~= models(out@) + all_steps(left, target, source, policy));
}

/// The steps for a list of deferred foreign keys, in order.
pub open spec fn fk_steps(fks: Seq<DeferredFkAdd>) -> Seq<StepModel>
    decreases fks.len(),
{
    if fks.len() == 0 {
        Seq::empty()
    } else {
        fk_steps(fks.drop_last()) + emit::deferred_fk::deferred_fk_steps(fks.last())
    }
}

fn emit_fks(fks: &Vec<DeferredFkAdd>, out: &mut Vec<RawStep>)
    ensures
        models(final(out)@) == models(old(out)@) + fk_steps(fks@),
{
    let ghost before = models(out@);
    let mut i: usize = 0;
    assert(models(out@) =~= before + fk_steps(fks@.take(0)));
    while i < fks.len()
        invariant
            i <= fks@.len(),
            models(out@) == before + fk_steps(fks@.take(i as int)),
        decreases fks@.len() - i,
    {
        assert(fks@.take(i + 1).drop_last() =~= fks@.take(i as int));
        emit::deferred_fk::emit(&fks[i], out);
        assert(models(out@) =~= before + fk_steps(fks@.take(i + 1)));
        i = i + 1;
    }
    assert(fks@.take(fks@.len() as int) =~= fks@);
}

/// The steps before refreshes are made concurrent: creates, then modifies,
/// then drops, then deferred foreign keys, each bucket in its order.
pub open spec fn emitted(
    ordered: OrderedChangeSet,
    target: Catalog,
    source: Catalog,
    policy: PlannerPolicy,
) -> Seq<StepModel> {
    all_steps(ordered.creates_and_adds@, target, source, policy) + all_steps(
        ordered.modifies@,
        target,
        source,
        policy,
    ) + all_steps(ordered.drops@, target, source, policy) + fk_steps(ordered.deferred_fks@)
}

/// The steps of a whole set of changes.
pub open spec fn rewritten(
    ordered: OrderedChangeSet,
    target: Catalog,
    source: Catalog,
    policy: PlannerPolicy,
) -> Seq<StepModel> {
    upgraded_all(emitted(ordered, target, source, policy), source, policy)
}

/// Whether every change of a set can be turned into steps.
pub open spec fn set_emittable(ordered: OrderedChangeSet, source: Catalog) -> bool {
    &&& all_emittable(ordered.creates_and_adds@, source)
    &&& all_emittable(ordered.modifies@, source)
    &&& all_emittable(ordered.drops@, source)
}

/// The changes that can be turned into steps without a source catalog.
pub open spec fn self_contained(change: Change) -> bool {
    match change {
        Change::UnsupportedDiff { reason } => false,
        Change::AlterViewSetCheckOption { qname, check_option } => false,
        Change::GrantColumnPrivilege { qname, grant } => grant.columns is Some,
        Change::RevokeColumnPrivilege { qname, grant } => grant.columns is Some,
        _ => true,
    }
}

/// Every change of a list can be turned into steps without a source catalog.
pub open spec fn all_self_contained(entries: Seq<ChangeEntry>) -> bool {
    forall|i: int| 0 <= i < entries.len() ==> self_contained((#[trigger] entries[i]).change)
}

/// Turns a set of changes into steps, with an empty source catalog.
///
/// A changed check option needs its view from the source; it goes through
/// [`rewrite_with_source`].
pub fn rewrite(
    ordered: OrderedChangeSet,
    target: &Catalog,
    policy: &PlannerPolicy,
) -> (steps: Vec<RawStep>)
    requires
        all_self_contained(ordered.creates_and_adds@),
        all_self_contained(ordered.modifies@),
        all_self_contained(ordered.drops@),
    ensures
        forall|source: Catalog|
            #![trigger rewritten(ordered, *target, source, *policy)]
            source.is_empty() ==> models(steps@) == rewritten(ordered, *target, source, *policy),
{
    let source = Catalog::empty();
    assert(set_emittable(ordered, source));
    proof {
        assert forall|other: Catalog| #![trigger rewritten(ordered, *target, other, *policy)]
            other.is_empty() implies rewritten(ordered, *target, source, *policy) == rewritten(
            ordered,
            *target,
            other,
            *policy,
        ) by {
            rewrite_laws::lemma_empty_sources(ordered, *target, source, other, *policy);
        }
    }
    rewrite_with_source(ordered, target, &source, policy)
}

/// Turns a set of changes into steps. The source catalog is asked for the
/// definitions of objects that are built again.
///
/// The steps come in the order creates, modifies, drops, deferred foreign
/// keys; within each the order of the set is kept. At the end refreshes of
/// materialized views are made concurrent where that is possible.
pub fn rewrite_with_source(
    ordered: OrderedChangeSet,
    target: &Catalog,
    source: &Catalog,
    policy: &PlannerPolicy,
) -> (steps: Vec<RawStep>)
    requires
        set_emittable(ordered, *source),
    ensures
        models(steps@) == rewritten(ordered, *target, *source, *policy),
{
    let ctx = Ctx { target, source, policy };
    let ghost whole = emitted(ordered, *target, *source, *policy);
    let mut out: Vec<RawStep> = Vec::new();
    emit_all(ordered.creates_and_adds, &ctx, &mut out);
    emit_all(ordered.modifies, &ctx, &mut out);
    emit_all(ordered.drops, &ctx, &mut out);
    emit_fks(&ordered.deferred_fks, &mut out);
    assert(models(out@) =~= whole);
    let mut findings: Vec<QualifiedName> = Vec::new();
    refresh_mv_concurrently::rewrite(&mut out, source, policy, &mut findings);
    out
}

} // verus!
