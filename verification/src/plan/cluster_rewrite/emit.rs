//! Turn changes to cluster-wide objects into steps.
//!
//! Such a change is not about an object of a schema, so its step has no
//! targets.

use crate::diff::cluster::{ClusterChange, ClusterChangeEntry, ClusterChangeSet};
use crate::model::models;
use crate::plan::cluster_rewrite::sql::{
    alter_role_attributes, alter_role_sql, comment_on_role, comment_on_role_sql, create_role,
    create_role_sql, drop_role, drop_role_sql, grant_membership_sql, grant_role_membership,
    revoke_membership_sql, revoke_role_membership,
};
use crate::plan::raw_step::{
    gated_step, no_targets, push_raw, raw_step, safe_step, RawStep, StepKind, StepModel,
    TransactionConstraint,
};
use crate::text::{as_deref, opt_text};
use vstd::prelude::*;

verus! {

/// Changes to roles have steps; changes to tablespaces have none yet.
pub open spec fn is_role_change(change: ClusterChange) -> bool {
    match change {
        ClusterChange::CreateTablespace(t) => false,
        ClusterChange::DropTablespace { name } => false,
        ClusterChange::AlterTablespaceOwner { name, owner } => false,
        ClusterChange::SetTablespaceOptions { name, options } => false,
        ClusterChange::CommentOnTablespace { name, comment } => false,
        _ => true,
    }
}

/// The step for a change to a role. Only dropping a role is destructive, and
/// it always is.
pub open spec fn cluster_step(entry: ClusterChangeEntry) -> StepModel
    recommends
        is_role_change(entry.change),
{
    match entry.change {
        ClusterChange::CreateRole(role) => safe_step(
            StepKind::CreateRole,
            Seq::empty(),
            create_role_sql(role),
        ),
        ClusterChange::DropRole { name } => gated_step(
            StepKind::DropRole,
            true,
            entry.destructiveness.reason_text(),
            Seq::empty(),
            drop_role_sql(name),
        ),
        ClusterChange::AlterRoleAttributes { name, from, to } => safe_step(
            StepKind::AlterRole,
            Seq::empty(),
            alter_role_sql(name, from, to),
        ),
        ClusterChange::GrantRoleMembership { member, role } => safe_step(
            StepKind::GrantRoleMembership,
            Seq::empty(),
            grant_membership_sql(role, member),
        ),
        ClusterChange::RevokeRoleMembership { member, role } => safe_step(
            StepKind::RevokeRoleMembership,
            Seq::empty(),
            revoke_membership_sql(role, member),
        ),
        ClusterChange::CommentOnRole { name, comment } => safe_step(
            StepKind::CommentOnRole,
            Seq::empty(),
            comment_on_role_sql(name, opt_text(comment)),
        ),
        _ => arbitrary(),
    }
}

/// The steps for a list of changes, one each.
pub open spec fn cluster_steps(entries: Seq<ClusterChangeEntry>) -> Seq<StepModel> {
    entries.map_values(|entry: ClusterChangeEntry| cluster_step(entry))
}

/// Emits one step for each change, in order. All run inside a transaction.
#[must_use]
pub fn emit_cluster_changes(cs: &ClusterChangeSet) -> (steps: Vec<RawStep>)
    requires
        forall|i: int|
            0 <= i < cs.entries@.len() ==> is_role_change((#[trigger] cs.entries@[i]).change),
    ensures
        models(steps@) == cluster_steps(cs.entries@),
{
    let mut out: Vec<RawStep> = Vec::new();
    let mut i: usize = 0;
    while i < cs.entries.len()
        invariant
            i <= cs.entries@.len(),
            models(out@) =~= cluster_steps(cs.entries@).take(i as int),
            forall|k: int|
                0 <= k < cs.entries@.len() ==> is_role_change((#[trigger] cs.entries@[k]).change),
        decreases cs.entries@.len() - i,
    {
        push_raw(&mut out, emit_one(&cs.entries[i]));
        i = i + 1;
    }
    assert(models(out@) =~= cluster_steps(cs.entries@));
    out
}

/// The step for one change to a role.
pub fn emit_one(entry: &ClusterChangeEntry) -> (step: RawStep)
    requires
        is_role_change(entry.change),
    ensures
        step@ == cluster_step(*entry),
{
    match &entry.change {
        ClusterChange::CreateRole(role) => safe(StepKind::CreateRole, create_role(role)),
        ClusterChange::DropRole { name } => raw_step(
            StepKind::DropRole,
            true,
            entry.destructiveness.reason(),
            no_targets(),
            drop_role(name),
            TransactionConstraint::InTransaction,
        ),
        ClusterChange::AlterRoleAttributes { name, from, to } => safe(
            StepKind::AlterRole,
            alter_role_attributes(name, from, to),
        ),
        ClusterChange::GrantRoleMembership { member, role } => safe(
            StepKind::GrantRoleMembership,
            grant_role_membership(role, member),
        ),
        ClusterChange::RevokeRoleMembership { member, role } => safe(
            StepKind::RevokeRoleMembership,
            revoke_role_membership(role, member),
        ),
        ClusterChange::CommentOnRole { name, comment } => safe(
            StepKind::CommentOnRole,
            comment_on_role(name, as_deref(comment)),
        ),
        _ => vstd::pervasive::unreached(),
    }
}

fn safe(kind: StepKind, sql: String) -> (step: RawStep)
    ensures
        step@ == safe_step(kind, Seq::empty(), sql@),
{
    raw_step(kind, false, None, no_targets(), sql, TransactionConstraint::InTransaction)
}

} // verus!
