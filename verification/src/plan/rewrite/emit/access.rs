//! Steps for ownership, grants, default privileges and row-level security.

use crate::diff::change::GrantDirection;
use crate::diff::owner_op::{GrantableObject, OwnerOp};
use crate::identifier::{Identifier, QualifiedName};
use crate::ir::default_privileges::DefaultPrivObjectType;
use crate::ir::grant::Grant;
use crate::ir::policy::Policy;
use crate::model::models;
use crate::plan::raw_step::{
    no_targets, one_target, push_safe, safe_step, RawStep, StepKind, StepModel,
};
use crate::plan::rewrite::grants::{
    alter_default_privileges, alter_object_owner, alter_owner_sql, default_privileges_sql,
    grant_column_privilege, grant_column_sql, grant_object_privilege, grant_object_sql,
    revoke_column_privilege, revoke_column_sql, revoke_object_privilege, revoke_object_sql,
};
use crate::plan::rewrite::policies::{
    alter_policy, alter_policy_sql, create_policy, create_policy_sql, drop_policy,
    drop_policy_sql, force_row_security_sql, row_security_sql, set_table_force_row_security,
    set_table_row_security,
};
use vstd::prelude::*;

verus! {

/// The step that gives an object to another owner.
#[verifier::opaque]
pub open spec fn owner_steps(op: OwnerOp) -> Seq<StepModel> {
    seq![
        safe_step(
            StepKind::AlterObjectOwner,
            seq![op.object.target()],
            alter_owner_sql(op.object, op.to),
        ),
    ]
}

/// Gives an object to another owner.
pub fn alter_owner(op: OwnerOp, out: &mut Vec<RawStep>)
    ensures
        models(final(out)@) == models(old(out)@) + owner_steps(op),
{
    let ghost before = models(out@);
    push_safe(
        out,
        StepKind::AlterObjectOwner,
        one_target(&op.object.target_qname()),
        alter_object_owner(&op.object, &op.to),
    );
    proof {
        reveal(owner_steps);
    }
    assert(models(out@) =~= before + owner_steps(op));
}

/// The step that grants a privilege on an object.
#[verifier::opaque]
pub open spec fn grant_steps(object: GrantableObject, grant: Grant) -> Seq<StepModel> {
    seq![
        safe_step(
            StepKind::GrantObjectPrivilege,
            seq![object.target()],
            grant_object_sql(object, grant),
        ),
    ]
}

/// Grants a privilege on an object.
pub fn grant_object(object: GrantableObject, grant: Grant, out: &mut Vec<RawStep>)
    ensures
        models(final(out)@) == models(old(out)@) + grant_steps(object, grant),
{
    let ghost before = models(out@);
    push_safe(
        out,
        StepKind::GrantObjectPrivilege,
        one_target(&object.target_qname()),
        grant_object_privilege(&object, &grant),
    );
    proof {
        reveal(grant_steps);
    }
    assert(models(out@) =~= before + grant_steps(object, grant));
}

/// The step that revokes a privilege on an object.
#[verifier::opaque]
pub open spec fn revoke_steps(object: GrantableObject, grant: Grant) -> Seq<StepModel> {
    seq![
        safe_step(
            StepKind::RevokeObjectPrivilege,
            seq![object.target()],
            revoke_object_sql(object, grant),
        ),
    ]
}

/// Revokes a privilege on an object.
pub fn revoke_object(object: GrantableObject, grant: Grant, out: &mut Vec<RawStep>)
    ensures
        models(final(out)@) == models(old(out)@) + revoke_steps(object, grant),
{
    let ghost before = models(out@);
    push_safe(
        out,
        StepKind::RevokeObjectPrivilege,
        one_target(&object.target_qname()),
        revoke_object_privilege(&object, &grant),
    );
    proof {
        reveal(revoke_steps);
    }
    assert(models(out@) =~= before + revoke_steps(object, grant));
}

/// The step that grants a privilege on columns.
#[verifier::opaque]
pub open spec fn grant_column_steps(q: QualifiedName, grant: Grant) -> Seq<StepModel> {
    seq![safe_step(StepKind::GrantColumnPrivilege, seq![q@], grant_column_sql(q, grant))]
}

/// Grants a privilege on columns.
pub fn grant_columns(q: QualifiedName, grant: Grant, out: &mut Vec<RawStep>)
    requires
        grant.columns is Some,
    ensures
        models(final(out)@) == models(old(out)@) + grant_column_steps(q, grant),
{
    let ghost before = models(out@);
    push_safe(
        out,
        StepKind::GrantColumnPrivilege,
        one_target(&q),
        grant_column_privilege(&q, &grant),
    );
    proof {
        reveal(grant_column_steps);
    }
    assert(models(out@) =~= before + grant_column_steps(q, grant));
}

/// The step that revokes a privilege on columns.
#[verifier::opaque]
pub open spec fn revoke_column_steps(q: QualifiedName, grant: Grant) -> Seq<StepModel> {
    seq![safe_step(StepKind::RevokeColumnPrivilege, seq![q@], revoke_column_sql(q, grant))]
}

/// Revokes a privilege on columns.
pub fn revoke_columns(q: QualifiedName, grant: Grant, out: &mut Vec<RawStep>)
    requires
        grant.columns is Some,
    ensures
        models(final(out)@) == models(old(out)@) + revoke_column_steps(q, grant),
{
    let ghost before = models(out@);
    push_safe(
        out,
        StepKind::RevokeColumnPrivilege,
        one_target(&q),
        revoke_column_privilege(&q, &grant),
    );
    proof {
        reveal(revoke_column_steps);
    }
    assert(models(out@) =~= before + revoke_column_steps(q, grant));
}

/// The step that changes default privileges. It has no target: such a rule is
/// not about one object.
#[verifier::opaque]
pub open spec fn default_privileges_steps(
    target_role: Identifier,
    schema: Option<Identifier>,
    object_type: DefaultPrivObjectType,
    direction: GrantDirection,
    grant: Grant,
) -> Seq<StepModel> {
    seq![
        safe_step(
            StepKind::AlterDefaultPrivileges,
            Seq::empty(),
            default_privileges_sql(target_role, schema, object_type, direction, grant),
        ),
    ]
}

/// Changes default privileges.
pub fn default_privileges(
    target_role: Identifier,
    schema: Option<Identifier>,
    object_type: DefaultPrivObjectType,
    direction: GrantDirection,
    grant: Grant,
    out: &mut Vec<RawStep>,
)
    ensures
        models(final(out)@) == models(old(out)@) + default_privileges_steps(
            target_role,
            schema,
            object_type,
            direction,
            grant,
        ),
{
    let ghost before = models(out@);
    let schema_ref = match &schema {
        Some(s) => Some(s),
        None => None,
    };
    push_safe(
        out,
        StepKind::AlterDefaultPrivileges,
        no_targets(),
        alter_default_privileges(&target_role, schema_ref, object_type, direction, &grant),
    );
    proof {
        reveal(default_privileges_steps);
    }
    assert(models(out@) =~= before + default_privileges_steps(
        target_role,
        schema,
        object_type,
        direction,
        grant,
    ));
}

/// The step that creates a policy.
#[verifier::opaque]
pub open spec fn create_policy_steps(table: QualifiedName, policy: Policy) -> Seq<StepModel> {
    seq![safe_step(StepKind::CreatePolicy, seq![table@], create_policy_sql(table, policy))]
}

/// Creates a policy.
pub fn add_policy(table: QualifiedName, policy: Policy, out: &mut Vec<RawStep>)
    ensures
        models(final(out)@) == models(old(out)@) + create_policy_steps(table, policy),
{
    let ghost before = models(out@);
    push_safe(out, StepKind::CreatePolicy, one_target(&table), create_policy(&table, &policy));
    proof {
        reveal(create_policy_steps);
    }
    assert(models(out@) =~= before + create_policy_steps(table, policy));
}

/// The step that drops a policy.
#[verifier::opaque]
pub open spec fn drop_policy_steps(table: QualifiedName, name: Identifier) -> Seq<StepModel> {
    seq![safe_step(StepKind::DropPolicy, seq![table@], drop_policy_sql(table, name))]
}

/// Drops a policy.
pub fn remove_policy(table: QualifiedName, name: Identifier, out: &mut Vec<RawStep>)
    ensures
        models(final(out)@) == models(old(out)@) + drop_policy_steps(table, name),
{
    let ghost before = models(out@);
    push_safe(out, StepKind::DropPolicy, one_target(&table), drop_policy(&table, &name));
    proof {
        reveal(drop_policy_steps);
    }
    assert(models(out@) =~= before + drop_policy_steps(table, name));
}

/// The step that alters a policy.
#[verifier::opaque]
pub open spec fn alter_policy_steps(table: QualifiedName, policy: Policy) -> Seq<StepModel> {
    seq![safe_step(StepKind::AlterPolicy, seq![table@], alter_policy_sql(table, policy))]
}

/// Alters a policy.
pub fn change_policy(table: QualifiedName, policy: Policy, out: &mut Vec<RawStep>)
    ensures
        models(final(out)@) == models(old(out)@) + alter_policy_steps(table, policy),
{
    let ghost before = models(out@);
    push_safe(out, StepKind::AlterPolicy, one_target(&table), alter_policy(&table, &policy));
    proof {
        reveal(alter_policy_steps);
    }
    assert(models(out@) =~= before + alter_policy_steps(table, policy));
}

/// The step that switches row-level security on or off.
#[verifier::opaque]
pub open spec fn row_security_steps(q: QualifiedName, enabled: bool) -> Seq<StepModel> {
    seq![safe_step(StepKind::SetTableRowSecurity, seq![q@], row_security_sql(q, enabled))]
}

/// Switches row-level security on or off.
pub fn row_security(q: QualifiedName, enabled: bool, out: &mut Vec<RawStep>)
    ensures
        models(final(out)@) == models(old(out)@) + row_security_steps(q, enabled),
{
    let ghost before = models(out@);
    push_safe(
        out,
        StepKind::SetTableRowSecurity,
        one_target(&q),
        set_table_row_security(&q, enabled),
    );
    proof {
        reveal(row_security_steps);
    }
    assert(models(out@) =~= before + row_security_steps(q, enabled));
}

/// The step that forces row-level security, or no longer does.
#[verifier::opaque]
pub open spec fn force_row_security_steps(q: QualifiedName, force: bool) -> Seq<StepModel> {
    seq![
        safe_step(StepKind::SetTableForceRowSecurity, seq![q@], force_row_security_sql(q, force)),
    ]
}

/// Forces row-level security, or no longer does.
pub fn force_row_security(q: QualifiedName, force: bool, out: &mut Vec<RawStep>)
    ensures
        models(final(out)@) == models(old(out)@) + force_row_security_steps(q, force),
{
    let ghost before = models(out@);
    push_safe(
        out,
        StepKind::SetTableForceRowSecurity,
        one_target(&q),
        set_table_force_row_security(&q, force),
    );
    proof {
        reveal(force_row_security_steps);
    }
    assert(models(out@) =~= before + force_row_security_steps(q, force));
}

} // verus!
