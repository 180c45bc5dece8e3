//! SQL for row-level security.

use crate::identifier::{name_sql, Identifier, QualifiedName};
use crate::ir::policy::{Policy, PolicyCommand};
use crate::text::{append_sql, append_sql_list, joined, prefixed, sqls, SqlText, ToSql};
use vstd::prelude::*;
use vstd::string::*;

verus! {

/// The command that a policy applies to.
pub open spec fn command_sql(c: PolicyCommand) -> Seq<char> {
    match c {
        PolicyCommand::All => "ALL"@,
        PolicyCommand::Select => "SELECT"@,
        PolicyCommand::Insert => "INSERT"@,
        PolicyCommand::Update => "UPDATE"@,
        PolicyCommand::Delete => "DELETE"@,
    }
}

fn render_command(c: PolicyCommand) -> (text: &'static str)
    ensures
        text@ == command_sql(c),
{
    match c {
        PolicyCommand::All => "ALL",
        PolicyCommand::Select => "SELECT",
        PolicyCommand::Insert => "INSERT",
        PolicyCommand::Update => "UPDATE",
        PolicyCommand::Delete => "DELETE",
    }
}

/// A statement on a policy with its roles and its two conditions.
pub open spec fn with_conditions(head: Seq<char>, policy: Policy) -> Seq<char> {
    let a = if policy.roles@.len() == 0 {
        head + " TO PUBLIC"@
    } else {
        head + " TO "@ + joined(sqls(policy.roles@), ", "@)
    };
    let b = match policy.using {
        Some(e) => a + " USING ("@ + e@ + ")"@,
        None => a,
    };
    let c = match policy.with_check {
        Some(e) => b + " WITH CHECK ("@ + e@ + ")"@,
        None => b,
    };
    c + ";"@
}

fn append_conditions(out: &mut String, policy: &Policy)
    ensures
        final(out)@ == with_conditions(old(out)@, *policy),
{
    if policy.roles.len() == 0 {
        out.append(" TO PUBLIC");
    } else {
        out.append(" TO ");
        append_sql_list(out, &policy.roles, ", ");
    }
    match &policy.using {
        Some(e) => {
            out.append(" USING (");
            out.append(e.canonical_text.as_str());
            out.append(")");
        },
        None => {},
    }
    match &policy.with_check {
        Some(e) => {
            out.append(" WITH CHECK (");
            out.append(e.canonical_text.as_str());
            out.append(")");
        },
        None => {},
    }
    out.append(";");
}

/// `CREATE POLICY name ON table AS PERMISSIVE FOR command TO roles ...;`
pub open spec fn create_policy_sql(table: QualifiedName, policy: Policy) -> Seq<char> {
    let a = "CREATE POLICY "@ + name_sql(policy.name@) + " ON "@ + table@.sql();
    let b = if policy.permissive {
        a + " AS PERMISSIVE"@
    } else {
        a + " AS RESTRICTIVE"@
    };
    with_conditions(b + " FOR "@ + command_sql(policy.command), policy)
}

/// `CREATE POLICY name ON table AS PERMISSIVE FOR command TO roles ...;`
pub fn create_policy(table: &QualifiedName, policy: &Policy) -> (sql: String)
    ensures
        sql@ == create_policy_sql(*table, *policy),
{
    let mut out = prefixed("CREATE POLICY ", &policy.name);
    out.append(" ON ");
    append_sql(&mut out, table);
    if policy.permissive {
        out.append(" AS PERMISSIVE");
    } else {
        out.append(" AS RESTRICTIVE");
    }
    out.append(" FOR ");
    out.append(render_command(policy.command));
    append_conditions(&mut out, policy);
    out
}

/// `DROP POLICY name ON table;`
pub open spec fn drop_policy_sql(table: QualifiedName, name: Identifier) -> Seq<char> {
    "DROP POLICY "@ + name_sql(name@) + " ON "@ + table@.sql() + ";"@
}

/// `DROP POLICY name ON table;`
pub fn drop_policy(table: &QualifiedName, name: &Identifier) -> (sql: String)
    ensures
        sql@ == drop_policy_sql(*table, *name),
{
    let mut out = prefixed("DROP POLICY ", name);
    out.append(" ON ");
    append_sql(&mut out, table);
    out.append(";");
    out
}

/// `ALTER POLICY name ON table TO roles ...;`
pub open spec fn alter_policy_sql(table: QualifiedName, policy: Policy) -> Seq<char> {
    with_conditions("ALTER POLICY "@ + name_sql(policy.name@) + " ON "@ + table@.sql(), policy)
}

/// `ALTER POLICY name ON table TO roles ...;`
pub fn alter_policy(table: &QualifiedName, policy: &Policy) -> (sql: String)
    ensures
        sql@ == alter_policy_sql(*table, *policy),
{
    let mut out = prefixed("ALTER POLICY ", &policy.name);
    out.append(" ON ");
    append_sql(&mut out, table);
    append_conditions(&mut out, policy);
    out
}

/// `ALTER TABLE table ENABLE ROW LEVEL SECURITY;` or `DISABLE`.
pub open spec fn row_security_sql(table: QualifiedName, enabled: bool) -> Seq<char> {
    "ALTER TABLE "@ + table@.sql() + if enabled {
        " ENABLE ROW LEVEL SECURITY;"@
    } else {
        " DISABLE ROW LEVEL SECURITY;"@
    }
}

/// `ALTER TABLE table ENABLE ROW LEVEL SECURITY;` or `DISABLE`.
pub fn set_table_row_security(table: &QualifiedName, enabled: bool) -> (sql: String)
    ensures
        sql@ == row_security_sql(*table, enabled),
{
    let mut out = prefixed("ALTER TABLE ", table);
    if enabled {
        out.append(" ENABLE ROW LEVEL SECURITY;");
    } else {
        out.append(" DISABLE ROW LEVEL SECURITY;");
    }
    out
}

/// `ALTER TABLE table FORCE ROW LEVEL SECURITY;` or `NO FORCE`.
pub open spec fn force_row_security_sql(table: QualifiedName, force: bool) -> Seq<char> {
    "ALTER TABLE "@ + table@.sql() + if force {
        " FORCE ROW LEVEL SECURITY;"@
    } else {
        " NO FORCE ROW LEVEL SECURITY;"@
    }
}

/// `ALTER TABLE table FORCE ROW LEVEL SECURITY;` or `NO FORCE`.
pub fn set_table_force_row_security(table: &QualifiedName, force: bool) -> (sql: String)
    ensures
        sql@ == force_row_security_sql(*table, force),
{
    let mut out = prefixed("ALTER TABLE ", table);
    if force {
        out.append(" FORCE ROW LEVEL SECURITY;");
    } else {
        out.append(" NO FORCE ROW LEVEL SECURITY;");
    }
    out
}

} // verus!
