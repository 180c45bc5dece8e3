//! SQL for roles.

use crate::identifier::{name_sql, Identifier};
use crate::ir::role::{Role, RoleAttributes};
use crate::text::{
    append_i64, append_sql, append_sql_list, decimal, finish_comment, joined, opt_str, opt_text,
    prefixed, sqls, with_comment, ToSql,
};
use vstd::prelude::*;
use vstd::string::*;

verus! {

/// One of two words.
pub open spec fn either(on: bool, yes: Seq<char>, no: Seq<char>) -> Seq<char> {
    if on {
        yes
    } else {
        no
    }
}

/// A statement with every attribute of a role. The connection limit and the
/// end of validity are left out where they are not set.
pub open spec fn with_options(head: Seq<char>, a: RoleAttributes) -> Seq<char> {
    let flags = head + " WITH"@ + either(a.superuser, " SUPERUSER"@, " NOSUPERUSER"@) + either(
        a.createdb,
        " CREATEDB"@,
        " NOCREATEDB"@,
    ) + either(a.createrole, " CREATEROLE"@, " NOCREATEROLE"@) + either(
        a.inherit,
        " INHERIT"@,
        " NOINHERIT"@,
    ) + either(a.login, " LOGIN"@, " NOLOGIN"@) + either(
        a.replication,
        " REPLICATION"@,
        " NOREPLICATION"@,
    ) + either(a.bypass_rls, " BYPASSRLS"@, " NOBYPASSRLS"@);
    let limited = match a.connection_limit {
        Some(n) => flags + " CONNECTION LIMIT "@ + decimal(n as int),
        None => flags,
    };
    match a.valid_until {
        Some(ts) => limited + " VALID UNTIL '"@ + ts@ + "'"@,
        None => limited,
    }
}

fn append_either(out: &mut String, on: bool, yes: &str, no: &str)
    ensures
        final(out)@ == old(out)@ + either(on, yes@, no@),
{
    if on {
        out.append(yes);
    } else {
        out.append(no);
    }
}

/// Appends every attribute of a role.
fn write_with_options(out: &mut String, attrs: &RoleAttributes)
    ensures
        final(out)@ == with_options(old(out)@, *attrs),
{
    out.append(" WITH");
    append_either(out, attrs.superuser, " SUPERUSER", " NOSUPERUSER");
    append_either(out, attrs.createdb, " CREATEDB", " NOCREATEDB");
    append_either(out, attrs.createrole, " CREATEROLE", " NOCREATEROLE");
    append_either(out, attrs.inherit, " INHERIT", " NOINHERIT");
    append_either(out, attrs.login, " LOGIN", " NOLOGIN");
    append_either(out, attrs.replication, " REPLICATION", " NOREPLICATION");
    append_either(out, attrs.bypass_rls, " BYPASSRLS", " NOBYPASSRLS");
    match attrs.connection_limit {
        Some(n) => {
            out.append(" CONNECTION LIMIT ");
            append_i64(out, n);
        },
        None => {},
    }
    match &attrs.valid_until {
        Some(ts) => {
            out.append(" VALID UNTIL '");
            out.append(ts.as_str());
            out.append("'");
        },
        None => {},
    }
}

/// `CREATE ROLE r WITH <options> [IN ROLE x, y];`
pub open spec fn create_role_sql(role: Role) -> Seq<char> {
    let a = with_options("CREATE ROLE "@ + name_sql(role.name@), role.attributes);
    let b = if role.member_of@.len() == 0 {
        a
    } else {
        a + " IN ROLE "@ + joined(sqls(role.member_of@), ", "@)
    };
    b + ";"@
}

/// `CREATE ROLE r WITH <options> [IN ROLE x, y];`
#[must_use]
pub fn create_role(role: &Role) -> (sql: String)
    ensures
        sql@ == create_role_sql(*role),
{
    let mut out = prefixed("CREATE ROLE ", &role.name);
    write_with_options(&mut out, &role.attributes);
    if role.member_of.len() > 0 {
        out.append(" IN ROLE ");
        append_sql_list(&mut out, &role.member_of, ", ");
    }
    out.append(";");
    out
}

/// `DROP ROLE r;`
pub open spec fn drop_role_sql(name: Identifier) -> Seq<char> {
    "DROP ROLE "@ + name_sql(name@) + ";"@
}

/// `DROP ROLE r;`
#[must_use]
pub fn drop_role(name: &Identifier) -> (sql: String)
    ensures
        sql@ == drop_role_sql(*name),
{
    let mut out = prefixed("DROP ROLE ", name);
    out.append(";");
    out
}

/// A statement with one word more, where a flag changes.
pub open spec fn with_changed(
    head: Seq<char>,
    from: bool,
    to: bool,
    yes: Seq<char>,
    no: Seq<char>,
) -> Seq<char> {
    if from == to {
        head
    } else {
        head + either(to, yes, no)
    }
}

fn append_changed(out: &mut String, from: bool, to: bool, yes: &str, no: &str)
    ensures
        final(out)@ == with_changed(old(out)@, from, to, yes@, no@),
{
    if from != to {
        append_either(out, to, yes, no);
    }
}

/// A statement with a word for each flag that changes.
pub open spec fn with_changed_flags(
    head: Seq<char>,
    from: RoleAttributes,
    to: RoleAttributes,
) -> Seq<char> {
    let b = with_changed(head, from.superuser, to.superuser, " SUPERUSER"@, " NOSUPERUSER"@);
    let c = with_changed(b, from.createdb, to.createdb, " CREATEDB"@, " NOCREATEDB"@);
    let d = with_changed(c, from.createrole, to.createrole, " CREATEROLE"@, " NOCREATEROLE"@);
    let e = with_changed(d, from.inherit, to.inherit, " INHERIT"@, " NOINHERIT"@);
    let f = with_changed(e, from.login, to.login, " LOGIN"@, " NOLOGIN"@);
    let g = with_changed(f, from.replication, to.replication, " REPLICATION"@, " NOREPLICATION"@);
    with_changed(g, from.bypass_rls, to.bypass_rls, " BYPASSRLS"@, " NOBYPASSRLS"@)
}

fn append_changed_flags(out: &mut String, from: &RoleAttributes, to: &RoleAttributes)
    ensures
        final(out)@ == with_changed_flags(old(out)@, *from, *to),
{
    append_changed(out, from.superuser, to.superuser, " SUPERUSER", " NOSUPERUSER");
    append_changed(out, from.createdb, to.createdb, " CREATEDB", " NOCREATEDB");
    append_changed(out, from.createrole, to.createrole, " CREATEROLE", " NOCREATEROLE");
    append_changed(out, from.inherit, to.inherit, " INHERIT", " NOINHERIT");
    append_changed(out, from.login, to.login, " LOGIN", " NOLOGIN");
    append_changed(out, from.replication, to.replication, " REPLICATION", " NOREPLICATION");
    append_changed(out, from.bypass_rls, to.bypass_rls, " BYPASSRLS", " NOBYPASSRLS");
}

/// A statement with the connection limit, where it changes. One that is taken
/// away becomes `-1`.
pub open spec fn with_changed_limit(
    head: Seq<char>,
    from: Option<i64>,
    to: Option<i64>,
) -> Seq<char> {
    if from == to {
        head
    } else {
        head + " CONNECTION LIMIT "@ + decimal(
            match to {
                Some(n) => n as int,
                None => -1,
            },
        )
    }
}

fn append_changed_limit(out: &mut String, from: Option<i64>, to: Option<i64>)
    ensures
        final(out)@ == with_changed_limit(old(out)@, from, to),
{
    let same = match (from, to) {
        (Some(m), Some(n)) => m == n,
        (None, None) => true,
        _ => false,
    };
    if !same {
        let limit: i64 = match to {
            Some(n) => n,
            None => -1,
        };
        out.append(" CONNECTION LIMIT ");
        append_i64(out, limit);
    }
}

/// A statement with the end of validity, where it changes. One that is taken
/// away becomes `infinity`.
pub open spec fn with_changed_validity(
    head: Seq<char>,
    from: Option<String>,
    to: Option<String>,
) -> Seq<char> {
    if opt_text(from) == opt_text(to) {
        head
    } else {
        match to {
            Some(ts) => head + " VALID UNTIL '"@ + ts@ + "'"@,
            None => head + " VALID UNTIL 'infinity'"@,
        }
    }
}

fn append_changed_validity(out: &mut String, from: &Option<String>, to: &Option<String>)
    ensures
        final(out)@ == with_changed_validity(old(out)@, *from, *to),
{
    if !same_text(from, to) {
        match to {
            Some(ts) => {
                out.append(" VALID UNTIL '");
                out.append(ts.as_str());
                out.append("'");
            },
            None => {
                out.append(" VALID UNTIL 'infinity'");
            },
        }
    }
}

/// `ALTER ROLE r WITH <only changed options>;`
pub open spec fn alter_role_sql(
    name: Identifier,
    from: RoleAttributes,
    to: RoleAttributes,
) -> Seq<char> {
    let a = with_changed_flags("ALTER ROLE "@ + name_sql(name@) + " WITH"@, from, to);
    let b = with_changed_limit(a, from.connection_limit, to.connection_limit);
    with_changed_validity(b, from.valid_until, to.valid_until) + ";"@
}

fn same_text(a: &Option<String>, b: &Option<String>) -> (r: bool)
    ensures
        r == (opt_text(*a) == opt_text(*b)),
{
    match (a, b) {
        (Some(x), Some(y)) => *x == *y,
        (None, None) => true,
        _ => false,
    }
}

/// `ALTER ROLE r WITH <only changed options>;`
///
/// Only what differs is written, so the statement is minimal.
#[must_use]
pub fn alter_role_attributes(
    name: &Identifier,
    from: &RoleAttributes,
    to: &RoleAttributes,
) -> (sql: String)
    ensures
        sql@ == alter_role_sql(*name, *from, *to),
{
    let mut out = prefixed("ALTER ROLE ", name);
    out.append(" WITH");
    append_changed_flags(&mut out, from, to);
    append_changed_limit(&mut out, from.connection_limit, to.connection_limit);
    append_changed_validity(&mut out, &from.valid_until, &to.valid_until);
    out.append(";");
    out
}

/// `GRANT role TO member;`
pub open spec fn grant_membership_sql(role: Identifier, member: Identifier) -> Seq<char> {
    "GRANT "@ + name_sql(role@) + " TO "@ + name_sql(member@) + ";"@
}

/// `GRANT role TO member;`
#[must_use]
pub fn grant_role_membership(role: &Identifier, member: &Identifier) -> (sql: String)
    ensures
        sql@ == grant_membership_sql(*role, *member),
{
    let mut out = prefixed("GRANT ", role);
    out.append(" TO ");
    append_sql(&mut out, member);
    out.append(";");
    out
}

/// `REVOKE role FROM member;`
pub open spec fn revoke_membership_sql(role: Identifier, member: Identifier) -> Seq<char> {
    "REVOKE "@ + name_sql(role@) + " FROM "@ + name_sql(member@) + ";"@
}

/// `REVOKE role FROM member;`
#[must_use]
pub fn revoke_role_membership(role: &Identifier, member: &Identifier) -> (sql: String)
    ensures
        sql@ == revoke_membership_sql(*role, *member),
{
    let mut out = prefixed("REVOKE ", role);
    out.append(" FROM ");
    append_sql(&mut out, member);
    out.append(";");
    out
}

/// `COMMENT ON ROLE r IS ...;`
pub open spec fn comment_on_role_sql(name: Identifier, comment: Option<Seq<char>>) -> Seq<char> {
    with_comment("COMMENT ON ROLE "@ + name_sql(name@), comment)
}

/// `COMMENT ON ROLE r IS '...';`, or `IS NULL;` to clear it.
#[must_use]
pub fn comment_on_role(name: &Identifier, comment: Option<&str>) -> (sql: String)
    ensures
        sql@ == comment_on_role_sql(*name, opt_str(comment)),
{
    finish_comment(prefixed("COMMENT ON ROLE ", name), comment)
}

} // verus!
