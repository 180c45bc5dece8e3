//! SQL for ownership, grants and default privileges.

use crate::diff::change::GrantDirection;
use crate::diff::owner_op::GrantableObject;
use crate::identifier::{name_sql, Identifier, QualifiedName};
use crate::ir::default_privileges::DefaultPrivObjectType;
use crate::ir::grant::{Grant, GrantTarget};
use crate::text::{append_sql, append_sql_list, joined, prefixed, sqls, SqlText, ToSql};
use vstd::prelude::*;
use vstd::string::*;

verus! {

impl SqlText for GrantTarget {
    open spec fn sql(&self) -> Seq<char> {
        match *self {
            GrantTarget::Public => "PUBLIC"@,
            GrantTarget::Role(role) => name_sql(role@),
        }
    }
}

impl ToSql for GrantTarget {
    fn render_sql(&self) -> (text: String) {
        match self {
            GrantTarget::Public => "PUBLIC".to_owned(),
            GrantTarget::Role(role) => role.render_sql(),
        }
    }
}

/// `ALTER <kind> <target> OWNER TO <owner>;`
pub open spec fn alter_owner_sql(object: GrantableObject, owner: Identifier) -> Seq<char> {
    "ALTER "@ + object.keyword() + " "@ + object.target_sql() + " OWNER TO "@ + name_sql(owner@)
        + ";"@
}

/// `ALTER <kind> <target> OWNER TO <owner>;`
#[must_use]
pub fn alter_object_owner(object: &GrantableObject, new_owner: &Identifier) -> (sql: String)
    ensures
        sql@ == alter_owner_sql(*object, *new_owner),
{
    let mut out = "ALTER ".to_owned();
    out.append(object.sql_keyword());
    out.append(" ");
    let target = object.render_target();
    out.append(target.as_str());
    out.append(" OWNER TO ");
    append_sql(&mut out, new_owner);
    out.append(";");
    out
}

/// A `GRANT` that is all but complete: the grant option and the semicolon.
pub open spec fn finish_grant(head: Seq<char>, with_grant_option: bool) -> Seq<char> {
    if with_grant_option {
        head + " WITH GRANT OPTION"@ + ";"@
    } else {
        head + ";"@
    }
}

fn append_grant_end(out: &mut String, with_grant_option: bool)
    ensures
        final(out)@ == finish_grant(old(out)@, with_grant_option),
{
    if with_grant_option {
        out.append(" WITH GRANT OPTION");
    }
    out.append(";");
}

/// `GRANT <privilege> ON <kind> <target> TO <grantee> [WITH GRANT OPTION];`
pub open spec fn grant_object_sql(object: GrantableObject, grant: Grant) -> Seq<char> {
    finish_grant(
        "GRANT "@ + grant.privilege.keyword() + " ON "@ + object.keyword() + " "@
            + object.target_sql() + " TO "@ + grant.grantee.sql(),
        grant.with_grant_option,
    )
}

/// `GRANT <privilege> ON <kind> <target> TO <grantee> [WITH GRANT OPTION];`
#[must_use]
pub fn grant_object_privilege(object: &GrantableObject, grant: &Grant) -> (sql: String)
    ensures
        sql@ == grant_object_sql(*object, *grant),
{
    let mut out = "GRANT ".to_owned();
    out.append(grant.privilege.sql_keyword());
    out.append(" ON ");
    out.append(object.sql_keyword());
    out.append(" ");
    let target = object.render_target();
    out.append(target.as_str());
    out.append(" TO ");
    append_sql(&mut out, &grant.grantee);
    append_grant_end(&mut out, grant.with_grant_option);
    out
}

/// `REVOKE <privilege> ON <kind> <target> FROM <grantee>;`
pub open spec fn revoke_object_sql(object: GrantableObject, grant: Grant) -> Seq<char> {
    "REVOKE "@ + grant.privilege.keyword() + " ON "@ + object.keyword() + " "@
        + object.target_sql() + " FROM "@ + grant.grantee.sql() + ";"@
}

/// `REVOKE <privilege> ON <kind> <target> FROM <grantee>;`
#[must_use]
pub fn revoke_object_privilege(object: &GrantableObject, grant: &Grant) -> (sql: String)
    ensures
        sql@ == revoke_object_sql(*object, *grant),
{
    let mut out = "REVOKE ".to_owned();
    out.append(grant.privilege.sql_keyword());
    out.append(" ON ");
    out.append(object.sql_keyword());
    out.append(" ");
    let target = object.render_target();
    out.append(target.as_str());
    out.append(" FROM ");
    append_sql(&mut out, &grant.grantee);
    out.append(";");
    out
}

/// The columns of a column-level grant, separated by commas.
pub open spec fn grant_columns_sql(grant: Grant) -> Seq<char> {
    match grant.columns {
        Some(columns) => joined(sqls(columns@), ", "@),
        None => ""@,
    }
}

fn append_grant_columns(out: &mut String, grant: &Grant)
    requires
        grant.columns is Some,
    ensures
        final(out)@ == old(out)@ + grant_columns_sql(*grant),
{
    match &grant.columns {
        Some(columns) => append_sql_list(out, columns, ", "),
        None => {},
    }
}

/// `GRANT <privilege> (columns) ON TABLE <table> TO <grantee> [WITH GRANT OPTION];`
pub open spec fn grant_column_sql(q: QualifiedName, grant: Grant) -> Seq<char> {
    finish_grant(
        "GRANT "@ + grant.privilege.keyword() + " ("@ + grant_columns_sql(grant) + ") ON TABLE "@
            + q@.sql() + " TO "@ + grant.grantee.sql(),
        grant.with_grant_option,
    )
}

/// `GRANT <privilege> (columns) ON TABLE <table> TO <grantee> [WITH GRANT OPTION];`
///
/// Only for grants on columns.
#[must_use]
pub fn grant_column_privilege(q: &QualifiedName, grant: &Grant) -> (sql: String)
    requires
        grant.columns is Some,
    ensures
        sql@ == grant_column_sql(*q, *grant),
{
    let mut out = "GRANT ".to_owned();
    out.append(grant.privilege.sql_keyword());
    out.append(" (");
    append_grant_columns(&mut out, grant);
    out.append(") ON TABLE ");
    append_sql(&mut out, q);
    out.append(" TO ");
    append_sql(&mut out, &grant.grantee);
    append_grant_end(&mut out, grant.with_grant_option);
    out
}

/// `REVOKE <privilege> (columns) ON TABLE <table> FROM <grantee>;`
pub open spec fn revoke_column_sql(q: QualifiedName, grant: Grant) -> Seq<char> {
    "REVOKE "@ + grant.privilege.keyword() + " ("@ + grant_columns_sql(grant) + ") ON TABLE "@
        + q@.sql() + " FROM "@ + grant.grantee.sql() + ";"@
}

/// `REVOKE <privilege> (columns) ON TABLE <table> FROM <grantee>;`
///
/// Only for grants on columns.
#[must_use]
pub fn revoke_column_privilege(q: &QualifiedName, grant: &Grant) -> (sql: String)
    requires
        grant.columns is Some,
    ensures
        sql@ == revoke_column_sql(*q, *grant),
{
    let mut out = "REVOKE ".to_owned();
    out.append(grant.privilege.sql_keyword());
    out.append(" (");
    append_grant_columns(&mut out, grant);
    out.append(") ON TABLE ");
    append_sql(&mut out, q);
    out.append(" FROM ");
    append_sql(&mut out, &grant.grantee);
    out.append(";");
    out
}

/// `ALTER DEFAULT PRIVILEGES FOR ROLE r [IN SCHEMA s] GRANT p ON ... TO g;`, or
/// `REVOKE p ON ... FROM g;`
pub open spec fn default_privileges_sql(
    target_role: Identifier,
    schema: Option<Identifier>,
    object_type: DefaultPrivObjectType,
    direction: GrantDirection,
    grant: Grant,
) -> Seq<char> {
    let a = "ALTER DEFAULT PRIVILEGES FOR ROLE "@ + name_sql(target_role@);
    let b = match schema {
        Some(s) => a + " IN SCHEMA "@ + name_sql(s@),
        None => a,
    };
    match direction {
        GrantDirection::Grant => finish_grant(
            b + " GRANT "@ + grant.privilege.keyword() + " ON "@ + object_type.keyword() + " TO "@
                + grant.grantee.sql(),
            grant.with_grant_option,
        ),
        GrantDirection::Revoke => b + " REVOKE "@ + grant.privilege.keyword() + " ON "@
            + object_type.keyword() + " FROM "@ + grant.grantee.sql() + ";"@,
    }
}

/// `ALTER DEFAULT PRIVILEGES FOR ROLE r [IN SCHEMA s] GRANT p ON ... TO g;`, or
/// `REVOKE p ON ... FROM g;`
#[must_use]
pub fn alter_default_privileges(
    target_role: &Identifier,
    schema: Option<&Identifier>,
    object_type: DefaultPrivObjectType,
    direction: GrantDirection,
    grant: &Grant,
) -> (sql: String)
    ensures
        sql@ == default_privileges_sql(
            *target_role,
            match schema {
                Some(s) => Some(*s),
                None => None,
            },
            object_type,
            direction,
            *grant,
        ),
{
    let mut out = prefixed("ALTER DEFAULT PRIVILEGES FOR ROLE ", target_role);
    match schema {
        Some(s) => {
            out.append(" IN SCHEMA ");
            append_sql(&mut out, s);
        },
        None => {},
    }
    match direction {
        GrantDirection::Grant => {
            out.append(" GRANT ");
            out.append(grant.privilege.sql_keyword());
            out.append(" ON ");
            out.append(object_type.sql_keyword());
            out.append(" TO ");
            append_sql(&mut out, &grant.grantee);
            append_grant_end(&mut out, grant.with_grant_option);
        },
        GrantDirection::Revoke => {
            out.append(" REVOKE ");
            out.append(grant.privilege.sql_keyword());
            out.append(" ON ");
            out.append(object_type.sql_keyword());
            out.append(" FROM ");
            append_sql(&mut out, &grant.grantee);
            out.append(";");
        },
    }
    out
}

} // verus!
