//! SQL for extensions.

use crate::identifier::{name_sql, Identifier};
use crate::ir::extension::Extension;
use crate::text::{
    append_literal_body, append_sql, doubled, finish_comment, opt_str, prefixed, with_comment,
    ToSql,
};
use vstd::prelude::*;
use vstd::string::*;

verus! {

/// `CREATE EXTENSION IF NOT EXISTS name [WITH SCHEMA schema] [VERSION 'v'];`
pub open spec fn create_extension_sql(e: Extension) -> Seq<char> {
    let a = "CREATE EXTENSION IF NOT EXISTS "@ + name_sql(e.name@);
    let b = match e.schema {
        Some(schema) => a + " WITH SCHEMA "@ + name_sql(schema@),
        None => a,
    };
    let c = match e.version {
        Some(version) => b + " VERSION '"@ + doubled(version@, '\'') + "'"@,
        None => b,
    };
    c + ";"@
}

/// `CREATE EXTENSION IF NOT EXISTS name [WITH SCHEMA schema] [VERSION 'v'];`
pub fn create_extension(e: &Extension) -> (sql: String)
    ensures
        sql@ == create_extension_sql(*e),
{
    let mut out = prefixed("CREATE EXTENSION IF NOT EXISTS ", &e.name);
    match &e.schema {
        Some(schema) => {
            out.append(" WITH SCHEMA ");
            append_sql(&mut out, schema);
        },
        None => {},
    }
    match &e.version {
        Some(version) => {
            out.append(" VERSION '");
            append_literal_body(&mut out, version.as_str());
            out.append("'");
        },
        None => {},
    }
    out.append(";");
    out
}

/// `DROP EXTENSION name CASCADE;`
pub open spec fn drop_extension_sql(name: Identifier) -> Seq<char> {
    "DROP EXTENSION "@ + name_sql(name@) + " CASCADE;"@
}

/// `DROP EXTENSION name CASCADE;`
pub fn drop_extension(name: &Identifier) -> (sql: String)
    ensures
        sql@ == drop_extension_sql(*name),
{
    let mut out = prefixed("DROP EXTENSION ", name);
    out.append(" CASCADE;");
    out
}

/// `ALTER EXTENSION name UPDATE TO 'v';`
pub open spec fn update_extension_sql(name: Identifier, to_version: Seq<char>) -> Seq<char> {
    "ALTER EXTENSION "@ + name_sql(name@) + " UPDATE TO '"@ + doubled(to_version, '\'') + "';"@
}

/// `ALTER EXTENSION name UPDATE TO 'v';`
pub fn alter_extension_update(name: &Identifier, to_version: &str) -> (sql: String)
    ensures
        sql@ == update_extension_sql(*name, to_version@),
{
    let mut out = prefixed("ALTER EXTENSION ", name);
    out.append(" UPDATE TO '");
    append_literal_body(&mut out, to_version);
    out.append("';");
    out
}

/// `COMMENT ON EXTENSION name IS ...;`
pub open spec fn comment_on_extension_sql(
    name: Identifier,
    comment: Option<Seq<char>>,
) -> Seq<char> {
    with_comment("COMMENT ON EXTENSION "@ + name_sql(name@), comment)
}

/// `COMMENT ON EXTENSION name IS '...';` or `IS NULL;`
pub fn comment_on_extension(name: &Identifier, comment: Option<&str>) -> (sql: String)
    ensures
        sql@ == comment_on_extension_sql(*name, opt_str(comment)),
{
    finish_comment(prefixed("COMMENT ON EXTENSION ", name), comment)
}

} // verus!
