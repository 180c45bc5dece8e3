//! SQL for collations.
//!
//! A collation stores `lc_collate` and `lc_ctype` separately, also where they
//! were written as `locale = '...'`. Where the two are equal the statement has
//! the short form again. Replacing a collation has no statement of its own: it
//! is a drop and a create.

use crate::identifier::{name_sql, Identifier, QualifiedName};
use crate::ir::collation::Collation;
use crate::text::{
    append_literal_body, append_sql, doubled, finish_comment, opt_str, prefixed, with_comment,
    ToSql,
};
use vstd::prelude::*;
use vstd::string::*;

verus! {

/// `CREATE COLLATION name (provider = ..., locale = '...'[, deterministic = false]);`
pub open spec fn create_collation_sql(c: Collation) -> Seq<char> {
    let a = "CREATE COLLATION "@ + c.qname@.sql() + " (provider = "@ + c.provider.keyword();
    let b = if c.lc_collate@ == c.lc_ctype@ {
        a + ", locale = '"@ + doubled(c.lc_collate@, '\'') + "'"@
    } else {
        a + ", lc_collate = '"@ + doubled(c.lc_collate@, '\'') + "', lc_ctype = '"@ + doubled(
            c.lc_ctype@,
            '\'',
        ) + "'"@
    };
    let d = if c.deterministic {
        b
    } else {
        b + ", deterministic = false"@
    };
    d + ");"@
}

/// `CREATE COLLATION name (provider = ..., locale = '...'[, deterministic = false]);`
///
/// `deterministic = true` is the default and left out.
#[must_use]
pub fn create_collation(c: &Collation) -> (sql: String)
    ensures
        sql@ == create_collation_sql(*c),
{
    let mut out = prefixed("CREATE COLLATION ", &c.qname);
    out.append(" (provider = ");
    out.append(c.provider.sql_keyword());
    if c.lc_collate == c.lc_ctype {
        out.append(", locale = '");
        append_literal_body(&mut out, c.lc_collate.as_str());
        out.append("'");
    } else {
        out.append(", lc_collate = '");
        append_literal_body(&mut out, c.lc_collate.as_str());
        out.append("', lc_ctype = '");
        append_literal_body(&mut out, c.lc_ctype.as_str());
        out.append("'");
    }
    if !c.deterministic {
        out.append(", deterministic = false");
    }
    out.append(");");
    out
}

/// `DROP COLLATION name;`
pub open spec fn drop_collation_sql(q: QualifiedName) -> Seq<char> {
    "DROP COLLATION "@ + q@.sql() + ";"@
}

/// `DROP COLLATION name;`
#[must_use]
pub fn drop_collation(q: &QualifiedName) -> (sql: String)
    ensures
        sql@ == drop_collation_sql(*q),
{
    let mut out = prefixed("DROP COLLATION ", q);
    out.append(";");
    out
}

/// `ALTER COLLATION name RENAME TO new_name;`
pub open spec fn rename_collation_sql(from: QualifiedName, to: Identifier) -> Seq<char> {
    "ALTER COLLATION "@ + from@.sql() + " RENAME TO "@ + name_sql(to@) + ";"@
}

/// `ALTER COLLATION name RENAME TO new_name;`
#[must_use]
pub fn rename_collation(from: &QualifiedName, to: &Identifier) -> (sql: String)
    ensures
        sql@ == rename_collation_sql(*from, *to),
{
    let mut out = prefixed("ALTER COLLATION ", from);
    out.append(" RENAME TO ");
    append_sql(&mut out, to);
    out.append(";");
    out
}

/// `COMMENT ON COLLATION name IS ...;`
pub open spec fn comment_on_collation_sql(
    q: QualifiedName,
    comment: Option<Seq<char>>,
) -> Seq<char> {
    with_comment("COMMENT ON COLLATION "@ + q@.sql(), comment)
}

/// `COMMENT ON COLLATION name IS 'text';` or `IS NULL;`
#[must_use]
pub fn comment_on_collation(q: &QualifiedName, comment: Option<&str>) -> (sql: String)
    ensures
        sql@ == comment_on_collation_sql(*q, opt_str(comment)),
{
    finish_comment(prefixed("COMMENT ON COLLATION ", q), comment)
}

} // verus!
