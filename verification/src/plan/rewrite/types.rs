//! SQL for user-defined types.

use crate::identifier::{name_sql, Identifier, QualifiedName};
use crate::ir::column_type::{type_sql, ColumnType};
use crate::ir::expr::DefaultExpr;
use crate::ir::user_type::{CompositeAttribute, DomainCheck, UserType, UserTypeKind};
use crate::text::{
    append_literal_body, append_sql, append_sql_list, doubled, finish_comment, join, joined,
    opt_str, prefixed, sqls, texts, with_comment, SqlText, ToSql,
};
use vstd::prelude::*;
use vstd::string::*;

verus! {

/// Texts as SQL literals.
pub open spec fn literals(list: Seq<String>) -> Seq<Seq<char>> {
    list.map_values(|s: String| "'"@ + doubled(s@, '\'') + "'"@)
}

/// Renders texts as SQL literals.
pub fn render_literals(list: &Vec<String>) -> (parts: Vec<String>)
    ensures
        texts(parts@) == literals(list@),
{
    let mut out: Vec<String> = Vec::new();
    let mut i: usize = 0;
    while i < list.len()
        invariant
            i <= list@.len(),
            texts(out@) =~= literals(list@).take(i as int),
        decreases list@.len() - i,
    {
        let ghost before = texts(out@);
        let mut part = "'".to_owned();
        append_literal_body(&mut part, list[i].as_str());
        part.append("'");
        out.push(part);
        assert(texts(out@) =~= before.push(part@));
        i = i + 1;
    }
    assert(texts(out@) =~= literals(list@));
    out
}

impl SqlText for CompositeAttribute {
    open spec fn sql(&self) -> Seq<char> {
        let a = name_sql(self.name@) + " "@ + type_sql(self.ty);
        match self.collation {
            Some(q) => a + " COLLATE "@ + q@.sql(),
            None => a,
        }
    }
}

impl ToSql for CompositeAttribute {
    fn render_sql(&self) -> (text: String) {
        let mut out = self.name.render_sql();
        out.append(" ");
        append_sql(&mut out, &self.ty);
        match &self.collation {
            Some(q) => {
                out.append(" COLLATE ");
                append_sql(&mut out, q);
            },
            None => {},
        }
        out
    }
}

impl SqlText for DomainCheck {
    open spec fn sql(&self) -> Seq<char> {
        "CONSTRAINT "@ + name_sql(self.name@) + " CHECK ("@ + self.expression@ + ")"@
    }
}

impl ToSql for DomainCheck {
    fn render_sql(&self) -> (text: String) {
        let mut out = prefixed("CONSTRAINT ", &self.name);
        out.append(" CHECK (");
        out.append(self.expression.canonical_text.as_str());
        out.append(")");
        out
    }
}

/// A list with one more range option, where it is set: `KEY = name`.
pub open spec fn with_name(
    head: Seq<char>,
    key: Seq<char>,
    value: Option<QualifiedName>,
) -> Seq<char> {
    match value {
        Some(q) => head + ", "@ + key + " = "@ + q@.sql(),
        None => head,
    }
}

fn append_name(out: &mut String, key: &str, value: &Option<QualifiedName>)
    ensures
        final(out)@ == with_name(old(out)@, key@, *value),
{
    match value {
        Some(q) => {
            out.append(", ");
            out.append(key);
            out.append(" = ");
            append_sql(out, q);
        },
        None => {},
    }
}

/// The SQL of a domain after its name.
pub open spec fn domain_sql(
    head: Seq<char>,
    base: ColumnType,
    nullable: bool,
    default: Option<DefaultExpr>,
    checks: Seq<DomainCheck>,
    collation: Option<QualifiedName>,
) -> Seq<char> {
    let a = head + " AS "@ + type_sql(base);
    let b = match collation {
        Some(q) => a + " COLLATE "@ + q@.sql(),
        None => a,
    };
    let c = match default {
        Some(e) => b + " DEFAULT "@ + e.sql(),
        None => b,
    };
    let d = if nullable {
        c
    } else {
        c + " NOT NULL"@
    };
    let e = if checks.len() == 0 {
        d
    } else {
        d + " "@ + joined(sqls(checks), " "@)
    };
    e + ";"@
}

/// `CREATE TYPE name AS ENUM (...);`, `CREATE DOMAIN name AS type ...;`,
/// `CREATE TYPE name AS (...);` or `CREATE TYPE name AS RANGE (...);`
#[verifier::opaque]
pub open spec fn create_type_sql(ut: UserType) -> Seq<char> {
    match ut.kind {
        UserTypeKind::Enum { values } => "CREATE TYPE "@ + ut.qname@.sql() + " AS ENUM ("@
            + joined(literals(values@), ", "@) + ");"@,
        UserTypeKind::Domain { base, nullable, default, check_constraints, collation } =>
            domain_sql(
            "CREATE DOMAIN "@ + ut.qname@.sql(),
            base,
            nullable,
            default,
            check_constraints@,
            collation,
        ),
        UserTypeKind::Composite { attributes } => "CREATE TYPE "@ + ut.qname@.sql() + " AS ("@
            + joined(sqls(attributes@), ", "@) + ");"@,
        UserTypeKind::Range {
            subtype,
            subtype_opclass,
            collation,
            canonical,
            subtype_diff,
            multirange_type_name,
        } => {
            let a = "CREATE TYPE "@ + ut.qname@.sql() + " AS RANGE (SUBTYPE = "@ + subtype@.sql();
            let b = with_name(a, "SUBTYPE_OPCLASS"@, subtype_opclass);
            let c = with_name(b, "COLLATION"@, collation);
            let d = with_name(c, "CANONICAL"@, canonical);
            let e = with_name(d, "SUBTYPE_DIFF"@, subtype_diff);
            let f = with_name(e, "MULTIRANGE_TYPE_NAME"@, multirange_type_name);
            f + ");"@
        },
    }
}

/// `CREATE TYPE name AS ENUM (...);`, `CREATE DOMAIN name AS type ...;`,
/// `CREATE TYPE name AS (...);` or `CREATE TYPE name AS RANGE (...);`
pub fn emit_create_type(ut: &UserType) -> (sql: String)
    ensures
        sql@ == create_type_sql(*ut),
{
    proof {
        reveal(create_type_sql);
    }
    match &ut.kind {
        UserTypeKind::Enum { values } => {
            let mut out = prefixed("CREATE TYPE ", &ut.qname);
            out.append(" AS ENUM (");
            let list = join(&render_literals(values), ", ");
            out.append(list.as_str());
            out.append(");");
            out
        },
        UserTypeKind::Domain { base, nullable, default, check_constraints, collation } => {
            let mut out = prefixed("CREATE DOMAIN ", &ut.qname);
            out.append(" AS ");
            append_sql(&mut out, base);
            match collation {
                Some(q) => {
                    out.append(" COLLATE ");
                    append_sql(&mut out, q);
                },
                None => {},
            }
            match default {
                Some(e) => {
                    out.append(" DEFAULT ");
                    append_sql(&mut out, e);
                },
                None => {},
            }
            if !*nullable {
                out.append(" NOT NULL");
            }
            if check_constraints.len() > 0 {
                out.append(" ");
                append_sql_list(&mut out, check_constraints, " ");
            }
            out.append(";");
            out
        },
        UserTypeKind::Composite { attributes } => {
            let mut out = prefixed("CREATE TYPE ", &ut.qname);
            out.append(" AS (");
            append_sql_list(&mut out, attributes, ", ");
            out.append(");");
            out
        },
        UserTypeKind::Range {
            subtype,
            subtype_opclass,
            collation,
            canonical,
            subtype_diff,
            multirange_type_name,
        } => {
            let mut out = prefixed("CREATE TYPE ", &ut.qname);
            out.append(" AS RANGE (SUBTYPE = ");
            append_sql(&mut out, subtype);
            append_name(&mut out, "SUBTYPE_OPCLASS", subtype_opclass);
            append_name(&mut out, "COLLATION", collation);
            append_name(&mut out, "CANONICAL", canonical);
            append_name(&mut out, "SUBTYPE_DIFF", subtype_diff);
            append_name(&mut out, "MULTIRANGE_TYPE_NAME", multirange_type_name);
            out.append(");");
            out
        },
    }
}

/// `DROP TYPE name;`
pub open spec fn drop_type_sql(q: QualifiedName) -> Seq<char> {
    "DROP TYPE "@ + q@.sql() + ";"@
}

/// `DROP TYPE name;`
pub fn emit_drop_type(q: &QualifiedName) -> (sql: String)
    ensures
        sql@ == drop_type_sql(*q),
{
    let mut out = prefixed("DROP TYPE ", q);
    out.append(";");
    out
}

/// `DROP TYPE name CASCADE;`
pub open spec fn drop_type_cascade_sql(q: QualifiedName) -> Seq<char> {
    "DROP TYPE "@ + q@.sql() + " CASCADE;"@
}

/// `DROP TYPE name CASCADE;`
pub fn emit_drop_type_cascade(q: &QualifiedName) -> (sql: String)
    ensures
        sql@ == drop_type_cascade_sql(*q),
{
    let mut out = prefixed("DROP TYPE ", q);
    out.append(" CASCADE;");
    out
}

/// `COMMENT ON TYPE name IS ...;`, with `DOMAIN` for a domain.
pub open spec fn comment_on_type_sql(
    q: QualifiedName,
    is_domain: bool,
    comment: Option<Seq<char>>,
) -> Seq<char> {
    with_comment(
        if is_domain {
            "COMMENT ON DOMAIN "@
        } else {
            "COMMENT ON TYPE "@
        } + q@.sql(),
        comment,
    )
}

/// `COMMENT ON TYPE name IS ...;`, with `DOMAIN` for a domain.
pub fn emit_comment_on_type(
    q: &QualifiedName,
    is_domain: bool,
    comment: Option<&str>,
) -> (sql: String)
    ensures
        sql@ == comment_on_type_sql(*q, is_domain, opt_str(comment)),
{
    let head = if is_domain {
        prefixed("COMMENT ON DOMAIN ", q)
    } else {
        prefixed("COMMENT ON TYPE ", q)
    };
    finish_comment(head, comment)
}

/// `ALTER TYPE name ADD VALUE 'label' [BEFORE 'x' | AFTER 'x'];`
pub open spec fn add_value_sql(
    q: QualifiedName,
    value: Seq<char>,
    before: Option<Seq<char>>,
    after: Option<Seq<char>>,
) -> Seq<char> {
    let a = "ALTER TYPE "@ + q@.sql() + " ADD VALUE '"@ + doubled(value, '\'') + "'"@;
    let b = match before {
        Some(x) => a + " BEFORE '"@ + doubled(x, '\'') + "'"@,
        None => match after {
            Some(x) => a + " AFTER '"@ + doubled(x, '\'') + "'"@,
            None => a,
        },
    };
    b + ";"@
}

/// `ALTER TYPE name ADD VALUE 'label' [BEFORE 'x' | AFTER 'x'];`
pub fn emit_alter_type_add_value(
    q: &QualifiedName,
    value: &str,
    before: Option<&str>,
    after: Option<&str>,
) -> (sql: String)
    ensures
        sql@ == add_value_sql(*q, value@, opt_str(before), opt_str(after)),
{
    let mut out = prefixed("ALTER TYPE ", q);
    out.append(" ADD VALUE '");
    append_literal_body(&mut out, value);
    out.append("'");
    match before {
        Some(x) => {
            out.append(" BEFORE '");
            append_literal_body(&mut out, x);
            out.append("'");
        },
        None => match after {
            Some(x) => {
                out.append(" AFTER '");
                append_literal_body(&mut out, x);
                out.append("'");
            },
            None => {},
        },
    }
    out.append(";");
    out
}

/// `ALTER TYPE name RENAME VALUE 'x' TO 'y';`
pub open spec fn rename_value_sql(q: QualifiedName, from: Seq<char>, to: Seq<char>) -> Seq<char> {
    "ALTER TYPE "@ + q@.sql() + " RENAME VALUE '"@ + doubled(from, '\'') + "' TO '"@ + doubled(
        to,
        '\'',
    ) + "';"@
}

/// `ALTER TYPE name RENAME VALUE 'x' TO 'y';`
pub fn emit_alter_type_rename_value(q: &QualifiedName, from: &str, to: &str) -> (sql: String)
    ensures
        sql@ == rename_value_sql(*q, from@, to@),
{
    let mut out = prefixed("ALTER TYPE ", q);
    out.append(" RENAME VALUE '");
    append_literal_body(&mut out, from);
    out.append("' TO '");
    append_literal_body(&mut out, to);
    out.append("';");
    out
}

/// `ALTER DOMAIN name ADD CONSTRAINT check CHECK (...);`
pub open spec fn domain_add_check_sql(q: QualifiedName, check: DomainCheck) -> Seq<char> {
    "ALTER DOMAIN "@ + q@.sql() + " ADD "@ + check.sql() + ";"@
}

/// `ALTER DOMAIN name ADD CONSTRAINT check CHECK (...);`
pub fn emit_alter_domain_add_check(q: &QualifiedName, check: &DomainCheck) -> (sql: String)
    ensures
        sql@ == domain_add_check_sql(*q, *check),
{
    let mut out = prefixed("ALTER DOMAIN ", q);
    out.append(" ADD ");
    append_sql(&mut out, check);
    out.append(";");
    out
}

/// `ALTER DOMAIN name DROP CONSTRAINT check;`
pub open spec fn domain_drop_check_sql(q: QualifiedName, name: Identifier) -> Seq<char> {
    "ALTER DOMAIN "@ + q@.sql() + " DROP CONSTRAINT "@ + name_sql(name@) + ";"@
}

/// `ALTER DOMAIN name DROP CONSTRAINT check;`
pub fn emit_alter_domain_drop_check(q: &QualifiedName, name: &Identifier) -> (sql: String)
    ensures
        sql@ == domain_drop_check_sql(*q, *name),
{
    let mut out = prefixed("ALTER DOMAIN ", q);
    out.append(" DROP CONSTRAINT ");
    append_sql(&mut out, name);
    out.append(";");
    out
}

/// `ALTER DOMAIN name SET DEFAULT expr;` or `DROP DEFAULT;`
pub open spec fn domain_default_sql(q: QualifiedName, default: Option<DefaultExpr>) -> Seq<char> {
    match default {
        Some(e) => "ALTER DOMAIN "@ + q@.sql() + " SET DEFAULT "@ + e.sql() + ";"@,
        None => "ALTER DOMAIN "@ + q@.sql() + " DROP DEFAULT;"@,
    }
}

/// `ALTER DOMAIN name SET DEFAULT expr;` or `DROP DEFAULT;`
pub fn emit_alter_domain_set_default(
    q: &QualifiedName,
    default: &Option<DefaultExpr>,
) -> (sql: String)
    ensures
        sql@ == domain_default_sql(*q, *default),
{
    let mut out = prefixed("ALTER DOMAIN ", q);
    match default {
        Some(e) => {
            out.append(" SET DEFAULT ");
            append_sql(&mut out, e);
            out.append(";");
        },
        None => {
            out.append(" DROP DEFAULT;");
        },
    }
    out
}

/// `ALTER DOMAIN name SET NOT NULL;` or `DROP NOT NULL;`
pub open spec fn domain_not_null_sql(q: QualifiedName, not_null: bool) -> Seq<char> {
    "ALTER DOMAIN "@ + q@.sql() + if not_null {
        " SET NOT NULL;"@
    } else {
        " DROP NOT NULL;"@
    }
}

/// `ALTER DOMAIN name SET NOT NULL;` or `DROP NOT NULL;`
pub fn emit_alter_domain_set_not_null(q: &QualifiedName, not_null: bool) -> (sql: String)
    ensures
        sql@ == domain_not_null_sql(*q, not_null),
{
    let mut out = prefixed("ALTER DOMAIN ", q);
    if not_null {
        out.append(" SET NOT NULL;");
    } else {
        out.append(" DROP NOT NULL;");
    }
    out
}

/// `ALTER TYPE name ADD ATTRIBUTE attribute type;`
pub open spec fn add_attribute_sql(q: QualifiedName, attribute: CompositeAttribute) -> Seq<char> {
    "ALTER TYPE "@ + q@.sql() + " ADD ATTRIBUTE "@ + attribute.sql() + ";"@
}

/// `ALTER TYPE name ADD ATTRIBUTE attribute type;`
pub fn emit_alter_type_add_attribute(
    q: &QualifiedName,
    attribute: &CompositeAttribute,
) -> (sql: String)
    ensures
        sql@ == add_attribute_sql(*q, *attribute),
{
    let mut out = prefixed("ALTER TYPE ", q);
    out.append(" ADD ATTRIBUTE ");
    append_sql(&mut out, attribute);
    out.append(";");
    out
}

/// `ALTER TYPE name DROP ATTRIBUTE attribute;`
pub open spec fn drop_attribute_sql(q: QualifiedName, name: Identifier) -> Seq<char> {
    "ALTER TYPE "@ + q@.sql() + " DROP ATTRIBUTE "@ + name_sql(name@) + ";"@
}

/// `ALTER TYPE name DROP ATTRIBUTE attribute;`
pub fn emit_alter_type_drop_attribute(q: &QualifiedName, name: &Identifier) -> (sql: String)
    ensures
        sql@ == drop_attribute_sql(*q, *name),
{
    let mut out = prefixed("ALTER TYPE ", q);
    out.append(" DROP ATTRIBUTE ");
    append_sql(&mut out, name);
    out.append(";");
    out
}

/// `ALTER TYPE name ALTER ATTRIBUTE attribute TYPE type;`
pub open spec fn alter_attribute_type_sql(
    q: QualifiedName,
    attribute: Identifier,
    new_type: ColumnType,
) -> Seq<char> {
    "ALTER TYPE "@ + q@.sql() + " ALTER ATTRIBUTE "@ + name_sql(attribute@) + " TYPE "@ + type_sql(
        new_type,
    ) + ";"@
}

/// `ALTER TYPE name ALTER ATTRIBUTE attribute TYPE type;`
pub fn emit_alter_type_alter_attribute_type(
    q: &QualifiedName,
    attribute: &Identifier,
    new_type: &ColumnType,
) -> (sql: String)
    ensures
        sql@ == alter_attribute_type_sql(*q, *attribute, *new_type),
{
    let mut out = prefixed("ALTER TYPE ", q);
    out.append(" ALTER ATTRIBUTE ");
    append_sql(&mut out, attribute);
    out.append(" TYPE ");
    append_sql(&mut out, new_type);
    out.append(";");
    out
}

} // verus!
