//! SQL for views and materialized views.

use crate::identifier::{name_sql, Identifier, QualifiedName};
use crate::ir::view::{CheckOption, MaterializedView, ViewDefinition};
use crate::plan::rewrite::reloptions::{
    mv_options, push_flag, render_mv_options, with_flag,
};
use crate::text::{
    append_sql, finish_comment, join, joined, opt_str, prefixed, texts, with_comment, ToSql,
};
use vstd::prelude::*;
use vstd::string::*;

verus! {

/// The options of a view that are set.
pub open spec fn view_options(barrier: Option<bool>, invoker: Option<bool>) -> Seq<Seq<char>> {
    with_flag(with_flag(Seq::empty(), "security_barrier"@, barrier), "security_invoker"@, invoker)
}

fn render_view_options(barrier: Option<bool>, invoker: Option<bool>) -> (list: Vec<String>)
    ensures
        texts(list@) == view_options(barrier, invoker),
{
    let mut list: Vec<String> = Vec::new();
    assert(texts(list@) =~= Seq::empty());
    push_flag(&mut list, "security_barrier", barrier);
    push_flag(&mut list, "security_invoker", invoker);
    list
}

/// `CREATE [OR REPLACE] VIEW name [WITH (...)] AS\n<query>[\nWITH ... CHECK OPTION];`
pub open spec fn create_view_sql(v: ViewDefinition, or_replace: bool) -> Seq<char> {
    let a = if or_replace {
        "CREATE OR REPLACE VIEW "@
    } else {
        "CREATE VIEW "@
    };
    let b = a + v.qname@.sql();
    let options = view_options(v.security_barrier, v.security_invoker);
    let c = if options.len() == 0 {
        b
    } else {
        b + " WITH ("@ + joined(options, ", "@) + ")"@
    };
    let d = c + " AS\n"@ + v.body_canonical@;
    let e = match v.check_option {
        Some(CheckOption::Local) => d + "\nWITH LOCAL CHECK OPTION"@,
        Some(CheckOption::Cascaded) => d + "\nWITH CASCADED CHECK OPTION"@,
        None => d,
    };
    e + ";"@
}

/// `CREATE [OR REPLACE] VIEW name [WITH (...)] AS\n<query>[\nWITH ... CHECK OPTION];`
pub fn emit_create_view(v: &ViewDefinition, or_replace: bool) -> (sql: String)
    ensures
        sql@ == create_view_sql(*v, or_replace),
{
    let mut out = if or_replace {
        "CREATE OR REPLACE VIEW ".to_owned()
    } else {
        "CREATE VIEW ".to_owned()
    };
    append_sql(&mut out, &v.qname);
    let options = render_view_options(v.security_barrier, v.security_invoker);
    assert(texts(options@).len() == options@.len());
    if options.len() > 0 {
        out.append(" WITH (");
        let list = join(&options, ", ");
        out.append(list.as_str());
        out.append(")");
    }
    out.append(" AS\n");
    out.append(v.body_canonical.canonical_text());
    match &v.check_option {
        Some(CheckOption::Local) => {
            out.append("\nWITH LOCAL CHECK OPTION");
        },
        Some(CheckOption::Cascaded) => {
            out.append("\nWITH CASCADED CHECK OPTION");
        },
        None => {},
    }
    out.append(";");
    out
}

/// Changing the check option replaces the view in place.
pub fn emit_alter_view_set_check_option(v: &ViewDefinition) -> (sql: String)
    ensures
        sql@ == create_view_sql(*v, true),
{
    emit_create_view(v, true)
}

/// `DROP VIEW name;`
pub open spec fn drop_view_sql(q: QualifiedName) -> Seq<char> {
    "DROP VIEW "@ + q@.sql() + ";"@
}

/// `DROP VIEW name;`
pub fn emit_drop_view(q: &QualifiedName) -> (sql: String)
    ensures
        sql@ == drop_view_sql(*q),
{
    let mut out = prefixed("DROP VIEW ", q);
    out.append(";");
    out
}

/// `ALTER VIEW name SET (options);`
pub open spec fn view_reloption_sql(
    q: QualifiedName,
    barrier: Option<bool>,
    invoker: Option<bool>,
) -> Seq<char> {
    "ALTER VIEW "@ + q@.sql() + " SET ("@ + joined(view_options(barrier, invoker), ", "@) + ");"@
}

/// `ALTER VIEW name SET (options);`
pub fn emit_alter_view_set_reloption(
    q: &QualifiedName,
    barrier: Option<bool>,
    invoker: Option<bool>,
) -> (sql: String)
    ensures
        sql@ == view_reloption_sql(*q, barrier, invoker),
{
    let mut out = prefixed("ALTER VIEW ", q);
    out.append(" SET (");
    let list = join(&render_view_options(barrier, invoker), ", ");
    out.append(list.as_str());
    out.append(");");
    out
}

/// `COMMENT ON VIEW name IS ...;`
pub open spec fn comment_on_view_sql(q: QualifiedName, comment: Option<Seq<char>>) -> Seq<char> {
    with_comment("COMMENT ON VIEW "@ + q@.sql(), comment)
}

/// `COMMENT ON VIEW name IS ...;`
pub fn emit_comment_on_view(q: &QualifiedName, comment: Option<&str>) -> (sql: String)
    ensures
        sql@ == comment_on_view_sql(*q, opt_str(comment)),
{
    finish_comment(prefixed("COMMENT ON VIEW ", q), comment)
}

/// `COMMENT ON COLUMN view.column IS ...;`
pub open spec fn comment_on_view_column_sql(
    q: QualifiedName,
    column: Identifier,
    comment: Option<Seq<char>>,
) -> Seq<char> {
    with_comment("COMMENT ON COLUMN "@ + q@.sql() + "."@ + name_sql(column@), comment)
}

/// `COMMENT ON COLUMN view.column IS ...;`
pub fn emit_comment_on_view_column(
    q: &QualifiedName,
    column: &Identifier,
    comment: Option<&str>,
) -> (sql: String)
    ensures
        sql@ == comment_on_view_column_sql(*q, *column, opt_str(comment)),
{
    let mut head = prefixed("COMMENT ON COLUMN ", q);
    head.append(".");
    append_sql(&mut head, column);
    finish_comment(head, comment)
}

/// `CREATE MATERIALIZED VIEW name [WITH (...)] AS\n<query>\nWITH NO DATA;`
pub open spec fn create_mv_sql(mv: MaterializedView) -> Seq<char> {
    let a = "CREATE MATERIALIZED VIEW "@ + mv.qname@.sql();
    let options = mv_options(mv.storage);
    let b = if options.len() == 0 {
        a
    } else {
        a + " WITH ("@ + joined(options, ", "@) + ")"@
    };
    b + " AS\n"@ + mv.body_canonical@ + "\nWITH NO DATA;"@
}

/// `CREATE MATERIALIZED VIEW name [WITH (...)] AS\n<query>\nWITH NO DATA;`
pub fn emit_create_materialized_view(mv: &MaterializedView) -> (sql: String)
    ensures
        sql@ == create_mv_sql(*mv),
{
    let mut out = prefixed("CREATE MATERIALIZED VIEW ", &mv.qname);
    let options = render_mv_options(&mv.storage);
    assert(texts(options@).len() == options@.len());
    if options.len() > 0 {
        out.append(" WITH (");
        let list = join(&options, ", ");
        out.append(list.as_str());
        out.append(")");
    }
    out.append(" AS\n");
    out.append(mv.body_canonical.canonical_text());
    out.append("\nWITH NO DATA;");
    out
}

/// `DROP MATERIALIZED VIEW name;`
pub open spec fn drop_mv_sql(q: QualifiedName) -> Seq<char> {
    "DROP MATERIALIZED VIEW "@ + q@.sql() + ";"@
}

/// `DROP MATERIALIZED VIEW name;`
pub fn emit_drop_materialized_view(q: &QualifiedName) -> (sql: String)
    ensures
        sql@ == drop_mv_sql(*q),
{
    let mut out = prefixed("DROP MATERIALIZED VIEW ", q);
    out.append(";");
    out
}

/// `REFRESH MATERIALIZED VIEW [CONCURRENTLY] name;`
pub open spec fn refresh_mv_sql(q: QualifiedName, concurrently: bool) -> Seq<char> {
    let a = if concurrently {
        "REFRESH MATERIALIZED VIEW CONCURRENTLY "@
    } else {
        "REFRESH MATERIALIZED VIEW "@
    };
    a + q@.sql() + ";"@
}

/// `REFRESH MATERIALIZED VIEW [CONCURRENTLY] name;`
pub fn emit_refresh_mv(q: &QualifiedName, concurrently: bool) -> (sql: String)
    ensures
        sql@ == refresh_mv_sql(*q, concurrently),
{
    let mut out = if concurrently {
        "REFRESH MATERIALIZED VIEW CONCURRENTLY ".to_owned()
    } else {
        "REFRESH MATERIALIZED VIEW ".to_owned()
    };
    append_sql(&mut out, q);
    out.append(";");
    out
}

/// `COMMENT ON MATERIALIZED VIEW name IS ...;`
pub open spec fn comment_on_mv_sql(q: QualifiedName, comment: Option<Seq<char>>) -> Seq<char> {
    with_comment("COMMENT ON MATERIALIZED VIEW "@ + q@.sql(), comment)
}

/// `COMMENT ON MATERIALIZED VIEW name IS ...;`
pub fn emit_comment_on_materialized_view(
    q: &QualifiedName,
    comment: Option<&str>,
) -> (sql: String)
    ensures
        sql@ == comment_on_mv_sql(*q, opt_str(comment)),
{
    finish_comment(prefixed("COMMENT ON MATERIALIZED VIEW ", q), comment)
}

/// `COMMENT ON COLUMN view.column IS ...;`
pub fn emit_comment_on_mv_column(
    q: &QualifiedName,
    column: &Identifier,
    comment: Option<&str>,
) -> (sql: String)
    ensures
        sql@ == comment_on_view_column_sql(*q, *column, opt_str(comment)),
{
    emit_comment_on_view_column(q, column, comment)
}

} // verus!
