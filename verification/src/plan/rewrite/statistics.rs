//! SQL for extended statistics.

use crate::identifier::QualifiedName;
use crate::ir::statistic::{Statistic, StatisticKind};
use crate::text::{
    append_i64, append_sql, append_sql_list, decimal, finish_comment, joined, opt_str, prefixed,
    sqls, with_comment, SqlText, ToSql,
};
use vstd::prelude::*;
use vstd::string::*;

verus! {

impl SqlText for StatisticKind {
    open spec fn sql(&self) -> Seq<char> {
        match *self {
            StatisticKind::NDistinct => "ndistinct"@,
            StatisticKind::Dependencies => "dependencies"@,
            StatisticKind::Mcv => "mcv"@,
        }
    }
}

impl ToSql for StatisticKind {
    fn render_sql(&self) -> (text: String) {
        match self {
            StatisticKind::NDistinct => "ndistinct".to_owned(),
            StatisticKind::Dependencies => "dependencies".to_owned(),
            StatisticKind::Mcv => "mcv".to_owned(),
        }
    }
}

/// `CREATE STATISTICS name [(kinds)] ON columns FROM table;`
pub open spec fn create_statistic_sql(s: Statistic) -> Seq<char> {
    let a = "CREATE STATISTICS "@ + s.qname@.sql();
    let b = if s.kinds@.len() == 0 {
        a
    } else {
        a + " ("@ + joined(sqls(s.kinds@), ", "@) + ")"@
    };
    b + " ON "@ + joined(sqls(s.columns@), ", "@) + " FROM "@ + s.target@.sql() + ";"@
}

/// `CREATE STATISTICS name [(kinds)] ON columns FROM table;`
pub fn create_statistic(s: &Statistic) -> (sql: String)
    ensures
        sql@ == create_statistic_sql(*s),
{
    let mut out = prefixed("CREATE STATISTICS ", &s.qname);
    if s.kinds.len() > 0 {
        out.append(" (");
        append_sql_list(&mut out, &s.kinds, ", ");
        out.append(")");
    }
    out.append(" ON ");
    append_sql_list(&mut out, &s.columns, ", ");
    out.append(" FROM ");
    append_sql(&mut out, &s.target);
    out.append(";");
    out
}

/// `DROP STATISTICS name;`
pub open spec fn drop_statistic_sql(q: QualifiedName) -> Seq<char> {
    "DROP STATISTICS "@ + q@.sql() + ";"@
}

/// `DROP STATISTICS name;`
pub fn drop_statistic(q: &QualifiedName) -> (sql: String)
    ensures
        sql@ == drop_statistic_sql(*q),
{
    let mut out = prefixed("DROP STATISTICS ", q);
    out.append(";");
    out
}

/// The statement that drops the old statistics and the one that creates the new ones.
pub fn replace_statistic(from: &Statistic, to: &Statistic) -> (sql: (String, String))
    ensures
        sql.0@ == drop_statistic_sql(from.qname),
        sql.1@ == create_statistic_sql(*to),
{
    (drop_statistic(&from.qname), create_statistic(to))
}

/// `ALTER STATISTICS name SET STATISTICS n;`
pub open spec fn statistic_target_sql(q: QualifiedName, value: i32) -> Seq<char> {
    "ALTER STATISTICS "@ + q@.sql() + " SET STATISTICS "@ + decimal(value as int) + ";"@
}

/// `ALTER STATISTICS name SET STATISTICS n;`
pub fn alter_statistic_set_target(q: &QualifiedName, value: i32) -> (sql: String)
    ensures
        sql@ == statistic_target_sql(*q, value),
{
    let mut out = prefixed("ALTER STATISTICS ", q);
    out.append(" SET STATISTICS ");
    append_i64(&mut out, value as i64);
    out.append(";");
    out
}

/// `COMMENT ON STATISTICS name IS ...;`
pub open spec fn comment_on_statistic_sql(
    q: QualifiedName,
    comment: Option<Seq<char>>,
) -> Seq<char> {
    with_comment("COMMENT ON STATISTICS "@ + q@.sql(), comment)
}

/// `COMMENT ON STATISTICS name IS ...;`
pub fn comment_on_statistic(q: &QualifiedName, comment: Option<&str>) -> (sql: String)
    ensures
        sql@ == comment_on_statistic_sql(*q, opt_str(comment)),
{
    finish_comment(prefixed("COMMENT ON STATISTICS ", q), comment)
}

} // verus!
