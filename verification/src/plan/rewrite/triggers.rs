//! SQL for triggers.

use crate::identifier::{name_sql, QualifiedName};
use crate::ir::trigger::{
    TransitionTable, Trigger, TriggerEvent, TriggerLevel, TriggerTiming,
};
use crate::plan::rewrite::sql::{deferrable_sql, render_deferrable};
use crate::plan::rewrite::types::{literals, render_literals};
use crate::text::{
    append_sql, append_sql_list, finish_comment, join, joined, opt_str, prefixed, sqls,
    with_comment, SqlText, ToSql,
};
use vstd::prelude::*;
use vstd::string::*;

verus! {

impl SqlText for TriggerEvent {
    open spec fn sql(&self) -> Seq<char> {
        match *self {
            TriggerEvent::Insert => "INSERT"@,
            TriggerEvent::Update { columns } => if columns@.len() == 0 {
                "UPDATE"@
            } else {
                "UPDATE OF "@ + joined(sqls(columns@), ", "@)
            },
            TriggerEvent::Delete => "DELETE"@,
            TriggerEvent::Truncate => "TRUNCATE"@,
        }
    }
}

impl ToSql for TriggerEvent {
    fn render_sql(&self) -> (text: String) {
        match self {
            TriggerEvent::Insert => "INSERT".to_owned(),
            TriggerEvent::Update { columns } => {
                if columns.len() == 0 {
                    "UPDATE".to_owned()
                } else {
                    let mut out = "UPDATE OF ".to_owned();
                    append_sql_list(&mut out, columns, ", ");
                    out
                }
            },
            TriggerEvent::Delete => "DELETE".to_owned(),
            TriggerEvent::Truncate => "TRUNCATE".to_owned(),
        }
    }
}

impl SqlText for TransitionTable {
    open spec fn sql(&self) -> Seq<char> {
        if self.is_new {
            "NEW TABLE AS "@ + name_sql(self.name@)
        } else {
            "OLD TABLE AS "@ + name_sql(self.name@)
        }
    }
}

impl ToSql for TransitionTable {
    fn render_sql(&self) -> (text: String) {
        if self.is_new {
            prefixed("NEW TABLE AS ", &self.name)
        } else {
            prefixed("OLD TABLE AS ", &self.name)
        }
    }
}

/// When a trigger fires.
pub open spec fn timing_sql(t: TriggerTiming) -> Seq<char> {
    match t {
        TriggerTiming::Before => " BEFORE "@,
        TriggerTiming::After => " AFTER "@,
        TriggerTiming::InsteadOf => " INSTEAD OF "@,
    }
}

fn render_timing(t: TriggerTiming) -> (text: &'static str)
    ensures
        text@ == timing_sql(t),
{
    match t {
        TriggerTiming::Before => " BEFORE ",
        TriggerTiming::After => " AFTER ",
        TriggerTiming::InsteadOf => " INSTEAD OF ",
    }
}

/// `CREATE [CONSTRAINT] TRIGGER name BEFORE event ON table ... EXECUTE FUNCTION f(args);`
pub open spec fn create_trigger_sql(t: Trigger) -> Seq<char> {
    let a = if t.is_constraint {
        "CREATE CONSTRAINT TRIGGER "@
    } else {
        "CREATE TRIGGER "@
    };
    let b = a + name_sql(t.qname.name@) + timing_sql(t.timing) + joined(sqls(t.events@), " OR "@)
        + " ON "@ + t.table@.sql() + deferrable_sql(t.deferrable);
    let c = if t.transition_tables@.len() == 0 {
        b
    } else {
        b + " REFERENCING "@ + joined(sqls(t.transition_tables@), " "@)
    };
    let d = match t.level {
        TriggerLevel::Row => c + " FOR EACH ROW"@,
        TriggerLevel::Statement => c + " FOR EACH STATEMENT"@,
    };
    let e = match t.when_clause {
        Some(w) => d + " WHEN ("@ + w@ + ")"@,
        None => d,
    };
    e + " EXECUTE FUNCTION "@ + t.function_qname@.sql() + "("@ + joined(
        literals(t.function_args@),
        ", "@,
    ) + ");"@
}

/// `CREATE [CONSTRAINT] TRIGGER name BEFORE event ON table ... EXECUTE FUNCTION f(args);`
pub fn create_trigger(t: &Trigger) -> (sql: String)
    ensures
        sql@ == create_trigger_sql(*t),
{
    let mut out = if t.is_constraint {
        "CREATE CONSTRAINT TRIGGER ".to_owned()
    } else {
        "CREATE TRIGGER ".to_owned()
    };
    append_sql(&mut out, &t.qname.name);
    out.append(render_timing(t.timing));
    append_sql_list(&mut out, &t.events, " OR ");
    out.append(" ON ");
    append_sql(&mut out, &t.table);
    out.append(render_deferrable(t.deferrable));
    if t.transition_tables.len() > 0 {
        out.append(" REFERENCING ");
        append_sql_list(&mut out, &t.transition_tables, " ");
    }
    match t.level {
        TriggerLevel::Row => out.append(" FOR EACH ROW"),
        TriggerLevel::Statement => out.append(" FOR EACH STATEMENT"),
    }
    match &t.when_clause {
        Some(w) => {
            out.append(" WHEN (");
            out.append(w.canonical_text.as_str());
            out.append(")");
        },
        None => {},
    }
    out.append(" EXECUTE FUNCTION ");
    append_sql(&mut out, &t.function_qname);
    out.append("(");
    let args = join(&render_literals(&t.function_args), ", ");
    out.append(args.as_str());
    out.append(");");
    out
}

/// `DROP TRIGGER name ON table;`
pub open spec fn drop_trigger_sql(q: QualifiedName, table: QualifiedName) -> Seq<char> {
    "DROP TRIGGER "@ + name_sql(q.name@) + " ON "@ + table@.sql() + ";"@
}

/// `DROP TRIGGER name ON table;`
pub fn drop_trigger(q: &QualifiedName, table: &QualifiedName) -> (sql: String)
    ensures
        sql@ == drop_trigger_sql(*q, *table),
{
    let mut out = prefixed("DROP TRIGGER ", &q.name);
    out.append(" ON ");
    append_sql(&mut out, table);
    out.append(";");
    out
}

/// `COMMENT ON TRIGGER name ON table IS ...;`
pub open spec fn comment_on_trigger_sql(
    q: QualifiedName,
    table: QualifiedName,
    comment: Option<Seq<char>>,
) -> Seq<char> {
    with_comment("COMMENT ON TRIGGER "@ + name_sql(q.name@) + " ON "@ + table@.sql(), comment)
}

/// `COMMENT ON TRIGGER name ON table IS ...;`
pub fn comment_on_trigger(
    q: &QualifiedName,
    table: &QualifiedName,
    comment: Option<&str>,
) -> (sql: String)
    ensures
        sql@ == comment_on_trigger_sql(*q, *table, opt_str(comment)),
{
    let mut head = prefixed("COMMENT ON TRIGGER ", &q.name);
    head.append(" ON ");
    append_sql(&mut head, table);
    finish_comment(head, comment)
}

} // verus!
