//! SQL for storage options.

use crate::identifier::QualifiedName;
use crate::ir::reloptions::{
    IndexStorageOptions, MaterializedViewStorageOptions, TableStorageOptions,
};
use crate::text::{append_u64, decimal_nat, join, joined, prefixed, texts};
use vstd::prelude::*;
use vstd::string::*;

verus! {

/// A list with one more option, where it is set: `name = number`.
pub open spec fn with_number(
    list: Seq<Seq<char>>,
    name: Seq<char>,
    value: Option<u32>,
) -> Seq<Seq<char>> {
    match value {
        Some(n) => list.push(name + " = "@ + decimal_nat(n as nat)),
        None => list,
    }
}

/// A list with one more option, where it is set: `name = true` or `false`.
pub open spec fn with_flag(
    list: Seq<Seq<char>>,
    name: Seq<char>,
    value: Option<bool>,
) -> Seq<Seq<char>> {
    match value {
        Some(b) => list.push(
            name + " = "@ + if b {
                "true"@
            } else {
                "false"@
            },
        ),
        None => list,
    }
}

/// Appends a numeric option, where it is set.
pub fn push_number(list: &mut Vec<String>, name: &str, value: Option<u32>)
    ensures
        texts(final(list)@) == with_number(texts(old(list)@), name@, value),
{
    let ghost before = texts(list@);
    match value {
        Some(n) => {
            let mut text = name.to_owned();
            text.append(" = ");
            append_u64(&mut text, n as u64);
            list.push(text);
            assert(texts(list@) =~= before.push(text@));
        },
        None => {},
    }
}

/// Appends a boolean option, where it is set.
pub fn push_flag(list: &mut Vec<String>, name: &str, value: Option<bool>)
    ensures
        texts(final(list)@) == with_flag(texts(old(list)@), name@, value),
{
    let ghost before = texts(list@);
    match value {
        Some(b) => {
            let mut text = name.to_owned();
            text.append(" = ");
            if b {
                text.append("true");
            } else {
                text.append("false");
            }
            list.push(text);
            assert(texts(list@) =~= before.push(text@));
        },
        None => {},
    }
}

/// The options of a table that are set.
pub open spec fn table_options(o: TableStorageOptions) -> Seq<Seq<char>> {
    with_flag(
        with_number(
            with_number(
                with_number(Seq::empty(), "fillfactor"@, o.fillfactor),
                "parallel_workers"@,
                o.parallel_workers,
            ),
            "toast_tuple_target"@,
            o.toast_tuple_target,
        ),
        "autovacuum_enabled"@,
        o.autovacuum_enabled,
    )
}

/// The options of a table that are set.
pub fn render_table_options(o: &TableStorageOptions) -> (list: Vec<String>)
    ensures
        texts(list@) == table_options(*o),
{
    let mut list: Vec<String> = Vec::new();
    assert(texts(list@) =~= Seq::empty());
    push_number(&mut list, "fillfactor", o.fillfactor);
    push_number(&mut list, "parallel_workers", o.parallel_workers);
    push_number(&mut list, "toast_tuple_target", o.toast_tuple_target);
    push_flag(&mut list, "autovacuum_enabled", o.autovacuum_enabled);
    list
}

/// The options of an index that are set.
pub open spec fn index_options(o: IndexStorageOptions) -> Seq<Seq<char>> {
    with_flag(
        with_flag(
            with_number(Seq::empty(), "fillfactor"@, o.fillfactor),
            "fastupdate"@,
            o.fastupdate,
        ),
        "deduplicate_items"@,
        o.deduplicate_items,
    )
}

/// The options of an index that are set.
pub fn render_index_options(o: &IndexStorageOptions) -> (list: Vec<String>)
    ensures
        texts(list@) == index_options(*o),
{
    let mut list: Vec<String> = Vec::new();
    assert(texts(list@) =~= Seq::empty());
    push_number(&mut list, "fillfactor", o.fillfactor);
    push_flag(&mut list, "fastupdate", o.fastupdate);
    push_flag(&mut list, "deduplicate_items", o.deduplicate_items);
    list
}

/// The options of a materialized view that are set.
pub open spec fn mv_options(o: MaterializedViewStorageOptions) -> Seq<Seq<char>> {
    with_flag(
        with_number(Seq::empty(), "fillfactor"@, o.fillfactor),
        "autovacuum_enabled"@,
        o.autovacuum_enabled,
    )
}

/// The options of a materialized view that are set.
pub fn render_mv_options(o: &MaterializedViewStorageOptions) -> (list: Vec<String>)
    ensures
        texts(list@) == mv_options(*o),
{
    let mut list: Vec<String> = Vec::new();
    assert(texts(list@) =~= Seq::empty());
    push_number(&mut list, "fillfactor", o.fillfactor);
    push_flag(&mut list, "autovacuum_enabled", o.autovacuum_enabled);
    list
}

/// `head name SET (options);`
pub open spec fn set_options_sql(
    head: Seq<char>,
    q: QualifiedName,
    options: Seq<Seq<char>>,
) -> Seq<char> {
    head + q@.sql() + " SET ("@ + joined(options, ", "@) + ");"@
}

fn render_set_options(head: &str, q: &QualifiedName, options: &Vec<String>) -> (sql: String)
    ensures
        sql@ == set_options_sql(head@, *q, texts(options@)),
{
    let mut out = prefixed(head, q);
    out.append(" SET (");
    let list = join(options, ", ");
    out.append(list.as_str());
    out.append(");");
    out
}

/// `ALTER TABLE name SET (options);`
pub open spec fn table_storage_sql(q: QualifiedName, o: TableStorageOptions) -> Seq<char> {
    set_options_sql("ALTER TABLE "@, q, table_options(o))
}

/// `ALTER TABLE name SET (options);`
pub fn alter_table_set_storage(q: &QualifiedName, o: &TableStorageOptions) -> (sql: String)
    ensures
        sql@ == table_storage_sql(*q, *o),
{
    render_set_options("ALTER TABLE ", q, &render_table_options(o))
}

/// `ALTER INDEX name SET (options);`
pub open spec fn index_storage_sql(q: QualifiedName, o: IndexStorageOptions) -> Seq<char> {
    set_options_sql("ALTER INDEX "@, q, index_options(o))
}

/// `ALTER INDEX name SET (options);`
pub fn alter_index_set_storage(q: &QualifiedName, o: &IndexStorageOptions) -> (sql: String)
    ensures
        sql@ == index_storage_sql(*q, *o),
{
    render_set_options("ALTER INDEX ", q, &render_index_options(o))
}

/// `ALTER MATERIALIZED VIEW name SET (options);`
pub open spec fn mv_storage_sql(
    q: QualifiedName,
    o: MaterializedViewStorageOptions,
) -> Seq<char> {
    set_options_sql("ALTER MATERIALIZED VIEW "@, q, mv_options(o))
}

/// `ALTER MATERIALIZED VIEW name SET (options);`
pub fn alter_mv_set_storage(
    q: &QualifiedName,
    o: &MaterializedViewStorageOptions,
) -> (sql: String)
    ensures
        sql@ == mv_storage_sql(*q, *o),
{
    render_set_options("ALTER MATERIALIZED VIEW ", q, &render_mv_options(o))
}

} // verus!
