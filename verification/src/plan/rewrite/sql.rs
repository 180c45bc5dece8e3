//! SQL for schemas, tables, constraints, indexes and sequences.
//!
//! Each function gives one statement that ends with `;`, and the same input
//! always gives the same text.

use crate::identifier::{name_sql, Identifier, QualifiedName};
use crate::ir::column_type::{type_sql, ColumnType};
use crate::ir::constraint::{
    Constraint, ConstraintKind, Deferrable, FkMatchType, ReferentialAction,
};
use crate::ir::expr::{DefaultExpr, NormalizedExpr};
use crate::ir::index::{
    Index, IndexColumn, IndexColumnExpr, IndexMethod, NullsOrder, SortOrder,
};
use crate::ir::schema::Schema;
use crate::ir::sequence::{Sequence, SequenceOwner};
use crate::ir::table::{Column, Compression, Identity, StorageKind, Table};
use crate::plan::rewrite::partitions::{
    append_partition_by, bounds_sql, partition_by_sql, render_bounds,
};
use crate::plan::rewrite::reloptions::{
    index_options, render_index_options, render_table_options, table_options,
};
use crate::text::{
    append_i64, append_sql, append_sql_list, decimal, doubled, finish_comment, join, joined,
    literal_body, opt_str, prefixed, sqls, texts, with_comment, SqlText, ToSql,
};
use vstd::prelude::*;
use vstd::string::*;

verus! {

/// The body of a single-quoted SQL literal: quotes doubled.
pub fn escape_sql_literal_body(s: &str) -> (text: String)
    ensures
        text@ == doubled(s@, '\''),
{
    literal_body(s)
}

// ---------------------------------------------------------------------------
// Schemas
// ---------------------------------------------------------------------------

/// `CREATE SCHEMA name;`
pub open spec fn create_schema_sql(s: Schema) -> Seq<char> {
    "CREATE SCHEMA "@ + name_sql(s.name@) + ";"@
}

/// `CREATE SCHEMA name;`
pub fn create_schema(s: &Schema) -> (sql: String)
    ensures
        sql@ == create_schema_sql(*s),
{
    let mut out = prefixed("CREATE SCHEMA ", &s.name);
    out.append(";");
    out
}

/// `DROP SCHEMA name;`
pub open spec fn drop_schema_sql(name: Seq<char>) -> Seq<char> {
    "DROP SCHEMA "@ + name_sql(name) + ";"@
}

/// `DROP SCHEMA name;`
pub fn drop_schema(name: &Identifier) -> (sql: String)
    ensures
        sql@ == drop_schema_sql(name@),
{
    let mut out = prefixed("DROP SCHEMA ", name);
    out.append(";");
    out
}

/// `COMMENT ON SCHEMA name IS ...;`
pub open spec fn comment_on_schema_sql(
    name: Seq<char>,
    comment: Option<Seq<char>>,
) -> Seq<char> {
    with_comment("COMMENT ON SCHEMA "@ + name_sql(name), comment)
}

/// `COMMENT ON SCHEMA name IS ...;`
pub fn comment_on_schema(name: &Identifier, comment: Option<&str>) -> (sql: String)
    ensures
        sql@ == comment_on_schema_sql(name@, opt_str(comment)),
{
    finish_comment(prefixed("COMMENT ON SCHEMA ", name), comment)
}

// ---------------------------------------------------------------------------
// Constraints
// ---------------------------------------------------------------------------

/// The SQL of a referential action.
pub open spec fn action_sql(a: ReferentialAction) -> Seq<char> {
    match a {
        ReferentialAction::NoAction => "NO ACTION"@,
        ReferentialAction::Restrict => "RESTRICT"@,
        ReferentialAction::Cascade => "CASCADE"@,
        ReferentialAction::SetNull => "SET NULL"@,
        ReferentialAction::SetDefault => "SET DEFAULT"@,
    }
}

fn render_action(a: ReferentialAction) -> (text: &'static str)
    ensures
        text@ == action_sql(a),
{
    match a {
        ReferentialAction::NoAction => "NO ACTION",
        ReferentialAction::Restrict => "RESTRICT",
        ReferentialAction::Cascade => "CASCADE",
        ReferentialAction::SetNull => "SET NULL",
        ReferentialAction::SetDefault => "SET DEFAULT",
    }
}

/// The clause that says when a constraint is checked.
pub open spec fn deferrable_sql(d: Deferrable) -> Seq<char> {
    match d {
        Deferrable::NotDeferrable => ""@,
        Deferrable::InitiallyImmediate => " DEFERRABLE INITIALLY IMMEDIATE"@,
        Deferrable::InitiallyDeferred => " DEFERRABLE INITIALLY DEFERRED"@,
    }
}

/// The clause that says when a constraint is checked.
pub fn render_deferrable(d: Deferrable) -> (text: &'static str)
    ensures
        text@ == deferrable_sql(d),
{
    match d {
        Deferrable::NotDeferrable => "",
        Deferrable::InitiallyImmediate => " DEFERRABLE INITIALLY IMMEDIATE",
        Deferrable::InitiallyDeferred => " DEFERRABLE INITIALLY DEFERRED",
    }
}

/// A list of names in parentheses, after a head.
pub open spec fn name_list_sql(head: Seq<char>, names: Seq<Identifier>) -> Seq<char> {
    head + " ("@ + joined(sqls(names), ", "@) + ")"@
}

fn append_name_list(out: &mut String, names: &Vec<Identifier>)
    ensures
        final(out)@ == name_list_sql(old(out)@, names@),
{
    out.append(" (");
    append_sql_list(out, names, ", ");
    out.append(")");
}

/// The clause that lists included columns, where there are any.
pub open spec fn included_sql(head: Seq<char>, names: Seq<Identifier>) -> Seq<char> {
    if names.len() == 0 {
        head
    } else {
        name_list_sql(head + " INCLUDE"@, names)
    }
}

fn append_included(out: &mut String, names: &Vec<Identifier>)
    ensures
        final(out)@ == included_sql(old(out)@, names@),
{
    if names.len() > 0 {
        out.append(" INCLUDE");
        append_name_list(out, names);
    }
}

/// What a constraint requires, after a head.
pub open spec fn constraint_kind_sql(head: Seq<char>, kind: ConstraintKind) -> Seq<char> {
    match kind {
        ConstraintKind::PrimaryKey { columns, included } => included_sql(
            name_list_sql(head + "PRIMARY KEY"@, columns@),
            included@,
        ),
        ConstraintKind::Unique { columns, included, nulls_not_distinct } => {
            let a = head + "UNIQUE"@;
            let b = if nulls_not_distinct {
                a + " NULLS NOT DISTINCT"@
            } else {
                a
            };
            included_sql(name_list_sql(b, columns@), included@)
        },
        ConstraintKind::ForeignKey(fk) => {
            let a = name_list_sql(head + "FOREIGN KEY"@, fk.columns@);
            let b = name_list_sql(
                a + " REFERENCES "@ + fk.referenced_table@.sql(),
                fk.referenced_columns@,
            );
            let c = if fk.match_type is Full {
                b + " MATCH FULL"@
            } else {
                b
            };
            let d = if fk.on_update is NoAction {
                c
            } else {
                c + " ON UPDATE "@ + action_sql(fk.on_update)
            };
            if fk.on_delete is NoAction {
                d
            } else {
                d + " ON DELETE "@ + action_sql(fk.on_delete)
            }
        },
        ConstraintKind::Check { expression, no_inherit } => {
            let a = head + "CHECK ("@ + expression@ + ")"@;
            if no_inherit {
                a + " NO INHERIT"@
            } else {
                a
            }
        },
    }
}

/// `CONSTRAINT name ...` as it stands in `CREATE TABLE` and `ADD`.
pub open spec fn constraint_sql(c: Constraint) -> Seq<char> {
    constraint_kind_sql("CONSTRAINT "@ + name_sql(c.qname.name@) + " "@, c.kind) + deferrable_sql(
        c.deferrable,
    )
}

/// `CONSTRAINT name ...` as it stands in `CREATE TABLE` and `ADD`.
pub fn constraint_def(c: &Constraint) -> (sql: String)
    ensures
        sql@ == constraint_sql(*c),
{
    let mut out = prefixed("CONSTRAINT ", &c.qname.name);
    out.append(" ");
    match &c.kind {
        ConstraintKind::PrimaryKey { columns, included } => {
            out.append("PRIMARY KEY");
            append_name_list(&mut out, columns);
            append_included(&mut out, included);
        },
        ConstraintKind::Unique { columns, included, nulls_not_distinct } => {
            out.append("UNIQUE");
            if *nulls_not_distinct {
                out.append(" NULLS NOT DISTINCT");
            }
            append_name_list(&mut out, columns);
            append_included(&mut out, included);
        },
        ConstraintKind::ForeignKey(fk) => {
            out.append("FOREIGN KEY");
            append_name_list(&mut out, &fk.columns);
            out.append(" REFERENCES ");
            append_sql(&mut out, &fk.referenced_table);
            append_name_list(&mut out, &fk.referenced_columns);
            if matches!(fk.match_type, FkMatchType::Full) {
                out.append(" MATCH FULL");
            }
            if !matches!(fk.on_update, ReferentialAction::NoAction) {
                out.append(" ON UPDATE ");
                out.append(render_action(fk.on_update));
            }
            if !matches!(fk.on_delete, ReferentialAction::NoAction) {
                out.append(" ON DELETE ");
                out.append(render_action(fk.on_delete));
            }
        },
        ConstraintKind::Check { expression, no_inherit } => {
            out.append("CHECK (");
            out.append(expression.canonical_text.as_str());
            out.append(")");
            if *no_inherit {
                out.append(" NO INHERIT");
            }
        },
    }
    out.append(render_deferrable(c.deferrable));
    out
}

impl SqlText for Constraint {
    open spec fn sql(&self) -> Seq<char> {
        constraint_sql(*self)
    }
}

impl ToSql for Constraint {
    fn render_sql(&self) -> (text: String) {
        constraint_def(self)
    }
}

// ---------------------------------------------------------------------------
// Tables
// ---------------------------------------------------------------------------

/// The SQL of a compression method.
pub open spec fn compression_sql(c: Compression) -> Seq<char> {
    match c {
        Compression::Pglz => "pglz"@,
        Compression::Lz4 => "lz4"@,
    }
}

fn render_compression(c: Compression) -> (text: &'static str)
    ensures
        text@ == compression_sql(c),
{
    match c {
        Compression::Pglz => "pglz",
        Compression::Lz4 => "lz4",
    }
}

/// The SQL of a storage strategy.
pub open spec fn storage_sql(s: StorageKind) -> Seq<char> {
    match s {
        StorageKind::Plain => "PLAIN"@,
        StorageKind::External => "EXTERNAL"@,
        StorageKind::Extended => "EXTENDED"@,
        StorageKind::Main => "MAIN"@,
    }
}

fn render_storage(s: StorageKind) -> (text: &'static str)
    ensures
        text@ == storage_sql(s),
{
    match s {
        StorageKind::Plain => "PLAIN",
        StorageKind::External => "EXTERNAL",
        StorageKind::Extended => "EXTENDED",
        StorageKind::Main => "MAIN",
    }
}

/// The SQL of an identity.
pub open spec fn identity_sql(i: Identity) -> Seq<char> {
    match i {
        Identity::Always => "GENERATED ALWAYS AS IDENTITY"@,
        Identity::ByDefault => "GENERATED BY DEFAULT AS IDENTITY"@,
    }
}

fn render_identity(i: Identity) -> (text: &'static str)
    ensures
        text@ == identity_sql(i),
{
    match i {
        Identity::Always => "GENERATED ALWAYS AS IDENTITY",
        Identity::ByDefault => "GENERATED BY DEFAULT AS IDENTITY",
    }
}

/// A column as it stands in `CREATE TABLE` and `ADD COLUMN`. It has no
/// `STORAGE` clause: that is set by a statement of its own.
pub open spec fn column_sql(col: Column) -> Seq<char> {
    let a = name_sql(col.name@) + " "@ + type_sql(col.ty);
    let b = match col.compression {
        Some(c) => a + " COMPRESSION "@ + compression_sql(c),
        None => a,
    };
    let c = match col.collation {
        Some(q) => b + " COLLATE "@ + q@.sql(),
        None => b,
    };
    let d = match col.default {
        Some(e) => c + " DEFAULT "@ + e.sql(),
        None => c,
    };
    let e = match col.identity {
        Some(i) => d + " "@ + identity_sql(i),
        None => d,
    };
    let f = match col.generated {
        Some(g) => e + " GENERATED ALWAYS AS ("@ + g@ + ") STORED"@,
        None => e,
    };
    if col.nullable {
        f
    } else {
        f + " NOT NULL"@
    }
}

/// A column as it stands in `CREATE TABLE` and `ADD COLUMN`.
pub fn column_def(col: &Column) -> (sql: String)
    ensures
        sql@ == column_sql(*col),
{
    let mut out = col.name.render_sql();
    out.append(" ");
    append_sql(&mut out, &col.ty);
    match &col.compression {
        Some(c) => {
            out.append(" COMPRESSION ");
            out.append(render_compression(*c));
        },
        None => {},
    }
    match &col.collation {
        Some(q) => {
            out.append(" COLLATE ");
            append_sql(&mut out, q);
        },
        None => {},
    }
    match &col.default {
        Some(e) => {
            out.append(" DEFAULT ");
            append_sql(&mut out, e);
        },
        None => {},
    }
    match &col.identity {
        Some(i) => {
            out.append(" ");
            out.append(render_identity(*i));
        },
        None => {},
    }
    match &col.generated {
        Some(g) => {
            out.append(" GENERATED ALWAYS AS (");
            out.append(g.canonical_text.as_str());
            out.append(") STORED");
        },
        None => {},
    }
    if !col.nullable {
        out.append(" NOT NULL");
    }
    out
}

impl SqlText for Column {
    open spec fn sql(&self) -> Seq<char> {
        column_sql(*self)
    }
}

impl ToSql for Column {
    fn render_sql(&self) -> (text: String) {
        column_def(self)
    }
}

/// The columns and constraints of a table, in order.
pub open spec fn table_items(t: Table) -> Seq<Seq<char>> {
    sqls(t.columns@) + sqls(t.constraints@)
}

fn render_table_items(t: &Table) -> (items: Vec<String>)
    ensures
        texts(items@) == table_items(*t),
{
    let mut out: Vec<String> = Vec::new();
    let mut i: usize = 0;
    while i < t.columns.len()
        invariant
            i <= t.columns@.len(),
            texts(out@) =~= sqls(t.columns@).take(i as int),
        decreases t.columns@.len() - i,
    {
        let ghost before = texts(out@);
        let item = column_def(&t.columns[i]);
        out.push(item);
        assert(texts(out@) =~= before.push(item@));
        i = i + 1;
    }
    let mut j: usize = 0;
    assert(sqls(t.columns@).take(i as int) =~= sqls(t.columns@));
    while j < t.constraints.len()
        invariant
            j <= t.constraints@.len(),
            texts(out@) =~= sqls(t.columns@) + sqls(t.constraints@).take(j as int),
        decreases t.constraints@.len() - j,
    {
        let ghost before = texts(out@);
        let item = constraint_def(&t.constraints[j]);
        out.push(item);
        assert(texts(out@) =~= before.push(item@));
        j = j + 1;
    }
    assert(texts(out@) =~= table_items(*t));
    out
}

/// `CREATE TABLE name (...);`, or `CREATE TABLE name PARTITION OF parent ...;`
pub open spec fn create_table_sql(t: Table) -> Seq<char> {
    let head = "CREATE TABLE "@ + t.qname@.sql();
    let body = match t.partition_of {
        Some(po) => head + " PARTITION OF "@ + po.parent@.sql() + " "@ + bounds_sql(po.bounds),
        None => if table_items(t).len() == 0 {
            head + " ()"@
        } else {
            head + " (\n    "@ + joined(table_items(t), ",\n    "@) + "\n)"@
        },
    };
    let partitioned = match t.partition_by {
        Some(by) => partition_by_sql(body, by),
        None => body,
    };
    let options = table_options(t.storage);
    let stored = if options.len() == 0 {
        partitioned
    } else {
        partitioned + " WITH ("@ + joined(options, ", "@) + ")"@
    };
    stored + ";"@
}

/// `CREATE TABLE name (...);`, or `CREATE TABLE name PARTITION OF parent ...;`
pub fn create_table(t: &Table) -> (sql: String)
    ensures
        sql@ == create_table_sql(*t),
{
    let mut out = prefixed("CREATE TABLE ", &t.qname);
    match &t.partition_of {
        Some(po) => {
            out.append(" PARTITION OF ");
            append_sql(&mut out, &po.parent);
            out.append(" ");
            let bounds = render_bounds(&po.bounds);
            out.append(bounds.as_str());
        },
        None => {
            let items = render_table_items(t);
            assert(texts(items@).len() == items@.len());
            if items.len() == 0 {
                out.append(" ()");
            } else {
                out.append(" (\n    ");
                let list = join(&items, ",\n    ");
                out.append(list.as_str());
                out.append("\n)");
            }
        },
    }
    match &t.partition_by {
        Some(by) => {
            append_partition_by(&mut out, by);
        },
        None => {},
    }
    let options = render_table_options(&t.storage);
    assert(texts(options@).len() == options@.len());
    if options.len() > 0 {
        out.append(" WITH (");
        let list = join(&options, ", ");
        out.append(list.as_str());
        out.append(")");
    }
    out.append(";");
    out
}

/// `DROP TABLE name;`
pub open spec fn drop_table_sql(q: QualifiedName) -> Seq<char> {
    "DROP TABLE "@ + q@.sql() + ";"@
}

/// `DROP TABLE name;`
pub fn drop_table(q: &QualifiedName) -> (sql: String)
    ensures
        sql@ == drop_table_sql(*q),
{
    let mut out = prefixed("DROP TABLE ", q);
    out.append(";");
    out
}

/// `COMMENT ON TABLE name IS ...;`
pub open spec fn comment_on_table_sql(q: QualifiedName, comment: Option<Seq<char>>) -> Seq<char> {
    with_comment("COMMENT ON TABLE "@ + q@.sql(), comment)
}

/// `COMMENT ON TABLE name IS ...;`
pub fn comment_on_table(q: &QualifiedName, comment: Option<&str>) -> (sql: String)
    ensures
        sql@ == comment_on_table_sql(*q, opt_str(comment)),
{
    finish_comment(prefixed("COMMENT ON TABLE ", q), comment)
}

/// `COMMENT ON COLUMN table.column IS ...;`
pub open spec fn comment_on_column_sql(
    q: QualifiedName,
    column: Identifier,
    comment: Option<Seq<char>>,
) -> Seq<char> {
    with_comment("COMMENT ON COLUMN "@ + q@.sql() + "."@ + name_sql(column@), comment)
}

/// `COMMENT ON COLUMN table.column IS ...;`
pub fn comment_on_column(
    q: &QualifiedName,
    column: &Identifier,
    comment: Option<&str>,
) -> (sql: String)
    ensures
        sql@ == comment_on_column_sql(*q, *column, opt_str(comment)),
{
    let mut head = prefixed("COMMENT ON COLUMN ", q);
    head.append(".");
    append_sql(&mut head, column);
    finish_comment(head, comment)
}

/// `COMMENT ON CONSTRAINT name ON table IS ...;`
pub open spec fn comment_on_constraint_sql(
    q: QualifiedName,
    name: Identifier,
    comment: Option<Seq<char>>,
) -> Seq<char> {
    with_comment("COMMENT ON CONSTRAINT "@ + name_sql(name@) + " ON "@ + q@.sql(), comment)
}

/// `COMMENT ON CONSTRAINT name ON table IS ...;`
pub fn comment_on_constraint(
    q: &QualifiedName,
    name: &Identifier,
    comment: Option<&str>,
) -> (sql: String)
    ensures
        sql@ == comment_on_constraint_sql(*q, *name, opt_str(comment)),
{
    let mut head = prefixed("COMMENT ON CONSTRAINT ", name);
    head.append(" ON ");
    append_sql(&mut head, q);
    finish_comment(head, comment)
}

/// `ALTER TABLE name`
pub open spec fn alter_table_head(q: QualifiedName) -> Seq<char> {
    "ALTER TABLE "@ + q@.sql()
}

/// `ALTER TABLE name ALTER COLUMN column`
pub open spec fn alter_column_head(q: QualifiedName, column: Identifier) -> Seq<char> {
    alter_table_head(q) + " ALTER COLUMN "@ + name_sql(column@)
}

fn alter_column_start(q: &QualifiedName, column: &Identifier) -> (head: String)
    ensures
        head@ == alter_column_head(*q, *column),
{
    let mut out = prefixed("ALTER TABLE ", q);
    out.append(" ALTER COLUMN ");
    append_sql(&mut out, column);
    out
}

/// `ALTER TABLE name ADD COLUMN ...;`
pub open spec fn add_column_sql(q: QualifiedName, col: Column) -> Seq<char> {
    alter_table_head(q) + " ADD COLUMN "@ + column_sql(col) + ";"@
}

/// `ALTER TABLE name ADD COLUMN ...;`
pub fn alter_table_add_column(q: &QualifiedName, col: &Column) -> (sql: String)
    ensures
        sql@ == add_column_sql(*q, *col),
{
    let mut out = prefixed("ALTER TABLE ", q);
    out.append(" ADD COLUMN ");
    append_sql(&mut out, col);
    out.append(";");
    out
}

/// `ALTER TABLE name DROP COLUMN column;`
pub open spec fn drop_column_sql(q: QualifiedName, column: Identifier) -> Seq<char> {
    alter_table_head(q) + " DROP COLUMN "@ + name_sql(column@) + ";"@
}

/// `ALTER TABLE name DROP COLUMN column;`
pub fn alter_table_drop_column(q: &QualifiedName, column: &Identifier) -> (sql: String)
    ensures
        sql@ == drop_column_sql(*q, *column),
{
    let mut out = prefixed("ALTER TABLE ", q);
    out.append(" DROP COLUMN ");
    append_sql(&mut out, column);
    out.append(";");
    out
}

/// `ALTER TABLE name ALTER COLUMN column TYPE type [USING expr];`
pub open spec fn alter_column_type_sql(
    q: QualifiedName,
    column: Identifier,
    to: ColumnType,
    using: Option<NormalizedExpr>,
) -> Seq<char> {
    let a = alter_column_head(q, column) + " TYPE "@ + type_sql(to);
    let b = match using {
        Some(e) => a + " USING "@ + e@,
        None => a,
    };
    b + ";"@
}

/// `ALTER TABLE name ALTER COLUMN column TYPE type [USING expr];`
pub fn alter_column_type(
    q: &QualifiedName,
    column: &Identifier,
    to: &ColumnType,
    using: &Option<NormalizedExpr>,
) -> (sql: String)
    ensures
        sql@ == alter_column_type_sql(*q, *column, *to, *using),
{
    let mut out = alter_column_start(q, column);
    out.append(" TYPE ");
    append_sql(&mut out, to);
    match using {
        Some(e) => {
            out.append(" USING ");
            out.append(e.canonical_text.as_str());
        },
        None => {},
    }
    out.append(";");
    out
}

/// `ALTER TABLE name ALTER COLUMN column SET NOT NULL;` or `DROP NOT NULL;`
pub open spec fn set_nullable_sql(
    q: QualifiedName,
    column: Identifier,
    nullable: bool,
) -> Seq<char> {
    alter_column_head(q, column) + if nullable {
        " DROP NOT NULL;"@
    } else {
        " SET NOT NULL;"@
    }
}

/// `ALTER TABLE name ALTER COLUMN column SET NOT NULL;` or `DROP NOT NULL;`
pub fn alter_column_set_nullable(
    q: &QualifiedName,
    column: &Identifier,
    nullable: bool,
) -> (sql: String)
    ensures
        sql@ == set_nullable_sql(*q, *column, nullable),
{
    let mut out = alter_column_start(q, column);
    if nullable {
        out.append(" DROP NOT NULL;");
    } else {
        out.append(" SET NOT NULL;");
    }
    out
}

/// `ALTER TABLE name ALTER COLUMN column SET DEFAULT expr;` or `DROP DEFAULT;`
pub open spec fn set_default_sql(
    q: QualifiedName,
    column: Identifier,
    default: Option<DefaultExpr>,
) -> Seq<char> {
    match default {
        Some(e) => alter_column_head(q, column) + " SET DEFAULT "@ + e.sql() + ";"@,
        None => alter_column_head(q, column) + " DROP DEFAULT;"@,
    }
}

/// `ALTER TABLE name ALTER COLUMN column SET DEFAULT expr;` or `DROP DEFAULT;`
pub fn alter_column_set_default(
    q: &QualifiedName,
    column: &Identifier,
    default: &Option<DefaultExpr>,
) -> (sql: String)
    ensures
        sql@ == set_default_sql(*q, *column, *default),
{
    let mut out = alter_column_start(q, column);
    match default {
        Some(e) => {
            out.append(" SET DEFAULT ");
            append_sql(&mut out, e);
            out.append(";");
        },
        None => {
            out.append(" DROP DEFAULT;");
        },
    }
    out
}

/// `ALTER TABLE name ALTER COLUMN column ADD GENERATED ... AS IDENTITY;` or
/// `DROP IDENTITY;`
pub open spec fn set_identity_sql(
    q: QualifiedName,
    column: Identifier,
    identity: Option<Identity>,
) -> Seq<char> {
    match identity {
        Some(i) => alter_column_head(q, column) + " ADD "@ + identity_sql(i) + ";"@,
        None => alter_column_head(q, column) + " DROP IDENTITY;"@,
    }
}

/// `ALTER TABLE name ALTER COLUMN column ADD GENERATED ... AS IDENTITY;` or
/// `DROP IDENTITY;`
pub fn alter_column_set_identity(
    q: &QualifiedName,
    column: &Identifier,
    identity: Option<Identity>,
) -> (sql: String)
    ensures
        sql@ == set_identity_sql(*q, *column, identity),
{
    let mut out = alter_column_start(q, column);
    match identity {
        Some(i) => {
            out.append(" ADD ");
            out.append(render_identity(i));
            out.append(";");
        },
        None => {
            out.append(" DROP IDENTITY;");
        },
    }
    out
}

/// `ALTER TABLE name ALTER COLUMN column SET EXPRESSION AS (expr);` or
/// `DROP EXPRESSION;`
pub open spec fn set_generated_sql(
    q: QualifiedName,
    column: Identifier,
    generated: Option<NormalizedExpr>,
) -> Seq<char> {
    match generated {
        Some(e) => alter_column_head(q, column) + " SET EXPRESSION AS ("@ + e@ + ");"@,
        None => alter_column_head(q, column) + " DROP EXPRESSION;"@,
    }
}

/// `ALTER TABLE name ALTER COLUMN column SET EXPRESSION AS (expr);` or
/// `DROP EXPRESSION;`
pub fn alter_column_set_generated(
    q: &QualifiedName,
    column: &Identifier,
    generated: &Option<NormalizedExpr>,
) -> (sql: String)
    ensures
        sql@ == set_generated_sql(*q, *column, *generated),
{
    let mut out = alter_column_start(q, column);
    match generated {
        Some(e) => {
            out.append(" SET EXPRESSION AS (");
            out.append(e.canonical_text.as_str());
            out.append(");");
        },
        None => {
            out.append(" DROP EXPRESSION;");
        },
    }
    out
}

/// `ALTER TABLE name ALTER COLUMN column SET STORAGE strategy;`
pub open spec fn set_storage_sql(
    q: QualifiedName,
    column: Identifier,
    storage: StorageKind,
) -> Seq<char> {
    alter_column_head(q, column) + " SET STORAGE "@ + storage_sql(storage) + ";"@
}

/// `ALTER TABLE name ALTER COLUMN column SET STORAGE strategy;`
pub fn alter_column_set_storage(
    q: &QualifiedName,
    column: &Identifier,
    storage: StorageKind,
) -> (sql: String)
    ensures
        sql@ == set_storage_sql(*q, *column, storage),
{
    let mut out = alter_column_start(q, column);
    out.append(" SET STORAGE ");
    out.append(render_storage(storage));
    out.append(";");
    out
}

/// `ALTER TABLE name ALTER COLUMN column SET COMPRESSION method;`
pub open spec fn set_compression_sql(
    q: QualifiedName,
    column: Identifier,
    compression: Option<Compression>,
) -> Seq<char> {
    match compression {
        Some(c) => alter_column_head(q, column) + " SET COMPRESSION "@ + compression_sql(c) + ";"@,
        None => alter_column_head(q, column) + " SET COMPRESSION DEFAULT;"@,
    }
}

/// `ALTER TABLE name ALTER COLUMN column SET COMPRESSION method;`
pub fn alter_column_set_compression(
    q: &QualifiedName,
    column: &Identifier,
    compression: Option<Compression>,
) -> (sql: String)
    ensures
        sql@ == set_compression_sql(*q, *column, compression),
{
    let mut out = alter_column_start(q, column);
    match compression {
        Some(c) => {
            out.append(" SET COMPRESSION ");
            out.append(render_compression(c));
            out.append(";");
        },
        None => {
            out.append(" SET COMPRESSION DEFAULT;");
        },
    }
    out
}

/// `ALTER TABLE name ADD CONSTRAINT ...;`
pub open spec fn add_constraint_sql(q: QualifiedName, c: Constraint) -> Seq<char> {
    alter_table_head(q) + " ADD "@ + constraint_sql(c) + ";"@
}

/// `ALTER TABLE name ADD CONSTRAINT ...;`
pub fn alter_table_add_constraint(q: &QualifiedName, c: &Constraint) -> (sql: String)
    ensures
        sql@ == add_constraint_sql(*q, *c),
{
    let mut out = prefixed("ALTER TABLE ", q);
    out.append(" ADD ");
    append_sql(&mut out, c);
    out.append(";");
    out
}

/// `ALTER TABLE name ADD CONSTRAINT ... NOT VALID;`
pub open spec fn add_constraint_not_valid_sql(q: QualifiedName, c: Constraint) -> Seq<char> {
    alter_table_head(q) + " ADD "@ + constraint_sql(c) + " NOT VALID;"@
}

/// `ALTER TABLE name ADD CONSTRAINT ... NOT VALID;`
pub fn alter_table_add_constraint_not_valid(q: &QualifiedName, c: &Constraint) -> (sql: String)
    ensures
        sql@ == add_constraint_not_valid_sql(*q, *c),
{
    let mut out = prefixed("ALTER TABLE ", q);
    out.append(" ADD ");
    append_sql(&mut out, c);
    out.append(" NOT VALID;");
    out
}

/// `ALTER TABLE name VALIDATE CONSTRAINT constraint;`
pub open spec fn validate_constraint_sql(q: QualifiedName, name: Identifier) -> Seq<char> {
    alter_table_head(q) + " VALIDATE CONSTRAINT "@ + name_sql(name@) + ";"@
}

/// `ALTER TABLE name VALIDATE CONSTRAINT constraint;`
pub fn alter_table_validate_constraint(q: &QualifiedName, name: &Identifier) -> (sql: String)
    ensures
        sql@ == validate_constraint_sql(*q, *name),
{
    let mut out = prefixed("ALTER TABLE ", q);
    out.append(" VALIDATE CONSTRAINT ");
    append_sql(&mut out, name);
    out.append(";");
    out
}

/// `ALTER TABLE name DROP CONSTRAINT constraint;`
pub open spec fn drop_constraint_sql(q: QualifiedName, name: Identifier) -> Seq<char> {
    alter_table_head(q) + " DROP CONSTRAINT "@ + name_sql(name@) + ";"@
}

/// `ALTER TABLE name DROP CONSTRAINT constraint;`
pub fn alter_table_drop_constraint(q: &QualifiedName, name: &Identifier) -> (sql: String)
    ensures
        sql@ == drop_constraint_sql(*q, *name),
{
    let mut out = prefixed("ALTER TABLE ", q);
    out.append(" DROP CONSTRAINT ");
    append_sql(&mut out, name);
    out.append(";");
    out
}

// ---------------------------------------------------------------------------
// Indexes
// ---------------------------------------------------------------------------

/// The name of an access method.
pub open spec fn method_sql(m: IndexMethod) -> Seq<char> {
    match m {
        IndexMethod::BTree => "btree"@,
        IndexMethod::Hash => "hash"@,
        IndexMethod::Gist => "gist"@,
        IndexMethod::SpGist => "spgist"@,
        IndexMethod::Gin => "gin"@,
        IndexMethod::Brin => "brin"@,
    }
}

fn render_method(m: IndexMethod) -> (text: &'static str)
    ensures
        text@ == method_sql(m),
{
    match m {
        IndexMethod::BTree => "btree",
        IndexMethod::Hash => "hash",
        IndexMethod::Gist => "gist",
        IndexMethod::SpGist => "spgist",
        IndexMethod::Gin => "gin",
        IndexMethod::Brin => "brin",
    }
}

/// One key column of an index. The default sort order is left out: ascending
/// with nulls last, or descending with nulls first.
pub open spec fn index_column_sql(c: IndexColumn) -> Seq<char> {
    let a = match c.expr {
        IndexColumnExpr::Column(name) => name_sql(name@),
        IndexColumnExpr::Expression(e) => "("@ + e@ + ")"@,
    };
    let b = match c.collation {
        Some(q) => a + " COLLATE "@ + q@.sql(),
        None => a,
    };
    let d = match c.opclass {
        Some(q) => b + " "@ + q@.sql(),
        None => b,
    };
    match (c.sort_order, c.nulls_order) {
        (SortOrder::Asc, NullsOrder::NullsLast) => d,
        (SortOrder::Asc, NullsOrder::NullsFirst) => d + " NULLS FIRST"@,
        (SortOrder::Desc, NullsOrder::NullsFirst) => d + " DESC"@,
        (SortOrder::Desc, NullsOrder::NullsLast) => d + " DESC NULLS LAST"@,
    }
}

impl SqlText for IndexColumn {
    open spec fn sql(&self) -> Seq<char> {
        index_column_sql(*self)
    }
}

impl ToSql for IndexColumn {
    fn render_sql(&self) -> (text: String) {
        let mut out = match &self.expr {
            IndexColumnExpr::Column(name) => name.render_sql(),
            IndexColumnExpr::Expression(e) => {
                let mut text = "(".to_owned();
                text.append(e.canonical_text.as_str());
                text.append(")");
                text
            },
        };
        match &self.collation {
            Some(q) => {
                out.append(" COLLATE ");
                append_sql(&mut out, q);
            },
            None => {},
        }
        match &self.opclass {
            Some(q) => {
                out.append(" ");
                append_sql(&mut out, q);
            },
            None => {},
        }
        match (self.sort_order, self.nulls_order) {
            (SortOrder::Asc, NullsOrder::NullsLast) => {},
            (SortOrder::Asc, NullsOrder::NullsFirst) => {
                out.append(" NULLS FIRST");
            },
            (SortOrder::Desc, NullsOrder::NullsFirst) => {
                out.append(" DESC");
            },
            (SortOrder::Desc, NullsOrder::NullsLast) => {
                out.append(" DESC NULLS LAST");
            },
        }
        out
    }
}

/// `CREATE [UNIQUE] INDEX [CONCURRENTLY] name ON table USING method (...) ...;`
pub open spec fn create_index_sql(idx: Index, concurrently: bool) -> Seq<char> {
    let a = if idx.unique {
        "CREATE UNIQUE INDEX "@
    } else {
        "CREATE INDEX "@
    };
    let b = if concurrently {
        a + "CONCURRENTLY "@
    } else {
        a
    };
    let c = b + name_sql(idx.qname.name@) + " ON "@ + idx.on.name()@.sql() + " USING "@
        + method_sql(idx.method) + " ("@ + joined(sqls(idx.columns@), ", "@) + ")"@;
    let d = included_sql(c, idx.included@);
    let e = if idx.nulls_not_distinct {
        d + " NULLS NOT DISTINCT"@
    } else {
        d
    };
    let options = index_options(idx.storage);
    let f = if options.len() == 0 {
        e
    } else {
        e + " WITH ("@ + joined(options, ", "@) + ")"@
    };
    let g = match idx.tablespace {
        Some(name) => f + " TABLESPACE "@ + name_sql(name@),
        None => f,
    };
    let h = match idx.predicate {
        Some(p) => g + " WHERE "@ + p@,
        None => g,
    };
    h + ";"@
}

/// `CREATE [UNIQUE] INDEX [CONCURRENTLY] name ON table USING method (...) ...;`
pub fn create_index(idx: &Index, concurrently: bool) -> (sql: String)
    ensures
        sql@ == create_index_sql(*idx, concurrently),
{
    let mut out = if idx.unique {
        "CREATE UNIQUE INDEX ".to_owned()
    } else {
        "CREATE INDEX ".to_owned()
    };
    if concurrently {
        out.append("CONCURRENTLY ");
    }
    append_sql(&mut out, &idx.qname.name);
    out.append(" ON ");
    append_sql(&mut out, idx.on.qname());
    out.append(" USING ");
    out.append(render_method(idx.method));
    out.append(" (");
    append_sql_list(&mut out, &idx.columns, ", ");
    out.append(")");
    append_included(&mut out, &idx.included);
    if idx.nulls_not_distinct {
        out.append(" NULLS NOT DISTINCT");
    }
    let options = render_index_options(&idx.storage);
    assert(texts(options@).len() == options@.len());
    if options.len() > 0 {
        out.append(" WITH (");
        let list = join(&options, ", ");
        out.append(list.as_str());
        out.append(")");
    }
    match &idx.tablespace {
        Some(name) => {
            out.append(" TABLESPACE ");
            append_sql(&mut out, name);
        },
        None => {},
    }
    match &idx.predicate {
        Some(p) => {
            out.append(" WHERE ");
            out.append(p.canonical_text.as_str());
        },
        None => {},
    }
    out.append(";");
    out
}

/// `DROP INDEX [CONCURRENTLY] name;`
pub open spec fn drop_index_sql(q: QualifiedName, concurrently: bool) -> Seq<char> {
    let a = if concurrently {
        "DROP INDEX CONCURRENTLY "@
    } else {
        "DROP INDEX "@
    };
    a + q@.sql() + ";"@
}

/// `DROP INDEX [CONCURRENTLY] name;`
pub fn drop_index(q: &QualifiedName, concurrently: bool) -> (sql: String)
    ensures
        sql@ == drop_index_sql(*q, concurrently),
{
    let mut out = if concurrently {
        "DROP INDEX CONCURRENTLY ".to_owned()
    } else {
        "DROP INDEX ".to_owned()
    };
    append_sql(&mut out, q);
    out.append(";");
    out
}

// ---------------------------------------------------------------------------
// Sequences
// ---------------------------------------------------------------------------

/// A bound of a sequence: a keyword and a number, or `NO` and the keyword.
pub open spec fn bound_sql(keyword: Seq<char>, value: Option<i64>) -> Seq<char> {
    match value {
        Some(n) => " "@ + keyword + " "@ + decimal(n as int),
        None => " NO "@ + keyword,
    }
}

fn render_bound(keyword: &str, value: Option<i64>) -> (text: String)
    ensures
        text@ == bound_sql(keyword@, value),
{
    match value {
        Some(n) => {
            let mut out = " ".to_owned();
            out.append(keyword);
            out.append(" ");
            append_i64(&mut out, n);
            out
        },
        None => {
            let mut out = " NO ".to_owned();
            out.append(keyword);
            out
        },
    }
}

/// `CREATE SEQUENCE name AS type INCREMENT BY n ... [OWNED BY table.column];`
pub open spec fn create_sequence_sql(s: Sequence) -> Seq<char> {
    let a = "CREATE SEQUENCE "@ + s.qname@.sql() + " AS "@ + type_sql(s.data_type)
        + " INCREMENT BY "@ + decimal(s.increment as int) + bound_sql("MINVALUE"@, s.min_value)
        + bound_sql("MAXVALUE"@, s.max_value) + " START WITH "@ + decimal(s.start as int)
        + " CACHE "@ + decimal(s.cache as int);
    let b = if s.cycle {
        a + " CYCLE"@
    } else {
        a + " NO CYCLE"@
    };
    let c = match s.owned_by {
        Some(o) => b + " OWNED BY "@ + o.table@.sql() + "."@ + name_sql(o.column@),
        None => b,
    };
    c + ";"@
}

/// `CREATE SEQUENCE name AS type INCREMENT BY n ... [OWNED BY table.column];`
pub fn create_sequence(s: &Sequence) -> (sql: String)
    ensures
        sql@ == create_sequence_sql(*s),
{
    let mut out = prefixed("CREATE SEQUENCE ", &s.qname);
    out.append(" AS ");
    append_sql(&mut out, &s.data_type);
    out.append(" INCREMENT BY ");
    append_i64(&mut out, s.increment);
    let min = render_bound("MINVALUE", s.min_value);
    out.append(min.as_str());
    let max = render_bound("MAXVALUE", s.max_value);
    out.append(max.as_str());
    out.append(" START WITH ");
    append_i64(&mut out, s.start);
    out.append(" CACHE ");
    append_i64(&mut out, s.cache);
    if s.cycle {
        out.append(" CYCLE");
    } else {
        out.append(" NO CYCLE");
    }
    match &s.owned_by {
        Some(o) => {
            out.append(" OWNED BY ");
            append_sql(&mut out, &o.table);
            out.append(".");
            append_sql(&mut out, &o.column);
        },
        None => {},
    }
    out.append(";");
    out
}

/// `DROP SEQUENCE name;`
pub open spec fn drop_sequence_sql(q: QualifiedName) -> Seq<char> {
    "DROP SEQUENCE "@ + q@.sql() + ";"@
}

/// `DROP SEQUENCE name;`
pub fn drop_sequence(q: &QualifiedName) -> (sql: String)
    ensures
        sql@ == drop_sequence_sql(*q),
{
    let mut out = prefixed("DROP SEQUENCE ", q);
    out.append(";");
    out
}

/// `ALTER SEQUENCE name`
pub open spec fn alter_sequence_head(q: QualifiedName) -> Seq<char> {
    "ALTER SEQUENCE "@ + q@.sql()
}

/// `ALTER SEQUENCE name INCREMENT BY n;`
pub open spec fn sequence_increment_sql(q: QualifiedName, n: i64) -> Seq<char> {
    alter_sequence_head(q) + " INCREMENT BY "@ + decimal(n as int) + ";"@
}

/// `ALTER SEQUENCE name INCREMENT BY n;`
pub fn alter_sequence_increment(q: &QualifiedName, n: i64) -> (sql: String)
    ensures
        sql@ == sequence_increment_sql(*q, n),
{
    let mut out = prefixed("ALTER SEQUENCE ", q);
    out.append(" INCREMENT BY ");
    append_i64(&mut out, n);
    out.append(";");
    out
}

/// `ALTER SEQUENCE name MINVALUE n;` or `NO MINVALUE;`
pub open spec fn sequence_min_sql(q: QualifiedName, value: Option<i64>) -> Seq<char> {
    alter_sequence_head(q) + bound_sql("MINVALUE"@, value) + ";"@
}

/// `ALTER SEQUENCE name MINVALUE n;` or `NO MINVALUE;`
pub fn alter_sequence_min_value(q: &QualifiedName, value: Option<i64>) -> (sql: String)
    ensures
        sql@ == sequence_min_sql(*q, value),
{
    let mut out = prefixed("ALTER SEQUENCE ", q);
    let bound = render_bound("MINVALUE", value);
    out.append(bound.as_str());
    out.append(";");
    out
}

/// `ALTER SEQUENCE name MAXVALUE n;` or `NO MAXVALUE;`
pub open spec fn sequence_max_sql(q: QualifiedName, value: Option<i64>) -> Seq<char> {
    alter_sequence_head(q) + bound_sql("MAXVALUE"@, value) + ";"@
}

/// `ALTER SEQUENCE name MAXVALUE n;` or `NO MAXVALUE;`
pub fn alter_sequence_max_value(q: &QualifiedName, value: Option<i64>) -> (sql: String)
    ensures
        sql@ == sequence_max_sql(*q, value),
{
    let mut out = prefixed("ALTER SEQUENCE ", q);
    let bound = render_bound("MAXVALUE", value);
    out.append(bound.as_str());
    out.append(";");
    out
}

/// `ALTER SEQUENCE name CACHE n;`
pub open spec fn sequence_cache_sql(q: QualifiedName, n: i64) -> Seq<char> {
    alter_sequence_head(q) + " CACHE "@ + decimal(n as int) + ";"@
}

/// `ALTER SEQUENCE name CACHE n;`
pub fn alter_sequence_cache(q: &QualifiedName, n: i64) -> (sql: String)
    ensures
        sql@ == sequence_cache_sql(*q, n),
{
    let mut out = prefixed("ALTER SEQUENCE ", q);
    out.append(" CACHE ");
    append_i64(&mut out, n);
    out.append(";");
    out
}

/// `ALTER SEQUENCE name CYCLE;` or `NO CYCLE;`
pub open spec fn sequence_cycle_sql(q: QualifiedName, cycle: bool) -> Seq<char> {
    alter_sequence_head(q) + if cycle {
        " CYCLE;"@
    } else {
        " NO CYCLE;"@
    }
}

/// `ALTER SEQUENCE name CYCLE;` or `NO CYCLE;`
pub fn alter_sequence_cycle(q: &QualifiedName, cycle: bool) -> (sql: String)
    ensures
        sql@ == sequence_cycle_sql(*q, cycle),
{
    let mut out = prefixed("ALTER SEQUENCE ", q);
    if cycle {
        out.append(" CYCLE;");
    } else {
        out.append(" NO CYCLE;");
    }
    out
}

/// `ALTER SEQUENCE name AS type;`
pub open spec fn sequence_type_sql(q: QualifiedName, ty: ColumnType) -> Seq<char> {
    alter_sequence_head(q) + " AS "@ + type_sql(ty) + ";"@
}

/// `ALTER SEQUENCE name AS type;`
pub fn alter_sequence_data_type(q: &QualifiedName, ty: &ColumnType) -> (sql: String)
    ensures
        sql@ == sequence_type_sql(*q, *ty),
{
    let mut out = prefixed("ALTER SEQUENCE ", q);
    out.append(" AS ");
    append_sql(&mut out, ty);
    out.append(";");
    out
}

/// `ALTER SEQUENCE name OWNED BY table.column;` or `OWNED BY NONE;`
pub open spec fn sequence_owned_by_sql(
    q: QualifiedName,
    owner: Option<SequenceOwner>,
) -> Seq<char> {
    match owner {
        Some(o) => alter_sequence_head(q) + " OWNED BY "@ + o.table@.sql() + "."@ + name_sql(
            o.column@,
        ) + ";"@,
        None => alter_sequence_head(q) + " OWNED BY NONE;"@,
    }
}

/// `ALTER SEQUENCE name OWNED BY table.column;` or `OWNED BY NONE;`
pub fn alter_sequence_owned_by(q: &QualifiedName, owner: &Option<SequenceOwner>) -> (sql: String)
    ensures
        sql@ == sequence_owned_by_sql(*q, *owner),
{
    let mut out = prefixed("ALTER SEQUENCE ", q);
    match owner {
        Some(o) => {
            out.append(" OWNED BY ");
            append_sql(&mut out, &o.table);
            out.append(".");
            append_sql(&mut out, &o.column);
            out.append(";");
        },
        None => {
            out.append(" OWNED BY NONE;");
        },
    }
    out
}

} // verus!
