//! SQL for publications.

use crate::identifier::{name_sql, Identifier, QualifiedName};
use crate::ir::replication::{Publication, PublicationScope, PublishKinds, PublishedTable};
use crate::text::{
    append_sql, append_sql_list, finish_comment, join, joined, opt_str, prefixed, sqls, texts,
    with_comment, SqlText, ToSql,
};
use vstd::prelude::*;
use vstd::string::*;

verus! {

impl SqlText for PublishedTable {
    /// `table [(columns)] [WHERE (filter)]`.
    open spec fn sql(&self) -> Seq<char> {
        let a = self.qname@.sql();
        let b = match self.columns {
            Some(columns) => a + " ("@ + joined(sqls(columns@), ", "@) + ")"@,
            None => a,
        };
        match self.row_filter {
            Some(e) => b + " WHERE ("@ + e@ + ")"@,
            None => b,
        }
    }
}

impl ToSql for PublishedTable {
    fn render_sql(&self) -> (text: String) {
        let mut out = self.qname.render_sql();
        match &self.columns {
            Some(columns) => {
                out.append(" (");
                append_sql_list(&mut out, columns, ", ");
                out.append(")");
            },
            None => {},
        }
        match &self.row_filter {
            Some(e) => {
                out.append(" WHERE (");
                out.append(e.canonical_text.as_str());
                out.append(")");
            },
            None => {},
        }
        out
    }
}

/// A list with one more word, where it is wanted.
pub open spec fn with_word(list: Seq<Seq<char>>, wanted: bool, word: Seq<char>) -> Seq<Seq<char>> {
    if wanted {
        list.push(word)
    } else {
        list
    }
}

fn push_word(list: &mut Vec<String>, wanted: bool, word: &str)
    ensures
        texts(final(list)@) == with_word(texts(old(list)@), wanted, word@),
{
    let ghost before = texts(list@);
    if wanted {
        list.push(word.to_owned());
        assert(texts(list@) =~= before.push(word@));
    }
}

/// The operations that are published.
pub open spec fn publish_list(kinds: PublishKinds) -> Seq<Seq<char>> {
    with_word(
        with_word(
            with_word(with_word(Seq::empty(), kinds.insert, "insert"@), kinds.update, "update"@),
            kinds.delete,
            "delete"@,
        ),
        kinds.truncate,
        "truncate"@,
    )
}

fn render_publish(kinds: PublishKinds) -> (text: String)
    ensures
        text@ == joined(publish_list(kinds), ", "@),
{
    let mut list: Vec<String> = Vec::new();
    assert(texts(list@) =~= Seq::empty());
    push_word(&mut list, kinds.insert, "insert");
    push_word(&mut list, kinds.update, "update");
    push_word(&mut list, kinds.delete, "delete");
    push_word(&mut list, kinds.truncate, "truncate");
    join(&list, ", ")
}

/// A statement with the scope of a publication.
pub open spec fn with_scope(head: Seq<char>, scope: PublicationScope) -> Seq<char> {
    match scope {
        PublicationScope::AllTables => head + " FOR ALL TABLES"@,
        PublicationScope::Selective { schemas, tables } => if schemas@.len() == 0 && tables@.len()
            == 0 {
            head
        } else if schemas@.len() == 0 {
            head + " FOR TABLE "@ + joined(sqls(tables@), ", "@)
        } else if tables@.len() == 0 {
            head + " FOR TABLES IN SCHEMA "@ + joined(sqls(schemas@), ", "@)
        } else {
            head + " FOR TABLE "@ + joined(sqls(tables@), ", "@) + ", TABLES IN SCHEMA "@ + joined(
                sqls(schemas@),
                ", "@,
            )
        },
    }
}

fn append_scope(out: &mut String, scope: &PublicationScope)
    ensures
        final(out)@ == with_scope(old(out)@, *scope),
{
    match scope {
        PublicationScope::AllTables => out.append(" FOR ALL TABLES"),
        PublicationScope::Selective { schemas, tables } => {
            if tables.len() > 0 {
                out.append(" FOR TABLE ");
                append_sql_list(out, tables, ", ");
                if schemas.len() > 0 {
                    out.append(", TABLES IN SCHEMA ");
                    append_sql_list(out, schemas, ", ");
                }
            } else if schemas.len() > 0 {
                out.append(" FOR TABLES IN SCHEMA ");
                append_sql_list(out, schemas, ", ");
            }
        },
    }
}

/// `true` or `false`.
pub open spec fn flag_text(value: bool) -> Seq<char> {
    if value {
        "true"@
    } else {
        "false"@
    }
}

/// Renders a flag.
pub fn render_flag(value: bool) -> (text: &'static str)
    ensures
        text@ == flag_text(value),
{
    if value {
        "true"
    } else {
        "false"
    }
}

/// `CREATE PUBLICATION name FOR ... WITH (publish = '...', publish_via_partition_root = ...);`
pub open spec fn create_publication_sql(p: Publication) -> Seq<char> {
    with_scope("CREATE PUBLICATION "@ + name_sql(p.name@), p.scope) + " WITH (publish = '"@
        + joined(publish_list(p.publish), ", "@) + "', publish_via_partition_root = "@ + flag_text(
        p.publish_via_partition_root,
    ) + ");"@
}

/// `CREATE PUBLICATION name FOR ... WITH (publish = '...', publish_via_partition_root = ...);`
pub fn create_publication(p: &Publication) -> (sql: String)
    ensures
        sql@ == create_publication_sql(*p),
{
    let mut out = prefixed("CREATE PUBLICATION ", &p.name);
    append_scope(&mut out, &p.scope);
    out.append(" WITH (publish = '");
    let publish = render_publish(p.publish);
    out.append(publish.as_str());
    out.append("', publish_via_partition_root = ");
    out.append(render_flag(p.publish_via_partition_root));
    out.append(");");
    out
}

/// `DROP PUBLICATION name;`
pub open spec fn drop_publication_sql(name: Identifier) -> Seq<char> {
    "DROP PUBLICATION "@ + name_sql(name@) + ";"@
}

/// `DROP PUBLICATION name;`
pub fn drop_publication(name: &Identifier) -> (sql: String)
    ensures
        sql@ == drop_publication_sql(*name),
{
    let mut out = prefixed("DROP PUBLICATION ", name);
    out.append(";");
    out
}

/// The statement that drops the old publication and the one that creates the new one.
pub fn replace_publication(from: &Publication, to: &Publication) -> (sql: (String, String))
    ensures
        sql.0@ == drop_publication_sql(from.name),
        sql.1@ == create_publication_sql(*to),
{
    (drop_publication(&from.name), create_publication(to))
}

/// `ALTER PUBLICATION name `
pub open spec fn alter_publication_head(name: Identifier) -> Seq<char> {
    "ALTER PUBLICATION "@ + name_sql(name@)
}

/// `ALTER PUBLICATION name ADD TABLE table;`
pub open spec fn publication_add_table_sql(name: Identifier, table: PublishedTable) -> Seq<char> {
    alter_publication_head(name) + " ADD TABLE "@ + table.sql() + ";"@
}

/// `ALTER PUBLICATION name ADD TABLE table;`
pub fn alter_publication_add_table(name: &Identifier, table: &PublishedTable) -> (sql: String)
    ensures
        sql@ == publication_add_table_sql(*name, *table),
{
    let mut out = prefixed("ALTER PUBLICATION ", name);
    out.append(" ADD TABLE ");
    append_sql(&mut out, table);
    out.append(";");
    out
}

/// `ALTER PUBLICATION name DROP TABLE table;`
pub open spec fn publication_drop_table_sql(name: Identifier, q: QualifiedName) -> Seq<char> {
    alter_publication_head(name) + " DROP TABLE "@ + q@.sql() + ";"@
}

/// `ALTER PUBLICATION name DROP TABLE table;`
pub fn alter_publication_drop_table(name: &Identifier, q: &QualifiedName) -> (sql: String)
    ensures
        sql@ == publication_drop_table_sql(*name, *q),
{
    let mut out = prefixed("ALTER PUBLICATION ", name);
    out.append(" DROP TABLE ");
    append_sql(&mut out, q);
    out.append(";");
    out
}

/// Changing what is published of a table drops the table and adds it again.
pub open spec fn publication_set_table_sql(name: Identifier, table: PublishedTable) -> Seq<char> {
    publication_drop_table_sql(name, table.qname) + "\n"@ + publication_add_table_sql(name, table)
}

/// Changing what is published of a table drops the table and adds it again.
pub fn alter_publication_set_table(name: &Identifier, table: &PublishedTable) -> (sql: String)
    ensures
        sql@ == publication_set_table_sql(*name, *table),
{
    let mut out = alter_publication_drop_table(name, &table.qname);
    out.append("\n");
    let add_table = alter_publication_add_table(name, table);
    out.append(add_table.as_str());
    out
}

/// `ALTER PUBLICATION name ADD TABLES IN SCHEMA schema;`
pub open spec fn publication_add_schema_sql(name: Identifier, schema: Identifier) -> Seq<char> {
    alter_publication_head(name) + " ADD TABLES IN SCHEMA "@ + name_sql(schema@) + ";"@
}

/// `ALTER PUBLICATION name ADD TABLES IN SCHEMA schema;`
pub fn alter_publication_add_schema(name: &Identifier, schema: &Identifier) -> (sql: String)
    ensures
        sql@ == publication_add_schema_sql(*name, *schema),
{
    let mut out = prefixed("ALTER PUBLICATION ", name);
    out.append(" ADD TABLES IN SCHEMA ");
    append_sql(&mut out, schema);
    out.append(";");
    out
}

/// `ALTER PUBLICATION name DROP TABLES IN SCHEMA schema;`
pub open spec fn publication_drop_schema_sql(name: Identifier, schema: Identifier) -> Seq<char> {
    alter_publication_head(name) + " DROP TABLES IN SCHEMA "@ + name_sql(schema@) + ";"@
}

/// `ALTER PUBLICATION name DROP TABLES IN SCHEMA schema;`
pub fn alter_publication_drop_schema(name: &Identifier, schema: &Identifier) -> (sql: String)
    ensures
        sql@ == publication_drop_schema_sql(*name, *schema),
{
    let mut out = prefixed("ALTER PUBLICATION ", name);
    out.append(" DROP TABLES IN SCHEMA ");
    append_sql(&mut out, schema);
    out.append(";");
    out
}

/// `ALTER PUBLICATION name SET (publish = '...');`
pub open spec fn publication_set_publish_sql(name: Identifier, kinds: PublishKinds) -> Seq<char> {
    alter_publication_head(name) + " SET (publish = '"@ + joined(publish_list(kinds), ", "@)
        + "');"@
}

/// `ALTER PUBLICATION name SET (publish = '...');`
pub fn alter_publication_set_publish(name: &Identifier, kinds: PublishKinds) -> (sql: String)
    ensures
        sql@ == publication_set_publish_sql(*name, kinds),
{
    let mut out = prefixed("ALTER PUBLICATION ", name);
    out.append(" SET (publish = '");
    let publish = render_publish(kinds);
    out.append(publish.as_str());
    out.append("');");
    out
}

/// `ALTER PUBLICATION name SET (publish_via_partition_root = ...);`
pub open spec fn publication_via_root_sql(name: Identifier, value: bool) -> Seq<char> {
    alter_publication_head(name) + " SET (publish_via_partition_root = "@ + flag_text(value)
        + ");"@
}

/// `ALTER PUBLICATION name SET (publish_via_partition_root = ...);`
pub fn alter_publication_set_via_root(name: &Identifier, value: bool) -> (sql: String)
    ensures
        sql@ == publication_via_root_sql(*name, value),
{
    let mut out = prefixed("ALTER PUBLICATION ", name);
    out.append(" SET (publish_via_partition_root = ");
    out.append(render_flag(value));
    out.append(");");
    out
}

/// `COMMENT ON PUBLICATION name IS ...;`
pub open spec fn comment_on_publication_sql(
    name: Identifier,
    comment: Option<Seq<char>>,
) -> Seq<char> {
    with_comment("COMMENT ON PUBLICATION "@ + name_sql(name@), comment)
}

/// `COMMENT ON PUBLICATION name IS ...;`
pub fn comment_on_publication(name: &Identifier, comment: Option<&str>) -> (sql: String)
    ensures
        sql@ == comment_on_publication_sql(*name, opt_str(comment)),
{
    finish_comment(prefixed("COMMENT ON PUBLICATION ", name), comment)
}

} // verus!
