//! SQL for subscriptions.

use crate::identifier::{name_sql, Identifier};
use crate::ir::replication::{Subscription, SubscriptionOptions};
use crate::plan::rewrite::reloptions::{push_flag, with_flag};
use crate::text::{
    append_literal_body, append_sql, append_sql_list, doubled, finish_comment, join, joined,
    opt_str, prefixed, sqls, texts, with_comment, ToSql,
};
use vstd::prelude::*;
use vstd::string::*;

verus! {

/// The slot name's setting, where it is set.
pub open spec fn with_slot(list: Seq<Seq<char>>, slot: Option<String>) -> Seq<Seq<char>> {
    match slot {
        Some(name) => list.push("slot_name = '"@ + doubled(name@, '\'') + "'"@),
        None => list,
    }
}

fn push_slot(list: &mut Vec<String>, slot: &Option<String>)
    ensures
        texts(final(list)@) == with_slot(texts(old(list)@), *slot),
{
    let ghost before = texts(list@);
    match slot {
        Some(name) => {
            let mut text = "slot_name = '".to_owned();
            append_literal_body(&mut text, name.as_str());
            text.append("'");
            list.push(text);
            assert(texts(list@) =~= before.push(text@));
        },
        None => {},
    }
}

/// The options that are set.
pub open spec fn subscription_options(o: SubscriptionOptions) -> Seq<Seq<char>> {
    with_flag(
        with_flag(
            with_slot(
                with_flag(
                    with_flag(Seq::empty(), "enabled"@, o.enabled),
                    "create_slot"@,
                    o.create_slot,
                ),
                o.slot_name,
            ),
            "copy_data"@,
            o.copy_data,
        ),
        "binary"@,
        o.binary,
    )
}

fn render_options(o: &SubscriptionOptions) -> (list: Vec<String>)
    ensures
        texts(list@) == subscription_options(*o),
{
    let mut list: Vec<String> = Vec::new();
    assert(texts(list@) =~= Seq::empty());
    push_flag(&mut list, "enabled", o.enabled);
    push_flag(&mut list, "create_slot", o.create_slot);
    push_slot(&mut list, &o.slot_name);
    push_flag(&mut list, "copy_data", o.copy_data);
    push_flag(&mut list, "binary", o.binary);
    list
}

/// `CREATE SUBSCRIPTION name CONNECTION '...' PUBLICATION p, q [WITH (...)];`
pub open spec fn create_subscription_sql(s: Subscription) -> Seq<char> {
    let a = "CREATE SUBSCRIPTION "@ + name_sql(s.name@) + " CONNECTION '"@ + doubled(
        s.connection@,
        '\'',
    ) + "' PUBLICATION "@ + joined(sqls(s.publications@), ", "@);
    let options = subscription_options(s.options);
    let b = if options.len() == 0 {
        a
    } else {
        a + " WITH ("@ + joined(options, ", "@) + ")"@
    };
    b + ";"@
}

/// `CREATE SUBSCRIPTION name CONNECTION '...' PUBLICATION p, q [WITH (...)];`
pub fn create_subscription(s: &Subscription) -> (sql: String)
    ensures
        sql@ == create_subscription_sql(*s),
{
    let mut out = prefixed("CREATE SUBSCRIPTION ", &s.name);
    out.append(" CONNECTION '");
    append_literal_body(&mut out, s.connection.as_str());
    out.append("' PUBLICATION ");
    append_sql_list(&mut out, &s.publications, ", ");
    let options = render_options(&s.options);
    assert(texts(options@).len() == options@.len());
    if options.len() > 0 {
        out.append(" WITH (");
        let list = join(&options, ", ");
        out.append(list.as_str());
        out.append(")");
    }
    out.append(";");
    out
}

/// `DROP SUBSCRIPTION name;`
pub open spec fn drop_subscription_sql(name: Identifier) -> Seq<char> {
    "DROP SUBSCRIPTION "@ + name_sql(name@) + ";"@
}

/// `DROP SUBSCRIPTION name;`
pub fn drop_subscription(name: &Identifier) -> (sql: String)
    ensures
        sql@ == drop_subscription_sql(*name),
{
    let mut out = prefixed("DROP SUBSCRIPTION ", name);
    out.append(";");
    out
}

/// `ALTER SUBSCRIPTION name CONNECTION '...';`
pub open spec fn subscription_connection_sql(name: Identifier, to: Seq<char>) -> Seq<char> {
    "ALTER SUBSCRIPTION "@ + name_sql(name@) + " CONNECTION '"@ + doubled(to, '\'') + "';"@
}

/// `ALTER SUBSCRIPTION name CONNECTION '...';`
pub fn alter_subscription_connection(name: &Identifier, to: &str) -> (sql: String)
    ensures
        sql@ == subscription_connection_sql(*name, to@),
{
    let mut out = prefixed("ALTER SUBSCRIPTION ", name);
    out.append(" CONNECTION '");
    append_literal_body(&mut out, to);
    out.append("';");
    out
}

/// `ALTER SUBSCRIPTION name ADD PUBLICATION publication;`
pub open spec fn subscription_add_sql(name: Identifier, publication: Identifier) -> Seq<char> {
    "ALTER SUBSCRIPTION "@ + name_sql(name@) + " ADD PUBLICATION "@ + name_sql(publication@)
        + ";"@
}

/// `ALTER SUBSCRIPTION name ADD PUBLICATION publication;`
pub fn alter_subscription_add_publication(
    name: &Identifier,
    publication: &Identifier,
) -> (sql: String)
    ensures
        sql@ == subscription_add_sql(*name, *publication),
{
    let mut out = prefixed("ALTER SUBSCRIPTION ", name);
    out.append(" ADD PUBLICATION ");
    append_sql(&mut out, publication);
    out.append(";");
    out
}

/// `ALTER SUBSCRIPTION name DROP PUBLICATION publication;`
pub open spec fn subscription_remove_sql(name: Identifier, publication: Identifier) -> Seq<char> {
    "ALTER SUBSCRIPTION "@ + name_sql(name@) + " DROP PUBLICATION "@ + name_sql(publication@)
        + ";"@
}

/// `ALTER SUBSCRIPTION name DROP PUBLICATION publication;`
pub fn alter_subscription_drop_publication(
    name: &Identifier,
    publication: &Identifier,
) -> (sql: String)
    ensures
        sql@ == subscription_remove_sql(*name, *publication),
{
    let mut out = prefixed("ALTER SUBSCRIPTION ", name);
    out.append(" DROP PUBLICATION ");
    append_sql(&mut out, publication);
    out.append(";");
    out
}

/// `ALTER SUBSCRIPTION name SET (options);`
pub open spec fn subscription_options_sql(name: Identifier, o: SubscriptionOptions) -> Seq<char> {
    "ALTER SUBSCRIPTION "@ + name_sql(name@) + " SET ("@ + joined(subscription_options(o), ", "@)
        + ");"@
}

/// `ALTER SUBSCRIPTION name SET (options);`
pub fn alter_subscription_set_options(
    name: &Identifier,
    options: &SubscriptionOptions,
) -> (sql: String)
    ensures
        sql@ == subscription_options_sql(*name, *options),
{
    let mut out = prefixed("ALTER SUBSCRIPTION ", name);
    out.append(" SET (");
    let list = join(&render_options(options), ", ");
    out.append(list.as_str());
    out.append(");");
    out
}

/// `COMMENT ON SUBSCRIPTION name IS ...;`
pub open spec fn comment_on_subscription_sql(
    name: Identifier,
    comment: Option<Seq<char>>,
) -> Seq<char> {
    with_comment("COMMENT ON SUBSCRIPTION "@ + name_sql(name@), comment)
}

/// `COMMENT ON SUBSCRIPTION name IS ...;`
pub fn comment_on_subscription(name: &Identifier, comment: Option<&str>) -> (sql: String)
    ensures
        sql@ == comment_on_subscription_sql(*name, opt_str(comment)),
{
    finish_comment(prefixed("COMMENT ON SUBSCRIPTION ", name), comment)
}

} // verus!
