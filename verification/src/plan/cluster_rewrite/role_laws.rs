//! What the statements on roles say, read back word by word.

use crate::diff::cluster::{ClusterChange, ClusterChangeEntry};
use crate::diff::destructiveness::Destructiveness;
use crate::identifier::{name_sql, Identifier};
use crate::ir::role::{Role, RoleAttributes};
use crate::plan::cluster_rewrite::emit::{cluster_step, cluster_steps};
use crate::plan::cluster_rewrite::sql::{
    alter_role_sql, create_role_sql, either, with_changed, with_changed_flags, with_changed_limit,
    with_changed_validity,
};
use crate::text::{decimal, doubled, joined, opt_text, sqls};
use vstd::prelude::*;

verus! {

/// The words, each behind a space.
#[verifier::opaque]
pub open spec fn spaced(words: Seq<Seq<char>>) -> Seq<char>
    decreases words.len(),
{
    if words.len() == 0 {
        Seq::empty()
    } else {
        spaced(words.drop_last()) + " "@ + words.last()
    }
}

/// Read as a list of options, the words set the attributes: a word stands
/// there exactly where its attribute is on, and its opposite exactly where the
/// attribute is off.
pub open spec fn sets_attributes(words: Seq<Seq<char>>, a: RoleAttributes) -> bool {
    &&& words.contains("SUPERUSER"@) <==> a.superuser
    &&& words.contains("NOSUPERUSER"@) <==> !a.superuser
    &&& words.contains("CREATEDB"@) <==> a.createdb
    &&& words.contains("NOCREATEDB"@) <==> !a.createdb
    &&& words.contains("CREATEROLE"@) <==> a.createrole
    &&& words.contains("NOCREATEROLE"@) <==> !a.createrole
    &&& words.contains("INHERIT"@) <==> a.inherit
    &&& words.contains("NOINHERIT"@) <==> !a.inherit
    &&& words.contains("LOGIN"@) <==> a.login
    &&& words.contains("NOLOGIN"@) <==> !a.login
    &&& words.contains("REPLICATION"@) <==> a.replication
    &&& words.contains("NOREPLICATION"@) <==> !a.replication
    &&& words.contains("BYPASSRLS"@) <==> a.bypass_rls
    &&& words.contains("NOBYPASSRLS"@) <==> !a.bypass_rls
}

/// Read as a list of options, the words turn the attributes `from` into `to`:
/// a word stands there exactly where its attribute is switched on, and its
/// opposite exactly where the attribute is switched off.
pub open spec fn switches_attributes(
    words: Seq<Seq<char>>,
    from: RoleAttributes,
    to: RoleAttributes,
) -> bool {
    &&& words.contains("SUPERUSER"@) <==> !from.superuser && to.superuser
    &&& words.contains("NOSUPERUSER"@) <==> from.superuser && !to.superuser
    &&& words.contains("CREATEDB"@) <==> !from.createdb && to.createdb
    &&& words.contains("NOCREATEDB"@) <==> from.createdb && !to.createdb
    &&& words.contains("CREATEROLE"@) <==> !from.createrole && to.createrole
    &&& words.contains("NOCREATEROLE"@) <==> from.createrole && !to.createrole
    &&& words.contains("INHERIT"@) <==> !from.inherit && to.inherit
    &&& words.contains("NOINHERIT"@) <==> from.inherit && !to.inherit
    &&& words.contains("LOGIN"@) <==> !from.login && to.login
    &&& words.contains("NOLOGIN"@) <==> from.login && !to.login
    &&& words.contains("REPLICATION"@) <==> !from.replication && to.replication
    &&& words.contains("NOREPLICATION"@) <==> from.replication && !to.replication
    &&& words.contains("BYPASSRLS"@) <==> !from.bypass_rls && to.bypass_rls
    &&& words.contains("NOBYPASSRLS"@) <==> from.bypass_rls && !to.bypass_rls
}

/// No two of the words for attributes are the same.
proof fn lemma_words_differ()
    ensures
        "SUPERUSER"@ != "NOSUPERUSER"@,
        "SUPERUSER"@ != "CREATEDB"@,
        "SUPERUSER"@ != "NOCREATEDB"@,
        "SUPERUSER"@ != "CREATEROLE"@,
        "SUPERUSER"@ != "NOCREATEROLE"@,
        "SUPERUSER"@ != "INHERIT"@,
        "SUPERUSER"@ != "NOINHERIT"@,
        "SUPERUSER"@ != "LOGIN"@,
        "SUPERUSER"@ != "NOLOGIN"@,
        "SUPERUSER"@ != "REPLICATION"@,
        "SUPERUSER"@ != "NOREPLICATION"@,
        "SUPERUSER"@ != "BYPASSRLS"@,
        "SUPERUSER"@ != "NOBYPASSRLS"@,
        "NOSUPERUSER"@ != "CREATEDB"@,
        "NOSUPERUSER"@ != "NOCREATEDB"@,
        "NOSUPERUSER"@ != "CREATEROLE"@,
        "NOSUPERUSER"@ != "NOCREATEROLE"@,
        "NOSUPERUSER"@ != "INHERIT"@,
        "NOSUPERUSER"@ != "NOINHERIT"@,
        "NOSUPERUSER"@ != "LOGIN"@,
        "NOSUPERUSER"@ != "NOLOGIN"@,
        "NOSUPERUSER"@ != "REPLICATION"@,
        "NOSUPERUSER"@ != "NOREPLICATION"@,
        "NOSUPERUSER"@ != "BYPASSRLS"@,
        "NOSUPERUSER"@ != "NOBYPASSRLS"@,
        "CREATEDB"@ != "NOCREATEDB"@,
        "CREATEDB"@ != "CREATEROLE"@,
        "CREATEDB"@ != "NOCREATEROLE"@,
        "CREATEDB"@ != "INHERIT"@,
        "CREATEDB"@ != "NOINHERIT"@,
        "CREATEDB"@ != "LOGIN"@,
        "CREATEDB"@ != "NOLOGIN"@,
        "CREATEDB"@ != "REPLICATION"@,
        "CREATEDB"@ != "NOREPLICATION"@,
        "CREATEDB"@ != "BYPASSRLS"@,
        "CREATEDB"@ != "NOBYPASSRLS"@,
        "NOCREATEDB"@ != "CREATEROLE"@,
        "NOCREATEDB"@ != "NOCREATEROLE"@,
        "NOCREATEDB"@ != "INHERIT"@,
        "NOCREATEDB"@ != "NOINHERIT"@,
        "NOCREATEDB"@ != "LOGIN"@,
        "NOCREATEDB"@ != "NOLOGIN"@,
        "NOCREATEDB"@ != "REPLICATION"@,
        "NOCREATEDB"@ != "NOREPLICATION"@,
        "NOCREATEDB"@ != "BYPASSRLS"@,
        "NOCREATEDB"@ != "NOBYPASSRLS"@,
        "CREATEROLE"@ != "NOCREATEROLE"@,
        "CREATEROLE"@ != "INHERIT"@,
        "CREATEROLE"@ != "NOINHERIT"@,
        "CREATEROLE"@ != "LOGIN"@,
        "CREATEROLE"@ != "NOLOGIN"@,
        "CREATEROLE"@ != "REPLICATION"@,
        "CREATEROLE"@ != "NOREPLICATION"@,
        "CREATEROLE"@ != "BYPASSRLS"@,
        "CREATEROLE"@ != "NOBYPASSRLS"@,
        "NOCREATEROLE"@ != "INHERIT"@,
        "NOCREATEROLE"@ != "NOINHERIT"@,
        "NOCREATEROLE"@ != "LOGIN"@,
        "NOCREATEROLE"@ != "NOLOGIN"@,
        "NOCREATEROLE"@ != "REPLICATION"@,
        "NOCREATEROLE"@ != "NOREPLICATION"@,
        "NOCREATEROLE"@ != "BYPASSRLS"@,
        "NOCREATEROLE"@ != "NOBYPASSRLS"@,
        "INHERIT"@ != "NOINHERIT"@,
        "INHERIT"@ != "LOGIN"@,
        "INHERIT"@ != "NOLOGIN"@,
        "INHERIT"@ != "REPLICATION"@,
        "INHERIT"@ != "NOREPLICATION"@,
        "INHERIT"@ != "BYPASSRLS"@,
        "INHERIT"@ != "NOBYPASSRLS"@,
        "NOINHERIT"@ != "LOGIN"@,
        "NOINHERIT"@ != "NOLOGIN"@,
        "NOINHERIT"@ != "REPLICATION"@,
        "NOINHERIT"@ != "NOREPLICATION"@,
        "NOINHERIT"@ != "BYPASSRLS"@,
        "NOINHERIT"@ != "NOBYPASSRLS"@,
        "LOGIN"@ != "NOLOGIN"@,
        "LOGIN"@ != "REPLICATION"@,
        "LOGIN"@ != "NOREPLICATION"@,
        "LOGIN"@ != "BYPASSRLS"@,
        "LOGIN"@ != "NOBYPASSRLS"@,
        "NOLOGIN"@ != "REPLICATION"@,
        "NOLOGIN"@ != "NOREPLICATION"@,
        "NOLOGIN"@ != "BYPASSRLS"@,
        "NOLOGIN"@ != "NOBYPASSRLS"@,
        "REPLICATION"@ != "NOREPLICATION"@,
        "REPLICATION"@ != "BYPASSRLS"@,
        "REPLICATION"@ != "NOBYPASSRLS"@,
        "NOREPLICATION"@ != "BYPASSRLS"@,
        "NOREPLICATION"@ != "NOBYPASSRLS"@,
        "BYPASSRLS"@ != "NOBYPASSRLS"@,
{
    reveal_strlit("SUPERUSER");
    reveal_strlit("NOSUPERUSER");
    reveal_strlit("CREATEDB");
    reveal_strlit("NOCREATEDB");
    reveal_strlit("CREATEROLE");
    reveal_strlit("NOCREATEROLE");
    reveal_strlit("INHERIT");
    reveal_strlit("NOINHERIT");
    reveal_strlit("LOGIN");
    reveal_strlit("NOLOGIN");
    reveal_strlit("REPLICATION");
    reveal_strlit("NOREPLICATION");
    reveal_strlit("BYPASSRLS");
    reveal_strlit("NOBYPASSRLS");
    assert("SUPERUSER"@.len() == 9);
    assert("NOSUPERUSER"@.len() == 11);
    assert("CREATEDB"@.len() == 8);
    assert("NOCREATEDB"@.len() == 10);
    assert("CREATEROLE"@.len() == 10);
    assert("NOCREATEROLE"@.len() == 12);
    assert("INHERIT"@.len() == 7);
    assert("NOINHERIT"@.len() == 9);
    assert("LOGIN"@.len() == 5);
    assert("NOLOGIN"@.len() == 7);
    assert("REPLICATION"@.len() == 11);
    assert("NOREPLICATION"@.len() == 13);
    assert("BYPASSRLS"@.len() == 9);
    assert("NOBYPASSRLS"@.len() == 11);
    assert("SUPERUSER"@[0] != "NOINHERIT"@[0]);
    assert("SUPERUSER"@[0] != "BYPASSRLS"@[0]);
    assert("NOSUPERUSER"@[0] != "REPLICATION"@[0]);
    assert("NOSUPERUSER"@[2] != "NOBYPASSRLS"@[2]);
    assert("NOCREATEDB"@[0] != "CREATEROLE"@[0]);
    assert("INHERIT"@[0] != "NOLOGIN"@[0]);
    assert("NOINHERIT"@[0] != "BYPASSRLS"@[0]);
    assert("REPLICATION"@[0] != "NOBYPASSRLS"@[0]);
}

/// The words for attributes with the space before them.
proof fn lemma_spaced_words()
    ensures
        " SUPERUSER"@ == " "@ + "SUPERUSER"@,
        " NOSUPERUSER"@ == " "@ + "NOSUPERUSER"@,
        " CREATEDB"@ == " "@ + "CREATEDB"@,
        " NOCREATEDB"@ == " "@ + "NOCREATEDB"@,
        " CREATEROLE"@ == " "@ + "CREATEROLE"@,
        " NOCREATEROLE"@ == " "@ + "NOCREATEROLE"@,
        " INHERIT"@ == " "@ + "INHERIT"@,
        " NOINHERIT"@ == " "@ + "NOINHERIT"@,
        " LOGIN"@ == " "@ + "LOGIN"@,
        " NOLOGIN"@ == " "@ + "NOLOGIN"@,
        " REPLICATION"@ == " "@ + "REPLICATION"@,
        " NOREPLICATION"@ == " "@ + "NOREPLICATION"@,
        " BYPASSRLS"@ == " "@ + "BYPASSRLS"@,
        " NOBYPASSRLS"@ == " "@ + "NOBYPASSRLS"@,
{
    reveal_strlit(" ");
    reveal_strlit("SUPERUSER");
    reveal_strlit("NOSUPERUSER");
    reveal_strlit("CREATEDB");
    reveal_strlit("NOCREATEDB");
    reveal_strlit("CREATEROLE");
    reveal_strlit("NOCREATEROLE");
    reveal_strlit("INHERIT");
    reveal_strlit("NOINHERIT");
    reveal_strlit("LOGIN");
    reveal_strlit("NOLOGIN");
    reveal_strlit("REPLICATION");
    reveal_strlit("NOREPLICATION");
    reveal_strlit("BYPASSRLS");
    reveal_strlit("NOBYPASSRLS");
    reveal_strlit(" SUPERUSER");
    reveal_strlit(" NOSUPERUSER");
    assert(" SUPERUSER"@ =~= " "@ + "SUPERUSER"@);
    assert(" NOSUPERUSER"@ =~= " "@ + "NOSUPERUSER"@);
    reveal_strlit(" CREATEDB");
    reveal_strlit(" NOCREATEDB");
    assert(" CREATEDB"@ =~= " "@ + "CREATEDB"@);
    assert(" NOCREATEDB"@ =~= " "@ + "NOCREATEDB"@);
    reveal_strlit(" CREATEROLE");
    reveal_strlit(" NOCREATEROLE");
    assert(" CREATEROLE"@ =~= " "@ + "CREATEROLE"@);
    assert(" NOCREATEROLE"@ =~= " "@ + "NOCREATEROLE"@);
    reveal_strlit(" INHERIT");
    reveal_strlit(" NOINHERIT");
    assert(" INHERIT"@ =~= " "@ + "INHERIT"@);
    assert(" NOINHERIT"@ =~= " "@ + "NOINHERIT"@);
    reveal_strlit(" LOGIN");
    reveal_strlit(" NOLOGIN");
    assert(" LOGIN"@ =~= " "@ + "LOGIN"@);
    assert(" NOLOGIN"@ =~= " "@ + "NOLOGIN"@);
    reveal_strlit(" REPLICATION");
    reveal_strlit(" NOREPLICATION");
    assert(" REPLICATION"@ =~= " "@ + "REPLICATION"@);
    assert(" NOREPLICATION"@ =~= " "@ + "NOREPLICATION"@);
    reveal_strlit(" BYPASSRLS");
    reveal_strlit(" NOBYPASSRLS");
    assert(" BYPASSRLS"@ =~= " "@ + "BYPASSRLS"@);
    assert(" NOBYPASSRLS"@ =~= " "@ + "NOBYPASSRLS"@);
}

/// The seven words that stand for the attributes of a role.
spec fn attribute_words(a: RoleAttributes) -> Seq<Seq<char>> {
    seq![
        either(a.superuser, "SUPERUSER"@, "NOSUPERUSER"@),
        either(a.createdb, "CREATEDB"@, "NOCREATEDB"@),
        either(a.createrole, "CREATEROLE"@, "NOCREATEROLE"@),
        either(a.inherit, "INHERIT"@, "NOINHERIT"@),
        either(a.login, "LOGIN"@, "NOLOGIN"@),
        either(a.replication, "REPLICATION"@, "NOREPLICATION"@),
        either(a.bypass_rls, "BYPASSRLS"@, "NOBYPASSRLS"@),
    ]
}

proof fn lemma_attribute_words(a: RoleAttributes)
    ensures
        sets_attributes(attribute_words(a), a),
{
    lemma_words_differ();
    let w = attribute_words(a);
    assert(w[0] == either(a.superuser, "SUPERUSER"@, "NOSUPERUSER"@));
    assert(w[1] == either(a.createdb, "CREATEDB"@, "NOCREATEDB"@));
    assert(w[2] == either(a.createrole, "CREATEROLE"@, "NOCREATEROLE"@));
    assert(w[3] == either(a.inherit, "INHERIT"@, "NOINHERIT"@));
    assert(w[4] == either(a.login, "LOGIN"@, "NOLOGIN"@));
    assert(w[5] == either(a.replication, "REPLICATION"@, "NOREPLICATION"@));
    assert(w[6] == either(a.bypass_rls, "BYPASSRLS"@, "NOBYPASSRLS"@));
}

proof fn lemma_spaced_none(start: Seq<char>)
    ensures
        start == start + spaced(Seq::empty()),
{
    reveal(spaced);
    assert(start =~= start + spaced(Seq::empty()));
}

proof fn lemma_spaced_one(start: Seq<char>, words: Seq<Seq<char>>, w: Seq<char>)
    ensures
        start + spaced(words) + (" "@ + w) == start + spaced(words.push(w)),
{
    reveal(spaced);
    assert(words.push(w).drop_last() =~= words);
    assert(start + spaced(words) + (" "@ + w) =~= start + spaced(words.push(w)));
}

proof fn lemma_options_are_spaced(head: Seq<char>, a: RoleAttributes)
    ensures
        head + " WITH"@ + either(a.superuser, " SUPERUSER"@, " NOSUPERUSER"@) + either(
            a.createdb,
            " CREATEDB"@,
            " NOCREATEDB"@,
        ) + either(a.createrole, " CREATEROLE"@, " NOCREATEROLE"@) + either(
            a.inherit,
            " INHERIT"@,
            " NOINHERIT"@,
        ) + either(a.login, " LOGIN"@, " NOLOGIN"@) + either(
            a.replication,
            " REPLICATION"@,
            " NOREPLICATION"@,
        ) + either(a.bypass_rls, " BYPASSRLS"@, " NOBYPASSRLS"@) == head + " WITH"@ + spaced(
            attribute_words(a),
        ),
{
    lemma_spaced_words();
    let start = head + " WITH"@;
    let w0 = Seq::<Seq<char>>::empty();
    lemma_spaced_none(start);
    let x1 = either(a.superuser, "SUPERUSER"@, "NOSUPERUSER"@);
    let w1 = w0.push(x1);
    lemma_spaced_one(start, w0, x1);
    let x2 = either(a.createdb, "CREATEDB"@, "NOCREATEDB"@);
    let w2 = w1.push(x2);
    lemma_spaced_one(start, w1, x2);
    let x3 = either(a.createrole, "CREATEROLE"@, "NOCREATEROLE"@);
    let w3 = w2.push(x3);
    lemma_spaced_one(start, w2, x3);
    let x4 = either(a.inherit, "INHERIT"@, "NOINHERIT"@);
    let w4 = w3.push(x4);
    lemma_spaced_one(start, w3, x4);
    let x5 = either(a.login, "LOGIN"@, "NOLOGIN"@);
    let w5 = w4.push(x5);
    lemma_spaced_one(start, w4, x5);
    let x6 = either(a.replication, "REPLICATION"@, "NOREPLICATION"@);
    let w6 = w5.push(x6);
    lemma_spaced_one(start, w5, x6);
    let x7 = either(a.bypass_rls, "BYPASSRLS"@, "NOBYPASSRLS"@);
    let w7 = w6.push(x7);
    lemma_spaced_one(start, w6, x7);
    assert(attribute_words(a) =~= w7);
}

/// What `CREATE ROLE` says behind the attributes: the limit of connections, the
/// end of validity and the roles it is a member of, each only where given.
pub open spec fn role_tail(role: Role) -> Seq<char> {
    (match role.attributes.connection_limit {
        Some(n) => " CONNECTION LIMIT "@ + decimal(n as int),
        None => Seq::empty(),
    }) + (match role.attributes.valid_until {
        Some(ts) => " VALID UNTIL '"@ + ts@ + "'"@,
        None => Seq::empty(),
    }) + (if role.member_of@.len() == 0 {
        Seq::empty()
    } else {
        " IN ROLE "@ + joined(sqls(role.member_of@), ", "@)
    }) + ";"@
}

/// `CREATE ROLE` names the role and then sets each of its attributes: its words
/// read back as the role's attributes.
pub proof fn law_created_roles_read_back(role: Role)
    ensures
        exists|words: Seq<Seq<char>>| #[trigger]
            sets_attributes(words, role.attributes) && words.len() == 7 && create_role_sql(role)
                == "CREATE ROLE "@ + name_sql(role.name@) + " WITH"@ + spaced(words) + role_tail(
                role,
            ),
{
    let a = role.attributes;
    let words = attribute_words(a);
    let head = "CREATE ROLE "@ + name_sql(role.name@);
    lemma_attribute_words(a);
    lemma_options_are_spaced(head, a);
    let flags = head + " WITH"@ + spaced(words);
    assert(create_role_sql(role) =~= flags + role_tail(role));
    assert(sets_attributes(words, a));
}

/// The word for one attribute that changes.
#[verifier::opaque]
spec fn changed_word(from: bool, to: bool, yes: Seq<char>, no: Seq<char>) -> Seq<Seq<char>> {
    if from == to {
        Seq::empty()
    } else {
        seq![either(to, yes, no)]
    }
}

/// The words for the attributes that change.
spec fn changed_words(from: RoleAttributes, to: RoleAttributes) -> Seq<Seq<char>> {
    Seq::empty() + changed_word(from.superuser, to.superuser, "SUPERUSER"@, "NOSUPERUSER"@)
        + changed_word(from.createdb, to.createdb, "CREATEDB"@, "NOCREATEDB"@)
        + changed_word(from.createrole, to.createrole, "CREATEROLE"@, "NOCREATEROLE"@)
        + changed_word(from.inherit, to.inherit, "INHERIT"@, "NOINHERIT"@)
        + changed_word(from.login, to.login, "LOGIN"@, "NOLOGIN"@)
        + changed_word(from.replication, to.replication, "REPLICATION"@, "NOREPLICATION"@)
        + changed_word(from.bypass_rls, to.bypass_rls, "BYPASSRLS"@, "NOBYPASSRLS"@)
}

proof fn lemma_changed_one(
    words: Seq<Seq<char>>,
    from: bool,
    to: bool,
    yes: Seq<char>,
    no: Seq<char>,
    head: Seq<char>,
)
    ensures
        with_changed(head + spaced(words), from, to, " "@ + yes, " "@ + no) == head + spaced(
            words + changed_word(from, to, yes, no),
        ),
{
    reveal(changed_word);
    let all = words + changed_word(from, to, yes, no);
    if from == to {
        assert(all =~= words);
    } else {
        let x = either(to, yes, no);
        assert(all =~= words.push(x));
        lemma_spaced_one(head, words, x);
    }
}

proof fn lemma_changed_holds(
    words: Seq<Seq<char>>,
    from: bool,
    to: bool,
    yes: Seq<char>,
    no: Seq<char>,
    w: Seq<char>,
)
    ensures
        (words + changed_word(from, to, yes, no)).contains(w) <==> words.contains(w) || (from != to
            && w == either(to, yes, no)),
{
    reveal(changed_word);
    let all = words + changed_word(from, to, yes, no);
    if from == to {
        assert(all =~= words);
    } else {
        let x = either(to, yes, no);
        assert(all =~= words.push(x));
        crate::plan::walks::lemma_push_contains(words, x, w);
    }
}

/// Which words stand for the attributes that change.
proof fn lemma_changed_words_hold(from: RoleAttributes, to: RoleAttributes, w: Seq<char>)
    ensures
        changed_words(from, to).contains(w) <==> {
            ||| from.superuser != to.superuser && w == either(to.superuser, "SUPERUSER"@, "NOSUPERUSER"@)
            ||| from.createdb != to.createdb && w == either(to.createdb, "CREATEDB"@, "NOCREATEDB"@)
            ||| from.createrole != to.createrole && w == either(to.createrole, "CREATEROLE"@, "NOCREATEROLE"@)
            ||| from.inherit != to.inherit && w == either(to.inherit, "INHERIT"@, "NOINHERIT"@)
            ||| from.login != to.login && w == either(to.login, "LOGIN"@, "NOLOGIN"@)
            ||| from.replication != to.replication && w == either(to.replication, "REPLICATION"@, "NOREPLICATION"@)
            ||| from.bypass_rls != to.bypass_rls && w == either(to.bypass_rls, "BYPASSRLS"@, "NOBYPASSRLS"@)
        },
{
    let w0 = Seq::<Seq<char>>::empty();
    let w1 = w0 + changed_word(from.superuser, to.superuser, "SUPERUSER"@, "NOSUPERUSER"@);
    lemma_changed_holds(w0, from.superuser, to.superuser, "SUPERUSER"@, "NOSUPERUSER"@, w);
    let w2 = w1 + changed_word(from.createdb, to.createdb, "CREATEDB"@, "NOCREATEDB"@);
    lemma_changed_holds(w1, from.createdb, to.createdb, "CREATEDB"@, "NOCREATEDB"@, w);
    let w3 = w2 + changed_word(from.createrole, to.createrole, "CREATEROLE"@, "NOCREATEROLE"@);
    lemma_changed_holds(w2, from.createrole, to.createrole, "CREATEROLE"@, "NOCREATEROLE"@, w);
    let w4 = w3 + changed_word(from.inherit, to.inherit, "INHERIT"@, "NOINHERIT"@);
    lemma_changed_holds(w3, from.inherit, to.inherit, "INHERIT"@, "NOINHERIT"@, w);
    let w5 = w4 + changed_word(from.login, to.login, "LOGIN"@, "NOLOGIN"@);
    lemma_changed_holds(w4, from.login, to.login, "LOGIN"@, "NOLOGIN"@, w);
    let w6 = w5 + changed_word(from.replication, to.replication, "REPLICATION"@, "NOREPLICATION"@);
    lemma_changed_holds(w5, from.replication, to.replication, "REPLICATION"@, "NOREPLICATION"@, w);
    let w7 = w6 + changed_word(from.bypass_rls, to.bypass_rls, "BYPASSRLS"@, "NOBYPASSRLS"@);
    lemma_changed_holds(w6, from.bypass_rls, to.bypass_rls, "BYPASSRLS"@, "NOBYPASSRLS"@, w);
    assert(changed_words(from, to) == w7);
}

proof fn lemma_changed_words_switch(from: RoleAttributes, to: RoleAttributes)
    ensures
        switches_attributes(changed_words(from, to), from, to),
{
    lemma_words_differ();
    lemma_changed_words_hold(from, to, "SUPERUSER"@);
    lemma_changed_words_hold(from, to, "NOSUPERUSER"@);
    lemma_changed_words_hold(from, to, "CREATEDB"@);
    lemma_changed_words_hold(from, to, "NOCREATEDB"@);
    lemma_changed_words_hold(from, to, "CREATEROLE"@);
    lemma_changed_words_hold(from, to, "NOCREATEROLE"@);
    lemma_changed_words_hold(from, to, "INHERIT"@);
    lemma_changed_words_hold(from, to, "NOINHERIT"@);
    lemma_changed_words_hold(from, to, "LOGIN"@);
    lemma_changed_words_hold(from, to, "NOLOGIN"@);
    lemma_changed_words_hold(from, to, "REPLICATION"@);
    lemma_changed_words_hold(from, to, "NOREPLICATION"@);
    lemma_changed_words_hold(from, to, "BYPASSRLS"@);
    lemma_changed_words_hold(from, to, "NOBYPASSRLS"@);
}

proof fn lemma_changed_flags(head: Seq<char>, from: RoleAttributes, to: RoleAttributes)
    ensures
        with_changed_flags(head, from, to) == head + spaced(changed_words(from, to)),
{
    lemma_spaced_words();
    let w0 = Seq::<Seq<char>>::empty();
    lemma_spaced_none(head);
    let w1 = w0 + changed_word(from.superuser, to.superuser, "SUPERUSER"@, "NOSUPERUSER"@);
    lemma_changed_one(w0, from.superuser, to.superuser, "SUPERUSER"@, "NOSUPERUSER"@, head);
    let w2 = w1 + changed_word(from.createdb, to.createdb, "CREATEDB"@, "NOCREATEDB"@);
    lemma_changed_one(w1, from.createdb, to.createdb, "CREATEDB"@, "NOCREATEDB"@, head);
    let w3 = w2 + changed_word(from.createrole, to.createrole, "CREATEROLE"@, "NOCREATEROLE"@);
    lemma_changed_one(w2, from.createrole, to.createrole, "CREATEROLE"@, "NOCREATEROLE"@, head);
    let w4 = w3 + changed_word(from.inherit, to.inherit, "INHERIT"@, "NOINHERIT"@);
    lemma_changed_one(w3, from.inherit, to.inherit, "INHERIT"@, "NOINHERIT"@, head);
    let w5 = w4 + changed_word(from.login, to.login, "LOGIN"@, "NOLOGIN"@);
    lemma_changed_one(w4, from.login, to.login, "LOGIN"@, "NOLOGIN"@, head);
    let w6 = w5 + changed_word(from.replication, to.replication, "REPLICATION"@, "NOREPLICATION"@);
    lemma_changed_one(w5, from.replication, to.replication, "REPLICATION"@, "NOREPLICATION"@, head);
    let w7 = w6 + changed_word(from.bypass_rls, to.bypass_rls, "BYPASSRLS"@, "NOBYPASSRLS"@);
    lemma_changed_one(w6, from.bypass_rls, to.bypass_rls, "BYPASSRLS"@, "NOBYPASSRLS"@, head);
    assert(changed_words(from, to) == w7);
}

/// `ALTER ROLE` names the role and then says just what changes: its words read
/// back as the switches from the old attributes to the new ones, and a limit or
/// an end of validity is given only where it differs.
pub proof fn law_altered_roles_read_back(name: Identifier, from: RoleAttributes, to: RoleAttributes)
    ensures
        exists|words: Seq<Seq<char>>| #[trigger]
            switches_attributes(words, from, to) && alter_role_sql(name, from, to)
                == "ALTER ROLE "@ + name_sql(name@) + " WITH"@ + spaced(words)
                    + (if from.connection_limit
                == to.connection_limit {
                Seq::empty()
            } else {
                " CONNECTION LIMIT "@ + decimal(
                    match to.connection_limit {
                        Some(n) => n as int,
                        None => -1,
                    },
                )
            }) + (if opt_text(from.valid_until) == opt_text(to.valid_until) {
                Seq::empty()
            } else {
                match to.valid_until {
                    Some(ts) => " VALID UNTIL '"@ + ts@ + "'"@,
                    None => " VALID UNTIL 'infinity'"@,
                }
            }) + ";"@,
{
    let head = "ALTER ROLE "@ + name_sql(name@) + " WITH"@;
    lemma_changed_flags(head, from, to);
    lemma_changed_words_switch(from, to);
    let words = changed_words(from, to);
    let a = head + spaced(words);
    let b = with_changed_limit(a, from.connection_limit, to.connection_limit);
    let c = with_changed_validity(b, from.valid_until, to.valid_until);
    assert(switches_attributes(words, from, to));
    assert(alter_role_sql(name, from, to) =~= head + spaced(words) + (if from.connection_limit
        == to.connection_limit {
        Seq::empty()
    } else {
        " CONNECTION LIMIT "@ + decimal(
            match to.connection_limit {
                Some(n) => n as int,
                None => -1,
            },
        )
    }) + (if opt_text(from.valid_until) == opt_text(to.valid_until) {
        Seq::empty()
    } else {
        match to.valid_until {
            Some(ts) => " VALID UNTIL '"@ + ts@ + "'"@,
            None => " VALID UNTIL 'infinity'"@,
        }
    }) + ";"@);
}

/// Every cluster step runs inside a transaction, is scoped to no object, and is
/// not numbered; only dropping a role is destructive, and always is.
pub proof fn law_cluster_steps_are_unscoped(entry: ClusterChangeEntry)
    requires
        entry.change is CreateRole || entry.change is DropRole || entry.change
            is AlterRoleAttributes || entry.change is GrantRoleMembership || entry.change
            is RevokeRoleMembership || entry.change is CommentOnRole,
    ensures
        cluster_step(entry).targets == Seq::<crate::identifier::QnameModel>::empty(),
        cluster_step(entry).transactional is InTransaction,
        cluster_step(entry).step_no == 0,
        cluster_step(entry).intent_id is None,
        cluster_step(entry).destructive <==> entry.change is DropRole,
        !(entry.change is DropRole) ==> cluster_step(entry).destructive_reason is None,
{
}

/// Creating and altering a role is one step with the statement that reads back.
pub proof fn law_roles_are_created_and_altered_by_their_statements(
    role: Role,
    name: Identifier,
    from: RoleAttributes,
    to: RoleAttributes,
    d: Destructiveness,
)
    ensures
        ({
            let create = cluster_step(
                ClusterChangeEntry { change: ClusterChange::CreateRole(role), destructiveness: d },
            );
            let alter = cluster_step(
                ClusterChangeEntry {
                    change: ClusterChange::AlterRoleAttributes { name, from, to },
                    destructiveness: d,
                },
            );
            &&& create.kind is CreateRole && create.sql == create_role_sql(role)
            &&& alter.kind is AlterRole && alter.sql == alter_role_sql(name, from, to)
        }),
{
}

/// Granting and revoking a membership is one step each, from the same role to
/// the same member.
pub proof fn law_memberships_are_granted_and_revoked_alike(
    member: Identifier,
    role: Identifier,
    d: Destructiveness,
)
    ensures
        ({
            let grant = cluster_step(
                ClusterChangeEntry {
                    change: ClusterChange::GrantRoleMembership { member, role },
                    destructiveness: d,
                },
            );
            let revoke = cluster_step(
                ClusterChangeEntry {
                    change: ClusterChange::RevokeRoleMembership { member, role },
                    destructiveness: d,
                },
            );
            &&& grant.kind is GrantRoleMembership && grant.sql == "GRANT "@ + name_sql(role@)
                + " TO "@ + name_sql(member@) + ";"@
            &&& revoke.kind is RevokeRoleMembership && revoke.sql == "REVOKE "@ + name_sql(role@)
                + " FROM "@ + name_sql(member@) + ";"@
        }),
{
}

/// Dropping a role, and setting or clearing its comment, is one step each, on
/// the role of that name.
pub proof fn law_roles_are_dropped_and_commented_by_name(
    name: Identifier,
    comment: Option<String>,
    d: Destructiveness,
)
    ensures
        ({
            let drop = cluster_step(
                ClusterChangeEntry { change: ClusterChange::DropRole { name }, destructiveness: d },
            );
            let note = cluster_step(
                ClusterChangeEntry {
                    change: ClusterChange::CommentOnRole { name, comment },
                    destructiveness: d,
                },
            );
            &&& drop.kind is DropRole && drop.sql == "DROP ROLE "@ + name_sql(name@) + ";"@
            &&& drop.destructive_reason == d.reason_text()
            &&& note.kind is CommentOnRole && note.sql == match comment {
                Some(text) => "COMMENT ON ROLE "@ + name_sql(name@) + " IS '"@ + doubled(
                    text@,
                    '\'',
                ) + "';"@,
                None => "COMMENT ON ROLE "@ + name_sql(name@) + " IS NULL;"@,
            }
        }),
{
}

/// Changes of the cluster become one step each, in their order.
pub proof fn law_cluster_changes_become_one_step_each(entries: Seq<ClusterChangeEntry>, i: int)
    requires
        0 <= i < entries.len(),
    ensures
        cluster_steps(entries).len() == entries.len(),
        cluster_steps(entries)[i] == cluster_step(entries[i]),
{
}

} // verus!
