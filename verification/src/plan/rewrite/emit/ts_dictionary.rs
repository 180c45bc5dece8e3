//! Steps for text search dictionaries. The template cannot be altered in
//! place, so replacing one is a drop and a create. No data is lost by it:
//! every step is safe but a drop that is flagged as needing approval.

use crate::diff::change::TsDictionaryChange;
use crate::identifier::{name_sql, Identifier, QualifiedName};
use crate::ir::text_search::TsDictionary;
use crate::model::models;
use crate::plan::raw_step::{
    gated_step, one_target, push_gated, push_safe, safe_step, RawStep, StepKind, StepModel,
};
use crate::text::{
    append_literal_body, append_sql, as_deref, doubled, finish_comment, join, joined, opt_str,
    opt_text, prefixed, texts, with_comment, ToSql,
};
use vstd::prelude::*;
use vstd::string::*;

verus! {

/// `key = 'value'`.
pub open spec fn option_text(option: (String, String)) -> Seq<char> {
    option.0@ + " = '"@ + doubled(option.1@, '\'') + "'"@
}

/// The options, each as `key = 'value'`.
pub open spec fn option_texts(options: Seq<(String, String)>) -> Seq<Seq<char>> {
    options.map_values(|option: (String, String)| option_text(option))
}

fn render_options(options: &Vec<(String, String)>) -> (list: Vec<String>)
    ensures
        texts(list@) == option_texts(options@),
{
    let mut out: Vec<String> = Vec::new();
    let mut i: usize = 0;
    while i < options.len()
        invariant
            i <= options@.len(),
            texts(out@) =~= option_texts(options@).take(i as int),
        decreases options@.len() - i,
    {
        let ghost before = texts(out@);
        let mut text = options[i].0.clone();
        text.append(" = '");
        append_literal_body(&mut text, options[i].1.as_str());
        text.append("'");
        out.push(text);
        assert(texts(out@) =~= before.push(text@));
        i = i + 1;
    }
    assert(texts(out@) =~= option_texts(options@));
    out
}

/// `CREATE TEXT SEARCH DICTIONARY name (TEMPLATE = template[, key = 'value', ...]);`
pub open spec fn create_text(dict: TsDictionary) -> Seq<char> {
    let a = "CREATE TEXT SEARCH DICTIONARY "@ + dict.qname@.sql() + " (TEMPLATE = "@
        + dict.template@.sql();
    let b = if dict.options@.len() == 0 {
        a
    } else {
        a + ", "@ + joined(option_texts(dict.options@), ", "@)
    };
    b + ");"@
}

/// `CREATE TEXT SEARCH DICTIONARY name (TEMPLATE = template[, key = 'value', ...]);`
pub fn create_sql(dict: &TsDictionary) -> (sql: String)
    ensures
        sql@ == create_text(*dict),
{
    let mut out = prefixed("CREATE TEXT SEARCH DICTIONARY ", &dict.qname);
    out.append(" (TEMPLATE = ");
    append_sql(&mut out, &dict.template);
    if dict.options.len() > 0 {
        out.append(", ");
        let list = join(&render_options(&dict.options), ", ");
        out.append(list.as_str());
    }
    out.append(");");
    out
}

/// `ALTER TEXT SEARCH DICTIONARY name (key = 'value', ...);`
pub open spec fn options_text(q: QualifiedName, options: Seq<(String, String)>) -> Seq<char> {
    "ALTER TEXT SEARCH DICTIONARY "@ + q@.sql() + " ("@ + joined(option_texts(options), ", "@)
        + ");"@
}

/// `ALTER TEXT SEARCH DICTIONARY name (key = 'value', ...);`
pub fn alter_options_sql(q: &QualifiedName, options: &Vec<(String, String)>) -> (sql: String)
    ensures
        sql@ == options_text(*q, options@),
{
    let mut out = prefixed("ALTER TEXT SEARCH DICTIONARY ", q);
    out.append(" (");
    let list = join(&render_options(options), ", ");
    out.append(list.as_str());
    out.append(");");
    out
}

/// `DROP TEXT SEARCH DICTIONARY name;`
pub open spec fn drop_text(q: QualifiedName) -> Seq<char> {
    "DROP TEXT SEARCH DICTIONARY "@ + q@.sql() + ";"@
}

/// `DROP TEXT SEARCH DICTIONARY name;`
pub fn drop_sql(q: &QualifiedName) -> (sql: String)
    ensures
        sql@ == drop_text(*q),
{
    let mut out = prefixed("DROP TEXT SEARCH DICTIONARY ", q);
    out.append(";");
    out
}

/// `ALTER TEXT SEARCH DICTIONARY name OWNER TO owner;`
pub open spec fn owner_text(q: QualifiedName, owner: Identifier) -> Seq<char> {
    "ALTER TEXT SEARCH DICTIONARY "@ + q@.sql() + " OWNER TO "@ + name_sql(owner@) + ";"@
}

/// `ALTER TEXT SEARCH DICTIONARY name OWNER TO owner;`
pub fn alter_owner_sql(q: &QualifiedName, owner: &Identifier) -> (sql: String)
    ensures
        sql@ == owner_text(*q, *owner),
{
    let mut out = prefixed("ALTER TEXT SEARCH DICTIONARY ", q);
    out.append(" OWNER TO ");
    append_sql(&mut out, owner);
    out.append(";");
    out
}

/// `COMMENT ON TEXT SEARCH DICTIONARY name IS ...;`
pub open spec fn comment_text(q: QualifiedName, comment: Option<Seq<char>>) -> Seq<char> {
    with_comment("COMMENT ON TEXT SEARCH DICTIONARY "@ + q@.sql(), comment)
}

/// `COMMENT ON TEXT SEARCH DICTIONARY name IS '...';` or `IS NULL;`
pub fn comment_sql(q: &QualifiedName, comment: Option<&str>) -> (sql: String)
    ensures
        sql@ == comment_text(*q, opt_str(comment)),
{
    finish_comment(prefixed("COMMENT ON TEXT SEARCH DICTIONARY ", q), comment)
}

/// The steps that create a dictionary: the dictionary, its owner, its comment.
pub open spec fn create_steps(dict: TsDictionary) -> Seq<StepModel> {
    let a = seq![
        safe_step(StepKind::CreateTsDictionary, seq![dict.qname@], create_text(dict)),
    ];
    let b = match dict.owner {
        Some(owner) => a.push(
            safe_step(
                StepKind::AlterTsDictionaryOwner,
                seq![dict.qname@],
                owner_text(dict.qname, owner),
            ),
        ),
        None => a,
    };
    match dict.comment {
        Some(comment) => b.push(
            safe_step(
                StepKind::CommentOnTsDictionary,
                seq![dict.qname@],
                comment_text(dict.qname, Some(comment@)),
            ),
        ),
        None => b,
    }
}

fn emit_create(dict: &TsDictionary, out: &mut Vec<RawStep>)
    ensures
        models(final(out)@) == models(old(out)@) + create_steps(*dict),
{
    let ghost before = models(out@);
    push_safe(out, StepKind::CreateTsDictionary, one_target(&dict.qname), create_sql(dict));
    match &dict.owner {
        Some(owner) => {
            push_safe(
                out,
                StepKind::AlterTsDictionaryOwner,
                one_target(&dict.qname),
                alter_owner_sql(&dict.qname, owner),
            );
        },
        None => {},
    }
    match &dict.comment {
        Some(comment) => {
            push_safe(
                out,
                StepKind::CommentOnTsDictionary,
                one_target(&dict.qname),
                comment_sql(&dict.qname, Some(comment.as_str())),
            );
        },
        None => {},
    }
    assert(models(out@) =~= before + create_steps(*dict));
}

/// The steps for a change of a dictionary.
#[verifier::opaque]
pub open spec fn ts_dictionary_steps(
    change: TsDictionaryChange,
    destructive: bool,
    reason: Option<Seq<char>>,
) -> Seq<StepModel> {
    match change {
        TsDictionaryChange::Create(d) => create_steps(d),
        TsDictionaryChange::Replace { from, to } => seq![
            safe_step(StepKind::DropTsDictionary, seq![from.qname@], drop_text(from.qname)),
        ] + create_steps(to),
        TsDictionaryChange::Drop { qname } => seq![
            gated_step(
                StepKind::DropTsDictionary,
                destructive,
                reason,
                seq![qname@],
                drop_text(qname),
            ),
        ],
        TsDictionaryChange::AlterOptions { qname, options } => seq![
            safe_step(StepKind::AlterTsDictionary, seq![qname@], options_text(qname, options@)),
        ],
        TsDictionaryChange::AlterOwner { qname, owner } => seq![
            safe_step(StepKind::AlterTsDictionaryOwner, seq![qname@], owner_text(qname, owner)),
        ],
        TsDictionaryChange::CommentOn { qname, comment } => seq![
            safe_step(
                StepKind::CommentOnTsDictionary,
                seq![qname@],
                comment_text(qname, opt_text(comment)),
            ),
        ],
    }
}

/// Emits the steps for a change of a dictionary.
pub fn emit(
    change: TsDictionaryChange,
    destructive: bool,
    destructive_reason: Option<String>,
    out: &mut Vec<RawStep>,
)
    ensures
        models(final(out)@) == models(old(out)@) + ts_dictionary_steps(
            change,
            destructive,
            opt_text(destructive_reason),
        ),
{
    let ghost before = models(out@);
    match &change {
        TsDictionaryChange::Create(d) => {
            emit_create(d, out);
        },
        TsDictionaryChange::Replace { from, to } => {
            push_safe(
                out,
                StepKind::DropTsDictionary,
                one_target(&from.qname),
                drop_sql(&from.qname),
            );
            emit_create(to, out);
        },
        TsDictionaryChange::Drop { qname } => {
            push_gated(
                out,
                StepKind::DropTsDictionary,
                destructive,
                destructive_reason,
                one_target(qname),
                drop_sql(qname),
            );
        },
        TsDictionaryChange::AlterOptions { qname, options } => {
            push_safe(
                out,
                StepKind::AlterTsDictionary,
                one_target(qname),
                alter_options_sql(qname, options),
            );
        },
        TsDictionaryChange::AlterOwner { qname, owner } => {
            push_safe(
                out,
                StepKind::AlterTsDictionaryOwner,
                one_target(qname),
                alter_owner_sql(qname, owner),
            );
        },
        TsDictionaryChange::CommentOn { qname, comment } => {
            push_safe(
                out,
                StepKind::CommentOnTsDictionary,
                one_target(qname),
                comment_sql(qname, as_deref(comment)),
            );
        },
    }
    proof {
        reveal(ts_dictionary_steps);
    }
    assert(models(out@) =~= before + ts_dictionary_steps(
        change,
        destructive,
        opt_text(destructive_reason),
    ));
}

} // verus!
