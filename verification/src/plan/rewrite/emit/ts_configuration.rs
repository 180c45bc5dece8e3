//! Steps for text search configurations. The parser cannot be altered in
//! place, so replacing one is a drop and a create. No data is lost by it:
//! every step is safe but a drop that is flagged as needing approval.

use crate::diff::change::TsConfigurationChange;
use crate::identifier::{name_sql, read_unquoted, Identifier, QualifiedName};
use crate::ir::text_search::{TsConfiguration, TsMapping};
use crate::model::models;
use crate::plan::raw_step::{
    gated_step, one_target, push_gated, push_safe, safe_step, RawStep, StepKind, StepModel,
};
use crate::text::{
    append_sql, append_sql_list, as_deref, finish_comment, joined, opt_str, opt_text, prefixed,
    sqls, with_comment, ToSql,
};
use vstd::prelude::*;
use vstd::string::*;

verus! {

/// `CREATE TEXT SEARCH CONFIGURATION name (PARSER = parser);`
pub open spec fn create_text(cfg: TsConfiguration) -> Seq<char> {
    "CREATE TEXT SEARCH CONFIGURATION "@ + cfg.qname@.sql() + " (PARSER = "@ + cfg.parser@.sql()
        + ");"@
}

/// `CREATE TEXT SEARCH CONFIGURATION name (PARSER = parser);`
pub fn create_sql(cfg: &TsConfiguration) -> (sql: String)
    ensures
        sql@ == create_text(*cfg),
{
    let mut out = prefixed("CREATE TEXT SEARCH CONFIGURATION ", &cfg.qname);
    out.append(" (PARSER = ");
    append_sql(&mut out, &cfg.parser);
    out.append(");");
    out
}

/// A token type as an identifier; one that is not an unquoted identifier
/// stands as it is.
pub open spec fn token_text(token_type: Seq<char>) -> Seq<char> {
    match read_unquoted(token_type) {
        Ok(name) => name_sql(name),
        Err(_) => token_type,
    }
}

fn render_token_type(token_type: &str) -> (text: String)
    ensures
        text@ == token_text(token_type@),
{
    match Identifier::from_unquoted(token_type) {
        Ok(name) => name.render_sql(),
        Err(_) => token_type.to_owned(),
    }
}

/// `ALTER TEXT SEARCH CONFIGURATION name <verb> MAPPING FOR token WITH dictionaries;`
pub open spec fn mapping_text(
    q: QualifiedName,
    verb: Seq<char>,
    token_type: Seq<char>,
    dictionaries: Seq<QualifiedName>,
) -> Seq<char> {
    "ALTER TEXT SEARCH CONFIGURATION "@ + q@.sql() + verb + token_text(token_type) + " WITH "@
        + joined(sqls(dictionaries), ", "@) + ";"@
}

fn render_mapping(
    q: &QualifiedName,
    verb: &str,
    token_type: &str,
    dictionaries: &Vec<QualifiedName>,
) -> (sql: String)
    ensures
        sql@ == mapping_text(*q, verb@, token_type@, dictionaries@),
{
    let mut out = prefixed("ALTER TEXT SEARCH CONFIGURATION ", q);
    out.append(verb);
    let token = render_token_type(token_type);
    out.append(token.as_str());
    out.append(" WITH ");
    append_sql_list(&mut out, dictionaries, ", ");
    out.append(";");
    out
}

/// `ALTER TEXT SEARCH CONFIGURATION name ADD MAPPING FOR token WITH dictionaries;`
pub open spec fn add_mapping_text(
    q: QualifiedName,
    token_type: Seq<char>,
    dictionaries: Seq<QualifiedName>,
) -> Seq<char> {
    mapping_text(q, " ADD MAPPING FOR "@, token_type, dictionaries)
}

/// `ALTER TEXT SEARCH CONFIGURATION name ADD MAPPING FOR token WITH dictionaries;`
pub fn add_mapping_sql(
    q: &QualifiedName,
    token_type: &str,
    dictionaries: &Vec<QualifiedName>,
) -> (sql: String)
    ensures
        sql@ == add_mapping_text(*q, token_type@, dictionaries@),
{
    render_mapping(q, " ADD MAPPING FOR ", token_type, dictionaries)
}

/// `ALTER TEXT SEARCH CONFIGURATION name ALTER MAPPING FOR token WITH dictionaries;`
pub open spec fn alter_mapping_text(
    q: QualifiedName,
    token_type: Seq<char>,
    dictionaries: Seq<QualifiedName>,
) -> Seq<char> {
    mapping_text(q, " ALTER MAPPING FOR "@, token_type, dictionaries)
}

/// `ALTER TEXT SEARCH CONFIGURATION name ALTER MAPPING FOR token WITH dictionaries;`
pub fn alter_mapping_sql(
    q: &QualifiedName,
    token_type: &str,
    dictionaries: &Vec<QualifiedName>,
) -> (sql: String)
    ensures
        sql@ == alter_mapping_text(*q, token_type@, dictionaries@),
{
    render_mapping(q, " ALTER MAPPING FOR ", token_type, dictionaries)
}

/// `ALTER TEXT SEARCH CONFIGURATION name DROP MAPPING IF EXISTS FOR token;`
pub open spec fn drop_mapping_text(q: QualifiedName, token_type: Seq<char>) -> Seq<char> {
    "ALTER TEXT SEARCH CONFIGURATION "@ + q@.sql() + " DROP MAPPING IF EXISTS FOR "@ + token_text(
        token_type,
    ) + ";"@
}

/// `ALTER TEXT SEARCH CONFIGURATION name DROP MAPPING IF EXISTS FOR token;`
pub fn drop_mapping_sql(q: &QualifiedName, token_type: &str) -> (sql: String)
    ensures
        sql@ == drop_mapping_text(*q, token_type@),
{
    let mut out = prefixed("ALTER TEXT SEARCH CONFIGURATION ", q);
    out.append(" DROP MAPPING IF EXISTS FOR ");
    let token = render_token_type(token_type);
    out.append(token.as_str());
    out.append(";");
    out
}

/// `DROP TEXT SEARCH CONFIGURATION name;`
pub open spec fn drop_text(q: QualifiedName) -> Seq<char> {
    "DROP TEXT SEARCH CONFIGURATION "@ + q@.sql() + ";"@
}

/// `DROP TEXT SEARCH CONFIGURATION name;`
pub fn drop_sql(q: &QualifiedName) -> (sql: String)
    ensures
        sql@ == drop_text(*q),
{
    let mut out = prefixed("DROP TEXT SEARCH CONFIGURATION ", q);
    out.append(";");
    out
}

/// `ALTER TEXT SEARCH CONFIGURATION name OWNER TO owner;`
pub open spec fn owner_text(q: QualifiedName, owner: Identifier) -> Seq<char> {
    "ALTER TEXT SEARCH CONFIGURATION "@ + q@.sql() + " OWNER TO "@ + name_sql(owner@) + ";"@
}

/// `ALTER TEXT SEARCH CONFIGURATION name OWNER TO owner;`
pub fn alter_owner_sql(q: &QualifiedName, owner: &Identifier) -> (sql: String)
    ensures
        sql@ == owner_text(*q, *owner),
{
    let mut out = prefixed("ALTER TEXT SEARCH CONFIGURATION ", q);
    out.append(" OWNER TO ");
    append_sql(&mut out, owner);
    out.append(";");
    out
}

/// `COMMENT ON TEXT SEARCH CONFIGURATION name IS ...;`
pub open spec fn comment_text(q: QualifiedName, comment: Option<Seq<char>>) -> Seq<char> {
    with_comment("COMMENT ON TEXT SEARCH CONFIGURATION "@ + q@.sql(), comment)
}

/// `COMMENT ON TEXT SEARCH CONFIGURATION name IS '...';` or `IS NULL;`
pub fn comment_sql(q: &QualifiedName, comment: Option<&str>) -> (sql: String)
    ensures
        sql@ == comment_text(*q, opt_str(comment)),
{
    finish_comment(prefixed("COMMENT ON TEXT SEARCH CONFIGURATION ", q), comment)
}

/// One step for each mapping, in order.
pub open spec fn mapping_steps(q: QualifiedName, mappings: Seq<TsMapping>) -> Seq<StepModel> {
    mappings.map_values(
        |m: TsMapping|
            safe_step(
                StepKind::AddTsConfigMapping,
                seq![q@],
                add_mapping_text(q, m.token_type@, m.dictionaries@),
            ),
    )
}

fn push_mappings(q: &QualifiedName, mappings: &Vec<TsMapping>, out: &mut Vec<RawStep>)
    ensures
        models(final(out)@) == models(old(out)@) + mapping_steps(*q, mappings@),
{
    let ghost before = models(out@);
    let mut i: usize = 0;
    assert(models(out@) =~= before + mapping_steps(*q, mappings@.take(0)));
    while i < mappings.len()
        invariant
            i <= mappings@.len(),
            models(out@) == before + mapping_steps(*q, mappings@.take(i as int)),
        decreases mappings@.len() - i,
    {
        push_safe(
            out,
            StepKind::AddTsConfigMapping,
            one_target(q),
            add_mapping_sql(q, mappings[i].token_type.as_str(), &mappings[i].dictionaries),
        );
        assert(models(out@) =~= before + mapping_steps(*q, mappings@.take(i + 1)));
        i = i + 1;
    }
    assert(mappings@.take(mappings@.len() as int) =~= mappings@);
}

/// The steps that create a configuration: the configuration, one for each
/// mapping, its owner, its comment.
pub open spec fn create_steps(cfg: TsConfiguration) -> Seq<StepModel> {
    let a = seq![
        safe_step(StepKind::CreateTsConfiguration, seq![cfg.qname@], create_text(cfg)),
    ] + mapping_steps(cfg.qname, cfg.mappings@);
    let b = match cfg.owner {
        Some(owner) => a.push(
            safe_step(
                StepKind::AlterTsConfigurationOwner,
                seq![cfg.qname@],
                owner_text(cfg.qname, owner),
            ),
        ),
        None => a,
    };
    match cfg.comment {
        Some(comment) => b.push(
            safe_step(
                StepKind::CommentOnTsConfiguration,
                seq![cfg.qname@],
                comment_text(cfg.qname, Some(comment@)),
            ),
        ),
        None => b,
    }
}

fn emit_create(cfg: &TsConfiguration, out: &mut Vec<RawStep>)
    ensures
        models(final(out)@) == models(old(out)@) + create_steps(*cfg),
{
    let ghost before = models(out@);
    push_safe(out, StepKind::CreateTsConfiguration, one_target(&cfg.qname), create_sql(cfg));
    push_mappings(&cfg.qname, &cfg.mappings, out);
    match &cfg.owner {
        Some(owner) => {
            push_safe(
                out,
                StepKind::AlterTsConfigurationOwner,
                one_target(&cfg.qname),
                alter_owner_sql(&cfg.qname, owner),
            );
        },
        None => {},
    }
    match &cfg.comment {
        Some(comment) => {
            push_safe(
                out,
                StepKind::CommentOnTsConfiguration,
                one_target(&cfg.qname),
                comment_sql(&cfg.qname, Some(comment.as_str())),
            );
        },
        None => {},
    }
    assert(models(out@) =~= before + create_steps(*cfg));
}

/// The steps for a change of a configuration.
#[verifier::opaque]
pub open spec fn ts_configuration_steps(
    change: TsConfigurationChange,
    destructive: bool,
    reason: Option<Seq<char>>,
) -> Seq<StepModel> {
    match change {
        TsConfigurationChange::Create(cfg) => create_steps(cfg),
        TsConfigurationChange::Replace { from, to } => seq![
            safe_step(StepKind::DropTsConfiguration, seq![from.qname@], drop_text(from.qname)),
        ] + create_steps(to),
        TsConfigurationChange::Drop { qname } => seq![
            gated_step(
                StepKind::DropTsConfiguration,
                destructive,
                reason,
                seq![qname@],
                drop_text(qname),
            ),
        ],
        TsConfigurationChange::AddMapping { qname, token_type, dictionaries } => seq![
            safe_step(
                StepKind::AddTsConfigMapping,
                seq![qname@],
                add_mapping_text(qname, token_type@, dictionaries@),
            ),
        ],
        TsConfigurationChange::AlterMapping { qname, token_type, dictionaries } => seq![
            safe_step(
                StepKind::AlterTsConfigMapping,
                seq![qname@],
                alter_mapping_text(qname, token_type@, dictionaries@),
            ),
        ],
        TsConfigurationChange::DropMapping { qname, token_type } => seq![
            safe_step(
                StepKind::DropTsConfigMapping,
                seq![qname@],
                drop_mapping_text(qname, token_type@),
            ),
        ],
        TsConfigurationChange::AlterOwner { qname, owner } => seq![
            safe_step(
                StepKind::AlterTsConfigurationOwner,
                seq![qname@],
                owner_text(qname, owner),
            ),
        ],
        TsConfigurationChange::CommentOn { qname, comment } => seq![
            safe_step(
                StepKind::CommentOnTsConfiguration,
                seq![qname@],
                comment_text(qname, opt_text(comment)),
            ),
        ],
    }
}

/// Emits the steps for a change of a configuration.
pub fn emit(
    change: TsConfigurationChange,
    destructive: bool,
    destructive_reason: Option<String>,
    out: &mut Vec<RawStep>,
)
    ensures
        models(final(out)@) == models(old(out)@) + ts_configuration_steps(
            change,
            destructive,
            opt_text(destructive_reason),
        ),
{
    let ghost before = models(out@);
    match &change {
        TsConfigurationChange::Create(cfg) => {
            emit_create(cfg, out);
        },
        TsConfigurationChange::Replace { from, to } => {
            push_safe(
                out,
                StepKind::DropTsConfiguration,
                one_target(&from.qname),
                drop_sql(&from.qname),
            );
            emit_create(to, out);
        },
        TsConfigurationChange::Drop { qname } => {
            push_gated(
                out,
                StepKind::DropTsConfiguration,
                destructive,
                destructive_reason,
                one_target(qname),
                drop_sql(qname),
            );
        },
        TsConfigurationChange::AddMapping { qname, token_type, dictionaries } => {
            push_safe(
                out,
                StepKind::AddTsConfigMapping,
                one_target(qname),
                add_mapping_sql(qname, token_type.as_str(), dictionaries),
            );
        },
        TsConfigurationChange::AlterMapping { qname, token_type, dictionaries } => {
            push_safe(
                out,
                StepKind::AlterTsConfigMapping,
                one_target(qname),
                alter_mapping_sql(qname, token_type.as_str(), dictionaries),
            );
        },
        TsConfigurationChange::DropMapping { qname, token_type } => {
            push_safe(
                out,
                StepKind::DropTsConfigMapping,
                one_target(qname),
                drop_mapping_sql(qname, token_type.as_str()),
            );
        },
        TsConfigurationChange::AlterOwner { qname, owner } => {
            push_safe(
                out,
                StepKind::AlterTsConfigurationOwner,
                one_target(qname),
                alter_owner_sql(qname, owner),
            );
        },
        TsConfigurationChange::CommentOn { qname, comment } => {
            push_safe(
                out,
                StepKind::CommentOnTsConfiguration,
                one_target(qname),
                comment_sql(qname, as_deref(comment)),
            );
        },
    }
    proof {
        reveal(ts_configuration_steps);
    }
    assert(models(out@) =~= before + ts_configuration_steps(
        change,
        destructive,
        opt_text(destructive_reason),
    ));
}

} // verus!
