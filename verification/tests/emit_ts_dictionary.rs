use pgevolve_plan::diff::change::TsDictionaryChange;
use pgevolve_plan::identifier::{Identifier, QualifiedName};
use pgevolve_plan::ir::text_search::TsDictionary;
use pgevolve_plan::plan::raw_step::StepKind;
use pgevolve_plan::plan::rewrite::emit::ts_dictionary::{alter_options_sql, alter_owner_sql, comment_sql, create_sql, drop_sql, emit};

fn id(s: &str) -> Identifier {
    Identifier::from_unquoted(s).unwrap()
}

fn qname(schema: &str, name: &str) -> QualifiedName {
    QualifiedName::new(id(schema), id(name))
}

/// A `public.english_stem` dictionary using the `pg_catalog.snowball` template
/// with no options, owner, or comment.
fn make_dict() -> TsDictionary {
    TsDictionary {
        qname: qname("public", "english_stem"),
        template: qname("pg_catalog", "snowball"),
        options: vec![],
        owner: None,
        comment: None,
    }
}

// --- create_sql ---

#[test]
fn create_sql_template_only() {
    let dict = make_dict();
    let sql = create_sql(&dict);
    assert_eq!(
        sql,
        "CREATE TEXT SEARCH DICTIONARY public.english_stem (TEMPLATE = pg_catalog.snowball);"
    );
}

#[test]
fn create_sql_with_two_options() {
    let mut dict = make_dict();
    dict.options = vec![
        ("language".to_string(), "english".to_string()),
        ("stopwords".to_string(), "english".to_string()),
    ];
    let sql = create_sql(&dict);
    assert_eq!(
        sql,
        "CREATE TEXT SEARCH DICTIONARY public.english_stem \
         (TEMPLATE = pg_catalog.snowball, language = 'english', stopwords = 'english');"
    );
}

#[test]
fn create_sql_option_value_escapes_single_quote() {
    let mut dict = make_dict();
    dict.options = vec![("stopwords".to_string(), "O'Brien".to_string())];
    let sql = create_sql(&dict);
    assert!(sql.contains("stopwords = 'O''Brien'"), "got: {sql}");
}

// --- emit: create with owner and comment produces 3 steps ---

#[test]
fn emit_create_owner_comment_produces_three_steps() {
    let mut dict = make_dict();
    dict.owner = Some(id("app_owner"));
    dict.comment = Some("English snowball stemmer.".to_string());
    let mut out = Vec::new();
    emit(TsDictionaryChange::Create(dict), false, None, &mut out);
    assert_eq!(out.len(), 3);
    assert_eq!(out[0].kind, StepKind::CreateTsDictionary);
    assert!(out[0].sql.starts_with("CREATE TEXT SEARCH DICTIONARY"));
    assert_eq!(out[1].kind, StepKind::AlterTsDictionaryOwner);
    assert!(out[1].sql.contains("OWNER TO app_owner"));
    assert_eq!(out[2].kind, StepKind::CommentOnTsDictionary);
    assert!(out[2].sql.contains("English snowball stemmer"));
}

// --- emit: create without owner/comment produces 1 step ---

#[test]
fn ts_dictionary_emit_create_simple_produces_one_step() {
    let dict = make_dict();
    let mut out = Vec::new();
    emit(TsDictionaryChange::Create(dict), false, None, &mut out);
    assert_eq!(out.len(), 1);
    assert_eq!(out[0].kind, StepKind::CreateTsDictionary);
    assert!(!out[0].destructive);
}

// --- alter_options_sql ---

#[test]
fn alter_options_sql_two_options() {
    let sql = alter_options_sql(
        &qname("public", "english_stem"),
        &vec![
            ("language".to_string(), "english".to_string()),
            ("stopwords".to_string(), "english".to_string()),
        ],
    );
    assert_eq!(
        sql,
        "ALTER TEXT SEARCH DICTIONARY public.english_stem \
         (language = 'english', stopwords = 'english');"
    );
}

#[test]
fn alter_options_sql_escapes_single_quote() {
    let sql = alter_options_sql(
        &qname("public", "english_stem"),
        &vec![("stopwords".to_string(), "O'Brien".to_string())],
    );
    assert!(sql.contains("stopwords = 'O''Brien'"), "got: {sql}");
}

// --- emit: AlterOptions ---

#[test]
fn emit_alter_options_produces_one_step() {
    let mut out = Vec::new();
    emit(
        TsDictionaryChange::AlterOptions {
            qname: qname("public", "english_stem"),
            options: vec![
                ("language".to_string(), "english".to_string()),
                ("stopwords".to_string(), "english".to_string()),
            ],
        },
        false,
        None,
        &mut out,
    );
    assert_eq!(out.len(), 1);
    assert_eq!(out[0].kind, StepKind::AlterTsDictionary);
    assert!(
        out[0].sql.contains("language = 'english'"),
        "got: {}",
        out[0].sql
    );
}

// --- drop_sql ---

#[test]
fn ts_dictionary_drop_sql_renders_correctly() {
    let sql = drop_sql(&qname("public", "english_stem"));
    assert_eq!(sql, "DROP TEXT SEARCH DICTIONARY public.english_stem;");
}

// --- emit: Drop ---

#[test]
fn ts_dictionary_emit_drop_produces_one_step() {
    let mut out = Vec::new();
    emit(
        TsDictionaryChange::Drop {
            qname: qname("public", "english_stem"),
        },
        true,
        Some("removing dictionary".to_string()),
        &mut out,
    );
    assert_eq!(out.len(), 1);
    assert_eq!(out[0].kind, StepKind::DropTsDictionary);
    assert!(out[0].destructive);
    assert!(out[0].sql.contains("DROP TEXT SEARCH DICTIONARY"));
}

// --- alter_owner_sql ---

#[test]
fn ts_dictionary_alter_owner_sql_renders_correctly() {
    let sql = alter_owner_sql(&qname("public", "english_stem"), &id("app_owner"));
    assert_eq!(
        sql,
        "ALTER TEXT SEARCH DICTIONARY public.english_stem OWNER TO app_owner;"
    );
}

// --- emit: AlterOwner ---

#[test]
fn ts_dictionary_emit_alter_owner_produces_one_step() {
    let mut out = Vec::new();
    emit(
        TsDictionaryChange::AlterOwner {
            qname: qname("public", "english_stem"),
            owner: id("newrole"),
        },
        false,
        None,
        &mut out,
    );
    assert_eq!(out.len(), 1);
    assert_eq!(out[0].kind, StepKind::AlterTsDictionaryOwner);
    assert!(out[0].sql.contains("OWNER TO newrole"));
}

// --- comment_sql ---

#[test]
fn ts_dictionary_comment_sql_set() {
    let sql = comment_sql(&qname("public", "english_stem"), Some("a dict"));
    assert_eq!(
        sql,
        "COMMENT ON TEXT SEARCH DICTIONARY public.english_stem IS 'a dict';"
    );
}

#[test]
fn ts_dictionary_comment_sql_clear_is_null() {
    let sql = comment_sql(&qname("public", "english_stem"), None);
    assert_eq!(
        sql,
        "COMMENT ON TEXT SEARCH DICTIONARY public.english_stem IS NULL;"
    );
}

#[test]
fn ts_dictionary_comment_sql_escapes_single_quotes() {
    let sql = comment_sql(&qname("public", "english_stem"), Some("O'Brien dict"));
    assert!(sql.contains("IS 'O''Brien dict'"), "got: {sql}");
}

// --- emit: CommentOn (set and NULL) ---

#[test]
fn ts_dictionary_emit_comment_on_set_produces_one_step() {
    let mut out = Vec::new();
    emit(
        TsDictionaryChange::CommentOn {
            qname: qname("public", "english_stem"),
            comment: Some("my comment".to_string()),
        },
        false,
        None,
        &mut out,
    );
    assert_eq!(out.len(), 1);
    assert_eq!(out[0].kind, StepKind::CommentOnTsDictionary);
    assert!(out[0].sql.contains("my comment"));
}

#[test]
fn ts_dictionary_emit_comment_on_none_renders_is_null() {
    let mut out = Vec::new();
    emit(
        TsDictionaryChange::CommentOn {
            qname: qname("public", "english_stem"),
            comment: None,
        },
        false,
        None,
        &mut out,
    );
    assert_eq!(out.len(), 1);
    assert_eq!(out[0].kind, StepKind::CommentOnTsDictionary);
    assert!(out[0].sql.contains("IS NULL"));
}

// --- emit: Replace = drop then create ---

#[test]
fn emit_replace_first_step_is_drop_second_is_create() {
    let from = make_dict();
    let mut to = make_dict();
    to.template = qname("pg_catalog", "ispell");
    let mut out = Vec::new();
    emit(
        TsDictionaryChange::Replace { from, to },
        true,
        None,
        &mut out,
    );
    assert!(
        out.len() >= 2,
        "expected at least 2 steps, got {}",
        out.len()
    );
    assert_eq!(out[0].kind, StepKind::DropTsDictionary);
    // Dictionaries carry no data: the drop in a Replace is always safe.
    assert!(!out[0].destructive);
    assert_eq!(out[1].kind, StepKind::CreateTsDictionary);
    assert!(!out[1].destructive);
}

#[test]
fn ts_dictionary_emit_create_is_safe_whatever_the_flag() {
    let mut out = Vec::new();
    emit(
        TsDictionaryChange::Create(make_dict()),
        true,
        Some("r".to_string()),
        &mut out,
    );
    assert_eq!(out.len(), 1);
    assert!(!out[0].destructive);
    assert_eq!(out[0].destructive_reason, None);
}
