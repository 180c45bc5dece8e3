use pgevolve_plan::diff::change::TsConfigurationChange;
use pgevolve_plan::identifier::{Identifier, QualifiedName};
use pgevolve_plan::ir::text_search::{TsConfiguration, TsMapping};
use pgevolve_plan::plan::raw_step::StepKind;
use pgevolve_plan::plan::rewrite::emit::ts_configuration::{add_mapping_sql, alter_mapping_sql, alter_owner_sql, comment_sql, create_sql, drop_mapping_sql, drop_sql, emit};

fn id(s: &str) -> Identifier {
    Identifier::from_unquoted(s).unwrap()
}

fn qname(schema: &str, name: &str) -> QualifiedName {
    QualifiedName::new(id(schema), id(name))
}

/// Minimal configuration with only a parser (no mappings, owner, or comment).
fn make_cfg() -> TsConfiguration {
    TsConfiguration {
        qname: qname("public", "english_config"),
        parser: qname("pg_catalog", "default"),
        mappings: vec![],
        owner: None,
        comment: None,
    }
}

// --- create_sql ---

#[test]
fn create_sql_parser_only() {
    let cfg = make_cfg();
    let sql = create_sql(&cfg);
    // `default` is a reserved keyword; `render_sql` quotes it.
    assert_eq!(
        sql,
        "CREATE TEXT SEARCH CONFIGURATION public.english_config \
         (PARSER = pg_catalog.\"default\");"
    );
}

// --- emit: Create with parser only => 1 step ---

#[test]
fn emit_create_parser_only_produces_one_step() {
    let cfg = make_cfg();
    let mut out = Vec::new();
    emit(TsConfigurationChange::Create(cfg), false, None, &mut out);
    assert_eq!(out.len(), 1);
    assert_eq!(out[0].kind, StepKind::CreateTsConfiguration);
    assert!(!out[0].destructive);
    assert!(
        out[0].sql.starts_with("CREATE TEXT SEARCH CONFIGURATION"),
        "got: {}",
        out[0].sql
    );
}

// --- emit: Create with parser + 2 mappings => CREATE + 2 ADD MAPPING steps ---

#[test]
fn emit_create_with_two_mappings_produces_three_steps() {
    let mut cfg = make_cfg();
    cfg.mappings = vec![
        TsMapping {
            token_type: "word".to_string(),
            dictionaries: vec![qname("public", "english_stem")],
        },
        TsMapping {
            token_type: "asciiword".to_string(),
            dictionaries: vec![qname("public", "english_stem")],
        },
    ];
    let mut out = Vec::new();
    emit(TsConfigurationChange::Create(cfg), false, None, &mut out);
    assert_eq!(out.len(), 3, "expected CREATE + 2 ADD MAPPING");
    assert_eq!(out[0].kind, StepKind::CreateTsConfiguration);
    assert!(out[0].sql.starts_with("CREATE TEXT SEARCH CONFIGURATION"));
    assert_eq!(out[1].kind, StepKind::AddTsConfigMapping);
    assert!(
        out[1].sql.contains("ADD MAPPING FOR word"),
        "step 1: {}",
        out[1].sql
    );
    assert_eq!(out[2].kind, StepKind::AddTsConfigMapping);
    assert!(
        out[2].sql.contains("ADD MAPPING FOR asciiword"),
        "step 2: {}",
        out[2].sql
    );
}

// --- emit: Create with owner + comment => CREATE + OWNER + COMMENT ---

#[test]
fn ts_configuration_emit_create_with_owner_and_comment_produces_three_steps() {
    let mut cfg = make_cfg();
    cfg.owner = Some(id("app_owner"));
    cfg.comment = Some("English config.".to_string());
    let mut out = Vec::new();
    emit(TsConfigurationChange::Create(cfg), false, None, &mut out);
    assert_eq!(out.len(), 3);
    assert_eq!(out[0].kind, StepKind::CreateTsConfiguration);
    assert_eq!(out[1].kind, StepKind::AlterTsConfigurationOwner);
    assert!(out[1].sql.contains("OWNER TO app_owner"));
    assert_eq!(out[2].kind, StepKind::CommentOnTsConfiguration);
    assert!(out[2].sql.contains("English config"));
}

// --- emit: Create with mappings + owner + comment => 5 steps ---

#[test]
fn emit_create_full_produces_correct_step_sequence() {
    let mut cfg = make_cfg();
    cfg.mappings = vec![
        TsMapping {
            token_type: "word".to_string(),
            dictionaries: vec![
                qname("public", "english_stem"),
                qname("pg_catalog", "simple"),
            ],
        },
        TsMapping {
            token_type: "asciiword".to_string(),
            dictionaries: vec![qname("public", "english_stem")],
        },
    ];
    cfg.owner = Some(id("app_owner"));
    cfg.comment = Some("Full config.".to_string());
    let mut out = Vec::new();
    emit(TsConfigurationChange::Create(cfg), false, None, &mut out);
    // CREATE + 2 ADD MAPPING + OWNER + COMMENT = 5 steps
    assert_eq!(out.len(), 5);
    assert_eq!(out[0].kind, StepKind::CreateTsConfiguration);
    assert_eq!(out[1].kind, StepKind::AddTsConfigMapping);
    assert_eq!(out[2].kind, StepKind::AddTsConfigMapping);
    assert_eq!(out[3].kind, StepKind::AlterTsConfigurationOwner);
    assert_eq!(out[4].kind, StepKind::CommentOnTsConfiguration);
}

// --- add_mapping_sql ---

#[test]
fn add_mapping_sql_single_dict() {
    let sql = add_mapping_sql(
        &qname("public", "english_config"),
        "word",
        &vec![qname("public", "english_stem")],
    );
    assert_eq!(
        sql,
        "ALTER TEXT SEARCH CONFIGURATION public.english_config \
         ADD MAPPING FOR word WITH public.english_stem;"
    );
}

#[test]
fn add_mapping_sql_multi_dict_chain() {
    let sql = add_mapping_sql(
        &qname("public", "english_config"),
        "word",
        &vec![
            qname("public", "english_stem"),
            qname("pg_catalog", "simple"),
        ],
    );
    assert_eq!(
        sql,
        "ALTER TEXT SEARCH CONFIGURATION public.english_config \
         ADD MAPPING FOR word WITH public.english_stem, pg_catalog.simple;"
    );
}

// --- alter_mapping_sql ---

#[test]
fn alter_mapping_sql_renders_correctly() {
    let sql = alter_mapping_sql(
        &qname("public", "english_config"),
        "asciiword",
        &vec![qname("public", "english_stem")],
    );
    assert_eq!(
        sql,
        "ALTER TEXT SEARCH CONFIGURATION public.english_config \
         ALTER MAPPING FOR asciiword WITH public.english_stem;"
    );
}

// --- drop_mapping_sql ---

#[test]
fn drop_mapping_sql_renders_correctly() {
    let sql = drop_mapping_sql(&qname("public", "english_config"), "numword");
    assert_eq!(
        sql,
        "ALTER TEXT SEARCH CONFIGURATION public.english_config \
         DROP MAPPING IF EXISTS FOR numword;"
    );
}

// --- drop_sql ---

#[test]
fn ts_configuration_drop_sql_renders_correctly() {
    let sql = drop_sql(&qname("public", "english_config"));
    assert_eq!(sql, "DROP TEXT SEARCH CONFIGURATION public.english_config;");
}

// --- emit: Drop ---

#[test]
fn ts_configuration_emit_drop_produces_one_step() {
    let mut out = Vec::new();
    emit(
        TsConfigurationChange::Drop {
            qname: qname("public", "english_config"),
        },
        true,
        Some("removing config".to_string()),
        &mut out,
    );
    assert_eq!(out.len(), 1);
    assert_eq!(out[0].kind, StepKind::DropTsConfiguration);
    assert!(out[0].destructive);
    assert!(out[0].sql.contains("DROP TEXT SEARCH CONFIGURATION"));
}

// --- emit: AddMapping ---

#[test]
fn emit_add_mapping_produces_one_step() {
    let mut out = Vec::new();
    emit(
        TsConfigurationChange::AddMapping {
            qname: qname("public", "english_config"),
            token_type: "word".to_string(),
            dictionaries: vec![qname("public", "english_stem")],
        },
        false,
        None,
        &mut out,
    );
    assert_eq!(out.len(), 1);
    assert_eq!(out[0].kind, StepKind::AddTsConfigMapping);
    assert!(out[0].sql.contains("ADD MAPPING FOR word"));
}

// --- emit: AlterMapping ---

#[test]
fn emit_alter_mapping_produces_one_step() {
    let mut out = Vec::new();
    emit(
        TsConfigurationChange::AlterMapping {
            qname: qname("public", "english_config"),
            token_type: "asciiword".to_string(),
            dictionaries: vec![qname("public", "english_stem")],
        },
        false,
        None,
        &mut out,
    );
    assert_eq!(out.len(), 1);
    assert_eq!(out[0].kind, StepKind::AlterTsConfigMapping);
    assert!(out[0].sql.contains("ALTER MAPPING FOR asciiword"));
}

// --- emit: DropMapping ---

#[test]
fn emit_drop_mapping_produces_one_step() {
    let mut out = Vec::new();
    emit(
        TsConfigurationChange::DropMapping {
            qname: qname("public", "english_config"),
            token_type: "numword".to_string(),
        },
        false,
        None,
        &mut out,
    );
    assert_eq!(out.len(), 1);
    assert_eq!(out[0].kind, StepKind::DropTsConfigMapping);
    assert!(out[0].sql.contains("DROP MAPPING IF EXISTS FOR numword"));
}

// --- alter_owner_sql ---

#[test]
fn ts_configuration_alter_owner_sql_renders_correctly() {
    let sql = alter_owner_sql(&qname("public", "english_config"), &id("app_owner"));
    assert_eq!(
        sql,
        "ALTER TEXT SEARCH CONFIGURATION public.english_config OWNER TO app_owner;"
    );
}

// --- emit: AlterOwner ---

#[test]
fn ts_configuration_emit_alter_owner_produces_one_step() {
    let mut out = Vec::new();
    emit(
        TsConfigurationChange::AlterOwner {
            qname: qname("public", "english_config"),
            owner: id("newrole"),
        },
        false,
        None,
        &mut out,
    );
    assert_eq!(out.len(), 1);
    assert_eq!(out[0].kind, StepKind::AlterTsConfigurationOwner);
    assert!(out[0].sql.contains("OWNER TO newrole"));
}

// --- comment_sql ---

#[test]
fn ts_configuration_comment_sql_set() {
    let sql = comment_sql(&qname("public", "english_config"), Some("a config"));
    assert_eq!(
        sql,
        "COMMENT ON TEXT SEARCH CONFIGURATION public.english_config IS 'a config';"
    );
}

#[test]
fn ts_configuration_comment_sql_clear_is_null() {
    let sql = comment_sql(&qname("public", "english_config"), None);
    assert_eq!(
        sql,
        "COMMENT ON TEXT SEARCH CONFIGURATION public.english_config IS NULL;"
    );
}

#[test]
fn ts_configuration_comment_sql_escapes_single_quotes() {
    let sql = comment_sql(&qname("public", "english_config"), Some("O'Brien config"));
    assert!(sql.contains("IS 'O''Brien config'"), "got: {sql}");
}

// --- emit: CommentOn (set and NULL) ---

#[test]
fn ts_configuration_emit_comment_on_set_produces_one_step() {
    let mut out = Vec::new();
    emit(
        TsConfigurationChange::CommentOn {
            qname: qname("public", "english_config"),
            comment: Some("my comment".to_string()),
        },
        false,
        None,
        &mut out,
    );
    assert_eq!(out.len(), 1);
    assert_eq!(out[0].kind, StepKind::CommentOnTsConfiguration);
    assert!(out[0].sql.contains("my comment"));
}

#[test]
fn ts_configuration_emit_comment_on_none_renders_is_null() {
    let mut out = Vec::new();
    emit(
        TsConfigurationChange::CommentOn {
            qname: qname("public", "english_config"),
            comment: None,
        },
        false,
        None,
        &mut out,
    );
    assert_eq!(out.len(), 1);
    assert_eq!(out[0].kind, StepKind::CommentOnTsConfiguration);
    assert!(out[0].sql.contains("IS NULL"));
}

// --- emit: Replace = drop then create + re-add mappings ---

#[test]
fn emit_replace_first_step_is_drop_then_create() {
    let from = make_cfg();
    let mut to = make_cfg();
    to.parser = qname("pg_catalog", "ngram");
    let mut out = Vec::new();
    emit(
        TsConfigurationChange::Replace { from, to },
        true,
        None,
        &mut out,
    );
    assert!(
        out.len() >= 2,
        "expected at least 2 steps, got {}",
        out.len()
    );
    assert_eq!(out[0].kind, StepKind::DropTsConfiguration);
    // Configurations carry no data: the drop in a Replace is always safe.
    assert!(!out[0].destructive);
    assert_eq!(out[1].kind, StepKind::CreateTsConfiguration);
    assert!(!out[1].destructive);
}

#[test]
fn emit_replace_re_adds_mappings_from_to() {
    let from = make_cfg();
    let mut to = make_cfg();
    to.parser = qname("pg_catalog", "ngram");
    to.mappings = vec![
        TsMapping {
            token_type: "word".to_string(),
            dictionaries: vec![qname("public", "english_stem")],
        },
        TsMapping {
            token_type: "asciiword".to_string(),
            dictionaries: vec![qname("public", "english_stem")],
        },
    ];
    let mut out = Vec::new();
    emit(
        TsConfigurationChange::Replace { from, to },
        false,
        None,
        &mut out,
    );
    // DROP + CREATE + 2 ADD MAPPING = 4 steps
    assert_eq!(
        out.len(),
        4,
        "steps: {:?}",
        out.iter().map(|s| s.kind).collect::<Vec<_>>()
    );
    assert_eq!(out[0].kind, StepKind::DropTsConfiguration);
    assert_eq!(out[1].kind, StepKind::CreateTsConfiguration);
    assert_eq!(out[2].kind, StepKind::AddTsConfigMapping);
    assert_eq!(out[3].kind, StepKind::AddTsConfigMapping);
}

#[test]
fn ts_configuration_emit_create_is_safe_whatever_the_flag() {
    let mut out = Vec::new();
    emit(
        TsConfigurationChange::Create(make_cfg()),
        true,
        Some("r".to_string()),
        &mut out,
    );
    assert_eq!(out.len(), 1);
    assert!(!out[0].destructive);
    assert_eq!(out[0].destructive_reason, None);
}
