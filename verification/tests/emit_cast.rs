use pgevolve_plan::diff::change::CastChange;
use pgevolve_plan::identifier::{Identifier, QualifiedName};
use pgevolve_plan::ir::column_type::ColumnType;
use pgevolve_plan::ir::routine_objects::{Cast, CastContext, CastMethod};
use pgevolve_plan::plan::raw_step::StepKind;
use pgevolve_plan::plan::rewrite::emit::cast::{comment_sql, create_sql, drop_sql, emit};

fn id(s: &str) -> Identifier {
    Identifier::from_unquoted(s).unwrap()
}

fn qname(schema: &str, name: &str) -> QualifiedName {
    QualifiedName::new(id(schema), id(name))
}

fn cast_function_explicit() -> Cast {
    Cast {
        source: qname("app", "my_type"),
        target: qname("pg_catalog", "text"),
        method: CastMethod::Function {
            name: qname("app", "my_type_to_text"),
            arg_types: vec![ColumnType::Integer],
        },
        context: CastContext::Explicit,
        comment: None,
    }
}

fn cast_inout_assignment() -> Cast {
    Cast {
        source: qname("app", "dom_a"),
        target: qname("app", "dom_b"),
        method: CastMethod::Inout,
        context: CastContext::Assignment,
        comment: None,
    }
}

// --- create_sql ---

#[test]
fn create_sql_with_function_explicit() {
    let cast = cast_function_explicit();
    let sql = create_sql(&cast);
    assert_eq!(
        sql,
        "CREATE CAST (app.my_type AS pg_catalog.text) WITH FUNCTION app.my_type_to_text(integer);"
    );
}

#[test]
fn create_sql_with_function_assignment() {
    let mut cast = cast_function_explicit();
    cast.context = CastContext::Assignment;
    let sql = create_sql(&cast);
    assert_eq!(
        sql,
        "CREATE CAST (app.my_type AS pg_catalog.text) WITH FUNCTION app.my_type_to_text(integer) AS ASSIGNMENT;"
    );
}

#[test]
fn create_sql_with_function_implicit() {
    let mut cast = cast_function_explicit();
    cast.context = CastContext::Implicit;
    let sql = create_sql(&cast);
    assert_eq!(
        sql,
        "CREATE CAST (app.my_type AS pg_catalog.text) WITH FUNCTION app.my_type_to_text(integer) AS IMPLICIT;"
    );
}

#[test]
fn create_sql_without_function() {
    let cast = Cast {
        source: qname("app", "type_x"),
        target: qname("app", "type_y"),
        method: CastMethod::Binary,
        context: CastContext::Explicit,
        comment: None,
    };
    let sql = create_sql(&cast);
    assert_eq!(
        sql,
        "CREATE CAST (app.type_x AS app.type_y) WITHOUT FUNCTION;"
    );
}

#[test]
fn create_sql_with_inout_assignment() {
    let cast = cast_inout_assignment();
    let sql = create_sql(&cast);
    assert_eq!(
        sql,
        "CREATE CAST (app.dom_a AS app.dom_b) WITH INOUT AS ASSIGNMENT;"
    );
}

#[test]
fn create_sql_with_inout_implicit() {
    let mut cast = cast_inout_assignment();
    cast.context = CastContext::Implicit;
    let sql = create_sql(&cast);
    assert_eq!(
        sql,
        "CREATE CAST (app.dom_a AS app.dom_b) WITH INOUT AS IMPLICIT;"
    );
}

// --- drop_sql ---

#[test]
fn cast_drop_sql_renders_correctly() {
    let sql = drop_sql(&qname("app", "my_type"), &qname("pg_catalog", "text"));
    assert_eq!(sql, "DROP CAST (app.my_type AS pg_catalog.text);");
}

// --- comment_sql ---

#[test]
fn cast_comment_sql_set() {
    let sql = comment_sql(
        &qname("app", "my_type"),
        &qname("pg_catalog", "text"),
        Some("converts my_type to text"),
    );
    assert_eq!(
        sql,
        "COMMENT ON CAST (app.my_type AS pg_catalog.text) IS 'converts my_type to text';"
    );
}

#[test]
fn cast_comment_sql_clear_is_null() {
    let sql = comment_sql(&qname("app", "my_type"), &qname("pg_catalog", "text"), None);
    assert_eq!(
        sql,
        "COMMENT ON CAST (app.my_type AS pg_catalog.text) IS NULL;"
    );
}

#[test]
fn cast_comment_sql_escapes_single_quotes() {
    let sql = comment_sql(
        &qname("app", "my_type"),
        &qname("pg_catalog", "text"),
        Some("O'Brien's cast"),
    );
    assert!(sql.contains("IS 'O''Brien''s cast'"), "got: {sql}");
}

// --- emit() integration ---

#[test]
fn cast_emit_create_simple_produces_one_step() {
    let cast = cast_function_explicit();
    let mut out = Vec::new();
    emit(CastChange::Create(cast), false, None, &mut out);
    assert_eq!(out.len(), 1);
    assert_eq!(out[0].kind, StepKind::CreateCast);
    assert!(out[0].sql.contains("CREATE CAST"));
    assert!(!out[0].destructive);
}

#[test]
fn cast_emit_create_with_comment_produces_two_steps() {
    let mut cast = cast_function_explicit();
    cast.comment = Some("a cast".to_string());
    let mut out = Vec::new();
    emit(CastChange::Create(cast), false, None, &mut out);
    assert_eq!(out.len(), 2);
    assert_eq!(out[0].kind, StepKind::CreateCast);
    assert_eq!(out[1].kind, StepKind::CommentOnCast);
    assert!(out[1].sql.contains("a cast"));
}

#[test]
fn cast_emit_drop_produces_one_step() {
    let mut out = Vec::new();
    emit(
        CastChange::Drop {
            source: qname("app", "my_type"),
            target: qname("pg_catalog", "text"),
        },
        true,
        Some("removing cast".to_string()),
        &mut out,
    );
    assert_eq!(out.len(), 1);
    assert_eq!(out[0].kind, StepKind::DropCast);
    assert!(out[0].destructive);
    assert!(out[0].sql.contains("DROP CAST"));
}

#[test]
fn emit_replace_emits_drop_then_create() {
    let from = cast_function_explicit();
    let mut to = cast_function_explicit();
    to.context = CastContext::Implicit;
    let mut out = Vec::new();
    emit(CastChange::Replace { from, to }, true, None, &mut out);
    assert!(
        out.len() >= 2,
        "expected at least 2 steps, got {}",
        out.len()
    );
    assert_eq!(out[0].kind, StepKind::DropCast);
    // Replace drop is always safe — casts carry no user data.
    assert!(!out[0].destructive);
    assert_eq!(out[1].kind, StepKind::CreateCast);
    assert!(!out[1].destructive);
    assert!(out[1].sql.contains("AS IMPLICIT"));
}

#[test]
fn cast_emit_comment_on_set_produces_one_step() {
    let mut out = Vec::new();
    emit(
        CastChange::CommentOn {
            source: qname("app", "my_type"),
            target: qname("pg_catalog", "text"),
            comment: Some("my comment".to_string()),
        },
        false,
        None,
        &mut out,
    );
    assert_eq!(out.len(), 1);
    assert_eq!(out[0].kind, StepKind::CommentOnCast);
    assert!(out[0].sql.contains("my comment"));
}

#[test]
fn cast_emit_comment_on_none_renders_is_null() {
    let mut out = Vec::new();
    emit(
        CastChange::CommentOn {
            source: qname("app", "my_type"),
            target: qname("pg_catalog", "text"),
            comment: None,
        },
        false,
        None,
        &mut out,
    );
    assert_eq!(out.len(), 1);
    assert_eq!(out[0].kind, StepKind::CommentOnCast);
    assert!(out[0].sql.contains("IS NULL"));
}
