use pgevolve_plan::diff::change::AggregateChange;
use pgevolve_plan::identifier::{Identifier, QualifiedName};
use pgevolve_plan::ir::column_type::ColumnType;
use pgevolve_plan::ir::routine_objects::Aggregate;
use pgevolve_plan::plan::raw_step::StepKind;
use pgevolve_plan::plan::rewrite::emit::aggregate::{alter_owner_sql, arg_list, comment_sql, create_sql, drop_sql, emit};

fn id(s: &str) -> Identifier {
    Identifier::from_unquoted(s).unwrap()
}

fn qname(schema: &str, name: &str) -> QualifiedName {
    QualifiedName::new(id(schema), id(name))
}

/// `app.my_sum(integer)` with `STYPE = bigint`, `SFUNC = app.sf`, no
/// finalfunc / initcond / owner / comment.
fn make_agg() -> Aggregate {
    Aggregate {
        qname: qname("app", "my_sum"),
        arg_types: vec![ColumnType::Integer],
        state_type: ColumnType::BigInt,
        sfunc: qname("app", "sf"),
        finalfunc: None,
        initcond: None,
        owner: None,
        comment: None,
    }
}

// --- create_sql ---

#[test]
fn create_sql_simple() {
    let agg = make_agg();
    let sql = create_sql(&agg);
    assert_eq!(
        sql,
        "CREATE AGGREGATE app.my_sum(integer) (SFUNC = app.sf, STYPE = bigint);"
    );
}

#[test]
fn create_sql_with_finalfunc_and_initcond() {
    let mut agg = make_agg();
    agg.finalfunc = Some(qname("app", "ff"));
    agg.initcond = Some("0".to_string());
    let sql = create_sql(&agg);
    assert_eq!(
        sql,
        "CREATE AGGREGATE app.my_sum(integer) (SFUNC = app.sf, STYPE = bigint, FINALFUNC = app.ff, INITCOND = '0');"
    );
}

#[test]
fn create_sql_initcond_escapes_single_quote() {
    let mut agg = make_agg();
    agg.initcond = Some("O'Brien".to_string());
    let sql = create_sql(&agg);
    assert!(sql.contains("INITCOND = 'O''Brien'"), "got: {sql}");
}

#[test]
fn create_sql_zero_arg_uses_star() {
    let mut agg = make_agg();
    agg.arg_types = vec![];
    let sql = create_sql(&agg);
    assert_eq!(
        sql,
        "CREATE AGGREGATE app.my_sum(*) (SFUNC = app.sf, STYPE = bigint);"
    );
}

#[test]
fn create_sql_multi_arg() {
    let mut agg = make_agg();
    agg.arg_types = vec![ColumnType::Integer, ColumnType::Text];
    let sql = create_sql(&agg);
    assert!(sql.contains("app.my_sum(integer, text)"), "got: {sql}");
}

// --- arg_list ---

#[test]
fn arg_list_empty_is_star() {
    assert_eq!(arg_list(&vec![]), "(*)");
}

#[test]
fn arg_list_single() {
    assert_eq!(arg_list(&vec![ColumnType::Integer]), "(integer)");
}

#[test]
fn arg_list_multiple() {
    assert_eq!(
        arg_list(&vec![ColumnType::Integer, ColumnType::BigInt]),
        "(integer, bigint)"
    );
}

// --- drop_sql ---

#[test]
fn aggregate_drop_sql_renders_correctly() {
    let sql = drop_sql(&qname("app", "my_sum"), &vec![ColumnType::Integer]);
    assert_eq!(sql, "DROP AGGREGATE app.my_sum(integer);");
}

// --- alter_owner_sql ---

#[test]
fn aggregate_alter_owner_renders_correctly() {
    let sql = alter_owner_sql(
        &qname("app", "my_sum"),
        &vec![ColumnType::Integer],
        &id("app_owner"),
    );
    assert_eq!(
        sql,
        "ALTER AGGREGATE app.my_sum(integer) OWNER TO app_owner;"
    );
}

// --- comment_sql ---

#[test]
fn aggregate_comment_sql_set() {
    let sql = comment_sql(
        &qname("app", "my_sum"),
        &vec![ColumnType::Integer],
        Some("a sum"),
    );
    assert_eq!(sql, "COMMENT ON AGGREGATE app.my_sum(integer) IS 'a sum';");
}

#[test]
fn aggregate_comment_sql_clear_is_null() {
    let sql = comment_sql(&qname("app", "my_sum"), &vec![ColumnType::Integer], None);
    assert_eq!(sql, "COMMENT ON AGGREGATE app.my_sum(integer) IS NULL;");
}

#[test]
fn aggregate_comment_sql_escapes_single_quotes() {
    let sql = comment_sql(
        &qname("app", "my_sum"),
        &vec![ColumnType::Integer],
        Some("O'Brien"),
    );
    assert!(sql.contains("IS 'O''Brien'"), "got: {sql}");
}

// --- emit() integration ---

#[test]
fn aggregate_emit_create_simple_produces_one_step() {
    let agg = make_agg();
    let mut out = Vec::new();
    emit(AggregateChange::Create(agg), false, None, &mut out);
    assert_eq!(out.len(), 1);
    assert_eq!(out[0].kind, StepKind::CreateAggregate);
    assert!(out[0].sql.contains("CREATE AGGREGATE"));
    assert!(!out[0].destructive);
}

#[test]
fn aggregate_emit_create_with_owner_and_comment_produces_three_steps() {
    let mut agg = make_agg();
    agg.owner = Some(id("app_owner"));
    agg.comment = Some("a sum".to_string());
    let mut out = Vec::new();
    emit(AggregateChange::Create(agg), false, None, &mut out);
    assert_eq!(out.len(), 3);
    assert_eq!(out[0].kind, StepKind::CreateAggregate);
    assert_eq!(out[1].kind, StepKind::AlterAggregateOwner);
    assert!(out[1].sql.contains("OWNER TO app_owner"));
    assert_eq!(out[2].kind, StepKind::CommentOnAggregate);
    assert!(out[2].sql.contains("a sum"));
}

#[test]
fn aggregate_emit_drop_produces_one_step() {
    let mut out = Vec::new();
    emit(
        AggregateChange::Drop {
            qname: qname("app", "my_sum"),
            arg_types: vec![ColumnType::Integer],
        },
        true,
        Some("removing aggregate".to_string()),
        &mut out,
    );
    assert_eq!(out.len(), 1);
    assert_eq!(out[0].kind, StepKind::DropAggregate);
    assert!(out[0].destructive);
    assert!(out[0].sql.contains("DROP AGGREGATE"));
}

#[test]
fn aggregate_emit_replace_first_step_is_drop() {
    let from = make_agg();
    let mut to = make_agg();
    to.state_type = ColumnType::Numeric { precision: None };
    let mut out = Vec::new();
    emit(AggregateChange::Replace { from, to }, true, None, &mut out);
    assert!(
        out.len() >= 2,
        "expected at least 2 steps, got {}",
        out.len()
    );
    assert_eq!(out[0].kind, StepKind::DropAggregate);
    // Aggregates carry no data: the drop in a Replace is always safe.
    assert!(!out[0].destructive);
    assert_eq!(out[1].kind, StepKind::CreateAggregate);
    assert!(!out[1].destructive);
}

#[test]
fn aggregate_emit_alter_owner_produces_one_step() {
    let mut out = Vec::new();
    emit(
        AggregateChange::AlterOwner {
            qname: qname("app", "my_sum"),
            arg_types: vec![ColumnType::Integer],
            owner: id("newrole"),
        },
        false,
        None,
        &mut out,
    );
    assert_eq!(out.len(), 1);
    assert_eq!(out[0].kind, StepKind::AlterAggregateOwner);
    assert!(out[0].sql.contains("OWNER TO newrole"));
}

#[test]
fn aggregate_emit_comment_on_set_produces_one_step() {
    let mut out = Vec::new();
    emit(
        AggregateChange::CommentOn {
            qname: qname("app", "my_sum"),
            arg_types: vec![ColumnType::Integer],
            comment: Some("my comment".to_string()),
        },
        false,
        None,
        &mut out,
    );
    assert_eq!(out.len(), 1);
    assert_eq!(out[0].kind, StepKind::CommentOnAggregate);
    assert!(out[0].sql.contains("my comment"));
}

#[test]
fn aggregate_emit_comment_on_none_renders_is_null() {
    let mut out = Vec::new();
    emit(
        AggregateChange::CommentOn {
            qname: qname("app", "my_sum"),
            arg_types: vec![ColumnType::Integer],
            comment: None,
        },
        false,
        None,
        &mut out,
    );
    assert_eq!(out.len(), 1);
    assert_eq!(out[0].kind, StepKind::CommentOnAggregate);
    assert!(out[0].sql.contains("IS NULL"));
}

#[test]
fn aggregate_emit_create_is_safe_whatever_the_flag() {
    let mut out = Vec::new();
    emit(
        AggregateChange::Create(make_agg()),
        true,
        Some("r".to_string()),
        &mut out,
    );
    assert_eq!(out.len(), 1);
    assert_eq!(out[0].kind, StepKind::CreateAggregate);
    assert!(!out[0].destructive);
    assert_eq!(out[0].destructive_reason, None);
    assert_eq!(
        out[0].sql,
        "CREATE AGGREGATE app.my_sum(integer) (SFUNC = app.sf, STYPE = bigint);"
    );
}
