use pgevolve_plan::identifier::{Identifier, QualifiedName};
use pgevolve_plan::ir::column_type::ColumnType;
use pgevolve_plan::ir::expr::NormalizedBody;
use pgevolve_plan::ir::function::{ArgMode, Estimate, Function, FunctionArg, FunctionLanguage, NormalizedArgTypes, ParallelSafety, Procedure, ReturnType, SecurityMode, TableColumn, Volatility};
use pgevolve_plan::plan::rewrite::functions::{emit_arg_list, emit_comment_on_function, emit_comment_on_procedure, emit_create_or_replace_function, emit_create_or_replace_procedure, emit_drop_function, emit_drop_procedure};
use pgevolve_plan::text::ToSql;

fn id(s: &str) -> Identifier {
    Identifier::from_unquoted(s).unwrap()
}

fn qn(schema: &str, name: &str) -> QualifiedName {
    QualifiedName::new(id(schema), id(name))
}

fn arg_types(types: Vec<ColumnType>) -> NormalizedArgTypes {
    let canonical_string = types
        .iter()
        .map(ColumnType::render_sql)
        .collect::<Vec<_>>()
        .join(",");
    let canonical_hash = blake3::hash(canonical_string.as_bytes()).into();
    NormalizedArgTypes {
        types,
        canonical_hash,
    }
}

fn minimal_function() -> Function {
    let args = vec![];
    let arg_types_normalized = NormalizedArgTypes::from_args(&args);
    Function {
        qname: qn("app", "noop"),
        args,
        arg_types_normalized,
        return_type: ReturnType::Void,
        language: FunctionLanguage::Sql,
        body: NormalizedBody::from_raw_canonical("SELECT 1".to_string()),
        body_dependencies: vec![],
        volatility: Volatility::Volatile,
        strict: false,
        security: SecurityMode::Invoker,
        parallel: ParallelSafety::Unsafe,
        leakproof: false,
        cost: None,
        rows: None,
        comment: None,
        owner: None,
        grants: vec![],
    }
}

fn minimal_procedure() -> Procedure {
    Procedure {
        qname: qn("app", "do_thing"),
        args: vec![],
        language: FunctionLanguage::PlPgSql,
        body: NormalizedBody::empty(),
        body_dependencies: vec![],
        security: SecurityMode::Invoker,
        commits_in_body: false,
        comment: None,
        owner: None,
        grants: vec![],
    }
}

// --- emit_drop_function ---

#[test]
fn emit_drop_function_basic() {
    let sql = emit_drop_function(&qn("app", "noop"), &arg_types(vec![]));
    assert_eq!(sql, "DROP FUNCTION app.noop();");
}

#[test]
fn emit_drop_function_with_overload_args() {
    let sql = emit_drop_function(
        &qn("app", "compute"),
        &arg_types(vec![ColumnType::Integer, ColumnType::Text]),
    );
    assert_eq!(sql, "DROP FUNCTION app.compute(integer, text);");
}

// --- emit_create_or_replace_function ---

#[test]
fn emit_create_or_replace_function_sql_minimal() {
    let f = minimal_function();
    let sql = emit_create_or_replace_function(&f);
    assert!(
        sql.starts_with("CREATE OR REPLACE FUNCTION app.noop()"),
        "got: {sql}"
    );
    assert!(sql.contains("LANGUAGE sql"), "got: {sql}");
    assert!(sql.contains("RETURNS void"), "got: {sql}");
    assert!(sql.contains("$pgevolve$"), "got: {sql}");
}

#[test]
fn emit_create_or_replace_function_plpgsql_with_all_attrs() {
    let args = vec![FunctionArg {
        name: Some(id("n")),
        mode: ArgMode::In,
        ty: ColumnType::Integer,
        default: None,
    }];
    let arg_types_normalized = NormalizedArgTypes::from_args(&args);
    let f = Function {
        qname: qn("app", "double"),
        args,
        arg_types_normalized,
        return_type: ReturnType::Scalar {
            ty: ColumnType::Integer,
        },
        language: FunctionLanguage::PlPgSql,
        body: NormalizedBody::from_raw_canonical("BEGIN RETURN n * 2; END".to_string()),
        body_dependencies: vec![],
        volatility: Volatility::Immutable,
        strict: true,
        security: SecurityMode::Definer,
        parallel: ParallelSafety::Safe,
        leakproof: true,
        cost: Some(Estimate { text: "100".to_string() }),
        rows: None,
        comment: None,
        owner: None,
        grants: vec![],
    };
    let sql = emit_create_or_replace_function(&f);
    assert!(sql.contains("LANGUAGE plpgsql"), "got: {sql}");
    assert!(sql.contains("IMMUTABLE"), "got: {sql}");
    assert!(sql.contains("STRICT"), "got: {sql}");
    assert!(sql.contains("SECURITY DEFINER"), "got: {sql}");
    assert!(sql.contains("PARALLEL SAFE"), "got: {sql}");
    assert!(sql.contains("LEAKPROOF"), "got: {sql}");
    assert!(sql.contains("COST"), "got: {sql}");
    assert!(sql.contains("RETURNS integer"), "got: {sql}");
    assert!(sql.contains("n integer"), "got: {sql}");
}

#[test]
fn emit_create_or_replace_function_stable_not_written_for_volatile() {
    // VOLATILE is the default and should produce no keyword.
    let f = minimal_function();
    let sql = emit_create_or_replace_function(&f);
    assert!(!sql.contains("VOLATILE"), "got: {sql}");
    assert!(!sql.contains("STABLE"), "got: {sql}");
    assert!(!sql.contains("IMMUTABLE"), "got: {sql}");
}

#[test]
fn emit_create_or_replace_function_stable_keyword() {
    let mut f = minimal_function();
    f.volatility = Volatility::Stable;
    let sql = emit_create_or_replace_function(&f);
    assert!(sql.contains("STABLE"), "got: {sql}");
}

// --- emit_comment_on_function ---

#[test]
fn emit_comment_on_function_with_args() {
    let sql = emit_comment_on_function(
        &qn("app", "compute"),
        &arg_types(vec![ColumnType::Integer]),
        Some("computes a value"),
    );
    assert_eq!(
        sql,
        "COMMENT ON FUNCTION app.compute(integer) IS 'computes a value';"
    );
}

#[test]
fn emit_comment_on_function_null_clears() {
    let sql = emit_comment_on_function(&qn("app", "noop"), &arg_types(vec![]), None);
    assert_eq!(sql, "COMMENT ON FUNCTION app.noop() IS NULL;");
}

#[test]
fn emit_comment_on_function_escapes_single_quotes() {
    let sql = emit_comment_on_function(&qn("app", "f"), &arg_types(vec![]), Some("it's cool"));
    assert!(sql.contains("'it''s cool'"), "got: {sql}");
}

// --- emit_setof_return_type ---

#[test]
fn emit_setof_return_type() {
    let mut f = minimal_function();
    f.return_type = ReturnType::SetOf {
        ty: ColumnType::Integer,
    };
    let sql = emit_create_or_replace_function(&f);
    assert!(sql.contains("RETURNS SETOF integer"), "got: {sql}");
}

// --- emit_table_return_type ---

#[test]
fn emit_table_return_type() {
    let mut f = minimal_function();
    f.return_type = ReturnType::Table {
        columns: vec![
            TableColumn {
                name: id("id"),
                ty: ColumnType::BigInt,
            },
            TableColumn {
                name: id("name"),
                ty: ColumnType::Text,
            },
        ],
    };
    let sql = emit_create_or_replace_function(&f);
    assert!(
        sql.contains("RETURNS TABLE(id bigint, name text)"),
        "got: {sql}"
    );
}

// --- emit_create_or_replace_procedure ---

#[test]
fn emit_create_or_replace_procedure_minimal() {
    let p = minimal_procedure();
    let sql = emit_create_or_replace_procedure(&p);
    assert!(
        sql.starts_with("CREATE OR REPLACE PROCEDURE app.do_thing()"),
        "got: {sql}"
    );
    assert!(sql.contains("LANGUAGE plpgsql"), "got: {sql}");
    assert!(sql.contains("$pgevolve$"), "got: {sql}");
}

#[test]
fn emit_create_or_replace_procedure_sql_language() {
    let mut p = minimal_procedure();
    p.language = FunctionLanguage::Sql;
    let sql = emit_create_or_replace_procedure(&p);
    assert!(sql.contains("LANGUAGE sql"), "got: {sql}");
}

#[test]
fn emit_create_or_replace_procedure_security_definer() {
    let mut p = minimal_procedure();
    p.security = SecurityMode::Definer;
    let sql = emit_create_or_replace_procedure(&p);
    assert!(sql.contains("SECURITY DEFINER"), "got: {sql}");
}

// --- emit_drop_procedure ---

#[test]
fn emit_drop_procedure_basic() {
    let sql = emit_drop_procedure(&qn("app", "do_thing"));
    assert_eq!(sql, "DROP PROCEDURE app.do_thing;");
}

// --- emit_comment_on_procedure ---

#[test]
fn emit_comment_on_procedure_some() {
    let sql = emit_comment_on_procedure(&qn("app", "do_thing"), Some("does the thing"));
    assert_eq!(
        sql,
        "COMMENT ON PROCEDURE app.do_thing IS 'does the thing';"
    );
}

#[test]
fn emit_comment_on_procedure_null() {
    let sql = emit_comment_on_procedure(&qn("app", "do_thing"), None);
    assert_eq!(sql, "COMMENT ON PROCEDURE app.do_thing IS NULL;");
}

#[test]
fn emit_comment_on_procedure_escapes_quotes() {
    let sql = emit_comment_on_procedure(&qn("app", "p"), Some("it's a proc"));
    assert!(sql.contains("'it''s a proc'"), "got: {sql}");
}

// --- arg modes ---

#[test]
fn emit_arg_list_with_out_and_inout_modes() {
    let args = vec![
        FunctionArg {
            name: Some(id("x")),
            mode: ArgMode::In,
            ty: ColumnType::Integer,
            default: None,
        },
        FunctionArg {
            name: Some(id("y")),
            mode: ArgMode::Out,
            ty: ColumnType::Text,
            default: None,
        },
        FunctionArg {
            name: Some(id("z")),
            mode: ArgMode::InOut,
            ty: ColumnType::BigInt,
            default: None,
        },
    ];
    let mut out = String::new();
    emit_arg_list(&args, &mut out);
    assert_eq!(out, "x integer, OUT y text, INOUT z bigint");
}

#[test]
fn emit_arg_list_variadic() {
    let args = vec![FunctionArg {
        name: Some(id("items")),
        mode: ArgMode::Variadic,
        ty: ColumnType::Text,
        default: None,
    }];
    let mut out = String::new();
    emit_arg_list(&args, &mut out);
    assert_eq!(out, "VARIADIC items text");
}
