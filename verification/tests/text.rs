use pgevolve_plan::diff::change::{Change, ChangeSet};
use pgevolve_plan::diff::destructiveness::Destructiveness;
use pgevolve_plan::identifier::{Identifier, IdentifierError, QualifiedName};
use pgevolve_plan::ir::catalog::Catalog;
use pgevolve_plan::ir::column_type::ColumnType;
use pgevolve_plan::ir::function::{ArgMode, FunctionArg, NormalizedArgTypes};
use pgevolve_plan::plan::edges::NodeId;
use pgevolve_plan::plan::error::PlanError;
use pgevolve_plan::plan::ordering::order;
use pgevolve_plan::plan::policy::PlannerPolicy;
use pgevolve_plan::plan::rewrite::sql::escape_sql_literal_body;
use pgevolve_plan::text::ToSql;

fn id(s: &str) -> Identifier {
    Identifier::from_unquoted(s).unwrap()
}

fn qn(schema: &str, name: &str) -> QualifiedName {
    QualifiedName::new(id(schema), id(name))
}

#[test]
fn identifiers_fold_and_quote() {
    assert_eq!(id("Users").as_str(), "users");
    assert_eq!(id("users").render_sql(), "users");
    assert_eq!(id("user").render_sql(), "\"user\"");
    assert_eq!(id("a$1").render_sql(), "a$1");
    assert_eq!(qn("app", "order").render_sql(), "app.\"order\"");
    assert_eq!(qn("app", "order").to_string(), "app.order");
}

#[test]
fn identifiers_that_need_quotes_are_rejected() {
    assert_eq!(Identifier::from_unquoted(""), Err(IdentifierError::Empty));
    for s in ["1a", "a b", "a.b", "\u{e4}", "$a", "a-b"] {
        assert_eq!(
            Identifier::from_unquoted(s),
            Err(IdentifierError::InvalidCharacter),
            "{s}"
        );
    }
    assert_eq!(IdentifierError::Empty.to_string(), "identifier is empty");
}

#[test]
fn quotes_in_literals_are_doubled() {
    assert_eq!(escape_sql_literal_body("it's 'x'"), "it''s ''x''");
    assert_eq!(escape_sql_literal_body(""), "");
}

fn arg(mode: ArgMode, ty: ColumnType) -> FunctionArg {
    FunctionArg {
        name: None,
        mode,
        ty,
        default: None,
    }
}

#[test]
fn argument_types_leave_out_results_and_are_hashed() {
    let types = NormalizedArgTypes::from_args(&[
        arg(ArgMode::In, ColumnType::Integer),
        arg(ArgMode::Out, ColumnType::Text),
        arg(ArgMode::InOut, ColumnType::BigInt),
    ]);
    assert_eq!(types.types, vec![ColumnType::Integer, ColumnType::BigInt]);
    assert_eq!(
        types.canonical_hash,
        *blake3::hash(b"integer,bigint").as_bytes()
    );
}

#[test]
fn plan_errors_have_messages() {
    assert_eq!(
        PlanError::UnbreakableCycle(vec!["a\"".into(), "b".into()]).to_string(),
        "unbreakable dependency cycle: [\"a\\\"\", \"b\"]"
    );
    assert_eq!(
        PlanError::UnexpectedCycleAfterFkExtraction(vec!["a".into()]).to_string(),
        "unexpected cycle in modify graph after FK extraction: [\"a\"]"
    );
    assert_eq!(
        PlanError::UnexpectedDropCycle(vec![]).to_string(),
        "unexpected cycle in drop graph: []"
    );
    assert_eq!(
        PlanError::Internal("x".into()).to_string(),
        "internal error: x"
    );
    assert_eq!(
        PlanError::AstResolution("x".into()).to_string(),
        "AST resolution failed during planning: x"
    );
    assert_eq!(
        PlanError::DependentViewsBlocked {
            views: vec![qn("app", "v"), qn("app", "w")],
        }
        .to_string(),
        "view_drop_create_dependents is disabled but the following views would be \
         force-recreated: app.v, app.w"
    );
    assert_eq!(
        PlanError::BodyCycle {
            nodes: vec![NodeId::View(qn("app", "v")), NodeId::Mv(qn("app", "m"))],
        }
        .to_string()
        .matches('\u{2192}')
        .count(),
        1
    );
}

#[test]
fn unsupported_changes_are_rejected_when_ordering() {
    let mut cs = ChangeSet::new();
    cs.push(
        Change::UnsupportedDiff {
            reason: "no".into(),
        },
        Destructiveness::Safe,
    );
    let result = order(
        &Catalog::empty(),
        &Catalog::empty(),
        cs,
        &PlannerPolicy::default(),
    );
    assert!(result.is_err());
}

/// The list of a cycle reads as the list's own `Debug` text.
#[test]
fn cycle_messages_list_nodes_as_debug_does() {
    for nodes in [
        vec![],
        vec!["table:app.a".to_string()],
        vec!["a, b".to_string(), "tab\t\u{1F600}\\".to_string(), String::new()],
    ] {
        let list = format!("{nodes:?}");
        assert_eq!(
            PlanError::UnexpectedDropCycle(nodes).to_string(),
            format!("unexpected cycle in drop graph: {list}")
        );
    }
}
