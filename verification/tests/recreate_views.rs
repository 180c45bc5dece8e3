use pgevolve_plan::diff::change::{Change, FunctionChange, MvChange, ProcedureChange, UserTypeChange, ViewChange};
use pgevolve_plan::diff::destructiveness::Destructiveness;
use pgevolve_plan::diff::table_op::{TableOp, TableOpEntry};
use pgevolve_plan::identifier::{Identifier, QualifiedName};
use pgevolve_plan::ir::catalog::Catalog;
use pgevolve_plan::ir::column_type::ColumnType;
use pgevolve_plan::ir::expr::NormalizedBody;
use pgevolve_plan::ir::function::{Function, FunctionLanguage, NormalizedArgTypes, ParallelSafety, Procedure, ReturnType, SecurityMode, Volatility};
use pgevolve_plan::ir::reloptions::MaterializedViewStorageOptions;
use pgevolve_plan::ir::user_type::{UserType, UserTypeKind};
use pgevolve_plan::ir::view::{MaterializedView, ViewColumn, ViewDefinition};
use pgevolve_plan::plan::edges::{DepEdge, DepSource, NodeId};
use pgevolve_plan::plan::policy::PlannerPolicy;
use pgevolve_plan::plan::recreate_views::{DepTrigger, collect_upstream_triggers, extend_with_dependent_recreations, walk_transitive};

fn id(s: &str) -> Identifier {
    Identifier::from_unquoted(s).unwrap()
}

fn qn(schema: &str, name: &str) -> QualifiedName {
    QualifiedName::new(id(schema), id(name))
}

fn body(sql: &str) -> NormalizedBody {
    NormalizedBody::from_raw_canonical(sql.to_string())
}

fn simple_view(schema: &str, name: &str, deps: Vec<DepEdge>) -> ViewDefinition {
    ViewDefinition {
        qname: qn(schema, name),
        columns: vec![ViewColumn {
            name: id("id"),
            column_type: Some(ColumnType::BigInt),
            comment: None,
        }],
        body_canonical: body("SELECT 1"),
        body_dependencies: deps,
        security_barrier: None,
        security_invoker: None,
        check_option: None,
        comment: None,
        raw_body: String::new(),
        owner: None,
        grants: vec![],
    }
}

fn dep_edge(from_view: &QualifiedName, to_table: &QualifiedName) -> DepEdge {
    DepEdge {
        from: NodeId::View(from_view.clone()),
        to: NodeId::Table(to_table.clone()),
        source: DepSource::AstExtracted,
    }
}

fn view_to_view_edge(from_view: &QualifiedName, to_view: &QualifiedName) -> DepEdge {
    DepEdge {
        from: NodeId::View(from_view.clone()),
        to: NodeId::View(to_view.clone()),
        source: DepSource::AstExtracted,
    }
}

fn drop_table_change(qname: QualifiedName) -> Change {
    Change::DropTable {
        qname,
        row_count_estimate: None,
    }
}

fn alter_drop_col(table: QualifiedName, col: &str) -> Change {
    Change::AlterTable {
        qname: table,
        ops: vec![TableOpEntry {
            op: TableOp::DropColumn {
                name: id(col),
                is_populated: false,
            },
            destructiveness: Destructiveness::Safe,
        }],
    }
}

fn alter_col_type(table: QualifiedName, col: &str) -> Change {
    Change::AlterTable {
        qname: table,
        ops: vec![TableOpEntry {
            op: TableOp::AlterColumnType {
                name: id(col),
                from: ColumnType::BigInt,
                to: ColumnType::Text,
                using: None,
            },
            destructiveness: Destructiveness::Safe,
        }],
    }
}

fn policy_enabled() -> PlannerPolicy {
    PlannerPolicy::default()
}

fn policy_disabled() -> PlannerPolicy {
    let mut p = PlannerPolicy::default();
    p.online.view_drop_create_dependents = false;
    p
}

// --- collect_upstream_triggers ---

#[test]
fn drop_table_produces_trigger() {
    let changes = vec![drop_table_change(qn("app", "users"))];
    let triggers = collect_upstream_triggers(&changes);
    assert_eq!(triggers.len(), 1);
    assert_eq!(triggers[0].qname, qn("app", "users"));
    assert!(triggers[0].column.is_none());
}

#[test]
fn drop_column_produces_column_trigger() {
    let changes = vec![alter_drop_col(qn("app", "users"), "email")];
    let triggers = collect_upstream_triggers(&changes);
    assert_eq!(triggers.len(), 1);
    assert_eq!(triggers[0].qname, qn("app", "users"));
    assert_eq!(triggers[0].column.as_deref(), Some("email"));
}

#[test]
fn alter_column_type_produces_trigger() {
    let changes = vec![alter_col_type(qn("app", "users"), "name")];
    let triggers = collect_upstream_triggers(&changes);
    assert_eq!(triggers.len(), 1);
    assert_eq!(triggers[0].column.as_deref(), Some("name"));
}

#[test]
fn compatible_body_replace_does_not_trigger() {
    let view = simple_view("app", "v", vec![]);
    let changes = vec![Change::View(ViewChange::ReplaceBody {
        source: view.clone(),
        catalog: view,
        compatible: true,
    })];
    let triggers = collect_upstream_triggers(&changes);
    assert!(triggers.is_empty(), "compatible replace must not trigger");
}

#[test]
fn incompatible_body_replace_triggers() {
    let view = simple_view("app", "v", vec![]);
    let changes = vec![Change::View(ViewChange::ReplaceBody {
        source: view.clone(),
        catalog: view,
        compatible: false,
    })];
    let triggers = collect_upstream_triggers(&changes);
    assert_eq!(triggers.len(), 1);
    assert_eq!(triggers[0].qname, qn("app", "v"));
}

#[test]
fn mv_drop_triggers() {
    let changes = vec![Change::Mv(MvChange::Drop(qn("app", "mv")))];
    let triggers = collect_upstream_triggers(&changes);
    assert_eq!(triggers.len(), 1);
    assert_eq!(triggers[0].qname, qn("app", "mv"));
}

// --- walk_transitive ---

#[test]
fn single_dependent_view_is_found() {
    // view "v" depends on table "users". Drop "users" → recreate "v".
    let v_qname = qn("app", "v");
    let users = qn("app", "users");
    let v = simple_view("app", "v", vec![dep_edge(&v_qname, &users)]);
    let mut catalog = Catalog::empty();
    catalog.views.push(v);

    let triggers = vec![DepTrigger {
        qname: users.clone(),
        column: None,
    }];
    let affected = walk_transitive(&triggers, &catalog);
    assert_eq!(affected, vec![v_qname]);
}

#[test]
fn chain_a_b_c_all_affected() {
    // a: depends on table T
    // b: depends on view a
    // c: depends on view b
    // Trigger on T → affects a, b, c (topological: a before b before c)
    let t = qn("app", "t");
    let a = qn("app", "a");
    let b = qn("app", "b");
    let c = qn("app", "c");

    let view_a = simple_view("app", "a", vec![dep_edge(&a, &t)]);
    let view_b = simple_view("app", "b", vec![view_to_view_edge(&b, &a)]);
    let view_c = simple_view("app", "c", vec![view_to_view_edge(&c, &b)]);

    let mut catalog = Catalog::empty();
    catalog.views.push(view_a);
    catalog.views.push(view_b);
    catalog.views.push(view_c);

    let triggers = vec![DepTrigger {
        qname: t.clone(),
        column: None,
    }];
    let affected = walk_transitive(&triggers, &catalog);
    // All three must be present; a must come before b, b before c.
    assert!(
        affected.contains(&a),
        "view a must be in affected: {affected:?}"
    );
    assert!(
        affected.contains(&b),
        "view b must be in affected: {affected:?}"
    );
    assert!(
        affected.contains(&c),
        "view c must be in affected: {affected:?}"
    );
    let pos_a = affected.iter().position(|q| q == &a).unwrap();
    let pos_b = affected.iter().position(|q| q == &b).unwrap();
    let pos_c = affected.iter().position(|q| q == &c).unwrap();
    assert!(pos_a < pos_b, "a must come before b: {affected:?}");
    assert!(pos_b < pos_c, "b must come before c: {affected:?}");
}

#[test]
fn unrelated_view_not_included() {
    // view "v1" depends on table "users"
    // view "v2" depends on table "orders"
    // Trigger on "users" → only "v1" affected.
    let users = qn("app", "users");
    let orders = qn("app", "orders");
    let v1 = qn("app", "v1");
    let v2 = qn("app", "v2");

    let view_v1 = simple_view("app", "v1", vec![dep_edge(&v1, &users)]);
    let view_v2 = simple_view("app", "v2", vec![dep_edge(&v2, &orders)]);
    let mut catalog = Catalog::empty();
    catalog.views.push(view_v1);
    catalog.views.push(view_v2);

    let triggers = vec![DepTrigger {
        qname: users.clone(),
        column: None,
    }];
    let affected = walk_transitive(&triggers, &catalog);
    assert_eq!(affected, vec![v1]);
}

#[test]
fn no_triggers_no_affected() {
    let v = simple_view("app", "v", vec![]);
    let mut catalog = Catalog::empty();
    catalog.views.push(v);
    let affected = walk_transitive(&vec![], &catalog);
    assert!(affected.is_empty());
}

// --- extend_with_dependent_recreations ---

#[test]
fn extend_adds_replace_body_for_affected_view() {
    let users = qn("app", "users");
    let v_qname = qn("app", "v");
    let view = simple_view("app", "v", vec![dep_edge(&v_qname, &users)]);

    let mut catalog = Catalog::empty();
    catalog.views.push(view);

    let mut changes = vec![drop_table_change(users.clone())];
    let result = extend_with_dependent_recreations(&mut changes, &catalog, &policy_enabled());
    assert!(result.is_ok());
    // changes[0] = DropTable, changes[1] = ReplaceBody for "v"
    assert_eq!(changes.len(), 2);
    assert!(
        matches!(
            &changes[1],
            Change::View(ViewChange::ReplaceBody { source, compatible: false, .. })
            if source.qname == v_qname
        ),
        "expected ReplaceBody for v, got: {:?}",
        changes[1]
    );
}

#[test]
fn extend_does_not_duplicate_already_replaced_view() {
    let users = qn("app", "users");
    let v_qname = qn("app", "v");
    let view = simple_view("app", "v", vec![dep_edge(&v_qname, &users)]);
    let mut catalog = Catalog::empty();
    catalog.views.push(view.clone());

    // Differ already produced a ReplaceBody for "v".
    let mut changes = vec![
        drop_table_change(users.clone()),
        Change::View(ViewChange::ReplaceBody {
            source: view.clone(),
            catalog: view,
            compatible: false,
        }),
    ];
    let result = extend_with_dependent_recreations(&mut changes, &catalog, &policy_enabled());
    assert!(result.is_ok());
    // Still 2 changes — no duplicate.
    assert_eq!(changes.len(), 2);
}

#[test]
fn policy_disabled_returns_error_with_names() {
    let users = qn("app", "users");
    let v_qname = qn("app", "v");
    let view = simple_view("app", "v", vec![dep_edge(&v_qname, &users)]);
    let mut catalog = Catalog::empty();
    catalog.views.push(view);

    let mut changes = vec![drop_table_change(users.clone())];
    let result = extend_with_dependent_recreations(&mut changes, &catalog, &policy_disabled());
    assert!(result.is_err());
    let affected = result.unwrap_err();
    assert!(
        affected.contains(&v_qname),
        "expected v in error list: {affected:?}"
    );
    // Changes should NOT be modified when policy blocks.
    assert_eq!(changes.len(), 1);
}

#[test]
fn no_changes_no_recreation() {
    let view = simple_view("app", "v", vec![]);
    let mut catalog = Catalog::empty();
    catalog.views.push(view);

    let mut changes = vec![];
    let result = extend_with_dependent_recreations(&mut changes, &catalog, &policy_enabled());
    assert!(result.is_ok());
    assert!(changes.is_empty());
}

// ── MV-specific tests ────────────────────────────────────────────────────

fn simple_mv(
    schema: &str,
    name: &str,
    deps: Vec<DepEdge>,
) -> MaterializedView {
    MaterializedView {
        qname: qn(schema, name),
        columns: vec![],
        body_canonical: body("SELECT 1"),
        body_dependencies: deps,
        comment: None,
        raw_body: String::new(),
        owner: None,
        grants: vec![],
        storage: MaterializedViewStorageOptions::default(),
    }
}

fn mv_dep_edge(from_mv: &QualifiedName, to_table: &QualifiedName) -> DepEdge {
    DepEdge {
        from: NodeId::Mv(from_mv.clone()),
        to: NodeId::Table(to_table.clone()),
        source: DepSource::AstExtracted,
    }
}

/// A single MV with a `body_dependency` on a table; a table-drop trigger
/// should produce an `MvChange::ReplaceBody` for that MV.
#[test]
fn mv_with_body_dep_on_table_is_recreated_on_table_drop() {
    let orders = qn("app", "orders");
    let mv_qname = qn("app", "totals");
    let mv = simple_mv("app", "totals", vec![mv_dep_edge(&mv_qname, &orders)]);
    let mut catalog = Catalog::empty();
    catalog.materialized_views.push(mv);

    let mut changes = vec![drop_table_change(orders.clone())];
    let result = extend_with_dependent_recreations(&mut changes, &catalog, &policy_enabled());
    assert!(result.is_ok());
    // changes[0] = DropTable, changes[1] = ReplaceBody for "totals"
    assert_eq!(
        changes.len(),
        2,
        "expected DropTable + MvChange::ReplaceBody"
    );
    assert!(
        matches!(
            &changes[1],
            Change::Mv(MvChange::ReplaceBody { source, .. })
            if source.qname == mv_qname
        ),
        "expected MvChange::ReplaceBody for totals, got: {:?}",
        changes[1]
    );
}

/// An MV `ReplaceBody` that is already in changes is not double-emitted.
#[test]
fn mv_replace_body_not_duplicated() {
    let orders = qn("app", "orders");
    let mv_qname = qn("app", "totals");
    let mv = simple_mv("app", "totals", vec![mv_dep_edge(&mv_qname, &orders)]);
    let mut catalog = Catalog::empty();
    catalog.materialized_views.push(mv.clone());

    let mut changes = vec![
        drop_table_change(orders.clone()),
        Change::Mv(MvChange::ReplaceBody {
            source: mv.clone(),
            catalog: mv,
        }),
    ];
    let result = extend_with_dependent_recreations(&mut changes, &catalog, &policy_enabled());
    assert!(result.is_ok());
    // Still 2 changes — no duplicate.
    assert_eq!(
        changes.len(),
        2,
        "should not duplicate MvChange::ReplaceBody"
    );
}

/// When policy blocks recreations, affected MV qnames appear in the error.
#[test]
fn mv_recreation_blocked_by_policy_returns_error() {
    let orders = qn("app", "orders");
    let mv_qname = qn("app", "totals");
    let mv = simple_mv("app", "totals", vec![mv_dep_edge(&mv_qname, &orders)]);
    let mut catalog = Catalog::empty();
    catalog.materialized_views.push(mv);

    let mut changes = vec![drop_table_change(orders.clone())];
    let result = extend_with_dependent_recreations(&mut changes, &catalog, &policy_disabled());
    assert!(result.is_err(), "policy disabled must return Err");
    let affected = result.unwrap_err();
    assert!(
        affected.contains(&mv_qname),
        "expected totals in error list: {affected:?}"
    );
    assert_eq!(
        changes.len(),
        1,
        "changes must not be modified when policy blocks"
    );
}

// ── User-type cascade tests ───────────────────────────────────────────────

fn make_enum_type(schema: &str, name: &str) -> UserType {
    UserType {
        qname: qn(schema, name),
        kind: UserTypeKind::Enum { values: vec![] },
        comment: None,
        owner: None,
        grants: vec![],
    }
}

fn type_dep_edge(from_view: &QualifiedName, to_type: &QualifiedName) -> DepEdge {
    DepEdge {
        from: NodeId::View(from_view.clone()),
        to: NodeId::Type(to_type.clone()),
        source: DepSource::AstExtracted,
    }
}

fn mv_type_dep_edge(from_mv: &QualifiedName, to_type: &QualifiedName) -> DepEdge {
    DepEdge {
        from: NodeId::Mv(from_mv.clone()),
        to: NodeId::Type(to_type.clone()),
        source: DepSource::AstExtracted,
    }
}

/// Dropping a type that a view depends on (via `body_dependencies`) causes
/// the walker to append a `ReplaceBody` for that view.
#[test]
fn type_drop_cascades_to_dependent_view() {
    let status_type = qn("app", "status");
    let v_qname = qn("app", "order_view");
    let view = simple_view(
        "app",
        "order_view",
        vec![type_dep_edge(&v_qname, &status_type)],
    );

    let mut catalog = Catalog::empty();
    catalog.views.push(view);

    let mut changes = vec![Change::UserType(UserTypeChange::Drop(status_type.clone()))];
    let result = extend_with_dependent_recreations(&mut changes, &catalog, &policy_enabled());
    assert!(result.is_ok());
    // changes[0] = Drop type, changes[1] = ReplaceBody for order_view
    assert_eq!(
        changes.len(),
        2,
        "expected UserType::Drop + ReplaceBody for dependent view"
    );
    assert!(
        matches!(
            &changes[1],
            Change::View(ViewChange::ReplaceBody { source, compatible: false, .. })
            if source.qname == v_qname
        ),
        "expected ReplaceBody for order_view, got: {:?}",
        changes[1]
    );
}

/// Replacing a type with cascade also triggers dependent view recreation.
#[test]
fn type_replace_with_cascade_cascades_to_dependent_view() {
    let status_type = qn("app", "status");
    let v_qname = qn("app", "order_view");
    let view = simple_view(
        "app",
        "order_view",
        vec![type_dep_edge(&v_qname, &status_type)],
    );
    let ut = make_enum_type("app", "status");

    let mut catalog = Catalog::empty();
    catalog.views.push(view);

    let mut changes = vec![Change::UserType(UserTypeChange::ReplaceWithCascade {
        source: ut.clone(),
        catalog: ut.clone(),
    })];
    let result = extend_with_dependent_recreations(&mut changes, &catalog, &policy_enabled());
    assert!(result.is_ok());
    assert_eq!(
        changes.len(),
        2,
        "expected ReplaceWithCascade + ReplaceBody for dependent view"
    );
    assert!(
        matches!(
            &changes[1],
            Change::View(ViewChange::ReplaceBody { source, compatible: false, .. })
            if source.qname == v_qname
        ),
        "expected ReplaceBody for order_view on cascade replace, got: {:?}",
        changes[1]
    );
}

/// Dropping a type that a materialized view depends on triggers MV recreation.
#[test]
fn type_drop_cascades_to_dependent_mv() {
    let status_type = qn("app", "status");
    let mv_qname = qn("app", "type_summary");
    let mv = simple_mv(
        "app",
        "type_summary",
        vec![mv_type_dep_edge(&mv_qname, &status_type)],
    );

    let mut catalog = Catalog::empty();
    catalog.materialized_views.push(mv);

    let mut changes = vec![Change::UserType(UserTypeChange::Drop(status_type.clone()))];
    let result = extend_with_dependent_recreations(&mut changes, &catalog, &policy_enabled());
    assert!(result.is_ok());
    assert_eq!(
        changes.len(),
        2,
        "expected UserType::Drop + MvChange::ReplaceBody"
    );
    assert!(
        matches!(
            &changes[1],
            Change::Mv(MvChange::ReplaceBody { source, .. })
            if source.qname == mv_qname
        ),
        "expected MvChange::ReplaceBody for type_summary, got: {:?}",
        changes[1]
    );
}

/// When policy blocks recreations and a type drop would force view recreation,
/// the error list includes the affected view name.
#[test]
fn type_drop_recreation_blocked_by_policy() {
    let status_type = qn("app", "status");
    let v_qname = qn("app", "order_view");
    let view = simple_view(
        "app",
        "order_view",
        vec![type_dep_edge(&v_qname, &status_type)],
    );

    let mut catalog = Catalog::empty();
    catalog.views.push(view);

    let mut changes = vec![Change::UserType(UserTypeChange::Drop(status_type.clone()))];
    let result = extend_with_dependent_recreations(&mut changes, &catalog, &policy_disabled());
    assert!(result.is_err(), "policy must block recreation");
    let affected = result.unwrap_err();
    assert!(
        affected.contains(&v_qname),
        "expected order_view in error list: {affected:?}"
    );
    // Changes must not be modified when policy blocks.
    assert_eq!(changes.len(), 1);
}

// ── Function / Procedure cascade tests ───────────────────────────────────

fn make_function(schema: &str, name: &str) -> Function {
    let args = vec![];
    let arg_types_normalized = NormalizedArgTypes::from_args(&args);
    Function {
        qname: qn(schema, name),
        args,
        arg_types_normalized,
        return_type: ReturnType::Scalar {
            ty: ColumnType::BigInt,
        },
        language: FunctionLanguage::Sql,
        body: NormalizedBody::from_raw_canonical("SELECT 1".to_string()),
        body_dependencies: vec![],
        volatility: Volatility::Volatile,
        strict: false,
        security: SecurityMode::Invoker,
        parallel: ParallelSafety::Unsafe,
        leakproof: false,
        cost: None,
        rows: None,
        comment: None,
        owner: None,
        grants: vec![],
    }
}

fn make_procedure(schema: &str, name: &str) -> Procedure {
    Procedure {
        qname: qn(schema, name),
        args: vec![],
        language: FunctionLanguage::PlPgSql,
        body: NormalizedBody::empty(),
        body_dependencies: vec![],
        security: SecurityMode::Invoker,
        commits_in_body: false,
        comment: None,
        owner: None,
        grants: vec![],
    }
}

fn function_dep_edge(from_view: &QualifiedName, to_fn: &QualifiedName) -> DepEdge {
    // We use NormalizedArgTypes::from_args with an empty arg list for testing.
    let nat = NormalizedArgTypes::from_args(&[]);
    DepEdge {
        from: NodeId::View(from_view.clone()),
        to: NodeId::Function(to_fn.clone(), nat),
        source: DepSource::AstExtracted,
    }
}

fn procedure_dep_edge(from_view: &QualifiedName, to_proc: &QualifiedName) -> DepEdge {
    DepEdge {
        from: NodeId::View(from_view.clone()),
        to: NodeId::Procedure(to_proc.clone()),
        source: DepSource::AstExtracted,
    }
}

/// Dropping a function that a view calls (via `body_dependencies`) causes
/// the walker to append a `ReplaceBody` for that view.
#[test]
fn function_drop_cascades_to_dependent_view() {
    let fn_qname = qn("app", "f");
    let v_qname = qn("app", "v_using_f");
    let view = simple_view(
        "app",
        "v_using_f",
        vec![function_dep_edge(&v_qname, &fn_qname)],
    );
    let f = make_function("app", "f");

    let mut catalog = Catalog::empty();
    catalog.views.push(view);
    catalog.functions.push(f.clone());

    let mut changes = vec![Change::Function(FunctionChange::Drop {
        qname: fn_qname.clone(),
        args: f.arg_types_normalized.clone(),
    })];
    let result = extend_with_dependent_recreations(&mut changes, &catalog, &policy_enabled());
    assert!(result.is_ok());
    // changes[0] = FunctionChange::Drop, changes[1] = ReplaceBody for v_using_f
    assert_eq!(
        changes.len(),
        2,
        "expected Function::Drop + ReplaceBody for dependent view, got: {changes:?}"
    );
    assert!(
        matches!(
            &changes[1],
            Change::View(ViewChange::ReplaceBody { source, compatible: false, .. })
            if source.qname == v_qname
        ),
        "expected ReplaceBody for v_using_f, got: {:?}",
        changes[1]
    );
}

/// `FunctionChange::ReplaceWithCascade` also triggers dependent view recreation.
#[test]
fn function_replace_with_cascade_propagates_to_dependent_view() {
    let fn_qname = qn("app", "f");
    let v_qname = qn("app", "v_using_f");
    let view = simple_view(
        "app",
        "v_using_f",
        vec![function_dep_edge(&v_qname, &fn_qname)],
    );
    let f = make_function("app", "f");

    let mut catalog = Catalog::empty();
    catalog.views.push(view);
    catalog.functions.push(f.clone());

    let mut changes = vec![Change::Function(FunctionChange::ReplaceWithCascade {
        source: f.clone(),
        catalog: f,
    })];
    let result = extend_with_dependent_recreations(&mut changes, &catalog, &policy_enabled());
    assert!(result.is_ok());
    assert_eq!(
        changes.len(),
        2,
        "expected ReplaceWithCascade + ReplaceBody for dependent view, got: {changes:?}"
    );
    assert!(
        matches!(
            &changes[1],
            Change::View(ViewChange::ReplaceBody { source, compatible: false, .. })
            if source.qname == v_qname
        ),
        "expected ReplaceBody for v_using_f on cascade replace, got: {:?}",
        changes[1]
    );
}

/// A procedure with no dependents drops cleanly — no cascade recreation is
/// triggered and the change list stays the same length.
#[test]
fn procedure_drop_does_not_cascade_unnecessarily() {
    let proc_qname = qn("app", "do_thing");
    // No views depend on this procedure.
    let mut catalog = Catalog::empty();
    catalog.procedures.push(make_procedure("app", "do_thing"));

    let mut changes = vec![Change::Procedure(ProcedureChange::Drop(proc_qname.clone()))];
    let result = extend_with_dependent_recreations(&mut changes, &catalog, &policy_enabled());
    assert!(result.is_ok());
    assert_eq!(
        changes.len(),
        1,
        "a procedure drop with no dependents must not append extra changes; got: {changes:?}"
    );
}

/// Dropping a procedure that a view calls triggers view recreation.
#[test]
fn procedure_drop_cascades_to_dependent_view() {
    let proc_qname = qn("app", "do_thing");
    let v_qname = qn("app", "v_using_proc");
    let view = simple_view(
        "app",
        "v_using_proc",
        vec![procedure_dep_edge(&v_qname, &proc_qname)],
    );

    let mut catalog = Catalog::empty();
    catalog.views.push(view);
    catalog.procedures.push(make_procedure("app", "do_thing"));

    let mut changes = vec![Change::Procedure(ProcedureChange::Drop(proc_qname.clone()))];
    let result = extend_with_dependent_recreations(&mut changes, &catalog, &policy_enabled());
    assert!(result.is_ok());
    assert_eq!(
        changes.len(),
        2,
        "expected Procedure::Drop + ReplaceBody for dependent view; got: {changes:?}"
    );
    assert!(
        matches!(
            &changes[1],
            Change::View(ViewChange::ReplaceBody { source, compatible: false, .. })
            if source.qname == v_qname
        ),
        "expected ReplaceBody for v_using_proc, got: {:?}",
        changes[1]
    );
}
