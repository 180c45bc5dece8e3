use pgevolve_plan::identifier::{Identifier, QualifiedName};
use pgevolve_plan::ir::catalog::Catalog;
use pgevolve_plan::ir::column_type::ColumnType;
use pgevolve_plan::ir::constraint::Deferrable;
use pgevolve_plan::ir::expr::NormalizedBody;
use pgevolve_plan::ir::function::{ArgMode, Function, FunctionArg, FunctionLanguage, NormalizedArgTypes, ParallelSafety, Procedure, ReturnType, SecurityMode, Volatility};
use pgevolve_plan::ir::reloptions::MaterializedViewStorageOptions;
use pgevolve_plan::ir::routine_objects::{Aggregate, Cast, CastContext, CastMethod};
use pgevolve_plan::ir::trigger::{EventTrigger, EventTriggerEnabled, EventTriggerEvent, Trigger, TriggerEvent, TriggerLevel, TriggerTiming};
use pgevolve_plan::ir::user_type::{UserType, UserTypeKind};
use pgevolve_plan::ir::view::{MaterializedView, ViewColumn, ViewDefinition};
use pgevolve_plan::plan::edges::{DepEdge, DepSource, NodeId};
use pgevolve_plan::plan::function_dependents::{FunctionDependent, enumerate_function_dependents};

fn id(s: &str) -> Identifier {
    Identifier::from_unquoted(s).unwrap()
}

fn qn(name: &str) -> QualifiedName {
    QualifiedName::new(id("app"), id(name))
}

/// `app.f(integer)` — the function whose dependents we enumerate.
fn f_qname() -> QualifiedName {
    qn("f")
}

fn int_args() -> Vec<FunctionArg> {
    vec![FunctionArg {
        name: Some(id("x")),
        mode: ArgMode::In,
        ty: ColumnType::Integer,
        default: None,
    }]
}

fn f_arg_types() -> NormalizedArgTypes {
    NormalizedArgTypes::from_args(&int_args())
}

fn function(name: &str, args: Vec<FunctionArg>, body_deps: Vec<DepEdge>) -> Function {
    let arg_types_normalized = NormalizedArgTypes::from_args(&args);
    Function {
        qname: qn(name),
        args,
        arg_types_normalized,
        return_type: ReturnType::Void,
        language: FunctionLanguage::Sql,
        body: NormalizedBody::from_raw_canonical("SELECT 1".to_string()),
        body_dependencies: body_deps,
        volatility: Volatility::Immutable,
        strict: false,
        security: SecurityMode::Invoker,
        parallel: ParallelSafety::Safe,
        leakproof: false,
        cost: None,
        rows: None,
        comment: None,
        owner: None,
        grants: vec![],
    }
}

/// A body-dependency edge from `dependent` (a function) to `app.f(integer)`.
fn dep_on_f(dependent: &QualifiedName, dependent_args: &NormalizedArgTypes) -> DepEdge {
    DepEdge {
        from: NodeId::Function(dependent.clone(), dependent_args.clone()),
        to: NodeId::Function(f_qname(), f_arg_types()),
        source: DepSource::AstExtracted,
    }
}

fn trigger_calling_f(name: &str) -> Trigger {
    Trigger {
        qname: qn(name),
        table: qn("users"),
        timing: TriggerTiming::Before,
        events: vec![TriggerEvent::Insert],
        level: TriggerLevel::Row,
        when_clause: None,
        transition_tables: vec![],
        function_qname: f_qname(),
        function_args: vec![],
        is_constraint: false,
        deferrable: Deferrable::NotDeferrable,
        comment: None,
    }
}

fn event_trigger_calling_f(name: &str) -> EventTrigger {
    EventTrigger {
        name: id(name),
        event: EventTriggerEvent::DdlCommandStart,
        tag_filter: vec![],
        function: f_qname(),
        enabled: EventTriggerEnabled::Enabled,
        owner: None,
        comment: None,
    }
}

fn aggregate_with_sfunc_f(name: &str) -> Aggregate {
    Aggregate {
        qname: qn(name),
        arg_types: vec![ColumnType::Integer],
        state_type: ColumnType::Integer,
        sfunc: f_qname(),
        finalfunc: None,
        initcond: None,
        owner: None,
        comment: None,
    }
}

fn cast_with_conversion_f(source: &str, target: &str) -> Cast {
    Cast {
        source: qn(source),
        target: qn(target),
        method: CastMethod::Function {
            name: f_qname(),
            arg_types: vec![ColumnType::Integer],
        },
        context: CastContext::Explicit,
        comment: None,
    }
}

fn view_calling_f(name: &str) -> ViewDefinition {
    ViewDefinition {
        qname: qn(name),
        columns: vec![ViewColumn {
            name: id("c"),
            column_type: Some(ColumnType::Integer),
            comment: None,
        }],
        body_canonical: NormalizedBody::from_raw_canonical("SELECT app.f(1)".to_string()),
        body_dependencies: vec![DepEdge {
            from: NodeId::View(qn(name)),
            to: NodeId::Function(f_qname(), f_arg_types()),
            source: DepSource::AstExtracted,
        }],
        security_barrier: None,
        security_invoker: None,
        check_option: None,
        comment: None,
        raw_body: String::new(),
        owner: None,
        grants: vec![],
    }
}

fn mv_calling_f(name: &str) -> MaterializedView {
    MaterializedView {
        qname: qn(name),
        columns: vec![ViewColumn {
            name: id("c"),
            column_type: Some(ColumnType::Integer),
            comment: None,
        }],
        body_canonical: NormalizedBody::from_raw_canonical("SELECT app.f(1)".to_string()),
        body_dependencies: vec![DepEdge {
            from: NodeId::Mv(qn(name)),
            to: NodeId::Function(f_qname(), f_arg_types()),
            source: DepSource::AstExtracted,
        }],
        comment: None,
        raw_body: String::new(),
        owner: None,
        grants: vec![],
        storage: MaterializedViewStorageOptions::default(),
    }
}

#[test]
fn enumerates_all_dependent_categories() {
    let mut cat = Catalog::empty();
    // The function itself.
    cat.functions.push(function("f", int_args(), vec![]));
    // One of each dependent category.
    cat.triggers.push(trigger_calling_f("trg"));
    cat.event_triggers.push(event_trigger_calling_f("evt"));
    cat.aggregates.push(aggregate_with_sfunc_f("agg"));
    cat.casts.push(cast_with_conversion_f("src_t", "dst_t"));
    cat.views.push(view_calling_f("v"));
    // A function whose body references f.
    let caller_args = NormalizedArgTypes::from_args(&[]);
    cat.functions.push(function(
        "caller",
        vec![],
        vec![dep_on_f(&qn("caller"), &caller_args)],
    ));

    let deps = enumerate_function_dependents(&f_qname(), &f_arg_types(), &cat);

    assert!(deps.contains(&FunctionDependent::Trigger(qn("trg"))));
    assert!(deps.contains(&FunctionDependent::EventTrigger(id("evt"))));
    assert!(deps.contains(&FunctionDependent::Aggregate(qn("agg"))));
    assert!(deps.contains(&FunctionDependent::Cast {
        source: qn("src_t"),
        target: qn("dst_t"),
    }));
    assert!(deps.contains(&FunctionDependent::BodyRef(qn("v"))));
    assert!(deps.contains(&FunctionDependent::BodyRef(qn("caller"))));
    assert_eq!(deps.len(), 6);

    // Deterministic ordering: sorted + deduped.
    let mut sorted = deps.clone();
    sorted.sort();
    sorted.dedup();
    assert_eq!(deps, sorted);
}

#[test]
fn aggregate_finalfunc_is_reported() {
    let mut cat = Catalog::empty();
    cat.functions.push(function("f", int_args(), vec![]));
    // Aggregate whose FINALFUNC (not sfunc) is f.
    cat.aggregates.push(Aggregate {
        qname: qn("agg"),
        arg_types: vec![ColumnType::Integer],
        state_type: ColumnType::Integer,
        sfunc: qn("other_sfunc"),
        finalfunc: Some(f_qname()),
        initcond: None,
        owner: None,
        comment: None,
    });

    let deps = enumerate_function_dependents(&f_qname(), &f_arg_types(), &cat);
    assert_eq!(deps, vec![FunctionDependent::Aggregate(qn("agg"))]);
}

#[test]
fn materialized_view_body_ref_is_reported() {
    let mut cat = Catalog::empty();
    cat.functions.push(function("f", int_args(), vec![]));
    cat.materialized_views.push(mv_calling_f("mv"));

    let deps = enumerate_function_dependents(&f_qname(), &f_arg_types(), &cat);
    assert_eq!(deps, vec![FunctionDependent::BodyRef(qn("mv"))]);
}

#[test]
fn no_dependents_yields_empty() {
    let mut cat = Catalog::empty();
    cat.functions.push(function("f", int_args(), vec![]));
    // A trigger/aggregate that reference a DIFFERENT function.
    let mut trg = trigger_calling_f("trg");
    trg.function_qname = qn("g");
    cat.triggers.push(trg);
    cat.aggregates.push(Aggregate {
        qname: qn("agg"),
        arg_types: vec![ColumnType::Integer],
        state_type: ColumnType::Integer,
        sfunc: qn("g"),
        finalfunc: None,
        initcond: None,
        owner: None,
        comment: None,
    });

    assert!(enumerate_function_dependents(&f_qname(), &f_arg_types(), &cat).is_empty());
}

#[test]
fn unrelated_function_dependents_not_reported() {
    // Enumerate dependents of `app.g(integer)`, but the catalog's trigger,
    // aggregate, cast, and view all depend on `app.f(integer)`.
    let mut cat = Catalog::empty();
    cat.functions.push(function("f", int_args(), vec![]));
    cat.functions.push(function("g", int_args(), vec![]));
    cat.triggers.push(trigger_calling_f("trg"));
    cat.aggregates.push(aggregate_with_sfunc_f("agg"));
    cat.casts.push(cast_with_conversion_f("src_t", "dst_t"));
    cat.views.push(view_calling_f("v"));

    let g_args = NormalizedArgTypes::from_args(&int_args());
    let deps = enumerate_function_dependents(&qn("g"), &g_args, &cat);
    assert!(
        deps.is_empty(),
        "g's dependents must not include f's dependents, got {deps:?}"
    );
}

#[test]
fn function_is_not_its_own_body_ref_dependent() {
    // A recursive function whose body self-references must not list itself.
    let self_args = f_arg_types();
    let recursive = function("f", int_args(), vec![dep_on_f(&f_qname(), &self_args)]);
    let mut cat = Catalog::empty();
    cat.functions.push(recursive);

    assert!(enumerate_function_dependents(&f_qname(), &f_arg_types(), &cat).is_empty());
}

#[test]
fn cast_matches_arg_types_precisely_no_overload_over_report() {
    // Two same-named overloads: app.f(integer) and app.f(text). A cast uses
    // the (text) overload as its conversion function. Enumerating dependents
    // of the (integer) overload must NOT report that cast — casts record arg
    // types, so the match is precise.
    let mut cat = Catalog::empty();
    cat.functions.push(function("f", int_args(), vec![]));
    let text_args = vec![FunctionArg {
        name: Some(id("x")),
        mode: ArgMode::In,
        ty: ColumnType::Text,
        default: None,
    }];
    cat.functions.push(function("f", text_args, vec![]));
    // Cast whose conversion function is f(text).
    cat.casts.push(Cast {
        source: qn("src_t"),
        target: qn("dst_t"),
        method: CastMethod::Function {
            name: f_qname(),
            arg_types: vec![ColumnType::Text],
        },
        context: CastContext::Explicit,
        comment: None,
    });

    // Dependents of f(integer): the f(text) cast is NOT reported.
    let deps = enumerate_function_dependents(&f_qname(), &f_arg_types(), &cat);
    assert!(
        deps.is_empty(),
        "cast on f(text) must not be reported as a dependent of f(integer), got {deps:?}"
    );
}

#[test]
fn trigger_over_reports_on_overloaded_name_safely() {
    // Triggers reference functions by qname only. If a name is overloaded,
    // a trigger on `app.f` is reported for ANY f overload being dropped —
    // over-reporting is the safe (audit) direction. This test documents and
    // asserts that accepted imprecision.
    let mut cat = Catalog::empty();
    cat.functions.push(function("f", int_args(), vec![]));
    let text_args = vec![FunctionArg {
        name: Some(id("x")),
        mode: ArgMode::In,
        ty: ColumnType::Text,
        default: None,
    }];
    cat.functions.push(function("f", text_args.clone(), vec![]));
    cat.triggers.push(trigger_calling_f("trg")); // references app.f by qname

    // Dropping the f(text) overload still reports the trigger (qname match):
    // over-reporting, not under-reporting.
    let text_norm = NormalizedArgTypes::from_args(&text_args);
    let deps = enumerate_function_dependents(&f_qname(), &text_norm, &cat);
    assert_eq!(deps, vec![FunctionDependent::Trigger(qn("trg"))]);
}

#[test]
fn procedure_whose_body_calls_the_function_is_enumerated() {
    let none = NormalizedArgTypes::from_args(&vec![]);
    let mut c = Catalog::empty();
    c.functions.push(function("f", vec![], vec![]));
    c.procedures.push(Procedure {
        qname: qn("p"),
        args: vec![],
        language: FunctionLanguage::Sql,
        body: NormalizedBody::from_raw_canonical("SELECT app.f()".to_string()),
        body_dependencies: vec![DepEdge {
            from: NodeId::Procedure(qn("p")),
            to: NodeId::Function(qn("f"), none.clone()),
            source: DepSource::AstExtracted,
        }],
        security: SecurityMode::Invoker,
        commits_in_body: false,
        comment: None,
        owner: None,
        grants: vec![],
    });
    assert_eq!(
        enumerate_function_dependents(&qn("f"), &none, &c),
        vec![FunctionDependent::BodyRef(qn("p"))]
    );
    // Another overload is not what it calls.
    assert_eq!(enumerate_function_dependents(&qn("f"), &f_arg_types(), &c), vec![]);
}

#[test]
fn range_types_that_name_the_function_are_enumerated() {
    let range = |name: &str, canonical: Option<&str>, subtype_diff: Option<&str>| UserType {
        qname: qn(name),
        kind: UserTypeKind::Range {
            subtype: qn("base"),
            subtype_opclass: None,
            collation: None,
            canonical: canonical.map(qn),
            subtype_diff: subtype_diff.map(qn),
            multirange_type_name: None,
        },
        comment: None,
        owner: None,
        grants: vec![],
    };
    let mut c = Catalog::empty();
    c.functions.push(function("f", int_args(), vec![]));
    c.types.push(range("by_diff", None, Some("f")));
    c.types.push(range("by_canonical", Some("f"), Some("g")));
    c.types.push(range("by_neither", Some("g"), None));
    assert_eq!(
        enumerate_function_dependents(&f_qname(), &f_arg_types(), &c),
        vec![
            FunctionDependent::BodyRef(qn("by_canonical")),
            FunctionDependent::BodyRef(qn("by_diff")),
        ]
    );
}
