use pgevolve_plan::diff::change::{Change, ChangeSet};
use pgevolve_plan::diff::destructiveness::Destructiveness;
use pgevolve_plan::identifier::{Identifier, QualifiedName};
use pgevolve_plan::ir::catalog::Catalog;
use pgevolve_plan::ir::column_type::ColumnType;
use pgevolve_plan::ir::constraint::{
    Constraint, ConstraintKind, Deferrable, FkMatchType, ForeignKey, ReferentialAction,
};
use pgevolve_plan::ir::expr::NormalizedBody;
use pgevolve_plan::ir::reloptions::TableStorageOptions;
use pgevolve_plan::ir::table::Table;
use pgevolve_plan::ir::user_type::{CompositeAttribute, UserType, UserTypeKind};
use pgevolve_plan::ir::view::ViewDefinition;
use pgevolve_plan::plan::body_cycles::find_body_cycle;
use pgevolve_plan::plan::edges::{build_create_graph, DepEdge, DepSource, NodeId};
use pgevolve_plan::plan::error::PlanError;
use pgevolve_plan::plan::graph::{Cycle, Graph};
use pgevolve_plan::plan::ordering::order;
use pgevolve_plan::plan::policy::PlannerPolicy;

fn id(s: &str) -> Identifier {
    Identifier::from_unquoted(s).unwrap()
}

fn qn(name: &str) -> QualifiedName {
    QualifiedName::new(id("app"), id(name))
}

fn node(name: &str) -> NodeId {
    NodeId::View(qn(name))
}

fn view(name: &str, on: &[&str]) -> ViewDefinition {
    ViewDefinition {
        qname: qn(name),
        columns: vec![],
        body_canonical: NormalizedBody::from_raw_canonical("SELECT 1".into()),
        body_dependencies: on
            .iter()
            .map(|to| DepEdge {
                from: node(name),
                to: node(to),
                source: DepSource::AstExtracted,
            })
            .collect(),
        security_barrier: None,
        security_invoker: None,
        check_option: None,
        comment: None,
        raw_body: String::new(),
        owner: None,
        grants: vec![],
    }
}

fn composite(name: &str, of: &str) -> UserType {
    UserType {
        qname: qn(name),
        kind: UserTypeKind::Composite {
            attributes: vec![CompositeAttribute {
                name: id("x"),
                ty: ColumnType::UserDefined(qn(of)),
                collation: None,
            }],
        },
        comment: None,
        owner: None,
        grants: vec![],
    }
}

fn table(name: &str, refers: &[&str]) -> Table {
    Table {
        qname: qn(name),
        columns: vec![],
        constraints: refers
            .iter()
            .map(|to| Constraint {
                qname: qn(&format!("{name}_{to}_fk")),
                kind: ConstraintKind::ForeignKey(ForeignKey {
                    columns: vec![id("x")],
                    referenced_table: qn(to),
                    referenced_columns: vec![id("id")],
                    on_update: ReferentialAction::NoAction,
                    on_delete: ReferentialAction::NoAction,
                    match_type: FkMatchType::Simple,
                }),
                deferrable: Deferrable::NotDeferrable,
                comment: None,
            })
            .collect(),
        partition_by: None,
        partition_of: None,
        comment: None,
        owner: None,
        grants: vec![],
        rls_enabled: false,
        rls_forced: false,
        policies: vec![],
        storage: TableStorageOptions::default(),
    }
}

fn plan_error(source: &Catalog) -> PlanError {
    order(
        &Catalog::empty(),
        source,
        ChangeSet::new(),
        &PlannerPolicy::default(),
    )
    .unwrap_err()
}

#[test]
fn nodes_that_only_depend_on_a_cycle_are_not_reported() {
    let mut g: Graph<&str> = Graph::new();
    g.add_edge("a", "b");
    g.add_edge("b", "a");
    g.add_edge("x", "a");
    g.add_edge("b", "y");
    let cycle = Cycle {
        nodes: vec!["a", "b"],
    };
    assert_eq!(g.topological_sort(), Err(cycle.clone()));
    assert_eq!(g.reverse_topological_sort(), Err(cycle));
}

#[test]
fn every_cycle_is_reported() {
    let mut g: Graph<i32> = Graph::new();
    g.add_edge(5, 5);
    g.add_edge(1, 2);
    g.add_edge(2, 3);
    g.add_edge(3, 1);
    // Between two cycles, on none.
    g.add_edge(3, 4);
    g.add_edge(4, 5);
    assert_eq!(g.topological_sort().unwrap_err().nodes, vec![1, 2, 3, 5]);
}

#[test]
fn the_shortest_way_takes_the_smallest_nodes() {
    let mut g: Graph<i32> = Graph::new();
    g.add_edge(1, 2);
    g.add_edge(2, 3);
    g.add_edge(3, 9);
    g.add_edge(1, 7);
    g.add_edge(1, 6);
    g.add_edge(7, 9);
    g.add_edge(6, 9);
    assert_eq!(g.shortest_way(&1, &9), Some(vec![1, 6, 9]));
    assert_eq!(g.shortest_way(&1, &1), Some(vec![1]));
    assert_eq!(g.shortest_way(&9, &1), None);
    assert_eq!(g.shortest_way(&1, &8), None);
    assert_eq!(g.shortest_way(&8, &8), Some(vec![8]));
}

#[test]
fn views_that_query_each_other_are_a_body_cycle() {
    let mut source = Catalog::empty();
    source.views.push(view("a", &["b"]));
    source.views.push(view("b", &["a"]));
    assert_eq!(
        plan_error(&source),
        PlanError::BodyCycle {
            nodes: vec![node("a"), node("b")]
        }
    );
}

/// The nodes come in the order in which a walk meets them.
#[test]
fn a_body_cycle_is_reported_in_walk_order() {
    let mut source = Catalog::empty();
    source.views.push(view("a", &["c"]));
    source.views.push(view("b", &["a"]));
    source.views.push(view("c", &["b"]));
    source.views.push(view("outside", &["a"]));
    let nodes = vec![node("a"), node("c"), node("b")];
    assert_eq!(plan_error(&source), PlanError::BodyCycle { nodes: nodes.clone() });
    assert_eq!(
        find_body_cycle(&source, &build_create_graph(&source)),
        Some(nodes)
    );
}

#[test]
fn a_body_that_refers_to_its_own_object_is_a_body_cycle() {
    let mut source = Catalog::empty();
    source.views.push(view("a", &["a"]));
    assert_eq!(
        plan_error(&source),
        PlanError::BodyCycle {
            nodes: vec![node("a")]
        }
    );
}

#[test]
fn a_cycle_that_no_body_closes_is_unbreakable() {
    let mut source = Catalog::empty();
    source.types.push(composite("s", "t"));
    source.types.push(composite("t", "s"));
    source.types.push(composite("u", "t"));
    source.views.push(view("v", &["w"]));
    assert_eq!(
        plan_error(&source),
        PlanError::UnbreakableCycle(vec!["type:app.s".into(), "type:app.t".into()])
    );
    assert_eq!(find_body_cycle(&source, &build_create_graph(&source)), None);
}

/// Foreign key cycles are broken; a key of a table that only refers to the
/// cycle stays where it is.
#[test]
fn only_keys_within_a_cycle_are_deferred() {
    let mut source = Catalog::empty();
    let mut changes = ChangeSet::new();
    for t in [
        table("a", &["b"]),
        table("b", &["a"]),
        table("x", &["a", "y"]),
        table("y", &["b"]),
    ] {
        changes.push(Change::CreateTable(t.clone()), Destructiveness::Safe);
        source.tables.push(t);
    }
    let out = order(
        &Catalog::empty(),
        &source,
        changes,
        &PlannerPolicy::default(),
    )
    .unwrap();
    let deferred: Vec<String> = out
        .deferred_fks
        .iter()
        .map(|d| d.constraint.qname.name.as_str().to_string())
        .collect();
    assert_eq!(deferred, vec!["a_b_fk", "b_a_fk"]);
    let kept: Vec<(String, usize)> = out
        .creates_and_adds
        .iter()
        .map(|e| match &e.change {
            Change::CreateTable(t) => (t.qname.name.as_str().to_string(), t.constraints.len()),
            _ => unreachable!(),
        })
        .collect();
    assert_eq!(
        kept,
        vec![
            ("a".to_string(), 0),
            ("b".to_string(), 0),
            ("y".to_string(), 1),
            ("x".to_string(), 2)
        ]
    );
}

/// What an object depends on through others comes first too.
#[test]
fn creates_follow_paths() {
    let mut source = Catalog::empty();
    for t in [
        table("a", &["b"]),
        table("b", &["c"]),
        table("c", &[]),
    ] {
        source.tables.push(t);
    }
    let mut changes = ChangeSet::new();
    changes.push(Change::CreateTable(table("a", &["b"])), Destructiveness::Safe);
    changes.push(Change::CreateTable(table("c", &[])), Destructiveness::Safe);
    let out = order(
        &Catalog::empty(),
        &source,
        changes,
        &PlannerPolicy::default(),
    )
    .unwrap();
    let names: Vec<String> = out
        .creates_and_adds
        .iter()
        .map(|e| match &e.change {
            Change::CreateTable(t) => t.qname.name.as_str().to_string(),
            _ => unreachable!(),
        })
        .collect();
    assert_eq!(names, vec!["c", "a"]);
}
