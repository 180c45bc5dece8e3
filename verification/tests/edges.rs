use pgevolve_plan::identifier::{Identifier, QualifiedName};
use pgevolve_plan::ir::catalog::Catalog;
use pgevolve_plan::ir::collation::{Collation, CollationProvider};
use pgevolve_plan::ir::column_type::ColumnType;
use pgevolve_plan::ir::constraint::{Constraint, ConstraintKind, Deferrable, FkMatchType, ForeignKey, ReferentialAction};
use pgevolve_plan::ir::expr::{DefaultExpr, NormalizedBody};
use pgevolve_plan::ir::function::{Function, FunctionLanguage, NormalizedArgTypes, ParallelSafety, ReturnType, SecurityMode, Volatility};
use pgevolve_plan::ir::index::{Index, IndexColumn, IndexColumnExpr, IndexMethod, IndexParent, NullsOrder, SortOrder};
use pgevolve_plan::ir::partition::{PartitionBounds, PartitionBy, PartitionColumn, PartitionColumnKind, PartitionOf, PartitionStrategy};
use pgevolve_plan::ir::reloptions::{IndexStorageOptions, TableStorageOptions};
use pgevolve_plan::ir::schema::Schema;
use pgevolve_plan::ir::sequence::{Sequence, SequenceOwner};
use pgevolve_plan::ir::table::{Column, Table};
use pgevolve_plan::ir::user_type::{CompositeAttribute, UserType, UserTypeKind};
use pgevolve_plan::plan::edges::{NodeId, build_create_graph, build_drop_graph};
use pgevolve_plan::plan::graph::Graph;

fn id(s: &str) -> Identifier {
    Identifier::from_unquoted(s).unwrap()
}

fn qn(schema: &str, name: &str) -> QualifiedName {
    QualifiedName::new(id(schema), id(name))
}

fn col_id_bigint() -> Column {
    Column {
        name: id("id"),
        ty: ColumnType::BigInt,
        nullable: false,
        default: None,
        identity: None,
        generated: None,
        collation: None,
        storage: None,
        compression: None,
        comment: None,
    }
}

fn col_text_notnull(name: &str) -> Column {
    Column {
        name: id(name),
        ty: ColumnType::Text,
        nullable: false,
        default: None,
        identity: None,
        generated: None,
        collation: None,
        storage: None,
        compression: None,
        comment: None,
    }
}

fn pk(name: &str, cols: &[&str]) -> Constraint {
    Constraint {
        qname: qn("app", name),
        kind: ConstraintKind::PrimaryKey {
            columns: cols.iter().map(|c| id(c)).collect(),
            included: vec![],
        },
        deferrable: Deferrable::NotDeferrable,
        comment: None,
    }
}

fn fk(name: &str, ref_table: QualifiedName) -> Constraint {
    Constraint {
        qname: qn("app", name),
        kind: ConstraintKind::ForeignKey(ForeignKey {
            columns: vec![id("ref_id")],
            referenced_table: ref_table,
            referenced_columns: vec![id("id")],
            on_update: ReferentialAction::NoAction,
            on_delete: ReferentialAction::NoAction,
            match_type: FkMatchType::Simple,
        }),
        deferrable: Deferrable::NotDeferrable,
        comment: None,
    }
}

fn has_edge(g: &Graph<NodeId>, from: &NodeId, to: &NodeId) -> bool {
    g.dependencies_of(from).iter().any(|n| *n == to)
}

#[test]
fn empty_catalog_yields_empty_graph() {
    let g = build_create_graph(&Catalog::empty());
    assert_eq!(g.node_count(), 0);
}

#[test]
fn every_object_appears_as_a_node() {
    let mut c = Catalog::empty();
    c.schemas.push(Schema::new(id("app")));
    c.tables.push(Table {
        qname: qn("app", "users"),
        columns: vec![col_id_bigint()],
        constraints: vec![pk("users_pkey", &["id"])],
        partition_by: None,
        partition_of: None,
        comment: None,
        owner: None,
        grants: vec![],
        rls_enabled: false,
        rls_forced: false,
        policies: vec![],
        storage: TableStorageOptions::default(),
    });
    c.indexes.push(Index {
        qname: qn("app", "users_idx"),
        on: IndexParent::Table(qn("app", "users")),
        method: IndexMethod::BTree,
        columns: vec![IndexColumn {
            expr: IndexColumnExpr::Column(id("id")),
            collation: None,
            opclass: None,
            sort_order: SortOrder::Asc,
            nulls_order: NullsOrder::NullsLast,
        }],
        included: vec![],
        unique: false,
        nulls_not_distinct: false,
        predicate: None,
        tablespace: None,
        comment: None,
        storage: IndexStorageOptions::default(),
    });
    c.sequences.push(Sequence {
        qname: qn("app", "seq1"),
        data_type: ColumnType::BigInt,
        start: 1,
        increment: 1,
        min_value: None,
        max_value: None,
        cache: 1,
        cycle: false,
        owned_by: None,
        comment: None,
        owner: None,
        grants: vec![],
    });

    let g = build_create_graph(&c);
    // schema + table + index + sequence + constraint = 5
    assert_eq!(g.node_count(), 5);
}

#[test]
fn table_depends_on_its_schema() {
    let mut c = Catalog::empty();
    c.schemas.push(Schema::new(id("app")));
    c.tables.push(Table {
        qname: qn("app", "users"),
        columns: vec![col_id_bigint()],
        constraints: vec![],
        partition_by: None,
        partition_of: None,
        comment: None,
        owner: None,
        grants: vec![],
        rls_enabled: false,
        rls_forced: false,
        policies: vec![],
        storage: TableStorageOptions::default(),
    });
    let g = build_create_graph(&c);
    assert!(has_edge(
        &g,
        &NodeId::Table(qn("app", "users")),
        &NodeId::Schema(id("app")),
    ));
}

#[test]
fn index_depends_on_its_table() {
    let mut c = Catalog::empty();
    c.tables.push(Table {
        qname: qn("app", "users"),
        columns: vec![col_id_bigint()],
        constraints: vec![],
        partition_by: None,
        partition_of: None,
        comment: None,
        owner: None,
        grants: vec![],
        rls_enabled: false,
        rls_forced: false,
        policies: vec![],
        storage: TableStorageOptions::default(),
    });
    c.indexes.push(Index {
        qname: qn("app", "users_idx"),
        on: IndexParent::Table(qn("app", "users")),
        method: IndexMethod::BTree,
        columns: vec![IndexColumn {
            expr: IndexColumnExpr::Column(id("id")),
            collation: None,
            opclass: None,
            sort_order: SortOrder::Asc,
            nulls_order: NullsOrder::NullsLast,
        }],
        included: vec![],
        unique: false,
        nulls_not_distinct: false,
        predicate: None,
        tablespace: None,
        comment: None,
        storage: IndexStorageOptions::default(),
    });
    let g = build_create_graph(&c);
    assert!(has_edge(
        &g,
        &NodeId::Index(qn("app", "users_idx")),
        &NodeId::Table(qn("app", "users")),
    ));
}

#[test]
fn fk_constraint_depends_on_both_endpoints() {
    let mut c = Catalog::empty();
    c.tables.push(Table {
        qname: qn("app", "orgs"),
        columns: vec![col_id_bigint()],
        constraints: vec![pk("orgs_pkey", &["id"])],
        partition_by: None,
        partition_of: None,
        comment: None,
        owner: None,
        grants: vec![],
        rls_enabled: false,
        rls_forced: false,
        policies: vec![],
        storage: TableStorageOptions::default(),
    });
    c.tables.push(Table {
        qname: qn("app", "users"),
        columns: vec![
            col_id_bigint(),
            Column {
                name: id("ref_id"),
                ty: ColumnType::BigInt,
                nullable: false,
                default: None,
                identity: None,
                generated: None,
                collation: None,
                storage: None,
                compression: None,
                comment: None,
            },
        ],
        constraints: vec![fk("users_orgs_fk", qn("app", "orgs"))],
        partition_by: None,
        partition_of: None,
        comment: None,
        owner: None,
        grants: vec![],
        rls_enabled: false,
        rls_forced: false,
        policies: vec![],
        storage: TableStorageOptions::default(),
    });
    let g = build_create_graph(&c);
    let fk_node = NodeId::Constraint {
        table: qn("app", "users"),
        name: id("users_orgs_fk"),
    };
    // Owning-table edge.
    assert!(has_edge(&g, &fk_node, &NodeId::Table(qn("app", "users"))));
    // Referenced-table edge.
    assert!(has_edge(&g, &fk_node, &NodeId::Table(qn("app", "orgs"))));
}

#[test]
fn table_depends_on_default_sequence() {
    let mut c = Catalog::empty();
    c.sequences.push(Sequence {
        qname: qn("app", "id_seq"),
        data_type: ColumnType::BigInt,
        start: 1,
        increment: 1,
        min_value: None,
        max_value: None,
        cache: 1,
        cycle: false,
        owned_by: None,
        comment: None,
        owner: None,
        grants: vec![],
    });
    c.tables.push(Table {
        qname: qn("app", "users"),
        columns: vec![Column {
            name: id("id"),
            ty: ColumnType::BigInt,
            nullable: false,
            default: Some(DefaultExpr::Sequence(qn("app", "id_seq"))),
            identity: None,
            generated: None,
            collation: None,
            storage: None,
            compression: None,
            comment: None,
        }],
        constraints: vec![],
        partition_by: None,
        partition_of: None,
        comment: None,
        owner: None,
        grants: vec![],
        rls_enabled: false,
        rls_forced: false,
        policies: vec![],
        storage: TableStorageOptions::default(),
    });
    let g = build_create_graph(&c);
    assert!(has_edge(
        &g,
        &NodeId::Table(qn("app", "users")),
        &NodeId::Sequence(qn("app", "id_seq")),
    ));
}

#[test]
fn owned_sequence_depends_on_owner_table() {
    let mut c = Catalog::empty();
    c.tables.push(Table {
        qname: qn("app", "users"),
        columns: vec![col_id_bigint()],
        constraints: vec![],
        partition_by: None,
        partition_of: None,
        comment: None,
        owner: None,
        grants: vec![],
        rls_enabled: false,
        rls_forced: false,
        policies: vec![],
        storage: TableStorageOptions::default(),
    });
    c.sequences.push(Sequence {
        qname: qn("app", "users_id_seq"),
        data_type: ColumnType::BigInt,
        start: 1,
        increment: 1,
        min_value: None,
        max_value: None,
        cache: 1,
        cycle: false,
        owned_by: Some(SequenceOwner {
            table: qn("app", "users"),
            column: id("id"),
        }),
        comment: None,
        owner: None,
        grants: vec![],
    });
    let g = build_create_graph(&c);
    assert!(has_edge(
        &g,
        &NodeId::Sequence(qn("app", "users_id_seq")),
        &NodeId::Table(qn("app", "users")),
    ));
}

#[test]
fn non_fk_constraint_depends_only_on_its_table() {
    let mut c = Catalog::empty();
    c.tables.push(Table {
        qname: qn("app", "users"),
        columns: vec![col_id_bigint()],
        constraints: vec![pk("users_pkey", &["id"])],
        partition_by: None,
        partition_of: None,
        comment: None,
        owner: None,
        grants: vec![],
        rls_enabled: false,
        rls_forced: false,
        policies: vec![],
        storage: TableStorageOptions::default(),
    });
    let g = build_create_graph(&c);
    let pk_node = NodeId::Constraint {
        table: qn("app", "users"),
        name: id("users_pkey"),
    };
    let deps: Vec<&NodeId> = g.dependencies_of(&pk_node);
    assert_eq!(deps, vec![&NodeId::Table(qn("app", "users"))]);
}

#[test]
fn drop_graph_matches_create_graph() {
    let mut c = Catalog::empty();
    c.tables.push(Table {
        qname: qn("app", "users"),
        columns: vec![col_id_bigint()],
        constraints: vec![pk("users_pkey", &["id"])],
        partition_by: None,
        partition_of: None,
        comment: None,
        owner: None,
        grants: vec![],
        rls_enabled: false,
        rls_forced: false,
        policies: vec![],
        storage: TableStorageOptions::default(),
    });
    // Same edges; equality is structural via topological output.
    let cg = build_create_graph(&c);
    let dg = build_drop_graph(&c);
    assert_eq!(cg.topological_sort(), dg.topological_sort());
}

#[test]
fn fk_cycle_produces_table_level_cycle() {
    // Two tables with FKs to each other; each FK induces an inline-create
    // edge table → referenced_table, so the table subgraph cycles.
    let mut c = Catalog::empty();
    c.tables.push(Table {
        qname: qn("app", "a"),
        columns: vec![
            col_id_bigint(),
            Column {
                name: id("ref_id"),
                ty: ColumnType::BigInt,
                nullable: false,
                default: None,
                identity: None,
                generated: None,
                collation: None,
                storage: None,
                compression: None,
                comment: None,
            },
        ],
        constraints: vec![pk("a_pk", &["id"]), fk("a_to_b", qn("app", "b"))],
        partition_by: None,
        partition_of: None,
        comment: None,
        owner: None,
        grants: vec![],
        rls_enabled: false,
        rls_forced: false,
        policies: vec![],
        storage: TableStorageOptions::default(),
    });
    c.tables.push(Table {
        qname: qn("app", "b"),
        columns: vec![
            col_id_bigint(),
            Column {
                name: id("ref_id"),
                ty: ColumnType::BigInt,
                nullable: false,
                default: None,
                identity: None,
                generated: None,
                collation: None,
                storage: None,
                compression: None,
                comment: None,
            },
        ],
        constraints: vec![pk("b_pk", &["id"]), fk("b_to_a", qn("app", "a"))],
        partition_by: None,
        partition_of: None,
        comment: None,
        owner: None,
        grants: vec![],
        rls_enabled: false,
        rls_forced: false,
        policies: vec![],
        storage: TableStorageOptions::default(),
    });
    let g = build_create_graph(&c);
    let err = g.topological_sort().unwrap_err();
    assert!(err.nodes.contains(&NodeId::Table(qn("app", "a"))));
    assert!(err.nodes.contains(&NodeId::Table(qn("app", "b"))));
}

#[test]
fn self_referential_fk_does_not_cycle() {
    // A self-referential FK doesn't force the table to depend on itself —
    // the rows are inserted after the table exists.
    let mut c = Catalog::empty();
    c.tables.push(Table {
        qname: qn("app", "tree"),
        columns: vec![
            col_id_bigint(),
            Column {
                name: id("ref_id"),
                ty: ColumnType::BigInt,
                nullable: true,
                default: None,
                identity: None,
                generated: None,
                collation: None,
                storage: None,
                compression: None,
                comment: None,
            },
        ],
        constraints: vec![
            pk("tree_pk", &["id"]),
            fk("tree_parent_fk", qn("app", "tree")),
        ],
        partition_by: None,
        partition_of: None,
        comment: None,
        owner: None,
        grants: vec![],
        rls_enabled: false,
        rls_forced: false,
        policies: vec![],
        storage: TableStorageOptions::default(),
    });
    let g = build_create_graph(&c);
    assert!(g.topological_sort().is_ok());
}

#[test]
fn partition_child_depends_on_parent() {
    // A partition child table depends on its parent table being created first.
    let mut c = Catalog::empty();

    // Parent table with PARTITION BY LIST.
    let parent = Table {
        qname: qn("app", "parent"),
        columns: vec![col_id_bigint(), col_text_notnull("status")],
        constraints: vec![pk("parent_pkey", &["id"])],
        partition_by: Some(PartitionBy {
            strategy: PartitionStrategy::List,
            columns: vec![PartitionColumn {
                kind: PartitionColumnKind::Column(id("status")),
                collation: None,
                opclass: None,
            }],
        }),
        partition_of: None,
        comment: None,
        owner: None,
        grants: vec![],
        rls_enabled: false,
        rls_forced: false,
        policies: vec![],
        storage: TableStorageOptions::default(),
    };
    c.tables.push(parent);

    // Child partition table.
    let child = Table {
        qname: qn("app", "child"),
        columns: vec![col_id_bigint(), col_text_notnull("status")],
        constraints: vec![],
        partition_by: None,
        partition_of: Some(PartitionOf {
            parent: qn("app", "parent"),
            bounds: PartitionBounds::List { values: vec![] },
        }),
        comment: None,
        owner: None,
        grants: vec![],
        rls_enabled: false,
        rls_forced: false,
        policies: vec![],
        storage: TableStorageOptions::default(),
    };
    c.tables.push(child);

    let g = build_create_graph(&c);
    assert!(
        has_edge(
            &g,
            &NodeId::Table(qn("app", "child")),
            &NodeId::Table(qn("app", "parent")),
        ),
        "expected child partition → parent table edge"
    );
}

// ── User-defined type edge tests ──────────────────────────────────────────

fn make_enum(schema: &str, name: &str) -> UserType {
    UserType {
        qname: qn(schema, name),
        kind: UserTypeKind::Enum { values: vec![] },
        comment: None,
        owner: None,
        grants: vec![],
    }
}

fn make_composite_with_attr(schema: &str, name: &str, attr_type: ColumnType) -> UserType {
    UserType {
        qname: qn(schema, name),
        kind: UserTypeKind::Composite {
            attributes: vec![CompositeAttribute {
                name: id("val"),
                ty: attr_type,
                collation: None,
            }],
        },
        comment: None,
        owner: None,
        grants: vec![],
    }
}

fn make_domain_over(schema: &str, name: &str, base: ColumnType) -> UserType {
    UserType {
        qname: qn(schema, name),
        kind: UserTypeKind::Domain {
            base,
            nullable: true,
            default: None,
            check_constraints: vec![],
            collation: None,
        },
        comment: None,
        owner: None,
        grants: vec![],
    }
}

#[test]
fn type_nodes_registered() {
    let mut c = Catalog::empty();
    c.schemas.push(Schema::new(id("app")));
    c.types.push(make_enum("app", "status"));
    let g = build_create_graph(&c);
    // Type depends ONLY on its schema (no other edges for a bare enum).
    let deps: Vec<_> = g
        .dependencies_of(&NodeId::Type(qn("app", "status")));
    assert_eq!(deps, vec![&NodeId::Schema(id("app"))]);
    // Both the schema node and the type node are registered.
    assert_eq!(g.node_count(), 2);
}

#[test]
fn table_depends_on_user_defined_column_type() {
    let mut c = Catalog::empty();
    c.types.push(make_enum("app", "status"));
    c.tables.push(Table {
        qname: qn("app", "orders"),
        columns: vec![Column {
            name: id("status"),
            ty: ColumnType::UserDefined(qn("app", "status")),
            nullable: false,
            default: None,
            identity: None,
            generated: None,
            collation: None,
            storage: None,
            compression: None,
            comment: None,
        }],
        constraints: vec![],
        partition_by: None,
        partition_of: None,
        comment: None,
        owner: None,
        grants: vec![],
        rls_enabled: false,
        rls_forced: false,
        policies: vec![],
        storage: TableStorageOptions::default(),
    });
    let g = build_create_graph(&c);
    assert!(
        has_edge(
            &g,
            &NodeId::Table(qn("app", "orders")),
            &NodeId::Type(qn("app", "status"))
        ),
        "table must depend on its user-defined column type"
    );
}

#[test]
fn composite_depends_on_user_defined_attribute_type() {
    let mut c = Catalog::empty();
    c.types.push(make_enum("app", "inner_t"));
    c.types.push(make_composite_with_attr(
        "app",
        "outer_t",
        ColumnType::UserDefined(qn("app", "inner_t")),
    ));
    let g = build_create_graph(&c);
    assert!(
        has_edge(
            &g,
            &NodeId::Type(qn("app", "outer_t")),
            &NodeId::Type(qn("app", "inner_t"))
        ),
        "composite must depend on the type of its user-defined attribute"
    );
}

#[test]
fn domain_depends_on_user_defined_base_type() {
    let mut c = Catalog::empty();
    c.types.push(make_enum("app", "base_t"));
    c.types.push(make_domain_over(
        "app",
        "derived_t",
        ColumnType::UserDefined(qn("app", "base_t")),
    ));
    let g = build_create_graph(&c);
    assert!(
        has_edge(
            &g,
            &NodeId::Type(qn("app", "derived_t")),
            &NodeId::Type(qn("app", "base_t"))
        ),
        "domain must depend on its user-defined base type"
    );
}

// ── Range type edge tests ────────────────────────────────────────────────

fn make_range(
    schema: &str,
    name: &str,
    subtype: QualifiedName,
    canonical: Option<QualifiedName>,
    subtype_diff: Option<QualifiedName>,
) -> UserType {
    UserType {
        qname: qn(schema, name),
        kind: UserTypeKind::Range {
            subtype,
            subtype_opclass: None,
            collation: None,
            canonical,
            subtype_diff,
            multirange_type_name: None,
        },
        comment: None,
        owner: None,
        grants: vec![],
    }
}

fn make_function(schema: &str, name: &str) -> Function {
    Function {
        qname: qn(schema, name),
        args: vec![],
        arg_types_normalized: NormalizedArgTypes::from_args(&[]),
        return_type: ReturnType::Scalar {
            ty: ColumnType::Integer,
        },
        language: FunctionLanguage::Sql,
        body: NormalizedBody::empty(),
        body_dependencies: vec![],
        volatility: Volatility::Volatile,
        strict: false,
        security: SecurityMode::Invoker,
        parallel: ParallelSafety::Unsafe,
        leakproof: false,
        cost: None,
        rows: None,
        comment: None,
        owner: None,
        grants: vec![],
    }
}

#[test]
fn range_with_builtin_subtype_adds_no_subtype_edge() {
    let mut c = Catalog::empty();
    c.schemas.push(Schema::new(id("app")));
    c.types.push(make_range(
        "app",
        "ir",
        qn("pg_catalog", "int4"),
        None,
        None,
    ));
    let g = build_create_graph(&c);
    // Type edges: only schema; no edge to pg_catalog.int4.
    let deps: Vec<&NodeId> = g.dependencies_of(&NodeId::Type(qn("app", "ir")));
    assert_eq!(deps, vec![&NodeId::Schema(id("app"))]);
}

#[test]
fn range_with_managed_subtype_adds_type_edge() {
    let mut c = Catalog::empty();
    c.schemas.push(Schema::new(id("app")));
    c.types.push(make_enum("app", "base_t"));
    c.types.push(make_range(
        "app",
        "myrange",
        qn("app", "base_t"),
        None,
        None,
    ));
    let g = build_create_graph(&c);
    assert!(
        has_edge(
            &g,
            &NodeId::Type(qn("app", "myrange")),
            &NodeId::Type(qn("app", "base_t"))
        ),
        "range type must depend on its managed subtype"
    );
}

#[test]
fn range_canonical_fn_adds_function_edge() {
    let mut c = Catalog::empty();
    c.schemas.push(Schema::new(id("app")));
    let f = make_function("app", "canon_fn");
    let arg_types = f.arg_types_normalized.clone();
    c.functions.push(f);
    c.types.push(make_range(
        "app",
        "myrange",
        qn("pg_catalog", "int4"),
        Some(qn("app", "canon_fn")),
        None,
    ));
    let g = build_create_graph(&c);
    assert!(
        has_edge(
            &g,
            &NodeId::Type(qn("app", "myrange")),
            &NodeId::Function(qn("app", "canon_fn"), arg_types),
        ),
        "range type must depend on its canonical function"
    );
}

#[test]
fn range_subtype_diff_fn_adds_function_edge() {
    let mut c = Catalog::empty();
    c.schemas.push(Schema::new(id("app")));
    let f = make_function("app", "diff_fn");
    let arg_types = f.arg_types_normalized.clone();
    c.functions.push(f);
    c.types.push(make_range(
        "app",
        "myrange",
        qn("pg_catalog", "int4"),
        None,
        Some(qn("app", "diff_fn")),
    ));
    let g = build_create_graph(&c);
    assert!(
        has_edge(
            &g,
            &NodeId::Type(qn("app", "myrange")),
            &NodeId::Function(qn("app", "diff_fn"), arg_types),
        ),
        "range type must depend on its subtype_diff function"
    );
}

#[test]
fn range_unmanaged_canonical_fn_adds_no_edge() {
    // canonical references a function that is NOT in the source catalog.
    // No edge should be added (the lint rule would surface this later).
    let mut c = Catalog::empty();
    c.schemas.push(Schema::new(id("app")));
    c.types.push(make_range(
        "app",
        "myrange",
        qn("pg_catalog", "int4"),
        Some(qn("app", "unmanaged_fn")),
        None,
    ));
    let g = build_create_graph(&c);
    // Only the schema edge.
    let deps: Vec<&NodeId> = g
        .dependencies_of(&NodeId::Type(qn("app", "myrange")));
    assert_eq!(deps, vec![&NodeId::Schema(id("app"))]);
}

// ── Collation edge tests ─────────────────────────────────────────────────

fn make_collation(schema: &str, name: &str) -> Collation {
    Collation {
        qname: qn(schema, name),
        provider: CollationProvider::Libc,
        lc_collate: "C".into(),
        lc_ctype: "C".into(),
        deterministic: true,
        version: None,
        owner: None,
        comment: None,
    }
}

fn make_table_empty(schema: &str, name: &str) -> Table {
    Table {
        qname: qn(schema, name),
        columns: vec![],
        constraints: vec![],
        partition_by: None,
        partition_of: None,
        comment: None,
        owner: None,
        grants: vec![],
        rls_enabled: false,
        rls_forced: false,
        policies: vec![],
        storage: TableStorageOptions::default(),
    }
}

fn col_text_with_collation(name: &str, collation: QualifiedName) -> Column {
    Column {
        name: id(name),
        ty: ColumnType::Text,
        nullable: true,
        default: None,
        identity: None,
        generated: None,
        collation: Some(collation),
        storage: None,
        compression: None,
        comment: None,
    }
}

fn make_domain_with_collation(schema: &str, name: &str, collation: QualifiedName) -> UserType {
    UserType {
        qname: qn(schema, name),
        kind: UserTypeKind::Domain {
            base: ColumnType::Text,
            nullable: true,
            default: None,
            check_constraints: vec![],
            collation: Some(collation),
        },
        comment: None,
        owner: None,
        grants: vec![],
    }
}

fn make_range_with_collation(
    schema: &str,
    name: &str,
    subtype: QualifiedName,
    collation: QualifiedName,
) -> UserType {
    UserType {
        qname: qn(schema, name),
        kind: UserTypeKind::Range {
            subtype,
            subtype_opclass: None,
            collation: Some(collation),
            canonical: None,
            subtype_diff: None,
            multirange_type_name: None,
        },
        comment: None,
        owner: None,
        grants: vec![],
    }
}

fn make_composite_with_collated_attr(
    schema: &str,
    name: &str,
    collation: QualifiedName,
) -> UserType {
    UserType {
        qname: qn(schema, name),
        kind: UserTypeKind::Composite {
            attributes: vec![CompositeAttribute {
                name: id("val"),
                ty: ColumnType::Text,
                collation: Some(collation),
            }],
        },
        comment: None,
        owner: None,
        grants: vec![],
    }
}

#[test]
fn collation_node_registered() {
    let mut c = Catalog::empty();
    c.schemas.push(Schema::new(id("app")));
    c.collations.push(make_collation("app", "ci"));
    let g = build_create_graph(&c);
    // schema + collation nodes; the collation depends on its schema.
    assert_eq!(g.node_count(), 2);
}

#[test]
fn column_with_managed_collation_adds_edge() {
    let mut cat = Catalog::empty();
    cat.schemas.push(Schema::new(id("app")));
    cat.collations.push(make_collation("app", "ci"));
    let mut t = make_table_empty("app", "users");
    t.columns
        .push(col_text_with_collation("email", qn("app", "ci")));
    cat.tables.push(t);
    let g = build_create_graph(&cat);
    assert!(
        has_edge(
            &g,
            &NodeId::Table(qn("app", "users")),
            &NodeId::Collation(qn("app", "ci")),
        ),
        "table must depend on its column's managed collation"
    );
}

#[test]
fn column_with_pg_catalog_collation_no_edge() {
    let mut cat = Catalog::empty();
    cat.schemas.push(Schema::new(id("app")));
    let mut t = make_table_empty("app", "users");
    t.columns
        .push(col_text_with_collation("email", qn("pg_catalog", "C")));
    cat.tables.push(t);
    let g = build_create_graph(&cat);
    assert!(
        !g.edges().iter().any(|(_, to)| matches!(to, NodeId::Collation(_))),
        "no collation edge should be added for pg_catalog.C"
    );
}

#[test]
fn column_with_builtin_shortname_collation_no_edge() {
    // Even with no schema (or any schema), the builtin shortname `POSIX`
    // should be skipped because it's in BUILTIN_COLLATIONS.
    let mut cat = Catalog::empty();
    cat.schemas.push(Schema::new(id("app")));
    let mut t = make_table_empty("app", "users");
    t.columns
        .push(col_text_with_collation("email", qn("app", "POSIX")));
    cat.tables.push(t);
    let g = build_create_graph(&cat);
    assert!(!g.edges().iter().any(|(_, to)| matches!(to, NodeId::Collation(_))),);
}

#[test]
fn column_with_unmanaged_collation_no_edge() {
    // Source references a collation that isn't in catalog.collations →
    // no edge (the lint rule surfaces the drift; here we just don't add
    // a phantom edge to a node that doesn't exist).
    let mut cat = Catalog::empty();
    cat.schemas.push(Schema::new(id("app")));
    let mut t = make_table_empty("app", "users");
    t.columns
        .push(col_text_with_collation("email", qn("app", "unmanaged")));
    cat.tables.push(t);
    let g = build_create_graph(&cat);
    assert!(!g.edges().iter().any(|(_, to)| matches!(to, NodeId::Collation(_))),);
}

#[test]
fn domain_with_managed_collation_adds_edge() {
    let mut cat = Catalog::empty();
    cat.schemas.push(Schema::new(id("app")));
    cat.collations.push(make_collation("app", "ci"));
    cat.types.push(make_domain_with_collation(
        "app",
        "email_t",
        qn("app", "ci"),
    ));
    let g = build_create_graph(&cat);
    assert!(
        has_edge(
            &g,
            &NodeId::Type(qn("app", "email_t")),
            &NodeId::Collation(qn("app", "ci")),
        ),
        "domain must depend on its managed collation"
    );
}

#[test]
fn domain_with_pg_catalog_collation_no_edge() {
    let mut cat = Catalog::empty();
    cat.schemas.push(Schema::new(id("app")));
    cat.types.push(make_domain_with_collation(
        "app",
        "email_t",
        qn("pg_catalog", "C"),
    ));
    let g = build_create_graph(&cat);
    assert!(!g.edges().iter().any(|(_, to)| matches!(to, NodeId::Collation(_))),);
}

#[test]
fn range_with_managed_collation_adds_edge() {
    let mut cat = Catalog::empty();
    cat.schemas.push(Schema::new(id("app")));
    cat.collations.push(make_collation("app", "ci"));
    cat.types.push(make_range_with_collation(
        "app",
        "textrange",
        qn("pg_catalog", "text"),
        qn("app", "ci"),
    ));
    let g = build_create_graph(&cat);
    assert!(
        has_edge(
            &g,
            &NodeId::Type(qn("app", "textrange")),
            &NodeId::Collation(qn("app", "ci")),
        ),
        "range type must depend on its managed collation"
    );
}

#[test]
fn range_with_pg_catalog_collation_no_edge() {
    let mut cat = Catalog::empty();
    cat.schemas.push(Schema::new(id("app")));
    cat.types.push(make_range_with_collation(
        "app",
        "textrange",
        qn("pg_catalog", "text"),
        qn("pg_catalog", "C"),
    ));
    let g = build_create_graph(&cat);
    assert!(!g.edges().iter().any(|(_, to)| matches!(to, NodeId::Collation(_))),);
}

#[test]
fn composite_attribute_with_managed_collation_adds_edge() {
    let mut cat = Catalog::empty();
    cat.schemas.push(Schema::new(id("app")));
    cat.collations.push(make_collation("app", "ci"));
    cat.types.push(make_composite_with_collated_attr(
        "app",
        "addr_t",
        qn("app", "ci"),
    ));
    let g = build_create_graph(&cat);
    assert!(
        has_edge(
            &g,
            &NodeId::Type(qn("app", "addr_t")),
            &NodeId::Collation(qn("app", "ci")),
        ),
        "composite type must depend on collation of a collated attribute"
    );
}

#[test]
fn composite_attribute_with_pg_catalog_collation_no_edge() {
    let mut cat = Catalog::empty();
    cat.schemas.push(Schema::new(id("app")));
    cat.types.push(make_composite_with_collated_attr(
        "app",
        "addr_t",
        qn("pg_catalog", "C"),
    ));
    let g = build_create_graph(&cat);
    assert!(!g.edges().iter().any(|(_, to)| matches!(to, NodeId::Collation(_))),);
}

#[test]
fn collation_ordered_before_table_using_it() {
    // Topological sort must place the collation before the table that
    // references it (since the edge is Table → Collation).
    let mut cat = Catalog::empty();
    cat.schemas.push(Schema::new(id("app")));
    cat.collations.push(make_collation("app", "ci"));
    let mut t = make_table_empty("app", "users");
    t.columns
        .push(col_text_with_collation("email", qn("app", "ci")));
    cat.tables.push(t);
    let g = build_create_graph(&cat);
    let order = g.topological_sort().expect("no cycle");
    let coll_pos = order
        .iter()
        .position(|n| n == &NodeId::Collation(qn("app", "ci")))
        .expect("collation in order");
    let table_pos = order
        .iter()
        .position(|n| n == &NodeId::Table(qn("app", "users")))
        .expect("table in order");
    assert!(
        coll_pos < table_pos,
        "collation must be created before the table that uses it"
    );
}

#[test]
fn type_create_ordering_respects_edges() {
    // derived_t depends on base_t; topological sort must put base_t first.
    let mut c = Catalog::empty();
    c.types.push(make_enum("app", "base_t"));
    c.types.push(make_domain_over(
        "app",
        "derived_t",
        ColumnType::UserDefined(qn("app", "base_t")),
    ));
    let g = build_create_graph(&c);
    let order = g.topological_sort().expect("no cycle expected");
    let base_pos = order
        .iter()
        .position(|n| n == &NodeId::Type(qn("app", "base_t")))
        .expect("base_t in order");
    let derived_pos = order
        .iter()
        .position(|n| n == &NodeId::Type(qn("app", "derived_t")))
        .expect("derived_t in order");
    assert!(base_pos < derived_pos, "base_t must come before derived_t");
}
