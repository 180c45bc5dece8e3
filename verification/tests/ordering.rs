use pgevolve_plan::diff::change::{Change, ChangeEntry, ChangeSet, CollationChange, UserTypeChange};
use pgevolve_plan::diff::destructiveness::Destructiveness;
use pgevolve_plan::diff::table_op::{TableOp, TableOpEntry};
use pgevolve_plan::identifier::{Identifier, QualifiedName};
use pgevolve_plan::ir::catalog::Catalog;
use pgevolve_plan::ir::collation::{Collation, CollationProvider};
use pgevolve_plan::ir::column_type::ColumnType;
use pgevolve_plan::ir::constraint::{Constraint, ConstraintKind, Deferrable, FkMatchType, ForeignKey, ReferentialAction};
use pgevolve_plan::ir::index::{Index, IndexColumn, IndexColumnExpr, IndexMethod, IndexParent, NullsOrder, SortOrder};
use pgevolve_plan::ir::reloptions::{IndexStorageOptions, TableStorageOptions};
use pgevolve_plan::ir::schema::Schema;
use pgevolve_plan::ir::sequence::Sequence;
use pgevolve_plan::ir::table::{Column, Table};
use pgevolve_plan::ir::user_type::{UserType, UserTypeKind};
use pgevolve_plan::plan::ordering::order;
use pgevolve_plan::plan::policy::PlannerPolicy;

fn id(s: &str) -> Identifier {
    Identifier::from_unquoted(s).unwrap()
}

fn qn(schema: &str, name: &str) -> QualifiedName {
    QualifiedName::new(id(schema), id(name))
}

fn col(name: &str, ty: ColumnType, nullable: bool) -> Column {
    Column {
        name: id(name),
        ty,
        nullable,
        default: None,
        identity: None,
        generated: None,
        collation: None,
        storage: None,
        compression: None,
        comment: None,
    }
}

fn pk(name: &str, cols: &[&str]) -> Constraint {
    Constraint {
        qname: qn("app", name),
        kind: ConstraintKind::PrimaryKey {
            columns: cols.iter().map(|c| id(c)).collect(),
            included: vec![],
        },
        deferrable: Deferrable::NotDeferrable,
        comment: None,
    }
}

fn fk(name: &str, cols: &[&str], ref_table: QualifiedName, ref_cols: &[&str]) -> Constraint {
    Constraint {
        qname: qn("app", name),
        kind: ConstraintKind::ForeignKey(ForeignKey {
            columns: cols.iter().map(|c| id(c)).collect(),
            referenced_table: ref_table,
            referenced_columns: ref_cols.iter().map(|c| id(c)).collect(),
            on_update: ReferentialAction::NoAction,
            on_delete: ReferentialAction::NoAction,
            match_type: FkMatchType::Simple,
        }),
        deferrable: Deferrable::NotDeferrable,
        comment: None,
    }
}

fn make_index(name: &str, table: QualifiedName) -> Index {
    Index {
        qname: qn("app", name),
        on: IndexParent::Table(table),
        method: IndexMethod::BTree,
        columns: vec![IndexColumn {
            expr: IndexColumnExpr::Column(id("id")),
            collation: None,
            opclass: None,
            sort_order: SortOrder::Asc,
            nulls_order: NullsOrder::NullsLast,
        }],
        included: vec![],
        unique: false,
        nulls_not_distinct: false,
        predicate: None,
        tablespace: None,
        comment: None,
        storage: IndexStorageOptions::default(),
    }
}

fn safe(change: Change) -> ChangeEntry {
    ChangeEntry {
        change,
        destructiveness: Destructiveness::Safe,
    }
}

fn drop(change: Change) -> ChangeEntry {
    ChangeEntry {
        change,
        destructiveness: Destructiveness::RequiresApproval {
            reason: "drop".into(),
        },
    }
}

/// Helper: position of an entry's node in a slice of entries.
fn pos<F: Fn(&Change) -> bool>(entries: &[ChangeEntry], pred: F) -> usize {
    entries
        .iter()
        .position(|e| pred(&e.change))
        .expect("entry not found")
}

#[test]
fn empty_changeset_yields_empty_ordered_set() {
    let target = Catalog::empty();
    let source = Catalog::empty();
    let result = order(
        &target,
        &source,
        ChangeSet::new(),
        &PlannerPolicy::default(),
    )
    .unwrap();
    assert!(result.is_empty());
}

#[test]
fn linear_schema_table_index_orders_in_dependency_order() {
    // source has schema app, table users in app, index users_idx on users
    let mut source = Catalog::empty();
    source.schemas.push(Schema::new(id("app")));
    source.tables.push(Table {
        qname: qn("app", "users"),
        columns: vec![col("id", ColumnType::BigInt, false)],
        constraints: vec![],
        partition_by: None,
        partition_of: None,
        comment: None,
        owner: None,
        grants: vec![],
        rls_enabled: false,
        rls_forced: false,
        policies: vec![],
        storage: TableStorageOptions::default(),
    });
    source
        .indexes
        .push(make_index("users_idx", qn("app", "users")));

    let mut cs = ChangeSet::new();
    // Push in deliberately wrong order to confirm the planner sorts.
    cs.push(
        Change::CreateIndex(make_index("users_idx", qn("app", "users"))),
        Destructiveness::Safe,
    );
    cs.push(
        Change::CreateTable(source.tables[0].clone()),
        Destructiveness::Safe,
    );
    cs.push(
        Change::CreateSchema(Schema::new(id("app"))),
        Destructiveness::Safe,
    );

    let result = order(&Catalog::empty(), &source, cs, &PlannerPolicy::default()).unwrap();
    assert_eq!(result.creates_and_adds.len(), 3);

    let schema_pos = pos(&result.creates_and_adds, |c| {
        matches!(c, Change::CreateSchema(_))
    });
    let table_pos = pos(&result.creates_and_adds, |c| {
        matches!(c, Change::CreateTable(_))
    });
    let index_pos = pos(&result.creates_and_adds, |c| {
        matches!(c, Change::CreateIndex(_))
    });
    assert!(schema_pos < table_pos);
    assert!(table_pos < index_pos);
}

#[test]
fn fk_between_independent_tables_orders_referenced_first() {
    // source: orgs (referenced) and users (with FK to orgs).
    let mut source = Catalog::empty();
    source.schemas.push(Schema::new(id("app")));
    source.tables.push(Table {
        qname: qn("app", "orgs"),
        columns: vec![col("id", ColumnType::BigInt, false)],
        constraints: vec![pk("orgs_pkey", &["id"])],
        partition_by: None,
        partition_of: None,
        comment: None,
        owner: None,
        grants: vec![],
        rls_enabled: false,
        rls_forced: false,
        policies: vec![],
        storage: TableStorageOptions::default(),
    });
    source.tables.push(Table {
        qname: qn("app", "users"),
        columns: vec![
            col("id", ColumnType::BigInt, false),
            col("org_id", ColumnType::BigInt, false),
        ],
        constraints: vec![
            pk("users_pkey", &["id"]),
            fk("users_org_fk", &["org_id"], qn("app", "orgs"), &["id"]),
        ],
        partition_by: None,
        partition_of: None,
        comment: None,
        owner: None,
        grants: vec![],
        rls_enabled: false,
        rls_forced: false,
        policies: vec![],
        storage: TableStorageOptions::default(),
    });

    let mut cs = ChangeSet::new();
    cs.push(
        Change::CreateTable(source.tables[1].clone()), // users first
        Destructiveness::Safe,
    );
    cs.push(
        Change::CreateTable(source.tables[0].clone()), // orgs second
        Destructiveness::Safe,
    );
    cs.push(
        Change::CreateSchema(Schema::new(id("app"))),
        Destructiveness::Safe,
    );

    let result = order(&Catalog::empty(), &source, cs, &PlannerPolicy::default()).unwrap();
    assert!(result.deferred_fks.is_empty());
    let orgs_pos = result
        .creates_and_adds
        .iter()
        .position(
            |e| matches!(&e.change, Change::CreateTable(t) if t.qname == qn("app", "orgs")),
        )
        .unwrap();
    let users_pos = result
        .creates_and_adds
        .iter()
        .position(
            |e| matches!(&e.change, Change::CreateTable(t) if t.qname == qn("app", "users")),
        )
        .unwrap();
    assert!(orgs_pos < users_pos);
}

#[test]
fn two_table_fk_cycle_extracts_one_or_more_fks() {
    // a.id, a.ref_id (FK -> b); b.id, b.ref_id (FK -> a).
    let mut source = Catalog::empty();
    source.schemas.push(Schema::new(id("app")));
    source.tables.push(Table {
        qname: qn("app", "a"),
        columns: vec![
            col("id", ColumnType::BigInt, false),
            col("ref_id", ColumnType::BigInt, false),
        ],
        constraints: vec![
            pk("a_pk", &["id"]),
            fk("a_to_b", &["ref_id"], qn("app", "b"), &["id"]),
        ],
        partition_by: None,
        partition_of: None,
        comment: None,
        owner: None,
        grants: vec![],
        rls_enabled: false,
        rls_forced: false,
        policies: vec![],
        storage: TableStorageOptions::default(),
    });
    source.tables.push(Table {
        qname: qn("app", "b"),
        columns: vec![
            col("id", ColumnType::BigInt, false),
            col("ref_id", ColumnType::BigInt, false),
        ],
        constraints: vec![
            pk("b_pk", &["id"]),
            fk("b_to_a", &["ref_id"], qn("app", "a"), &["id"]),
        ],
        partition_by: None,
        partition_of: None,
        comment: None,
        owner: None,
        grants: vec![],
        rls_enabled: false,
        rls_forced: false,
        policies: vec![],
        storage: TableStorageOptions::default(),
    });

    let mut cs = ChangeSet::new();
    cs.push(
        Change::CreateSchema(Schema::new(id("app"))),
        Destructiveness::Safe,
    );
    cs.push(
        Change::CreateTable(source.tables[0].clone()),
        Destructiveness::Safe,
    );
    cs.push(
        Change::CreateTable(source.tables[1].clone()),
        Destructiveness::Safe,
    );

    let result = order(&Catalog::empty(), &source, cs, &PlannerPolicy::default()).unwrap();
    // Both tables present in creates_and_adds, schema first.
    assert_eq!(result.creates_and_adds.len(), 3);
    // At least one FK was extracted.
    assert!(!result.deferred_fks.is_empty());
    // Each deferred entry is in fact a ForeignKey constraint.
    for d in &result.deferred_fks {
        assert!(matches!(d.constraint.kind, ConstraintKind::ForeignKey(_)));
    }
    // Total deferred + remaining FKs == original FK count (2).
    let remaining_fks: usize = result
        .creates_and_adds
        .iter()
        .map(|e| match &e.change {
            Change::CreateTable(t) => t
                .constraints
                .iter()
                .filter(|c| matches!(c.kind, ConstraintKind::ForeignKey(_)))
                .count(),
            _ => 0,
        })
        .sum();
    assert_eq!(remaining_fks + result.deferred_fks.len(), 2);
}

#[test]
fn drops_run_in_reverse_dependency_order() {
    // target: schema app, table users, index users_idx
    let mut target = Catalog::empty();
    target.schemas.push(Schema::new(id("app")));
    target.tables.push(Table {
        qname: qn("app", "users"),
        columns: vec![col("id", ColumnType::BigInt, false)],
        constraints: vec![],
        partition_by: None,
        partition_of: None,
        comment: None,
        owner: None,
        grants: vec![],
        rls_enabled: false,
        rls_forced: false,
        policies: vec![],
        storage: TableStorageOptions::default(),
    });
    target
        .indexes
        .push(make_index("users_idx", qn("app", "users")));

    let mut cs = ChangeSet::new();
    cs.push(
        Change::DropSchema(id("app")),
        Destructiveness::RequiresApproval { reason: "x".into() },
    );
    cs.push(
        Change::DropTable {
            qname: qn("app", "users"),
            row_count_estimate: None,
        },
        Destructiveness::RequiresApprovalAndDataLossWarning {
            reason: "drop users".into(),
        },
    );
    cs.push(
        Change::DropIndex(qn("app", "users_idx")),
        Destructiveness::Safe,
    );

    let result = order(&target, &Catalog::empty(), cs, &PlannerPolicy::default()).unwrap();
    assert_eq!(result.drops.len(), 3);
    let idx_pos = pos(&result.drops, |c| matches!(c, Change::DropIndex(_)));
    let table_pos = pos(&result.drops, |c| matches!(c, Change::DropTable { .. }));
    let schema_pos = pos(&result.drops, |c| matches!(c, Change::DropSchema(_)));
    // Reverse dependency: index dropped before table; table before schema.
    assert!(idx_pos < table_pos);
    assert!(table_pos < schema_pos);
}

#[test]
fn drop_fk_constraint_handled_via_alter_table_modify_bucket() {
    // ALTER TABLE entries land in `modifies`. Confirm modify-bucket
    // ordering follows source-side dependencies.
    let mut source = Catalog::empty();
    source.schemas.push(Schema::new(id("app")));
    source.tables.push(Table {
        qname: qn("app", "users"),
        columns: vec![col("id", ColumnType::BigInt, false)],
        constraints: vec![pk("users_pkey", &["id"])],
        partition_by: None,
        partition_of: None,
        comment: None,
        owner: None,
        grants: vec![],
        rls_enabled: false,
        rls_forced: false,
        policies: vec![],
        storage: TableStorageOptions::default(),
    });

    let mut cs = ChangeSet::new();
    cs.push(
        Change::AlterTable {
            qname: qn("app", "users"),
            ops: vec![],
        },
        Destructiveness::Safe,
    );

    let result = order(&Catalog::empty(), &source, cs, &PlannerPolicy::default()).unwrap();
    assert_eq!(result.modifies.len(), 1);
    assert!(result.creates_and_adds.is_empty());
    assert!(result.drops.is_empty());
}

#[test]
fn deterministic_under_input_permutation() {
    // Same source, two different changeset orderings; outputs must match.
    let mut source = Catalog::empty();
    source.schemas.push(Schema::new(id("app")));
    source.tables.push(Table {
        qname: qn("app", "orgs"),
        columns: vec![col("id", ColumnType::BigInt, false)],
        constraints: vec![pk("orgs_pkey", &["id"])],
        partition_by: None,
        partition_of: None,
        comment: None,
        owner: None,
        grants: vec![],
        rls_enabled: false,
        rls_forced: false,
        policies: vec![],
        storage: TableStorageOptions::default(),
    });
    source.tables.push(Table {
        qname: qn("app", "users"),
        columns: vec![col("id", ColumnType::BigInt, false)],
        constraints: vec![pk("users_pkey", &["id"])],
        partition_by: None,
        partition_of: None,
        comment: None,
        owner: None,
        grants: vec![],
        rls_enabled: false,
        rls_forced: false,
        policies: vec![],
        storage: TableStorageOptions::default(),
    });

    let mk_cs = |reversed: bool| {
        let mut cs = ChangeSet::new();
        let entries = [
            Change::CreateSchema(Schema::new(id("app"))),
            Change::CreateTable(source.tables[0].clone()),
            Change::CreateTable(source.tables[1].clone()),
        ];
        let iter: Box<dyn Iterator<Item = &Change>> = if reversed {
            Box::new(entries.iter().rev())
        } else {
            Box::new(entries.iter())
        };
        for c in iter {
            cs.push(c.clone(), Destructiveness::Safe);
        }
        cs
    };

    let policy = PlannerPolicy::default();
    let r1 = order(&Catalog::empty(), &source, mk_cs(false), &policy).unwrap();
    let r2 = order(&Catalog::empty(), &source, mk_cs(true), &policy).unwrap();
    assert_eq!(r1, r2);
}

#[test]
fn replace_index_lands_in_modifies() {
    let mut source = Catalog::empty();
    source.schemas.push(Schema::new(id("app")));
    source.tables.push(Table {
        qname: qn("app", "users"),
        columns: vec![col("id", ColumnType::BigInt, false)],
        constraints: vec![],
        partition_by: None,
        partition_of: None,
        comment: None,
        owner: None,
        grants: vec![],
        rls_enabled: false,
        rls_forced: false,
        policies: vec![],
        storage: TableStorageOptions::default(),
    });
    source
        .indexes
        .push(make_index("users_idx", qn("app", "users")));

    let mut cs = ChangeSet::new();
    cs.push(
        Change::ReplaceIndex {
            from: make_index("users_idx", qn("app", "users")),
            to: make_index("users_idx", qn("app", "users")),
        },
        Destructiveness::Safe,
    );

    let result = order(&Catalog::empty(), &source, cs, &PlannerPolicy::default()).unwrap();
    assert_eq!(result.modifies.len(), 1);
}

#[test]
fn alter_sequence_lands_in_modifies() {
    let mut source = Catalog::empty();
    source.sequences.push(Sequence {
        qname: qn("app", "s1"),
        data_type: ColumnType::BigInt,
        start: 1,
        increment: 1,
        min_value: None,
        max_value: None,
        cache: 1,
        cycle: false,
        owned_by: None,
        comment: None,
        owner: None,
        grants: vec![],
    });

    let mut cs = ChangeSet::new();
    cs.push(
        Change::AlterSequence {
            qname: qn("app", "s1"),
            ops: vec![],
        },
        Destructiveness::Safe,
    );

    let result = order(&Catalog::empty(), &source, cs, &PlannerPolicy::default()).unwrap();
    assert_eq!(result.modifies.len(), 1);
}

#[test]
fn three_way_fk_cycle_breaks_at_least_one() {
    // a -> b -> c -> a
    let mut source = Catalog::empty();
    source.schemas.push(Schema::new(id("app")));
    for n in ["a", "b", "c"] {
        source.tables.push(Table {
            qname: qn("app", n),
            columns: vec![
                col("id", ColumnType::BigInt, false),
                col("ref_id", ColumnType::BigInt, false),
            ],
            constraints: vec![pk(&format!("{n}_pk"), &["id"])],
            partition_by: None,
            partition_of: None,
            comment: None,
            owner: None,
            grants: vec![],
            rls_enabled: false,
            rls_forced: false,
            policies: vec![],
            storage: TableStorageOptions::default(),
        });
    }
    // Add FKs forming a cycle: a -> b, b -> c, c -> a.
    let pairs = [("a", "b"), ("b", "c"), ("c", "a")];
    for (from, to) in pairs {
        let table = source
            .tables
            .iter_mut()
            .find(|t| t.qname == qn("app", from))
            .unwrap();
        table.constraints.push(fk(
            &format!("{from}_to_{to}"),
            &["ref_id"],
            qn("app", to),
            &["id"],
        ));
    }

    let mut cs = ChangeSet::new();
    cs.push(
        Change::CreateSchema(Schema::new(id("app"))),
        Destructiveness::Safe,
    );
    for t in &source.tables {
        cs.push(Change::CreateTable(t.clone()), Destructiveness::Safe);
    }

    let result = order(&Catalog::empty(), &source, cs, &PlannerPolicy::default()).unwrap();
    assert_eq!(result.creates_and_adds.len(), 4);
    assert!(!result.deferred_fks.is_empty());
}

#[test]
fn drops_with_independent_objects_use_target_graph() {
    // Target has two independent schemas + tables; drop them all.
    let mut target = Catalog::empty();
    target.schemas.push(Schema::new(id("a")));
    target.schemas.push(Schema::new(id("b")));
    target.tables.push(Table {
        qname: QualifiedName::new(id("a"), id("t1")),
        columns: vec![col("id", ColumnType::BigInt, false)],
        constraints: vec![],
        partition_by: None,
        partition_of: None,
        comment: None,
        owner: None,
        grants: vec![],
        rls_enabled: false,
        rls_forced: false,
        policies: vec![],
        storage: TableStorageOptions::default(),
    });
    target.tables.push(Table {
        qname: QualifiedName::new(id("b"), id("t2")),
        columns: vec![col("id", ColumnType::BigInt, false)],
        constraints: vec![],
        partition_by: None,
        partition_of: None,
        comment: None,
        owner: None,
        grants: vec![],
        rls_enabled: false,
        rls_forced: false,
        policies: vec![],
        storage: TableStorageOptions::default(),
    });

    let mut cs = ChangeSet::new();
    for t in &target.tables {
        cs.push(
            Change::DropTable {
                qname: t.qname.clone(),
                row_count_estimate: None,
            },
            Destructiveness::RequiresApprovalAndDataLossWarning {
                reason: "drop".into(),
            },
        );
    }
    for s in &target.schemas {
        cs.push(
            Change::DropSchema(s.name.clone()),
            Destructiveness::RequiresApproval {
                reason: "drop".into(),
            },
        );
    }

    let result = order(&target, &Catalog::empty(), cs, &PlannerPolicy::default()).unwrap();
    assert_eq!(result.drops.len(), 4);
    // Every DropTable must precede the corresponding DropSchema.
    for table in &target.tables {
        let table_pos = result
            .drops
            .iter()
            .position(|e| matches!(&e.change, Change::DropTable { qname, .. } if qname == &table.qname))
            .unwrap();
        let schema_pos = result
            .drops
            .iter()
            .position(
                |e| matches!(&e.change, Change::DropSchema(s) if s == &table.qname.schema),
            )
            .unwrap();
        assert!(table_pos < schema_pos);
    }
}

// ---- Suppress dead-code warnings for the `drop` helper used in tests. ----
#[test]
fn _drop_helper_is_used() {
    let _ = drop(Change::DropSchema(id("x")));
    let _ = safe(Change::CreateSchema(Schema::new(id("y"))));
}

#[test]
fn drop_index_elided_when_alter_table_drops_indexed_column() {
    // Postgres cascade-drops any index whose column list references a
    // column being dropped by `ALTER TABLE ... DROP COLUMN`. If the
    // planner emits a separate `DROP INDEX` in the drops phase that runs
    // after the column drop, the explicit DROP fails with
    // `42704 (undefined_object): index "..." does not exist`.
    //
    // The planner must therefore elide such DropIndex changes — the
    // cascade is implicit in the column drop.
    let mut target = Catalog::empty();
    target.schemas.push(Schema::new(id("app")));
    target.tables.push(Table {
        qname: qn("app", "users"),
        columns: vec![
            col("id", ColumnType::BigInt, false),
            col("deleted_at", ColumnType::Text, true),
        ],
        constraints: vec![pk("users_pkey", &["id"])],
        partition_by: None,
        partition_of: None,
        comment: None,
        owner: None,
        grants: vec![],
        rls_enabled: false,
        rls_forced: false,
        policies: vec![],
        storage: TableStorageOptions::default(),
    });
    target.indexes.push(Index {
        qname: qn("app", "users_deleted_at_idx"),
        on: IndexParent::Table(qn("app", "users")),
        method: IndexMethod::BTree,
        columns: vec![IndexColumn {
            expr: IndexColumnExpr::Column(id("deleted_at")),
            collation: None,
            opclass: None,
            sort_order: SortOrder::Asc,
            nulls_order: NullsOrder::NullsLast,
        }],
        included: vec![],
        unique: false,
        nulls_not_distinct: false,
        predicate: None,
        tablespace: None,
        comment: None,
        storage: IndexStorageOptions::default(),
    });

    let mut source = Catalog::empty();
    source.schemas.push(Schema::new(id("app")));
    source.tables.push(Table {
        qname: qn("app", "users"),
        columns: vec![col("id", ColumnType::BigInt, false)],
        constraints: vec![pk("users_pkey", &["id"])],
        partition_by: None,
        partition_of: None,
        comment: None,
        owner: None,
        grants: vec![],
        rls_enabled: false,
        rls_forced: false,
        policies: vec![],
        storage: TableStorageOptions::default(),
    });

    let mut cs = ChangeSet::new();
    cs.push(
        Change::AlterTable {
            qname: qn("app", "users"),
            ops: vec![TableOpEntry {
                op: TableOp::DropColumn {
                    name: id("deleted_at"),
                    is_populated: false,
                },
                destructiveness: Destructiveness::RequiresApproval {
                    reason: "drops column".into(),
                },
            }],
        },
        Destructiveness::RequiresApproval {
            reason: "drops column".into(),
        },
    );
    cs.push(
        Change::DropIndex(qn("app", "users_deleted_at_idx")),
        Destructiveness::RequiresApproval {
            reason: "drops index".into(),
        },
    );

    let result = order(&target, &source, cs, &PlannerPolicy::default()).unwrap();
    assert_eq!(result.modifies.len(), 1, "AlterTable must stay in modifies");
    assert!(
        result.drops.is_empty(),
        "DropIndex must be elided when the indexed column is dropped in \
         the same plan; got: {:?}",
        result.drops.iter().map(|e| &e.change).collect::<Vec<_>>()
    );
}

#[test]
fn drop_index_retained_when_column_drop_unrelated() {
    // Sanity check on the elision logic: if the column being dropped is
    // not in the index's column list, the DropIndex must NOT be elided.
    let mut target = Catalog::empty();
    target.schemas.push(Schema::new(id("app")));
    target.tables.push(Table {
        qname: qn("app", "users"),
        columns: vec![
            col("id", ColumnType::BigInt, false),
            col("email", ColumnType::Text, true),
            col("unused", ColumnType::Text, true),
        ],
        constraints: vec![pk("users_pkey", &["id"])],
        partition_by: None,
        partition_of: None,
        comment: None,
        owner: None,
        grants: vec![],
        rls_enabled: false,
        rls_forced: false,
        policies: vec![],
        storage: TableStorageOptions::default(),
    });
    // Index on `email`, but the column being dropped is `unused`.
    target.indexes.push(Index {
        qname: qn("app", "users_email_idx"),
        on: IndexParent::Table(qn("app", "users")),
        method: IndexMethod::BTree,
        columns: vec![IndexColumn {
            expr: IndexColumnExpr::Column(id("email")),
            collation: None,
            opclass: None,
            sort_order: SortOrder::Asc,
            nulls_order: NullsOrder::NullsLast,
        }],
        included: vec![],
        unique: false,
        nulls_not_distinct: false,
        predicate: None,
        tablespace: None,
        comment: None,
        storage: IndexStorageOptions::default(),
    });

    let mut source = Catalog::empty();
    source.schemas.push(Schema::new(id("app")));
    source.tables.push(Table {
        qname: qn("app", "users"),
        columns: vec![
            col("id", ColumnType::BigInt, false),
            col("email", ColumnType::Text, true),
        ],
        constraints: vec![pk("users_pkey", &["id"])],
        partition_by: None,
        partition_of: None,
        comment: None,
        owner: None,
        grants: vec![],
        rls_enabled: false,
        rls_forced: false,
        policies: vec![],
        storage: TableStorageOptions::default(),
    });
    // Source still has the email index, but it's being dropped from the
    // source for an unrelated reason (simulate user removing it).

    let mut cs = ChangeSet::new();
    cs.push(
        Change::AlterTable {
            qname: qn("app", "users"),
            ops: vec![TableOpEntry {
                op: TableOp::DropColumn {
                    name: id("unused"),
                    is_populated: false,
                },
                destructiveness: Destructiveness::RequiresApproval {
                    reason: "drops column".into(),
                },
            }],
        },
        Destructiveness::RequiresApproval {
            reason: "drops column".into(),
        },
    );
    cs.push(
        Change::DropIndex(qn("app", "users_email_idx")),
        Destructiveness::RequiresApproval {
            reason: "drops index".into(),
        },
    );

    let result = order(&target, &source, cs, &PlannerPolicy::default()).unwrap();
    assert_eq!(result.modifies.len(), 1);
    assert_eq!(
        result.drops.len(),
        1,
        "DropIndex must be retained when the dropped column is unrelated"
    );
}

#[test]
fn drop_index_elided_when_indexed_column_is_in_include_list() {
    // INCLUDE columns participate in the index's storage and dropping
    // them also cascades the index.
    let mut target = Catalog::empty();
    target.schemas.push(Schema::new(id("app")));
    target.tables.push(Table {
        qname: qn("app", "users"),
        columns: vec![
            col("id", ColumnType::BigInt, false),
            col("email", ColumnType::Text, true),
            col("payload", ColumnType::Text, true),
        ],
        constraints: vec![pk("users_pkey", &["id"])],
        partition_by: None,
        partition_of: None,
        comment: None,
        owner: None,
        grants: vec![],
        rls_enabled: false,
        rls_forced: false,
        policies: vec![],
        storage: TableStorageOptions::default(),
    });
    target.indexes.push(Index {
        qname: qn("app", "users_email_idx"),
        on: IndexParent::Table(qn("app", "users")),
        method: IndexMethod::BTree,
        columns: vec![IndexColumn {
            expr: IndexColumnExpr::Column(id("email")),
            collation: None,
            opclass: None,
            sort_order: SortOrder::Asc,
            nulls_order: NullsOrder::NullsLast,
        }],
        included: vec![id("payload")],
        unique: false,
        nulls_not_distinct: false,
        predicate: None,
        tablespace: None,
        comment: None,
        storage: IndexStorageOptions::default(),
    });

    let mut source = Catalog::empty();
    source.schemas.push(Schema::new(id("app")));
    source.tables.push(Table {
        qname: qn("app", "users"),
        columns: vec![
            col("id", ColumnType::BigInt, false),
            col("email", ColumnType::Text, true),
        ],
        constraints: vec![pk("users_pkey", &["id"])],
        partition_by: None,
        partition_of: None,
        comment: None,
        owner: None,
        grants: vec![],
        rls_enabled: false,
        rls_forced: false,
        policies: vec![],
        storage: TableStorageOptions::default(),
    });

    let mut cs = ChangeSet::new();
    cs.push(
        Change::AlterTable {
            qname: qn("app", "users"),
            ops: vec![TableOpEntry {
                op: TableOp::DropColumn {
                    name: id("payload"),
                    is_populated: false,
                },
                destructiveness: Destructiveness::RequiresApproval {
                    reason: "drops column".into(),
                },
            }],
        },
        Destructiveness::RequiresApproval {
            reason: "drops column".into(),
        },
    );
    cs.push(
        Change::DropIndex(qn("app", "users_email_idx")),
        Destructiveness::RequiresApproval {
            reason: "drops index".into(),
        },
    );

    let result = order(&target, &source, cs, &PlannerPolicy::default()).unwrap();
    assert!(
        result.drops.is_empty(),
        "DropIndex must be elided when an INCLUDEd column is dropped; got: {:?}",
        result.drops.iter().map(|e| &e.change).collect::<Vec<_>>()
    );
}

// ── UserType partition / change_node tests ────────────────────────────────

fn make_enum_type(schema: &str, name: &str) -> UserType {
    UserType {
        qname: qn(schema, name),
        kind: UserTypeKind::Enum { values: vec![] },
        comment: None,
        owner: None,
        grants: vec![],
    }
}

#[test]
fn user_type_create_lands_in_creates() {
    let ut = make_enum_type("app", "status");
    let mut source = Catalog::empty();
    source.types.push(ut.clone());

    let mut cs = ChangeSet::new();
    cs.push(
        Change::UserType(UserTypeChange::Create(ut)),
        Destructiveness::Safe,
    );

    let result = order(&Catalog::empty(), &source, cs, &PlannerPolicy::default()).unwrap();
    assert_eq!(
        result.creates_and_adds.len(),
        1,
        "Create must land in creates_and_adds"
    );
    assert!(result.modifies.is_empty());
    assert!(result.drops.is_empty());
}

#[test]
fn user_type_drop_lands_in_drops() {
    let ut = make_enum_type("app", "status");
    let mut target = Catalog::empty();
    target.types.push(ut);

    let mut cs = ChangeSet::new();
    cs.push(
        Change::UserType(UserTypeChange::Drop(qn("app", "status"))),
        Destructiveness::RequiresApproval {
            reason: "drop type".into(),
        },
    );

    let result = order(&target, &Catalog::empty(), cs, &PlannerPolicy::default()).unwrap();
    assert_eq!(result.drops.len(), 1, "Drop must land in drops");
    assert!(result.creates_and_adds.is_empty());
    assert!(result.modifies.is_empty());
}

#[test]
fn user_type_replace_with_cascade_lands_in_drops() {
    let ut = make_enum_type("app", "status");
    let mut target = Catalog::empty();
    target.types.push(ut.clone());

    let mut cs = ChangeSet::new();
    cs.push(
        Change::UserType(UserTypeChange::ReplaceWithCascade {
            source: ut.clone(),
            catalog: ut,
        }),
        Destructiveness::RequiresApproval {
            reason: "cascade replace".into(),
        },
    );

    let result = order(&target, &Catalog::empty(), cs, &PlannerPolicy::default()).unwrap();
    assert_eq!(
        result.drops.len(),
        1,
        "ReplaceWithCascade must land in drops"
    );
    assert!(result.creates_and_adds.is_empty());
    assert!(result.modifies.is_empty());
}

#[test]
fn user_type_enum_add_value_lands_in_modifies() {
    let ut = make_enum_type("app", "status");
    let mut source = Catalog::empty();
    source.types.push(ut);

    let mut cs = ChangeSet::new();
    cs.push(
        Change::UserType(UserTypeChange::EnumAddValue {
            qname: qn("app", "status"),
            value: "archived".into(),
            before: None,
            after: None,
        }),
        Destructiveness::Safe,
    );

    let result = order(&Catalog::empty(), &source, cs, &PlannerPolicy::default()).unwrap();
    assert_eq!(
        result.modifies.len(),
        1,
        "EnumAddValue must land in modifies"
    );
    assert!(result.creates_and_adds.is_empty());
    assert!(result.drops.is_empty());
}

#[test]
fn user_type_create_before_table_using_it() {
    // When both a type create and a table create are in the changeset,
    // the type must come first (table depends on it in the source graph).

    let ut = make_enum_type("app", "status");
    let mut source = Catalog::empty();
    source.types.push(ut.clone());
    source.tables.push(Table {
        qname: qn("app", "orders"),
        columns: vec![Column {
            name: id("status"),
            ty: ColumnType::UserDefined(qn("app", "status")),
            nullable: false,
            default: None,
            identity: None,
            generated: None,
            collation: None,
            storage: None,
            compression: None,
            comment: None,
        }],
        constraints: vec![],
        partition_by: None,
        partition_of: None,
        comment: None,
        owner: None,
        grants: vec![],
        rls_enabled: false,
        rls_forced: false,
        policies: vec![],
        storage: TableStorageOptions::default(),
    });

    let mut cs = ChangeSet::new();
    // Deliberately push table first to verify sorting.
    cs.push(
        Change::CreateTable(source.tables[0].clone()),
        Destructiveness::Safe,
    );
    cs.push(
        Change::UserType(UserTypeChange::Create(ut)),
        Destructiveness::Safe,
    );

    let result = order(&Catalog::empty(), &source, cs, &PlannerPolicy::default()).unwrap();
    let type_pos = result
        .creates_and_adds
        .iter()
        .position(|e| matches!(&e.change, Change::UserType(UserTypeChange::Create(_))))
        .expect("type create not found");
    let table_pos = result
        .creates_and_adds
        .iter()
        .position(|e| matches!(&e.change, Change::CreateTable(_)))
        .expect("table create not found");
    assert!(
        type_pos < table_pos,
        "type must be created before the table that uses it"
    );
}

/// `DropCollation` must be ordered before
/// `DropSchema` when both appear in the drops bucket. The drop graph
/// requires a `Collation → Schema` dependency edge so that the
/// reverse-topo sort places the collation drop first.
///
/// Without the edge, ordering is non-deterministic and the generated DDL
/// may try to `DROP SCHEMA X` while collations in X are still live, which
/// PG rejects with error 2BP01.
fn coll(schema: &str, name: &str) -> Collation {
    Collation {
        qname: qn(schema, name),
        provider: CollationProvider::Libc,
        lc_collate: "C".into(),
        lc_ctype: "C".into(),
        deterministic: true,
        version: None,
        owner: None,
        comment: None,
    }
}

#[test]
fn drop_collation_ordered_before_drop_schema() {

    let mut target = Catalog::empty();
    target.schemas.push(Schema::new(id("audit")));
    target.collations.push(coll("audit", "coll_a"));
    target.collations.push(coll("audit", "coll_b"));

    let mut cs = ChangeSet::new();
    cs.push(
        Change::DropSchema(id("audit")),
        Destructiveness::RequiresApproval {
            reason: "drops schema audit".into(),
        },
    );
    cs.push(
        Change::Collation(CollationChange::Drop {
            qname: qn("audit", "coll_a"),
        }),
        Destructiveness::RequiresApproval {
            reason: "drops collation audit.coll_a".into(),
        },
    );
    cs.push(
        Change::Collation(CollationChange::Drop {
            qname: qn("audit", "coll_b"),
        }),
        Destructiveness::RequiresApproval {
            reason: "drops collation audit.coll_b".into(),
        },
    );

    let result = order(&target, &Catalog::empty(), cs, &PlannerPolicy::default()).unwrap();
    assert_eq!(result.drops.len(), 3, "expected 3 drop steps");

    let schema_pos = result
        .drops
        .iter()
        .position(|e| matches!(&e.change, Change::DropSchema(n) if n == &id("audit")))
        .expect("DropSchema(audit) not found");
    let pos_coll_a = result
        .drops
        .iter()
        .position(|e| {
            matches!(&e.change, Change::Collation(CollationChange::Drop { qname }) if qname == &qn("audit", "coll_a"))
        })
        .expect("DropCollation(audit.coll_a) not found");
    let pos_coll_b = result
        .drops
        .iter()
        .position(|e| {
            matches!(&e.change, Change::Collation(CollationChange::Drop { qname }) if qname == &qn("audit", "coll_b"))
        })
        .expect("DropCollation(audit.coll_b) not found");

    assert!(
        pos_coll_a < schema_pos,
        "collation coll_a (pos {pos_coll_a}) must be dropped before schema (pos {schema_pos})"
    );
    assert!(
        pos_coll_b < schema_pos,
        "collation coll_b (pos {pos_coll_b}) must be dropped before schema (pos {schema_pos})"
    );
}
