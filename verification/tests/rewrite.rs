use pgevolve_plan::diff::change::{
    Change, ChangeEntry, CollationChange, MvChange, PublicationChange, StatisticChange,
    SubscriptionChange, TableChange, UserTypeChange, ViewChange,
};
use pgevolve_plan::diff::destructiveness::Destructiveness;
use pgevolve_plan::diff::owner_op::{GrantableObject, OwnerOp};
use pgevolve_plan::diff::sequence_op::{SequenceOp, SequenceOpEntry};
use pgevolve_plan::diff::table_op::{TableOp, TableOpEntry};
use pgevolve_plan::identifier::{Identifier, QualifiedName};
use pgevolve_plan::ir::catalog::Catalog;
use pgevolve_plan::ir::collation::{Collation, CollationProvider};
use pgevolve_plan::ir::column_type::ColumnType;
use pgevolve_plan::ir::constraint::{
    Constraint, ConstraintKind, Deferrable, FkMatchType, ForeignKey, ReferentialAction,
};
use pgevolve_plan::ir::expr::{NormalizedBody, NormalizedExpr};
use pgevolve_plan::ir::index::{
    Index, IndexColumn, IndexColumnExpr, IndexMethod, IndexParent, NullsOrder, SortOrder,
};
use pgevolve_plan::ir::partition::PartitionBounds;
use pgevolve_plan::ir::policy::{Policy, PolicyCommand};
use pgevolve_plan::ir::reloptions::{
    IndexStorageOptions, MaterializedViewStorageOptions, TableStorageOptions,
};
use pgevolve_plan::ir::replication::{
    Publication, PublicationScope, PublishKinds, PublishedTable, Subscription,
    SubscriptionOptions,
};
use pgevolve_plan::ir::schema::Schema;
use pgevolve_plan::ir::statistic::{Statistic, StatisticKind};
use pgevolve_plan::ir::table::{Column, StorageKind, Table};
use pgevolve_plan::ir::user_type::{UserType, UserTypeKind};
use pgevolve_plan::ir::view::{CheckOption, MaterializedView, ViewDefinition};
use pgevolve_plan::plan::grouping::group_steps;
use pgevolve_plan::plan::ordered::{DeferredFkAdd, OrderedChangeSet};
use pgevolve_plan::plan::policy::{OnlineRewrites, PlannerPolicy, Strategy};
use pgevolve_plan::plan::raw_step::{RawStep, StepKind, TransactionConstraint};
use pgevolve_plan::plan::rewrite::{rewrite, rewrite_with_source};

fn id(s: &str) -> Identifier {
    Identifier::from_unquoted(s).unwrap()
}

fn qn(name: &str) -> QualifiedName {
    QualifiedName::new(id("app"), id(name))
}

fn column(name: &str) -> Column {
    Column {
        name: id(name),
        ty: ColumnType::BigInt,
        nullable: true,
        default: None,
        identity: None,
        generated: None,
        collation: None,
        storage: None,
        compression: None,
        comment: None,
    }
}

fn table(name: &str, columns: Vec<Column>) -> Table {
    Table {
        qname: qn(name),
        columns,
        constraints: vec![],
        partition_by: None,
        partition_of: None,
        comment: None,
        owner: None,
        grants: vec![],
        rls_enabled: false,
        rls_forced: false,
        policies: vec![],
        storage: TableStorageOptions::default(),
    }
}

fn index(name: &str, on: IndexParent, unique: bool) -> Index {
    Index {
        qname: qn(name),
        on,
        method: IndexMethod::BTree,
        columns: vec![IndexColumn {
            expr: IndexColumnExpr::Column(id("id")),
            collation: None,
            opclass: None,
            sort_order: SortOrder::Asc,
            nulls_order: NullsOrder::NullsLast,
        }],
        included: vec![],
        unique,
        nulls_not_distinct: false,
        predicate: None,
        tablespace: None,
        comment: None,
        storage: IndexStorageOptions::default(),
    }
}

fn fk(name: &str) -> Constraint {
    Constraint {
        qname: qn(name),
        kind: ConstraintKind::ForeignKey(ForeignKey {
            columns: vec![id("org_id")],
            referenced_table: qn("orgs"),
            referenced_columns: vec![id("id")],
            on_update: ReferentialAction::NoAction,
            on_delete: ReferentialAction::NoAction,
            match_type: FkMatchType::Simple,
        }),
        deferrable: Deferrable::NotDeferrable,
        comment: None,
    }
}

fn check(name: &str) -> Constraint {
    Constraint {
        qname: qn(name),
        kind: ConstraintKind::Check {
            expression: NormalizedExpr {
                canonical_text: "id > 0".into(),
            },
            no_inherit: false,
        },
        deferrable: Deferrable::NotDeferrable,
        comment: None,
    }
}

fn mv(name: &str) -> MaterializedView {
    MaterializedView {
        qname: qn(name),
        columns: vec![],
        body_canonical: NormalizedBody::from_raw_canonical("SELECT 1".into()),
        body_dependencies: vec![],
        comment: None,
        raw_body: String::new(),
        owner: None,
        grants: vec![],
        storage: MaterializedViewStorageOptions::default(),
    }
}

fn view(name: &str) -> ViewDefinition {
    ViewDefinition {
        qname: qn(name),
        columns: vec![],
        body_canonical: NormalizedBody::from_raw_canonical("SELECT 1".into()),
        body_dependencies: vec![],
        security_barrier: None,
        security_invoker: None,
        check_option: None,
        comment: None,
        raw_body: String::new(),
        owner: None,
        grants: vec![],
    }
}

fn safe(change: Change) -> ChangeEntry {
    ChangeEntry {
        change,
        destructiveness: Destructiveness::Safe,
    }
}

fn risky(change: Change, reason: &str) -> ChangeEntry {
    ChangeEntry {
        change,
        destructiveness: Destructiveness::RequiresApproval {
            reason: reason.into(),
        },
    }
}

fn atomic() -> PlannerPolicy {
    PlannerPolicy {
        strategy: Strategy::Atomic,
        online: OnlineRewrites::all_enabled(),
        planner_ruleset_version: 1,
    }
}

fn with_modifies(modifies: Vec<ChangeEntry>) -> OrderedChangeSet {
    OrderedChangeSet {
        creates_and_adds: vec![],
        modifies,
        drops: vec![],
        deferred_fks: vec![],
    }
}

fn steps_of(entry: ChangeEntry) -> Vec<RawStep> {
    rewrite(
        with_modifies(vec![entry]),
        &Catalog::empty(),
        &PlannerPolicy::default(),
    )
}

fn sqls(steps: &[RawStep]) -> Vec<&str> {
    steps.iter().map(|s| s.sql.as_str()).collect()
}

fn kinds(steps: &[RawStep]) -> Vec<StepKind> {
    steps.iter().map(|s| s.kind).collect()
}

fn alter(op: TableOp) -> ChangeEntry {
    safe(Change::AlterTable {
        qname: qn("users"),
        ops: vec![TableOpEntry {
            op,
            destructiveness: Destructiveness::Safe,
        }],
    })
}

fn live_users() -> Catalog {
    let mut c = Catalog::empty();
    c.tables.push(table("users", vec![column("id"), column("org_id")]));
    c
}

#[test]
fn buckets_are_emitted_in_order() {
    let ordered = OrderedChangeSet {
        creates_and_adds: vec![safe(Change::CreateSchema(Schema::new(id("app"))))],
        modifies: vec![safe(Change::AlterSchema {
            name: id("app"),
            comment: Some("it's".into()),
        })],
        drops: vec![risky(Change::DropSchema(id("old")), "gone")],
        deferred_fks: vec![DeferredFkAdd {
            table: qn("users"),
            constraint: fk("users_org_fk"),
        }],
    };
    let steps = rewrite(ordered, &Catalog::empty(), &PlannerPolicy::default());
    assert_eq!(
        sqls(&steps),
        vec![
            "CREATE SCHEMA app;",
            "COMMENT ON SCHEMA app IS 'it''s';",
            "DROP SCHEMA old;",
            "ALTER TABLE app.users ADD CONSTRAINT users_org_fk FOREIGN KEY (org_id) \
             REFERENCES app.orgs (id);",
        ]
    );
    assert!(steps[2].destructive);
    assert_eq!(steps[2].destructive_reason.as_deref(), Some("gone"));
    assert!(steps.iter().all(|s| s.step_no == 0 && s.intent_id.is_none()));
    assert!(steps
        .iter()
        .all(|s| s.destructive == s.destructive_reason.is_some()));
    assert_eq!(
        steps[0].targets,
        vec![QualifiedName::new(id("app"), id("app"))]
    );
}

#[test]
fn foreign_key_on_an_existing_table_is_added_in_two_steps() {
    let set = || with_modifies(vec![alter(TableOp::AddConstraint(fk("users_org_fk")))]);
    let steps = rewrite(set(), &live_users(), &PlannerPolicy::default());
    assert_eq!(
        kinds(&steps),
        vec![StepKind::AddConstraintNotValid, StepKind::ValidateConstraint]
    );
    assert!(steps[0].sql.ends_with(" NOT VALID;"), "{}", steps[0].sql);
    assert_eq!(
        steps[1].sql,
        "ALTER TABLE app.users VALIDATE CONSTRAINT users_org_fk;"
    );
    // Not where the table is new, and not under the atomic strategy.
    let steps = rewrite(set(), &Catalog::empty(), &PlannerPolicy::default());
    assert_eq!(kinds(&steps), vec![StepKind::AddConstraint]);
    let steps = rewrite(set(), &live_users(), &atomic());
    assert_eq!(kinds(&steps), vec![StepKind::AddConstraint]);
}

#[test]
fn check_on_an_existing_table_is_added_in_two_steps() {
    let set = || with_modifies(vec![alter(TableOp::AddConstraint(check("users_id_chk")))]);
    let steps = rewrite(set(), &live_users(), &PlannerPolicy::default());
    assert_eq!(
        sqls(&steps),
        vec![
            "ALTER TABLE app.users ADD CONSTRAINT users_id_chk CHECK (id > 0) NOT VALID;",
            "ALTER TABLE app.users VALIDATE CONSTRAINT users_id_chk;",
        ]
    );
    let steps = rewrite(set(), &live_users(), &atomic());
    assert_eq!(
        sqls(&steps),
        vec!["ALTER TABLE app.users ADD CONSTRAINT users_id_chk CHECK (id > 0);"]
    );
}

#[test]
fn set_not_null_goes_through_a_check() {
    let set = |nullable: bool, name: &str| {
        with_modifies(vec![alter(TableOp::SetColumnNullable {
            name: id(name),
            nullable,
        })])
    };
    let steps = rewrite(set(false, "org_id"), &live_users(), &PlannerPolicy::default());
    assert_eq!(
        sqls(&steps),
        vec![
            "ALTER TABLE app.users ADD CONSTRAINT __pgevolve_chk_org_id \
             CHECK (org_id IS NOT NULL) NOT VALID;",
            "ALTER TABLE app.users VALIDATE CONSTRAINT __pgevolve_chk_org_id;",
            "ALTER TABLE app.users ALTER COLUMN org_id SET NOT NULL;",
            "ALTER TABLE app.users DROP CONSTRAINT __pgevolve_chk_org_id;",
        ]
    );
    assert_eq!(
        kinds(&steps),
        vec![
            StepKind::AddCheckForNotNull,
            StepKind::ValidateConstraint,
            StepKind::SetColumnNullable,
            StepKind::DropConstraint,
        ]
    );
    // Dropping the constraint is one step, as is a column that is new.
    let steps = rewrite(set(true, "org_id"), &live_users(), &PlannerPolicy::default());
    assert_eq!(
        sqls(&steps),
        vec!["ALTER TABLE app.users ALTER COLUMN org_id DROP NOT NULL;"]
    );
    let steps = rewrite(set(false, "other"), &live_users(), &PlannerPolicy::default());
    assert_eq!(steps.len(), 1);
    let steps = rewrite(set(false, "org_id"), &live_users(), &atomic());
    assert_eq!(steps.len(), 1);
}

#[test]
fn index_on_an_existing_table_is_built_concurrently() {
    let on = || IndexParent::Table(qn("users"));
    let create = |unique: bool| {
        with_modifies(vec![safe(Change::CreateIndex(index("users_idx", on(), unique)))])
    };
    let steps = rewrite(create(false), &live_users(), &PlannerPolicy::default());
    assert_eq!(steps[0].kind, StepKind::CreateIndexConcurrent);
    assert_eq!(steps[0].transactional, TransactionConstraint::OutsideTransaction);
    assert!(steps[0].sql.starts_with("CREATE INDEX CONCURRENTLY "));
    assert_eq!(steps[0].targets, vec![qn("users_idx"), qn("users")]);
    // Unique indexes, new tables and the atomic strategy: in the transaction.
    for (set, target, policy) in [
        (create(true), live_users(), PlannerPolicy::default()),
        (create(false), Catalog::empty(), PlannerPolicy::default()),
        (create(false), live_users(), atomic()),
    ] {
        let steps = rewrite(set, &target, &policy);
        assert_eq!(kinds(&steps), vec![StepKind::CreateIndex]);
        assert_eq!(steps[0].transactional, TransactionConstraint::InTransaction);
    }
}

#[test]
fn index_is_dropped_concurrently_where_it_is_known_not_unique() {
    let mut target = live_users();
    target
        .indexes
        .push(index("users_idx", IndexParent::Table(qn("users")), false));
    target
        .indexes
        .push(index("users_key", IndexParent::Table(qn("users")), true));
    let drop_of = |name: &str| with_modifies(vec![safe(Change::DropIndex(qn(name)))]);
    let policy = PlannerPolicy::default();
    let steps = rewrite(drop_of("users_idx"), &target, &policy);
    assert_eq!(sqls(&steps), vec!["DROP INDEX CONCURRENTLY app.users_idx;"]);
    assert_eq!(steps[0].kind, StepKind::DropIndexConcurrent);
    let steps = rewrite(drop_of("users_key"), &target, &policy);
    assert_eq!(sqls(&steps), vec!["DROP INDEX app.users_key;"]);
    let steps = rewrite(drop_of("unknown"), &target, &policy);
    assert_eq!(kinds(&steps), vec![StepKind::DropIndex]);
    let steps = rewrite(drop_of("users_idx"), &target, &atomic());
    assert_eq!(kinds(&steps), vec![StepKind::DropIndex]);
}

#[test]
fn recreating_an_index_needs_its_definition() {
    let set = || with_modifies(vec![safe(Change::RecreateIndex { qname: qn("users_idx") })]);
    let mut source = live_users();
    source
        .indexes
        .push(index("users_idx", IndexParent::Table(qn("users")), false));
    let policy = PlannerPolicy::default();
    let steps = rewrite_with_source(set(), &live_users(), &source, &policy);
    assert_eq!(
        kinds(&steps),
        vec![StepKind::DropIndex, StepKind::CreateIndexConcurrent]
    );
    let steps = rewrite(set(), &live_users(), &policy);
    assert_eq!(kinds(&steps), vec![StepKind::DropIndex]);
}

#[test]
fn refresh_is_concurrent_where_a_unique_index_is_desired() {
    let set = || with_modifies(vec![safe(Change::Mv(MvChange::Create(mv("totals"))))]);
    let mut source = Catalog::empty();
    source
        .indexes
        .push(index("totals_key", IndexParent::Mv(qn("totals")), true));
    let steps = rewrite_with_source(set(), &Catalog::empty(), &source, &PlannerPolicy::default());
    assert_eq!(
        sqls(&steps),
        vec![
            "CREATE MATERIALIZED VIEW app.totals AS\nSELECT 1\nWITH NO DATA;",
            "REFRESH MATERIALIZED VIEW CONCURRENTLY app.totals;",
        ]
    );
    let steps = rewrite_with_source(set(), &Catalog::empty(), &source, &atomic());
    assert_eq!(steps[1].sql, "REFRESH MATERIALIZED VIEW app.totals;");
    let steps = rewrite(set(), &Catalog::empty(), &PlannerPolicy::default());
    assert_eq!(steps[1].sql, "REFRESH MATERIALIZED VIEW app.totals;");
}

#[test]
fn check_option_replaces_the_view_in_place() {
    let mut source = Catalog::empty();
    let mut v = view("v");
    v.check_option = Some(CheckOption::Cascaded);
    source.views.push(v);
    let set = with_modifies(vec![safe(Change::AlterViewSetCheckOption {
        qname: qn("v"),
        check_option: Some(CheckOption::Cascaded),
    })]);
    let steps = rewrite_with_source(set, &Catalog::empty(), &source, &PlannerPolicy::default());
    assert_eq!(
        sqls(&steps),
        vec!["CREATE OR REPLACE VIEW app.v AS\nSELECT 1\nWITH CASCADED CHECK OPTION;"]
    );
}

#[test]
fn view_body_is_replaced_in_place_only_where_compatible() {
    let replace = |compatible: bool| {
        risky(
            Change::View(ViewChange::ReplaceBody {
                source: view("v"),
                catalog: view("v"),
                compatible,
            }),
            "recreate",
        )
    };
    let steps = steps_of(replace(true));
    assert_eq!(sqls(&steps), vec!["CREATE OR REPLACE VIEW app.v AS\nSELECT 1;"]);
    assert!(!steps[0].destructive);
    let steps = steps_of(replace(false));
    assert_eq!(
        sqls(&steps),
        vec!["DROP VIEW app.v;", "CREATE VIEW app.v AS\nSELECT 1;"]
    );
    assert!(steps[0].destructive);
    assert!(!steps[1].destructive);
}

#[test]
fn dropping_a_materialized_view_is_never_destructive() {
    let steps = steps_of(risky(Change::Mv(MvChange::Drop(qn("totals"))), "gone"));
    assert_eq!(sqls(&steps), vec!["DROP MATERIALIZED VIEW app.totals;"]);
    assert!(!steps[0].destructive);
}

#[test]
fn storage_of_columns_is_set_after_the_table_is_created() {
    let mut t = table("users", vec![column("id"), column("body")]);
    t.columns[1].storage = Some(StorageKind::External);
    t.columns[0].comment = Some("key".into());
    t.comment = Some("people".into());
    let steps = steps_of(safe(Change::CreateTable(t)));
    assert_eq!(
        kinds(&steps),
        vec![
            StepKind::CreateTable,
            StepKind::SetColumnStorage,
            StepKind::AlterTableSetComment,
            StepKind::SetColumnComment,
        ]
    );
    assert_eq!(
        steps[1].sql,
        "ALTER TABLE app.users ALTER COLUMN body SET STORAGE EXTERNAL;"
    );
    assert_eq!(steps[2].sql, "COMMENT ON TABLE app.users IS 'people';");
    assert_eq!(steps[3].sql, "COMMENT ON COLUMN app.users.id IS 'key';");
}

#[test]
fn sequence_operations_are_one_step_each() {
    let entry = |op| SequenceOpEntry {
        op,
        destructiveness: Destructiveness::Safe,
    };
    let steps = steps_of(safe(Change::AlterSequence {
        qname: qn("s"),
        ops: vec![
            entry(SequenceOp::SetIncrement(-5)),
            entry(SequenceOp::SetMinValue(None)),
            entry(SequenceOp::SetMaxValue(Some(100))),
            entry(SequenceOp::SetCycle(true)),
        ],
    }));
    assert_eq!(
        sqls(&steps),
        vec![
            "ALTER SEQUENCE app.s INCREMENT BY -5;",
            "ALTER SEQUENCE app.s NO MINVALUE;",
            "ALTER SEQUENCE app.s MAXVALUE 100;",
            "ALTER SEQUENCE app.s CYCLE;",
        ]
    );
}

#[test]
fn replacing_a_type_names_what_the_cascade_destroys() {
    let status = UserType {
        qname: qn("status"),
        kind: UserTypeKind::Enum {
            values: vec!["on".into(), "o'ff".into()],
        },
        comment: None,
        owner: None,
        grants: vec![],
    };
    let mut target = Catalog::empty();
    let mut c = column("state");
    c.ty = ColumnType::UserDefined(qn("status"));
    target.tables.push(table("orders", vec![column("id"), c]));
    let set = || {
        with_modifies(vec![risky(
            Change::UserType(UserTypeChange::ReplaceWithCascade {
                source: status.clone(),
                catalog: status.clone(),
            }),
            "replaces app.status",
        )])
    };
    let steps = rewrite(set(), &target, &PlannerPolicy::default());
    assert_eq!(
        sqls(&steps),
        vec![
            "DROP TYPE app.status CASCADE;",
            "CREATE TYPE app.status AS ENUM ('on', 'o''ff');",
        ]
    );
    for s in &steps {
        assert!(s.destructive);
        assert_eq!(
            s.destructive_reason.as_deref(),
            Some(
                "replaces app.status; DROP TYPE app.status CASCADE also destroys: \
                 column app.orders.state"
            )
        );
    }
    // Nothing depends on it: the reason stays as it is.
    let steps = rewrite(set(), &Catalog::empty(), &PlannerPolicy::default());
    assert_eq!(
        steps[0].destructive_reason.as_deref(),
        Some("replaces app.status")
    );
}

#[test]
fn comment_on_a_domain_uses_its_keyword() {
    let mut source = Catalog::empty();
    source.types.push(UserType {
        qname: qn("email"),
        kind: UserTypeKind::Domain {
            base: ColumnType::Text,
            nullable: true,
            default: None,
            check_constraints: vec![],
            collation: None,
        },
        comment: None,
        owner: None,
        grants: vec![],
    });
    let set = || {
        with_modifies(vec![safe(Change::UserType(UserTypeChange::SetComment {
            qname: qn("email"),
            comment: Some("mail".into()),
        }))])
    };
    let policy = PlannerPolicy::default();
    let steps = rewrite_with_source(set(), &Catalog::empty(), &source, &policy);
    assert_eq!(sqls(&steps), vec!["COMMENT ON DOMAIN app.email IS 'mail';"]);
    let steps = rewrite_with_source(set(), &source, &Catalog::empty(), &policy);
    assert_eq!(sqls(&steps), vec!["COMMENT ON DOMAIN app.email IS 'mail';"]);
    let steps = rewrite(set(), &Catalog::empty(), &policy);
    assert_eq!(sqls(&steps), vec!["COMMENT ON TYPE app.email IS 'mail';"]);
}

fn subscription(create_slot: Option<bool>) -> Subscription {
    Subscription {
        name: id("sub"),
        connection: "host=db password=it's".into(),
        publications: vec![id("p1"), id("p2")],
        options: SubscriptionOptions {
            enabled: None,
            create_slot,
            slot_name: None,
            copy_data: None,
            binary: None,
        },
        comment: None,
        owner: None,
    }
}

#[test]
fn subscriptions_leave_the_transaction_where_they_must() {
    let steps = steps_of(safe(Change::Subscription(SubscriptionChange::Create(
        subscription(None),
    ))));
    assert_eq!(
        sqls(&steps),
        vec![
            "CREATE SUBSCRIPTION sub CONNECTION 'host=db password=it''s' PUBLICATION p1, p2;"
        ]
    );
    assert_eq!(steps[0].transactional, TransactionConstraint::OutsideTransaction);
    let steps = steps_of(safe(Change::Subscription(SubscriptionChange::Create(
        subscription(Some(false)),
    ))));
    assert_eq!(steps[0].transactional, TransactionConstraint::InTransaction);
    let steps = steps_of(risky(
        Change::Subscription(SubscriptionChange::Drop { name: id("sub") }),
        "gone",
    ));
    assert_eq!(sqls(&steps), vec!["DROP SUBSCRIPTION sub;"]);
    assert_eq!(steps[0].transactional, TransactionConstraint::OutsideTransaction);
    assert!(steps[0].destructive);
}

#[test]
fn publications_are_rendered_with_their_scope() {
    let p = Publication {
        name: id("pub"),
        scope: PublicationScope::Selective {
            schemas: vec![id("audit")],
            tables: vec![PublishedTable {
                qname: qn("users"),
                columns: Some(vec![id("id")]),
                row_filter: Some(NormalizedExpr {
                    canonical_text: "id > 0".into(),
                }),
            }],
        },
        publish: PublishKinds {
            insert: true,
            update: false,
            delete: true,
            truncate: false,
        },
        publish_via_partition_root: false,
        comment: Some("feed".into()),
        owner: None,
    };
    let steps = steps_of(safe(Change::Publication(PublicationChange::Create(p.clone()))));
    assert_eq!(
        sqls(&steps),
        vec![
            "CREATE PUBLICATION pub FOR TABLE app.users (id) WHERE (id > 0), \
             TABLES IN SCHEMA audit WITH (publish = 'insert, delete', \
             publish_via_partition_root = false);",
            "COMMENT ON PUBLICATION pub IS 'feed';",
        ]
    );
    let steps = steps_of(risky(
        Change::Publication(PublicationChange::Replace {
            from: p.clone(),
            to: p,
        }),
        "replace",
    ));
    assert_eq!(steps.len(), 1);
    assert!(steps[0].sql.starts_with("DROP PUBLICATION pub;\nCREATE PUBLICATION pub "));
    assert!(steps[0].destructive);
}

#[test]
fn statistics_are_rendered() {
    let s = Statistic {
        qname: qn("st"),
        target: qn("users"),
        kinds: vec![StatisticKind::NDistinct, StatisticKind::Mcv],
        columns: vec![
            NormalizedExpr { canonical_text: "a".into() },
            NormalizedExpr { canonical_text: "b".into() },
        ],
        statistics_target: None,
        comment: None,
    };
    let steps = steps_of(safe(Change::Statistic(StatisticChange::Create(s))));
    assert_eq!(
        sqls(&steps),
        vec!["CREATE STATISTICS app.st (ndistinct, mcv) ON a, b FROM app.users;"]
    );
    let steps = steps_of(safe(Change::Statistic(StatisticChange::AlterSetTarget {
        qname: qn("st"),
        value: -1,
    })));
    assert_eq!(
        sqls(&steps),
        vec!["ALTER STATISTICS app.st SET STATISTICS -1;"]
    );
}

#[test]
fn replacing_a_collation_drops_and_creates_it() {
    let c = Collation {
        qname: qn("ci"),
        provider: CollationProvider::Icu,
        lc_collate: "und".into(),
        lc_ctype: "und".into(),
        deterministic: false,
        version: None,
        owner: None,
        comment: None,
    };
    let steps = steps_of(risky(
        Change::Collation(CollationChange::Replace {
            from: c.clone(),
            to: c,
        }),
        "replace",
    ));
    assert_eq!(
        sqls(&steps),
        vec![
            "DROP COLLATION app.ci;",
            "CREATE COLLATION app.ci (provider = icu, locale = 'und', deterministic = false);",
        ]
    );
    assert!(steps[0].destructive && !steps[1].destructive);
}

#[test]
fn access_changes_are_rendered() {
    let policy = Policy {
        name: id("own_rows"),
        permissive: false,
        command: PolicyCommand::Select,
        roles: vec![],
        using: Some(NormalizedExpr {
            canonical_text: "owner = current_user".into(),
        }),
        with_check: None,
    };
    let steps = steps_of(safe(Change::CreatePolicy {
        table: qn("users"),
        policy,
    }));
    assert_eq!(
        sqls(&steps),
        vec![
            "CREATE POLICY own_rows ON app.users AS RESTRICTIVE FOR SELECT TO PUBLIC \
             USING (owner = current_user);"
        ]
    );
    let steps = steps_of(safe(Change::SetTableRowSecurity {
        qname: qn("users"),
        security: true,
    }));
    assert_eq!(
        sqls(&steps),
        vec!["ALTER TABLE app.users ENABLE ROW LEVEL SECURITY;"]
    );
    let steps = steps_of(safe(Change::SetTableForceRowSecurity {
        qname: qn("users"),
        force: false,
    }));
    assert_eq!(
        sqls(&steps),
        vec!["ALTER TABLE app.users NO FORCE ROW LEVEL SECURITY;"]
    );
    let steps = steps_of(safe(Change::AlterObjectOwner(OwnerOp {
        object: GrantableObject::Schema(id("app")),
        to: id("alice"),
    })));
    assert_eq!(sqls(&steps), vec!["ALTER SCHEMA app OWNER TO alice;"]);
    assert_eq!(
        steps[0].targets,
        vec![QualifiedName::new(id("app"), id("app"))]
    );
}

#[test]
fn partitions_and_storage_are_rendered() {
    let steps = steps_of(safe(Change::Table(TableChange::AttachPartition {
        parent: qn("logs"),
        child: qn("logs_0"),
        bounds: PartitionBounds::Hash {
            modulus: 4,
            remainder: 0,
        },
    })));
    assert_eq!(
        sqls(&steps),
        vec![
            "ALTER TABLE app.logs ATTACH PARTITION app.logs_0 \
             FOR VALUES WITH (MODULUS 4, REMAINDER 0);"
        ]
    );
    assert_eq!(steps[0].targets, vec![qn("logs_0")]);
    let mut options = TableStorageOptions::default();
    options.fillfactor = Some(70);
    let steps = steps_of(safe(Change::SetTableStorage {
        qname: qn("users"),
        options,
    }));
    assert_eq!(
        sqls(&steps),
        vec!["ALTER TABLE app.users SET (fillfactor = 70);"]
    );
}

/// The atomic strategy gives one transaction; the online one leaves it.
#[test]
fn atomic_plans_are_one_transaction() {
    let changes = || {
        with_modifies(vec![
            alter(TableOp::AddConstraint(fk("users_org_fk"))),
            safe(Change::CreateIndex(index(
                "users_idx",
                IndexParent::Table(qn("users")),
                false,
            ))),
            alter(TableOp::SetColumnNullable {
                name: id("org_id"),
                nullable: false,
            }),
        ])
    };
    let groups = group_steps(rewrite(changes(), &live_users(), &atomic()));
    assert_eq!(groups.len(), 1);
    assert_eq!(groups[0].steps.len(), 3);
    let groups = group_steps(rewrite(changes(), &live_users(), &PlannerPolicy::default()));
    assert_eq!(groups.len(), 3);
    assert!(!groups[1].transactional);
    assert_eq!(groups[1].steps[0].kind, StepKind::CreateIndexConcurrent);
}

/// A live table of the same name does not make it an index on a table.
#[test]
fn index_on_a_materialized_view_is_not_built_concurrently() {
    let create = with_modifies(vec![safe(Change::CreateIndex(index(
        "users_idx",
        IndexParent::Mv(qn("users")),
        false,
    )))]);
    let steps = rewrite(create, &live_users(), &PlannerPolicy::default());
    assert_eq!(steps[0].kind, StepKind::CreateIndex);
    assert_eq!(steps[0].transactional, TransactionConstraint::InTransaction);
}
