use pgevolve_plan::identifier::{Identifier, QualifiedName};
use pgevolve_plan::ir::catalog::Catalog;
use pgevolve_plan::ir::schema::Schema;
use pgevolve_plan::plan::deserialize::{
    assemble_plan, read_plan_sql, ParsedIntent, ParsedManifest,
};
use pgevolve_plan::plan::grouping::TransactionGroup;
use pgevolve_plan::plan::io_error::PlanIoError;
use pgevolve_plan::plan::plan::Plan;
use pgevolve_plan::plan::raw_step::{RawStep, StepKind, TransactionConstraint};
use pgevolve_plan::plan::serialize::write_plan_sql;
use pgevolve_plan::timestamp::Timestamp;

/// 2026-05-09T18:42:11Z.
const CREATED: Timestamp = Timestamp {
    unix_nanos: 1_778_352_131_000_000_000,
    offset_seconds: 0,
};

fn id_id(s: &str) -> Identifier {
    Identifier::from_unquoted(s).unwrap()
}

fn qn(schema: &str, name: &str) -> QualifiedName {
    QualifiedName::new(id_id(schema), id_id(name))
}

fn step(
    kind: StepKind,
    sql: &str,
    destructive: bool,
    targets: Vec<QualifiedName>,
    c: TransactionConstraint,
) -> RawStep {
    RawStep {
        step_no: 0,
        kind,
        destructive,
        destructive_reason: destructive.then_some("test reason".to_string()),
        intent_id: None,
        targets,
        sql: sql.to_string(),
        transactional: c,
    }
}

fn plan_of(groups: Vec<TransactionGroup>, source_rev: Option<String>, version: &str) -> Plan {
    let mut snapshot = Catalog::empty();
    snapshot.schemas.push(Schema::new(id_id("app")));
    Plan::from_grouped(
        groups,
        b"{}",
        b"{\"schemas\":[\"app\"]}",
        snapshot,
        "tid-xyz".into(),
        source_rev,
        version,
        1,
        CREATED,
    )
    .unwrap()
}

fn simple_plan() -> Plan {
    let groups = vec![
        TransactionGroup {
            id: 1,
            transactional: true,
            steps: vec![
                step(
                    StepKind::CreateSchema,
                    "CREATE SCHEMA app;",
                    false,
                    vec![qn("app", "app")],
                    TransactionConstraint::InTransaction,
                ),
                step(
                    StepKind::DropTable,
                    "DROP TABLE app.legacy;",
                    true,
                    vec![qn("app", "legacy")],
                    TransactionConstraint::InTransaction,
                ),
            ],
        },
        TransactionGroup {
            id: 2,
            transactional: false,
            steps: vec![step(
                StepKind::CreateIndexConcurrent,
                "CREATE INDEX CONCURRENTLY users_idx ON app.users USING btree (id);",
                false,
                vec![qn("app", "users_idx"), qn("app", "users")],
                TransactionConstraint::OutsideTransaction,
            )],
        },
    ];
    plan_of(groups, Some("git:abcdef0".into()), "0.1.0")
}

fn intent_file(plan: &Plan) -> ParsedIntent {
    ParsedIntent {
        plan_id: plan.id.short(),
        intents: plan.intents.clone(),
        lint_waivers: vec![],
        step_overrides: vec![],
    }
}

fn manifest_file(plan: &Plan) -> ParsedManifest {
    ParsedManifest {
        plan_id: plan.id.short(),
        plan_hash: plan.id.to_hex(),
        pgevolve_version: plan.metadata.pgevolve_version.clone(),
        planner_ruleset_version: plan.metadata.planner_ruleset_version,
        source_rev: plan.metadata.source_rev.clone(),
        target_identity: plan.metadata.target_identity.clone(),
        created_at: plan.metadata.created_at,
        target_snapshot: plan.metadata.target_snapshot.clone(),
        lint_at_plan_findings: vec![],
    }
}

fn malformed(text: &str) -> String {
    match read_plan_sql(text) {
        Err(PlanIoError::MalformedDirective(e)) => e,
        other => panic!("expected a malformed directive, got {other:?}"),
    }
}

const HEADER: &str = "-- @pgevolve plan id=abc version=0.1.0 ruleset=1 created=2026-05-09T18:42:11Z
-- @pgevolve target=t
-- @pgevolve intents_required=0
";

#[test]
fn read_plan_sql_round_trips_simple_plan() {
    let plan = simple_plan();
    let s = write_plan_sql(&plan).unwrap();
    let partial = read_plan_sql(&s).unwrap();

    assert_eq!(partial.id_short, plan.id.short());
    assert_eq!(partial.pgevolve_version, "0.1.0");
    assert_eq!(partial.planner_ruleset_version, 1);
    assert_eq!(partial.source_rev.as_deref(), Some("git:abcdef0"));
    assert_eq!(partial.target_identity, "tid-xyz");
    assert_eq!(partial.intents_required, 1);
    assert_eq!(partial.groups.len(), 2);
    assert!(partial.groups[0].transactional);
    assert!(!partial.groups[1].transactional);
    assert_eq!(partial.groups[0].steps.len(), 2);
    assert_eq!(partial.groups[1].steps.len(), 1);
    // Step bodies survive verbatim.
    assert_eq!(partial.groups[0].steps[0].sql, "CREATE SCHEMA app;");
    assert_eq!(
        partial.groups[1].steps[0].sql,
        "CREATE INDEX CONCURRENTLY users_idx ON app.users USING btree (id);"
    );
    // Step numbers preserved.
    assert_eq!(partial.groups[0].steps[0].step_no, 1);
    assert_eq!(partial.groups[0].steps[1].step_no, 2);
    assert_eq!(partial.groups[1].steps[0].step_no, 3);
    // Destructive step recovered with intent_id.
    assert!(partial.groups[0].steps[1].destructive);
    assert_eq!(partial.groups[0].steps[1].intent_id, Some(1));
    // Targets list recovered.
    assert_eq!(
        partial.groups[1].steps[0].targets,
        vec![qn("app", "users_idx"), qn("app", "users")],
    );
    assert_eq!(partial.created_at, CREATED);
}

/// The exact text of a plan.
#[test]
fn plan_sql_text_is_exact() {
    let plan = simple_plan();
    let expected = format!(
        "-- @pgevolve plan id={} version=0.1.0 ruleset=1 created=2026-05-09T18:42:11Z
-- @pgevolve source_rev=git:abcdef0
-- @pgevolve target=tid-xyz
-- @pgevolve intents_required=1

-- @pgevolve group id=1 transactional=true
BEGIN;
-- @pgevolve step=1 kind=create_schema destructive=false targets=app.app
CREATE SCHEMA app;
-- @pgevolve step=2 kind=drop_table destructive=true intent_id=1 targets=app.legacy
DROP TABLE app.legacy;
COMMIT;

-- @pgevolve group id=2 transactional=false
-- @pgevolve step=3 kind=create_index_concurrent destructive=false targets=app.users_idx,app.users
CREATE INDEX CONCURRENTLY users_idx ON app.users USING btree (id);
",
        plan.id.short()
    );
    assert_eq!(write_plan_sql(&plan).unwrap(), expected);
}

/// Times keep their nanoseconds and their offset.
#[test]
fn created_at_round_trips() {
    for created in [
        Timestamp { unix_nanos: 0, offset_seconds: 0 },
        Timestamp { unix_nanos: 1_778_352_131_000_000_120, offset_seconds: 0 },
        Timestamp { unix_nanos: 1_778_352_131_500_000_000, offset_seconds: 7200 },
        Timestamp { unix_nanos: -1, offset_seconds: -16200 },
    ] {
        let mut plan = simple_plan();
        plan.metadata.created_at = created;
        let s = write_plan_sql(&plan).unwrap();
        assert_eq!(read_plan_sql(&s).unwrap().created_at, created);
    }
}

/// A time that RFC 3339 cannot write is an error.
#[test]
fn created_at_out_of_range_is_an_error() {
    let mut plan = simple_plan();
    plan.metadata.created_at = Timestamp { unix_nanos: i128::MAX, offset_seconds: 0 };
    assert_eq!(
        write_plan_sql(&plan),
        Err(PlanIoError::MalformedDirective(
            "created_at is outside the range of RFC 3339".to_string()
        ))
    );
    plan.metadata.created_at = Timestamp { unix_nanos: 0, offset_seconds: 1 };
    assert!(write_plan_sql(&plan).is_err());
}

#[test]
fn read_plan_sql_rejects_missing_plan_header() {
    let s = "-- @pgevolve target=t\n";
    assert!(matches!(
        read_plan_sql(s),
        Err(PlanIoError::MalformedDirective(_))
    ));
}

#[test]
fn read_plan_sql_rejects_unknown_directive() {
    let s = "-- @pgevolve plan id=abc version=0.1.0 ruleset=1 created=2026-05-09T18:42:11Z\n\
             -- @pgevolve nope=true\n";
    assert!(matches!(
        read_plan_sql(s),
        Err(PlanIoError::MalformedDirective(_))
    ));
}

/// Every directive that is missing or malformed is named.
#[test]
fn malformed_directives_are_named() {
    assert_eq!(malformed(""), "missing plan id");
    assert_eq!(malformed("-- @pgevolve plan id=abc"), "missing version");
    assert_eq!(malformed("-- @pgevolve plan id=abc version=1"), "missing ruleset");
    assert_eq!(
        malformed("-- @pgevolve plan id=abc version=1 ruleset=2"),
        "missing target"
    );
    assert_eq!(
        malformed("-- @pgevolve plan id=abc version=1 ruleset=2\n-- @pgevolve target=t"),
        "missing intents_required"
    );
    assert_eq!(
        malformed(
            "-- @pgevolve plan id=abc version=1 ruleset=2
-- @pgevolve target=t
-- @pgevolve intents_required=0"
        ),
        "missing created"
    );
    assert_eq!(malformed("-- @pgevolve nope=true"), "unknown directive: nope");
    assert_eq!(malformed("-- @pgevolve plan id"), "bare token: id");
    assert_eq!(malformed("-- @pgevolve plan ruleset=x"), "not a u32: x");
    assert_eq!(
        malformed("-- @pgevolve plan ruleset=4294967296"),
        "not a u32: 4294967296"
    );
    assert_eq!(malformed("-- @pgevolve plan ruleset=-1"), "not a u32: -1");
    assert!(malformed("-- @pgevolve plan created=yesterday").starts_with("created=yesterday: "));
    assert_eq!(
        malformed("-- @pgevolve group id=1 transactional=maybe"),
        "not a bool: maybe"
    );
    assert_eq!(
        malformed("-- @pgevolve step=1 kind=create_table"),
        "step outside group"
    );
    assert_eq!(
        malformed("-- @pgevolve group id=1\n-- @pgevolve step=1"),
        "step missing kind"
    );
    assert_eq!(
        malformed("-- @pgevolve group id=1\n-- @pgevolve step=1 kind=make_coffee"),
        "kind=make_coffee"
    );
    assert_eq!(
        malformed("-- @pgevolve group id=1\n-- @pgevolve step=1 kind=create_table targets=users"),
        "expected schema.name: users"
    );
    assert_eq!(
        malformed("-- @pgevolve group id=1\n-- @pgevolve step=1 kind=create_table targets=a.b.c"),
        "name b.c: not a valid unquoted identifier"
    );
    assert_eq!(
        malformed("-- @pgevolve group id=1\n-- @pgevolve step=1 kind=create_table targets=.b"),
        "schema : identifier is empty"
    );
}

/// Numbers may have a plus sign and leading zeros.
#[test]
fn numbers_are_read_as_integers() {
    let text = HEADER.replace("ruleset=1", "ruleset=+007");
    assert_eq!(read_plan_sql(&text).unwrap().planner_ruleset_version, 7);
    let text = HEADER.replace("ruleset=1", "ruleset=4294967295");
    assert_eq!(read_plan_sql(&text).unwrap().planner_ruleset_version, u32::MAX);
}

/// Windows line endings and trailing white space do not matter to directives.
#[test]
fn line_endings_do_not_matter() {
    let text = HEADER.replace('\n', "  \r\n");
    assert_eq!(read_plan_sql(&text), read_plan_sql(HEADER));
}

#[test]
fn read_plan_sql_handles_multi_line_step_body() {
    let plan_text = "\
-- @pgevolve plan id=abc1234567890123 version=0.1.0 ruleset=1 created=2026-05-09T18:42:11Z
-- @pgevolve target=tid
-- @pgevolve intents_required=0

-- @pgevolve group id=1 transactional=true
BEGIN;
-- @pgevolve step=1 kind=create_table destructive=false targets=app.t
CREATE TABLE app.t (
    id bigint NOT NULL,
    name text
);
COMMIT;
";
    let partial = read_plan_sql(plan_text).unwrap();
    assert_eq!(partial.groups.len(), 1);
    let body = &partial.groups[0].steps[0].sql;
    assert!(body.starts_with("CREATE TABLE app.t ("));
    assert!(body.contains("id bigint NOT NULL,"));
    assert!(body.ends_with(");"));
}

/// Inside a dollar-quoted literal nothing is a directive.
#[test]
fn dollar_quoted_bodies_survive_verbatim() {
    let sql = "CREATE OR REPLACE FUNCTION app.f() RETURNS void LANGUAGE plpgsql AS $pgevolve$
-- @pgevolve dep: app.t

BEGIN;
COMMIT;
$other$ not the end $other$
$pgevolve$;";
    let groups = vec![TransactionGroup {
        id: 1,
        transactional: true,
        steps: vec![
            step(
                StepKind::CreateOrReplaceFunction,
                sql,
                false,
                vec![qn("app", "f")],
                TransactionConstraint::InTransaction,
            ),
            step(
                StepKind::CreateSchema,
                "CREATE SCHEMA app;",
                false,
                vec![],
                TransactionConstraint::InTransaction,
            ),
        ],
    }];
    let plan = plan_of(groups, None, "0.1.0");
    let partial = read_plan_sql(&write_plan_sql(&plan).unwrap()).unwrap();
    assert_eq!(partial.groups[0].steps.len(), 2);
    assert_eq!(partial.groups[0].steps[0].sql, sql);
    assert_eq!(partial.groups[0].steps[1].sql, "CREATE SCHEMA app;");
    assert!(partial.groups[0].steps[1].targets.is_empty());
}

/// Writing, reading and putting the files together gives the plan back.
#[test]
fn read_plan_dir_round_trips_whole_plan() {
    let plan = simple_plan();
    let partial = read_plan_sql(&write_plan_sql(&plan).unwrap()).unwrap();
    let recovered = assemble_plan(partial, intent_file(&plan), manifest_file(&plan)).unwrap();

    assert_eq!(recovered.id, plan.id);
    assert_eq!(recovered.intents, plan.intents);
    assert_eq!(
        recovered.metadata.target_snapshot,
        plan.metadata.target_snapshot
    );
    assert_eq!(
        recovered.metadata.pgevolve_version,
        plan.metadata.pgevolve_version
    );
    assert_eq!(
        recovered.metadata.target_identity,
        plan.metadata.target_identity
    );
    assert_eq!(recovered.groups.len(), plan.groups.len());
    for (a, b) in recovered.groups.iter().zip(plan.groups.iter()) {
        assert_eq!(a.id, b.id);
        assert_eq!(a.transactional, b.transactional);
        assert_eq!(a.steps.len(), b.steps.len());
        for (sa, sb) in a.steps.iter().zip(b.steps.iter()) {
            assert_eq!(sa.step_no, sb.step_no);
            assert_eq!(sa.kind, sb.kind);
            assert_eq!(sa.destructive, sb.destructive);
            assert_eq!(sa.intent_id, sb.intent_id);
            assert_eq!(sa.targets, sb.targets);
            assert_eq!(sa.sql, sb.sql);
            assert_eq!(sa.transactional, sb.transactional);
            // destructive_reason is grafted from the intents.
            if sb.destructive {
                assert_eq!(sa.destructive_reason, sb.destructive_reason);
            }
        }
    }
    assert_eq!(recovered, plan);
}

#[test]
fn read_plan_dir_rejects_mismatched_plan_id() {
    let plan = simple_plan();
    let partial = read_plan_sql(&write_plan_sql(&plan).unwrap()).unwrap();
    let mut intent = intent_file(&plan);
    intent.plan_id = "deadbeef00000000".to_string();
    let err = assemble_plan(partial, intent, manifest_file(&plan)).unwrap_err();
    assert!(matches!(err, PlanIoError::PlanIdMismatch { .. }));
    assert_eq!(
        err.to_string(),
        format!(
            "plan id mismatch: sql={0} intent=deadbeef00000000 manifest={0}",
            plan.id.short()
        )
    );
}

/// A manifest whose full id is not one is rejected.
#[test]
fn invalid_plan_hash_is_rejected() {
    let plan = simple_plan();
    let partial = read_plan_sql(&write_plan_sql(&plan).unwrap()).unwrap();
    let mut manifest = manifest_file(&plan);
    manifest.plan_hash = "abc".to_string();
    let err = assemble_plan(partial, intent_file(&plan), manifest).unwrap_err();
    assert!(matches!(err, PlanIoError::InvalidPlanHash(_)));
    assert_eq!(err.to_string(), "invalid plan hash: abc");
}

fn view_step(kind: StepKind, sql: &str, destructive: bool) -> RawStep {
    RawStep {
        step_no: 0,
        kind,
        destructive,
        destructive_reason: destructive.then_some("test".to_string()),
        intent_id: None,
        targets: vec![qn("app", "my_view")],
        sql: sql.to_string(),
        transactional: TransactionConstraint::InTransaction,
    }
}

#[test]
fn read_plan_dir_round_trips_view_and_mv_step_kinds() {
    let groups = vec![TransactionGroup {
        id: 1,
        transactional: true,
        steps: vec![
            view_step(
                StepKind::CreateView,
                "CREATE VIEW app.my_view AS\nSELECT 1;",
                false,
            ),
            view_step(StepKind::DropView, "DROP VIEW app.my_view;", true),
            view_step(
                StepKind::CreateMaterializedView,
                "CREATE MATERIALIZED VIEW app.my_view AS\nSELECT 1\nWITH NO DATA;",
                false,
            ),
            view_step(
                StepKind::DropMaterializedView,
                "DROP MATERIALIZED VIEW app.my_view;",
                false,
            ),
            view_step(
                StepKind::RefreshMaterializedView,
                "REFRESH MATERIALIZED VIEW app.my_view;",
                false,
            ),
            view_step(
                StepKind::AlterViewSetReloption,
                "ALTER VIEW app.my_view SET (security_barrier = true);",
                false,
            ),
            view_step(
                StepKind::CommentOnView,
                "COMMENT ON VIEW app.my_view IS 'a view';",
                false,
            ),
        ],
    }];

    let mut snapshot = Catalog::empty();
    snapshot.schemas.push(Schema::new(id_id("app")));
    let plan = Plan::from_grouped(
        groups,
        b"{}",
        b"{\"schemas\":[\"app\"]}",
        snapshot,
        "test-views-target".into(),
        None,
        "0.2.0",
        2,
        CREATED,
    )
    .unwrap();

    let partial = read_plan_sql(&write_plan_sql(&plan).unwrap()).unwrap();
    let recovered = assemble_plan(partial, intent_file(&plan), manifest_file(&plan)).unwrap();

    assert_eq!(recovered.groups.len(), 1);
    let steps = &recovered.groups[0].steps;
    assert_eq!(steps.len(), 7);
    assert_eq!(steps[0].kind, StepKind::CreateView);
    assert_eq!(steps[1].kind, StepKind::DropView);
    assert_eq!(steps[2].kind, StepKind::CreateMaterializedView);
    assert_eq!(steps[3].kind, StepKind::DropMaterializedView);
    assert_eq!(steps[4].kind, StepKind::RefreshMaterializedView);
    assert_eq!(steps[5].kind, StepKind::AlterViewSetReloption);
    assert_eq!(steps[6].kind, StepKind::CommentOnView);

    // Destructive step (DropView) gets an intent_id.
    assert_eq!(steps[1].intent_id, Some(1));
    assert!(steps[1].destructive);

    // Non-destructive steps have no intent_id.
    assert!(steps[0].intent_id.is_none());
    assert!(steps[3].intent_id.is_none()); // DropMaterializedView is NOT destructive

    // SQL bodies survive the round-trip.
    assert_eq!(steps[0].sql, "CREATE VIEW app.my_view AS\nSELECT 1;");
    assert_eq!(
        steps[2].sql,
        "CREATE MATERIALIZED VIEW app.my_view AS\nSELECT 1\nWITH NO DATA;"
    );
    assert_eq!(steps[4].sql, "REFRESH MATERIALIZED VIEW app.my_view;");
}
