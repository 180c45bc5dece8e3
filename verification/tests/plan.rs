use pgevolve_plan::identifier::{Identifier, QualifiedName};
use pgevolve_plan::ir::catalog::Catalog;
use pgevolve_plan::ir::schema::Schema;
use pgevolve_plan::plan::error::PlanError;
use pgevolve_plan::plan::grouping::TransactionGroup;
use pgevolve_plan::plan::plan::{
    kind_name, parse_kind_name, render_targets, DestructiveIntent, InvalidPlanHash, Plan, PlanId,
    PlanMetadata,
};
use pgevolve_plan::plan::raw_step::{RawStep, StepKind, TransactionConstraint};
use pgevolve_plan::timestamp::Timestamp;

const CREATED: Timestamp = Timestamp {
    unix_nanos: 1_778_352_131_000_000_000,
    offset_seconds: 0,
};

fn id_id(s: &str) -> Identifier {
    Identifier::from_unquoted(s).unwrap()
}

fn cat_with_schema(name: &str) -> Catalog {
    let mut c = Catalog::empty();
    c.schemas.push(Schema::new(id_id(name)));
    c
}

/// Bytes that differ where catalogs differ.
fn bytes(c: &Catalog) -> Vec<u8> {
    format!("{c:?}").into_bytes()
}

fn compute(source: &Catalog, target: &Catalog, version: &str, ruleset: u32) -> PlanId {
    PlanId::compute(&bytes(source), &bytes(target), version, ruleset)
}

fn from_grouped(
    groups: Vec<TransactionGroup>,
    source: &Catalog,
    target: &Catalog,
    target_identity: String,
    source_rev: Option<String>,
    version: &str,
    ruleset: u32,
) -> Result<Plan, PlanError> {
    Plan::from_grouped(
        groups,
        &bytes(source),
        &bytes(target),
        target.clone(),
        target_identity,
        source_rev,
        version,
        ruleset,
        CREATED,
    )
}

#[test]
fn plan_id_is_deterministic_across_calls() {
    let s = cat_with_schema("app");
    let t = Catalog::empty();
    let a = compute(&s, &t, "0.1.0", 1);
    let b = compute(&s, &t, "0.1.0", 1);
    assert_eq!(a, b);
}

#[test]
fn plan_id_differs_when_target_differs() {
    let s = cat_with_schema("app");
    let a = compute(&s, &Catalog::empty(), "0.1.0", 1);
    let b = compute(&s, &cat_with_schema("legacy"), "0.1.0", 1);
    assert_ne!(a, b);
}

#[test]
fn plan_id_differs_when_version_differs() {
    let s = cat_with_schema("app");
    let t = Catalog::empty();
    let a = compute(&s, &t, "0.1.0", 1);
    let b = compute(&s, &t, "0.2.0", 1);
    assert_ne!(a, b);
}

#[test]
fn plan_id_differs_when_ruleset_differs() {
    let s = cat_with_schema("app");
    let t = Catalog::empty();
    let a = compute(&s, &t, "0.1.0", 1);
    let b = compute(&s, &t, "0.1.0", 2);
    assert_ne!(a, b);
}

#[test]
fn plan_id_short_is_sixteen_hex_chars() {
    let id = compute(&Catalog::empty(), &Catalog::empty(), "0.1.0", 1);
    let short = id.short();
    assert_eq!(short.len(), 16);
    assert!(short.chars().all(|c| c.is_ascii_hexdigit()));
}

#[test]
fn plan_id_full_hex_round_trips() {
    let id = compute(&Catalog::empty(), &Catalog::empty(), "0.1.0", 1);
    let hex = id.to_hex();
    assert_eq!(hex.len(), 64);
    let back = PlanId::from_full_hex(&hex).unwrap();
    assert_eq!(id, back);
}

/// The id is the digest of one known payload.
#[test]
fn plan_id_is_the_digest_of_its_payload() {
    let id = PlanId::compute(b"{}", b"[]", "0.1.0", 0x0102_0304);
    let payload = b"pgevolve-plan-id-v1\n0.1.0\0\x01\x02\x03\x04\0{}\0[]";
    assert_eq!(id.0, *blake3::hash(payload).as_bytes());
}

fn qn(schema: &str, name: &str) -> QualifiedName {
    QualifiedName::new(id_id(schema), id_id(name))
}

fn step(kind: StepKind, destructive: bool, targets: Vec<QualifiedName>) -> RawStep {
    RawStep {
        step_no: 0,
        kind,
        destructive,
        destructive_reason: destructive.then_some("test".to_string()),
        intent_id: None,
        targets,
        sql: String::new(),
        transactional: TransactionConstraint::InTransaction,
    }
}

fn group(id: u32, steps: Vec<RawStep>) -> TransactionGroup {
    TransactionGroup {
        id,
        transactional: true,
        steps,
    }
}

#[test]
fn from_grouped_assigns_step_numbers_contiguously() {
    let groups = vec![
        group(
            1,
            vec![
                step(StepKind::CreateSchema, false, vec![qn("app", "app")]),
                step(StepKind::CreateTable, false, vec![qn("app", "users")]),
            ],
        ),
        group(
            2,
            vec![step(StepKind::DropColumn, true, vec![qn("app", "users")])],
        ),
    ];
    let plan = from_grouped(
        groups,
        &Catalog::empty(),
        &Catalog::empty(),
        "tid".into(),
        None,
        "0.1.0",
        1,
    )
    .unwrap();
    let nos: Vec<u32> = plan
        .groups
        .iter()
        .flat_map(|g| g.steps.iter().map(|s| s.step_no))
        .collect();
    assert_eq!(nos, vec![1, 2, 3]);
}

#[test]
fn from_grouped_allocates_one_intent_per_destructive_step() {
    let groups = vec![group(
        1,
        vec![
            step(StepKind::CreateTable, false, vec![qn("app", "x")]),
            step(StepKind::DropColumn, true, vec![qn("app", "x")]),
            step(StepKind::DropTable, true, vec![qn("app", "y")]),
        ],
    )];
    let plan = from_grouped(
        groups,
        &Catalog::empty(),
        &Catalog::empty(),
        "tid".into(),
        None,
        "0.1.0",
        1,
    )
    .unwrap();
    assert_eq!(plan.intents.len(), 2);
    assert_eq!(plan.intents[0].id, 1);
    assert_eq!(plan.intents[0].step, 2);
    assert_eq!(plan.intents[0].kind, "drop_column");
    assert_eq!(plan.intents[1].id, 2);
    assert_eq!(plan.intents[1].step, 3);
    assert_eq!(plan.intents[1].kind, "drop_table");
    // The destructive steps carry back their intent ids.
    let intent_ids: Vec<Option<u32>> = plan
        .groups
        .iter()
        .flat_map(|g| g.steps.iter().map(|s| s.intent_id))
        .collect();
    assert_eq!(intent_ids, vec![None, Some(1), Some(2)]);
}

/// A destructive step without a reason gets a default one.
#[test]
fn intent_reason_defaults_to_destructive() {
    let mut s = step(StepKind::DropTable, true, vec![qn("app", "a"), qn("app", "b")]);
    s.destructive_reason = None;
    let plan = from_grouped(
        vec![group(1, vec![s])],
        &Catalog::empty(),
        &Catalog::empty(),
        "tid".into(),
        None,
        "0.1.0",
        1,
    )
    .unwrap();
    assert_eq!(plan.intents[0].reason, "destructive");
    assert_eq!(plan.intents[0].target, "app.a,app.b");
    assert!(!plan.intents[0].approved);
}

#[test]
fn from_grouped_metadata_captures_target_snapshot() {
    let target = cat_with_schema("legacy");
    let plan = from_grouped(
        Vec::new(),
        &Catalog::empty(),
        &target,
        "tid".into(),
        Some("git:abc".into()),
        "0.1.0",
        1,
    )
    .unwrap();
    assert_eq!(plan.metadata.target_snapshot, target);
    assert_eq!(plan.metadata.source_rev.as_deref(), Some("git:abc"));
    assert_eq!(plan.metadata.target_identity, "tid");
}

#[test]
fn kind_name_round_trips_via_parse() {
    for k in [
        StepKind::CreateSchema,
        StepKind::DropColumn,
        StepKind::CreateIndexConcurrent,
        StepKind::AddCheckForNotNull,
    ] {
        assert_eq!(parse_kind_name(kind_name(k)), Some(k));
    }
}

#[test]
fn unknown_kind_names_are_rejected() {
    assert_eq!(parse_kind_name("create_everything"), None);
    assert_eq!(parse_kind_name(""), None);
    assert_eq!(kind_name(StepKind::CreateIndexConcurrent), "create_index_concurrent");
}

#[test]
fn user_type_step_kinds_round_trip_through_kind_name() {
    for k in [
        StepKind::CreateType,
        StepKind::DropType,
        StepKind::AlterTypeAddValue,
        StepKind::AlterTypeRenameValue,
        StepKind::AlterDomainAddConstraint,
        StepKind::AlterDomainDropConstraint,
        StepKind::AlterDomainSetDefault,
        StepKind::AlterDomainSetNotNull,
        StepKind::AlterTypeAddAttribute,
        StepKind::AlterTypeDropAttribute,
        StepKind::AlterTypeAlterAttributeType,
        StepKind::CommentOnType,
    ] {
        let n = kind_name(k);
        let parsed = parse_kind_name(n).unwrap();
        assert_eq!(parsed, k, "round-trip failed for {n}");
    }
}

#[test]
fn routine_step_kinds_round_trip_through_kind_name() {
    for k in [
        StepKind::CreateOrReplaceFunction,
        StepKind::DropFunction,
        StepKind::CommentOnFunction,
        StepKind::CreateOrReplaceProcedure,
        StepKind::DropProcedure,
        StepKind::CommentOnProcedure,
    ] {
        let n = kind_name(k);
        let parsed = parse_kind_name(n).unwrap();
        assert_eq!(parsed, k, "round-trip failed for {n}");
    }
}

#[test]
fn tablespace_step_kinds_round_trip_through_kind_name() {
    for k in [
        StepKind::CreateTablespace,
        StepKind::DropTablespace,
        StepKind::AlterTablespaceOwner,
        StepKind::SetTablespaceOptions,
        StepKind::CommentOnTablespace,
    ] {
        let n = kind_name(k);
        let parsed = parse_kind_name(n).unwrap();
        assert_eq!(parsed, k, "round-trip failed for {n}");
    }
}

#[test]
fn plan_id_from_invalid_hex_errors() {
    assert!(PlanId::from_full_hex("not-hex").is_err());
    assert!(PlanId::from_full_hex(&"ab".repeat(10)).is_err()); // wrong length
}

/// The error names the text that was given.
#[test]
fn invalid_plan_hash_says_what_was_given() {
    let err = PlanId::from_full_hex("not-hex").unwrap_err();
    assert_eq!(err, InvalidPlanHash("not-hex".to_string()));
    assert_eq!(err.to_string(), "invalid plan hash: not-hex");
}

/// Only lower case ids are ids.
#[test]
fn upper_case_ids_are_rejected() {
    assert!(PlanId::from_full_hex(&"ab".repeat(32)).is_ok());
    assert!(PlanId::from_full_hex(&"AB".repeat(32)).is_err());
    assert!(PlanId::from_hex("ABCDEF0011223344").is_err());
}

/// A short id fills the first eight bytes and reads back.
#[test]
fn short_id_round_trips() {
    let id = PlanId::from_hex("00ff10abcdef0123").unwrap();
    assert_eq!(id.short(), "00ff10abcdef0123");
    assert_eq!(id.0[..8], [0x00, 0xff, 0x10, 0xab, 0xcd, 0xef, 0x01, 0x23]);
    assert_eq!(id.0[8..], [0u8; 24]);
    assert_eq!(
        id.to_hex(),
        "00ff10abcdef0123000000000000000000000000000000000000000000000000"
    );
}

#[test]
fn short_id_errors_say_what_is_wrong() {
    let err = PlanId::from_hex("xyz").unwrap_err();
    assert_eq!(
        err,
        PlanError::Internal(
            "plan_id hex decode failed for \"xyz\": Odd number of digits".to_string()
        )
    );
    let err = PlanId::from_hex("zz").unwrap_err();
    assert_eq!(
        err,
        PlanError::Internal(
            "plan_id hex decode failed for \"zz\": Invalid character 'z' at position 0"
                .to_string()
        )
    );
    let err = PlanId::from_hex("abcd").unwrap_err();
    assert_eq!(
        err,
        PlanError::Internal(
            "plan_id hex length mismatch: expected 16 chars (8 bytes), got 4 chars (2 bytes)"
                .to_string()
        )
    );
}

#[test]
fn from_grouped_with_id_uses_provided_plan_id() {
    let pre_id = compute(&Catalog::empty(), &Catalog::empty(), "0.0.0-test", 99);
    let plan = Plan::from_grouped_with_id(
        vec![],
        pre_id,
        "test-cluster-id".into(),
        None,
        "0.0.0-test",
        99,
        CREATED,
    )
    .expect("build empty cluster-style plan");
    assert_eq!(plan.id, pre_id);
    assert_eq!(plan.metadata.target_identity, "test-cluster-id");
    assert_eq!(plan.metadata.planner_ruleset_version, 99);
    assert!(plan.groups.is_empty());
    assert!(plan.intents.is_empty());
}

#[test]
fn from_grouped_with_id_target_snapshot_is_empty() {
    // Only from_grouped fills the snapshot.
    let pre_id = compute(&Catalog::empty(), &Catalog::empty(), "0.0.0-test", 0);
    let plan = Plan::from_grouped_with_id(
        vec![],
        pre_id,
        "cluster:abc".into(),
        None,
        "0.0.0-test",
        0,
        CREATED,
    )
    .unwrap();
    assert_eq!(plan.metadata.target_snapshot, Catalog::empty());
}

#[test]
fn from_grouped_still_populates_target_snapshot() {
    // The snapshot is filled after the plan is made under its id.
    let target = cat_with_schema("legacy");
    let plan = from_grouped(
        Vec::new(),
        &Catalog::empty(),
        &target,
        "tid".into(),
        None,
        "0.1.0",
        1,
    )
    .unwrap();
    assert_eq!(plan.metadata.target_snapshot, target);
}

#[test]
fn approve_all_intents_flips_every_intent_to_approved() {
    let mut plan = sample_plan_with_two_unapproved_intents();
    assert!(!plan.intents[0].approved);
    assert!(!plan.intents[1].approved);
    plan.approve_all_intents();
    assert!(plan.intents[0].approved);
    assert!(plan.intents[1].approved);
}

fn sample_plan_with_two_unapproved_intents() -> Plan {
    Plan {
        id: compute(&Catalog::empty(), &Catalog::empty(), "0.1.0", 1),
        groups: Vec::new(),
        intents: vec![
            DestructiveIntent {
                id: 1,
                step: 1,
                kind: "drop_column".into(),
                target: "app.users.legacy_email".into(),
                reason: "test".into(),
                approved: false,
            },
            DestructiveIntent {
                id: 2,
                step: 2,
                kind: "drop_table".into(),
                target: "app.old_users".into(),
                reason: "test".into(),
                approved: false,
            },
        ],
        lint_waivers: Vec::new(),
        step_overrides: Vec::new(),
        metadata: PlanMetadata {
            pgevolve_version: "0.1.0".to_string(),
            planner_ruleset_version: 1,
            source_rev: None,
            target_identity: "test-identity".into(),
            target_snapshot: Catalog::empty(),
            created_at: CREATED,
            lint_at_plan_findings: Vec::new(),
        },
        advisory_findings: Vec::new(),
    }
}

#[test]
fn targets_are_rendered_as_sql_names() {
    let targets = vec![qn("app", "users"), qn("app", "user")];
    assert_eq!(render_targets(&targets), "app.users,app.\"user\"");
    assert_eq!(render_targets(&vec![]), "");
}
