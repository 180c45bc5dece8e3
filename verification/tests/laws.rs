use pgevolve_plan::diff::change::{Change, ChangeEntry, ChangeSet, SubscriptionChange};
use pgevolve_plan::diff::destructiveness::Destructiveness;
use pgevolve_plan::diff::table_op::{TableOp, TableOpEntry};
use pgevolve_plan::identifier::{Identifier, QualifiedName};
use pgevolve_plan::ir::catalog::Catalog;
use pgevolve_plan::ir::expr::NormalizedBody;
use pgevolve_plan::ir::replication::{Subscription, SubscriptionOptions};
use pgevolve_plan::ir::schema::Schema;
use pgevolve_plan::ir::view::ViewDefinition;
use pgevolve_plan::plan::dollar_quotes::detect_dollar_quote_open;
use pgevolve_plan::plan::edges::{
    build_create_graph, DepEdge, DepSource, NodeId,
};
use pgevolve_plan::plan::graph::Graph;
use pgevolve_plan::plan::grouping::group_steps;
use pgevolve_plan::plan::kind_names::{kind_name, parse_kind_name};
use pgevolve_plan::plan::ordering::order;
use pgevolve_plan::plan::policy::{OnlineRewrites, PlannerPolicy};
use pgevolve_plan::plan::raw_step::{RawStep, StepKind, TransactionConstraint};
use pgevolve_plan::plan::recreate_views::{walk_transitive, DepTrigger};
use pgevolve_plan::text::append_literal_body;

fn id(s: &str) -> Identifier {
    Identifier::from_unquoted(s).unwrap()
}

fn qn(name: &str) -> QualifiedName {
    QualifiedName::new(id("app"), id(name))
}

fn subscription(name: &str) -> Subscription {
    Subscription {
        name: id(name),
        connection: "host=db".into(),
        publications: vec![id("p")],
        options: SubscriptionOptions {
            enabled: None,
            create_slot: None,
            slot_name: None,
            copy_data: None,
            binary: None,
        },
        comment: None,
        owner: None,
    }
}

fn planned(entries: Vec<(Change, Destructiveness)>, source: &Catalog) -> Vec<ChangeEntry> {
    let mut cs = ChangeSet::new();
    for (change, destructiveness) in entries {
        cs.push(change, destructiveness);
    }
    let out = order(&Catalog::empty(), source, cs, &PlannerPolicy::default()).unwrap();
    out.creates_and_adds
        .into_iter()
        .chain(out.modifies)
        .chain(out.drops)
        .collect()
}

#[test]
fn subscriptions_are_created_last_and_dropped_first() {
    let entries = planned(
        vec![
            (
                Change::Subscription(SubscriptionChange::Create(subscription("s"))),
                Destructiveness::Safe,
            ),
            (
                Change::CreateSchema(Schema::new(id("app"))),
                Destructiveness::Safe,
            ),
            (Change::DropSchema(id("old")), Destructiveness::Safe),
            (
                Change::Subscription(SubscriptionChange::Drop { name: id("t") }),
                Destructiveness::Safe,
            ),
        ],
        &Catalog::empty(),
    );
    assert!(matches!(entries[0].change, Change::CreateSchema(_)));
    assert!(matches!(
        entries[1].change,
        Change::Subscription(SubscriptionChange::Create(_))
    ));
    assert!(matches!(
        entries[2].change,
        Change::Subscription(SubscriptionChange::Drop { .. })
    ));
    assert!(matches!(entries[3].change, Change::DropSchema(_)));
}

/// Entries of one node stay in the order they came; every entry is kept.
#[test]
fn sorting_is_stable_and_keeps_every_entry() {
    let comment = |text: &str| {
        (
            Change::AlterTable {
                qname: qn("t"),
                ops: vec![TableOpEntry {
                    op: TableOp::SetTableComment {
                        comment: Some(text.into()),
                    },
                    destructiveness: Destructiveness::Safe,
                }],
            },
            Destructiveness::Safe,
        )
    };
    let entries = planned(
        vec![comment("b"), comment("a"), comment("c")],
        &Catalog::empty(),
    );
    let texts: Vec<String> = entries
        .iter()
        .map(|e| match &e.change {
            Change::AlterTable { ops, .. } => match &ops[0].op {
                TableOp::SetTableComment { comment } => comment.clone().unwrap(),
                _ => unreachable!(),
            },
            _ => unreachable!(),
        })
        .collect();
    assert_eq!(texts, vec!["b", "a", "c"]);
}

fn view(name: &str, on: &[&str]) -> ViewDefinition {
    ViewDefinition {
        qname: qn(name),
        columns: vec![],
        body_canonical: NormalizedBody::from_raw_canonical("SELECT 1".into()),
        body_dependencies: on
            .iter()
            .map(|to| DepEdge {
                from: NodeId::View(qn(name)),
                to: NodeId::View(qn(to)),
                source: DepSource::AstExtracted,
            })
            .collect(),
        security_barrier: None,
        security_invoker: None,
        check_option: None,
        comment: None,
        raw_body: String::new(),
        owner: None,
        grants: vec![],
    }
}

/// Affected views come after the views they refer to; a circle comes last, by
/// name.
#[test]
fn affected_views_are_complete_and_ordered() {
    let mut c = Catalog::empty();
    c.views.push(view("z", &["y"]));
    c.views.push(view("y", &["t"]));
    c.views.push(view("ring_b", &["ring_a", "y"]));
    c.views.push(view("ring_a", &["ring_b"]));
    c.views.push(view("other", &["elsewhere"]));
    let triggers = vec![DepTrigger {
        qname: qn("t"),
        column: None,
    }];
    assert_eq!(
        walk_transitive(&triggers, &c),
        vec![qn("y"), qn("z"), qn("ring_a"), qn("ring_b")]
    );
}

#[test]
fn sorting_leftovers_names_every_node_once() {
    let mut g: Graph<&'static str> = Graph::new();
    g.add_edge("x", "y");
    g.add_edge("b", "a");
    g.add_edge("a", "b");
    g.add_edge("c", "a");
    assert_eq!(g.sort_with_leftovers(), vec!["y", "x", "a", "b", "c"]);
    // What only waits for a cycle is not part of it.
    assert_eq!(g.topological_sort().unwrap_err().nodes, vec!["a", "b"]);
}

#[test]
fn grouping_keeps_every_step() {
    let steps: Vec<RawStep> = (0..7)
        .map(|i| RawStep {
            step_no: i,
            kind: StepKind::CreateTable,
            destructive: false,
            destructive_reason: None,
            intent_id: None,
            targets: vec![],
            sql: String::new(),
            transactional: if i % 3 == 0 {
                TransactionConstraint::OutsideTransaction
            } else {
                TransactionConstraint::InTransaction
            },
        })
        .collect();
    let groups = group_steps(steps.clone());
    let flat: Vec<RawStep> = groups.into_iter().flat_map(|g| g.steps).collect();
    assert_eq!(flat, steps);
}

fn snake_case(name: &str) -> String {
    let mut out = String::new();
    for (i, c) in name.char_indices() {
        if i > 0 && c.is_uppercase() {
            out.push('_');
        }
        out.push(c.to_ascii_lowercase());
    }
    out
}

#[test]
fn every_kind_has_its_own_name_in_snake_case() {
    let kinds = [
        StepKind::CreateSchema,
        StepKind::DropSchema,
        StepKind::AlterSchemaComment,
        StepKind::CreateTable,
        StepKind::DropTable,
        StepKind::AlterTableSetComment,
        StepKind::AlterTableSetTablespace,
        StepKind::AddColumn,
        StepKind::DropColumn,
        StepKind::AlterColumnType,
        StepKind::SetColumnNullable,
        StepKind::SetColumnDefault,
        StepKind::SetColumnComment,
        StepKind::SetColumnIdentity,
        StepKind::SetColumnGenerated,
        StepKind::SetColumnStorage,
        StepKind::SetColumnCompression,
        StepKind::AddConstraint,
        StepKind::AddConstraintNotValid,
        StepKind::ValidateConstraint,
        StepKind::DropConstraint,
        StepKind::SetConstraintComment,
        StepKind::CreateIndex,
        StepKind::CreateIndexConcurrent,
        StepKind::DropIndex,
        StepKind::DropIndexConcurrent,
        StepKind::CreateSequence,
        StepKind::DropSequence,
        StepKind::AlterSequence,
        StepKind::AddCheckForNotNull,
        StepKind::CreateView,
        StepKind::DropView,
        StepKind::AlterViewSetCheckOption,
        StepKind::CreateMaterializedView,
        StepKind::DropMaterializedView,
        StepKind::RefreshMaterializedView,
        StepKind::AlterViewSetReloption,
        StepKind::CommentOnView,
        StepKind::CreateType,
        StepKind::DropType,
        StepKind::AlterTypeAddValue,
        StepKind::AlterTypeRenameValue,
        StepKind::AlterDomainAddConstraint,
        StepKind::AlterDomainDropConstraint,
        StepKind::AlterDomainSetDefault,
        StepKind::AlterDomainSetNotNull,
        StepKind::AlterTypeAddAttribute,
        StepKind::AlterTypeDropAttribute,
        StepKind::AlterTypeAlterAttributeType,
        StepKind::CommentOnType,
        StepKind::CreateOrReplaceFunction,
        StepKind::DropFunction,
        StepKind::CommentOnFunction,
        StepKind::CreateOrReplaceProcedure,
        StepKind::DropProcedure,
        StepKind::CommentOnProcedure,
        StepKind::CreateExtension,
        StepKind::DropExtension,
        StepKind::AlterExtensionUpdate,
        StepKind::CommentOnExtension,
        StepKind::CreateTrigger,
        StepKind::DropTrigger,
        StepKind::CommentOnTrigger,
        StepKind::AttachPartition,
        StepKind::DetachPartition,
        StepKind::CreateRole,
        StepKind::DropRole,
        StepKind::AlterRole,
        StepKind::GrantRoleMembership,
        StepKind::RevokeRoleMembership,
        StepKind::CommentOnRole,
        StepKind::CreateTablespace,
        StepKind::DropTablespace,
        StepKind::AlterTablespaceOwner,
        StepKind::SetTablespaceOptions,
        StepKind::CommentOnTablespace,
        StepKind::AlterObjectOwner,
        StepKind::GrantObjectPrivilege,
        StepKind::RevokeObjectPrivilege,
        StepKind::GrantColumnPrivilege,
        StepKind::RevokeColumnPrivilege,
        StepKind::AlterDefaultPrivileges,
        StepKind::CreatePolicy,
        StepKind::DropPolicy,
        StepKind::AlterPolicy,
        StepKind::SetTableRowSecurity,
        StepKind::SetTableForceRowSecurity,
        StepKind::SetTableStorage,
        StepKind::SetIndexStorage,
        StepKind::SetMaterializedViewStorage,
        StepKind::CreatePublication,
        StepKind::DropPublication,
        StepKind::ReplacePublication,
        StepKind::AlterPublicationAddTable,
        StepKind::AlterPublicationDropTable,
        StepKind::AlterPublicationSetTable,
        StepKind::AlterPublicationAddSchema,
        StepKind::AlterPublicationDropSchema,
        StepKind::AlterPublicationSetPublish,
        StepKind::AlterPublicationSetViaRoot,
        StepKind::CommentOnPublication,
        StepKind::CreateSubscription,
        StepKind::DropSubscription,
        StepKind::AlterSubscriptionConnection,
        StepKind::AlterSubscriptionAddPublication,
        StepKind::AlterSubscriptionDropPublication,
        StepKind::AlterSubscriptionSetOptions,
        StepKind::CommentOnSubscription,
        StepKind::CreateStatistic,
        StepKind::DropStatistic,
        StepKind::ReplaceStatistic,
        StepKind::AlterStatisticSetTarget,
        StepKind::CommentOnStatistic,
        StepKind::CreateCollation,
        StepKind::DropCollation,
        StepKind::RenameCollation,
        StepKind::ReplaceCollation,
        StepKind::CommentOnCollation,
        StepKind::CreateEventTrigger,
        StepKind::DropEventTrigger,
        StepKind::AlterEventTriggerEnable,
        StepKind::AlterEventTriggerOwner,
        StepKind::CommentOnEventTrigger,
        StepKind::CreateAggregate,
        StepKind::DropAggregate,
        StepKind::AlterAggregateOwner,
        StepKind::CommentOnAggregate,
        StepKind::CreateCast,
        StepKind::DropCast,
        StepKind::CommentOnCast,
        StepKind::CreateTsDictionary,
        StepKind::DropTsDictionary,
        StepKind::AlterTsDictionary,
        StepKind::AlterTsDictionaryOwner,
        StepKind::CommentOnTsDictionary,
        StepKind::CreateTsConfiguration,
        StepKind::DropTsConfiguration,
        StepKind::AddTsConfigMapping,
        StepKind::AlterTsConfigMapping,
        StepKind::DropTsConfigMapping,
        StepKind::AlterTsConfigurationOwner,
        StepKind::CommentOnTsConfiguration,
    ];
    for (i, a) in kinds.iter().enumerate() {
        assert_eq!(parse_kind_name(kind_name(*a)), Some(*a));
        assert_eq!(kind_name(*a), snake_case(&format!("{a:?}")));
        for b in &kinds[i + 1..] {
            assert_ne!(kind_name(*a), kind_name(*b));
        }
    }
}

#[test]
fn dollar_quotes_that_stay_open_are_found() {
    let open = |line: &str| {
        detect_dollar_quote_open(&line.chars().collect())
            .map(|tag| tag.into_iter().collect::<String>())
    };
    assert_eq!(open("AS $pgevolve$"), Some("pgevolve".to_string()));
    assert_eq!(open("AS $$"), Some(String::new()));
    assert_eq!(open("AS $a$ x $a$;"), None);
    assert_eq!(open("AS $a$ x $b$"), Some("a".to_string()));
    assert_eq!(open("costs $5 and $6"), None);
    assert_eq!(open("$1a$"), None);
    assert_eq!(open("$a1_$"), Some("a1_".to_string()));
    assert_eq!(open(""), None);
}

#[test]
fn doubling_quotes_keeps_texts_apart() {
    let doubled = |s: &str| {
        let mut out = String::new();
        append_literal_body(&mut out, s);
        out
    };
    assert_eq!(doubled("'"), "''");
    assert_eq!(doubled("''"), "''''");
    assert_eq!(doubled("a'b"), "a''b");
}

#[test]
fn switches_count_one_by_one() {
    let mut p = PlannerPolicy::default();
    p.online = OnlineRewrites::all_disabled();
    p.online.create_index_concurrent = true;
    assert!(p.create_index_concurrent());
    assert!(!p.refresh_mv_concurrently());
}

#[test]
fn empty_names_are_rejected_and_others_kept() {
    assert!(Identifier::from_quoted("").is_err());
    assert_eq!(Identifier::from_quoted("A b").unwrap().as_str(), "A b");
    let mut c = Catalog::empty();
    c.schemas
        .push(Schema::new(Identifier::from_quoted("A b").unwrap()));
    assert_eq!(build_create_graph(&c).node_count(), 1);
}
