use pgevolve_plan::diff::cluster::{ClusterChange, ClusterChangeEntry};
use pgevolve_plan::diff::destructiveness::Destructiveness;
use pgevolve_plan::identifier::Identifier;
use pgevolve_plan::ir::role::{Role, RoleAttributes};
use pgevolve_plan::plan::cluster_rewrite::emit::emit_one;
use pgevolve_plan::plan::raw_step::{StepKind, TransactionConstraint};

fn id(s: &str) -> Identifier {
    Identifier::from_unquoted(s).unwrap()
}

#[test]
fn create_role_emits_create_kind() {
    let entry = ClusterChangeEntry {
        change: ClusterChange::CreateRole(Role {
            name: id("app_user"),
            attributes: RoleAttributes::default(),
            member_of: vec![],
            comment: None,
        }),
        destructiveness: Destructiveness::Safe,
    };
    let step = emit_one(&entry);
    assert!(matches!(step.kind, StepKind::CreateRole));
    assert!(step.sql.starts_with("CREATE ROLE"), "got: {}", step.sql);
    assert!(!step.destructive);
    assert!(matches!(
        step.transactional,
        TransactionConstraint::InTransaction
    ));
}

#[test]
fn drop_role_emits_destructive() {
    let entry = ClusterChangeEntry {
        change: ClusterChange::DropRole { name: id("old") },
        destructiveness: Destructiveness::RequiresApprovalAndDataLossWarning {
            reason: "drops".into(),
        },
    };
    let step = emit_one(&entry);
    assert!(matches!(step.kind, StepKind::DropRole));
    assert!(step.destructive);
    assert_eq!(step.destructive_reason.as_deref(), Some("drops"));
}
