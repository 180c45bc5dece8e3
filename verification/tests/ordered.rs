use pgevolve_plan::diff::change::{Change, ChangeEntry};
use pgevolve_plan::diff::destructiveness::Destructiveness;
use pgevolve_plan::identifier::{Identifier, QualifiedName};
use pgevolve_plan::ir::constraint::{Constraint, ConstraintKind, Deferrable, FkMatchType, ForeignKey, ReferentialAction};
use pgevolve_plan::ir::schema::Schema;
use pgevolve_plan::plan::ordered::{DeferredFkAdd, OrderedChangeSet};

fn id(s: &str) -> Identifier {
    Identifier::from_unquoted(s).unwrap()
}

fn qn(schema: &str, name: &str) -> QualifiedName {
    QualifiedName::new(id(schema), id(name))
}

fn fk_constraint() -> Constraint {
    Constraint {
        qname: qn("app", "fk1"),
        kind: ConstraintKind::ForeignKey(ForeignKey {
            columns: vec![id("ref_id")],
            referenced_table: qn("app", "b"),
            referenced_columns: vec![id("id")],
            on_update: ReferentialAction::NoAction,
            on_delete: ReferentialAction::NoAction,
            match_type: FkMatchType::Simple,
        }),
        deferrable: Deferrable::NotDeferrable,
        comment: None,
    }
}

#[test]
fn default_is_empty() {
    let o = OrderedChangeSet::default();
    assert!(o.is_empty());
    assert_eq!(o.len(), 0);
}

#[test]
fn len_sums_all_buckets() {
    let o = OrderedChangeSet {
        creates_and_adds: vec![ChangeEntry {
            change: Change::CreateSchema(Schema::new(id("app"))),
            destructiveness: Destructiveness::Safe,
        }],
        modifies: vec![],
        drops: vec![ChangeEntry {
            change: Change::DropSchema(id("old")),
            destructiveness: Destructiveness::RequiresApproval {
                reason: "drop".into(),
            },
        }],
        deferred_fks: vec![DeferredFkAdd {
            table: qn("app", "a"),
            constraint: fk_constraint(),
        }],
    };
    assert!(!o.is_empty());
    assert_eq!(o.len(), 3);
}

#[test]
fn is_empty_iff_all_buckets_empty() {
    let mut o = OrderedChangeSet::default();
    assert!(o.is_empty());
    o.deferred_fks.push(DeferredFkAdd {
        table: qn("app", "a"),
        constraint: fk_constraint(),
    });
    assert!(!o.is_empty());
}
