//! Table constraints.

use crate::identifier::{Identifier, QnameModel, QualifiedName};
use crate::ir::expr::NormalizedExpr;
use crate::model::{dup_list, models, Duplicate};
use crate::text::{dup_opt_text, opt_text};
use vstd::prelude::*;

verus! {

/// What happens to referencing rows.
#[derive(Debug, Clone, Copy, PartialEq, Eq, Structural)]
pub enum ReferentialAction {
    /// `NO ACTION`.
    NoAction,
    /// `RESTRICT`.
    Restrict,
    /// `CASCADE`.
    Cascade,
    /// `SET NULL`.
    SetNull,
    /// `SET DEFAULT`.
    SetDefault,
}

/// How a composite key with nulls matches.
#[derive(Debug, Clone, Copy, PartialEq, Eq, Structural)]
pub enum FkMatchType {
    /// `MATCH SIMPLE`.
    Simple,
    /// `MATCH FULL`.
    Full,
}

/// When a constraint is checked.
#[derive(Debug, Clone, Copy, PartialEq, Eq, Structural)]
pub enum Deferrable {
    /// `NOT DEFERRABLE`.
    NotDeferrable,
    /// `DEFERRABLE INITIALLY IMMEDIATE`.
    InitiallyImmediate,
    /// `DEFERRABLE INITIALLY DEFERRED`.
    InitiallyDeferred,
}

/// A foreign key.
#[derive(Debug, Clone, PartialEq, Eq)]
pub struct ForeignKey {
    /// Referencing columns.
    pub columns: Vec<Identifier>,
    /// Referenced table.
    pub referenced_table: QualifiedName,
    /// Referenced columns.
    pub referenced_columns: Vec<Identifier>,
    /// Action on update of a referenced row.
    pub on_update: ReferentialAction,
    /// Action on delete of a referenced row.
    pub on_delete: ReferentialAction,
    /// Match rule.
    pub match_type: FkMatchType,
}

/// What a constraint requires.
#[derive(Debug, Clone, PartialEq, Eq)]
pub enum ConstraintKind {
    /// `PRIMARY KEY`.
    PrimaryKey {
        /// Key columns.
        columns: Vec<Identifier>,
        /// Included columns.
        included: Vec<Identifier>,
    },
    /// `UNIQUE`.
    Unique {
        /// Key columns.
        columns: Vec<Identifier>,
        /// Included columns.
        included: Vec<Identifier>,
        /// `NULLS NOT DISTINCT`.
        nulls_not_distinct: bool,
    },
    /// `FOREIGN KEY`.
    ForeignKey(ForeignKey),
    /// `CHECK`.
    Check {
        /// The checked expression.
        expression: NormalizedExpr,
        /// `NO INHERIT`.
        no_inherit: bool,
    },
}

/// A table constraint.
#[derive(Debug, Clone, PartialEq, Eq)]
pub struct Constraint {
    /// Its name, in the schema of its table.
    pub qname: QualifiedName,
    /// What it requires.
    pub kind: ConstraintKind,
    /// When it is checked.
    pub deferrable: Deferrable,
    /// Its comment.
    pub comment: Option<String>,
}

/// The model of a constraint kind.
#[verifier::ext_equal]
pub enum ConstraintKindModel {
    /// `PRIMARY KEY`.
    PrimaryKey {
        /// Key columns.
        columns: Seq<Seq<char>>,
        /// Included columns.
        included: Seq<Seq<char>>,
    },
    /// `UNIQUE`.
    Unique {
        /// Key columns.
        columns: Seq<Seq<char>>,
        /// Included columns.
        included: Seq<Seq<char>>,
        /// `NULLS NOT DISTINCT`.
        nulls_not_distinct: bool,
    },
    /// `FOREIGN KEY`.
    ForeignKey {
        /// Referencing columns.
        columns: Seq<Seq<char>>,
        /// Referenced table.
        referenced_table: QnameModel,
        /// Referenced columns.
        referenced_columns: Seq<Seq<char>>,
        /// Action on update.
        on_update: ReferentialAction,
        /// Action on delete.
        on_delete: ReferentialAction,
        /// Match rule.
        match_type: FkMatchType,
    },
    /// `CHECK`.
    Check {
        /// The checked expression.
        expression: Seq<char>,
        /// `NO INHERIT`.
        no_inherit: bool,
    },
}

/// The model of a constraint.
#[verifier::ext_equal]
pub struct ConstraintModel {
    /// Its name.
    pub qname: QnameModel,
    /// What it requires.
    pub kind: ConstraintKindModel,
    /// When it is checked.
    pub deferrable: Deferrable,
    /// Its comment.
    pub comment: Option<Seq<char>>,
}

impl View for ConstraintKind {
    type V = ConstraintKindModel;

    open spec fn view(&self) -> ConstraintKindModel {
        match *self {
            ConstraintKind::PrimaryKey { columns, included } => ConstraintKindModel::PrimaryKey {
                columns: models(columns@),
                included: models(included@),
            },
            ConstraintKind::Unique { columns, included, nulls_not_distinct } =>
                ConstraintKindModel::Unique {
                columns: models(columns@),
                included: models(included@),
                nulls_not_distinct,
            },
            ConstraintKind::ForeignKey(fk) => ConstraintKindModel::ForeignKey {
                columns: models(fk.columns@),
                referenced_table: fk.referenced_table@,
                referenced_columns: models(fk.referenced_columns@),
                on_update: fk.on_update,
                on_delete: fk.on_delete,
                match_type: fk.match_type,
            },
            ConstraintKind::Check { expression, no_inherit } => ConstraintKindModel::Check {
                expression: expression@,
                no_inherit,
            },
        }
    }
}

impl Duplicate for ConstraintKind {
    fn duplicate(&self) -> (copy: ConstraintKind) {
        match self {
            ConstraintKind::PrimaryKey { columns, included } => ConstraintKind::PrimaryKey {
                columns: dup_list(columns),
                included: dup_list(included),
            },
            ConstraintKind::Unique { columns, included, nulls_not_distinct } =>
                ConstraintKind::Unique {
                columns: dup_list(columns),
                included: dup_list(included),
                nulls_not_distinct: *nulls_not_distinct,
            },
            ConstraintKind::ForeignKey(fk) => ConstraintKind::ForeignKey(
                ForeignKey {
                    columns: dup_list(&fk.columns),
                    referenced_table: fk.referenced_table.duplicate(),
                    referenced_columns: dup_list(&fk.referenced_columns),
                    on_update: fk.on_update,
                    on_delete: fk.on_delete,
                    match_type: fk.match_type,
                },
            ),
            ConstraintKind::Check { expression, no_inherit } => ConstraintKind::Check {
                expression: expression.duplicate(),
                no_inherit: *no_inherit,
            },
        }
    }
}

impl View for Constraint {
    type V = ConstraintModel;

    open spec fn view(&self) -> ConstraintModel {
        ConstraintModel {
            qname: self.qname@,
            kind: self.kind@,
            deferrable: self.deferrable,
            comment: opt_text(self.comment),
        }
    }
}

impl Duplicate for Constraint {
    fn duplicate(&self) -> (copy: Constraint) {
        Constraint {
            qname: self.qname.duplicate(),
            kind: self.kind.duplicate(),
            deferrable: self.deferrable,
            comment: dup_opt_text(&self.comment),
        }
    }
}

} // verus!
