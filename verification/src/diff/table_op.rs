//! Operations on one table.

use crate::diff::destructiveness::Destructiveness;
use crate::identifier::Identifier;
use crate::ir::column_type::ColumnType;
use crate::ir::constraint::Constraint;
use crate::ir::expr::{DefaultExpr, NormalizedExpr};
use crate::ir::table::{Column, Compression, Identity, StorageKind};
use vstd::prelude::*;

verus! {

/// One operation on a table.
#[derive(Debug, Clone, PartialEq, Eq)]
pub enum TableOp {
    /// Add a column.
    AddColumn(Column),
    /// Drop a column.
    DropColumn {
        /// The column.
        name: Identifier,
        /// Whether it holds data.
        is_populated: bool,
    },
    /// Change the type of a column.
    AlterColumnType {
        /// The column.
        name: Identifier,
        /// Its type so far.
        from: ColumnType,
        /// Its new type.
        to: ColumnType,
        /// Conversion expression.
        using: Option<NormalizedExpr>,
    },
    /// Accept or refuse null.
    SetColumnNullable {
        /// The column.
        name: Identifier,
        /// Whether it accepts null.
        nullable: bool,
    },
    /// Set or drop the default.
    SetColumnDefault {
        /// The column.
        name: Identifier,
        /// Its new default.
        default: Option<DefaultExpr>,
    },
    /// Make it an identity column or an ordinary one.
    SetColumnIdentity {
        /// The column.
        name: Identifier,
        /// Its new identity.
        identity: Option<Identity>,
    },
    /// Set or drop the generation expression.
    SetColumnGenerated {
        /// The column.
        name: Identifier,
        /// Its new expression.
        generated: Option<NormalizedExpr>,
    },
    /// Set or drop the comment of a column.
    SetColumnComment {
        /// The column.
        name: Identifier,
        /// Its new comment.
        comment: Option<String>,
    },
    /// Set the storage strategy of a column.
    SetColumnStorage {
        /// The column.
        name: Identifier,
        /// Its strategy so far.
        from: Option<StorageKind>,
        /// Its new strategy.
        to: StorageKind,
    },
    /// Set or reset the compression method of a column.
    SetColumnCompression {
        /// The column.
        name: Identifier,
        /// Its new method.
        compression: Option<Compression>,
    },
    /// Add a constraint.
    AddConstraint(Constraint),
    /// Drop a constraint.
    DropConstraint {
        /// The constraint.
        name: Identifier,
    },
    /// Set or drop the comment of a constraint.
    SetConstraintComment {
        /// The constraint.
        name: Identifier,
        /// Its new comment.
        comment: Option<String>,
    },
    /// Set or drop the comment of the table.
    SetTableComment {
        /// The new comment.
        comment: Option<String>,
    },
}

/// One operation and the approval it needs.
#[derive(Debug, Clone, PartialEq, Eq)]
pub struct TableOpEntry {
    /// The operation.
    pub op: TableOp,
    /// The approval it needs.
    pub destructiveness: Destructiveness,
}

} // verus!
