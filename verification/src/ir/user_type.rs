//! User-defined types.

use crate::identifier::{Identifier, QualifiedName};
use crate::ir::column_type::ColumnType;
use crate::ir::expr::{DefaultExpr, NormalizedExpr};
use crate::ir::grant::Grant;
use vstd::prelude::*;

verus! {

/// A check constraint of a domain.
#[derive(Debug, Clone, PartialEq, Eq)]
pub struct DomainCheck {
    /// Its name.
    pub name: Identifier,
    /// The checked expression.
    pub expression: NormalizedExpr,
}

/// An attribute of a composite type.
#[derive(Debug, Clone, PartialEq, Eq)]
pub struct CompositeAttribute {
    /// Its name.
    pub name: Identifier,
    /// Its type.
    pub ty: ColumnType,
    /// Explicit collation.
    pub collation: Option<QualifiedName>,
}

/// What a user-defined type is.
#[derive(Debug, Clone, PartialEq, Eq)]
pub enum UserTypeKind {
    /// An enum.
    Enum {
        /// Its labels, in order.
        values: Vec<String>,
    },
    /// A domain.
    Domain {
        /// The underlying type.
        base: ColumnType,
        /// Whether it accepts null.
        nullable: bool,
        /// Its default.
        default: Option<DefaultExpr>,
        /// Its check constraints.
        check_constraints: Vec<DomainCheck>,
        /// Explicit collation.
        collation: Option<QualifiedName>,
    },
    /// A composite type.
    Composite {
        /// Its attributes.
        attributes: Vec<CompositeAttribute>,
    },
    /// A range type.
    Range {
        /// The type of its bounds.
        subtype: QualifiedName,
        /// Operator class of the bounds.
        subtype_opclass: Option<QualifiedName>,
        /// Collation of the bounds.
        collation: Option<QualifiedName>,
        /// Canonicalization function.
        canonical: Option<QualifiedName>,
        /// Difference function.
        subtype_diff: Option<QualifiedName>,
        /// Name of its multirange type.
        multirange_type_name: Option<QualifiedName>,
    },
}

/// A user-defined type.
#[derive(Debug, Clone, PartialEq, Eq)]
pub struct UserType {
    /// Its name.
    pub qname: QualifiedName,
    /// What it is.
    pub kind: UserTypeKind,
    /// Its comment.
    pub comment: Option<String>,
    /// Its owner.
    pub owner: Option<Identifier>,
    /// Its grants.
    pub grants: Vec<Grant>,
}

} // verus!
