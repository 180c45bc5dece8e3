//! Objects that have owners and grants.

use crate::identifier::{name_sql, Identifier, QnameModel, QualifiedName};
use crate::model::Duplicate;
use crate::text::{SqlText, ToSql};
use vstd::prelude::*;
use vstd::string::*;

verus! {

/// The argument list of a routine, in parentheses, as it is written in SQL.
#[derive(Debug, Clone, PartialEq, Eq)]
pub struct RoutineSignature(pub String);

/// An object that has an owner and grants.
#[derive(Debug, Clone, PartialEq, Eq)]
pub enum GrantableObject {
    /// A table, view or materialized view.
    Table(QualifiedName),
    /// A sequence.
    Sequence(QualifiedName),
    /// A type or domain.
    Type(QualifiedName),
    /// A collation.
    Collation(QualifiedName),
    /// A statistics object.
    Statistics(QualifiedName),
    /// A schema.
    Schema(Identifier),
    /// A publication.
    Publication(Identifier),
    /// A subscription.
    Subscription(Identifier),
    /// A function.
    Function {
        /// Its name.
        name: QualifiedName,
        /// Its argument list.
        signature: RoutineSignature,
    },
    /// A procedure.
    Procedure {
        /// Its name.
        name: QualifiedName,
        /// Its argument list.
        signature: RoutineSignature,
    },
}

impl GrantableObject {
    /// The SQL keyword of its kind.
    pub open spec fn keyword(self) -> Seq<char> {
        match self {
            GrantableObject::Table(_) => "TABLE"@,
            GrantableObject::Sequence(_) => "SEQUENCE"@,
            GrantableObject::Type(_) => "TYPE"@,
            GrantableObject::Collation(_) => "COLLATION"@,
            GrantableObject::Statistics(_) => "STATISTICS"@,
            GrantableObject::Schema(_) => "SCHEMA"@,
            GrantableObject::Publication(_) => "PUBLICATION"@,
            GrantableObject::Subscription(_) => "SUBSCRIPTION"@,
            GrantableObject::Function { .. } => "FUNCTION"@,
            GrantableObject::Procedure { .. } => "PROCEDURE"@,
        }
    }

    /// Its name, and for a routine its argument list.
    pub open spec fn target_sql(self) -> Seq<char> {
        match self {
            GrantableObject::Table(q) => q@.sql(),
            GrantableObject::Sequence(q) => q@.sql(),
            GrantableObject::Type(q) => q@.sql(),
            GrantableObject::Collation(q) => q@.sql(),
            GrantableObject::Statistics(q) => q@.sql(),
            GrantableObject::Schema(name) => name_sql(name@),
            GrantableObject::Publication(name) => name_sql(name@),
            GrantableObject::Subscription(name) => name_sql(name@),
            GrantableObject::Function { name, signature } => name@.sql() + signature.0@,
            GrantableObject::Procedure { name, signature } => name@.sql() + signature.0@,
        }
    }

    /// Its name as a qualified name; an object outside schemas has its own
    /// name in both places.
    pub open spec fn target(self) -> QnameModel {
        match self {
            GrantableObject::Table(q) => q@,
            GrantableObject::Sequence(q) => q@,
            GrantableObject::Type(q) => q@,
            GrantableObject::Collation(q) => q@,
            GrantableObject::Statistics(q) => q@,
            GrantableObject::Schema(name) => QnameModel { schema: name@, name: name@ },
            GrantableObject::Publication(name) => QnameModel { schema: name@, name: name@ },
            GrantableObject::Subscription(name) => QnameModel { schema: name@, name: name@ },
            GrantableObject::Function { name, .. } => name@,
            GrantableObject::Procedure { name, .. } => name@,
        }
    }

    /// The SQL keyword of its kind.
    pub fn sql_keyword(&self) -> (text: &'static str)
        ensures
            text@ == self.keyword(),
    {
        match self {
            GrantableObject::Table(_) => "TABLE",
            GrantableObject::Sequence(_) => "SEQUENCE",
            GrantableObject::Type(_) => "TYPE",
            GrantableObject::Collation(_) => "COLLATION",
            GrantableObject::Statistics(_) => "STATISTICS",
            GrantableObject::Schema(_) => "SCHEMA",
            GrantableObject::Publication(_) => "PUBLICATION",
            GrantableObject::Subscription(_) => "SUBSCRIPTION",
            GrantableObject::Function { .. } => "FUNCTION",
            GrantableObject::Procedure { .. } => "PROCEDURE",
        }
    }

    /// Its name, and for a routine its argument list.
    pub fn render_target(&self) -> (text: String)
        ensures
            text@ == self.target_sql(),
    {
        match self {
            GrantableObject::Table(q)
            | GrantableObject::Sequence(q)
            | GrantableObject::Type(q)
            | GrantableObject::Collation(q)
            | GrantableObject::Statistics(q) => q.render_sql(),
            GrantableObject::Schema(name)
            | GrantableObject::Publication(name)
            | GrantableObject::Subscription(name) => name.render_sql(),
            GrantableObject::Function { name, signature }
            | GrantableObject::Procedure { name, signature } => {
                let mut out = name.render_sql();
                out.append(signature.0.as_str());
                out
            },
        }
    }

    /// Its name as a qualified name.
    pub fn target_qname(&self) -> (q: QualifiedName)
        ensures
            q@ == self.target(),
    {
        match self {
            GrantableObject::Table(q)
            | GrantableObject::Sequence(q)
            | GrantableObject::Type(q)
            | GrantableObject::Collation(q)
            | GrantableObject::Statistics(q) => q.duplicate(),
            GrantableObject::Schema(name)
            | GrantableObject::Publication(name)
            | GrantableObject::Subscription(name) => QualifiedName::new(
                name.duplicate(),
                name.duplicate(),
            ),
            GrantableObject::Function { name, .. }
            | GrantableObject::Procedure { name, .. } => name.duplicate(),
        }
    }
}

/// A change of owner.
#[derive(Debug, Clone, PartialEq, Eq)]
pub struct OwnerOp {
    /// The object.
    pub object: GrantableObject,
    /// Its new owner.
    pub to: Identifier,
}

} // verus!
