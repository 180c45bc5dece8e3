//! Publications and subscriptions.

use crate::identifier::{Identifier, QualifiedName};
use crate::ir::expr::NormalizedExpr;
use vstd::prelude::*;

verus! {

/// A published table.
#[derive(Debug, Clone, PartialEq, Eq)]
pub struct PublishedTable {
    /// Its name.
    pub qname: QualifiedName,
    /// The published columns, where not all are.
    pub columns: Option<Vec<Identifier>>,
    /// Row filter.
    pub row_filter: Option<NormalizedExpr>,
}

/// What a publication publishes.
#[derive(Debug, Clone, PartialEq, Eq)]
pub enum PublicationScope {
    /// Every table.
    AllTables,
    /// The given schemas and tables.
    Selective {
        /// Schemas published whole.
        schemas: Vec<Identifier>,
        /// Single tables.
        tables: Vec<PublishedTable>,
    },
}

/// The operations a publication publishes.
#[derive(Debug, Clone, Copy, PartialEq, Eq, Structural)]
pub struct PublishKinds {
    /// `insert`.
    pub insert: bool,
    /// `update`.
    pub update: bool,
    /// `delete`.
    pub delete: bool,
    /// `truncate`.
    pub truncate: bool,
}

/// A publication.
#[derive(Debug, Clone, PartialEq, Eq)]
pub struct Publication {
    /// Its name.
    pub name: Identifier,
    /// What it publishes.
    pub scope: PublicationScope,
    /// The operations it publishes.
    pub publish: PublishKinds,
    /// `publish_via_partition_root`.
    pub publish_via_partition_root: bool,
    /// Its comment.
    pub comment: Option<String>,
    /// Its owner.
    pub owner: Option<Identifier>,
}

/// Options of a subscription; an option that is absent is not managed.
#[derive(Debug, Clone, PartialEq, Eq)]
pub struct SubscriptionOptions {
    /// `enabled`.
    pub enabled: Option<bool>,
    /// `create_slot`.
    pub create_slot: Option<bool>,
    /// `slot_name`.
    pub slot_name: Option<String>,
    /// `copy_data`.
    pub copy_data: Option<bool>,
    /// `binary`.
    pub binary: Option<bool>,
}

/// A subscription.
#[derive(Debug, Clone, PartialEq, Eq)]
pub struct Subscription {
    /// Its name.
    pub name: Identifier,
    /// Connection string.
    pub connection: String,
    /// The publications it reads.
    pub publications: Vec<Identifier>,
    /// Its options.
    pub options: SubscriptionOptions,
    /// Its comment.
    pub comment: Option<String>,
    /// Its owner.
    pub owner: Option<Identifier>,
}

} // verus!
