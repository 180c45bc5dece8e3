//! Schemas.

use crate::identifier::Identifier;
use crate::ir::grant::Grant;
use vstd::prelude::*;

verus! {

/// A schema.
#[derive(Debug, Clone, PartialEq, Eq)]
pub struct Schema {
    /// Its name.
    pub name: Identifier,
    /// Its comment.
    pub comment: Option<String>,
    /// Its owner.
    pub owner: Option<Identifier>,
    /// Its grants.
    pub grants: Vec<Grant>,
}

impl Schema {
    /// A schema with no comment, owner or grants.
    pub fn new(name: Identifier) -> (schema: Schema)
        ensures
            schema.name == name,
            schema.comment is None,
            schema.owner is None,
            schema.grants@.len() == 0,
    {
        Schema { name, comment: None, owner: None, grants: Vec::new() }
    }
}

} // verus!
