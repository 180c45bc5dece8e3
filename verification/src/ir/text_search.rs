//! Text search dictionaries and configurations.

use crate::identifier::{Identifier, QualifiedName};
use vstd::prelude::*;

verus! {

/// A text search dictionary.
#[derive(Debug, Clone, PartialEq, Eq)]
pub struct TsDictionary {
    /// Its name.
    pub qname: QualifiedName,
    /// Its template.
    pub template: QualifiedName,
    /// Its options, as key and value.
    pub options: Vec<(String, String)>,
    /// Its owner.
    pub owner: Option<Identifier>,
    /// Its comment.
    pub comment: Option<String>,
}

/// Which dictionaries handle a token type.
#[derive(Debug, Clone, PartialEq, Eq)]
pub struct TsMapping {
    /// The token type alias.
    pub token_type: String,
    /// The dictionaries, in order.
    pub dictionaries: Vec<QualifiedName>,
}

/// A text search configuration.
#[derive(Debug, Clone, PartialEq, Eq)]
pub struct TsConfiguration {
    /// Its name.
    pub qname: QualifiedName,
    /// Its parser.
    pub parser: QualifiedName,
    /// Its mappings, in order.
    pub mappings: Vec<TsMapping>,
    /// Its owner.
    pub owner: Option<Identifier>,
    /// Its comment.
    pub comment: Option<String>,
}

} // verus!
