//! Extensions.

use crate::identifier::Identifier;
use vstd::prelude::*;

verus! {

/// An installed extension.
#[derive(Debug, Clone, PartialEq, Eq)]
pub struct Extension {
    /// Its name.
    pub name: Identifier,
    /// The schema its objects are in.
    pub schema: Option<Identifier>,
    /// Its version.
    pub version: Option<String>,
    /// Its comment.
    pub comment: Option<String>,
}

} // verus!
