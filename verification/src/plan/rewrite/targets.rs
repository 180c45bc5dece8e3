//! Targets of steps on objects that have no qualified name, and reasons.

use crate::diff::destructiveness::Destructiveness;
use crate::identifier::{Identifier, QnameModel, QualifiedName};
use crate::model::Duplicate;
use crate::text::opt_text;
use vstd::prelude::*;

verus! {

/// A qualified name whose two halves are the same.
pub open spec fn own_name(name: Seq<char>) -> QnameModel {
    QnameModel { schema: name, name }
}

/// A schema is identified by a plain name, but targets are qualified names:
/// the schema's name stands in both halves.
pub fn schema_target(name: &Identifier) -> (q: QualifiedName)
    ensures
        q@ == own_name(name@),
{
    QualifiedName::new(name.duplicate(), name.duplicate())
}

/// Why a change needs approval, where it does.
pub fn destructive_reason(d: &Destructiveness) -> (reason: Option<String>)
    ensures
        opt_text(reason) == d.reason_text(),
{
    d.reason()
}

} // verus!
