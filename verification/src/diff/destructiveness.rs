//! How much approval a change needs.

use vstd::prelude::*;

verus! {

/// How much approval a change needs.
#[derive(Debug, Clone, PartialEq, Eq)]
pub enum Destructiveness {
    /// None.
    Safe,
    /// Explicit approval.
    RequiresApproval {
        /// Why.
        reason: String,
    },
    /// Explicit approval, and data may be lost.
    RequiresApprovalAndDataLossWarning {
        /// Why.
        reason: String,
    },
}

impl Destructiveness {
    /// Why approval is needed, if it is.
    pub open spec fn reason_text(self) -> Option<Seq<char>> {
        match self {
            Destructiveness::Safe => None,
            Destructiveness::RequiresApproval { reason } => Some(reason@),
            Destructiveness::RequiresApprovalAndDataLossWarning { reason } => Some(reason@),
        }
    }

    /// Whether approval is needed.
    pub fn requires_approval(&self) -> (r: bool)
        ensures
            r == self.reason_text() is Some,
    {
        match self {
            Destructiveness::Safe => false,
            _ => true,
        }
    }

    /// Why approval is needed, if it is.
    pub fn reason(&self) -> (r: Option<String>)
        ensures
            crate::text::opt_text(r) == self.reason_text(),
    {
        match self {
            Destructiveness::Safe => None,
            Destructiveness::RequiresApproval { reason } => Some(reason.clone()),
            Destructiveness::RequiresApprovalAndDataLossWarning { reason } => Some(reason.clone()),
        }
    }
}

} // verus!
