//! Errors of reading a plan back.

use crate::plan::plan::InvalidPlanHash;
use vstd::prelude::*;
use vstd::string::*;

verus! {

/// Why a plan could not be read or written.
#[derive(Debug, Clone, PartialEq, Eq)]
pub enum PlanIoError {
    /// A `-- @pgevolve` directive is not understood.
    MalformedDirective(String),
    /// The three files are not of the same plan.
    PlanIdMismatch {
        /// The short id in `plan.sql`.
        sql: String,
        /// The short id in `intent.toml`.
        intent: String,
        /// The short id in `manifest.toml`.
        manifest: String,
    },
    /// The manifest's `plan_hash` is not a full plan id.
    InvalidPlanHash(InvalidPlanHash),
}

impl PlanIoError {
    /// The message text.
    pub open spec fn message(&self) -> Seq<char> {
        match *self {
            PlanIoError::MalformedDirective(text) => "malformed directive: "@ + text@,
            PlanIoError::PlanIdMismatch { sql, intent, manifest } => "plan id mismatch: sql="@
                + sql@ + " intent="@ + intent@ + " manifest="@ + manifest@,
            PlanIoError::InvalidPlanHash(e) => "invalid plan hash: "@ + e.0@,
        }
    }

    /// The error message.
    pub fn to_string(&self) -> (text: String)
        ensures
            text@ == self.message(),
    {
        match self {
            PlanIoError::MalformedDirective(text) => {
                let mut out = "malformed directive: ".to_owned();
                out.append(text.as_str());
                out
            },
            PlanIoError::PlanIdMismatch { sql, intent, manifest } => {
                let mut out = "plan id mismatch: sql=".to_owned();
                out.append(sql.as_str());
                out.append(" intent=");
                out.append(intent.as_str());
                out.append(" manifest=");
                out.append(manifest.as_str());
                out
            },
            PlanIoError::InvalidPlanHash(e) => e.to_string(),
        }
    }
}

} // verus!
