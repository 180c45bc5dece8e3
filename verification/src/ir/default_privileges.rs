//! Default privileges.

use vstd::prelude::*;

verus! {

/// The objects a default privilege rule applies to.
#[derive(Debug, Clone, Copy, PartialEq, Eq, Structural)]
pub enum DefaultPrivObjectType {
    /// `TABLES`.
    Tables,
    /// `SEQUENCES`.
    Sequences,
    /// `FUNCTIONS`.
    Functions,
    /// `TYPES`.
    Types,
    /// `SCHEMAS`.
    Schemas,
}

impl DefaultPrivObjectType {
    /// The SQL keyword.
    pub open spec fn keyword(self) -> Seq<char> {
        match self {
            DefaultPrivObjectType::Tables => "TABLES"@,
            DefaultPrivObjectType::Sequences => "SEQUENCES"@,
            DefaultPrivObjectType::Functions => "FUNCTIONS"@,
            DefaultPrivObjectType::Types => "TYPES"@,
            DefaultPrivObjectType::Schemas => "SCHEMAS"@,
        }
    }

    /// The SQL keyword.
    pub fn sql_keyword(&self) -> (text: &'static str)
        ensures
            text@ == self.keyword(),
    {
        match self {
            DefaultPrivObjectType::Tables => "TABLES",
            DefaultPrivObjectType::Sequences => "SEQUENCES",
            DefaultPrivObjectType::Functions => "FUNCTIONS",
            DefaultPrivObjectType::Types => "TYPES",
            DefaultPrivObjectType::Schemas => "SCHEMAS",
        }
    }
}

} // verus!
