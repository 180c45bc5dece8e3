//! Collations.

use crate::identifier::{Identifier, QualifiedName};
use crate::text::text_eq;
use vstd::prelude::*;

verus! {

/// Who implements a collation.
#[derive(Debug, Clone, Copy, PartialEq, Eq, Structural)]
pub enum CollationProvider {
    /// The C library.
    Libc,
    /// ICU.
    Icu,
    /// PostgreSQL itself.
    Builtin,
}

impl CollationProvider {
    /// The SQL keyword.
    pub open spec fn keyword(self) -> Seq<char> {
        match self {
            CollationProvider::Libc => "libc"@,
            CollationProvider::Icu => "icu"@,
            CollationProvider::Builtin => "builtin"@,
        }
    }

    /// The SQL keyword.
    pub fn sql_keyword(&self) -> (text: &'static str)
        ensures
            text@ == self.keyword(),
    {
        match self {
            CollationProvider::Libc => "libc",
            CollationProvider::Icu => "icu",
            CollationProvider::Builtin => "builtin",
        }
    }
}

/// A collation.
#[derive(Debug, Clone, PartialEq, Eq)]
pub struct Collation {
    /// Its name.
    pub qname: QualifiedName,
    /// Who implements it.
    pub provider: CollationProvider,
    /// `lc_collate`.
    pub lc_collate: String,
    /// `lc_ctype`.
    pub lc_ctype: String,
    /// Whether equal means identical bytes.
    pub deterministic: bool,
    /// Provider version.
    pub version: Option<String>,
    /// Its owner.
    pub owner: Option<Identifier>,
    /// Its comment.
    pub comment: Option<String>,
}

/// The short names of collations that every database has.
pub open spec fn is_builtin_collation(name: Seq<char>) -> bool {
    ||| name == "default"@
    ||| name == "C"@
    ||| name == "c"@
    ||| name == "POSIX"@
    ||| name == "posix"@
    ||| name == "ucs_basic"@
    ||| name == "unicode"@
    ||| name == "und-x-icu"@
    ||| name == "C.UTF-8"@
    ||| name == "C.utf8"@
    ||| name == "pg_c_utf8"@
    ||| name == "pg_unicode_fast"@
}

/// Decides [`is_builtin_collation`].
pub fn builtin_collation(name: &str) -> (r: bool)
    ensures
        r == is_builtin_collation(name@),
{
    text_eq(name, "default") || text_eq(name, "C") || text_eq(name, "c") || text_eq(name, "POSIX")
        || text_eq(name, "posix") || text_eq(name, "ucs_basic") || text_eq(name, "unicode")
        || text_eq(name, "und-x-icu") || text_eq(name, "C.UTF-8") || text_eq(name, "C.utf8")
        || text_eq(name, "pg_c_utf8") || text_eq(name, "pg_unicode_fast")
}

} // verus!
