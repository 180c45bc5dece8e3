//! SQL identifiers and schema-qualified names.

use crate::model::Duplicate;
use crate::text::{append_doubled, doubled, text_eq, SqlText, ToSql};
use vstd::prelude::*;
use vstd::std_specs::iter::IteratorSpec;
use vstd::string::*;

verus! {

/// Why a text is not an unquoted identifier.
#[derive(Clone, Copy, Debug, PartialEq, Eq, Structural)]
pub enum IdentifierError {
    /// The text is empty.
    Empty,
    /// A character that an unquoted identifier cannot hold at its place.
    InvalidCharacter,
}

impl IdentifierError {
    /// The message text.
    pub open spec fn message(&self) -> Seq<char> {
        match self {
            IdentifierError::Empty => "identifier is empty"@,
            IdentifierError::InvalidCharacter => "not a valid unquoted identifier"@,
        }
    }

    /// The error message.
    pub fn to_string(&self) -> (text: String)
        ensures
            text@ == self.message(),
    {
        match self {
            IdentifierError::Empty => "identifier is empty".to_owned(),
            IdentifierError::InvalidCharacter => "not a valid unquoted identifier".to_owned(),
        }
    }
}

/// A character that may start an unquoted identifier: a letter or `_`.
pub open spec fn starts_identifier(c: char) -> bool {
    ('a' <= c && c <= 'z') || ('A' <= c && c <= 'Z') || c == '_'
}

/// A character that may continue one: also a digit or `$`.
pub open spec fn continues_identifier(c: char) -> bool {
    starts_identifier(c) || ('0' <= c && c <= '9') || c == '$'
}

/// Text that SQL reads as one identifier without quotes.
pub open spec fn is_unquoted(s: Seq<char>) -> bool {
    &&& s.len() > 0
    &&& starts_identifier(s[0])
    &&& forall|i: int| 0 <= i < s.len() ==> continues_identifier(#[trigger] s[i])
}

/// An upper case ASCII letter in lower case; other characters as they are.
pub open spec fn fold_char(c: char) -> char {
    if 'A' <= c && c <= 'Z' {
        ((c as u8) + 32) as char
    } else {
        c
    }
}

/// The text with its ASCII letters in lower case.
pub open spec fn folded(s: Seq<char>) -> Seq<char> {
    s.map_values(|c: char| fold_char(c))
}

/// Words that SQL does not accept as a bare name.
pub open spec fn is_reserved(s: Seq<char>) -> bool {
    ||| s == "all"@
    ||| s == "analyse"@
    ||| s == "analyze"@
    ||| s == "and"@
    ||| s == "any"@
    ||| s == "array"@
    ||| s == "as"@
    ||| s == "asc"@
    ||| s == "asymmetric"@
    ||| s == "authorization"@
    ||| s == "binary"@
    ||| s == "both"@
    ||| s == "case"@
    ||| s == "cast"@
    ||| s == "check"@
    ||| s == "collate"@
    ||| s == "collation"@
    ||| s == "column"@
    ||| s == "concurrently"@
    ||| s == "constraint"@
    ||| s == "create"@
    ||| s == "cross"@
    ||| s == "current_catalog"@
    ||| s == "current_date"@
    ||| s == "current_role"@
    ||| s == "current_schema"@
    ||| s == "current_time"@
    ||| s == "current_timestamp"@
    ||| s == "current_user"@
    ||| s == "default"@
    ||| s == "deferrable"@
    ||| s == "desc"@
    ||| s == "distinct"@
    ||| s == "do"@
    ||| s == "else"@
    ||| s == "end"@
    ||| s == "except"@
    ||| s == "false"@
    ||| s == "fetch"@
    ||| s == "for"@
    ||| s == "foreign"@
    ||| s == "freeze"@
    ||| s == "from"@
    ||| s == "full"@
    ||| s == "grant"@
    ||| s == "group"@
    ||| s == "having"@
    ||| s == "ilike"@
    ||| s == "in"@
    ||| s == "initially"@
    ||| s == "inner"@
    ||| s == "intersect"@
    ||| s == "into"@
    ||| s == "is"@
    ||| s == "isnull"@
    ||| s == "join"@
    ||| s == "lateral"@
    ||| s == "leading"@
    ||| s == "left"@
    ||| s == "like"@
    ||| s == "limit"@
    ||| s == "localtime"@
    ||| s == "localtimestamp"@
    ||| s == "natural"@
    ||| s == "not"@
    ||| s == "notnull"@
    ||| s == "null"@
    ||| s == "offset"@
    ||| s == "on"@
    ||| s == "only"@
    ||| s == "or"@
    ||| s == "order"@
    ||| s == "outer"@
    ||| s == "overlaps"@
    ||| s == "placing"@
    ||| s == "primary"@
    ||| s == "references"@
    ||| s == "returning"@
    ||| s == "right"@
    ||| s == "select"@
    ||| s == "session_user"@
    ||| s == "similar"@
    ||| s == "some"@
    ||| s == "symmetric"@
    ||| s == "system_user"@
    ||| s == "table"@
    ||| s == "tablesample"@
    ||| s == "then"@
    ||| s == "to"@
    ||| s == "trailing"@
    ||| s == "true"@
    ||| s == "union"@
    ||| s == "unique"@
    ||| s == "user"@
    ||| s == "using"@
    ||| s == "variadic"@
    ||| s == "verbose"@
    ||| s == "when"@
    ||| s == "where"@
    ||| s == "window"@
    ||| s == "with"@
}

/// Decides [`is_reserved`].
fn reserved(s: &str) -> (r: bool)
    ensures
        r == is_reserved(s@),
{
    text_eq(s, "all") || text_eq(s, "analyse") || text_eq(s, "analyze") || text_eq(s, "and")
        || text_eq(s, "any") || text_eq(s, "array") || text_eq(s, "as") || text_eq(s, "asc")
        || text_eq(s, "asymmetric") || text_eq(s, "authorization") || text_eq(s, "binary")
        || text_eq(s, "both") || text_eq(s, "case") || text_eq(s, "cast") || text_eq(s, "check")
        || text_eq(s, "collate") || text_eq(s, "collation") || text_eq(s, "column") || text_eq(
        s,
        "concurrently",
    ) || text_eq(s, "constraint") || text_eq(s, "create") || text_eq(s, "cross") || text_eq(
        s,
        "current_catalog",
    ) || text_eq(s, "current_date") || text_eq(s, "current_role") || text_eq(s, "current_schema")
        || text_eq(s, "current_time") || text_eq(s, "current_timestamp") || text_eq(
        s,
        "current_user",
    ) || text_eq(s, "default") || text_eq(s, "deferrable") || text_eq(s, "desc") || text_eq(
        s,
        "distinct",
    ) || text_eq(s, "do") || text_eq(s, "else") || text_eq(s, "end") || text_eq(s, "except")
        || text_eq(s, "false") || text_eq(s, "fetch") || text_eq(s, "for") || text_eq(s, "foreign")
        || text_eq(s, "freeze") || text_eq(s, "from") || text_eq(s, "full") || text_eq(s, "grant")
        || text_eq(s, "group") || text_eq(s, "having") || text_eq(s, "ilike") || text_eq(s, "in")
        || text_eq(s, "initially") || text_eq(s, "inner") || text_eq(s, "intersect") || text_eq(
        s,
        "into",
    ) || text_eq(s, "is") || text_eq(s, "isnull") || text_eq(s, "join") || text_eq(s, "lateral")
        || text_eq(s, "leading") || text_eq(s, "left") || text_eq(s, "like") || text_eq(s, "limit")
        || text_eq(s, "localtime") || text_eq(s, "localtimestamp") || text_eq(s, "natural")
        || text_eq(s, "not") || text_eq(s, "notnull") || text_eq(s, "null") || text_eq(s, "offset")
        || text_eq(s, "on") || text_eq(s, "only") || text_eq(s, "or") || text_eq(s, "order")
        || text_eq(s, "outer") || text_eq(s, "overlaps") || text_eq(s, "placing") || text_eq(
        s,
        "primary",
    ) || text_eq(s, "references") || text_eq(s, "returning") || text_eq(s, "right") || text_eq(
        s,
        "select",
    ) || text_eq(s, "session_user") || text_eq(s, "similar") || text_eq(s, "some") || text_eq(
        s,
        "symmetric",
    ) || text_eq(s, "system_user") || text_eq(s, "table") || text_eq(s, "tablesample") || text_eq(
        s,
        "then",
    ) || text_eq(s, "to") || text_eq(s, "trailing") || text_eq(s, "true") || text_eq(s, "union")
        || text_eq(s, "unique") || text_eq(s, "user") || text_eq(s, "using") || text_eq(
        s,
        "variadic",
    ) || text_eq(s, "verbose") || text_eq(s, "when") || text_eq(s, "where") || text_eq(
        s,
        "window",
    ) || text_eq(s, "with")
}

/// How a name is written in SQL: bare where that reads back as the same name,
/// otherwise in double quotes with inner double quotes doubled.
pub open spec fn name_sql(s: Seq<char>) -> Seq<char> {
    if is_unquoted(s) && folded(s) =~= s && !is_reserved(s) {
        s
    } else {
        "\""@ + doubled(s, '"') + "\""@
    }
}

/// An SQL identifier.
#[derive(Debug, Clone, PartialEq, Eq, PartialOrd, Ord, Hash)]
pub struct Identifier {
    text: String,
}

impl View for Identifier {
    type V = Seq<char>;

    closed spec fn view(&self) -> Seq<char> {
        self.text@
    }
}

impl Duplicate for Identifier {
    fn duplicate(&self) -> (copy: Identifier) {
        Identifier { text: self.text.clone() }
    }
}

/// Decides [`continues_identifier`].
fn continues(c: char) -> (r: bool)
    ensures
        r == continues_identifier(c),
{
    starts(c) || ('0' <= c && c <= '9') || c == '$'
}

/// Decides [`starts_identifier`].
fn starts(c: char) -> (r: bool)
    ensures
        r == starts_identifier(c),
{
    ('a' <= c && c <= 'z') || ('A' <= c && c <= 'Z') || c == '_'
}

/// What reading an unquoted identifier gives.
pub open spec fn read_unquoted(s: Seq<char>) -> Result<Seq<char>, IdentifierError> {
    if s.len() == 0 {
        Err(IdentifierError::Empty)
    } else if is_unquoted(s) {
        Ok(folded(s))
    } else {
        Err(IdentifierError::InvalidCharacter)
    }
}

impl Identifier {
    /// Reads an unquoted SQL identifier: a letter or `_`, then letters,
    /// digits, `_` and `$`. Upper case letters fold to lower case.
    pub fn from_unquoted(s: &str) -> (r: Result<Identifier, IdentifierError>)
        ensures
            match r {
                Ok(id) => read_unquoted(s@) == Ok::<Seq<char>, IdentifierError>(id@),
                Err(e) => read_unquoted(s@) == Err::<Seq<char>, IdentifierError>(e),
            },
    {
        let mut out = String::new();
        let mut first = true;
        let ghost mut seen: Seq<char> = Seq::empty();
        let mut rest = s.chars();
        assert(seen + rest.remaining() =~= s@);
        assert(out@ =~= folded(seen));
        loop
            invariant
                rest.decrease() is Some,
                seen + rest.remaining() == s@,
                out@ == folded(seen),
                first == (seen.len() == 0),
                seen.len() > 0 ==> is_unquoted(seen),
            ensures
                seen == s@,
                out@ == folded(seen),
                first == (seen.len() == 0),
                seen.len() > 0 ==> is_unquoted(seen),
            decreases rest.decrease()->0,
        {
            let ghost left = rest.remaining();
            match rest.next() {
                None => {
                    assert(seen =~= s@);
                    break;
                },
                Some(c) => {
                    let ghost next = seen.push(c);
                    let ghost at = seen.len() as int;
                    assert(left =~= seq![c] + rest.remaining());
                    assert(next + rest.remaining() =~= s@);
                    assert(s@[at] == c);
                    assert(seen.len() > 0 ==> s@[0] == seen[0]);
                    if first {
                        if !starts(c) {
                            return Err(IdentifierError::InvalidCharacter);
                        }
                    } else if !continues(c) {
                        return Err(IdentifierError::InvalidCharacter);
                    }
                    if 'A' <= c && c <= 'Z' {
                        out.push(((c as u8) + 32) as char);
                    } else {
                        out.push(c);
                    }
                    first = false;
                    assert(out@ =~= folded(next));
                    proof {
                        seen = next;
                    }
                },
            }
        }
        if first {
            return Err(IdentifierError::Empty);
        }
        Ok(Identifier { text: out })
    }

    /// A name as it stands between double quotes, with nothing folded.
    pub fn from_quoted(s: &str) -> (r: Result<Identifier, IdentifierError>)
        ensures
            match r {
                Ok(id) => s@.len() > 0 && id@ == s@,
                Err(e) => s@.len() == 0 && e == IdentifierError::Empty,
            },
    {
        let chars = crate::lines::chars_of(s);
        if chars.len() == 0 {
            Err(IdentifierError::Empty)
        } else {
            Ok(Identifier { text: s.to_owned() })
        }
    }

    /// The name `pg_event_trigger`.
    pub fn pg_event_trigger() -> (name: Identifier)
        ensures
            name@ == "pg_event_trigger"@,
    {
        Identifier { text: "pg_event_trigger".to_owned() }
    }

    /// The name `pg_extension`.
    pub fn pg_extension() -> (name: Identifier)
        ensures
            name@ == "pg_extension"@,
    {
        Identifier { text: "pg_extension".to_owned() }
    }

    /// The name as text.
    pub fn as_str(&self) -> (s: &str)
        ensures
            s@ == self@,
    {
        self.text.as_str()
    }

    /// Whether two identifiers are the same.
    pub fn same(&self, other: &Identifier) -> (r: bool)
        ensures
            r == (self@ == other@),
    {
        self.text == other.text
    }
}

/// Decides whether a name may be written bare.
fn bare(s: &str) -> (r: bool)
    ensures
        r == (is_unquoted(s@) && folded(s@) =~= s@ && !is_reserved(s@)),
{
    let ghost mut seen: Seq<char> = Seq::empty();
    let mut first = true;
    let mut rest = s.chars();
    assert(seen + rest.remaining() =~= s@);
    loop
        invariant
            rest.decrease() is Some,
            seen + rest.remaining() == s@,
            first == (seen.len() == 0),
            seen.len() > 0 ==> is_unquoted(seen),
            folded(seen) =~= seen,
        ensures
            seen == s@,
            first == (seen.len() == 0),
            seen.len() > 0 ==> is_unquoted(seen),
            folded(seen) =~= seen,
        decreases rest.decrease()->0,
    {
        let ghost left = rest.remaining();
        match rest.next() {
            None => {
                assert(seen =~= s@);
                break;
            },
            Some(c) => {
                let ghost next = seen.push(c);
                let ghost at = seen.len() as int;
                assert(left =~= seq![c] + rest.remaining());
                assert(next + rest.remaining() =~= s@);
                assert(s@[at] == c);
                assert(seen.len() > 0 ==> s@[0] == seen[0]);
                if first && !starts(c) {
                    return false;
                }
                if !continues(c) {
                    return false;
                }
                if 'A' <= c && c <= 'Z' {
                    assert(folded(s@)[at] == fold_char(c));
                    assert(fold_char(c) != c);
                    return false;
                }
                first = false;
                proof {
                    seen = next;
                }
            },
        }
    }
    !first && !reserved(s)
}

impl SqlText for Identifier {
    open spec fn sql(&self) -> Seq<char> {
        name_sql(self@)
    }
}

/// Writes a name in SQL.
pub fn render_name(s: &str) -> (text: String)
    ensures
        text@ == name_sql(s@),
{
    if bare(s) {
        s.to_owned()
    } else {
        let mut out = "\"".to_owned();
        append_doubled(&mut out, s, '"');
        out.append("\"");
        out
    }
}

impl ToSql for Identifier {
    fn render_sql(&self) -> (text: String) {
        render_name(self.as_str())
    }
}

/// The model of a qualified name.
#[verifier::ext_equal]
pub struct QnameModel {
    /// The schema.
    pub schema: Seq<char>,
    /// The name within the schema.
    pub name: Seq<char>,
}

impl QnameModel {
    /// How the name is written in SQL: `schema.name`.
    pub open spec fn sql(self) -> Seq<char> {
        name_sql(self.schema) + "."@ + name_sql(self.name)
    }

    /// `schema.name` without quotes.
    pub open spec fn display(self) -> Seq<char> {
        self.schema + "."@ + self.name
    }

    /// Its two parts.
    pub open spec fn parts(self) -> Seq<Seq<char>> {
        seq![self.schema, self.name]
    }
}

/// A schema-qualified name.
#[derive(Debug, Clone, PartialEq, Eq, PartialOrd, Ord, Hash)]
pub struct QualifiedName {
    /// The schema.
    pub schema: Identifier,
    /// The name within the schema.
    pub name: Identifier,
}

impl View for QualifiedName {
    type V = QnameModel;

    open spec fn view(&self) -> QnameModel {
        QnameModel { schema: self.schema@, name: self.name@ }
    }
}

impl Duplicate for QualifiedName {
    fn duplicate(&self) -> (copy: QualifiedName) {
        QualifiedName { schema: self.schema.duplicate(), name: self.name.duplicate() }
    }
}

impl QualifiedName {
    /// Puts a schema and a name together.
    pub fn new(schema: Identifier, name: Identifier) -> (q: QualifiedName)
        ensures
            q == (QualifiedName { schema, name }),
    {
        QualifiedName { schema, name }
    }

    /// `schema.name`, as it appears in messages.
    pub fn to_string(&self) -> (text: String)
        ensures
            text@ == self@.display(),
    {
        let mut out = self.schema.as_str().to_owned();
        out.append(".");
        out.append(self.name.as_str());
        out
    }

    /// Whether two names are the same.
    pub fn same(&self, other: &QualifiedName) -> (r: bool)
        ensures
            r == (self@ == other@),
    {
        self.schema.same(&other.schema) && self.name.same(&other.name)
    }
}

impl SqlText for QualifiedName {
    open spec fn sql(&self) -> Seq<char> {
        self@.sql()
    }
}

impl ToSql for QualifiedName {
    fn render_sql(&self) -> (text: String) {
        let mut out = self.schema.render_sql();
        out.append(".");
        let name = self.name.render_sql();
        out.append(name.as_str());
        out
    }
}

} // verus!
