//! Canonical expression and body text, and column defaults.

use crate::identifier::QualifiedName;
use crate::model::Duplicate;
use crate::text::{append_literal_body, doubled, SqlText, ToSql};
use vstd::prelude::*;
use vstd::string::*;

verus! {

/// An SQL expression in canonical form.
#[derive(Debug, Clone, PartialEq, Eq, PartialOrd, Ord, Hash)]
pub struct NormalizedExpr {
    /// The canonical text.
    pub canonical_text: String,
}

impl View for NormalizedExpr {
    type V = Seq<char>;

    open spec fn view(&self) -> Seq<char> {
        self.canonical_text@
    }
}

impl Duplicate for NormalizedExpr {
    fn duplicate(&self) -> (copy: NormalizedExpr) {
        NormalizedExpr { canonical_text: self.canonical_text.clone() }
    }
}

/// The body of a view or routine in canonical form.
#[derive(Debug, Clone, PartialEq, Eq, PartialOrd, Ord, Hash)]
pub struct NormalizedBody {
    text: String,
}

impl View for NormalizedBody {
    type V = Seq<char>;

    closed spec fn view(&self) -> Seq<char> {
        self.text@
    }
}

impl Duplicate for NormalizedBody {
    fn duplicate(&self) -> (copy: NormalizedBody) {
        NormalizedBody { text: self.text.clone() }
    }
}

impl NormalizedBody {
    /// A body without text.
    pub fn empty() -> (body: NormalizedBody)
        ensures
            body@ == Seq::<char>::empty(),
    {
        NormalizedBody { text: String::new() }
    }

    /// A body whose text is canonical already.
    pub fn from_raw_canonical(text: String) -> (body: NormalizedBody)
        ensures
            body@ == text@,
    {
        NormalizedBody { text }
    }

    /// The canonical text.
    pub fn canonical_text(&self) -> (text: &str)
        ensures
            text@ == self@,
    {
        self.text.as_str()
    }
}

/// The default of a column, a domain or an argument.
#[derive(Debug, Clone, PartialEq, Eq)]
pub enum DefaultExpr {
    /// The next value of a sequence.
    Sequence(QualifiedName),
    /// Any other expression.
    Expr(NormalizedExpr),
}

impl SqlText for DefaultExpr {
    open spec fn sql(&self) -> Seq<char> {
        match self {
            DefaultExpr::Sequence(q) => "nextval('"@ + doubled(q@.sql(), '\'') + "'::regclass)"@,
            DefaultExpr::Expr(e) => e@,
        }
    }
}

impl ToSql for DefaultExpr {
    fn render_sql(&self) -> (text: String) {
        match self {
            DefaultExpr::Sequence(q) => {
                let mut out = "nextval('".to_owned();
                let name = q.render_sql();
                append_literal_body(&mut out, name.as_str());
                out.append("'::regclass)");
                out
            },
            DefaultExpr::Expr(e) => e.canonical_text.clone(),
        }
    }
}

} // verus!
