//! Extended statistics.

use crate::identifier::QualifiedName;
use crate::ir::expr::NormalizedExpr;
use vstd::prelude::*;

verus! {

/// A kind of extended statistics.
#[derive(Debug, Clone, Copy, PartialEq, Eq, Structural)]
pub enum StatisticKind {
    /// `ndistinct`.
    NDistinct,
    /// `dependencies`.
    Dependencies,
    /// `mcv`.
    Mcv,
}

/// A statistics object.
#[derive(Debug, Clone, PartialEq, Eq)]
pub struct Statistic {
    /// Its name.
    pub qname: QualifiedName,
    /// The table it describes.
    pub target: QualifiedName,
    /// The kinds it collects; empty for the server's choice.
    pub kinds: Vec<StatisticKind>,
    /// The columns or expressions it covers.
    pub columns: Vec<NormalizedExpr>,
    /// `SET STATISTICS`.
    pub statistics_target: Option<i32>,
    /// Its comment.
    pub comment: Option<String>,
}

} // verus!
