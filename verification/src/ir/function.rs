//! Functions and procedures.

use crate::digest::{blake3_digest, blake3_hash};
use crate::identifier::{Identifier, QualifiedName};
use crate::ir::column_type::{type_sql, ColumnType};
use crate::ir::expr::{NormalizedBody, NormalizedExpr};
use crate::ir::grant::Grant;
use crate::model::{dup_list, models, Duplicate};
use crate::plan::edges::DepEdge;
use crate::text::{join_sql, joined, sqls};
use vstd::prelude::*;
use vstd::string::*;
use vstd::utf8::encode_utf8;

verus! {

/// How an argument is passed.
#[derive(Debug, Clone, Copy, PartialEq, Eq, Structural)]
pub enum ArgMode {
    /// `IN`.
    In,
    /// `OUT`.
    Out,
    /// `INOUT`.
    InOut,
    /// `VARIADIC`.
    Variadic,
}

/// An argument of a routine.
#[derive(Debug, Clone, PartialEq, Eq)]
pub struct FunctionArg {
    /// Its name.
    pub name: Option<Identifier>,
    /// How it is passed.
    pub mode: ArgMode,
    /// Its type.
    pub ty: ColumnType,
    /// Its default.
    pub default: Option<NormalizedExpr>,
}

/// The input argument types of a routine, which tell overloads apart.
#[derive(Debug, Clone, PartialEq, Eq, PartialOrd, Ord, Hash)]
pub struct NormalizedArgTypes {
    /// The types, in order.
    pub types: Vec<ColumnType>,
    /// Digest of the types as written, joined by commas.
    pub canonical_hash: [u8; 32],
}

impl View for NormalizedArgTypes {
    type V = Seq<Seq<char>>;

    open spec fn view(&self) -> Seq<Seq<char>> {
        models(self.types@)
    }
}

impl Duplicate for NormalizedArgTypes {
    fn duplicate(&self) -> (copy: NormalizedArgTypes) {
        NormalizedArgTypes { types: dup_list(&self.types), canonical_hash: self.canonical_hash }
    }
}

/// The types, as written, of the arguments that a caller passes in.
pub open spec fn input_types(args: Seq<FunctionArg>) -> Seq<Seq<char>>
    decreases args.len(),
{
    if args.len() == 0 {
        Seq::empty()
    } else if args.last().mode is Out {
        input_types(args.drop_last())
    } else {
        input_types(args.drop_last()).push(type_sql(args.last().ty))
    }
}

impl NormalizedArgTypes {
    /// Collects the types of the input arguments; `OUT` arguments do not
    /// count.
    pub fn from_args(args: &[FunctionArg]) -> (types: NormalizedArgTypes)
        ensures
            types@ == input_types(args@),
            types.canonical_hash@ == blake3_digest(encode_utf8(joined(types@, ","@))),
    {
        let mut types: Vec<ColumnType> = Vec::new();
        let mut i: usize = 0;
        assert(models(types@) =~= input_types(args@.take(0)));
        while i < args.len()
            invariant
                i <= args@.len(),
                models(types@) == input_types(args@.take(i as int)),
            decreases args@.len() - i,
        {
            let ghost before = types@;
            assert(args@.take(i + 1).drop_last() =~= args@.take(i as int));
            match args[i].mode {
                ArgMode::Out => {},
                _ => {
                    let ty = args[i].ty.duplicate();
                    types.push(ty);
                    assert(models(types@) =~= models(before).push(ty@));
                },
            }
            i = i + 1;
        }
        assert(args@.take(args@.len() as int) =~= args@);
        NormalizedArgTypes::from_types(&types)
    }

    /// The given types.
    pub fn from_types(types: &Vec<ColumnType>) -> (r: NormalizedArgTypes)
        ensures
            r@ == models(types@),
            r.canonical_hash@ == blake3_digest(encode_utf8(joined(r@, ","@))),
    {
        let types = dup_list(types);
        assert(sqls(types@) =~= models(types@));
        let canonical = join_sql(&types, ",");
        let canonical_hash = blake3_hash(canonical.as_str().as_bytes());
        NormalizedArgTypes { types, canonical_hash }
    }

    /// Whether two lists name the same types.
    pub fn same(&self, other: &NormalizedArgTypes) -> (r: bool)
        ensures
            r == (self@ == other@),
    {
        same_types(&self.types, &other.types)
    }
}

/// Whether two lists name the same types.
pub fn same_types(a: &Vec<ColumnType>, b: &Vec<ColumnType>) -> (r: bool)
    ensures
        r == (models(a@) == models(b@)),
{
    if a.len() != b.len() {
        assert(models(a@).len() != models(b@).len());
        return false;
    }
    let mut i: usize = 0;
    while i < a.len()
        invariant
            i <= a@.len(),
            a@.len() == b@.len(),
            forall|k: int| 0 <= k < i ==> (#[trigger] a@[k])@ == b@[k]@,
        decreases a@.len() - i,
    {
        let x = crate::text::ToSql::render_sql(&a[i]);
        let y = crate::text::ToSql::render_sql(&b[i]);
        if !(x == y) {
            assert(models(a@)[i as int] != models(b@)[i as int]);
            return false;
        }
        i = i + 1;
    }
    assert(models(a@) =~= models(b@));
    true
}

/// A column of a `RETURNS TABLE` result.
#[derive(Debug, Clone, PartialEq, Eq)]
pub struct TableColumn {
    /// Its name.
    pub name: Identifier,
    /// Its type.
    pub ty: ColumnType,
}

/// What a function returns.
#[derive(Debug, Clone, PartialEq, Eq)]
pub enum ReturnType {
    /// One value.
    Scalar {
        /// Its type.
        ty: ColumnType,
    },
    /// A set of values.
    SetOf {
        /// Their type.
        ty: ColumnType,
    },
    /// Rows.
    Table {
        /// Their columns.
        columns: Vec<TableColumn>,
    },
    /// A trigger function.
    Trigger,
    /// An event trigger function.
    EventTrigger,
    /// Nothing.
    Void,
}

/// Implementation language.
#[derive(Debug, Clone, Copy, PartialEq, Eq, Structural)]
pub enum FunctionLanguage {
    /// `sql`.
    Sql,
    /// `plpgsql`.
    PlPgSql,
}

/// Volatility.
#[derive(Debug, Clone, Copy, PartialEq, Eq, Structural)]
pub enum Volatility {
    /// `IMMUTABLE`.
    Immutable,
    /// `STABLE`.
    Stable,
    /// `VOLATILE`.
    Volatile,
}

/// Whose privileges a routine runs with.
#[derive(Debug, Clone, Copy, PartialEq, Eq, Structural)]
pub enum SecurityMode {
    /// The caller's.
    Invoker,
    /// The owner's.
    Definer,
}

/// Parallel safety.
#[derive(Debug, Clone, Copy, PartialEq, Eq, Structural)]
pub enum ParallelSafety {
    /// `PARALLEL SAFE`.
    Safe,
    /// `PARALLEL RESTRICTED`.
    Restricted,
    /// `PARALLEL UNSAFE`.
    Unsafe,
}

/// A cost or row estimate, as it is written in SQL.
#[derive(Debug, Clone, PartialEq, Eq)]
pub struct Estimate {
    /// The number, for example `100` or `0.5`.
    pub text: String,
}

/// A function.
#[derive(Debug, Clone, PartialEq, Eq)]
pub struct Function {
    /// Its name.
    pub qname: QualifiedName,
    /// Its arguments.
    pub args: Vec<FunctionArg>,
    /// Its input argument types.
    pub arg_types_normalized: NormalizedArgTypes,
    /// What it returns.
    pub return_type: ReturnType,
    /// Implementation language.
    pub language: FunctionLanguage,
    /// Its body.
    pub body: NormalizedBody,
    /// What its body refers to.
    pub body_dependencies: Vec<DepEdge>,
    /// Volatility.
    pub volatility: Volatility,
    /// `STRICT`.
    pub strict: bool,
    /// Whose privileges it runs with.
    pub security: SecurityMode,
    /// Parallel safety.
    pub parallel: ParallelSafety,
    /// `LEAKPROOF`.
    pub leakproof: bool,
    /// `COST`.
    pub cost: Option<Estimate>,
    /// `ROWS`.
    pub rows: Option<Estimate>,
    /// Its comment.
    pub comment: Option<String>,
    /// Its owner.
    pub owner: Option<Identifier>,
    /// Its grants.
    pub grants: Vec<Grant>,
}

/// A procedure.
#[derive(Debug, Clone, PartialEq, Eq)]
pub struct Procedure {
    /// Its name.
    pub qname: QualifiedName,
    /// Its arguments.
    pub args: Vec<FunctionArg>,
    /// Implementation language.
    pub language: FunctionLanguage,
    /// Its body.
    pub body: NormalizedBody,
    /// What its body refers to.
    pub body_dependencies: Vec<DepEdge>,
    /// Whose privileges it runs with.
    pub security: SecurityMode,
    /// Its body commits or rolls back.
    pub commits_in_body: bool,
    /// Its comment.
    pub comment: Option<String>,
    /// Its owner.
    pub owner: Option<Identifier>,
    /// Its grants.
    pub grants: Vec<Grant>,
}

} // verus!
