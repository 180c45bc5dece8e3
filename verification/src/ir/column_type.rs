//! SQL column types.

use crate::identifier::QualifiedName;
use crate::model::Duplicate;
use crate::text::{append_u64, decimal_nat, SqlText, ToSql};
use vstd::prelude::*;
use vstd::string::*;

verus! {

/// The type of a column, an attribute or an argument.
///
/// Two types are the same when they are written the same.
#[derive(Debug, Clone, PartialEq, Eq, PartialOrd, Ord, Hash)]
pub enum ColumnType {
    /// `boolean`.
    Boolean,
    /// `smallint`.
    SmallInt,
    /// `integer`.
    Integer,
    /// `bigint`.
    BigInt,
    /// `real`.
    Real,
    /// `double precision`.
    DoublePrecision,
    /// `numeric` or `numeric(precision, scale)`.
    Numeric {
        /// Precision and scale, where they are given.
        precision: Option<(u32, u32)>,
    },
    /// `text`.
    Text,
    /// `character varying` with an optional length limit.
    Varchar {
        /// The length limit.
        length: Option<u32>,
    },
    /// `bytea`.
    Bytea,
    /// `uuid`.
    Uuid,
    /// `date`.
    Date,
    /// `timestamp without time zone`.
    Timestamp,
    /// `timestamp with time zone`.
    TimestampTz,
    /// `json`.
    Json,
    /// `jsonb`.
    Jsonb,
    /// A user-defined type.
    UserDefined(QualifiedName),
}

/// How a type is written in SQL.
pub open spec fn type_sql(t: ColumnType) -> Seq<char> {
    match t {
        ColumnType::Boolean => "boolean"@,
        ColumnType::SmallInt => "smallint"@,
        ColumnType::Integer => "integer"@,
        ColumnType::BigInt => "bigint"@,
        ColumnType::Real => "real"@,
        ColumnType::DoublePrecision => "double precision"@,
        ColumnType::Numeric { precision: None } => "numeric"@,
        ColumnType::Numeric { precision: Some((p, s)) } => "numeric("@ + decimal_nat(p as nat)
            + ","@ + decimal_nat(s as nat) + ")"@,
        ColumnType::Text => "text"@,
        ColumnType::Varchar { length: None } => "character varying"@,
        ColumnType::Varchar { length: Some(n) } => "character varying("@ + decimal_nat(n as nat)
            + ")"@,
        ColumnType::Bytea => "bytea"@,
        ColumnType::Uuid => "uuid"@,
        ColumnType::Date => "date"@,
        ColumnType::Timestamp => "timestamp without time zone"@,
        ColumnType::TimestampTz => "timestamp with time zone"@,
        ColumnType::Json => "json"@,
        ColumnType::Jsonb => "jsonb"@,
        ColumnType::UserDefined(q) => q@.sql(),
    }
}

/// Renders a type.
fn render_type(t: &ColumnType) -> (text: String)
    ensures
        text@ == type_sql(*t),
{
    match t {
        ColumnType::Boolean => "boolean".to_owned(),
        ColumnType::SmallInt => "smallint".to_owned(),
        ColumnType::Integer => "integer".to_owned(),
        ColumnType::BigInt => "bigint".to_owned(),
        ColumnType::Real => "real".to_owned(),
        ColumnType::DoublePrecision => "double precision".to_owned(),
        ColumnType::Numeric { precision } => match precision {
            None => "numeric".to_owned(),
            Some((p, s)) => {
                let mut out = "numeric(".to_owned();
                append_u64(&mut out, *p as u64);
                out.append(",");
                append_u64(&mut out, *s as u64);
                out.append(")");
                out
            },
        },
        ColumnType::Text => "text".to_owned(),
        ColumnType::Varchar { length } => match length {
            None => "character varying".to_owned(),
            Some(n) => {
                let mut out = "character varying(".to_owned();
                append_u64(&mut out, *n as u64);
                out.append(")");
                out
            },
        },
        ColumnType::Bytea => "bytea".to_owned(),
        ColumnType::Uuid => "uuid".to_owned(),
        ColumnType::Date => "date".to_owned(),
        ColumnType::Timestamp => "timestamp without time zone".to_owned(),
        ColumnType::TimestampTz => "timestamp with time zone".to_owned(),
        ColumnType::Json => "json".to_owned(),
        ColumnType::Jsonb => "jsonb".to_owned(),
        ColumnType::UserDefined(q) => q.render_sql(),
    }
}

/// Copies a type.
fn copy_type(t: &ColumnType) -> (copy: ColumnType)
    ensures
        type_sql(copy) == type_sql(*t),
{
    match t {
        ColumnType::Boolean => ColumnType::Boolean,
        ColumnType::SmallInt => ColumnType::SmallInt,
        ColumnType::Integer => ColumnType::Integer,
        ColumnType::BigInt => ColumnType::BigInt,
        ColumnType::Real => ColumnType::Real,
        ColumnType::DoublePrecision => ColumnType::DoublePrecision,
        ColumnType::Numeric { precision } => ColumnType::Numeric { precision: *precision },
        ColumnType::Text => ColumnType::Text,
        ColumnType::Varchar { length } => ColumnType::Varchar { length: *length },
        ColumnType::Bytea => ColumnType::Bytea,
        ColumnType::Uuid => ColumnType::Uuid,
        ColumnType::Date => ColumnType::Date,
        ColumnType::Timestamp => ColumnType::Timestamp,
        ColumnType::TimestampTz => ColumnType::TimestampTz,
        ColumnType::Json => ColumnType::Json,
        ColumnType::Jsonb => ColumnType::Jsonb,
        ColumnType::UserDefined(q) => ColumnType::UserDefined(q.duplicate()),
    }
}

impl SqlText for ColumnType {
    open spec fn sql(&self) -> Seq<char> {
        type_sql(*self)
    }
}

impl ToSql for ColumnType {
    fn render_sql(&self) -> (text: String) {
        render_type(self)
    }
}

impl View for ColumnType {
    type V = Seq<char>;

    open spec fn view(&self) -> Seq<char> {
        type_sql(*self)
    }
}

impl Duplicate for ColumnType {
    fn duplicate(&self) -> (copy: ColumnType) {
        copy_type(self)
    }
}

} // verus!
