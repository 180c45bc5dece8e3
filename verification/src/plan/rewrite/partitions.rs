//! SQL for table partitioning.

use crate::identifier::{name_sql, QualifiedName};
use crate::ir::expr::NormalizedExpr;
use crate::ir::partition::{
    PartitionBounds, PartitionBy, PartitionColumn, PartitionColumnKind, PartitionStrategy,
};
use crate::text::{
    append_sql, append_sql_list, append_u64, decimal_nat, joined, prefixed, sqls, SqlText, ToSql,
};
use vstd::prelude::*;
use vstd::string::*;

verus! {

impl SqlText for NormalizedExpr {
    open spec fn sql(&self) -> Seq<char> {
        self@
    }
}

impl ToSql for NormalizedExpr {
    fn render_sql(&self) -> (text: String) {
        self.canonical_text.clone()
    }
}

impl SqlText for PartitionColumn {
    open spec fn sql(&self) -> Seq<char> {
        let a = match self.kind {
            PartitionColumnKind::Column(name) => name_sql(name@),
            PartitionColumnKind::Expression(e) => "("@ + e@ + ")"@,
        };
        let b = match self.collation {
            Some(q) => a + " COLLATE "@ + q@.sql(),
            None => a,
        };
        match self.opclass {
            Some(q) => b + " "@ + q@.sql(),
            None => b,
        }
    }
}

impl ToSql for PartitionColumn {
    fn render_sql(&self) -> (text: String) {
        let mut out = match &self.kind {
            PartitionColumnKind::Column(name) => name.render_sql(),
            PartitionColumnKind::Expression(e) => {
                let mut text = "(".to_owned();
                text.append(e.canonical_text.as_str());
                text.append(")");
                text
            },
        };
        match &self.collation {
            Some(q) => {
                out.append(" COLLATE ");
                append_sql(&mut out, q);
            },
            None => {},
        }
        match &self.opclass {
            Some(q) => {
                out.append(" ");
                append_sql(&mut out, q);
            },
            None => {},
        }
        out
    }
}

/// The keyword of a partition strategy.
pub open spec fn strategy_sql(s: PartitionStrategy) -> Seq<char> {
    match s {
        PartitionStrategy::Range => "RANGE"@,
        PartitionStrategy::List => "LIST"@,
        PartitionStrategy::Hash => "HASH"@,
    }
}

/// ` PARTITION BY strategy (key)`, after a head.
pub open spec fn partition_by_sql(head: Seq<char>, by: PartitionBy) -> Seq<char> {
    head + " PARTITION BY "@ + strategy_sql(by.strategy) + " ("@ + joined(
        sqls(by.columns@),
        ", "@,
    ) + ")"@
}

/// ` PARTITION BY strategy (key)`, after a head.
pub fn append_partition_by(out: &mut String, by: &PartitionBy)
    ensures
        final(out)@ == partition_by_sql(old(out)@, *by),
{
    out.append(" PARTITION BY ");
    match by.strategy {
        PartitionStrategy::Range => out.append("RANGE"),
        PartitionStrategy::List => out.append("LIST"),
        PartitionStrategy::Hash => out.append("HASH"),
    }
    out.append(" (");
    append_sql_list(out, &by.columns, ", ");
    out.append(")");
}

/// `FOR VALUES ...`, or `DEFAULT`.
pub open spec fn bounds_sql(b: PartitionBounds) -> Seq<char> {
    match b {
        PartitionBounds::List { values } => "FOR VALUES IN ("@ + joined(sqls(values@), ", "@)
            + ")"@,
        PartitionBounds::Range { from, to } => "FOR VALUES FROM ("@ + joined(sqls(from@), ", "@)
            + ") TO ("@ + joined(sqls(to@), ", "@) + ")"@,
        PartitionBounds::Hash { modulus, remainder } => "FOR VALUES WITH (MODULUS "@ + decimal_nat(
            modulus as nat,
        ) + ", REMAINDER "@ + decimal_nat(remainder as nat) + ")"@,
        PartitionBounds::Default => "DEFAULT"@,
    }
}

/// `FOR VALUES ...`, or `DEFAULT`.
pub fn render_bounds(b: &PartitionBounds) -> (text: String)
    ensures
        text@ == bounds_sql(*b),
{
    match b {
        PartitionBounds::List { values } => {
            let mut out = "FOR VALUES IN (".to_owned();
            append_sql_list(&mut out, values, ", ");
            out.append(")");
            out
        },
        PartitionBounds::Range { from, to } => {
            let mut out = "FOR VALUES FROM (".to_owned();
            append_sql_list(&mut out, from, ", ");
            out.append(") TO (");
            append_sql_list(&mut out, to, ", ");
            out.append(")");
            out
        },
        PartitionBounds::Hash { modulus, remainder } => {
            let mut out = "FOR VALUES WITH (MODULUS ".to_owned();
            append_u64(&mut out, *modulus as u64);
            out.append(", REMAINDER ");
            append_u64(&mut out, *remainder as u64);
            out.append(")");
            out
        },
        PartitionBounds::Default => "DEFAULT".to_owned(),
    }
}

/// `ALTER TABLE parent ATTACH PARTITION child FOR VALUES ...;`
pub open spec fn attach_partition_sql(
    parent: QualifiedName,
    child: QualifiedName,
    bounds: PartitionBounds,
) -> Seq<char> {
    "ALTER TABLE "@ + parent@.sql() + " ATTACH PARTITION "@ + child@.sql() + " "@ + bounds_sql(
        bounds,
    ) + ";"@
}

/// `ALTER TABLE parent ATTACH PARTITION child FOR VALUES ...;`
pub fn attach_partition(
    parent: &QualifiedName,
    child: &QualifiedName,
    bounds: &PartitionBounds,
) -> (sql: String)
    ensures
        sql@ == attach_partition_sql(*parent, *child, *bounds),
{
    let mut out = prefixed("ALTER TABLE ", parent);
    out.append(" ATTACH PARTITION ");
    append_sql(&mut out, child);
    out.append(" ");
    let text = render_bounds(bounds);
    out.append(text.as_str());
    out.append(";");
    out
}

/// `ALTER TABLE parent DETACH PARTITION child;`
pub open spec fn detach_partition_sql(parent: QualifiedName, child: QualifiedName) -> Seq<char> {
    "ALTER TABLE "@ + parent@.sql() + " DETACH PARTITION "@ + child@.sql() + ";"@
}

/// `ALTER TABLE parent DETACH PARTITION child;`
pub fn detach_partition(parent: &QualifiedName, child: &QualifiedName) -> (sql: String)
    ensures
        sql@ == detach_partition_sql(*parent, *child),
{
    let mut out = prefixed("ALTER TABLE ", parent);
    out.append(" DETACH PARTITION ");
    append_sql(&mut out, child);
    out.append(";");
    out
}

} // verus!
