//! Differences between two catalogs.

pub mod change;
pub mod cluster;
pub mod destructiveness;
pub mod owner_op;
pub mod sequence_op;
pub mod table_op;
