//! Rewrite pass for changes to cluster-wide objects.
//!
//! [`sql`] renders the statements; [`emit`] turns each change into a step.

pub mod emit;
pub mod role_laws;
pub mod sql;

pub use emit::emit_cluster_changes;
