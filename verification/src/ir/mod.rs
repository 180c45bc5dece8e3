//! Database objects.

pub mod catalog;
pub mod collation;
pub mod column_type;
pub mod constraint;
pub mod default_privileges;
pub mod expr;
pub mod extension;
pub mod function;
pub mod grant;
pub mod index;
pub mod partition;
pub mod policy;
pub mod reloptions;
pub mod replication;
pub mod role;
pub mod routine_objects;
pub mod schema;
pub mod sequence;
pub mod statistic;
pub mod table;
pub mod text_search;
pub mod trigger;
pub mod user_type;
pub mod view;
