//! One module of emitters for each kind of object.

pub mod access;
pub mod aggregate;
pub mod cast;
pub mod collation;
pub mod constraint;
pub mod deferred_fk;
pub mod event_trigger;
pub mod extension;
pub mod function;
pub mod index;
pub mod mv;
pub mod partition;
pub mod procedure;
pub mod publication;
pub mod schema;
pub mod sequence;
pub mod statistic;
pub mod storage;
pub mod subscription;
pub mod table;
pub mod trigger;
pub mod ts_configuration;
pub mod ts_dictionary;
pub mod user_type;
pub mod view;
