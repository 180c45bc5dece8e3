//! Storage options of tables, indexes and materialized views.

use vstd::prelude::*;

verus! {

/// Storage options of a table; an option that is absent is not managed.
#[derive(Debug, Clone, Copy, PartialEq, Eq)]
pub struct TableStorageOptions {
    /// `fillfactor`.
    pub fillfactor: Option<u32>,
    /// `parallel_workers`.
    pub parallel_workers: Option<u32>,
    /// `toast_tuple_target`.
    pub toast_tuple_target: Option<u32>,
    /// `autovacuum_enabled`.
    pub autovacuum_enabled: Option<bool>,
}

impl Default for TableStorageOptions {
    fn default() -> (options: Self)
        ensures
            options == (TableStorageOptions {
                fillfactor: None,
                parallel_workers: None,
                toast_tuple_target: None,
                autovacuum_enabled: None,
            }),
    {
        TableStorageOptions {
            fillfactor: None,
            parallel_workers: None,
            toast_tuple_target: None,
            autovacuum_enabled: None,
        }
    }
}

/// Storage options of an index.
#[derive(Debug, Clone, Copy, PartialEq, Eq)]
pub struct IndexStorageOptions {
    /// `fillfactor`.
    pub fillfactor: Option<u32>,
    /// `fastupdate` (GIN).
    pub fastupdate: Option<bool>,
    /// `deduplicate_items` (B-tree).
    pub deduplicate_items: Option<bool>,
}

impl Default for IndexStorageOptions {
    fn default() -> (options: Self)
        ensures
            options == (IndexStorageOptions {
                fillfactor: None,
                fastupdate: None,
                deduplicate_items: None,
            }),
    {
        IndexStorageOptions { fillfactor: None, fastupdate: None, deduplicate_items: None }
    }
}

/// Storage options of a materialized view.
#[derive(Debug, Clone, Copy, PartialEq, Eq)]
pub struct MaterializedViewStorageOptions {
    /// `fillfactor`.
    pub fillfactor: Option<u32>,
    /// `autovacuum_enabled`.
    pub autovacuum_enabled: Option<bool>,
}

impl Default for MaterializedViewStorageOptions {
    fn default() -> (options: Self)
        ensures
            options == (MaterializedViewStorageOptions {
                fillfactor: None,
                autovacuum_enabled: None,
            }),
    {
        MaterializedViewStorageOptions { fillfactor: None, autovacuum_enabled: None }
    }
}

} // verus!
