//! The planner: dependency graph, ordering, SQL rendering and plan files.

pub mod body_cycles;
pub mod buckets;
pub mod cluster_rewrite;
pub mod dependency_laws;
pub mod deserialize;
pub mod directives;
pub mod dollar_quotes;
pub mod edges;
pub mod elision_laws;
pub mod error;
pub mod file_laws;
pub mod function_dependents;
pub mod graph;
pub mod grouping;
pub mod io_error;
pub mod kind_case;
pub mod kind_names;
pub mod label_laws;
pub mod object_edges;
pub mod ordered;
pub mod ordering;
pub mod ordering_laws;
pub mod phase_laws;
pub mod pipeline_laws;
pub mod plan;
pub mod policy;
pub mod raw_step;
pub mod reading_laws;
pub mod recreate_views;
pub mod recreation_laws;
pub mod rewrite;
pub mod round_trip;
pub mod serialize;
pub mod sorting_laws;
pub mod type_dependents;
pub mod walks;
