# pgevolve_plan

Planning for PostgreSQL schema changes, verified with Verus.

Given the changes between a live catalog and a desired one, the library orders
them by their dependencies, turns them into SQL steps, groups the steps by
transaction, and writes the result as a plan that can be read back.

- `src/ir`, `src/diff`: catalogs and changes between them.
- `src/plan/graph.rs`, `walks.rs`: a directed graph with a deterministic
  topological sort, and the ways through it.
- `src/plan/edges.rs`, `object_edges.rs`: the dependency graph of a catalog.
- `src/plan/ordering.rs`: changes in an order that respects the dependencies;
  foreign keys that form a cycle are deferred.
- `src/plan/body_cycles.rs`: cycles that the bodies of views and routines close,
  which nothing can break.
- `src/plan/recreate_views.rs`, `function_dependents.rs`, `type_dependents.rs`:
  what a change forces to be recreated, and what a cascade destroys.
- `src/plan/rewrite`: changes as steps, with the online rewrites.
- `src/plan/cluster_rewrite`: changes to roles as steps.
- `src/plan/grouping.rs`, `plan.rs`: transaction groups and the numbered plan.
- `src/plan/serialize.rs`, `deserialize.rs`: `plan.sql` written and read.
- `app`: the plan's directory on disk, with TOML and JSON.

Every function states what it returns. The laws, such as that a plan reads back
as it was written, are the public proof functions named `law_...`.
