use pgevolve_plan::plan::policy::{OnlineRewrites, PlannerPolicy, Strategy};

#[test]
fn default_is_online_with_every_rewrite_enabled() {
    let p = PlannerPolicy::default();
    assert!(p.is_online());
    assert!(p.create_index_concurrent());
    assert!(p.fk_not_valid_then_validate());
    assert!(p.check_not_valid_then_validate());
    assert!(p.not_null_via_check_pattern());
    assert!(p.refresh_mv_concurrently());
    assert!(p.view_drop_create_dependents());
    assert_eq!(p.planner_ruleset_version, 1);
}

#[test]
fn atomic_strategy_disables_every_rewrite_regardless_of_switches() {
    let p = PlannerPolicy {
        strategy: Strategy::Atomic,
        online: OnlineRewrites::all_enabled(),
        planner_ruleset_version: 1,
    };
    assert!(!p.is_online());
    assert!(!p.create_index_concurrent());
    assert!(!p.fk_not_valid_then_validate());
    assert!(!p.check_not_valid_then_validate());
    assert!(!p.not_null_via_check_pattern());
    assert!(!p.refresh_mv_concurrently());
    // view_drop_create_dependents is consulted regardless of strategy.
    assert!(p.view_drop_create_dependents());
}

#[test]
fn online_strategy_respects_individual_switches() {
    let p = PlannerPolicy {
        strategy: Strategy::Online,
        online: OnlineRewrites {
            create_index_concurrent: false,
            fk_not_valid_then_validate: true,
            check_not_valid_then_validate: false,
            not_null_via_check_pattern: true,
            refresh_mv_concurrently: false,
            view_drop_create_dependents: true,
        },
        planner_ruleset_version: 1,
    };
    assert!(!p.create_index_concurrent());
    assert!(p.fk_not_valid_then_validate());
    assert!(!p.check_not_valid_then_validate());
    assert!(p.not_null_via_check_pattern());
    assert!(!p.refresh_mv_concurrently());
    assert!(p.view_drop_create_dependents());
}

#[test]
fn online_with_all_disabled_disables_every_rewrite() {
    let p = PlannerPolicy {
        strategy: Strategy::Online,
        online: OnlineRewrites::all_disabled(),
        planner_ruleset_version: 1,
    };
    assert!(p.is_online());
    assert!(!p.create_index_concurrent());
    assert!(!p.fk_not_valid_then_validate());
    assert!(!p.check_not_valid_then_validate());
    assert!(!p.not_null_via_check_pattern());
    assert!(!p.refresh_mv_concurrently());
    assert!(!p.view_drop_create_dependents());
}
