use yas_deploy::plan::{bootstrap_plan, full_plan, is_well_ordered, occurs_before, Step};

#[test]
fn bootstrap_ends_with_the_pool_initialized() {
    assert_eq!(
        bootstrap_plan(),
        vec![
            Step::DeclareToken,
            Step::DeclareFactory,
            Step::DeclarePool,
            Step::DeclareRouter,
            Step::DeployToken0,
            Step::DeployToken1,
            Step::DeployFactory,
            Step::DeployRouter,
            Step::DeployPool,
            Step::InitializePool,
        ]
    );
}

#[test]
fn full_plan_goes_on_to_approve_mint_and_swap() {
    let plan = full_plan();
    assert_eq!(plan[..10], bootstrap_plan()[..]);
    assert_eq!(plan[10..], [Step::ApproveToken0, Step::ApproveToken1, Step::Mint, Step::Swap]);
}

#[test]
fn both_plans_are_well_ordered() {
    assert!(is_well_ordered(&bootstrap_plan()));
    assert!(is_well_ordered(&full_plan()));
    assert!(is_well_ordered(&vec![]));
    assert!(is_well_ordered(&vec![Step::DeclareRouter, Step::DeployRouter]));
}

#[test]
fn mint_before_initialization_is_out_of_order() {
    let mut plan = full_plan();
    plan.swap(9, 12);
    assert!(!is_well_ordered(&plan));
}

#[test]
fn a_step_without_what_it_needs_is_out_of_order() {
    assert!(!is_well_ordered(&vec![Step::DeployPool]));
    assert!(!is_well_ordered(&vec![Step::DeployRouter, Step::DeclareRouter]));
    assert!(!is_well_ordered(&vec![Step::DeclareFactory, Step::DeployFactory]));
    assert!(!is_well_ordered(&vec![Step::Swap]));
}

#[test]
fn pool_needs_factory_and_tokens_but_factory_needs_no_pool() {
    assert!(Step::DeployPool.depends_on(&Step::DeployFactory));
    assert!(Step::DeployPool.depends_on(&Step::DeployToken0));
    assert!(Step::DeployPool.depends_on(&Step::DeployToken1));
    assert!(Step::DeployFactory.depends_on(&Step::DeclarePool));
    assert!(!Step::DeployFactory.depends_on(&Step::DeployPool));
    assert!(!Step::DeployRouter.depends_on(&Step::DeployFactory));
    assert!(Step::Mint.depends_on(&Step::InitializePool));
    assert!(Step::Mint.depends_on(&Step::DeployPool));
    assert!(Step::Swap.depends_on(&Step::Mint));
    assert!(!Step::DeployToken1.depends_on(&Step::DeployToken0));
    assert!(!Step::DeployToken0.depends_on(&Step::DeployToken1));
    assert!(Step::Mint.depends_on(&Step::DeployPool));
    assert!(Step::Swap.depends_on(&Step::Mint));
    assert!(!Step::DeployToken1.depends_on(&Step::DeployToken0));
    assert!(!Step::DeployToken0.depends_on(&Step::DeployToken1));
    assert!(!Step::DeclareToken.depends_on(&Step::DeclareToken));
}

#[test]
fn calls_wait_for_acceptance_and_deployments_do_not() {
    assert!(Step::InitializePool.waits_for_acceptance());
    assert!(Step::Mint.waits_for_acceptance());
    assert!(Step::ApproveToken1.waits_for_acceptance());
    assert!(!Step::DeployPool.waits_for_acceptance());
    assert!(!Step::DeclareToken.waits_for_acceptance());
}

#[test]
fn occurs_before_looks_at_the_places_in_front() {
    let plan = full_plan();
    assert!(occurs_before(&plan, &Step::DeclareToken, 1));
    assert!(!occurs_before(&plan, &Step::DeclareToken, 0));
    assert!(!occurs_before(&plan, &Step::Swap, 13));
    assert!(occurs_before(&plan, &Step::Swap, 14));
    assert!(occurs_before(&plan, &Step::Swap, 99));
}
