//! The order in which a run declares, deploys and calls: every step comes
//! after the steps whose results it needs.

use vstd::prelude::*;

verus! {

/// One step of a provisioning run.
#[derive(Clone, Copy, Debug, PartialEq, Eq, Structural)]
pub enum Step {
    /// Declare the token class.
    DeclareToken,
    /// Declare the factory class.
    DeclareFactory,
    /// Declare the pool class.
    DeclarePool,
    /// Declare the router class.
    DeclareRouter,
    /// Deploy the first token.
    DeployToken0,
    /// Deploy the second token.
    DeployToken1,
    /// Deploy the factory, which takes the pool's class.
    DeployFactory,
    /// Deploy the router.
    DeployRouter,
    /// Deploy the pool, which takes the factory's and the tokens' addresses.
    DeployPool,
    /// Set the pool's first price.
    InitializePool,
    /// Let the router draw on the first token.
    ApproveToken0,
    /// Let the router draw on the second token.
    ApproveToken1,
    /// Add liquidity to the pool through the router.
    Mint,
    /// Trade once through the router.
    Swap,
}

impl Step {
    /// Whether this step uses what `other` brings about: a class that was
    /// declared, an address that was computed, or a state that a call left.
    pub open spec fn needs(self, other: Step) -> bool {
        match self {
            Step::DeployToken0 | Step::DeployToken1 => other == Step::DeclareToken,
            Step::DeployFactory => other == Step::DeclareFactory || other == Step::DeclarePool,
            Step::DeployRouter => other == Step::DeclareRouter,
            Step::DeployPool => other == Step::DeclarePool || other == Step::DeployFactory || other
                == Step::DeployToken0 || other == Step::DeployToken1,
            Step::InitializePool => other == Step::DeployPool,
            Step::ApproveToken0 => other == Step::DeployToken0 || other == Step::DeployRouter,
            Step::ApproveToken1 => other == Step::DeployToken1 || other == Step::DeployRouter,
            Step::Mint => other == Step::DeployPool || other == Step::InitializePool || other
                == Step::DeployRouter || other == Step::ApproveToken0 || other
                == Step::ApproveToken1,
            Step::Swap => other == Step::DeployPool || other == Step::DeployRouter || other
                == Step::Mint,
            _ => false,
        }
    }

    /// Whether this step uses what `other` brings about.
    pub fn depends_on(&self, other: &Step) -> (r: bool)
        ensures
            r == self.needs(*other),
    {
        match self {
            Step::DeployToken0 | Step::DeployToken1 => matches!(other, Step::DeclareToken),
            Step::DeployFactory => matches!(other, Step::DeclareFactory | Step::DeclarePool),
            Step::DeployRouter => matches!(other, Step::DeclareRouter),
            Step::DeployPool => matches!(
                other,
                Step::DeclarePool | Step::DeployFactory | Step::DeployToken0 | Step::DeployToken1
            ),
            Step::InitializePool => matches!(other, Step::DeployPool),
            Step::ApproveToken0 => matches!(other, Step::DeployToken0 | Step::DeployRouter),
            Step::ApproveToken1 => matches!(other, Step::DeployToken1 | Step::DeployRouter),
            Step::Mint => matches!(
                other,
                Step::DeployPool | Step::InitializePool | Step::DeployRouter | Step::ApproveToken0
                    | Step::ApproveToken1
            ),
            Step::Swap => matches!(other, Step::DeployPool | Step::DeployRouter | Step::Mint),
            _ => false,
        }
    }

    /// Whether the run goes on only once the ledger has accepted this step's
    /// transaction: the steps that follow use the state it leaves, not only
    /// an address.
    pub open spec fn leaves_state(self) -> bool {
        self == Step::InitializePool || self == Step::ApproveToken0 || self == Step::ApproveToken1
            || self == Step::Mint || self == Step::Swap
    }

    /// Whether the run waits for the ledger's acceptance of this step.
    pub fn waits_for_acceptance(&self) -> (r: bool)
        ensures
            r == self.leaves_state(),
    {
        matches!(
            self,
            Step::InitializePool | Step::ApproveToken0 | Step::ApproveToken1 | Step::Mint
                | Step::Swap
        )
    }
}

/// Whether `step` stands in the first `before` places of `plan`.
pub open spec fn comes_before(plan: Seq<Step>, step: Step, before: int) -> bool {
    exists|j: int| 0 <= j < before && j < plan.len() && #[trigger] plan[j] == step
}

/// Whether every step of `plan` comes after all that it needs.
pub open spec fn well_ordered(plan: Seq<Step>) -> bool {
    forall|i: int, other: Step|
        0 <= i < plan.len() && #[trigger] plan[i].needs(other) ==> comes_before(plan, other, i)
}

/// The steps that bring a pool up to its first price: declarations, then
/// tokens, factory, router and pool, then the pool's initialization.
pub open spec fn bootstrap_steps() -> Seq<Step> {
    seq![
        Step::DeclareToken,
        Step::DeclareFactory,
        Step::DeclarePool,
        Step::DeclareRouter,
        Step::DeployToken0,
        Step::DeployToken1,
        Step::DeployFactory,
        Step::DeployRouter,
        Step::DeployPool,
        Step::InitializePool,
    ]
}

/// The bootstrap steps, then approvals, a mint and a swap.
pub open spec fn full_steps() -> Seq<Step> {
    bootstrap_steps() + seq![Step::ApproveToken0, Step::ApproveToken1, Step::Mint, Step::Swap]
}

fn push_bootstrap(plan: &mut Vec<Step>)
    requires
        old(plan)@.len() == 0,
    ensures
        final(plan)@ == bootstrap_steps(),
{
    plan.push(Step::DeclareToken);
    plan.push(Step::DeclareFactory);
    plan.push(Step::DeclarePool);
    plan.push(Step::DeclareRouter);
    plan.push(Step::DeployToken0);
    plan.push(Step::DeployToken1);
    plan.push(Step::DeployFactory);
    plan.push(Step::DeployRouter);
    plan.push(Step::DeployPool);
    plan.push(Step::InitializePool);
    assert(plan@ =~= bootstrap_steps());
}

/// The plan that brings a pool up to its first price.
pub fn bootstrap_plan() -> (r: Vec<Step>)
    ensures
        r@ == bootstrap_steps(),
        well_ordered(r@),
{
    let mut plan: Vec<Step> = Vec::new();
    push_bootstrap(&mut plan);
    proof {
        lemma_plans_well_ordered();
    }
    plan
}

/// The plan that brings a pool up, funds it and trades once.
pub fn full_plan() -> (r: Vec<Step>)
    ensures
        r@ == full_steps(),
        well_ordered(r@),
{
    proof {
        lemma_plans_well_ordered();
    }
    every_step()
}

/// Whether `step` stands in the first `before` places of `plan`.
pub fn occurs_before(plan: &Vec<Step>, step: &Step, before: usize) -> (r: bool)
    ensures
        r == comes_before(plan@, *step, before as int),
{
    let mut j: usize = 0;
    while j < before && j < plan.len()
        invariant
            forall|k: int| 0 <= k < j && k < plan@.len() ==> plan@[k] != *step,
        decreases plan@.len() - j,
    {
        if plan[j] == *step {
            return true;
        }
        j += 1;
    }
    false
}

/// Whether every step of `plan` comes after all that it needs.
pub fn is_well_ordered(plan: &Vec<Step>) -> (r: bool)
    ensures
        r == well_ordered(plan@),
{
    let all = every_step();
    let mut i: usize = 0;
    while i < plan.len()
        invariant
            all@ == full_steps(),
            forall|a: int, other: Step|
                0 <= a < i && a < plan@.len() && #[trigger] plan@[a].needs(other) ==> comes_before(
                    plan@,
                    other,
                    a,
                ),
        decreases plan@.len() - i,
    {
        let mut k: usize = 0;
        while k < all.len()
            invariant
                i < plan@.len(),
                all@ == full_steps(),
                forall|b: int|
                    0 <= b < k && b < all@.len() && plan@[i as int].needs(#[trigger] all@[b])
                        ==> comes_before(plan@, all@[b], i as int),
            decreases all@.len() - k,
        {
            if plan[i].depends_on(&all[k]) && !occurs_before(plan, &all[k], i) {
                return false;
            }
            k += 1;
        }
        proof {
            assert forall|other: Step| plan@[i as int].needs(other) implies comes_before(
                plan@,
                other,
                i as int,
            ) by {
                lemma_every_step_listed(other);
                let b = choose|b: int| 0 <= b < full_steps().len() && full_steps()[b] == other;
                assert(all@[b] == other);
            }
        }
        i += 1;
    }
    true
}

/// Every step there is, in the order of the full plan.
fn every_step() -> (r: Vec<Step>)
    ensures
        r@ == full_steps(),
{
    let mut plan: Vec<Step> = Vec::new();
    push_bootstrap(&mut plan);
    plan.push(Step::ApproveToken0);
    plan.push(Step::ApproveToken1);
    plan.push(Step::Mint);
    plan.push(Step::Swap);
    assert(plan@ =~= full_steps());
    plan
}

/// The full plan holds every step there is.
pub proof fn lemma_every_step_listed(step: Step)
    ensures
        exists|b: int| 0 <= b < full_steps().len() && full_steps()[b] == step,
{
    let at: int = match step {
        Step::DeclareToken => 0,
        Step::DeclareFactory => 1,
        Step::DeclarePool => 2,
        Step::DeclareRouter => 3,
        Step::DeployToken0 => 4,
        Step::DeployToken1 => 5,
        Step::DeployFactory => 6,
        Step::DeployRouter => 7,
        Step::DeployPool => 8,
        Step::InitializePool => 9,
        Step::ApproveToken0 => 10,
        Step::ApproveToken1 => 11,
        Step::Mint => 12,
        Step::Swap => 13,
    };
    assert(full_steps()[at] == step);
}

/// Both plans put every step after all that it needs.
pub proof fn lemma_plans_well_ordered()
    ensures
        well_ordered(bootstrap_steps()),
        well_ordered(full_steps()),
{
    let full = full_steps();
    let boot = bootstrap_steps();
    assert forall|i: int, other: Step| 0 <= i < full.len() && #[trigger] full[i].needs(
        other,
    ) implies comes_before(full, other, i) by {
        lemma_every_step_listed(other);
        let b = choose|b: int| 0 <= b < full.len() && full[b] == other;
        assert(full[b] == other);
        assert(b < i);
    }
    assert forall|i: int, other: Step| 0 <= i < boot.len() && #[trigger] boot[i].needs(
        other,
    ) implies comes_before(boot, other, i) by {
        assert(boot[i] == full[i]);
        assert(comes_before(full, other, i));
        let j = choose|j: int| 0 <= j < i && j < full.len() && full[j] == other;
        assert(boot[j] == other);
    }
}

} // verus!
