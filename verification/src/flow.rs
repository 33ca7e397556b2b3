//! What each step of a run has to do, given what the steps before it
//! brought about.

use vstd::prelude::*;
use crate::codec::SignedValue;
use crate::deploy::{
    deploy_erc20, deploy_factory, deploy_pool, deploy_router, token_args, PendingDeployment, Token,
};
use crate::felt::Felt;
use crate::invoke::{approve_max, flag, initialize_pool, mint, swap, tick_magnitude, Call};
use crate::plan::{comes_before, well_ordered, Step};
use crate::selector::EntryPoint;

verus! {

/// The contracts that a run declares.
#[derive(Clone, Copy, Debug, PartialEq, Eq, Structural)]
pub enum Contract {
    /// The fungible token that both sides of the pool are instances of.
    Token,
    /// The factory that owns the pools.
    Factory,
    /// The pool.
    Pool,
    /// The router that mints and swaps on a caller's behalf.
    Router,
}

impl Contract {
    /// The name under which the build writes the contract's definition.
    pub open spec fn spec_name(&self) -> Seq<char> {
        match self {
            Contract::Token => "ERC20"@,
            Contract::Factory => "YASFactory"@,
            Contract::Pool => "YASPool"@,
            Contract::Router => "YASRouter"@,
        }
    }

    /// The name under which the build writes the contract's definition.
    pub fn name(&self) -> (r: &'static str)
        ensures
            r@ == self.spec_name(),
    {
        match self {
            Contract::Token => "ERC20",
            Contract::Factory => "YASFactory",
            Contract::Pool => "YASPool",
            Contract::Router => "YASRouter",
        }
    }
}

/// What distinguishes one run from another.
#[derive(Clone, Copy, Debug, PartialEq, Eq, Structural)]
pub struct Parameters {
    /// Who owns the factory, receives the tokens' supply and trades.
    pub owner: Felt,
    /// The pool's fee, in hundredths of a basis point.
    pub pool_fee: u32,
    /// The pool's tick spacing.
    pub tick_spacing: i32,
    /// The square-root price that the pool starts with.
    pub sqrt_price: SignedValue,
    /// The lower tick of the position that is minted.
    pub tick_lower: i32,
    /// The upper tick of the position that is minted.
    pub tick_upper: i32,
    /// The liquidity that is minted.
    pub liquidity: u128,
    /// Whether the swap sells the first token for the second.
    pub zero_for_one: bool,
    /// The amount that is swapped; negative for an exact output.
    pub amount_specified: SignedValue,
    /// The square-root price at which the swap stops.
    pub sqrt_price_limit: SignedValue,
}

/// The run that the exchange is brought up with: a fee of 0.3% at a tick
/// spacing of 60, a first price of 1 to 1, liquidity over the full range of
/// ticks, and one swap of the first token for the second.
pub fn standard_parameters(owner: Felt) -> (r: Parameters)
    ensures
        r == (Parameters {
            owner,
            pool_fee: 3000,
            tick_spacing: 60,
            sqrt_price: SignedValue { low: 79228162514264337593543950336, high: 0, sign: false },
            tick_lower: (-887220) as i32,
            tick_upper: 887220,
            liquidity: 2000000000000000000,
            zero_for_one: true,
            amount_specified: SignedValue { low: 500000000000000000, high: 0, sign: true },
            sqrt_price_limit: SignedValue { low: 4295128740, high: 0, sign: false },
        }),
{
    Parameters {
        owner,
        pool_fee: 3000,
        tick_spacing: 60,
        sqrt_price: SignedValue::new(79228162514264337593543950336, 0, false),
        tick_lower: -887220,
        tick_upper: 887220,
        liquidity: 2000000000000000000,
        zero_for_one: true,
        amount_specified: SignedValue::new(500000000000000000, 0, true),
        sqrt_price_limit: SignedValue::new(4295128740, 0, false),
    }
}

/// What the steps of a run have brought about so far.
#[derive(Clone, Copy, Debug, PartialEq, Eq, Structural)]
pub struct Progress {
    /// The class identifier of the token.
    pub token_class: Option<Felt>,
    /// The class identifier of the factory.
    pub factory_class: Option<Felt>,
    /// The class identifier of the pool.
    pub pool_class: Option<Felt>,
    /// The class identifier of the router.
    pub router_class: Option<Felt>,
    /// The address of the first token.
    pub token_0: Option<Felt>,
    /// The address of the second token.
    pub token_1: Option<Felt>,
    /// The address of the factory.
    pub factory: Option<Felt>,
    /// The address of the router.
    pub router: Option<Felt>,
    /// The address of the pool.
    pub pool: Option<Felt>,
}

/// What the caller does for a step.
#[derive(Clone, Debug, PartialEq, Eq)]
pub enum Work {
    /// Declare the class of this contract; the result is its class identifier.
    Declare(Contract),
    /// Deploy this unit; the result is its address.
    Deploy(PendingDeployment),
    /// Send this call.
    Invoke(Call),
}

/// Why a step has nothing to do yet.
#[derive(Clone, Copy, Debug, PartialEq, Eq, Structural)]
pub enum FlowError {
    /// A step that this one needs has not been recorded.
    NotReady(Step),
}

impl Progress {
    /// Whether the result of `step` is held. A call leaves no value, so it
    /// always counts as held.
    pub open spec fn knows(&self, step: Step) -> bool {
        match step {
            Step::DeclareToken => self.token_class is Some,
            Step::DeclareFactory => self.factory_class is Some,
            Step::DeclarePool => self.pool_class is Some,
            Step::DeclareRouter => self.router_class is Some,
            Step::DeployToken0 => self.token_0 is Some,
            Step::DeployToken1 => self.token_1 is Some,
            Step::DeployFactory => self.factory is Some,
            Step::DeployRouter => self.router is Some,
            Step::DeployPool => self.pool is Some,
            _ => true,
        }
    }

    /// Whether all that `step` needs is held.
    pub open spec fn ready(&self, step: Step) -> bool {
        forall|other: Step| #[trigger] step.needs(other) ==> self.knows(other)
    }

    /// Whether the work is what `step` asks for with these results held.
    pub open spec fn asks(&self, step: Step, parameters: Parameters, salt: Felt, work: Work) -> bool {
        let p = parameters;
        match step {
            Step::DeclareToken => work == Work::Declare(Contract::Token),
            Step::DeclareFactory => work == Work::Declare(Contract::Factory),
            Step::DeclarePool => work == Work::Declare(Contract::Pool),
            Step::DeclareRouter => work == Work::Declare(Contract::Router),
            Step::DeployToken0 => work matches Work::Deploy(unit) && unit.is_unit(
                self.token_class->0,
                token_args(0, p.owner),
                salt,
            ),
            Step::DeployToken1 => work matches Work::Deploy(unit) && unit.is_unit(
                self.token_class->0,
                token_args(1, p.owner),
                salt,
            ),
            Step::DeployFactory => work matches Work::Deploy(unit) && unit.is_unit(
                self.factory_class->0,
                seq![p.owner@, self.pool_class->0@],
                salt,
            ),
            Step::DeployRouter => work matches Work::Deploy(unit) && unit.is_unit(
                self.router_class->0,
                Seq::<nat>::empty(),
                salt,
            ),
            Step::DeployPool => work matches Work::Deploy(unit) && unit.is_unit(
                self.pool_class->0,
                seq![
                    self.factory->0@,
                    self.token_0->0@,
                    self.token_1->0@,
                    p.pool_fee as nat,
                    tick_magnitude(p.tick_spacing),
                    flag(p.tick_spacing < 0),
                ],
                salt,
            ),
            Step::InitializePool => work matches Work::Invoke(call) && call.is_call(
                self.pool->0,
                EntryPoint::Initialize,
                seq![p.sqrt_price.low as nat, p.sqrt_price.high as nat, flag(p.sqrt_price.wire_sign())],
            ),
            Step::ApproveToken0 => work matches Work::Invoke(call) && call.is_call(
                self.token_0->0,
                EntryPoint::Approve,
                seq![self.router->0@, u128::MAX as nat, u128::MAX as nat],
            ),
            Step::ApproveToken1 => work matches Work::Invoke(call) && call.is_call(
                self.token_1->0,
                EntryPoint::Approve,
                seq![self.router->0@, u128::MAX as nat, u128::MAX as nat],
            ),
            Step::Mint => work matches Work::Invoke(call) && call.is_call(
                self.router->0,
                EntryPoint::Mint,
                seq![
                    self.pool->0@,
                    p.owner@,
                    tick_magnitude(p.tick_lower),
                    flag(p.tick_lower < 0),
                    tick_magnitude(p.tick_upper),
                    flag(p.tick_upper < 0),
                    p.liquidity as nat,
                ],
            ),
            Step::Swap => work matches Work::Invoke(call) && call.is_call(
                self.router->0,
                EntryPoint::Swap,
                seq![
                    self.pool->0@,
                    p.owner@,
                    flag(p.zero_for_one),
                    p.amount_specified.low as nat,
                    p.amount_specified.high as nat,
                    flag(p.amount_specified.wire_sign()),
                    p.sqrt_price_limit.low as nat,
                    p.sqrt_price_limit.high as nat,
                    flag(p.sqrt_price_limit.wire_sign()),
                ],
            ),
        }
    }

    /// Nothing held: the start of a run.
    pub fn new() -> (r: Progress)
        ensures
            r == (Progress {
                token_class: None,
                factory_class: None,
                pool_class: None,
                router_class: None,
                token_0: None,
                token_1: None,
                factory: None,
                router: None,
                pool: None,
            }),
    {
        Progress {
            token_class: None,
            factory_class: None,
            pool_class: None,
            router_class: None,
            token_0: None,
            token_1: None,
            factory: None,
            router: None,
            pool: None,
        }
    }

    /// Whether `step` deploys under a salt that the caller has to fetch
    /// immediately before it: the account's nonce at that moment. Every
    /// deployment does.
    pub fn takes_salt(step: Step) -> (r: bool)
        ensures
            r == (step == Step::DeployToken0 || step == Step::DeployToken1 || step
                == Step::DeployFactory || step == Step::DeployRouter || step == Step::DeployPool),
    {
        matches!(
            step,
            Step::DeployToken0 | Step::DeployToken1 | Step::DeployFactory | Step::DeployRouter
                | Step::DeployPool
        )
    }

    /// What `step` has to do. It has work exactly where all that it needs is
    /// held; `salt` counts only for the steps that take one.
    pub fn work_for(&self, step: Step, parameters: &Parameters, salt: Felt) -> (r: Result<
        Work,
        FlowError,
    >)
        ensures
            r is Ok <==> self.ready(step),
            r matches Ok(work) ==> self.asks(step, *parameters, salt, work),
            r matches Err(why) ==> why == FlowError::NotReady(step),
    {
        let p = parameters;
        proof {
            if self.ready(step) {
                self.lemma_ready_holds_needed(step);
            }
        }
        let work = match step {
            Step::DeclareToken => Some(Work::Declare(Contract::Token)),
            Step::DeclareFactory => Some(Work::Declare(Contract::Factory)),
            Step::DeclarePool => Some(Work::Declare(Contract::Pool)),
            Step::DeclareRouter => Some(Work::Declare(Contract::Router)),
            Step::DeployToken0 => match self.token_class {
                Some(class) => Some(Work::Deploy(deploy_erc20(Token::First, p.owner, class, salt))),
                None => None,
            },
            Step::DeployToken1 => match self.token_class {
                Some(class) => Some(
                    Work::Deploy(deploy_erc20(Token::Second, p.owner, class, salt)),
                ),
                None => None,
            },
            Step::DeployFactory => match (self.factory_class, self.pool_class) {
                (Some(class), Some(pool_class)) => Some(
                    Work::Deploy(deploy_factory(p.owner, class, pool_class, salt)),
                ),
                _ => None,
            },
            Step::DeployRouter => match self.router_class {
                Some(class) => Some(Work::Deploy(deploy_router(class, salt))),
                None => None,
            },
            Step::DeployPool => match (self.pool_class, self.factory, self.token_0, self.token_1) {
                (Some(class), Some(factory), Some(token_0), Some(token_1)) => Some(
                    Work::Deploy(
                        deploy_pool(
                            class,
                            factory,
                            token_0,
                            token_1,
                            p.pool_fee,
                            p.tick_spacing,
                            salt,
                        ),
                    ),
                ),
                _ => None,
            },
            Step::InitializePool => match self.pool {
                Some(pool) => Some(Work::Invoke(initialize_pool(pool, p.sqrt_price))),
                None => None,
            },
            Step::ApproveToken0 => match (self.token_0, self.router) {
                (Some(token), Some(router)) => Some(Work::Invoke(approve_max(token, router))),
                _ => None,
            },
            Step::ApproveToken1 => match (self.token_1, self.router) {
                (Some(token), Some(router)) => Some(Work::Invoke(approve_max(token, router))),
                _ => None,
            },
            Step::Mint => match (self.pool, self.router) {
                (Some(pool), Some(router)) => Some(
                    Work::Invoke(
                        mint(pool, router, p.owner, p.tick_lower, p.tick_upper, p.liquidity),
                    ),
                ),
                _ => None,
            },
            Step::Swap => match (self.pool, self.router) {
                (Some(pool), Some(router)) => Some(
                    Work::Invoke(
                        swap(
                            router,
                            pool,
                            p.owner,
                            p.zero_for_one,
                            p.amount_specified,
                            p.sqrt_price_limit,
                        ),
                    ),
                ),
                _ => None,
            },
        };
        match work {
            Some(work) => Ok(work),
            None => Err(FlowError::NotReady(step)),
        }
    }

    /// A step that is ready has each result that it needs.
    proof fn lemma_ready_holds_needed(self, step: Step)
        requires
            self.ready(step),
        ensures
            step.needs(Step::DeclareToken) ==> self.knows(Step::DeclareToken),
            step.needs(Step::DeclareFactory) ==> self.knows(Step::DeclareFactory),
            step.needs(Step::DeclarePool) ==> self.knows(Step::DeclarePool),
            step.needs(Step::DeclareRouter) ==> self.knows(Step::DeclareRouter),
            step.needs(Step::DeployToken0) ==> self.knows(Step::DeployToken0),
            step.needs(Step::DeployToken1) ==> self.knows(Step::DeployToken1),
            step.needs(Step::DeployFactory) ==> self.knows(Step::DeployFactory),
            step.needs(Step::DeployRouter) ==> self.knows(Step::DeployRouter),
            step.needs(Step::DeployPool) ==> self.knows(Step::DeployPool),
    {
    }

    /// Holds the result of a step: the class identifier of a declaration or
    /// the address of a deployment. A call leaves nothing to hold.
    pub fn record(self, step: Step, result: Felt) -> (r: Progress)
        ensures
            r.knows(step),
            forall|other: Step| self.knows(other) ==> r.knows(other),
            r == self.recorded(step, result),
    {
        let mut next = self;
        match step {
            Step::DeclareToken => next.token_class = Some(result),
            Step::DeclareFactory => next.factory_class = Some(result),
            Step::DeclarePool => next.pool_class = Some(result),
            Step::DeclareRouter => next.router_class = Some(result),
            Step::DeployToken0 => next.token_0 = Some(result),
            Step::DeployToken1 => next.token_1 = Some(result),
            Step::DeployFactory => next.factory = Some(result),
            Step::DeployRouter => next.router = Some(result),
            Step::DeployPool => next.pool = Some(result),
            _ => {},
        }
        next
    }

    /// This progress with the result of a step held.
    pub open spec fn recorded(self, step: Step, result: Felt) -> Progress {
        match step {
            Step::DeclareToken => Progress { token_class: Some(result), ..self },
            Step::DeclareFactory => Progress { factory_class: Some(result), ..self },
            Step::DeclarePool => Progress { pool_class: Some(result), ..self },
            Step::DeclareRouter => Progress { router_class: Some(result), ..self },
            Step::DeployToken0 => Progress { token_0: Some(result), ..self },
            Step::DeployToken1 => Progress { token_1: Some(result), ..self },
            Step::DeployFactory => Progress { factory: Some(result), ..self },
            Step::DeployRouter => Progress { router: Some(result), ..self },
            Step::DeployPool => Progress { pool: Some(result), ..self },
            _ => self,
        }
    }
}

/// In a plan that puts every step after all that it needs, a step is ready
/// once the results of the steps before it are held.
pub proof fn lemma_ordered_step_ready(plan: Seq<Step>, at: int, progress: Progress)
    requires
        well_ordered(plan),
        0 <= at < plan.len(),
        forall|j: int| 0 <= j < at ==> progress.knows(#[trigger] plan[j]),
    ensures
        progress.ready(plan[at]),
{
    assert forall|other: Step| #[trigger] plan[at].needs(other) implies progress.knows(other) by {
        assert(comes_before(plan, other, at));
        let j = choose|j: int| 0 <= j < at && j < plan.len() && plan[j] == other;
        assert(progress.knows(plan[j]));
    }
}

} // verus!
