//! Deployment units: their constructor arguments, the address each will
//! have, and the fee cap it is submitted under.

use vstd::prelude::*;
use crate::codec::SignedValue;
use crate::felt::{limbs_value, Felt};
use crate::gateway::ProviderFailure;
use crate::invoke::{carries, flag, tick_magnitude, values};

verus! {

/// The address that a deployment through the universal deployer gets.
/// `deployer` and `udc` count only where `unique` is set; callers pass 0
/// for both where it is not.
pub uninterp spec fn udc_address_of(
    salt: nat,
    class_hash: nat,
    unique: bool,
    deployer: nat,
    udc: nat,
    calldata: Seq<nat>,
) -> nat;

/// Calls `starknet::core::utils::get_udc_deployed_address`, whose result
/// depends on its arguments alone. Its uniqueness settings are made of
/// `deployer` and `udc` where `unique` is set, and are "not unique" where
/// it is not. Every `Felt` is below the modulus, so each one has a field
/// element to stand for it.
#[verifier::external_body]
fn udc_deployed_address(
    salt: &Felt,
    class_hash: &Felt,
    unique: bool,
    deployer: &Felt,
    udc: &Felt,
    calldata: &Vec<Felt>,
) -> (r: Felt)
    ensures
        r@ == udc_address_of(salt@, class_hash@, unique, deployer@, udc@, values(calldata@)),
{
    let fe = |f: &Felt| starknet::core::types::FieldElement::from_byte_slice_be(
        &[f.high.to_be_bytes(), f.low.to_be_bytes()].concat()).unwrap();
    let how = if unique {
        starknet::core::utils::UdcUniqueness::Unique(starknet::core::utils::UdcUniqueSettings {
            deployer_address: fe(deployer), udc_contract_address: fe(udc) })
    } else { starknet::core::utils::UdcUniqueness::NotUnique };
    let b = starknet::core::utils::get_udc_deployed_address(
        fe(salt), fe(class_hash), &how, &calldata.iter().map(fe).collect::<Vec<_>>()).to_bytes_be();
    Felt {
        high: u128::from_be_bytes(b[..16].try_into().unwrap()),
        low: u128::from_be_bytes(b[16..].try_into().unwrap()),
    }
}

/// Who deploys: the signing account, and the universal deployer contract
/// that it goes through.
#[derive(Clone, Copy, Debug, PartialEq, Eq, Structural)]
pub struct Deployer {
    /// The address of the signing account.
    pub account: Felt,
    /// The address of the universal deployer contract.
    pub udc: Felt,
}

/// The universal deployer contract that the ledger's networks share.
pub fn default_udc_address() -> (r: Felt)
    ensures
        r.spec_high() == 0x041a78e741e5af2fec34b695679bc689u128,
        r.spec_low() == 0x1742439f7afb8484ecd7766661ad02bfu128,
        r@ == limbs_value(
            0x041a78e741e5af2fec34b695679bc689u128,
            0x1742439f7afb8484ecd7766661ad02bfu128,
        ),
{
    Felt::from_canonical_limbs(
        0x041a78e741e5af2fec34b695679bc689u128,
        0x1742439f7afb8484ecd7766661ad02bfu128,
    )
}

/// One contract's deployment.
#[derive(Clone, Debug, PartialEq, Eq)]
pub struct PendingDeployment {
    /// The class that is instantiated.
    pub class_id: Felt,
    /// The constructor's arguments, in wire order.
    pub constructor_args: Vec<Felt>,
    /// The salt: the account's nonce when the unit was made.
    pub salt: Felt,
    /// Whether the address depends on who deploys.
    pub unique: bool,
}

impl PendingDeployment {
    /// Whether this unit instantiates `class_id` with arguments of the values
    /// `args`, under `salt`, with the uniqueness flag set.
    pub open spec fn is_unit(&self, class_id: Felt, args: Seq<nat>, salt: Felt) -> bool {
        &&& self.class_id == class_id
        &&& carries(self.constructor_args@, args)
        &&& self.salt == salt
        &&& self.unique
    }

    /// The address that the unit will have once `deployer` has deployed it.
    pub open spec fn address(&self, deployer: Deployer) -> nat {
        if self.unique {
            udc_address_of(
                self.salt@,
                self.class_id@,
                true,
                deployer.account@,
                deployer.udc@,
                values(self.constructor_args@),
            )
        } else {
            udc_address_of(self.salt@, self.class_id@, false, 0, 0, values(self.constructor_args@))
        }
    }

    /// The address that the unit will have, known before it is submitted.
    pub fn deployed_address(&self, deployer: &Deployer) -> (r: Felt)
        ensures
            r@ == self.address(*deployer),
    {
        if self.unique {
            udc_deployed_address(
                &self.salt,
                &self.class_id,
                true,
                &deployer.account,
                &deployer.udc,
                &self.constructor_args,
            )
        } else {
            let none = Felt::zero();
            udc_deployed_address(
                &self.salt,
                &self.class_id,
                false,
                &none,
                &none,
                &self.constructor_args,
            )
        }
    }
}

/// The address is decided by the class, the arguments, the salt and the
/// flag, and by the deployer where the flag is set: two units that agree on
/// these get the same address.
pub proof fn lemma_address_determined(
    a: PendingDeployment,
    b: PendingDeployment,
    da: Deployer,
    db: Deployer,
)
    requires
        a.class_id@ == b.class_id@,
        values(a.constructor_args@) == values(b.constructor_args@),
        a.salt@ == b.salt@,
        a.unique == b.unique,
        a.unique ==> da.account@ == db.account@ && da.udc@ == db.udc@,
    ensures
        a.address(da) == b.address(db),
{
}

/// The most that a submission may spend: one and a half times the estimate,
/// rounded down.
pub open spec fn fee_cap_spec(estimated_fee: u64) -> nat {
    (estimated_fee as nat * 3) / 2
}

/// The fee cap for an estimated fee.
pub fn fee_cap(estimated_fee: u64) -> (r: u128)
    ensures
        r == fee_cap_spec(estimated_fee),
        r == estimated_fee as int * 3 / 2,
{
    let wide: u128 = estimated_fee as u128;
    wide * 3 / 2
}

/// The name word of the token with the index `index` (0 or 1).
pub open spec fn token_name(index: nat) -> nat {
    (0x5459415330 + index) as nat
}

/// The symbol word of the token with the index `index` (0 or 1).
pub open spec fn token_symbol(index: nat) -> nat {
    (0x2459415330 + index) as nat
}

/// The supply that each token starts with.
pub const TOKEN_SUPPLY: u128 = 0x3782dace9d900000;

/// The constructor arguments of a token, by values.
pub open spec fn token_args(index: nat, recipient: Felt) -> Seq<nat> {
    seq![token_name(index), token_symbol(index), TOKEN_SUPPLY as nat, 0nat, recipient@]
}

/// One of the two tokens of the pool.
#[derive(Clone, Copy, Debug, PartialEq, Eq, Structural)]
pub enum Token {
    /// The token with the index 0.
    First,
    /// The token with the index 1.
    Second,
}

impl Token {
    /// The index of the token, 0 or 1.
    pub open spec fn index(&self) -> nat {
        match self {
            Token::First => 0,
            Token::Second => 1,
        }
    }
}

/// The deployment of one token, under the salt that was fetched for it.
/// The token hands its whole supply to `recipient`; the two tokens differ
/// in name and symbol.
pub fn deploy_erc20(token: Token, recipient: Felt, erc20_class_hash: Felt, salt: Felt) -> (r:
    PendingDeployment)
    ensures
        r.is_unit(erc20_class_hash, token_args(token.index(), recipient), salt),
{
    let index: u128 = match token {
        Token::First => 0,
        Token::Second => 1,
    };
    let mut args: Vec<Felt> = Vec::new();
    args.push(Felt::from_u128(0x5459415330u128 + index));
    args.push(Felt::from_u128(0x2459415330u128 + index));
    args.push(Felt::from_u128(TOKEN_SUPPLY));
    args.push(Felt::zero());
    args.push(recipient);
    PendingDeployment { class_id: erc20_class_hash, constructor_args: args, salt, unique: true }
}

/// The factory's deployment: it needs the pool's class, not a pool.
pub fn deploy_factory(owner: Felt, factory_class_hash: Felt, pool_class_hash: Felt, salt: Felt) -> (r:
    PendingDeployment)
    ensures
        r.is_unit(factory_class_hash, seq![owner@, pool_class_hash@], salt),
{
    let mut args: Vec<Felt> = Vec::new();
    args.push(owner);
    args.push(pool_class_hash);
    PendingDeployment { class_id: factory_class_hash, constructor_args: args, salt, unique: true }
}

/// The router's deployment: it needs nothing.
pub fn deploy_router(router_class_hash: Felt, salt: Felt) -> (r: PendingDeployment)
    ensures
        r.is_unit(router_class_hash, Seq::<nat>::empty(), salt),
{
    let args: Vec<Felt> = Vec::new();
    PendingDeployment { class_id: router_class_hash, constructor_args: args, salt, unique: true }
}

/// The pool's deployment: it needs the factory's and both tokens' addresses,
/// the fee and the tick spacing, which is signed.
pub fn deploy_pool(
    pool_class_hash: Felt,
    factory: Felt,
    token_0: Felt,
    token_1: Felt,
    fee: u32,
    tick_spacing: i32,
    salt: Felt,
) -> (r: PendingDeployment)
    ensures
        r.is_unit(
            pool_class_hash,
            seq![
                factory@,
                token_0@,
                token_1@,
                fee as nat,
                tick_magnitude(tick_spacing),
                flag(tick_spacing < 0),
            ],
            salt,
        ),
{
    let spacing = SignedValue::encode(tick_spacing as i128);
    let mut args: Vec<Felt> = Vec::new();
    args.push(factory);
    args.push(token_0);
    args.push(token_1);
    args.push(Felt::from_u32(fee));
    args.push(Felt::from_u128(spacing.low));
    args.push(Felt::from_bool(spacing.sign));
    PendingDeployment { class_id: pool_class_hash, constructor_args: args, salt, unique: true }
}

/// Where one deployment stands.
#[derive(Clone, Copy, Debug, PartialEq, Eq, Structural)]
pub enum DeployPhase {
    /// Nothing was asked of the ledger yet.
    Ready,
    /// The fee estimate is awaited.
    Estimating,
    /// The submission under this fee cap is awaited.
    Submitting(u128),
    /// The ledger's acceptance of this transaction is awaited.
    Confirming(Felt),
    /// The deployment went through as this transaction.
    Done(Felt),
    /// The deployment was given up.
    Aborted,
}

/// What the ledger, or the caller, reports to a deployment.
#[derive(Clone, Copy, Debug, PartialEq, Eq, Structural)]
pub enum DeployEvent {
    /// The caller starts the deployment.
    Begin,
    /// The ledger estimated this fee.
    FeeEstimated(u64),
    /// The ledger took the submission as this transaction.
    Submitted(Felt),
    /// The ledger accepted the transaction.
    Accepted,
    /// The request that was under way failed.
    Failed(ProviderFailure),
}

/// What the caller does next for a deployment.
#[derive(Clone, Copy, Debug, PartialEq, Eq, Structural)]
pub enum DeployAction {
    /// Ask the ledger for a fee estimate.
    EstimateFee,
    /// Submit the deployment with this fee cap.
    Submit(u128),
    /// Wait until the ledger has accepted this transaction.
    AwaitAcceptance(Felt),
    /// Nothing more: the deployment is this transaction.
    Finish(Felt),
    /// Stop the run with this failure.
    Abort(ProviderFailure),
    /// The event does not belong here; nothing is done.
    Refuse,
}

/// The step that a deployment takes on an event. With `wait` set, the
/// deployment is done only once the ledger has accepted the transaction.
pub open spec fn deploy_step_spec(phase: DeployPhase, event: DeployEvent, wait: bool) -> (
    DeployPhase,
    DeployAction,
) {
    match (phase, event) {
        (DeployPhase::Done(_), _) | (DeployPhase::Aborted, _) => (phase, DeployAction::Refuse),
        (DeployPhase::Ready, DeployEvent::Begin) => (
            DeployPhase::Estimating,
            DeployAction::EstimateFee,
        ),
        (DeployPhase::Estimating, DeployEvent::FeeEstimated(fee)) => (
            DeployPhase::Submitting(fee_cap_spec(fee) as u128),
            DeployAction::Submit(fee_cap_spec(fee) as u128),
        ),
        (DeployPhase::Submitting(_), DeployEvent::Submitted(tx)) => if wait {
            (DeployPhase::Confirming(tx), DeployAction::AwaitAcceptance(tx))
        } else {
            (DeployPhase::Done(tx), DeployAction::Finish(tx))
        },
        (DeployPhase::Confirming(tx), DeployEvent::Accepted) => (
            DeployPhase::Done(tx),
            DeployAction::Finish(tx),
        ),
        (DeployPhase::Estimating, DeployEvent::Failed(why))
        | (DeployPhase::Submitting(_), DeployEvent::Failed(why))
        | (DeployPhase::Confirming(_), DeployEvent::Failed(why)) => (
            DeployPhase::Aborted,
            DeployAction::Abort(why),
        ),
        _ => (DeployPhase::Aborted, DeployAction::Refuse),
    }
}

/// Takes one step of a deployment: the next phase, and what to do.
pub fn deploy_step(phase: DeployPhase, event: DeployEvent, wait: bool) -> (r: (
    DeployPhase,
    DeployAction,
))
    ensures
        r == deploy_step_spec(phase, event, wait),
{
    match phase {
        DeployPhase::Done(_) | DeployPhase::Aborted => (phase, DeployAction::Refuse),
        DeployPhase::Ready => match event {
            DeployEvent::Begin => (DeployPhase::Estimating, DeployAction::EstimateFee),
            _ => (DeployPhase::Aborted, DeployAction::Refuse),
        },
        DeployPhase::Estimating => match event {
            DeployEvent::FeeEstimated(fee) => {
                let cap = fee_cap(fee);
                (DeployPhase::Submitting(cap), DeployAction::Submit(cap))
            },
            DeployEvent::Failed(why) => (DeployPhase::Aborted, DeployAction::Abort(why)),
            _ => (DeployPhase::Aborted, DeployAction::Refuse),
        },
        DeployPhase::Submitting(_) => match event {
            DeployEvent::Submitted(tx) => if wait {
                (DeployPhase::Confirming(tx), DeployAction::AwaitAcceptance(tx))
            } else {
                (DeployPhase::Done(tx), DeployAction::Finish(tx))
            },
            DeployEvent::Failed(why) => (DeployPhase::Aborted, DeployAction::Abort(why)),
            _ => (DeployPhase::Aborted, DeployAction::Refuse),
        },
        DeployPhase::Confirming(tx) => match event {
            DeployEvent::Accepted => (DeployPhase::Done(tx), DeployAction::Finish(tx)),
            DeployEvent::Failed(why) => (DeployPhase::Aborted, DeployAction::Abort(why)),
            _ => (DeployPhase::Aborted, DeployAction::Refuse),
        },
    }
}

/// A deployment is submitted only on a fee estimate, and then under one and
/// a half times that estimate.
pub proof fn lemma_submit_under_cap(phase: DeployPhase, event: DeployEvent, wait: bool)
    ensures
        deploy_step_spec(phase, event, wait).1 matches DeployAction::Submit(cap) ==> phase
            == DeployPhase::Estimating && (event matches DeployEvent::FeeEstimated(fee) && cap
            == fee as int * 3 / 2),
{
}

/// A failure never leads to another request: the deployment is given up.
pub proof fn lemma_failure_ends(phase: DeployPhase, why: ProviderFailure, wait: bool)
    ensures
        ({
            let next = deploy_step_spec(phase, DeployEvent::Failed(why), wait);
            next.1 == DeployAction::Abort(why) || next.1 == DeployAction::Refuse
        }),
{
}

/// Where acceptance is waited for, a deployment finishes only on it.
pub proof fn lemma_finish_on_acceptance(phase: DeployPhase, event: DeployEvent)
    ensures
        deploy_step_spec(phase, event, true).1 matches DeployAction::Finish(tx) ==> phase
            == DeployPhase::Confirming(tx) && event == DeployEvent::Accepted,
{
}

} // verus!
