//! The calls that bring a deployed pool into use, each with its arguments in
//! wire order.

use vstd::prelude::*;
use crate::codec::{CodecError, SignedValue, UnsignedValue};
use crate::felt::{pow2_256, shift128, Felt};
use crate::selector::{selector_of, EntryPoint};

verus! {

/// One call of an entry point of a deployed contract.
#[derive(Clone, Debug, PartialEq, Eq)]
pub struct Call {
    /// The contract that is called.
    pub to: Felt,
    /// The selector of the entry point.
    pub selector: Felt,
    /// The arguments, in wire order.
    pub calldata: Vec<Felt>,
}

/// The values of a sequence of wire words.
pub open spec fn values(words: Seq<Felt>) -> Seq<nat> {
    words.map_values(|f: Felt| f@)
}

/// Whether the wire words `words` have the values `args`, one for one.
pub open spec fn carries(words: Seq<Felt>, args: Seq<nat>) -> bool {
    &&& words.len() == args.len()
    &&& forall|i: int| 0 <= i < words.len() ==> (#[trigger] words[i])@ == args[i]
}

/// The wire word of a flag.
pub open spec fn flag(b: bool) -> nat {
    if b {
        1
    } else {
        0
    }
}

/// The magnitude of a tick.
pub open spec fn tick_magnitude(tick: i32) -> nat {
    if tick < 0 {
        (-(tick as int)) as nat
    } else {
        tick as nat
    }
}

impl Call {
    /// Whether this is a call of `entry` on `to` with arguments of the values `args`.
    pub open spec fn is_call(&self, to: Felt, entry: EntryPoint, args: Seq<nat>) -> bool {
        &&& self.to == to
        &&& self.selector@ == selector_of(entry.spec_name())
        &&& carries(self.calldata@, args)
    }
}

/// The call that sets a pool's first square-root price. A price of zero
/// goes out without a sign.
pub fn initialize_pool(pool_address: Felt, sqrt_price: SignedValue) -> (r: Call)
    ensures
        r.is_call(
            pool_address,
            EntryPoint::Initialize,
            seq![sqrt_price.low as nat, sqrt_price.high as nat, flag(sqrt_price.wire_sign())],
        ),
{
    let price = sqrt_price.normalize();
    let mut calldata: Vec<Felt> = Vec::new();
    calldata.push(Felt::from_u128(price.low));
    calldata.push(Felt::from_u128(price.high));
    calldata.push(Felt::from_bool(price.sign));
    Call { to: pool_address, selector: EntryPoint::Initialize.selector(), calldata }
}

/// The call that adds `amount` of liquidity to a pool between two ticks,
/// through the router. Each tick carries its own sign.
pub fn mint(
    pool_address: Felt,
    router_address: Felt,
    recipient: Felt,
    tick_lower: i32,
    tick_upper: i32,
    amount: u128,
) -> (r: Call)
    ensures
        r.is_call(
            router_address,
            EntryPoint::Mint,
            seq![
                pool_address@,
                recipient@,
                tick_magnitude(tick_lower),
                flag(tick_lower < 0),
                tick_magnitude(tick_upper),
                flag(tick_upper < 0),
                amount as nat,
            ],
        ),
{
    let lower = SignedValue::encode(tick_lower as i128);
    let upper = SignedValue::encode(tick_upper as i128);
    let mut calldata: Vec<Felt> = Vec::new();
    calldata.push(pool_address);
    calldata.push(recipient);
    calldata.push(Felt::from_u128(lower.low));
    calldata.push(Felt::from_bool(lower.sign));
    calldata.push(Felt::from_u128(upper.low));
    calldata.push(Felt::from_bool(upper.sign));
    calldata.push(Felt::from_u128(amount));
    Call { to: router_address, selector: EntryPoint::Mint.selector(), calldata }
}

/// The call that trades through the router. Each signed quantity goes out
/// with its own sign: a negative `amount_specified` keeps it, and zero goes
/// out without one.
pub fn swap(
    router_address: Felt,
    pool_address: Felt,
    recipient: Felt,
    zero_for_one: bool,
    amount_specified: SignedValue,
    sqrt_price_limit: SignedValue,
) -> (r: Call)
    ensures
        r.is_call(
            router_address,
            EntryPoint::Swap,
            seq![
                pool_address@,
                recipient@,
                flag(zero_for_one),
                amount_specified.low as nat,
                amount_specified.high as nat,
                flag(amount_specified.wire_sign()),
                sqrt_price_limit.low as nat,
                sqrt_price_limit.high as nat,
                flag(sqrt_price_limit.wire_sign()),
            ],
        ),
{
    let amount_specified = amount_specified.normalize();
    let sqrt_price_limit = sqrt_price_limit.normalize();
    let mut calldata: Vec<Felt> = Vec::new();
    calldata.push(pool_address);
    calldata.push(recipient);
    calldata.push(Felt::from_bool(zero_for_one));
    calldata.push(Felt::from_u128(amount_specified.low));
    calldata.push(Felt::from_u128(amount_specified.high));
    calldata.push(Felt::from_bool(amount_specified.sign));
    calldata.push(Felt::from_u128(sqrt_price_limit.low));
    calldata.push(Felt::from_u128(sqrt_price_limit.high));
    calldata.push(Felt::from_bool(sqrt_price_limit.sign));
    Call { to: router_address, selector: EntryPoint::Swap.selector(), calldata }
}

/// The call that lets `spender` draw on a token without limit: the
/// allowance has both limbs saturated.
pub fn approve_max(token_address: Felt, spender: Felt) -> (r: Call)
    ensures
        r.is_call(
            token_address,
            EntryPoint::Approve,
            seq![spender@, u128::MAX as nat, u128::MAX as nat],
        ),
{
    let mut calldata: Vec<Felt> = Vec::new();
    calldata.push(spender);
    calldata.push(Felt::from_u128(u128::MAX));
    calldata.push(Felt::from_u128(u128::MAX));
    Call { to: token_address, selector: EntryPoint::Approve.selector(), calldata }
}

/// The read-only call that asks a token for `holder`'s balance.
pub fn balance_of(token_address: Felt, holder: Felt) -> (r: Call)
    ensures
        r.is_call(token_address, EntryPoint::BalanceOf, seq![holder@]),
{
    let mut calldata: Vec<Felt> = Vec::new();
    calldata.push(holder);
    Call { to: token_address, selector: EntryPoint::BalanceOf.selector(), calldata }
}

/// The balance that a balance query's answer stands for: zero where the
/// token answered with nothing, the word of a one-word answer, and else the
/// first two words as the low and the high limb.
pub open spec fn balance_spec(response: Seq<Felt>) -> nat {
    if response.len() == 0 {
        0
    } else if response.len() == 1 {
        response[0]@
    } else {
        (response[0]@ + shift128(response[1]@ as int)) as nat
    }
}

/// The balance in a balance query's answer, as a wide unsigned integer. An
/// empty answer is a balance of zero, not an error; an answer that stands
/// for `2^256` or more is refused.
pub fn balance_from_response(response: &Vec<Felt>) -> (r: Result<UnsignedValue, CodecError>)
    ensures
        r is Ok <==> balance_spec(response@) < pow2_256(),
        r matches Ok(balance) ==> balance@ == balance_spec(response@),
        r matches Err(why) ==> why == CodecError::TooWide,
{
    if response.len() == 0 {
        return Ok(UnsignedValue { low: 0, high: 0 });
    }
    let low = response[0].low();
    let carried = response[0].high();
    if response.len() == 1 {
        return Ok(UnsignedValue { low, high: carried });
    }
    if response[1].high() != 0 {
        return Err(CodecError::TooWide);
    }
    match carried.checked_add(response[1].low()) {
        Some(high) => Ok(UnsignedValue { low, high }),
        None => Err(CodecError::TooWide),
    }
}

} // verus!
