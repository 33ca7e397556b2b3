//! Entry points of the deployed contracts, and their wire selectors.

use vstd::prelude::*;
use vstd::utf8::is_ascii_chars;
use crate::felt::Felt;

verus! {

/// The selector that the ledger derives from an entry point's name.
pub uninterp spec fn selector_of(name: Seq<char>) -> nat;

/// Calls `starknet::core::utils::get_selector_from_name`, which answers
/// for every name made of ASCII characters alone, with a value that depends
/// on the name only. It refuses every other name: those are left out.
#[verifier::external_body]
fn selector_from_name(name: &str) -> (r: Felt)
    requires
        is_ascii_chars(name@),
    ensures
        r@ == selector_of(name@),
{
    let b = starknet::core::utils::get_selector_from_name(name).unwrap().to_bytes_be();
    Felt {
        high: u128::from_be_bytes(b[..16].try_into().unwrap()),
        low: u128::from_be_bytes(b[16..].try_into().unwrap()),
    }
}

/// The entry points that provisioning calls.
#[derive(Clone, Copy, Debug, PartialEq, Eq, Structural)]
pub enum EntryPoint {
    /// Sets a pool's first price.
    Initialize,
    /// Adds liquidity to a pool through the router.
    Mint,
    /// Trades one token for the other through the router.
    Swap,
    /// Sets a token allowance.
    Approve,
    /// Reads a token balance.
    BalanceOf,
}

impl EntryPoint {
    /// The name that the contracts give the entry point.
    pub open spec fn spec_name(&self) -> Seq<char> {
        match self {
            EntryPoint::Initialize => "initialize"@,
            EntryPoint::Mint => "mint"@,
            EntryPoint::Swap => "swap"@,
            EntryPoint::Approve => "approve"@,
            EntryPoint::BalanceOf => "balanceOf"@,
        }
    }

    /// The name that the contracts give the entry point.
    pub fn name(&self) -> (r: &'static str)
        ensures
            r@ == self.spec_name(),
            is_ascii_chars(r@),
    {
        proof {
            reveal_strlit("initialize");
            reveal_strlit("mint");
            reveal_strlit("swap");
            reveal_strlit("approve");
            reveal_strlit("balanceOf");
        }
        match self {
            EntryPoint::Initialize => "initialize",
            EntryPoint::Mint => "mint",
            EntryPoint::Swap => "swap",
            EntryPoint::Approve => "approve",
            EntryPoint::BalanceOf => "balanceOf",
        }
    }

    /// The wire selector of the entry point.
    pub fn selector(&self) -> (r: Felt)
        ensures
            r@ == selector_of(self.spec_name()),
    {
        selector_from_name(self.name())
    }
}

/// The selector of any name, where the ledger defines one: for the names
/// made of ASCII characters alone.
pub fn selector_for(name: &str) -> (r: Option<Felt>)
    ensures
        r.is_some() <==> is_ascii_chars(name@),
        r matches Some(f) ==> f@ == selector_of(name@),
{
    if name.is_ascii() {
        Some(selector_from_name(name))
    } else {
        None
    }
}

} // verus!
