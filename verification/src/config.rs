//! The settings of a run that name field elements: the signing key and the
//! addresses of the account and of the owner.

use vstd::prelude::*;
use crate::felt::Felt;

verus! {

/// The value that a hexadecimal text stands for, where it is one of a field
/// element.
pub uninterp spec fn hex_value(text: Seq<char>) -> Option<nat>;

/// Calls `starknet::core::types::FieldElement::from_hex_be`. Whether it
/// takes a text, and the element it reads in it, depend on the text alone.
#[verifier::external_body]
fn felt_from_hex(text: &str) -> (r: Option<Felt>)
    ensures
        r is Some <==> hex_value(text@) is Some,
        r matches Some(f) ==> hex_value(text@) == Some(f@),
{
    match starknet::core::types::FieldElement::from_hex_be(text) {
        Ok(fe) => {
            let b = fe.to_bytes_be();
            Some(Felt {
                high: u128::from_be_bytes(b[..16].try_into().unwrap()),
                low: u128::from_be_bytes(b[16..].try_into().unwrap()),
            })
        },
        Err(_) => None,
    }
}

/// Why a setting gave no field element.
#[derive(Clone, Copy, Debug, PartialEq, Eq, Structural)]
pub enum ConfigError {
    /// The setting is not there.
    Missing,
    /// The setting is no hexadecimal text of a field element.
    Invalid,
}

/// What a setting says, by the value of the element.
pub open spec fn setting_spec(value: Option<Seq<char>>) -> Result<nat, ConfigError> {
    match value {
        None => Err(ConfigError::Missing),
        Some(text) => match hex_value(text) {
            Some(v) => Ok(v),
            None => Err(ConfigError::Invalid),
        },
    }
}

/// The field element of a setting that a run cannot do without.
pub fn required_felt(value: Option<&str>) -> (r: Result<Felt, ConfigError>)
    ensures
        match r {
            Ok(f) => setting_spec(
                match value {
                    Some(text) => Some(text@),
                    None => None,
                },
            ) == Ok::<nat, ConfigError>(f@),
            Err(why) => setting_spec(
                match value {
                    Some(text) => Some(text@),
                    None => None,
                },
            ) == Err::<nat, ConfigError>(why),
        },
{
    match value {
        None => Err(ConfigError::Missing),
        Some(text) => match felt_from_hex(text) {
            Some(f) => Ok(f),
            None => Err(ConfigError::Invalid),
        },
    }
}

} // verus!
