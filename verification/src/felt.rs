//! The ledger's unsigned wire scalar: an element of the Stark prime field,
//! held as two 128-bit halves.

use vstd::prelude::*;

verus! {

/// High half of the field modulus `2^251 + 17 * 2^192 + 1`; its low half is 1.
pub const MODULUS_HIGH: u128 = 0x0800_0000_0000_0011_0000_0000_0000_0000;

/// `x * 2^128`.
pub open spec fn shift128(x: int) -> int {
    x * 0x1_0000_0000_0000_0000 * 0x1_0000_0000_0000_0000
}

/// `2^128`, the weight of the high half.
pub open spec fn pow2_128() -> int {
    shift128(1)
}

/// `2^256`, the first magnitude that two halves cannot hold.
pub open spec fn pow2_256() -> int {
    shift128(shift128(1))
}

/// The field modulus.
pub open spec fn modulus() -> int {
    shift128(MODULUS_HIGH as int) + 1
}

/// The number that two 128-bit halves stand for.
pub open spec fn limbs_value(high: u128, low: u128) -> nat {
    (shift128(high as int) + low as int) as nat
}

/// A field element in canonical form: its value is below the modulus.
#[derive(Clone, Copy, Debug, PartialEq, Eq, Structural)]
pub struct Felt {
    pub(crate) high: u128,
    pub(crate) low: u128,
}

impl View for Felt {
    type V = nat;

    closed spec fn view(&self) -> nat {
        limbs_value(self.high, self.low)
    }
}

impl Felt {
    /// Whether the halves stand for a value below the modulus. Every element
    /// that exists at run time does.
    #[verifier::type_invariant]
    pub closed spec fn canonical(&self) -> bool {
        limbs_value(self.high, self.low) < modulus()
    }

    /// The high half of the value.
    pub closed spec fn spec_high(&self) -> u128 {
        self.high
    }

    /// The low half of the value.
    pub closed spec fn spec_low(&self) -> u128 {
        self.low
    }

    /// Two elements with the same value are the same element.
    pub proof fn lemma_value_determines(a: Felt, b: Felt)
        requires
            a@ == b@,
        ensures
            a == b,
    {
    }

    /// The element 0.
    pub fn zero() -> (r: Felt)
        ensures
            r@ == 0,
    {
        Felt { high: 0, low: 0 }
    }

    /// The element 1.
    pub fn one() -> (r: Felt)
        ensures
            r@ == 1,
    {
        Felt { high: 0, low: 1 }
    }

    /// The element with the value of `v`.
    pub fn from_u128(v: u128) -> (r: Felt)
        ensures
            r@ == v,
    {
        Felt { high: 0, low: v }
    }

    /// The element with the value of `v`.
    pub fn from_u64(v: u64) -> (r: Felt)
        ensures
            r@ == v,
    {
        Felt { high: 0, low: v as u128 }
    }

    /// The element with the value of `v`.
    pub fn from_u32(v: u32) -> (r: Felt)
        ensures
            r@ == v,
    {
        Felt { high: 0, low: v as u128 }
    }

    /// 1 for `true`, 0 for `false`.
    pub fn from_bool(b: bool) -> (r: Felt)
        ensures
            r@ == if b { 1nat } else { 0nat },
    {
        if b {
            Felt { high: 0, low: 1 }
        } else {
            Felt { high: 0, low: 0 }
        }
    }

    /// The element `high * 2^128 + low`, where that is below the modulus.
    pub fn from_limbs(high: u128, low: u128) -> (r: Option<Felt>)
        ensures
            r.is_some() <==> limbs_value(high, low) < modulus(),
            r matches Some(f) ==> f@ == limbs_value(high, low) && f.spec_high() == high
                && f.spec_low() == low,
    {
        if high < MODULUS_HIGH || (high == MODULUS_HIGH && low == 0) {
            Some(Felt { high, low })
        } else {
            None
        }
    }

    /// The element `high * 2^128 + low`, which is below the modulus.
    pub fn from_canonical_limbs(high: u128, low: u128) -> (r: Felt)
        requires
            limbs_value(high, low) < modulus(),
        ensures
            r@ == limbs_value(high, low),
            r.spec_high() == high,
            r.spec_low() == low,
    {
        Felt { high, low }
    }

    /// The high half of the value.
    pub fn high(&self) -> (r: u128)
        ensures
            r == self.spec_high(),
            self@ == limbs_value(r, self.spec_low()),
            self@ < modulus(),
    {
        proof {
            use_type_invariant(self);
        }
        self.high
    }

    /// The low half of the value.
    pub fn low(&self) -> (r: u128)
        ensures
            r == self.spec_low(),
            self@ == limbs_value(self.spec_high(), r),
            self@ < modulus(),
    {
        proof {
            use_type_invariant(self);
        }
        self.low
    }

    /// The value as a `u128`, where it fits.
    pub fn to_u128(&self) -> (r: Option<u128>)
        ensures
            r.is_some() <==> self@ <= u128::MAX,
            r matches Some(v) ==> v == self@,
    {
        if self.high == 0 {
            Some(self.low)
        } else {
            None
        }
    }

    /// Whether the value is 0.
    pub fn is_zero(&self) -> (r: bool)
        ensures
            r <==> self@ == 0,
    {
        self.high == 0 && self.low == 0
    }
}

} // verus!
