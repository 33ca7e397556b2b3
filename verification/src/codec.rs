//! Sign-magnitude encoding of signed quantities for a wire whose scalar is
//! unsigned: a magnitude in two 128-bit limbs and a separate sign flag.

use vstd::prelude::*;
use vstd::arithmetic::div_mod::{
    lemma_basic_div, lemma_fundamental_div_mod, lemma_fundamental_div_mod_converse,
    lemma_mod_bound, lemma_small_mod,
};
use crate::felt::{limbs_value, pow2_128, pow2_256, shift128, Felt};

verus! {

/// Why a value could not be decoded.
#[derive(Clone, Copy, Debug, PartialEq, Eq, Structural)]
pub enum CodecError {
    /// The value does not fit the native signed integer.
    OutOfRange,
    /// The wire words are not exactly low limb, high limb and sign.
    WrongLength,
    /// A limb word is `2^128` or more.
    LimbTooWide,
    /// The sign word is neither 0 nor 1.
    BadSign,
    /// The magnitude does not fit two limbs.
    TooWide,
}

/// A signed quantity as it crosses the wire. `sign` set means negative; a
/// zero magnitude stands for zero whatever the sign says.
#[derive(Clone, Copy, Debug, PartialEq, Eq, Structural)]
pub struct SignedValue {
    pub low: u128,
    pub high: u128,
    pub sign: bool,
}

/// An unsigned quantity of up to 256 bits, in two limbs.
#[derive(Clone, Copy, Debug, PartialEq, Eq, Structural)]
pub struct UnsignedValue {
    pub low: u128,
    pub high: u128,
}

impl View for UnsignedValue {
    type V = nat;

    open spec fn view(&self) -> nat {
        limbs_value(self.high, self.low)
    }
}

/// The triple that stands for `v`, for `|v| < 2^256`.
pub open spec fn encode_spec(v: int) -> SignedValue {
    let m = if v < 0 { -v } else { v };
    SignedValue { low: (m % pow2_128()) as u128, high: (m / pow2_128()) as u128, sign: v < 0 }
}

/// Whether `v` can be encoded: its magnitude fits two limbs.
pub open spec fn encodable(v: int) -> bool {
    -pow2_256() < v < pow2_256()
}

/// What decoding `s` to a native integer gives.
pub open spec fn decode_spec(s: SignedValue) -> Result<i128, CodecError> {
    if i128::MIN <= s@ <= i128::MAX {
        Ok(s@ as i128)
    } else {
        Err(CodecError::OutOfRange)
    }
}

/// The number that 128-bit limbs stand for, the lowest limb first.
pub open spec fn limbs_magnitude(limbs: Seq<u128>) -> nat
    decreases limbs.len(),
{
    if limbs.len() == 0 {
        0
    } else {
        (limbs[0] as int + shift128(limbs_magnitude(limbs.drop_first()) as int)) as nat
    }
}

/// What three wire words say: a low limb, a high limb and a sign.
pub open spec fn from_wire_spec(words: Seq<Felt>) -> Result<SignedValue, CodecError> {
    if words.len() != 3 {
        Err(CodecError::WrongLength)
    } else if words[0]@ > u128::MAX || words[1]@ > u128::MAX {
        Err(CodecError::LimbTooWide)
    } else if words[2]@ > 1 {
        Err(CodecError::BadSign)
    } else {
        Ok(SignedValue { low: words[0]@ as u128, high: words[1]@ as u128, sign: words[2]@ == 1 })
    }
}

impl View for SignedValue {
    type V = int;

    open spec fn view(&self) -> int {
        if self.sign {
            -(self.magnitude() as int)
        } else {
            self.magnitude() as int
        }
    }
}

impl SignedValue {
    /// `low + high * 2^128`.
    pub open spec fn magnitude(&self) -> nat {
        limbs_value(self.high, self.low)
    }

    /// Whether zero carries no sign.
    pub open spec fn normal(&self) -> bool {
        self.magnitude() == 0 ==> !self.sign
    }

    /// The sign that crosses the wire: set for a negative value, and never
    /// for zero.
    pub open spec fn wire_sign(&self) -> bool {
        self.sign && (self.low != 0 || self.high != 0)
    }

    /// The triple of the same value in which zero carries no sign.
    pub open spec fn normalized(&self) -> SignedValue {
        SignedValue { low: self.low, high: self.high, sign: self.wire_sign() }
    }

    /// The triple of the same value in which zero carries no sign.
    pub fn normalize(&self) -> (r: SignedValue)
        ensures
            r == self.normalized(),
            r@ == self@,
            r.normal(),
    {
        SignedValue {
            low: self.low,
            high: self.high,
            sign: self.sign && (self.low != 0 || self.high != 0),
        }
    }

    /// The triple for a magnitude and a sign held apart. A zero magnitude
    /// never keeps the sign.
    pub fn new(low: u128, high: u128, negative: bool) -> (r: SignedValue)
        ensures
            r.low == low,
            r.high == high,
            r.sign == (negative && (low != 0 || high != 0)),
            r.normal(),
            r@ == (SignedValue { low, high, sign: negative })@,
    {
        SignedValue { low, high, sign: negative && (low != 0 || high != 0) }
    }

    /// The triple for a magnitude of any width, given by its limbs with the
    /// lowest first, and a sign. A magnitude of `2^256` or more is refused:
    /// nothing is cut off.
    pub fn encode_magnitude(limbs: &Vec<u128>, negative: bool) -> (r: Result<
        SignedValue,
        CodecError,
    >)
        ensures
            r is Ok <==> limbs_magnitude(limbs@) < pow2_256(),
            r matches Ok(s) ==> s.magnitude() == limbs_magnitude(limbs@) && s.sign == (negative
                && limbs_magnitude(limbs@) != 0) && s == encode_spec(s@),
            r matches Err(why) ==> why == CodecError::TooWide,
    {
        let low: u128 = if limbs.len() > 0 { limbs[0] } else { 0 };
        let high: u128 = if limbs.len() > 1 { limbs[1] } else { 0 };
        let mut i: usize = 2;
        while i < limbs.len()
            invariant
                2 <= i,
                forall|k: int| 2 <= k < i && k < limbs@.len() ==> limbs@[k] == 0,
            decreases limbs@.len() - i,
        {
            if limbs[i] != 0 {
                proof {
                    lemma_wide_magnitude(limbs@, i as int);
                }
                return Err(CodecError::TooWide);
            }
            i += 1;
        }
        proof {
            lemma_narrow_magnitude(limbs@);
            assert(high as int * pow2_128() + low as int == limbs_value(high, low))
                by (nonlinear_arith)
                requires
                    pow2_128() == 0x1_0000_0000_0000_0000 * 0x1_0000_0000_0000_0000,
                    limbs_value(high, low) == high as int * 0x1_0000_0000_0000_0000
                        * 0x1_0000_0000_0000_0000 + low as int,
            ;
            lemma_fundamental_div_mod_converse(
                limbs_value(high, low) as int,
                pow2_128(),
                high as int,
                low as int,
            );
        }
        Ok(SignedValue::new(low, high, negative))
    }

    /// Encodes a native signed integer.
    pub fn encode(v: i128) -> (r: SignedValue)
        ensures
            r == encode_spec(v as int),
            r@ == v,
            r.normal(),
    {
        let low: u128 = if v >= 0 {
            v as u128
        } else if v == i128::MIN {
            0x8000_0000_0000_0000_0000_0000_0000_0000u128
        } else {
            (-v) as u128
        };
        proof {
            lemma_small_limbs(low as int);
        }
        SignedValue { low, high: 0, sign: v < 0 }
    }

    /// Decodes to a native signed integer, where the value fits one.
    pub fn decode(&self) -> (r: Result<i128, CodecError>)
        ensures
            r == decode_spec(*self),
    {
        if self.high != 0 {
            Err(CodecError::OutOfRange)
        } else if !self.sign {
            if self.low <= i128::MAX as u128 {
                Ok(self.low as i128)
            } else {
                Err(CodecError::OutOfRange)
            }
        } else if self.low <= i128::MAX as u128 {
            Ok(-(self.low as i128))
        } else if self.low == 0x8000_0000_0000_0000_0000_0000_0000_0000u128 {
            Ok(i128::MIN)
        } else {
            Err(CodecError::OutOfRange)
        }
    }

    /// The three wire words: low limb, high limb, sign. Zero goes out
    /// without a sign, whatever the triple says.
    pub fn to_wire(&self) -> (r: Vec<Felt>)
        ensures
            r@.len() == 3,
            r@[0]@ == self.low,
            r@[1]@ == self.high,
            r@[2]@ == if self.wire_sign() { 1nat } else { 0nat },
            from_wire_spec(r@) == Ok::<SignedValue, CodecError>(self.normalized()),
    {
        let sent = self.normalize();
        let mut words: Vec<Felt> = Vec::new();
        words.push(Felt::from_u128(sent.low));
        words.push(Felt::from_u128(sent.high));
        words.push(Felt::from_bool(sent.sign));
        words
    }

    /// Reads a triple back from the wire words of an answer.
    pub fn from_wire(words: &Vec<Felt>) -> (r: Result<SignedValue, CodecError>)
        ensures
            r == from_wire_spec(words@),
    {
        if words.len() != 3 {
            return Err(CodecError::WrongLength);
        }
        let low = words[0].to_u128();
        let high = words[1].to_u128();
        let sign = words[2].to_u128();
        match (low, high, sign) {
            (Some(low), Some(high), Some(0)) => Ok(SignedValue { low, high, sign: false }),
            (Some(low), Some(high), Some(1)) => Ok(SignedValue { low, high, sign: true }),
            (Some(_), Some(_), _) => Err(CodecError::BadSign),
            _ => Err(CodecError::LimbTooWide),
        }
    }
}

/// Decoding undoes encoding on every native signed integer.
pub proof fn lemma_decode_encode(v: i128)
    ensures
        decode_spec(encode_spec(v as int)) == Ok::<i128, CodecError>(v),
{
    let m: int = if v < 0 { -v } else { v as int };
    lemma_small_limbs(m);
}

/// A magnitude below `2^128` has no high limb.
proof fn lemma_small_limbs(m: int)
    requires
        0 <= m < pow2_128(),
    ensures
        m / pow2_128() == 0,
        m % pow2_128() == m,
{
    lemma_basic_div(m, pow2_128());
    lemma_small_mod(m as nat, pow2_128() as nat);
}

/// Every value whose magnitude fits two limbs is the value of its triple.
pub proof fn lemma_encode_value(v: int)
    requires
        encodable(v),
    ensures
        encode_spec(v)@ == v,
        encode_spec(v).normal(),
{
    let m = if v < 0 { -v } else { v };
    let p = pow2_128();
    lemma_fundamental_div_mod(m, p);
    lemma_mod_bound(m, p);
    assert(pow2_256() == p * p) by (nonlinear_arith)
        requires
            p == 0x1_0000_0000_0000_0000 * 0x1_0000_0000_0000_0000,
            pow2_256() == p * 0x1_0000_0000_0000_0000 * 0x1_0000_0000_0000_0000,
    ;
    assert(0 <= m / p < p) by (nonlinear_arith)
        requires
            0 <= m < p * p,
            p > 0,
            m == p * (m / p) + m % p,
            0 <= m % p < p,
    ;
    assert(shift128((m / p)) == p * (m / p)) by (nonlinear_arith)
        requires
            p == 0x1_0000_0000_0000_0000 * 0x1_0000_0000_0000_0000,
            shift128(m / p) == (m / p) * 0x1_0000_0000_0000_0000 * 0x1_0000_0000_0000_0000,
    ;
}

/// Limbs that are all zero stand for zero.
proof fn lemma_zero_limbs(limbs: Seq<u128>)
    requires
        forall|k: int| 0 <= k < limbs.len() ==> limbs[k] == 0,
    ensures
        limbs_magnitude(limbs) == 0,
    decreases limbs.len(),
{
    if limbs.len() > 0 {
        let rest = limbs.drop_first();
        assert forall|k: int| 0 <= k < rest.len() implies rest[k] == 0 by {
            assert(rest[k] == limbs[k + 1]);
        }
        lemma_zero_limbs(rest);
    }
}

/// Limbs of which one is not zero stand for a number that is not zero.
proof fn lemma_some_limb(limbs: Seq<u128>, at: int)
    requires
        0 <= at < limbs.len(),
        limbs[at] != 0,
    ensures
        limbs_magnitude(limbs) >= 1,
    decreases at,
{
    if at > 0 {
        let rest = limbs.drop_first();
        assert(rest[at - 1] == limbs[at]);
        lemma_some_limb(rest, at - 1);
    }
}

/// The limbs above the second.
spec fn upper_limbs(limbs: Seq<u128>) -> Seq<u128> {
    limbs.drop_first().drop_first()
}

/// With two limbs or more, the magnitude is the first two limbs and
/// `2^256` times what the others stand for.
proof fn lemma_split_magnitude(limbs: Seq<u128>)
    requires
        limbs.len() >= 2,
    ensures
        limbs_magnitude(limbs) == limbs[0] + shift128(limbs[1] as int) + shift128(
            shift128(limbs_magnitude(upper_limbs(limbs)) as int),
        ),
{
    let rest = limbs.drop_first();
    assert(rest[0] == limbs[1]);
    assert(limbs_magnitude(rest) == rest[0] + shift128(
        limbs_magnitude(rest.drop_first()) as int,
    ));
}

/// A limb above the second that is not zero makes the magnitude `2^256` or more.
proof fn lemma_wide_magnitude(limbs: Seq<u128>, at: int)
    requires
        2 <= at < limbs.len(),
        limbs[at] != 0,
    ensures
        limbs_magnitude(limbs) >= pow2_256(),
{
    lemma_split_magnitude(limbs);
    let upper = upper_limbs(limbs);
    assert(upper[at - 2] == limbs[at]);
    lemma_some_limb(upper, at - 2);
    let m = limbs_magnitude(upper) as int;
    assert(shift128(m) >= pow2_128());
    assert(shift128(shift128(m)) >= shift128(pow2_128()));
}

/// Where all limbs above the second are zero, the magnitude is what the
/// first two stand for.
proof fn lemma_narrow_magnitude(limbs: Seq<u128>)
    requires
        forall|k: int| 2 <= k < limbs.len() ==> limbs[k] == 0,
    ensures
        limbs_magnitude(limbs) == limbs_value(
            if limbs.len() > 1 { limbs[1] } else { 0 },
            if limbs.len() > 0 { limbs[0] } else { 0 },
        ),
{
    if limbs.len() >= 2 {
        lemma_split_magnitude(limbs);
        let upper = upper_limbs(limbs);
        assert forall|k: int| 0 <= k < upper.len() implies upper[k] == 0 by {
            assert(upper[k] == limbs[k + 2]);
        }
        lemma_zero_limbs(upper);
    } else if limbs.len() == 1 {
        lemma_zero_limbs(limbs.drop_first());
    }
}

/// A value has one triple in which zero carries no sign.
pub proof fn lemma_normal_triple_unique(a: SignedValue, b: SignedValue)
    requires
        a@ == b@,
        a.normal(),
        b.normal(),
    ensures
        a == b,
{
}

/// A triple of the value zero crosses the wire without a sign, and every
/// other triple with its own.
pub proof fn lemma_zero_crosses_unsigned(s: SignedValue)
    ensures
        s@ == 0 ==> !s.wire_sign(),
        s@ != 0 ==> s.wire_sign() == s.sign,
        s.normalized()@ == s@,
        s.normalized().normal(),
{
}

/// Zero encodes without a sign.
pub proof fn lemma_encode_zero()
    ensures
        encode_spec(0) == (SignedValue { low: 0, high: 0, sign: false }),
        !encode_spec(0).sign,
{
    lemma_small_limbs(0);
}

} // verus!
