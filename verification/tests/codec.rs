use yas_deploy::codec::{CodecError, SignedValue};
use yas_deploy::felt::Felt;

#[test]
fn encode_zero_has_no_sign() {
    let s = SignedValue::encode(0);
    assert_eq!(s, SignedValue { low: 0, high: 0, sign: false });
}

#[test]
fn encode_gives_magnitude_and_sign() {
    assert_eq!(SignedValue::encode(-887220), SignedValue { low: 887220, high: 0, sign: true });
    assert_eq!(SignedValue::encode(887220), SignedValue { low: 887220, high: 0, sign: false });
    assert_eq!(
        SignedValue::encode(79228162514264337593543950336),
        SignedValue { low: 79228162514264337593543950336, high: 0, sign: false }
    );
    assert_eq!(SignedValue::encode(i128::MIN), SignedValue { low: 1u128 << 127, high: 0, sign: true });
}

#[test]
fn decode_undoes_encode() {
    for v in [0i128, 1, -1, 887220, -887220, i128::MAX, i128::MIN, i128::MIN + 1] {
        assert_eq!(SignedValue::encode(v).decode(), Ok(v));
    }
}

#[test]
fn decode_rejects_wide_values() {
    let wide = SignedValue { low: 0, high: 1, sign: false };
    assert_eq!(wide.decode(), Err(CodecError::OutOfRange));
    let just_over = SignedValue { low: 1u128 << 127, high: 0, sign: false };
    assert_eq!(just_over.decode(), Err(CodecError::OutOfRange));
    let below_min = SignedValue { low: (1u128 << 127) + 1, high: 0, sign: true };
    assert_eq!(below_min.decode(), Err(CodecError::OutOfRange));
}

#[test]
fn decode_takes_negative_zero_as_zero() {
    let s = SignedValue { low: 0, high: 0, sign: true };
    assert_eq!(s.decode(), Ok(0));
}

#[test]
fn new_drops_the_sign_of_zero() {
    assert_eq!(SignedValue::new(0, 0, true), SignedValue { low: 0, high: 0, sign: false });
    assert_eq!(SignedValue::new(0, 1, true), SignedValue { low: 0, high: 1, sign: true });
    assert_eq!(SignedValue::new(7, 0, false), SignedValue { low: 7, high: 0, sign: false });
}

#[test]
fn wire_words_are_low_high_sign() {
    let s = SignedValue { low: 500000000000000000, high: 3, sign: true };
    let words = s.to_wire();
    assert_eq!(words, vec![Felt::from_u128(500000000000000000), Felt::from_u128(3), Felt::one()]);
    assert_eq!(SignedValue::from_wire(&words), Ok(s));
}

#[test]
fn from_wire_names_each_fault() {
    let one = Felt::one();
    let wide = Felt::from_limbs(1, 0).unwrap();
    assert_eq!(SignedValue::from_wire(&vec![one, one]), Err(CodecError::WrongLength));
    assert_eq!(SignedValue::from_wire(&vec![]), Err(CodecError::WrongLength));
    assert_eq!(SignedValue::from_wire(&vec![wide, one, one]), Err(CodecError::LimbTooWide));
    assert_eq!(SignedValue::from_wire(&vec![one, wide, one]), Err(CodecError::LimbTooWide));
    assert_eq!(SignedValue::from_wire(&vec![one, one, Felt::from_u128(2)]), Err(CodecError::BadSign));
    assert_eq!(SignedValue::from_wire(&vec![one, one, wide]), Err(CodecError::BadSign));
    assert_eq!(
        SignedValue::from_wire(&vec![one, Felt::zero(), Felt::zero()]),
        Ok(SignedValue { low: 1, high: 0, sign: false })
    );
}

#[test]
fn encode_magnitude_takes_two_limbs() {
    assert_eq!(SignedValue::encode_magnitude(&vec![], true), Ok(SignedValue { low: 0, high: 0, sign: false }));
    assert_eq!(SignedValue::encode_magnitude(&vec![5], true), Ok(SignedValue { low: 5, high: 0, sign: true }));
    assert_eq!(
        SignedValue::encode_magnitude(&vec![u128::MAX, u128::MAX, 0, 0], false),
        Ok(SignedValue { low: u128::MAX, high: u128::MAX, sign: false })
    );
    assert_eq!(SignedValue::encode_magnitude(&vec![0, 0, 0], true), Ok(SignedValue { low: 0, high: 0, sign: false }));
}

#[test]
fn encode_magnitude_refuses_a_third_limb() {
    assert_eq!(SignedValue::encode_magnitude(&vec![0, 0, 1], false), Err(CodecError::TooWide));
    assert_eq!(SignedValue::encode_magnitude(&vec![9, 9, 0, 0, 4], true), Err(CodecError::TooWide));
}

#[test]
fn wire_words_of_zero_have_no_sign() {
    let negative_zero = SignedValue { low: 0, high: 0, sign: true };
    assert_eq!(negative_zero.to_wire(), vec![Felt::zero(), Felt::zero(), Felt::zero()]);
    assert_eq!(
        SignedValue::from_wire(&negative_zero.to_wire()),
        Ok(SignedValue { low: 0, high: 0, sign: false })
    );
}

#[test]
fn normalize_keeps_the_value_and_drops_the_sign_of_zero() {
    assert_eq!(
        SignedValue { low: 0, high: 0, sign: true }.normalize(),
        SignedValue { low: 0, high: 0, sign: false }
    );
    let negative = SignedValue { low: 0, high: 2, sign: true };
    assert_eq!(negative.normalize(), negative);
    let positive = SignedValue { low: 3, high: 0, sign: false };
    assert_eq!(positive.normalize(), positive);
}
