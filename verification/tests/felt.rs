use yas_deploy::felt::{Felt, MODULUS_HIGH};

#[test]
fn small_values_keep_their_value() {
    assert_eq!(Felt::zero().to_u128(), Some(0));
    assert_eq!(Felt::one().to_u128(), Some(1));
    assert_eq!(Felt::from_u128(u128::MAX).to_u128(), Some(u128::MAX));
    assert_eq!(Felt::from_u64(u64::MAX).to_u128(), Some(u64::MAX as u128));
    assert_eq!(Felt::from_u32(3000).to_u128(), Some(3000));
    assert_eq!(Felt::from_bool(true), Felt::one());
    assert_eq!(Felt::from_bool(false), Felt::zero());
    assert!(Felt::zero().is_zero());
    assert!(!Felt::one().is_zero());
}

#[test]
fn from_limbs_stops_at_the_modulus() {
    assert!(Felt::from_limbs(MODULUS_HIGH, 0).is_some());
    assert!(Felt::from_limbs(MODULUS_HIGH, 1).is_none());
    assert!(Felt::from_limbs(MODULUS_HIGH + 1, 0).is_none());
    assert!(Felt::from_limbs(u128::MAX, u128::MAX).is_none());
    let f = Felt::from_limbs(MODULUS_HIGH - 1, u128::MAX).unwrap();
    assert_eq!(f.high(), MODULUS_HIGH - 1);
    assert_eq!(f.low(), u128::MAX);
    assert_eq!(f.to_u128(), None);
    assert!(!f.is_zero());
}

#[test]
fn the_largest_element_is_the_one_starknet_names() {
    let max = starknet::core::types::FieldElement::MAX.to_bytes_be();
    let f = Felt::from_limbs(MODULUS_HIGH, 0).unwrap();
    assert_eq!(&max[..16], &f.high().to_be_bytes());
    assert_eq!(&max[16..], &f.low().to_be_bytes());
}

#[test]
fn canonical_limbs_give_the_same_element_as_checked_ones() {
    assert_eq!(Some(Felt::from_canonical_limbs(3, 4)), Felt::from_limbs(3, 4));
    assert_eq!(Felt::from_canonical_limbs(0, 9), Felt::from_u128(9));
    assert_eq!(Some(Felt::from_canonical_limbs(MODULUS_HIGH, 0)), Felt::from_limbs(MODULUS_HIGH, 0));
}
