use yas_deploy::codec::{CodecError, SignedValue, UnsignedValue};
use yas_deploy::felt::Felt;
use yas_deploy::invoke::{
    approve_max, balance_from_response, balance_of, initialize_pool, mint, swap, Call,
};
use yas_deploy::selector::EntryPoint;

fn addr(n: u128) -> Felt {
    Felt::from_u128(n)
}

#[test]
fn initialize_pool_sends_the_price_triple() {
    let price = SignedValue::new(79228162514264337593543950336, 0, false);
    let call = initialize_pool(addr(0x900), price);
    assert_eq!(
        call,
        Call {
            to: addr(0x900),
            selector: EntryPoint::Initialize.selector(),
            calldata: vec![Felt::from_u128(79228162514264337593543950336), Felt::zero(), Felt::zero()],
        }
    );
    let negative = initialize_pool(addr(0x900), SignedValue { low: 4, high: 2, sign: true });
    assert_eq!(negative.calldata, vec![addr(4), addr(2), Felt::one()]);
}

#[test]
fn mint_encodes_each_tick_with_its_own_sign() {
    let call = mint(addr(1), addr(2), addr(3), -887220, 887220, 2000000000000000000);
    assert_eq!(call.to, addr(2));
    assert_eq!(call.selector, EntryPoint::Mint.selector());
    assert_eq!(
        call.calldata,
        vec![
            addr(1),
            addr(3),
            Felt::from_u32(887220),
            Felt::one(),
            Felt::from_u32(887220),
            Felt::zero(),
            Felt::from_u128(2000000000000000000),
        ]
    );
}

#[test]
fn mint_takes_the_widest_ticks() {
    let call = mint(addr(1), addr(2), addr(3), i32::MIN, i32::MAX, u128::MAX);
    assert_eq!(call.calldata[2], Felt::from_u64(1u64 << 31));
    assert_eq!(call.calldata[3], Felt::one());
    assert_eq!(call.calldata[4], Felt::from_u32(i32::MAX as u32));
    assert_eq!(call.calldata[5], Felt::zero());
    assert_eq!(call.calldata[6], Felt::from_u128(u128::MAX));
    let zero = mint(addr(1), addr(2), addr(3), 0, 0, 0);
    assert_eq!(zero.calldata[2..6], [Felt::zero(), Felt::zero(), Felt::zero(), Felt::zero()]);
}

#[test]
fn swap_keeps_both_signs_as_given() {
    let amount = SignedValue { low: 500000000000000000, high: 0, sign: true };
    let limit = SignedValue { low: 4295128740, high: 0, sign: false };
    let call = swap(addr(7), addr(8), addr(9), true, amount, limit);
    assert_eq!(call.to, addr(7));
    assert_eq!(call.selector, EntryPoint::Swap.selector());
    assert_eq!(
        call.calldata,
        vec![
            addr(8),
            addr(9),
            Felt::one(),
            Felt::from_u128(500000000000000000),
            Felt::zero(),
            Felt::one(),
            Felt::from_u128(4295128740),
            Felt::zero(),
            Felt::zero(),
        ]
    );
    let other = swap(addr(7), addr(8), addr(9), false, limit, amount);
    assert_eq!(other.calldata[2], Felt::zero());
    assert_eq!(other.calldata[5], Felt::zero());
    assert_eq!(other.calldata[8], Felt::one());
}

#[test]
fn approve_max_saturates_both_limbs() {
    let call = approve_max(addr(0x10), addr(0x20));
    assert_eq!(
        call,
        Call {
            to: addr(0x10),
            selector: EntryPoint::Approve.selector(),
            calldata: vec![addr(0x20), Felt::from_u128(u128::MAX), Felt::from_u128(u128::MAX)],
        }
    );
}

#[test]
fn balance_of_asks_the_token_for_the_holder() {
    let call = balance_of(addr(0x10), addr(0x30));
    assert_eq!(
        call,
        Call { to: addr(0x10), selector: EntryPoint::BalanceOf.selector(), calldata: vec![addr(0x30)] }
    );
}

#[test]
fn balance_of_empty_answer_is_zero() {
    assert_eq!(balance_from_response(&vec![]), Ok(UnsignedValue { low: 0, high: 0 }));
}

#[test]
fn balance_of_one_word_is_that_word() {
    assert_eq!(balance_from_response(&vec![addr(41)]), Ok(UnsignedValue { low: 41, high: 0 }));
    let wide = Felt::from_limbs(7, 9).unwrap();
    assert_eq!(balance_from_response(&vec![wide]), Ok(UnsignedValue { low: 9, high: 7 }));
}

#[test]
fn balance_keeps_the_high_limb() {
    assert_eq!(balance_from_response(&vec![addr(41), addr(7)]), Ok(UnsignedValue { low: 41, high: 7 }));
    assert_eq!(
        balance_from_response(&vec![addr(u128::MAX), addr(u128::MAX)]),
        Ok(UnsignedValue { low: u128::MAX, high: u128::MAX })
    );
    assert_eq!(balance_from_response(&vec![addr(5), addr(0), addr(99)]), Ok(UnsignedValue { low: 5, high: 0 }));
    let carried = Felt::from_limbs(2, 3).unwrap();
    assert_eq!(balance_from_response(&vec![carried, addr(10)]), Ok(UnsignedValue { low: 3, high: 12 }));
}

#[test]
fn balance_of_more_than_256_bits_is_refused() {
    let wide = Felt::from_limbs(1, 0).unwrap();
    assert_eq!(balance_from_response(&vec![addr(1), wide]), Err(CodecError::TooWide));
    assert_eq!(balance_from_response(&vec![wide, addr(u128::MAX)]), Err(CodecError::TooWide));
}

#[test]
fn zero_goes_out_without_a_sign() {
    let negative_zero = SignedValue { low: 0, high: 0, sign: true };
    let call = swap(addr(7), addr(8), addr(9), true, negative_zero, negative_zero);
    assert_eq!(call.calldata[3..], [Felt::zero(); 6]);
    let call = initialize_pool(addr(1), negative_zero);
    assert_eq!(call.calldata, vec![Felt::zero(); 3]);
    let high_only = SignedValue { low: 0, high: 1, sign: true };
    let call = swap(addr(7), addr(8), addr(9), false, high_only, negative_zero);
    assert_eq!(call.calldata[3..6], [Felt::zero(), Felt::one(), Felt::one()]);
}
