use userop::address::Address;
use userop::errors::FromHexError;
use userop::u256::U256;
use userop::user_operation::{UserOperation, UserOperationHash, UserOperationPartial};

#[test]
fn address_from_str_accepts_prefixed_and_bare() {
    let a = Address::from_str("0x9406Cc6185a346906296840746125a0E44976454").unwrap();
    let b = Address::from_str("9406Cc6185a346906296840746125a0E44976454").unwrap();
    assert_eq!(a, b);
    assert_eq!(a.as_bytes()[0], 0x94);
    assert_eq!(a.as_bytes()[19], 0x54);
}

#[test]
fn address_from_str_rejects_bad_length() {
    assert!(matches!(
        Address::from_str("0x9406"),
        Err(FromHexError::InvalidHexLength)
    ));
    assert!(matches!(
        Address::from_str("0x9406Cc6185a346906296840746125a0E4497645400"),
        Err(FromHexError::InvalidHexLength)
    ));
}

#[test]
fn address_from_str_reports_bad_character_position() {
    match Address::from_str("0x94z6Cc6185a346906296840746125a0E44976454") {
        Err(FromHexError::InvalidHexCharacter(c, idx)) => {
            assert_eq!(c, 'z');
            assert_eq!(idx, 2);
        },
        _ => panic!("expected an invalid-character error"),
    }
}

#[test]
fn hash_from_str_round_trip() {
    let h = UserOperationHash::from_str(
        "0x00000000000000000000000000000000000000000000000000000000000000ff",
    )
    .unwrap();
    assert_eq!(h.as_fixed_bytes()[31], 0xff);
    assert_eq!(h.as_fixed_bytes()[0], 0x00);
    assert!(UserOperationHash::from_str("0x1234").is_err());
}

#[test]
fn hash_constructors() {
    let z = UserOperationHash::zero();
    assert_eq!(z.as_fixed_bytes().as_slice(), &[0u8; 32]);
    let r = UserOperationHash::repeat_byte(0xab);
    assert_eq!(r.as_fixed_bytes().as_slice(), &[0xab; 32]);
    let s = UserOperationHash::from_slice(&[7u8; 32]);
    assert_eq!(s.as_fixed_bytes().as_slice(), &[7u8; 32]);
    let mut m = UserOperationHash::zero();
    m.assign_from_slice(&[9u8; 32]);
    assert_eq!(m.as_fixed_bytes().as_slice(), &[9u8; 32]);
}

#[test]
fn u256_from_u64_is_big_endian() {
    let v = U256::from_u64(0x0102_0304_0506_0708);
    let bytes = v.as_be_bytes();
    assert_eq!(&bytes[0..24], &[0u8; 24]);
    assert_eq!(&bytes[24..32], &[1, 2, 3, 4, 5, 6, 7, 8]);
}

#[test]
fn u256_checked_add_carries() {
    let a = U256::from_u64(u64::MAX);
    let b = U256::from_u64(1);
    let sum = a.checked_add(&b).unwrap();
    let bytes = sum.as_be_bytes();
    assert_eq!(bytes[23], 1);
    assert_eq!(&bytes[24..32], &[0u8; 8]);
}

#[test]
fn u256_checked_add_detects_overflow() {
    let max = U256::from_be_bytes(vec![0xff; 32]).unwrap();
    assert!(max.checked_add(&U256::from_u64(1)).is_none());
    assert!(max.checked_add(&U256::zero()).is_some());
}

#[test]
fn u256_div_rem() {
    let v = U256::from_u64(1001);
    let (q, r) = v.div_rem_u64(10);
    assert_eq!(q, U256::from_u64(100));
    assert_eq!(r, 1);
}

#[test]
fn permissive_conversion_defaults_everything() {
    let partial = UserOperationPartial::empty();
    let op = UserOperation::from_partial(partial);
    assert_eq!(op.sender, Address::zero());
    assert_eq!(op.nonce, U256::zero());
    assert_eq!(op.factory, Address::zero());
    assert!(op.factory_data.is_empty());
    assert!(op.call_data.is_empty());
    assert_eq!(op.call_gas_limit, U256::zero());
    assert_eq!(op.verification_gas_limit, U256::zero());
    assert_eq!(op.pre_verification_gas, U256::zero());
    assert_eq!(op.max_fee_per_gas, U256::zero());
    assert_eq!(op.max_priority_fee_per_gas, U256::zero());
    assert_eq!(op.paymaster, "0x".to_string());
    assert_eq!(op.paymaster_verification_gas_limit, U256::zero());
    assert_eq!(op.paymaster_post_op_gas_limit, U256::zero());
    assert!(op.paymaster_data.is_empty());
    assert!(op.signature.is_empty());
}

#[test]
fn permissive_conversion_keeps_set_fields() {
    let mut partial = UserOperationPartial::empty();
    partial.nonce = Some(U256::from_u64(3));
    partial.paymaster = Some("0x1111111111111111111111111111111111111111".to_string());
    let op = UserOperation::from_partial(partial);
    assert_eq!(op.nonce, U256::from_u64(3));
    assert_eq!(op.paymaster, "0x1111111111111111111111111111111111111111".to_string());
    assert_eq!(op.sender, Address::zero());
}

#[test]
fn operation_setters_replace_one_field() {
    let op = UserOperation::empty();
    let op = op.nonce(U256::from_u64(5)).call_data(vec![1]).signature(vec![2]);
    assert_eq!(op.nonce, U256::from_u64(5));
    assert_eq!(op.call_data, vec![1]);
    assert_eq!(op.signature, vec![2]);
    assert_eq!(op.sender, Address::zero());
}
