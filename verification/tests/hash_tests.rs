use userop::address::Address;
use userop::u256::U256;
use userop::user_operation::{UserOperation, UserOperationPartial};

fn sample_operation() -> UserOperation {
    let partial = UserOperationPartial {
        sender: Some(
            Address::from_str("0xc0c374f049f2e0036B48D93346038f0133B8f00F").unwrap(),
        ),
        nonce: Some(U256::from_u64(7)),
        factory: Some(
            Address::from_str("0x9406Cc6185a346906296840746125a0E44976454").unwrap(),
        ),
        factory_data: Some(vec![0xde, 0xad, 0xbe, 0xef]),
        call_data: Some(vec![1, 2, 3, 4, 5]),
        call_gas_limit: Some(U256::from_u64(100_000)),
        verification_gas_limit: Some(U256::from_u64(200_000)),
        pre_verification_gas: Some(U256::from_u64(50_000)),
        max_fee_per_gas: Some(U256::from_u64(30)),
        max_priority_fee_per_gas: Some(U256::from_u64(2)),
        paymaster: Some("0x".to_string()),
        paymaster_verification_gas_limit: Some(U256::from_u64(0)),
        paymaster_post_op_gas_limit: Some(U256::from_u64(0)),
        paymaster_data: Some(Vec::new()),
        signature: Some(Vec::new()),
    };
    UserOperation::from_partial(partial)
}

fn entry_point() -> Address {
    userop::consts::entry_point_v7_address()
}

#[test]
fn hash_is_deterministic() {
    let op1 = sample_operation();
    let op2 = sample_operation();
    let h1 = op1.hash(&entry_point(), &U256::from_u64(11155111));
    let h2 = op2.hash(&entry_point(), &U256::from_u64(11155111));
    assert_eq!(h1, h2);
}

#[test]
fn hash_ignores_signature() {
    let base = sample_operation();
    let a = base.clone().signature(vec![1, 2, 3]);
    let b = base.signature(vec![9, 9, 9, 9, 9, 9]);
    let chain = U256::from_u64(1);
    assert_eq!(a.hash(&entry_point(), &chain), b.hash(&entry_point(), &chain));
}

#[test]
fn hash_changes_with_each_field() {
    let chain = U256::from_u64(1);
    let base = sample_operation();
    let base_hash = base.clone().hash(&entry_point(), &chain);
    let variants = vec![
        base.clone().sender(Address::zero()),
        base.clone().nonce(U256::from_u64(8)),
        base.clone().factory(Address::zero()),
        base.clone().factory_data(vec![0xff]),
        base.clone().call_data(vec![9]),
        base.clone().call_gas_limit(U256::from_u64(1)),
        base.clone().verification_gas_limit(U256::from_u64(1)),
        base.clone().pre_verification_gas(U256::from_u64(1)),
        base.clone().max_fee_per_gas(U256::from_u64(1)),
        base.clone().max_priority_fee_per_gas(U256::from_u64(1)),
        base.clone().paymaster("0x1111111111111111111111111111111111111111".to_string()),
        base.clone().paymaster_verification_gas_limit(U256::from_u64(1)),
        base.clone().paymaster_post_op_gas_limit(U256::from_u64(1)),
        base.clone().paymaster_data(vec![7]),
    ];
    for variant in variants {
        assert_ne!(base_hash, variant.hash(&entry_point(), &chain));
    }
}

#[test]
fn hash_changes_with_entry_point_and_chain() {
    let op = sample_operation();
    let h1 = op.hash(&entry_point(), &U256::from_u64(1));
    let h2 = op.hash(&entry_point(), &U256::from_u64(2));
    let h3 = op.hash(&Address::zero(), &U256::from_u64(1));
    assert_ne!(h1, h2);
    assert_ne!(h1, h3);
}

#[test]
fn packing_matches_reference_abi_encoding() {
    let op = sample_operation();
    let packed = op.pack_without_signature();

    let to_eth_u256 =
        |v: &U256| ethers_core::types::U256::from_big_endian(v.as_be_bytes().as_slice());
    let to_eth_addr = |a: &Address| ethers_core::types::H160::from_slice(a.as_bytes());
    let call_data_digest = ethers_core::utils::keccak256(&op.call_data);
    let tokens = vec![
        ethers_core::abi::Token::Address(to_eth_addr(&op.sender)),
        ethers_core::abi::Token::Uint(to_eth_u256(&op.nonce)),
        ethers_core::abi::Token::Address(to_eth_addr(&op.factory)),
        ethers_core::abi::Token::Bytes(op.factory_data.clone()),
        ethers_core::abi::Token::Bytes(call_data_digest.to_vec()),
        ethers_core::abi::Token::Uint(to_eth_u256(&op.call_gas_limit)),
        ethers_core::abi::Token::Uint(to_eth_u256(&op.verification_gas_limit)),
        ethers_core::abi::Token::Uint(to_eth_u256(&op.pre_verification_gas)),
        ethers_core::abi::Token::Uint(to_eth_u256(&op.max_fee_per_gas)),
        ethers_core::abi::Token::Uint(to_eth_u256(&op.max_priority_fee_per_gas)),
        ethers_core::abi::Token::String(op.paymaster.clone()),
        ethers_core::abi::Token::Uint(to_eth_u256(&op.paymaster_verification_gas_limit)),
        ethers_core::abi::Token::Uint(to_eth_u256(&op.paymaster_post_op_gas_limit)),
        ethers_core::abi::Token::Bytes(op.paymaster_data.clone()),
    ];
    let expected = ethers_core::abi::encode(&tokens);
    assert_eq!(packed, expected);
}

#[test]
fn full_packing_matches_reference_abi_encoding() {
    let op = sample_operation().signature(vec![0x5a, 0x5b, 0x5c]);
    let packed = op.pack();

    let to_eth_u256 =
        |v: &U256| ethers_core::types::U256::from_big_endian(v.as_be_bytes().as_slice());
    let to_eth_addr = |a: &Address| ethers_core::types::H160::from_slice(a.as_bytes());
    let tokens = vec![
        ethers_core::abi::Token::Address(to_eth_addr(&op.sender)),
        ethers_core::abi::Token::Uint(to_eth_u256(&op.nonce)),
        ethers_core::abi::Token::Address(to_eth_addr(&op.factory)),
        ethers_core::abi::Token::Bytes(op.factory_data.clone()),
        ethers_core::abi::Token::Bytes(op.call_data.clone()),
        ethers_core::abi::Token::Uint(to_eth_u256(&op.call_gas_limit)),
        ethers_core::abi::Token::Uint(to_eth_u256(&op.verification_gas_limit)),
        ethers_core::abi::Token::Uint(to_eth_u256(&op.pre_verification_gas)),
        ethers_core::abi::Token::Uint(to_eth_u256(&op.max_fee_per_gas)),
        ethers_core::abi::Token::Uint(to_eth_u256(&op.max_priority_fee_per_gas)),
        ethers_core::abi::Token::String(op.paymaster.clone()),
        ethers_core::abi::Token::Uint(to_eth_u256(&op.paymaster_verification_gas_limit)),
        ethers_core::abi::Token::Uint(to_eth_u256(&op.paymaster_post_op_gas_limit)),
        ethers_core::abi::Token::Bytes(op.paymaster_data.clone()),
        ethers_core::abi::Token::Bytes(op.signature.clone()),
    ];
    let expected = ethers_core::abi::encode(&tokens);
    assert_eq!(packed, expected);
}

#[test]
fn hash_matches_reference_double_keccak() {
    let op = sample_operation();
    let entry = entry_point();
    let chain = U256::from_u64(11155111);
    let ours = op.hash(&entry, &chain);

    let inner = ethers_core::utils::keccak256(op.pack_without_signature());
    let mut outer = inner.to_vec();
    outer.extend_from_slice(&[0u8; 12]);
    outer.extend_from_slice(entry.as_bytes());
    outer.extend_from_slice(chain.as_be_bytes());
    let expected = ethers_core::utils::keccak256(&outer);
    assert_eq!(ours.as_fixed_bytes().as_slice(), expected.as_slice());
}

#[test]
fn empty_call_data_hashes_to_empty_string_digest() {
    let mut op = sample_operation();
    op.call_data = Vec::new();
    op.factory_data = Vec::new();
    let packed = op.pack_without_signature();
    let empty_digest = ethers_core::utils::keccak256::<&[u8]>(&[]);
    // With empty factory data its tail segment is one length word, so the
    // call-data segment starts right after it: length word, then digest.
    let cd_offset = 448 + 32;
    assert_eq!(&packed[cd_offset + 32..cd_offset + 64], empty_digest.as_slice());
    assert_ne!(empty_digest, [0u8; 32]);
}
