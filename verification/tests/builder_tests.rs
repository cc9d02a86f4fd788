use userop::address::Address;
use userop::errors::UserOpBuilderError;
use userop::u256::U256;
use userop::uo_builder::{ScwAddressQuery, UserOperationBuilder};
use userop::user_operation::UserOperationPartial;

fn signer() -> Address {
    Address::from_str("0xc0c374f049f2e0036B48D93346038f0133B8f00F").unwrap()
}

fn filled_builder() -> UserOperationBuilder {
    let mut b = UserOperationBuilder::new(signer(), "simple-account", None, Some(42)).unwrap();
    b.set_uo_sender(signer());
    b.set_uo_nonce(U256::from_u64(1));
    b.set_uo_factory(Address::zero());
    b.set_uo_factory_data(Vec::new());
    b.set_uo_call_data(vec![1, 2, 3]);
    b.set_uo_call_gas_limit(U256::from_u64(10));
    b.set_uo_verification_gas_limit(U256::from_u64(11));
    b.set_uo_pre_verification_gas(U256::from_u64(12));
    b.set_uo_max_fee_per_gas(U256::from_u64(13));
    b.set_uo_max_priority_fee_per_gas(U256::from_u64(14));
    b.set_uo_paymaster("0x".to_string());
    b.set_uo_paymaster_verification_gas_limit(U256::from_u64(0));
    b.set_uo_paymaster_post_op_gas_limit(U256::from_u64(0));
    b.set_uo_paymaster_data(Vec::new());
    b.set_uo_signature(vec![0xaa]);
    b
}

#[test]
fn build_uo_succeeds_when_complete() {
    let b = filled_builder();
    let op = b.build_uo().unwrap();
    assert_eq!(op.sender, signer());
    assert_eq!(op.nonce, U256::from_u64(1));
    assert_eq!(op.factory, Address::zero());
    assert_eq!(op.factory_data, Vec::<u8>::new());
    assert_eq!(op.call_data, vec![1, 2, 3]);
    assert_eq!(op.call_gas_limit, U256::from_u64(10));
    assert_eq!(op.verification_gas_limit, U256::from_u64(11));
    assert_eq!(op.pre_verification_gas, U256::from_u64(12));
    assert_eq!(op.max_fee_per_gas, U256::from_u64(13));
    assert_eq!(op.max_priority_fee_per_gas, U256::from_u64(14));
    assert_eq!(op.paymaster, "0x".to_string());
    assert_eq!(op.paymaster_verification_gas_limit, U256::from_u64(0));
    assert_eq!(op.paymaster_post_op_gas_limit, U256::from_u64(0));
    assert_eq!(op.paymaster_data, Vec::<u8>::new());
    assert_eq!(op.signature, vec![0xaa]);
}

#[test]
fn build_uo_names_each_missing_field() {
    let expected = vec![
        "sender",
        "nonce",
        "factory",
        "factory_data",
        "call_data",
        "call_gas_limit",
        "verification_gas_limit",
        "pre_verification_gas",
        "max_fee_per_gas",
        "max_priority_fee_per_gas",
        "paymaster",
        "paymaster_verification_gas_limit",
        "paymaster_post_op_gas_limit",
        "paymaster_data",
        "signature",
    ];
    for (idx, field) in expected.iter().enumerate() {
        let mut b = filled_builder();
        let mut uo = b.uo().clone();
        match idx {
            0 => uo.sender = None,
            1 => uo.nonce = None,
            2 => uo.factory = None,
            3 => uo.factory_data = None,
            4 => uo.call_data = None,
            5 => uo.call_gas_limit = None,
            6 => uo.verification_gas_limit = None,
            7 => uo.pre_verification_gas = None,
            8 => uo.max_fee_per_gas = None,
            9 => uo.max_priority_fee_per_gas = None,
            10 => uo.paymaster = None,
            11 => uo.paymaster_verification_gas_limit = None,
            12 => uo.paymaster_post_op_gas_limit = None,
            13 => uo.paymaster_data = None,
            _ => uo.signature = None,
        }
        b.set_uo(uo);
        match b.build_uo() {
            Err(UserOpBuilderError::MissingUserOperationField(name)) => {
                assert_eq!(name.as_str(), *field);
            },
            _ => panic!("expected a missing-field error"),
        }
    }
}

#[test]
fn build_uo_reports_first_missing_field_in_order() {
    let mut b = filled_builder();
    let mut uo = b.uo().clone();
    uo.nonce = None;
    uo.call_data = None;
    b.set_uo(uo);
    match b.build_uo() {
        Err(UserOpBuilderError::MissingUserOperationField(name)) => {
            assert_eq!(name.as_str(), "nonce");
        },
        _ => panic!("expected a missing-field error"),
    }
}

#[test]
fn new_builder_starts_empty() {
    let b = UserOperationBuilder::new(signer(), "simple-account-test", None, None).unwrap();
    assert!(b.uo().sender.is_none());
    assert!(b.uo().signature.is_none());
    assert!(b.uo_hash().is_none());
    assert!(b.scw_address().is_none());
    assert_eq!(b.salt(), None);
    assert_eq!(
        b.factory_contract_address(),
        userop::consts::geth_simple_account_factory_address()
    );
}

#[test]
fn new_builder_rejects_unknown_kind() {
    let r = UserOperationBuilder::new(signer(), "nonexistent-kind", None, None);
    assert!(matches!(r, Err(UserOpBuilderError::UnsupportedFactoryKind(_))));
}

#[test]
fn from_uo_seeds_accumulator() {
    let mut partial = UserOperationPartial {
        sender: None,
        nonce: None,
        factory: None,
        factory_data: None,
        call_data: None,
        call_gas_limit: None,
        verification_gas_limit: None,
        pre_verification_gas: None,
        max_fee_per_gas: None,
        max_priority_fee_per_gas: None,
        paymaster: None,
        paymaster_verification_gas_limit: None,
        paymaster_post_op_gas_limit: None,
        paymaster_data: None,
        signature: None,
    };
    partial.nonce = Some(U256::from_u64(99));
    let b = UserOperationBuilder::from_uo(partial, "simple-account").unwrap();
    assert_eq!(b.uo().nonce.as_ref().unwrap(), &U256::from_u64(99));
    assert!(b.uo().sender.is_none());
}

#[test]
fn set_wallet_reresolves_bindings() {
    let mut b = UserOperationBuilder::new(signer(), "simple-account", None, Some(1)).unwrap();
    b.set_uo_nonce(U256::from_u64(5));
    b.set_wallet("simple-account-test").unwrap();
    assert_eq!(
        b.factory_contract_address(),
        userop::consts::geth_simple_account_factory_address()
    );
    assert_eq!(b.uo().nonce.as_ref().unwrap(), &U256::from_u64(5));
    assert!(b.set_wallet("nonexistent-kind").is_err());
}

#[test]
fn scw_address_query_requires_salt() {
    let b = UserOperationBuilder::new(signer(), "simple-account", None, None).unwrap();
    match b.scw_address_query() {
        Err(UserOpBuilderError::MissingUserOperationField(name)) => {
            assert_eq!(name.as_str(), "salt");
        },
        _ => panic!("expected a missing-salt error"),
    }
}

#[test]
fn scw_address_query_simple_account_shape() {
    let b = UserOperationBuilder::new(signer(), "simple-account", None, Some(42)).unwrap();
    match b.scw_address_query().unwrap() {
        ScwAddressQuery::SimpleAccount { creator, salt } => {
            assert_eq!(creator, userop::consts::simple_account_factory_address());
            assert_eq!(salt, U256::from_u64(42));
        },
        _ => panic!("expected the simple-account query shape"),
    }
}

#[test]
fn scw_address_query_msa_hashed_salt() {
    let b = UserOperationBuilder {
        factory_contract: userop::types::WalletFactoryRegistry::MSABasicFactory(
            userop::consts::msa_factory_sepolia_address(),
        ),
        factory_address: userop::consts::msa_factory_sepolia_address(),
        wallet_contract: userop::types::WalletRegistry::MSABasicAccount,
        scw_address: None,
        signer_address: signer(),
        salt: Some(42),
        uo: UserOperationPartial::empty(),
        uo_hash: None,
    };
    match b.scw_address_query().unwrap() {
        ScwAddressQuery::MSABasic { hashed_salt, init_code } => {
            let expected = ethers_core::utils::keccak256(42u64.to_be_bytes());
            assert_eq!(hashed_salt.as_bytes().as_slice(), expected.as_slice());
            assert!(init_code.is_empty());
        },
        _ => panic!("expected the modular-account query shape"),
    }
}

#[test]
fn set_scw_address_records_address() {
    let mut b = UserOperationBuilder::new(signer(), "simple-account", None, Some(1)).unwrap();
    b.set_scw_address(signer());
    assert_eq!(b.scw_address().unwrap(), signer());
}
