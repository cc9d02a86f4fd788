use userop::address::Address;
use userop::errors::UserOpBuilderError;
use userop::types::{WalletFactoryAddresses, WalletRegistry};

#[test]
fn unknown_label_fails_in_both_registries() {
    match WalletRegistry::from_str("nonexistent-kind") {
        Err(UserOpBuilderError::UnsupportedWalletKind(name)) => {
            assert_eq!(name.as_str(), "nonexistent-kind");
        },
        _ => panic!("expected an unsupported-wallet-kind error"),
    }
    match WalletFactoryAddresses::from_str("nonexistent-kind") {
        Err(UserOpBuilderError::UnsupportedFactoryKind(name)) => {
            assert_eq!(name.as_str(), "nonexistent-kind");
        },
        _ => panic!("expected an unsupported-factory-kind error"),
    }
}

#[test]
fn supported_wallet_labels_resolve() {
    assert!(matches!(
        WalletRegistry::from_str("simple-account"),
        Ok(WalletRegistry::SimpleAccount)
    ));
    assert!(matches!(
        WalletRegistry::from_str("simple-account-test"),
        Ok(WalletRegistry::SimpleAccount)
    ));
    assert!(matches!(
        WalletRegistry::from_str("msa-basic-account"),
        Ok(WalletRegistry::MSABasicAccount)
    ));
}

#[test]
fn supported_factory_labels_resolve() {
    match WalletFactoryAddresses::from_str("simple-account") {
        Ok(WalletFactoryAddresses::SimpleAccountFactoryAddress(a)) => {
            assert_eq!(a, userop::consts::simple_account_factory_address());
        },
        _ => panic!("expected the simple-account factory"),
    }
    match WalletFactoryAddresses::from_str("simple-account-test") {
        Ok(WalletFactoryAddresses::SimpleAccountFactoryAddress(a)) => {
            assert_eq!(a, userop::consts::geth_simple_account_factory_address());
        },
        _ => panic!("expected the local test factory"),
    }
    match WalletFactoryAddresses::from_str("msa-account-sepolia") {
        Ok(WalletFactoryAddresses::MSABasicFactoryAddress(a)) => {
            assert_eq!(a, userop::consts::msa_factory_sepolia_address());
        },
        _ => panic!("expected the modular-account factory"),
    }
}

#[test]
fn factory_address_constants_parse_to_registry_bytes() {
    let simple = Address::from_str(userop::consts::SIMPLE_ACCOUNT_FACTORY).unwrap();
    assert_eq!(simple, userop::consts::simple_account_factory_address());
    let geth = Address::from_str(userop::consts::GETH_SIMPLE_ACCOUNT_FACTORY).unwrap();
    assert_eq!(geth, userop::consts::geth_simple_account_factory_address());
    let msa = Address::from_str(userop::consts::MSA_FACTORY_SEPOLIA).unwrap();
    assert_eq!(msa, userop::consts::msa_factory_sepolia_address());
    let entry = Address::from_str(userop::consts::ENTRY_POINT_SEPOLIA_V7).unwrap();
    assert_eq!(entry, userop::consts::entry_point_v7_address());
}

#[test]
fn wallet_label_unknown_to_one_registry() {
    // The modular-account wallet label has no registered factory, and the
    // factory label for the Sepolia deployment has no wallet entry.
    assert!(matches!(
        WalletFactoryAddresses::from_str("msa-basic-account"),
        Err(UserOpBuilderError::UnsupportedFactoryKind(_))
    ));
    assert!(matches!(
        WalletRegistry::from_str("msa-account-sepolia"),
        Err(UserOpBuilderError::UnsupportedWalletKind(_))
    ));
}
