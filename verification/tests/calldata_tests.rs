use userop::address::Address;
use userop::simple_account::SimpleAccountExecute;
use userop::u256::U256;
use userop::userop_middleware::UserOpMiddleware;

fn middleware() -> UserOpMiddleware {
    UserOpMiddleware::new(
        userop::consts::entry_point_v7_address(),
        "http://localhost:3000".to_string(),
        11155111,
        Address::from_str("0xc0c374f049f2e0036B48D93346038f0133B8f00F").unwrap(),
        Address::zero(),
        userop::consts::msa_factory_sepolia_address(),
        Address::zero(),
    )
}

#[test]
fn transfer_calldata_layout() {
    let mw = middleware();
    let dest = Address::from_str("0xc0c374f049f2e0036B48D93346038f0133B8f00F").unwrap();
    let value = U256::from_u64(1_000_000_000_000_000);
    let calldata = mw.calldata_gen_send_eth(dest.clone(), value.clone()).unwrap();

    let selector = ethers_core::utils::keccak256("execute(bytes32,bytes)".as_bytes());
    assert_eq!(&calldata[0..4], &selector[0..4]);
    // The zero mode tag fills the first argument word.
    assert_eq!(&calldata[4..36], &[0u8; 32]);
    // The dynamic argument sits at offset 0x40 of the argument area.
    let mut offset_word = [0u8; 32];
    offset_word[31] = 0x40;
    assert_eq!(&calldata[36..68], &offset_word);
    // Its length is 20 + 32 + 1 bytes.
    let mut len_word = [0u8; 32];
    len_word[31] = 53;
    assert_eq!(&calldata[68..100], &len_word);
    // The envelope: destination, 32-byte big-endian value, one zero flag byte.
    assert_eq!(&calldata[100..120], dest.as_bytes().as_slice());
    assert_eq!(&calldata[120..152], value.as_be_bytes().as_slice());
    assert_eq!(calldata[152], 0u8);
    // Padding to the word boundary, and nothing after it.
    assert_eq!(&calldata[153..164], &[0u8; 11]);
    assert_eq!(calldata.len(), 164);
}

#[test]
fn transfer_value_bytes_are_big_endian() {
    let mw = middleware();
    let dest = Address::zero();
    let value = U256::from_u64(1_000_000_000_000_000);
    let calldata = mw.calldata_gen_send_eth(dest, value).unwrap();
    let mut expected = [0u8; 32];
    expected[25..32].copy_from_slice(&[0x03, 0x8D, 0x7E, 0xA4, 0xC6, 0x80, 0x00]);
    assert_eq!(&calldata[120..152], &expected);
}

#[test]
fn simple_account_execute_encoding() {
    let dest = Address::from_str("0xc0c374f049f2e0036B48D93346038f0133B8f00F").unwrap();
    let call = SimpleAccountExecute::new(dest.clone(), U256::from_u64(5), vec![0xab, 0xcd]);
    let encoded = call.encode();

    let selector = ethers_core::utils::keccak256("execute(address,uint256,bytes)".as_bytes());
    assert_eq!(&encoded[0..4], &selector[0..4]);
    // Address word: twelve zero bytes, then the address.
    assert_eq!(&encoded[4..16], &[0u8; 12]);
    assert_eq!(&encoded[16..36], dest.as_bytes().as_slice());
    // Value word.
    assert_eq!(&encoded[36..68], U256::from_u64(5).as_be_bytes().as_slice());
    // Offset word of the dynamic argument: 0x60.
    let mut offset_word = [0u8; 32];
    offset_word[31] = 0x60;
    assert_eq!(&encoded[68..100], &offset_word);
    // Length word and padded payload.
    let mut len_word = [0u8; 32];
    len_word[31] = 2;
    assert_eq!(&encoded[100..132], &len_word);
    assert_eq!(&encoded[132..134], &[0xab, 0xcd]);
    assert_eq!(&encoded[134..164], &[0u8; 30]);
    assert_eq!(encoded.len(), 164);
}

#[test]
fn simple_account_execute_matches_reference_abi() {
    let dest = Address::from_str("0x9406Cc6185a346906296840746125a0E44976454").unwrap();
    let func = vec![1, 2, 3, 4, 5, 6, 7];
    let call = SimpleAccountExecute::new(dest.clone(), U256::from_u64(77), func.clone());
    let encoded = call.encode();

    let selector = ethers_core::utils::keccak256("execute(address,uint256,bytes)".as_bytes());
    let tokens = vec![
        ethers_core::abi::Token::Address(ethers_core::types::H160::from_slice(dest.as_bytes())),
        ethers_core::abi::Token::Uint(ethers_core::types::U256::from(77u64)),
        ethers_core::abi::Token::Bytes(func),
    ];
    let mut expected = selector[0..4].to_vec();
    expected.extend_from_slice(&ethers_core::abi::encode(&tokens));
    assert_eq!(encoded, expected);
}

#[test]
fn nonce_key_layout() {
    let validator = Address::from_str("0x9406Cc6185a346906296840746125a0E44976454").unwrap();
    let mw = UserOpMiddleware::new(
        userop::consts::entry_point_v7_address(),
        "http://localhost:3000".to_string(),
        1,
        Address::zero(),
        validator.clone(),
        Address::zero(),
        Address::zero(),
    );
    let key = mw.nonce_key();
    let bytes = key.as_be_bytes();
    assert_eq!(&bytes[0..8], &[0u8; 8]);
    assert_eq!(&bytes[8..28], validator.as_bytes().as_slice());
    assert_eq!(&bytes[28..32], &[0u8; 4]);
}

#[test]
fn get_nonce_calldata_layout() {
    let mw = middleware();
    let calldata = mw.get_nonce_calldata();
    let selector = ethers_core::utils::keccak256("getNonce(address,uint192)".as_bytes());
    assert_eq!(&calldata[0..4], &selector[0..4]);
    assert_eq!(&calldata[4..16], &[0u8; 12]);
    assert_eq!(&calldata[16..36], mw.sender.as_bytes().as_slice());
    assert_eq!(&calldata[36..68], mw.nonce_key().as_be_bytes().as_slice());
    assert_eq!(calldata.len(), 68);
}
