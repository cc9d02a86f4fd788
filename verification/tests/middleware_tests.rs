use userop::address::Address;
use userop::errors::UserOpMiddlewareError;
use userop::types::{ErrorResponse, EstimateResult, JsonRpcError, WalletRegistry};
use userop::u256::U256;
use userop::userop_middleware::{TxRequestFields, TypedTransaction, UserOpMiddleware};

fn middleware() -> UserOpMiddleware {
    UserOpMiddleware::new(
        userop::consts::entry_point_v7_address(),
        "http://localhost:3000".to_string(),
        11155111,
        Address::from_str("0xc0c374f049f2e0036B48D93346038f0133B8f00F").unwrap(),
        Address::zero(),
        userop::consts::msa_factory_sepolia_address(),
        Address::zero(),
    )
}

#[test]
fn new_middleware_carries_configuration() {
    let mw = middleware();
    assert_eq!(mw.chain_id(), 11155111);
    assert_eq!(mw.supported_entry_point(), userop::consts::entry_point_v7_address());
    assert_eq!(mw.rpc_address, "http://localhost:3000".to_string());
    assert_eq!(mw.wallet_map.len(), 1);
    assert_eq!(mw.wallet_map[0].0, Address::zero());
    assert!(matches!(mw.wallet_map[0].1, WalletRegistry::SimpleAccount));
}

#[test]
fn request_envelopes_use_the_relay_methods() {
    let mw = middleware();
    let partial = userop::user_operation::UserOperationPartial::empty();
    let est = mw.estimate_user_operation_gas_request(&partial);
    assert_eq!(est.jsonrpc, "2.0".to_string());
    assert_eq!(est.id, 1);
    assert_eq!(est.method, "eth_estimateUserOperationGas".to_string());
    assert_eq!(est.params.1, userop::consts::entry_point_v7_address());

    let send = mw.send_user_operation_request(&partial);
    assert_eq!(send.method, "eth_sendUserOperation".to_string());

    let hash = userop::user_operation::UserOperationHash::repeat_byte(3);
    let receipt = mw.get_user_operation_receipt_request(&hash);
    assert_eq!(receipt.method, "eth_getUserOperationReceipt".to_string());
    assert_eq!(receipt.params.len(), 1);
    assert_eq!(receipt.params[0], hash);

    let by_hash = mw.get_user_operation_by_hash_request(&hash);
    assert_eq!(by_hash.method, "eth_getUserOperationByHash".to_string());
    assert_eq!(by_hash.params.len(), 1);

    let supported = mw.ask_supported_entry_point_request();
    assert_eq!(supported.method, "eth_supportedEntryPoints".to_string());
}

#[test]
fn handle_error_response_classifies_the_message() {
    let mw = middleware();
    let response = ErrorResponse {
        jsonrpc: "2.0".to_string(),
        id: 1,
        error: JsonRpcError {
            code: -32500,
            message: "Call gas limit 100 is lower than call gas estimation 250".to_string(),
        },
    };
    let r = mw.handle_error_response(&response);
    assert!(matches!(r, UserOpMiddlewareError::CallGasLimitError(100, 250)));
}

#[test]
fn handle_response_passes_success_and_classifies_errors() {
    let mw = middleware();
    let success: userop::userop_middleware::RelayReply<u64> =
        userop::userop_middleware::RelayReply::Success(userop::types::Response {
            jsonrpc: "2.0".to_string(),
            id: 1,
            result: 7u64,
        });
    match mw.handle_response(success) {
        Ok(resp) => assert_eq!(resp.result, 7u64),
        Err(_) => panic!("a success envelope must pass through"),
    }
    let error: userop::userop_middleware::RelayReply<u64> =
        userop::userop_middleware::RelayReply::Error(ErrorResponse {
            jsonrpc: "2.0".to_string(),
            id: 1,
            error: JsonRpcError {
                code: -32500,
                message: "AA40 over verificationGasLimit".to_string(),
            },
        });
    assert!(matches!(
        mw.handle_response(error),
        Err(UserOpMiddlewareError::VerificationGasLimitError)
    ));
}

#[test]
fn transfer_template_fills_placeholders() {
    let mw = middleware();
    let partial = mw.transfer_partial_template(U256::from_u64(9), vec![1, 2, 3]);
    assert_eq!(partial.sender.as_ref().unwrap(), &mw.sender);
    assert_eq!(partial.nonce.as_ref().unwrap(), &U256::from_u64(9));
    assert_eq!(partial.call_data.as_ref().unwrap(), &vec![1, 2, 3]);
    let placeholder = U256::from_u64(1_000_000_000);
    assert_eq!(partial.call_gas_limit.as_ref().unwrap(), &placeholder);
    assert_eq!(partial.verification_gas_limit.as_ref().unwrap(), &placeholder);
    assert_eq!(partial.pre_verification_gas.as_ref().unwrap(), &placeholder);
    assert_eq!(partial.max_fee_per_gas.as_ref().unwrap(), &placeholder);
    assert_eq!(partial.max_priority_fee_per_gas.as_ref().unwrap(), &placeholder);
    assert!(partial.factory.is_none());
    assert!(partial.paymaster.is_none());
    assert!(partial.signature.as_ref().unwrap().is_empty());
}

#[test]
fn apply_gas_estimates_overwrites_placeholders() {
    let mw = middleware();
    let partial = mw.transfer_partial_template(U256::from_u64(9), vec![1, 2, 3]);
    let estimate = EstimateResult {
        pre_verification_gas: U256::from_u64(41200),
        verification_gas_limit: U256::from_u64(60000),
        call_gas_limit: U256::from_u64(21000),
        paymaster_verification_gas_limit: U256::from_u64(0),
        paymaster_post_op_gas_limit: U256::from_u64(0),
    };
    let updated = mw.apply_gas_estimates(
        partial,
        &estimate,
        U256::from_u64(20),
        U256::from_u64(2),
    );
    assert_eq!(updated.call_gas_limit.as_ref().unwrap(), &U256::from_u64(21000));
    assert_eq!(updated.verification_gas_limit.as_ref().unwrap(), &U256::from_u64(60000));
    assert_eq!(updated.pre_verification_gas.as_ref().unwrap(), &U256::from_u64(41200));
    assert_eq!(updated.max_fee_per_gas.as_ref().unwrap(), &U256::from_u64(20));
    assert_eq!(updated.max_priority_fee_per_gas.as_ref().unwrap(), &U256::from_u64(2));
    assert_eq!(updated.nonce.as_ref().unwrap(), &U256::from_u64(9));
    assert_eq!(updated.call_data.as_ref().unwrap(), &vec![1, 2, 3]);
}

#[test]
fn signing_payload_matches_operation_hash() {
    let mw = middleware();
    let op = userop::user_operation::UserOperation::empty();
    let direct = op.hash(&mw.entry_point_address, &U256::from_u64(mw.chain_id));
    let payload = mw.signing_payload(&op);
    assert_eq!(direct, payload);
}

#[test]
fn calldata_is_lifted_from_each_tx_kind() {
    let mw = middleware();
    let fields = || TxRequestFields {
        to: Some(Address::zero()),
        value: Some(U256::from_u64(5)),
        data: Some(vec![9, 9]),
    };
    for tx in [
        TypedTransaction::Eip1559(fields()),
        TypedTransaction::Legacy(fields()),
        TypedTransaction::Eip2930(fields()),
    ] {
        let (data, to, value) = mw.uo_calldata_from_tx(&tx).unwrap();
        assert_eq!(data, vec![9, 9]);
        assert_eq!(to, Address::zero());
        assert_eq!(value, U256::from_u64(5));
    }
}

#[test]
fn carrier_types_hold_their_fields() {
    let deployed = userop::types::DeployedContract::new(7u32, Address::zero());
    assert_eq!(*deployed.contract(), 7u32);
    assert_eq!(deployed.address, Address::zero());

    let reply: userop::userop_middleware::JsonRpcResponse<String> =
        userop::userop_middleware::JsonRpcResponse {
            jsonrpc: "2.0".to_string(),
            id: 1,
            result: None,
            error: Some(userop::userop_middleware::JsonRpcError {
                code: -32000,
                message: "m".to_string(),
            }),
        };
    assert!(reply.result.is_none());
    assert_eq!(reply.error.as_ref().unwrap().code, -32000);

    let by_hash = userop::user_operation::UserOperationByHash {
        user_operation: userop::user_operation::UserOperation::empty(),
        entry_point: userop::consts::entry_point_v7_address(),
        transaction_hash: userop::h256::H256::zero(),
        block_hash: userop::h256::H256::repeat_byte(1),
        block_number: 42,
    };
    assert_eq!(by_hash.block_number, 42);
    assert_eq!(by_hash.block_hash.as_bytes().as_slice(), &[1u8; 32]);

    let receipt = userop::user_operation::UserOperationReceipt {
        user_operation_hash: userop::user_operation::UserOperationHash::zero(),
        sender: Address::zero(),
        nonce: U256::zero(),
        paymaster: None,
        actual_gas_cost: U256::from_u64(100),
        actual_gas_used: U256::from_u64(90),
        success: true,
        reason: String::new(),
    };
    assert!(receipt.success);
    assert_eq!(receipt.actual_gas_cost, U256::from_u64(100));

    let estimation = userop::user_operation::UserOperationGasEstimation {
        pre_verification_gas: U256::from_u64(1),
        verification_gas_limit: U256::from_u64(2),
        call_gas_limit: U256::from_u64(3),
        paymaster_verification_gas_limit: U256::zero(),
        paymaster_post_op_gas_limit: U256::zero(),
    };
    assert_eq!(estimation.call_gas_limit, U256::from_u64(3));
}

#[test]
fn random_builder_uses_the_client_sender() {
    let mw = middleware();
    let b = mw.build_random_uo_builder("simple-account").unwrap();
    assert_eq!(b.signer_address(), mw.sender);
    assert!(b.salt().is_some());
    assert!(mw.build_random_uo_builder("nonexistent-kind").is_err());
}
