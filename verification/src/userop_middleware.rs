//! The bundler client: request envelopes for the relay's methods, nonce-key
//! and calldata derivation, fee sampling, signing payloads and the
//! classification of relay errors.
use crate::address::Address;
use crate::bytesnat::{append_bytes, append_zero_bytes, be_bytes, zero_bytes};
use crate::classify::{classify_relay_error, classify_spec};
use crate::errors::{UserOpBuilderError, UserOpMiddlewareError};
use crate::fees::{average_gas_fees, fee_count, fee_sum, prio_sum, TxFeeSample};
use crate::packing::{operation_hash, packable};
use crate::simple_account::{encode_mode_execute, mode_execute_call_bytes, selector_of};
use crate::types::{ErrorResponse, EstimateResult, Request, Response, WalletMap, WalletRegistry};
use crate::u256::U256;
use crate::uo_builder::{simple_wallet_label, UserOperationBuilder};
use crate::user_operation::{
    option_view_eq, partial_view_eq, UserOperation, UserOperationHash, UserOperationPartial,
};
use vstd::prelude::*;
use vstd::utf8::encode_utf8;

verus! {

/// A JSON-RPC reply that may carry either a result or an error object.
pub struct JsonRpcResponse<T> {
    pub jsonrpc: String,
    pub id: u64,
    pub result: Option<T>,
    pub error: Option<JsonRpcError>,
}

/// The error object of a JSON-RPC reply.
pub struct JsonRpcError {
    pub code: i64,
    pub message: String,
}

/// A relay reply once its body has been read and parsed: either the success
/// envelope or the error envelope.
pub enum RelayReply<R> {
    Success(Response<R>),
    Error(ErrorResponse),
}

/// Relies on rand::random for a fresh salt; nothing is assumed of the value,
/// and two calls may differ.
#[verifier::external_body]
fn random_u64() -> u64 {
    rand::random::<u64>()
}

/// The bytes a transfer hands to the account's dispatch entry point: the
/// destination, the 32-byte big-endian amount, one zero flag byte.
pub open spec fn transfer_envelope(dest: Seq<u8>, value: Seq<u8>) -> Seq<u8> {
    dest + value + seq![0u8]
}

/// The nonce-mapping key for a validator: its twenty bytes padded into a
/// 32-byte word, eight zero bytes before and four after. The layout is a
/// wire-compatibility requirement of the deployed entry-point contract.
pub open spec fn nonce_key_bytes(validator: Seq<u8>) -> Seq<u8> {
    zero_bytes(8) + validator + zero_bytes(4)
}

/// The coarse placeholder written into every gas and fee field before the
/// relay's estimate replaces it.
pub open spec fn gas_placeholder() -> Seq<u8> {
    be_bytes(1_000_000_000, 32)
}

/// The fields of one transaction-request envelope, as far as an operation
/// needs them.
pub struct TxRequestFields {
    pub to: Option<Address>,
    pub value: Option<U256>,
    pub data: Option<Vec<u8>>,
}

/// The three transaction-envelope kinds a calldata can be lifted from.
pub enum TypedTransaction {
    Eip1559(TxRequestFields),
    Legacy(TxRequestFields),
    Eip2930(TxRequestFields),
}

impl TypedTransaction {
    /// The envelope's fields, whichever kind carries them.
    pub open spec fn fields(self) -> TxRequestFields {
        match self {
            TypedTransaction::Eip1559(f) => f,
            TypedTransaction::Legacy(f) => f,
            TypedTransaction::Eip2930(f) => f,
        }
    }
}

/// Talks to one bundler relay on behalf of one sender account.
pub struct UserOpMiddleware {
    pub entry_point_address: Address,
    pub rpc_address: String,
    pub chain_id: u64,
    pub wallet_map: WalletMap,
    pub sender: Address,
    pub validator: Address,
    pub factory: Address,
    pub bootstrap: Address,
}

impl UserOpMiddleware {
    /// A client for the given relay, entry point and chain. The wallet map
    /// starts with the default account implementation under the zero
    /// address.
    pub fn new(
        entry_point_address: Address,
        rpc_address: String,
        chain_id: u64,
        sender: Address,
        validator: Address,
        factory: Address,
        bootstrap: Address,
    ) -> (r: Self)
        ensures
            r.entry_point_address@ == entry_point_address@,
            r.rpc_address@ == rpc_address@,
            r.chain_id == chain_id,
            r.wallet_map@.len() == 1,
            r.wallet_map@[0].0@ == zero_bytes(20),
            r.wallet_map@[0].1 == WalletRegistry::SimpleAccount,
            r.sender@ == sender@,
            r.validator@ == validator@,
            r.factory@ == factory@,
            r.bootstrap@ == bootstrap@,
    {
        let mut wallet_map: WalletMap = Vec::new();
        wallet_map.push((Address::default(), WalletRegistry::SimpleAccount));
        UserOpMiddleware {
            entry_point_address,
            rpc_address,
            chain_id,
            wallet_map,
            sender,
            validator,
            factory,
            bootstrap,
        }
    }

    pub fn supported_entry_point(&self) -> (r: Address)
        ensures
            r@ == self.entry_point_address@,
    {
        self.entry_point_address.clone()
    }

    pub fn chain_id(&self) -> (r: u64)
        ensures
            r == self.chain_id,
    {
        self.chain_id
    }

    /// The 256-bit key under which the entry point keeps this client's
    /// nonce: the validator address padded into a word.
    pub fn nonce_key(&self) -> (r: U256)
        ensures
            r@ == nonce_key_bytes(self.validator@),
    {
        let mut bytes: Vec<u8> = Vec::new();
        append_zero_bytes(&mut bytes, 8);
        append_bytes(&mut bytes, self.validator.as_bytes().as_slice());
        append_zero_bytes(&mut bytes, 4);
        proof {
            assert(bytes@ =~= nonce_key_bytes(self.validator@));
        }
        match U256::from_be_bytes(bytes) {
            Some(v) => v,
            None => vstd::pervasive::unreached(),
        }
    }

    /// The calldata of the entry point's nonce query for this client's
    /// sender and validator key.
    pub fn get_nonce_calldata(&self) -> (r: Vec<u8>)
        ensures
            r@ == selector_of("getNonce(address,uint192)"@) + crate::abi::abi_address_word(
                self.sender@,
            ) + nonce_key_bytes(self.validator@),
    {
        let mut out: Vec<u8> = Vec::new();
        let digest = crate::keccak::keccak256("getNonce(address,uint192)".as_bytes());
        let mut k: usize = 0;
        while k < 4
            invariant
                k <= 4,
                digest@ == crate::keccak::keccak_of(
                    encode_utf8("getNonce(address,uint192)"@),
                ),
                digest@.len() == 32,
                out@ =~= digest@.subrange(0, k as int),
            decreases 4 - k,
        {
            out.push(digest[k]);
            proof {
                assert(out@ =~= digest@.subrange(0, k as int + 1));
            }
            k = k + 1;
        }
        crate::abi::append_address_word(&mut out, &self.sender);
        let key = self.nonce_key();
        crate::abi::append_u256_word(&mut out, &key);
        proof {
            assert(out@ =~= selector_of("getNonce(address,uint192)"@)
                + crate::abi::abi_address_word(self.sender@) + nonce_key_bytes(self.validator@));
        }
        out
    }

    /// The calldata that makes the sender account transfer `value` wei to
    /// `to_address`: a single-call dispatch with the zero mode tag and the
    /// transfer envelope.
    pub fn calldata_gen_send_eth(&self, to_address: Address, value: U256) -> (r: Result<
        Vec<u8>,
        UserOpMiddlewareError,
    >)
        ensures
            r matches Ok(c) && c@ == mode_execute_call_bytes(
                zero_bytes(32),
                transfer_envelope(to_address@, value@),
            ),
    {
        let mut mode: Vec<u8> = Vec::new();
        append_zero_bytes(&mut mode, 32);
        let mut envelope: Vec<u8> = Vec::new();
        append_bytes(&mut envelope, to_address.as_bytes().as_slice());
        append_bytes(&mut envelope, value.as_be_bytes().as_slice());
        envelope.push(0u8);
        proof {
            assert(envelope@ =~= transfer_envelope(to_address@, value@));
        }
        Ok(encode_mode_execute(&mode, &envelope))
    }

    /// The request envelope of the relay's gas-estimation method.
    pub fn estimate_user_operation_gas_request(
        &self,
        user_operation: &UserOperationPartial,
    ) -> (r: Request<(UserOperationPartial, Address)>)
        ensures
            r.jsonrpc@ == "2.0"@,
            r.id == 1,
            r.method@ == "eth_estimateUserOperationGas"@,
            partial_view_eq(r.params.0, *user_operation),
            r.params.1@ == self.entry_point_address@,
    {
        Request {
            jsonrpc: String::from_str("2.0"),
            id: 1,
            method: String::from_str("eth_estimateUserOperationGas"),
            params: (user_operation.clone(), self.entry_point_address.clone()),
        }
    }

    /// The request envelope of the relay's submission method.
    pub fn send_user_operation_request(&self, user_operation: &UserOperationPartial) -> (r:
        Request<(UserOperationPartial, Address)>)
        ensures
            r.jsonrpc@ == "2.0"@,
            r.id == 1,
            r.method@ == "eth_sendUserOperation"@,
            partial_view_eq(r.params.0, *user_operation),
            r.params.1@ == self.entry_point_address@,
    {
        Request {
            jsonrpc: String::from_str("2.0"),
            id: 1,
            method: String::from_str("eth_sendUserOperation"),
            params: (user_operation.clone(), self.entry_point_address.clone()),
        }
    }

    /// The request envelope of the relay's receipt lookup.
    pub fn get_user_operation_receipt_request(&self, user_operation_hash: &UserOperationHash)
        -> (r: Request<Vec<UserOperationHash>>)
        ensures
            r.jsonrpc@ == "2.0"@,
            r.id == 1,
            r.method@ == "eth_getUserOperationReceipt"@,
            r.params@.len() == 1,
            r.params@[0]@ == user_operation_hash@,
    {
        let mut params: Vec<UserOperationHash> = Vec::new();
        params.push(user_operation_hash.clone());
        Request {
            jsonrpc: String::from_str("2.0"),
            id: 1,
            method: String::from_str("eth_getUserOperationReceipt"),
            params,
        }
    }

    /// The request envelope of the relay's by-hash lookup.
    pub fn get_user_operation_by_hash_request(&self, user_operation_hash: &UserOperationHash)
        -> (r: Request<Vec<UserOperationHash>>)
        ensures
            r.jsonrpc@ == "2.0"@,
            r.id == 1,
            r.method@ == "eth_getUserOperationByHash"@,
            r.params@.len() == 1,
            r.params@[0]@ == user_operation_hash@,
    {
        let mut params: Vec<UserOperationHash> = Vec::new();
        params.push(user_operation_hash.clone());
        Request {
            jsonrpc: String::from_str("2.0"),
            id: 1,
            method: String::from_str("eth_getUserOperationByHash"),
            params,
        }
    }

    /// The request envelope of the relay's entry-point listing; it takes no
    /// parameters.
    pub fn ask_supported_entry_point_request(&self) -> (r: Request<()>)
        ensures
            r.jsonrpc@ == "2.0"@,
            r.id == 1,
            r.method@ == "eth_supportedEntryPoints"@,
    {
        Request {
            jsonrpc: String::from_str("2.0"),
            id: 1,
            method: String::from_str("eth_supportedEntryPoints"),
            params: (),
        }
    }

    /// Resolves a parsed relay reply: a success envelope passes through
    /// unchanged, an error envelope is classified by its message.
    pub fn handle_response<R>(&self, reply: RelayReply<R>) -> (r: Result<
        Response<R>,
        UserOpMiddlewareError,
    >)
        ensures
            match reply {
                RelayReply::Success(response) => r matches Ok(out) && out == response,
                RelayReply::Error(response) => r matches Err(e) && e == classify_spec(
                    encode_utf8(response.error.message@),
                ),
            },
    {
        match reply {
            RelayReply::Success(response) => Ok(response),
            RelayReply::Error(response) => Err(self.handle_error_response(&response)),
        }
    }

    /// Classifies the message of a parsed relay error envelope.
    pub fn handle_error_response(&self, response: &ErrorResponse) -> (r: UserOpMiddlewareError)
        ensures
            r == classify_spec(encode_utf8(response.error.message@)),
    {
        classify_relay_error(response.error.message.as_str())
    }

    /// The ready-to-estimate transfer operation: sender, nonce and calldata
    /// filled in, every gas and fee field holding the coarse placeholder,
    /// an empty signature, and no factory or paymaster data.
    pub fn transfer_partial_template(&self, nonce: U256, calldata: Vec<u8>) -> (r:
        UserOperationPartial)
        ensures
            option_view_eq(r.sender, Some(self.sender)),
            option_view_eq(r.nonce, Some(nonce)),
            r.factory is None,
            r.factory_data is None,
            option_view_eq(r.call_data, Some(calldata)),
            r.call_gas_limit matches Some(v) && v@ == gas_placeholder(),
            r.verification_gas_limit matches Some(v) && v@ == gas_placeholder(),
            r.pre_verification_gas matches Some(v) && v@ == gas_placeholder(),
            r.max_fee_per_gas matches Some(v) && v@ == gas_placeholder(),
            r.max_priority_fee_per_gas matches Some(v) && v@ == gas_placeholder(),
            r.paymaster is None,
            r.paymaster_verification_gas_limit is None,
            r.paymaster_post_op_gas_limit is None,
            r.paymaster_data is None,
            r.signature matches Some(sig) && sig@ == Seq::<u8>::empty(),
    {
        UserOperationPartial {
            sender: Some(self.sender.clone()),
            nonce: Some(nonce),
            factory: None,
            factory_data: None,
            call_data: Some(calldata),
            call_gas_limit: Some(U256::from_u64(1_000_000_000)),
            verification_gas_limit: Some(U256::from_u64(1_000_000_000)),
            pre_verification_gas: Some(U256::from_u64(1_000_000_000)),
            max_fee_per_gas: Some(U256::from_u64(1_000_000_000)),
            max_priority_fee_per_gas: Some(U256::from_u64(1_000_000_000)),
            paymaster: None,
            paymaster_verification_gas_limit: None,
            paymaster_post_op_gas_limit: None,
            paymaster_data: None,
            signature: Some(Vec::new()),
        }
    }

    /// Overwrites the placeholder gas and fee fields with the relay's
    /// estimate and the sampled fee averages; everything else is kept.
    pub fn apply_gas_estimates(
        &self,
        user_operation: UserOperationPartial,
        estimate: &EstimateResult,
        max_fee_per_gas: U256,
        max_priority_fee_per_gas: U256,
    ) -> (r: UserOperationPartial)
        ensures
            r.call_gas_limit matches Some(v) && v@ == estimate.call_gas_limit@,
            r.verification_gas_limit matches Some(v) && v@ == estimate.verification_gas_limit@,
            r.pre_verification_gas matches Some(v) && v@ == estimate.pre_verification_gas@,
            r.max_fee_per_gas matches Some(v) && v@ == max_fee_per_gas@,
            r.max_priority_fee_per_gas matches Some(v) && v@ == max_priority_fee_per_gas@,
            r.sender == user_operation.sender,
            r.nonce == user_operation.nonce,
            r.factory == user_operation.factory,
            r.factory_data == user_operation.factory_data,
            r.call_data == user_operation.call_data,
            r.paymaster == user_operation.paymaster,
            r.paymaster_verification_gas_limit
                == user_operation.paymaster_verification_gas_limit,
            r.paymaster_post_op_gas_limit == user_operation.paymaster_post_op_gas_limit,
            r.paymaster_data == user_operation.paymaster_data,
            r.signature == user_operation.signature,
    {
        UserOperationPartial {
            call_gas_limit: Some(estimate.call_gas_limit.clone()),
            verification_gas_limit: Some(estimate.verification_gas_limit.clone()),
            pre_verification_gas: Some(estimate.pre_verification_gas.clone()),
            max_fee_per_gas: Some(max_fee_per_gas),
            max_priority_fee_per_gas: Some(max_priority_fee_per_gas),
            ..user_operation
        }
    }

    /// Lifts calldata, destination and value out of a transaction-request
    /// envelope, whichever of the three kinds it is.
    pub fn uo_calldata_from_tx(&self, tx: &TypedTransaction) -> (r: Result<
        (Vec<u8>, Address, U256),
        UserOpMiddlewareError,
    >)
        requires
            tx.fields().data is Some,
            tx.fields().to is Some,
            tx.fields().value is Some,
        ensures
            r matches Ok(t) && t.0@ == tx.fields().data->0@ && t.1@ == tx.fields().to->0@
                && t.2@ == tx.fields().value->0@,
    {
        let fields = match tx {
            TypedTransaction::Eip1559(f) => f,
            TypedTransaction::Legacy(f) => f,
            TypedTransaction::Eip2930(f) => f,
        };
        let calldata = match &fields.data {
            Some(d) => crate::bytesnat::clone_bytes(d),
            None => vstd::pervasive::unreached(),
        };
        let dest = match &fields.to {
            Some(a) => a.clone(),
            None => vstd::pervasive::unreached(),
        };
        let value = match &fields.value {
            Some(v) => v.clone(),
            None => vstd::pervasive::unreached(),
        };
        Ok((calldata, dest, value))
    }

    /// A builder for this client's sender under a fresh random salt.
    pub fn build_random_uo_builder(&self, wallet_name: &str) -> (r: Result<
        UserOperationBuilder,
        UserOpBuilderError,
    >)
        ensures
            simple_wallet_label(wallet_name@) ==> (r matches Ok(b) && b.signer_address@
                == self.sender@ && b.salt is Some && b.scw_address is None),
            !simple_wallet_label(wallet_name@) ==> r is Err,
    {
        let salt = random_u64();
        UserOperationBuilder::new(self.sender.clone(), wallet_name, None, Some(salt))
    }

    /// The 32-byte payload a signer must sign for this operation on this
    /// client's entry point and chain.
    pub fn signing_payload(&self, user_operation: &UserOperation) -> (r: UserOperationHash)
        requires
            packable(*user_operation),
        ensures
            r@ == operation_hash(
                *user_operation,
                self.entry_point_address@,
                be_bytes(self.chain_id as nat, 32),
            ),
    {
        let chain = U256::from_u64(self.chain_id);
        user_operation.hash(&self.entry_point_address, &chain)
    }

    /// The mean fee pair over a block's sampled transactions; an empty
    /// sample is an error, never a zero pair.
    pub fn get_gas_fee(&self, transactions: &Vec<TxFeeSample>) -> (r: Result<
        (U256, U256),
        UserOpMiddlewareError,
    >)
        requires
            fee_sum(transactions@) < crate::bytesnat::pow256(32),
            prio_sum(transactions@) < crate::bytesnat::pow256(32),
        ensures
            match r {
                Ok(avg) => {
                    &&& fee_count(transactions@) > 0
                    &&& avg.0.nat_of() == fee_sum(transactions@) / fee_count(transactions@)
                    &&& avg.1.nat_of() == prio_sum(transactions@) / fee_count(transactions@)
                },
                Err(e) => fee_count(transactions@) == 0 && e
                    == UserOpMiddlewareError::EmptyFeeSampleError,
            },
    {
        average_gas_fees(transactions)
    }
}

} // verus!
