//! The user-operation record, its builder-time partial counterpart, its
//! signature-free packing view and its 32-byte hash.
use crate::address::Address;
use crate::bytesnat::{clone_bytes, zero_bytes};
use crate::errors::FromHexError;
use crate::h256::H256;
use crate::hex::{hex_bytes, is_hex_digit, strip_hex_prefix};
use crate::keccak::{keccak256, keccak_of};
use crate::u256::U256;
use vstd::prelude::*;

verus! {

/// The unit submitted to the relay. Every field is present once finalized;
/// byte fields default to empty, the paymaster to the `"0x"` sentinel.
pub struct UserOperation {
    pub sender: Address,
    pub nonce: U256,
    pub factory: Address,
    pub factory_data: Vec<u8>,
    pub call_data: Vec<u8>,
    pub call_gas_limit: U256,
    pub verification_gas_limit: U256,
    pub pre_verification_gas: U256,
    pub max_fee_per_gas: U256,
    pub max_priority_fee_per_gas: U256,
    pub paymaster: String,
    pub paymaster_verification_gas_limit: U256,
    pub paymaster_post_op_gas_limit: U256,
    pub paymaster_data: Vec<u8>,
    pub signature: Vec<u8>,
}

/// The same record with every field optional, accumulated by the builder.
pub struct UserOperationPartial {
    pub sender: Option<Address>,
    pub nonce: Option<U256>,
    pub factory: Option<Address>,
    pub factory_data: Option<Vec<u8>>,
    pub call_data: Option<Vec<u8>>,
    pub call_gas_limit: Option<U256>,
    pub verification_gas_limit: Option<U256>,
    pub pre_verification_gas: Option<U256>,
    pub max_fee_per_gas: Option<U256>,
    pub max_priority_fee_per_gas: Option<U256>,
    pub paymaster: Option<String>,
    pub paymaster_verification_gas_limit: Option<U256>,
    pub paymaster_post_op_gas_limit: Option<U256>,
    pub paymaster_data: Option<Vec<u8>>,
    pub signature: Option<Vec<u8>>,
}

/// The packing view of an operation: every field but the signature, with the
/// call data replaced by its digest. Built only to be encoded and hashed.
pub struct UserOperationUnsigned {
    pub sender: Address,
    pub nonce: U256,
    pub factory: Address,
    pub factory_data: Vec<u8>,
    pub call_data: Vec<u8>,
    pub call_gas_limit: U256,
    pub verification_gas_limit: U256,
    pub pre_verification_gas: U256,
    pub max_fee_per_gas: U256,
    pub max_priority_fee_per_gas: U256,
    pub paymaster: String,
    pub paymaster_verification_gas_limit: U256,
    pub paymaster_post_op_gas_limit: U256,
    pub paymaster_data: Vec<u8>,
}

/// The hash that identifies an operation to signers and to the relay.
#[derive(Debug, Hash)]
pub struct UserOperationHash(pub H256);

impl View for UserOperationHash {
    type V = Seq<u8>;

    open spec fn view(&self) -> Seq<u8> {
        self.0@
    }
}

impl UserOperationHash {
    pub fn zero() -> (r: UserOperationHash)
        ensures
            r@ == zero_bytes(32),
    {
        UserOperationHash(H256::zero())
    }

    pub fn repeat_byte(byte: u8) -> (r: UserOperationHash)
        ensures
            r@ == Seq::new(32, |i: int| byte),
    {
        UserOperationHash(H256::repeat_byte(byte))
    }

    /// Copies a 32-byte slice.
    pub fn from_slice(src: &[u8]) -> (r: UserOperationHash)
        requires
            src@.len() == 32,
        ensures
            r@ == src@,
    {
        UserOperationHash(H256::from_slice(src))
    }

    /// Overwrites the value with a 32-byte slice.
    pub fn assign_from_slice(&mut self, src: &[u8])
        requires
            src@.len() == 32,
        ensures
            final(self)@ == src@,
    {
        self.0.assign_from_slice(src);
    }

    /// Decodes a 64-hex-digit string, with or without a `0x` prefix, with
    /// the same error reporting as the underlying hash decoding.
    pub fn from_str(s: &str) -> (r: Result<UserOperationHash, FromHexError>)
        ensures
            ({
                let t = strip_hex_prefix(s@);
                let win = if t.len() < 64 { t.len() as int } else { 64int };
                match r {
                    Ok(h) => t.len() == 64 && (forall|j: int| 0 <= j < 64 ==> is_hex_digit(t[j]))
                        && h@ == hex_bytes(t) && h@.len() == 32,
                    Err(FromHexError::InvalidHexCharacter(c, idx)) => 0 <= idx < win
                        && !is_hex_digit(t[idx as int]) && c == t[idx as int] && (forall|j: int|
                        0 <= j < idx ==> is_hex_digit(t[j])),
                    Err(FromHexError::InvalidHexLength) => t.len() != 64 && (forall|j: int|
                        0 <= j < win ==> is_hex_digit(t[j])),
                }
            }),
    {
        match H256::from_str(s) {
            Ok(h) => Ok(UserOperationHash(h)),
            Err(e) => Err(e),
        }
    }

    pub fn as_fixed_bytes(&self) -> (r: &Vec<u8>)
        ensures
            r@ == self@,
            r@.len() == 32,
    {
        self.0.as_bytes()
    }
}

impl Clone for UserOperationHash {
    fn clone(&self) -> (r: Self)
        ensures
            r@ == self@,
    {
        UserOperationHash(self.0.clone())
    }
}

impl vstd::std_specs::cmp::PartialEqSpecImpl for UserOperationHash {
    open spec fn obeys_eq_spec() -> bool {
        true
    }

    open spec fn eq_spec(&self, other: &UserOperationHash) -> bool {
        self@ == other@
    }
}

impl PartialEq for UserOperationHash {
    fn eq(&self, other: &UserOperationHash) -> (r: bool) {
        crate::bytesnat::bytes_eq(self.0.as_bytes(), other.0.as_bytes())
    }
}

impl Eq for UserOperationHash {

}

/// The operation with its signature replaced.
pub open spec fn with_signature(op: UserOperation, signature: Vec<u8>) -> UserOperation {
    UserOperation { signature, ..op }
}

impl UserOperation {
    /// An operation with zero addresses and integers, empty byte fields and
    /// the `"0x"` paymaster sentinel.
    pub fn empty() -> (r: UserOperation)
        ensures
            r.sender@ == zero_bytes(20),
            r.nonce@ == zero_bytes(32),
            r.factory@ == zero_bytes(20),
            r.factory_data@ == Seq::<u8>::empty(),
            r.call_data@ == Seq::<u8>::empty(),
            r.call_gas_limit@ == zero_bytes(32),
            r.verification_gas_limit@ == zero_bytes(32),
            r.pre_verification_gas@ == zero_bytes(32),
            r.max_fee_per_gas@ == zero_bytes(32),
            r.max_priority_fee_per_gas@ == zero_bytes(32),
            r.paymaster@ == "0x"@,
            r.paymaster_verification_gas_limit@ == zero_bytes(32),
            r.paymaster_post_op_gas_limit@ == zero_bytes(32),
            r.paymaster_data@ == Seq::<u8>::empty(),
            r.signature@ == Seq::<u8>::empty(),
    {
        UserOperation {
            sender: Address::zero(),
            nonce: U256::zero(),
            factory: Address::zero(),
            factory_data: Vec::new(),
            call_data: Vec::new(),
            call_gas_limit: U256::zero(),
            verification_gas_limit: U256::zero(),
            pre_verification_gas: U256::zero(),
            max_fee_per_gas: U256::zero(),
            max_priority_fee_per_gas: U256::zero(),
            paymaster: String::from_str("0x"),
            paymaster_verification_gas_limit: U256::zero(),
            paymaster_post_op_gas_limit: U256::zero(),
            paymaster_data: Vec::new(),
            signature: Vec::new(),
        }
    }

    /// The permissive conversion: absent fields become the zero address, the
    /// zero integer, empty bytes, or the `"0x"` paymaster sentinel.
    pub fn from_partial(partial: UserOperationPartial) -> (r: UserOperation)
        ensures
            r.sender@ == (match partial.sender {
                Some(v) => v@,
                None => zero_bytes(20),
            }),
            r.nonce@ == (match partial.nonce {
                Some(v) => v@,
                None => zero_bytes(32),
            }),
            r.factory@ == (match partial.factory {
                Some(v) => v@,
                None => zero_bytes(20),
            }),
            r.factory_data@ == (match partial.factory_data {
                Some(v) => v@,
                None => Seq::<u8>::empty(),
            }),
            r.call_data@ == (match partial.call_data {
                Some(v) => v@,
                None => Seq::<u8>::empty(),
            }),
            r.call_gas_limit@ == (match partial.call_gas_limit {
                Some(v) => v@,
                None => zero_bytes(32),
            }),
            r.verification_gas_limit@ == (match partial.verification_gas_limit {
                Some(v) => v@,
                None => zero_bytes(32),
            }),
            r.pre_verification_gas@ == (match partial.pre_verification_gas {
                Some(v) => v@,
                None => zero_bytes(32),
            }),
            r.max_fee_per_gas@ == (match partial.max_fee_per_gas {
                Some(v) => v@,
                None => zero_bytes(32),
            }),
            r.max_priority_fee_per_gas@ == (match partial.max_priority_fee_per_gas {
                Some(v) => v@,
                None => zero_bytes(32),
            }),
            r.paymaster@ == (match partial.paymaster {
                Some(v) => v@,
                None => "0x"@,
            }),
            r.paymaster_verification_gas_limit@ == (match partial.paymaster_verification_gas_limit {
                Some(v) => v@,
                None => zero_bytes(32),
            }),
            r.paymaster_post_op_gas_limit@ == (match partial.paymaster_post_op_gas_limit {
                Some(v) => v@,
                None => zero_bytes(32),
            }),
            r.paymaster_data@ == (match partial.paymaster_data {
                Some(v) => v@,
                None => Seq::<u8>::empty(),
            }),
            r.signature@ == (match partial.signature {
                Some(v) => v@,
                None => Seq::<u8>::empty(),
            }),
    {
        UserOperation {
            sender: match partial.sender {
                Some(v) => v,
                None => Address::zero(),
            },
            nonce: match partial.nonce {
                Some(v) => v,
                None => U256::zero(),
            },
            factory: match partial.factory {
                Some(v) => v,
                None => Address::zero(),
            },
            factory_data: match partial.factory_data {
                Some(v) => v,
                None => Vec::new(),
            },
            call_data: match partial.call_data {
                Some(v) => v,
                None => Vec::new(),
            },
            call_gas_limit: match partial.call_gas_limit {
                Some(v) => v,
                None => U256::zero(),
            },
            verification_gas_limit: match partial.verification_gas_limit {
                Some(v) => v,
                None => U256::zero(),
            },
            pre_verification_gas: match partial.pre_verification_gas {
                Some(v) => v,
                None => U256::zero(),
            },
            max_fee_per_gas: match partial.max_fee_per_gas {
                Some(v) => v,
                None => U256::zero(),
            },
            max_priority_fee_per_gas: match partial.max_priority_fee_per_gas {
                Some(v) => v,
                None => U256::zero(),
            },
            paymaster: match partial.paymaster {
                Some(v) => v,
                None => String::from_str("0x"),
            },
            paymaster_verification_gas_limit: match partial.paymaster_verification_gas_limit {
                Some(v) => v,
                None => U256::zero(),
            },
            paymaster_post_op_gas_limit: match partial.paymaster_post_op_gas_limit {
                Some(v) => v,
                None => U256::zero(),
            },
            paymaster_data: match partial.paymaster_data {
                Some(v) => v,
                None => Vec::new(),
            },
            signature: match partial.signature {
                Some(v) => v,
                None => Vec::new(),
            },
        }
    }

    pub fn sender(self, sender: Address) -> (r: Self)
        ensures
            r == (UserOperation { sender, ..self }),
    {
        UserOperation { sender, ..self }
    }

    pub fn nonce(self, nonce: U256) -> (r: Self)
        ensures
            r == (UserOperation { nonce, ..self }),
    {
        UserOperation { nonce, ..self }
    }

    pub fn factory(self, factory: Address) -> (r: Self)
        ensures
            r == (UserOperation { factory, ..self }),
    {
        UserOperation { factory, ..self }
    }

    pub fn factory_data(self, factory_data: Vec<u8>) -> (r: Self)
        ensures
            r == (UserOperation { factory_data, ..self }),
    {
        UserOperation { factory_data, ..self }
    }

    pub fn call_data(self, call_data: Vec<u8>) -> (r: Self)
        ensures
            r == (UserOperation { call_data, ..self }),
    {
        UserOperation { call_data, ..self }
    }

    pub fn call_gas_limit(self, call_gas_limit: U256) -> (r: Self)
        ensures
            r == (UserOperation { call_gas_limit, ..self }),
    {
        UserOperation { call_gas_limit, ..self }
    }

    pub fn verification_gas_limit(self, verification_gas_limit: U256) -> (r: Self)
        ensures
            r == (UserOperation { verification_gas_limit, ..self }),
    {
        UserOperation { verification_gas_limit, ..self }
    }

    pub fn pre_verification_gas(self, pre_verification_gas: U256) -> (r: Self)
        ensures
            r == (UserOperation { pre_verification_gas, ..self }),
    {
        UserOperation { pre_verification_gas, ..self }
    }

    pub fn max_fee_per_gas(self, max_fee_per_gas: U256) -> (r: Self)
        ensures
            r == (UserOperation { max_fee_per_gas, ..self }),
    {
        UserOperation { max_fee_per_gas, ..self }
    }

    pub fn max_priority_fee_per_gas(self, max_priority_fee_per_gas: U256) -> (r: Self)
        ensures
            r == (UserOperation { max_priority_fee_per_gas, ..self }),
    {
        UserOperation { max_priority_fee_per_gas, ..self }
    }

    pub fn paymaster(self, paymaster: String) -> (r: Self)
        ensures
            r == (UserOperation { paymaster, ..self }),
    {
        UserOperation { paymaster, ..self }
    }

    pub fn paymaster_verification_gas_limit(self, paymaster_verification_gas_limit: U256) -> (r:
        Self)
        ensures
            r == (UserOperation { paymaster_verification_gas_limit, ..self }),
    {
        UserOperation { paymaster_verification_gas_limit, ..self }
    }

    pub fn paymaster_post_op_gas_limit(self, paymaster_post_op_gas_limit: U256) -> (r: Self)
        ensures
            r == (UserOperation { paymaster_post_op_gas_limit, ..self }),
    {
        UserOperation { paymaster_post_op_gas_limit, ..self }
    }

    pub fn paymaster_data(self, paymaster_data: Vec<u8>) -> (r: Self)
        ensures
            r == (UserOperation { paymaster_data, ..self }),
    {
        UserOperation { paymaster_data, ..self }
    }

    pub fn signature(self, signature: Vec<u8>) -> (r: Self)
        ensures
            r == with_signature(self, signature),
    {
        UserOperation { signature, ..self }
    }
}

impl UserOperationUnsigned {
    /// The packing view of an operation: the signature is dropped and the
    /// call data is replaced by its Keccak-256 digest.
    pub fn from_operation(op: &UserOperation) -> (r: UserOperationUnsigned)
        ensures
            r.sender@ == op.sender@,
            r.nonce@ == op.nonce@,
            r.factory@ == op.factory@,
            r.factory_data@ == op.factory_data@,
            r.call_data@ == keccak_of(op.call_data@),
            r.call_data@.len() == 32,
            r.call_gas_limit@ == op.call_gas_limit@,
            r.verification_gas_limit@ == op.verification_gas_limit@,
            r.pre_verification_gas@ == op.pre_verification_gas@,
            r.max_fee_per_gas@ == op.max_fee_per_gas@,
            r.max_priority_fee_per_gas@ == op.max_priority_fee_per_gas@,
            r.paymaster@ == op.paymaster@,
            r.paymaster_verification_gas_limit@ == op.paymaster_verification_gas_limit@,
            r.paymaster_post_op_gas_limit@ == op.paymaster_post_op_gas_limit@,
            r.paymaster_data@ == op.paymaster_data@,
    {
        UserOperationUnsigned {
            sender: op.sender.clone(),
            nonce: op.nonce.clone(),
            factory: op.factory.clone(),
            factory_data: clone_bytes(&op.factory_data),
            call_data: keccak256(op.call_data.as_slice()),
            call_gas_limit: op.call_gas_limit.clone(),
            verification_gas_limit: op.verification_gas_limit.clone(),
            pre_verification_gas: op.pre_verification_gas.clone(),
            max_fee_per_gas: op.max_fee_per_gas.clone(),
            max_priority_fee_per_gas: op.max_priority_fee_per_gas.clone(),
            paymaster: op.paymaster.clone(),
            paymaster_verification_gas_limit: op.paymaster_verification_gas_limit.clone(),
            paymaster_post_op_gas_limit: op.paymaster_post_op_gas_limit.clone(),
            paymaster_data: clone_bytes(&op.paymaster_data),
        }
    }
}

/// The two options hold the same variant, and their contents have one view.
pub open spec fn option_view_eq<T: View>(a: Option<T>, b: Option<T>) -> bool {
    match (a, b) {
        (Some(x), Some(y)) => x@ == y@,
        (None, None) => true,
        _ => false,
    }
}

impl Clone for UserOperation {
    fn clone(&self) -> (r: Self)
        ensures
            r.sender@ == self.sender@,
            r.nonce@ == self.nonce@,
            r.factory@ == self.factory@,
            r.factory_data@ == self.factory_data@,
            r.call_data@ == self.call_data@,
            r.call_gas_limit@ == self.call_gas_limit@,
            r.verification_gas_limit@ == self.verification_gas_limit@,
            r.pre_verification_gas@ == self.pre_verification_gas@,
            r.max_fee_per_gas@ == self.max_fee_per_gas@,
            r.max_priority_fee_per_gas@ == self.max_priority_fee_per_gas@,
            r.paymaster@ == self.paymaster@,
            r.paymaster_verification_gas_limit@ == self.paymaster_verification_gas_limit@,
            r.paymaster_post_op_gas_limit@ == self.paymaster_post_op_gas_limit@,
            r.paymaster_data@ == self.paymaster_data@,
            r.signature@ == self.signature@,
    {
        UserOperation {
            sender: self.sender.clone(),
            nonce: self.nonce.clone(),
            factory: self.factory.clone(),
            factory_data: clone_bytes(&self.factory_data),
            call_data: clone_bytes(&self.call_data),
            call_gas_limit: self.call_gas_limit.clone(),
            verification_gas_limit: self.verification_gas_limit.clone(),
            pre_verification_gas: self.pre_verification_gas.clone(),
            max_fee_per_gas: self.max_fee_per_gas.clone(),
            max_priority_fee_per_gas: self.max_priority_fee_per_gas.clone(),
            paymaster: self.paymaster.clone(),
            paymaster_verification_gas_limit: self.paymaster_verification_gas_limit.clone(),
            paymaster_post_op_gas_limit: self.paymaster_post_op_gas_limit.clone(),
            paymaster_data: clone_bytes(&self.paymaster_data),
            signature: clone_bytes(&self.signature),
        }
    }
}

/// The two partial operations hold the same fields with the same views.
pub open spec fn partial_view_eq(a: UserOperationPartial, b: UserOperationPartial) -> bool {
    &&& option_view_eq(a.sender, b.sender)
    &&& option_view_eq(a.nonce, b.nonce)
    &&& option_view_eq(a.factory, b.factory)
    &&& option_view_eq(a.factory_data, b.factory_data)
    &&& option_view_eq(a.call_data, b.call_data)
    &&& option_view_eq(a.call_gas_limit, b.call_gas_limit)
    &&& option_view_eq(a.verification_gas_limit, b.verification_gas_limit)
    &&& option_view_eq(a.pre_verification_gas, b.pre_verification_gas)
    &&& option_view_eq(a.max_fee_per_gas, b.max_fee_per_gas)
    &&& option_view_eq(a.max_priority_fee_per_gas, b.max_priority_fee_per_gas)
    &&& option_view_eq(a.paymaster, b.paymaster)
    &&& option_view_eq(a.paymaster_verification_gas_limit, b.paymaster_verification_gas_limit)
    &&& option_view_eq(a.paymaster_post_op_gas_limit, b.paymaster_post_op_gas_limit)
    &&& option_view_eq(a.paymaster_data, b.paymaster_data)
    &&& option_view_eq(a.signature, b.signature)
}

impl Clone for UserOperationPartial {
    fn clone(&self) -> (r: Self)
        ensures
            partial_view_eq(r, *self),
    {
        UserOperationPartial {
            sender: clone_option_address(&self.sender),
            nonce: clone_option_u256(&self.nonce),
            factory: clone_option_address(&self.factory),
            factory_data: clone_option_bytes(&self.factory_data),
            call_data: clone_option_bytes(&self.call_data),
            call_gas_limit: clone_option_u256(&self.call_gas_limit),
            verification_gas_limit: clone_option_u256(&self.verification_gas_limit),
            pre_verification_gas: clone_option_u256(&self.pre_verification_gas),
            max_fee_per_gas: clone_option_u256(&self.max_fee_per_gas),
            max_priority_fee_per_gas: clone_option_u256(&self.max_priority_fee_per_gas),
            paymaster: clone_option_string(&self.paymaster),
            paymaster_verification_gas_limit: clone_option_u256(
                &self.paymaster_verification_gas_limit,
            ),
            paymaster_post_op_gas_limit: clone_option_u256(&self.paymaster_post_op_gas_limit),
            paymaster_data: clone_option_bytes(&self.paymaster_data),
            signature: clone_option_bytes(&self.signature),
        }
    }
}

impl UserOperationPartial {
    /// A partial operation with no field set.
    pub fn empty() -> (r: UserOperationPartial)
        ensures
            r == (UserOperationPartial {
                sender: None,
                nonce: None,
                factory: None,
                factory_data: None,
                call_data: None,
                call_gas_limit: None,
                verification_gas_limit: None,
                pre_verification_gas: None,
                max_fee_per_gas: None,
                max_priority_fee_per_gas: None,
                paymaster: None,
                paymaster_verification_gas_limit: None,
                paymaster_post_op_gas_limit: None,
                paymaster_data: None,
                signature: None,
            }),
    {
        UserOperationPartial {
            sender: None,
            nonce: None,
            factory: None,
            factory_data: None,
            call_data: None,
            call_gas_limit: None,
            verification_gas_limit: None,
            pre_verification_gas: None,
            max_fee_per_gas: None,
            max_priority_fee_per_gas: None,
            paymaster: None,
            paymaster_verification_gas_limit: None,
            paymaster_post_op_gas_limit: None,
            paymaster_data: None,
            signature: None,
        }
    }
}

fn clone_option_bytes(v: &Option<Vec<u8>>) -> (r: Option<Vec<u8>>)
    ensures
        option_view_eq(r, *v),
{
    match v {
        Some(b) => Some(clone_bytes(b)),
        None => None,
    }
}

fn clone_option_address(v: &Option<Address>) -> (r: Option<Address>)
    ensures
        option_view_eq(r, *v),
{
    match v {
        Some(a) => Some(a.clone()),
        None => None,
    }
}

fn clone_option_u256(v: &Option<U256>) -> (r: Option<U256>)
    ensures
        option_view_eq(r, *v),
{
    match v {
        Some(a) => Some(a.clone()),
        None => None,
    }
}

fn clone_option_string(v: &Option<String>) -> (r: Option<String>)
    ensures
        option_view_eq(r, *v),
{
    match v {
        Some(a) => Some(a.clone()),
        None => None,
    }
}

/// A relay receipt for an included operation, as far as the plain fields go.
pub struct UserOperationReceipt {
    pub user_operation_hash: UserOperationHash,
    pub sender: Address,
    pub nonce: U256,
    pub paymaster: Option<Address>,
    pub actual_gas_cost: U256,
    pub actual_gas_used: U256,
    pub success: bool,
    pub reason: String,
}

/// A relay lookup result for an operation already known on chain.
pub struct UserOperationByHash {
    pub user_operation: UserOperation,
    pub entry_point: Address,
    pub transaction_hash: H256,
    pub block_hash: H256,
    pub block_number: u64,
}

/// The relay's gas estimate for an operation.
pub struct UserOperationGasEstimation {
    pub pre_verification_gas: U256,
    pub verification_gas_limit: U256,
    pub call_gas_limit: U256,
    pub paymaster_verification_gas_limit: U256,
    pub paymaster_post_op_gas_limit: U256,
}

} // verus!
