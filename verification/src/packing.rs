//! Canonical contract-ABI packing of an operation and its two-stage hash.
//!
//! The packing writes the fourteen signature-free fields as one ABI tuple:
//! a fourteen-word head holding the static words and the tail offsets of the
//! four dynamic fields, then the dynamic fields in declaration order. The
//! hash commits to that packing, the entry-point address and the chain id.
use crate::abi::{
    abi_address_word, abi_dyn_bytes, append_address_word, append_dyn_bytes, append_u256_word,
    append_u64_word, dyn_bytes_encoded_len, lemma_abi_dyn_bytes_len,
};
use crate::address::Address;
use crate::bytesnat::be_bytes;
use crate::h256::H256;
use crate::keccak::{keccak256, keccak_of};
use crate::u256::U256;
use crate::user_operation::{
    with_signature, UserOperation, UserOperationHash, UserOperationUnsigned,
};
use vstd::prelude::*;
use vstd::utf8::encode_utf8;

verus! {

/// The ABI tuple encoding of the fourteen signature-free fields, each given
/// as its byte view (the paymaster as its UTF-8 bytes, the call-data slot as
/// whatever bytes stand in it).
pub open spec fn packed_unsigned_fields(
    sender: Seq<u8>,
    nonce: Seq<u8>,
    factory: Seq<u8>,
    factory_data: Seq<u8>,
    call_data_slot: Seq<u8>,
    call_gas_limit: Seq<u8>,
    verification_gas_limit: Seq<u8>,
    pre_verification_gas: Seq<u8>,
    max_fee_per_gas: Seq<u8>,
    max_priority_fee_per_gas: Seq<u8>,
    paymaster: Seq<u8>,
    paymaster_verification_gas_limit: Seq<u8>,
    paymaster_post_op_gas_limit: Seq<u8>,
    paymaster_data: Seq<u8>,
) -> Seq<u8> {
    let fd = abi_dyn_bytes(factory_data);
    let cd = abi_dyn_bytes(call_data_slot);
    let pm = abi_dyn_bytes(paymaster);
    let pd = abi_dyn_bytes(paymaster_data);
    let off_fd: nat = 448;
    let off_cd: nat = off_fd + fd.len();
    let off_pm: nat = off_cd + cd.len();
    let off_pd: nat = off_pm + pm.len();
    abi_address_word(sender) + nonce + abi_address_word(factory) + be_bytes(off_fd, 32) + be_bytes(
        off_cd,
        32,
    ) + call_gas_limit + verification_gas_limit + pre_verification_gas + max_fee_per_gas
        + max_priority_fee_per_gas + be_bytes(off_pm, 32) + paymaster_verification_gas_limit
        + paymaster_post_op_gas_limit + be_bytes(off_pd, 32) + fd + cd + pm + pd
}

/// The encoding of a packing view.
pub open spec fn packed_unsigned(u: UserOperationUnsigned) -> Seq<u8> {
    packed_unsigned_fields(
        u.sender@,
        u.nonce@,
        u.factory@,
        u.factory_data@,
        u.call_data@,
        u.call_gas_limit@,
        u.verification_gas_limit@,
        u.pre_verification_gas@,
        u.max_fee_per_gas@,
        u.max_priority_fee_per_gas@,
        encode_utf8(u.paymaster@),
        u.paymaster_verification_gas_limit@,
        u.paymaster_post_op_gas_limit@,
        u.paymaster_data@,
    )
}

/// The canonical packing of an operation: the signature is left out and the
/// call data stands in as its Keccak-256 digest.
pub open spec fn packed_without_signature(op: UserOperation) -> Seq<u8> {
    packed_unsigned_fields(
        op.sender@,
        op.nonce@,
        op.factory@,
        op.factory_data@,
        keccak_of(op.call_data@),
        op.call_gas_limit@,
        op.verification_gas_limit@,
        op.pre_verification_gas@,
        op.max_fee_per_gas@,
        op.max_priority_fee_per_gas@,
        encode_utf8(op.paymaster@),
        op.paymaster_verification_gas_limit@,
        op.paymaster_post_op_gas_limit@,
        op.paymaster_data@,
    )
}

/// The operation hash: the packing's digest, hashed again together with the
/// entry-point address word and the chain id word, so the same operation
/// cannot be replayed against another entry point or chain.
pub open spec fn operation_hash(
    op: UserOperation,
    entry_point: Seq<u8>,
    chain_id: Seq<u8>,
) -> Seq<u8> {
    keccak_of(
        keccak_of(packed_without_signature(op)) + abi_address_word(entry_point) + chain_id,
    )
}

/// The ABI tuple encoding of all fifteen fields, the call data and the
/// signature included as they stand: a fifteen-word head, then the five
/// dynamic fields in declaration order.
pub open spec fn packed_full(op: UserOperation) -> Seq<u8> {
    let fd = abi_dyn_bytes(op.factory_data@);
    let cd = abi_dyn_bytes(op.call_data@);
    let pm = abi_dyn_bytes(encode_utf8(op.paymaster@));
    let pd = abi_dyn_bytes(op.paymaster_data@);
    let sig = abi_dyn_bytes(op.signature@);
    let off_fd: nat = 480;
    let off_cd: nat = off_fd + fd.len();
    let off_pm: nat = off_cd + cd.len();
    let off_pd: nat = off_pm + pm.len();
    let off_sig: nat = off_pd + pd.len();
    abi_address_word(op.sender@) + op.nonce@ + abi_address_word(op.factory@) + be_bytes(
        off_fd,
        32,
    ) + be_bytes(off_cd, 32) + op.call_gas_limit@ + op.verification_gas_limit@
        + op.pre_verification_gas@ + op.max_fee_per_gas@ + op.max_priority_fee_per_gas@
        + be_bytes(off_pm, 32) + op.paymaster_verification_gas_limit@
        + op.paymaster_post_op_gas_limit@ + be_bytes(off_pd, 32) + be_bytes(off_sig, 32) + fd
        + cd + pm + pd + sig
}

/// The machine bound under which the packing's offsets cannot overflow.
pub open spec fn encodable_unsigned(u: UserOperationUnsigned) -> bool {
    &&& u.factory_data@.len() <= 0x1000_0000
    &&& u.call_data@.len() <= 0x1000_0000
    &&& encode_utf8(u.paymaster@).len() <= 0x1000_0000
    &&& u.paymaster_data@.len() <= 0x1000_0000
}

/// The machine bound under which an operation can be packed.
pub open spec fn packable(op: UserOperation) -> bool {
    &&& op.factory_data@.len() <= 0x1000_0000
    &&& encode_utf8(op.paymaster@).len() <= 0x1000_0000
    &&& op.paymaster_data@.len() <= 0x1000_0000
}

/// The machine bound under which all fifteen fields can be packed.
pub open spec fn packable_full(op: UserOperation) -> bool {
    &&& packable(op)
    &&& op.call_data@.len() <= 0x1000_0000
    &&& op.signature@.len() <= 0x1000_0000
}

impl UserOperationUnsigned {
    /// The ABI tuple encoding of this packing view.
    pub fn encode(&self) -> (r: Vec<u8>)
        requires
            encodable_unsigned(*self),
        ensures
            r@ == packed_unsigned(*self),
    {
        let pm_bytes: &[u8] = self.paymaster.as_str().as_bytes();
        let fd_enc_len = dyn_bytes_encoded_len(self.factory_data.len());
        let cd_enc_len = dyn_bytes_encoded_len(self.call_data.len());
        let pm_enc_len = dyn_bytes_encoded_len(pm_bytes.len());
        let off_fd: usize = 448;
        let off_cd: usize = off_fd + fd_enc_len;
        let off_pm: usize = off_cd + cd_enc_len;
        let off_pd: usize = off_pm + pm_enc_len;
        proof {
            lemma_abi_dyn_bytes_len(self.factory_data@);
            lemma_abi_dyn_bytes_len(self.call_data@);
            lemma_abi_dyn_bytes_len(encode_utf8(self.paymaster@));
        }
        let mut out: Vec<u8> = Vec::new();
        append_address_word(&mut out, &self.sender);
        append_u256_word(&mut out, &self.nonce);
        append_address_word(&mut out, &self.factory);
        append_u64_word(&mut out, off_fd as u64);
        append_u64_word(&mut out, off_cd as u64);
        append_u256_word(&mut out, &self.call_gas_limit);
        append_u256_word(&mut out, &self.verification_gas_limit);
        append_u256_word(&mut out, &self.pre_verification_gas);
        append_u256_word(&mut out, &self.max_fee_per_gas);
        append_u256_word(&mut out, &self.max_priority_fee_per_gas);
        append_u64_word(&mut out, off_pm as u64);
        append_u256_word(&mut out, &self.paymaster_verification_gas_limit);
        append_u256_word(&mut out, &self.paymaster_post_op_gas_limit);
        append_u64_word(&mut out, off_pd as u64);
        append_dyn_bytes(&mut out, self.factory_data.as_slice());
        append_dyn_bytes(&mut out, self.call_data.as_slice());
        append_dyn_bytes(&mut out, pm_bytes);
        append_dyn_bytes(&mut out, self.paymaster_data.as_slice());
        proof {
            assert(out@ =~= packed_unsigned(*self));
        }
        out
    }
}

impl UserOperation {
    /// The ABI tuple encoding of the whole operation, signature included.
    pub fn pack(&self) -> (r: Vec<u8>)
        requires
            packable_full(*self),
        ensures
            r@ == packed_full(*self),
    {
        let pm_bytes: &[u8] = self.paymaster.as_str().as_bytes();
        let fd_enc_len = dyn_bytes_encoded_len(self.factory_data.len());
        let cd_enc_len = dyn_bytes_encoded_len(self.call_data.len());
        let pm_enc_len = dyn_bytes_encoded_len(pm_bytes.len());
        let pd_enc_len = dyn_bytes_encoded_len(self.paymaster_data.len());
        let off_fd: usize = 480;
        let off_cd: usize = off_fd + fd_enc_len;
        let off_pm: usize = off_cd + cd_enc_len;
        let off_pd: usize = off_pm + pm_enc_len;
        let off_sig: usize = off_pd + pd_enc_len;
        proof {
            lemma_abi_dyn_bytes_len(self.factory_data@);
            lemma_abi_dyn_bytes_len(self.call_data@);
            lemma_abi_dyn_bytes_len(encode_utf8(self.paymaster@));
            lemma_abi_dyn_bytes_len(self.paymaster_data@);
        }
        let mut out: Vec<u8> = Vec::new();
        append_address_word(&mut out, &self.sender);
        append_u256_word(&mut out, &self.nonce);
        append_address_word(&mut out, &self.factory);
        append_u64_word(&mut out, off_fd as u64);
        append_u64_word(&mut out, off_cd as u64);
        append_u256_word(&mut out, &self.call_gas_limit);
        append_u256_word(&mut out, &self.verification_gas_limit);
        append_u256_word(&mut out, &self.pre_verification_gas);
        append_u256_word(&mut out, &self.max_fee_per_gas);
        append_u256_word(&mut out, &self.max_priority_fee_per_gas);
        append_u64_word(&mut out, off_pm as u64);
        append_u256_word(&mut out, &self.paymaster_verification_gas_limit);
        append_u256_word(&mut out, &self.paymaster_post_op_gas_limit);
        append_u64_word(&mut out, off_pd as u64);
        append_u64_word(&mut out, off_sig as u64);
        append_dyn_bytes(&mut out, self.factory_data.as_slice());
        append_dyn_bytes(&mut out, self.call_data.as_slice());
        append_dyn_bytes(&mut out, pm_bytes);
        append_dyn_bytes(&mut out, self.paymaster_data.as_slice());
        append_dyn_bytes(&mut out, self.signature.as_slice());
        proof {
            assert(out@ =~= packed_full(*self));
        }
        out
    }

    /// The canonical packing of this operation: the fourteen-field tuple, the
    /// byte string whose digest is signed.
    pub fn pack_without_signature(&self) -> (r: Vec<u8>)
        requires
            packable(*self),
        ensures
            r@ == packed_without_signature(*self),
    {
        let unsigned = UserOperationUnsigned::from_operation(self);
        let r = unsigned.encode();
        proof {
            assert(packed_unsigned(unsigned) == packed_without_signature(*self));
        }
        r
    }

    /// The 32-byte operation hash for the given entry point and chain.
    pub fn hash(&self, entry_point: &Address, chain_id: &U256) -> (r: UserOperationHash)
        requires
            packable(*self),
        ensures
            r@ == operation_hash(*self, entry_point@, chain_id@),
    {
        let packed = self.pack_without_signature();
        let mut outer = keccak256(packed.as_slice());
        append_address_word(&mut outer, entry_point);
        append_u256_word(&mut outer, chain_id);
        let digest = keccak256(outer.as_slice());
        proof {
            assert(outer@ =~= keccak_of(packed_without_signature(*self)) + abi_address_word(
                entry_point@,
            ) + chain_id@);
        }
        UserOperationHash(H256::from_slice(digest.as_slice()))
    }
}

/// The hash is a function of the field values, the entry point and the chain
/// id alone: operations with equal fields hash equally, however they were
/// built.
pub proof fn lemma_hash_deterministic(
    op1: UserOperation,
    op2: UserOperation,
    entry_point: Seq<u8>,
    chain_id: Seq<u8>,
)
    requires
        op1.sender@ == op2.sender@,
        op1.nonce@ == op2.nonce@,
        op1.factory@ == op2.factory@,
        op1.factory_data@ == op2.factory_data@,
        op1.call_data@ == op2.call_data@,
        op1.call_gas_limit@ == op2.call_gas_limit@,
        op1.verification_gas_limit@ == op2.verification_gas_limit@,
        op1.pre_verification_gas@ == op2.pre_verification_gas@,
        op1.max_fee_per_gas@ == op2.max_fee_per_gas@,
        op1.max_priority_fee_per_gas@ == op2.max_priority_fee_per_gas@,
        op1.paymaster@ == op2.paymaster@,
        op1.paymaster_verification_gas_limit@ == op2.paymaster_verification_gas_limit@,
        op1.paymaster_post_op_gas_limit@ == op2.paymaster_post_op_gas_limit@,
        op1.paymaster_data@ == op2.paymaster_data@,
    ensures
        operation_hash(op1, entry_point, chain_id) == operation_hash(op2, entry_point, chain_id),
{
    assert(packed_without_signature(op1) == packed_without_signature(op2));
}

/// The packing carries the nonce in its second word, so operations that
/// differ in the nonce alone can never share a packing, whatever the
/// digests of their dynamic fields turn out to be.
pub proof fn lemma_packing_binds_nonce(op1: UserOperation, op2: UserOperation)
    requires
        op1.sender@.len() == 20,
        op2.sender@.len() == 20,
        op1.nonce@.len() == 32,
        op2.nonce@.len() == 32,
        op1.nonce@ != op2.nonce@,
    ensures
        packed_without_signature(op1) != packed_without_signature(op2),
{
    lemma_packed_nonce_slot(op1);
    lemma_packed_nonce_slot(op2);
}

/// The second word of the packing is the nonce.
proof fn lemma_packed_nonce_slot(op: UserOperation)
    requires
        op.sender@.len() == 20,
        op.nonce@.len() == 32,
    ensures
        packed_without_signature(op).len() >= 64,
        packed_without_signature(op).subrange(32, 64) == op.nonce@,
{
    let p = packed_without_signature(op);
    assert(abi_address_word(op.sender@).len() == 32);
    assert(p.subrange(32, 64) =~= op.nonce@);
}

/// The signature takes no part in the hash: attaching one signature or
/// another leaves the hash unchanged.
pub proof fn lemma_hash_ignores_signature(
    op: UserOperation,
    sig_a: Vec<u8>,
    sig_b: Vec<u8>,
    entry_point: Seq<u8>,
    chain_id: Seq<u8>,
)
    ensures
        operation_hash(with_signature(op, sig_a), entry_point, chain_id) == operation_hash(
            with_signature(op, sig_b),
            entry_point,
            chain_id,
        ),
{
    lemma_hash_deterministic(
        with_signature(op, sig_a),
        with_signature(op, sig_b),
        entry_point,
        chain_id,
    );
}

} // verus!
