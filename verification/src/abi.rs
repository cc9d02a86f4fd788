//! The pieces of contract-ABI encoding the packing and calldata builders use:
//! 32-byte words for integers and addresses, and length-prefixed padded bytes.
use crate::address::Address;
use crate::bytesnat::{
    append_bytes, append_zero_bytes, be_bytes, be_word_of_u64, lemma_be_bytes_len, zero_bytes,
};
use crate::u256::U256;
use vstd::arithmetic::div_mod::{lemma_fundamental_div_mod, lemma_fundamental_div_mod_converse};
use vstd::prelude::*;

verus! {

/// `n` rounded up to a multiple of 32.
pub open spec fn pad32_len(n: nat) -> nat {
    ((n + 31) / 32) * 32
}

/// A dynamic `bytes` value: its length as a word, the bytes, zero padding up
/// to a word boundary.
pub open spec fn abi_dyn_bytes(b: Seq<u8>) -> Seq<u8> {
    be_bytes(b.len(), 32) + b + zero_bytes((pad32_len(b.len()) - b.len()) as nat)
}

/// An address as a word: twelve zero bytes, then the twenty address bytes.
pub open spec fn abi_address_word(a: Seq<u8>) -> Seq<u8> {
    zero_bytes(12) + a
}

pub proof fn lemma_pad32(n: nat)
    ensures
        n <= pad32_len(n),
        pad32_len(n) - n < 32,
        pad32_len(n) - n == if n % 32 == 0 {
            0int
        } else {
            32 - (n % 32)
        },
{
    let q = n as int / 32;
    let m = n as int % 32;
    lemma_fundamental_div_mod(n as int, 32);
    if m == 0 {
        lemma_fundamental_div_mod_converse(n as int + 31, 32, q, 31);
        assert((n + 31) as int / 32 == q);
        assert(pad32_len(n) == q * 32) by {
            vstd::arithmetic::mul::lemma_mul_is_commutative(q, 32);
        }
    } else {
        assert(n as int + 31 == 32 * (q + 1) + (m - 1)) by {
            vstd::arithmetic::mul::lemma_mul_is_distributive_add(32, q, 1);
        }
        lemma_fundamental_div_mod_converse(n as int + 31, 32, q + 1, m - 1);
        assert((n + 31) as int / 32 == q + 1);
        assert(pad32_len(n) == (q + 1) * 32);
        assert((q + 1) * 32 == 32 * q + 32) by {
            vstd::arithmetic::mul::lemma_mul_is_distributive_add_other_way(32, q, 1);
        }
    }
}

pub proof fn lemma_abi_dyn_bytes_len(b: Seq<u8>)
    ensures
        abi_dyn_bytes(b).len() == 32 + pad32_len(b.len()),
{
    lemma_be_bytes_len(b.len(), 32);
    lemma_pad32(b.len());
}

/// Appends the address word.
pub fn append_address_word(out: &mut Vec<u8>, a: &Address)
    ensures
        final(out)@ == old(out)@ + abi_address_word(a@),
{
    append_zero_bytes(out, 12);
    append_bytes(out, a.as_bytes().as_slice());
    proof {
        assert(out@ =~= old(out)@ + abi_address_word(a@));
    }
}

/// Appends a 64-bit value as a 32-byte word, as offsets and lengths are written.
pub fn append_u64_word(out: &mut Vec<u8>, x: u64)
    ensures
        final(out)@ == old(out)@ + be_bytes(x as nat, 32),
{
    let word = be_word_of_u64(x);
    append_bytes(out, word.as_slice());
}

/// Appends the 32 bytes of a 256-bit value, its word encoding.
pub fn append_u256_word(out: &mut Vec<u8>, v: &U256)
    ensures
        final(out)@ == old(out)@ + v@,
{
    append_bytes(out, v.as_be_bytes().as_slice());
}

/// Appends a dynamic `bytes` value: length word, bytes, zero padding.
pub fn append_dyn_bytes(out: &mut Vec<u8>, b: &[u8])
    requires
        b@.len() <= 0x1000_0000,
    ensures
        final(out)@ == old(out)@ + abi_dyn_bytes(b@),
{
    append_u64_word(out, b.len() as u64);
    append_bytes(out, b);
    let m = b.len() % 32;
    let pad: usize = if m == 0 {
        0
    } else {
        32 - m
    };
    proof {
        lemma_pad32(b@.len());
    }
    append_zero_bytes(out, pad);
    proof {
        assert(out@ =~= old(out)@ + abi_dyn_bytes(b@));
    }
}

/// The padded length of a dynamic `bytes` value, as it advances the tail offset.
pub fn dyn_bytes_encoded_len(len: usize) -> (r: usize)
    requires
        len <= 0x1000_0000,
    ensures
        r == 32 + pad32_len(len as nat),
        r <= 64 + len,
{
    let m = len % 32;
    let pad: usize = if m == 0 {
        0
    } else {
        32 - m
    };
    proof {
        lemma_pad32(len as nat);
    }
    32 + len + pad
}

} // verus!
