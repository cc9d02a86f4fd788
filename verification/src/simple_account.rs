//! Calldata encoders for the account contracts' execution entry points.
use crate::abi::{
    abi_address_word, abi_dyn_bytes, append_address_word, append_dyn_bytes, append_u256_word,
    append_u64_word,
};
use crate::address::Address;
use crate::bytesnat::{append_bytes, be_bytes};
use crate::keccak::{keccak256, keccak_of};
use crate::types::WalletRegistry;
use crate::u256::U256;
use vstd::prelude::*;
use vstd::utf8::encode_utf8;

verus! {

/// The four-byte function selector: the digest of the signature's UTF-8
/// bytes, truncated.
pub open spec fn selector_of(signature: Seq<char>) -> Seq<u8> {
    keccak_of(encode_utf8(signature)).subrange(0, 4)
}

/// The calldata of `execute(address dest, uint256 value, bytes func)`: the
/// selector, the address and value words, the offset word of the dynamic
/// argument, and the argument itself.
pub open spec fn execute_call_bytes(dest: Seq<u8>, value: Seq<u8>, func: Seq<u8>) -> Seq<u8> {
    selector_of("execute(address,uint256,bytes)"@) + abi_address_word(dest) + value + be_bytes(
        0x60,
        32,
    ) + abi_dyn_bytes(func)
}

/// The calldata of the modular account's `execute(bytes32 mode, bytes data)`
/// dispatch entry point.
pub open spec fn mode_execute_call_bytes(mode: Seq<u8>, data: Seq<u8>) -> Seq<u8> {
    selector_of("execute(bytes32,bytes)"@) + mode + be_bytes(0x40, 32) + abi_dyn_bytes(data)
}

/// Appends the four-byte selector of a function signature.
fn append_selector(out: &mut Vec<u8>, signature: &str)
    ensures
        final(out)@ == old(out)@ + selector_of(signature@),
{
    let digest = keccak256(signature.as_bytes());
    let mut k: usize = 0;
    while k < 4
        invariant
            k <= 4,
            digest@ == keccak_of(encode_utf8(signature@)),
            digest@.len() == 32,
            out@ =~= old(out)@ + digest@.subrange(0, k as int),
        decreases 4 - k,
    {
        out.push(digest[k]);
        proof {
            assert(out@ =~= old(out)@ + digest@.subrange(0, k as int + 1));
        }
        k = k + 1;
    }
}

/// A prepared `execute(address,uint256,bytes)` call for a simple account:
/// forward `value` wei and `func` to `dest`.
pub struct SimpleAccountExecute {
    dest: Address,
    value: U256,
    func: Vec<u8>,
}

impl SimpleAccountExecute {
    pub closed spec fn dest_view(self) -> Seq<u8> {
        self.dest@
    }

    pub closed spec fn value_view(self) -> Seq<u8> {
        self.value@
    }

    pub closed spec fn func_view(self) -> Seq<u8> {
        self.func@
    }

    pub fn new(address: Address, value: U256, func: Vec<u8>) -> (r: Self)
        ensures
            r.dest_view() == address@,
            r.value_view() == value@,
            r.func_view() == func@,
    {
        SimpleAccountExecute { dest: address, value, func }
    }

    /// Encodes the calldata.
    pub fn encode(&self) -> (r: Vec<u8>)
        requires
            self.func_view().len() <= 0x1000_0000,
        ensures
            r@ == execute_call_bytes(self.dest_view(), self.value_view(), self.func_view()),
    {
        let mut out: Vec<u8> = Vec::new();
        append_selector(&mut out, "execute(address,uint256,bytes)");
        append_address_word(&mut out, &self.dest);
        append_u256_word(&mut out, &self.value);
        append_u64_word(&mut out, 0x60);
        append_dyn_bytes(&mut out, self.func.as_slice());
        proof {
            assert(out@ =~= execute_call_bytes(self.dest@, self.value@, self.func@));
        }
        out
    }
}

impl WalletRegistry {
    /// The calldata that makes the account contract forward `value` wei and
    /// `func` to `dest`; both registered account kinds share the simple
    /// `execute(address,uint256,bytes)` entry point for this.
    pub fn execute(&self, dest: Address, value: U256, func: Vec<u8>) -> (r: Vec<u8>)
        requires
            func@.len() <= 0x1000_0000,
        ensures
            r@ == execute_call_bytes(dest@, value@, func@),
    {
        let call = SimpleAccountExecute::new(dest, value, func);
        call.encode()
    }
}

/// Encodes a call to the modular account's `execute(bytes32 mode, bytes
/// data)` dispatch entry point.
pub fn encode_mode_execute(mode: &Vec<u8>, data: &Vec<u8>) -> (r: Vec<u8>)
    requires
        mode@.len() == 32,
        data@.len() <= 0x1000_0000,
    ensures
        r@ == mode_execute_call_bytes(mode@, data@),
{
    let mut out: Vec<u8> = Vec::new();
    append_selector(&mut out, "execute(bytes32,bytes)");
    append_bytes(&mut out, mode.as_slice());
    append_u64_word(&mut out, 0x40);
    append_dyn_bytes(&mut out, data.as_slice());
    proof {
        assert(out@ =~= mode_execute_call_bytes(mode@, data@));
    }
    out
}

} // verus!
