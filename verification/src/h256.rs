//! 32-byte hash values.
use crate::bytesnat::{append_zero_bytes, clone_bytes, zero_bytes};
use crate::errors::FromHexError;
use crate::hex::{hex_bytes, is_hex_digit, parse_hex_fixed, strip_hex_prefix};
use crate::bytesnat::bytes_eq;
use vstd::prelude::*;

verus! {

/// A 32-byte hash value.
#[derive(Debug, Hash)]
pub struct H256 {
    bytes: Vec<u8>,
}

impl View for H256 {
    type V = Seq<u8>;

    closed spec fn view(&self) -> Seq<u8> {
        self.bytes@
    }
}

impl H256 {
    #[verifier::type_invariant]
    spec fn type_inv(self) -> bool {
        self.bytes@.len() == 32
    }

    pub fn zero() -> (r: H256)
        ensures
            r@ == zero_bytes(32),
    {
        let mut bytes: Vec<u8> = Vec::new();
        append_zero_bytes(&mut bytes, 32);
        H256 { bytes }
    }

    /// The hash whose 32 bytes all hold `byte`.
    pub fn repeat_byte(byte: u8) -> (r: H256)
        ensures
            r@ == Seq::new(32, |i: int| byte),
    {
        let mut bytes: Vec<u8> = Vec::new();
        let mut i: usize = 0;
        while i < 32
            invariant
                i <= 32,
                bytes@ =~= Seq::new(i as nat, |j: int| byte),
            decreases 32 - i,
        {
            bytes.push(byte);
            proof {
                assert(bytes@ =~= Seq::new((i + 1) as nat, |j: int| byte));
            }
            i = i + 1;
        }
        H256 { bytes }
    }

    /// Accepts exactly 32 bytes; anything else is rejected.
    pub fn from_bytes(bytes: Vec<u8>) -> (r: Option<H256>)
        ensures
            match r {
                Some(h) => bytes@.len() == 32 && h@ == bytes@,
                None => bytes@.len() != 32,
            },
    {
        if bytes.len() == 32 {
            Some(H256 { bytes })
        } else {
            None
        }
    }

    /// Copies a 32-byte slice.
    pub fn from_slice(src: &[u8]) -> (r: H256)
        requires
            src@.len() == 32,
        ensures
            r@ == src@,
    {
        let mut bytes: Vec<u8> = Vec::new();
        crate::bytesnat::append_bytes(&mut bytes, src);
        H256 { bytes }
    }

    /// Overwrites the value with a 32-byte slice.
    pub fn assign_from_slice(&mut self, src: &[u8])
        requires
            src@.len() == 32,
        ensures
            final(self)@ == src@,
    {
        let mut bytes: Vec<u8> = Vec::new();
        crate::bytesnat::append_bytes(&mut bytes, src);
        self.bytes = bytes;
    }

    /// Decodes a 64-hex-digit string, with or without a `0x` prefix. The
    /// digits are checked left to right; the first character outside the hex
    /// alphabet is reported with its position, and only then does a wrong
    /// number of digits count as a length error.
    pub fn from_str(s: &str) -> (r: Result<H256, FromHexError>)
        ensures
            ({
                let t = strip_hex_prefix(s@);
                let win = if t.len() < 64 { t.len() as int } else { 64int };
                match r {
                    Ok(h) => t.len() == 64 && (forall|j: int| 0 <= j < 64 ==> is_hex_digit(t[j]))
                        && h@ == hex_bytes(t) && h@.len() == 32,
                    Err(FromHexError::InvalidHexCharacter(c, idx)) => 0 <= idx < win
                        && !is_hex_digit(t[idx as int]) && c == t[idx as int] && (forall|j: int|
                        0 <= j < idx ==> is_hex_digit(t[j])),
                    Err(FromHexError::InvalidHexLength) => t.len() != 64 && (forall|j: int|
                        0 <= j < win ==> is_hex_digit(t[j])),
                }
            }),
    {
        match parse_hex_fixed(s, 32) {
            Ok(bytes) => Ok(H256 { bytes }),
            Err(e) => Err(e),
        }
    }

    pub fn as_bytes(&self) -> (r: &Vec<u8>)
        ensures
            r@ == self@,
            r@.len() == 32,
    {
        proof {
            use_type_invariant(self);
        }
        &self.bytes
    }

    pub fn to_vec(&self) -> (r: Vec<u8>)
        ensures
            r@ == self@,
            r@.len() == 32,
    {
        proof {
            use_type_invariant(self);
        }
        clone_bytes(&self.bytes)
    }
}

impl Clone for H256 {
    fn clone(&self) -> (r: Self)
        ensures
            r@ == self@,
    {
        proof {
            use_type_invariant(self);
        }
        H256 { bytes: clone_bytes(&self.bytes) }
    }
}

impl Default for H256 {
    /// The zero hash.
    fn default() -> (r: Self)
        ensures
            r@ == zero_bytes(32),
    {
        H256::zero()
    }
}

impl vstd::std_specs::cmp::PartialEqSpecImpl for H256 {
    open spec fn obeys_eq_spec() -> bool {
        true
    }

    open spec fn eq_spec(&self, other: &H256) -> bool {
        self@ == other@
    }
}

impl PartialEq for H256 {
    fn eq(&self, other: &H256) -> (r: bool) {
        bytes_eq(self.as_bytes(), other.as_bytes())
    }
}

impl Eq for H256 {

}

} // verus!
