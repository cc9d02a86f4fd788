//! 20-byte account and contract addresses.
use crate::bytesnat::{append_zero_bytes, clone_bytes, zero_bytes};
use crate::errors::FromHexError;
use crate::hex::{hex_bytes, is_hex_digit, parse_hex_fixed, strip_hex_prefix};
use crate::bytesnat::bytes_eq;
use vstd::prelude::*;

verus! {

/// A 20-byte chain address.
#[derive(Debug)]
pub struct Address {
    bytes: Vec<u8>,
}

impl View for Address {
    type V = Seq<u8>;

    closed spec fn view(&self) -> Seq<u8> {
        self.bytes@
    }
}

impl Address {
    #[verifier::type_invariant]
    spec fn type_inv(self) -> bool {
        self.bytes@.len() == 20
    }

    pub fn zero() -> (r: Address)
        ensures
            r@ == zero_bytes(20),
    {
        let mut bytes: Vec<u8> = Vec::new();
        append_zero_bytes(&mut bytes, 20);
        Address { bytes }
    }

    /// Accepts exactly 20 bytes; anything else is rejected.
    pub fn from_bytes(bytes: Vec<u8>) -> (r: Option<Address>)
        ensures
            match r {
                Some(a) => bytes@.len() == 20 && a@ == bytes@,
                None => bytes@.len() != 20,
            },
    {
        if bytes.len() == 20 {
            Some(Address { bytes })
        } else {
            None
        }
    }

    /// Decodes a 40-hex-digit string, with or without a `0x` prefix. The
    /// digits are checked left to right; the first character outside the hex
    /// alphabet is reported with its position, and only then does a wrong
    /// number of digits count as a length error.
    pub fn from_str(s: &str) -> (r: Result<Address, FromHexError>)
        ensures
            ({
                let t = strip_hex_prefix(s@);
                let win = if t.len() < 40 { t.len() as int } else { 40int };
                match r {
                    Ok(a) => t.len() == 40 && (forall|j: int| 0 <= j < 40 ==> is_hex_digit(t[j]))
                        && a@ == hex_bytes(t) && a@.len() == 20,
                    Err(FromHexError::InvalidHexCharacter(c, idx)) => 0 <= idx < win
                        && !is_hex_digit(t[idx as int]) && c == t[idx as int] && (forall|j: int|
                        0 <= j < idx ==> is_hex_digit(t[j])),
                    Err(FromHexError::InvalidHexLength) => t.len() != 40 && (forall|j: int|
                        0 <= j < win ==> is_hex_digit(t[j])),
                }
            }),
    {
        match parse_hex_fixed(s, 20) {
            Ok(bytes) => Ok(Address { bytes }),
            Err(e) => Err(e),
        }
    }

    /// Crate-internal constructor for byte vectors already known to be 20 long.
    pub(crate) fn from_vec_exact(bytes: Vec<u8>) -> (r: Address)
        requires
            bytes@.len() == 20,
        ensures
            r@ == bytes@,
    {
        Address { bytes }
    }

    pub fn as_bytes(&self) -> (r: &Vec<u8>)
        ensures
            r@ == self@,
            r@.len() == 20,
    {
        proof {
            use_type_invariant(self);
        }
        &self.bytes
    }

    pub fn to_vec(&self) -> (r: Vec<u8>)
        ensures
            r@ == self@,
            r@.len() == 20,
    {
        proof {
            use_type_invariant(self);
        }
        clone_bytes(&self.bytes)
    }
}

impl Clone for Address {
    fn clone(&self) -> (r: Self)
        ensures
            r@ == self@,
    {
        proof {
            use_type_invariant(self);
        }
        Address { bytes: clone_bytes(&self.bytes) }
    }
}

impl Default for Address {
    /// The zero address.
    fn default() -> (r: Self)
        ensures
            r@ == zero_bytes(20),
    {
        Address::zero()
    }
}

impl vstd::std_specs::cmp::PartialEqSpecImpl for Address {
    open spec fn obeys_eq_spec() -> bool {
        true
    }

    open spec fn eq_spec(&self, other: &Address) -> bool {
        self@ == other@
    }
}

impl PartialEq for Address {
    fn eq(&self, other: &Address) -> (r: bool) {
        bytes_eq(self.as_bytes(), other.as_bytes())
    }
}

impl Eq for Address {

}

} // verus!
