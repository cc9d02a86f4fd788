//! 256-bit unsigned chain integers, stored as 32 big-endian bytes.
use crate::bytesnat::{
    append_zero_bytes, be_bytes, be_nat, be_word_of_u64, bytes_eq, clone_bytes,
    lemma_be_nat_append, lemma_be_nat_bound, lemma_be_nat_of_be_bytes, lemma_be_nat_zero,
    lemma_pow256_64, lemma_pow256_pos, pow256, zero_bytes,
};
use vstd::arithmetic::div_mod::{
    lemma_fundamental_div_mod, lemma_fundamental_div_mod_converse, lemma_multiply_divide_lt,
};
use vstd::prelude::*;

verus! {

/// A 256-bit unsigned integer in big-endian byte order, the numeric type of
/// nonces, gas limits and fees.
#[derive(Debug)]
pub struct U256 {
    bytes: Vec<u8>,
}

impl View for U256 {
    type V = Seq<u8>;

    closed spec fn view(&self) -> Seq<u8> {
        self.bytes@
    }
}

impl U256 {
    #[verifier::type_invariant]
    spec fn type_inv(self) -> bool {
        self.bytes@.len() == 32
    }

    /// Numeric value.
    pub open spec fn nat_of(self) -> nat {
        be_nat(self@)
    }

    pub fn zero() -> (r: U256)
        ensures
            r@ == zero_bytes(32),
            r.nat_of() == 0,
    {
        let mut bytes: Vec<u8> = Vec::new();
        append_zero_bytes(&mut bytes, 32);
        proof {
            lemma_be_nat_zero(32);
        }
        U256 { bytes }
    }

    pub fn from_u64(x: u64) -> (r: U256)
        ensures
            r@ == be_bytes(x as nat, 32),
            r.nat_of() == x,
    {
        let bytes = be_word_of_u64(x);
        proof {
            lemma_pow256_64();
            vstd::arithmetic::power::lemma_pow_positive(256, 32);
            lemma_pow256_mono_32();
            lemma_be_nat_of_be_bytes(x as nat, 32);
        }
        U256 { bytes }
    }

    /// Reads exactly 32 big-endian bytes; anything else is rejected.
    pub fn from_be_bytes(bytes: Vec<u8>) -> (r: Option<U256>)
        ensures
            match r {
                Some(v) => bytes@.len() == 32 && v@ == bytes@,
                None => bytes@.len() != 32,
            },
    {
        if bytes.len() == 32 {
            Some(U256 { bytes })
        } else {
            None
        }
    }

    pub fn as_be_bytes(&self) -> (r: &Vec<u8>)
        ensures
            r@ == self@,
            r@.len() == 32,
    {
        proof {
            use_type_invariant(self);
        }
        &self.bytes
    }

    pub fn to_be_bytes(&self) -> (r: Vec<u8>)
        ensures
            r@ == self@,
            r@.len() == 32,
    {
        proof {
            use_type_invariant(self);
        }
        clone_bytes(&self.bytes)
    }

    /// Sum, or `None` when the sum does not fit in 256 bits.
    pub fn checked_add(&self, other: &U256) -> (r: Option<U256>)
        ensures
            match r {
                Some(c) => c.nat_of() == self.nat_of() + other.nat_of(),
                None => self.nat_of() + other.nat_of() >= pow256(32),
            },
    {
        proof {
            use_type_invariant(self);
            use_type_invariant(other);
        }
        let mut out: Vec<u8> = Vec::new();
        append_zero_bytes(&mut out, 32);
        let mut carry: u8 = 0;
        let mut k: usize = 0;
        while k < 32
            invariant
                k <= 32,
                out@.len() == 32,
                carry <= 1,
                self@.len() == 32,
                other@.len() == 32,
                be_nat(out@.subrange(32 - k, 32)) + carry * pow256(k as nat) == be_nat(
                    self@.subrange(32 - k, 32),
                ) + be_nat(other@.subrange(32 - k, 32)),
            decreases 32 - k,
        {
            let p: usize = 31 - k;
            let sum: u16 = self.bytes[p] as u16 + other.bytes[p] as u16 + carry as u16;
            let m: u8 = (sum % 256) as u8;
            let d: u8 = (sum / 256) as u8;
            let ghost prev_out = out@;
            out.set(p, m);
            proof {
                let ghost kk = k as nat;
                let ghost pw = pow256(kk) as int;
                lemma_pow256_pos(kk);
                let ghost s_old = prev_out.subrange(32 - k, 32);
                let ghost s_new = out@.subrange(31 - k, 32);
                assert(s_new =~= seq![m] + s_old);
                let ghost a_old = self@.subrange(32 - k, 32);
                let ghost a_new = self@.subrange(31 - k, 32);
                assert(a_new =~= seq![self@[p as int]] + a_old);
                let ghost b_old = other@.subrange(32 - k, 32);
                let ghost b_new = other@.subrange(31 - k, 32);
                assert(b_new =~= seq![other@[p as int]] + b_old);
                lemma_be_nat_append(seq![m], s_old);
                lemma_be_nat_append(seq![self@[p as int]], a_old);
                lemma_be_nat_append(seq![other@[p as int]], b_old);
                crate::bytesnat::lemma_be_nat_single(m);
                crate::bytesnat::lemma_be_nat_single(self@[p as int]);
                crate::bytesnat::lemma_be_nat_single(other@[p as int]);
                lemma_fundamental_div_mod(sum as int, 256);
                assert(pow256(kk + 1) == 256 * pow256(kk));
                let ghost ab = self@[p as int] as int + other@[p as int] as int;
                assert(m + d * 256 == ab + carry);
                assert(m * pw + be_nat(s_old) + d * (256 * pw) == self@[p as int] * pw + be_nat(
                    a_old,
                ) + other@[p as int] * pw + be_nat(b_old)) by (nonlinear_arith)
                    requires
                        be_nat(s_old) + carry * pw == be_nat(a_old) + be_nat(b_old),
                        m + d * 256 == self@[p as int] + other@[p as int] + carry,
                        pw >= 1,
                ;
            }
            carry = d;
            k = k + 1;
        }
        proof {
            assert(out@.subrange(0, 32) =~= out@);
            assert(self@.subrange(0, 32) =~= self@);
            assert(other@.subrange(0, 32) =~= other@);
        }
        if carry == 0 {
            Some(U256 { bytes: out })
        } else {
            proof {
                lemma_be_nat_bound(out@);
            }
            None
        }
    }

    /// Quotient and remainder on division by a small nonzero divisor.
    pub fn div_rem_u64(&self, d: u64) -> (r: (U256, u64))
        requires
            d >= 1,
        ensures
            r.0.nat_of() == self.nat_of() / d as nat,
            r.1 == self.nat_of() % d as nat,
            r.1 < d,
    {
        proof {
            use_type_invariant(self);
        }
        let mut q: Vec<u8> = Vec::new();
        let mut rem: u64 = 0;
        let mut k: usize = 0;
        proof {
            assert(q@ =~= Seq::<u8>::empty());
            assert(self@.subrange(0, 0) =~= Seq::<u8>::empty());
            assert(be_nat(Seq::<u8>::empty()) == 0);
        }
        while k < 32
            invariant
                k <= 32,
                d >= 1,
                rem < d,
                q@.len() == k,
                self@.len() == 32,
                be_nat(q@) * d + rem == be_nat(self@.subrange(0, k as int)),
            decreases 32 - k,
        {
            let cur: u128 = rem as u128 * 256 + self.bytes[k] as u128;
            proof {
                assert(cur < d as u128 * 256) by (nonlinear_arith)
                    requires
                        cur == rem as u128 * 256 + self@[k as int],
                        rem < d,
                        self@[k as int] < 256,
                ;
                lemma_multiply_divide_lt(cur as int, d as int, 256);
            }
            let qb: u8 = (cur / d as u128) as u8;
            let rem2: u64 = (cur % d as u128) as u64;
            let ghost q_old = q@;
            q.push(qb);
            proof {
                let ghost prefix_old = self@.subrange(0, k as int);
                let ghost prefix_new = self@.subrange(0, k as int + 1);
                assert(prefix_new =~= prefix_old.push(self@[k as int]));
                assert(be_nat(prefix_new) == be_nat(prefix_old) * 256 + self@[k as int]) by {
                    assert(prefix_new.drop_last() =~= prefix_old);
                }
                assert(q@ =~= q_old.push(qb));
                assert(be_nat(q@) == be_nat(q_old) * 256 + qb) by {
                    assert(q@.drop_last() =~= q_old);
                }
                lemma_fundamental_div_mod(cur as int, d as int);
                assert(cur == d * (cur as int / d as int) + cur as int % d as int);
                assert(be_nat(q@) * d + rem2 == be_nat(prefix_new)) by (nonlinear_arith)
                    requires
                        be_nat(q@) == be_nat(q_old) * 256 + qb,
                        be_nat(prefix_new) == be_nat(prefix_old) * 256 + self@[k as int],
                        be_nat(q_old) * d + rem == be_nat(prefix_old),
                        cur == rem * 256 + self@[k as int],
                        cur == d * qb + rem2,
                ;
            }
            rem = rem2;
            k = k + 1;
        }
        proof {
            assert(self@.subrange(0, 32) =~= self@);
            lemma_fundamental_div_mod_converse(
                be_nat(self@) as int,
                d as int,
                be_nat(q@) as int,
                rem as int,
            );
        }
        (U256 { bytes: q }, rem)
    }
}

impl Clone for U256 {
    fn clone(&self) -> (r: Self)
        ensures
            r@ == self@,
    {
        proof {
            use_type_invariant(self);
        }
        U256 { bytes: clone_bytes(&self.bytes) }
    }
}

impl vstd::std_specs::cmp::PartialEqSpecImpl for U256 {
    open spec fn obeys_eq_spec() -> bool {
        true
    }

    open spec fn eq_spec(&self, other: &U256) -> bool {
        self@ == other@
    }
}

impl PartialEq for U256 {
    fn eq(&self, other: &U256) -> (r: bool) {
        bytes_eq(self.as_be_bytes(), other.as_be_bytes())
    }
}

impl Eq for U256 {

}

proof fn lemma_pow256_mono_32()
    ensures
        pow256(8) <= pow256(32),
{
    crate::bytesnat::lemma_pow256_add(8, 24);
    lemma_pow256_pos(24);
    vstd::arithmetic::mul::lemma_mul_inequality(1, pow256(24) as int, pow256(8) as int);
    vstd::arithmetic::mul::lemma_mul_is_commutative(pow256(24) as int, pow256(8) as int);
}

} // verus!
