//! Big-endian byte strings viewed as nonnegative integers, and the small
//! vocabulary of byte-sequence helpers the rest of the crate builds on.
use vstd::arithmetic::div_mod::{lemma_fundamental_div_mod, lemma_multiply_divide_lt};
use vstd::arithmetic::mul::{
    lemma_mul_inequality, lemma_mul_is_commutative, lemma_mul_is_distributive_add_other_way,
};
use vstd::prelude::*;
use vstd::string::StringSliceAdditionalSpecFns;

verus! {

/// 256 raised to the power `n`: the number of byte strings of length `n`.
pub open spec fn pow256(n: nat) -> nat
    decreases n,
{
    if n == 0 {
        1
    } else {
        256 * pow256((n - 1) as nat)
    }
}

/// Value of a big-endian byte string.
pub open spec fn be_nat(s: Seq<u8>) -> nat
    decreases s.len(),
{
    if s.len() == 0 {
        0
    } else {
        (be_nat(s.drop_last()) * 256 + s.last()) as nat
    }
}

/// Big-endian byte string of length `len` for the value `n` (mod 256^len).
pub open spec fn be_bytes(n: nat, len: nat) -> Seq<u8>
    decreases len,
{
    if len == 0 {
        Seq::empty()
    } else {
        be_bytes(n / 256, (len - 1) as nat).push((n % 256) as u8)
    }
}

/// `n` zero bytes.
pub open spec fn zero_bytes(n: nat) -> Seq<u8> {
    Seq::new(n, |i: int| 0u8)
}

pub proof fn lemma_pow256_pos(n: nat)
    ensures
        pow256(n) >= 1,
    decreases n,
{
    if n > 0 {
        lemma_pow256_pos((n - 1) as nat);
    }
}

pub proof fn lemma_pow256_add(a: nat, b: nat)
    ensures
        pow256(a + b) == pow256(a) * pow256(b),
    decreases b,
{
    if b == 0 {
        assert(pow256(a + 0) == pow256(a) * 1);
    } else {
        lemma_pow256_add(a, (b - 1) as nat);
        assert(pow256(a + b) == 256 * pow256((a + b - 1) as nat));
        assert(pow256(a) * pow256(b) == pow256(a) * (256 * pow256((b - 1) as nat)));
        assert(pow256(a) * (256 * pow256((b - 1) as nat)) == 256 * (pow256(a) * pow256(
            (b - 1) as nat,
        ))) by (nonlinear_arith);
    }
}

pub proof fn lemma_be_nat_bound(s: Seq<u8>)
    ensures
        be_nat(s) < pow256(s.len()),
    decreases s.len(),
{
    if s.len() > 0 {
        lemma_be_nat_bound(s.drop_last());
        assert(be_nat(s.drop_last()) * 256 + 255 < pow256((s.len() - 1) as nat) * 256) by {
            assert(be_nat(s.drop_last()) + 1 <= pow256((s.len() - 1) as nat));
            lemma_mul_inequality(
                be_nat(s.drop_last()) as int + 1,
                pow256((s.len() - 1) as nat) as int,
                256,
            );
            assert((be_nat(s.drop_last()) + 1) * 256 == be_nat(s.drop_last()) * 256 + 256) by {
                lemma_mul_is_distributive_add_other_way(
                    256,
                    be_nat(s.drop_last()) as int,
                    1,
                );
            }
        }
        assert(pow256((s.len() - 1) as nat) * 256 == pow256(s.len())) by {
            lemma_mul_is_commutative(pow256((s.len() - 1) as nat) as int, 256);
        }
    }
}

/// Appending on the right shifts the left part up by the length of the right part.
pub proof fn lemma_be_nat_append(s: Seq<u8>, t: Seq<u8>)
    ensures
        be_nat(s + t) == be_nat(s) * pow256(t.len()) + be_nat(t),
    decreases t.len(),
{
    if t.len() == 0 {
        assert(s + t =~= s);
        assert(be_nat(s) * 1 == be_nat(s));
    } else {
        let t0 = t.drop_last();
        lemma_be_nat_append(s, t0);
        assert((s + t).drop_last() =~= s + t0);
        assert(be_nat(s + t) == be_nat(s + t0) * 256 + t.last());
        assert((be_nat(s) * pow256(t0.len()) + be_nat(t0)) * 256 == be_nat(s) * pow256(t0.len())
            * 256 + be_nat(t0) * 256) by {
            lemma_mul_is_distributive_add_other_way(
                256,
                (be_nat(s) * pow256(t0.len())) as int,
                be_nat(t0) as int,
            );
        }
        assert(be_nat(s) * pow256(t0.len()) * 256 == be_nat(s) * (pow256(t0.len()) * 256)) by {
            vstd::arithmetic::mul::lemma_mul_is_associative(
                be_nat(s) as int,
                pow256(t0.len()) as int,
                256,
            );
        }
        assert(pow256(t0.len()) * 256 == pow256(t.len())) by {
            lemma_pow256_add(t0.len(), 1);
            assert(pow256(0) == 1);
            assert(pow256(1) == 256);
        }
    }
}

pub proof fn lemma_be_nat_zero(n: nat)
    ensures
        be_nat(zero_bytes(n)) == 0,
    decreases n,
{
    if n > 0 {
        assert(zero_bytes(n).drop_last() =~= zero_bytes((n - 1) as nat));
        lemma_be_nat_zero((n - 1) as nat);
    }
}

pub proof fn lemma_be_bytes_len(n: nat, len: nat)
    ensures
        be_bytes(n, len).len() == len,
    decreases len,
{
    if len > 0 {
        lemma_be_bytes_len(n / 256, (len - 1) as nat);
    }
}

pub proof fn lemma_be_bytes_zero(len: nat)
    ensures
        be_bytes(0, len) =~= zero_bytes(len),
    decreases len,
{
    if len > 0 {
        lemma_be_bytes_zero((len - 1) as nat);
        lemma_be_bytes_len(0, (len - 1) as nat);
        assert(be_bytes(0, len) =~= be_bytes(0, (len - 1) as nat).push(0u8));
    }
}

/// A value below 256^len keeps only leading zeroes when written with more bytes.
pub proof fn lemma_be_bytes_leading_zeros(n: nat, len: nat, m: nat)
    requires
        n < pow256(len),
        len <= m,
    ensures
        be_bytes(n, m) =~= zero_bytes((m - len) as nat) + be_bytes(n, len),
    decreases len,
{
    if len == 0 {
        assert(n == 0);
        lemma_be_bytes_zero(m);
        assert(zero_bytes(m) =~= zero_bytes(m) + be_bytes(0, 0));
    } else if m == len {
        assert(be_bytes(n, m) =~= zero_bytes(0) + be_bytes(n, len));
    } else {
        assert(n / 256 < pow256((len - 1) as nat)) by {
            assert(pow256(len) == 256 * pow256((len - 1) as nat));
            lemma_multiply_divide_lt(n as int, 256, pow256((len - 1) as nat) as int);
        }
        lemma_be_bytes_leading_zeros(n / 256, (len - 1) as nat, (m - 1) as nat);
        lemma_be_bytes_len(n / 256, (m - 1) as nat);
        assert(be_bytes(n, m) =~= be_bytes(n / 256, (m - 1) as nat).push((n % 256) as u8));
        assert(be_bytes(n, len) =~= be_bytes(n / 256, (len - 1) as nat).push((n % 256) as u8));
        assert((zero_bytes((m - len) as nat) + be_bytes(n / 256, (len - 1) as nat)).push(
            (n % 256) as u8,
        ) =~= zero_bytes((m - len) as nat) + be_bytes(n, len));
    }
}

/// Writing a value and reading it back round-trips below 256^len.
pub proof fn lemma_be_nat_of_be_bytes(n: nat, len: nat)
    requires
        n < pow256(len),
    ensures
        be_nat(be_bytes(n, len)) == n,
    decreases len,
{
    if len == 0 {
        assert(n == 0);
    } else {
        assert(n / 256 < pow256((len - 1) as nat)) by {
            assert(pow256(len) == 256 * pow256((len - 1) as nat));
            lemma_multiply_divide_lt(n as int, 256, pow256((len - 1) as nat) as int);
        }
        lemma_be_nat_of_be_bytes(n / 256, (len - 1) as nat);
        let s = be_bytes(n, len);
        lemma_be_bytes_len(n / 256, (len - 1) as nat);
        assert(s.drop_last() =~= be_bytes(n / 256, (len - 1) as nat));
        assert(s.last() == (n % 256) as u8);
        lemma_fundamental_div_mod(n as int, 256);
        assert(be_nat(s) == (n / 256) * 256 + n % 256);
        lemma_mul_is_commutative((n / 256) as int, 256);
    }
}

pub proof fn lemma_be_nat_single(x: u8)
    ensures
        be_nat(seq![x]) == x,
{
    assert(be_nat(Seq::<u8>::empty()) == 0);
    assert(seq![x].drop_last() =~= Seq::<u8>::empty());
}

/// Clone of a byte vector, with the contents pinned down.
pub fn clone_bytes(v: &Vec<u8>) -> (r: Vec<u8>)
    ensures
        r@ == v@,
{
    let mut out: Vec<u8> = Vec::new();
    let mut i: usize = 0;
    while i < v.len()
        invariant
            i <= v.len(),
            out@ =~= v@.subrange(0, i as int),
        decreases v.len() - i,
    {
        out.push(v[i]);
        i = i + 1;
    }
    assert(out@ =~= v@);
    out
}

/// Append a slice to a byte vector.
pub fn append_bytes(dst: &mut Vec<u8>, src: &[u8])
    ensures
        final(dst)@ == old(dst)@ + src@,
{
    let mut i: usize = 0;
    while i < src.len()
        invariant
            i <= src.len(),
            dst@ =~= old(dst)@ + src@.subrange(0, i as int),
        decreases src.len() - i,
    {
        dst.push(src[i]);
        i = i + 1;
    }
    assert(dst@ =~= old(dst)@ + src@);
}

/// Append `n` zero bytes.
pub fn append_zero_bytes(dst: &mut Vec<u8>, n: usize)
    ensures
        final(dst)@ == old(dst)@ + zero_bytes(n as nat),
{
    let mut i: usize = 0;
    while i < n
        invariant
            i <= n,
            dst@ =~= old(dst)@ + zero_bytes(i as nat),
        decreases n - i,
    {
        assert(zero_bytes((i + 1) as nat) =~= zero_bytes(i as nat).push(0u8));
        dst.push(0u8);
        i = i + 1;
    }
}

/// The 32-byte big-endian word for a 64-bit value, as the contract ABI writes lengths
/// and offsets.
pub fn be_word_of_u64(x: u64) -> (r: Vec<u8>)
    ensures
        r@ == be_bytes(x as nat, 32),
        r@.len() == 32,
{
    let tail = u64_be_bytes(x);
    let mut out: Vec<u8> = Vec::new();
    append_zero_bytes(&mut out, 24);
    append_bytes(&mut out, tail.as_slice());
    proof {
        lemma_pow256_64();
        lemma_be_bytes_leading_zeros(x as nat, 8, 32);
        assert(out@ =~= zero_bytes(24) + be_bytes(x as nat, 8));
    }
    out
}

/// The eight big-endian bytes of a 64-bit value.
pub fn u64_be_bytes(x: u64) -> (r: Vec<u8>)
    ensures
        r@ == be_bytes(x as nat, 8),
        r@.len() == 8,
{
    let b7: u8 = (x % 256) as u8;
    let x1: u64 = x / 256;
    let b6: u8 = (x1 % 256) as u8;
    let x2: u64 = x1 / 256;
    let b5: u8 = (x2 % 256) as u8;
    let x3: u64 = x2 / 256;
    let b4: u8 = (x3 % 256) as u8;
    let x4: u64 = x3 / 256;
    let b3: u8 = (x4 % 256) as u8;
    let x5: u64 = x4 / 256;
    let b2: u8 = (x5 % 256) as u8;
    let x6: u64 = x5 / 256;
    let b1: u8 = (x6 % 256) as u8;
    let x7: u64 = x6 / 256;
    let b0: u8 = (x7 % 256) as u8;
    let mut out: Vec<u8> = Vec::new();
    out.push(b0);
    out.push(b1);
    out.push(b2);
    out.push(b3);
    out.push(b4);
    out.push(b5);
    out.push(b6);
    out.push(b7);
    proof {
        lemma_pow256_64();
        assert(x < pow256(8));
        assert(pow256(8) == 256 * pow256(7));
        lemma_multiply_divide_lt(x as int, 256, pow256(7) as int);
        assert(pow256(7) == 256 * pow256(6));
        lemma_multiply_divide_lt(x1 as int, 256, pow256(6) as int);
        assert(pow256(6) == 256 * pow256(5));
        lemma_multiply_divide_lt(x2 as int, 256, pow256(5) as int);
        assert(pow256(5) == 256 * pow256(4));
        lemma_multiply_divide_lt(x3 as int, 256, pow256(4) as int);
        assert(pow256(4) == 256 * pow256(3));
        lemma_multiply_divide_lt(x4 as int, 256, pow256(3) as int);
        assert(pow256(3) == 256 * pow256(2));
        lemma_multiply_divide_lt(x5 as int, 256, pow256(2) as int);
        assert(pow256(2) == 256 * pow256(1));
        lemma_multiply_divide_lt(x6 as int, 256, pow256(1) as int);
        assert(x7 < 256);
        assert(x7 as int / 256 == 0) by {
            vstd::arithmetic::div_mod::lemma_basic_div(x7 as int, 256);
        }
        assert(be_bytes(x as nat, 8) =~= seq![b0, b1, b2, b3, b4, b5, b6, b7]) by {
            assert(be_bytes(x7 as nat, 1) =~= be_bytes(x7 as nat / 256, 0).push(b0));
            assert(be_bytes(x6 as nat, 2) =~= be_bytes(x7 as nat, 1).push(b1));
            assert(be_bytes(x5 as nat, 3) =~= be_bytes(x6 as nat, 2).push(b2));
            assert(be_bytes(x4 as nat, 4) =~= be_bytes(x5 as nat, 3).push(b3));
            assert(be_bytes(x3 as nat, 5) =~= be_bytes(x4 as nat, 4).push(b4));
            assert(be_bytes(x2 as nat, 6) =~= be_bytes(x3 as nat, 5).push(b5));
            assert(be_bytes(x1 as nat, 7) =~= be_bytes(x2 as nat, 6).push(b6));
            assert(be_bytes(x as nat, 8) =~= be_bytes(x1 as nat, 7).push(b7));
        }
        assert(out@ =~= seq![b0, b1, b2, b3, b4, b5, b6, b7]);
    }
    out
}

/// 256^8 is 2^64, so every 64-bit value fits in eight bytes.
pub proof fn lemma_pow256_64()
    ensures
        pow256(8) == 0x1_0000_0000_0000_0000,
{
    reveal_with_fuel(pow256, 9);
}

/// Two string slices are equal exactly when their character views are:
/// UTF-8 encoding is injective, so comparing the bytes decides it.
pub fn str_eq(a: &str, b: &str) -> (r: bool)
    ensures
        r == (a@ == b@),
{
    let r = slice_bytes_eq(a.as_bytes(), b.as_bytes());
    proof {
        if a.spec_bytes() == b.spec_bytes() {
            vstd::utf8::encode_utf8_decode_utf8(a@);
            vstd::utf8::encode_utf8_decode_utf8(b@);
        }
    }
    r
}

/// Byte-for-byte comparison of two byte vectors.
pub fn bytes_eq(a: &Vec<u8>, b: &Vec<u8>) -> (r: bool)
    ensures
        r == (a@ == b@),
{
    slice_bytes_eq(a.as_slice(), b.as_slice())
}

/// Byte-for-byte comparison of two byte slices.
pub fn slice_bytes_eq(a: &[u8], b: &[u8]) -> (r: bool)
    ensures
        r == (a@ == b@),
{
    if a.len() != b.len() {
        assert(a@ != b@) by {
            assert(a@.len() != b@.len());
        }
        return false;
    }
    let mut i: usize = 0;
    while i < a.len()
        invariant
            i <= a.len(),
            a@.len() == b@.len(),
            forall|j: int| 0 <= j < i ==> a@[j] == b@[j],
        decreases a.len() - i,
    {
        if a[i] != b[i] {
            return false;
        }
        i = i + 1;
    }
    proof {
        assert(a@ =~= b@);
    }
    true
}

} // verus!
