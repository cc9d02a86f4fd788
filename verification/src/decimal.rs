//! Decimal rendering of machine integers, for error messages.
use vstd::arithmetic::div_mod::{lemma_div_denominator, lemma_fundamental_div_mod};
use vstd::prelude::*;

verus! {

/// The character of one decimal digit.
pub open spec fn dec_digit(d: nat) -> char {
    ((0x30 + d) as u8) as char
}

/// The decimal writing of `n`, without sign or padding; zero is `0`.
pub open spec fn dec_str(n: nat) -> Seq<char>
    decreases n,
{
    if n < 10 {
        seq![dec_digit(n)]
    } else {
        dec_str(n / 10).push(dec_digit(n % 10))
    }
}

/// 10 raised to the power `k`.
pub open spec fn pow10(k: nat) -> nat
    decreases k,
{
    if k == 0 {
        1
    } else {
        10 * pow10((k - 1) as nat)
    }
}

proof fn lemma_pow10_pos(k: nat)
    ensures
        pow10(k) >= 1,
    decreases k,
{
    if k > 0 {
        lemma_pow10_pos((k - 1) as nat);
    }
}

fn digit_str(d: u8) -> (r: &'static str)
    requires
        d < 10,
    ensures
        r@ == seq![dec_digit(d as nat)],
{
    proof {
        reveal_strlit("0");
        reveal_strlit("1");
        reveal_strlit("2");
        reveal_strlit("3");
        reveal_strlit("4");
        reveal_strlit("5");
        reveal_strlit("6");
        reveal_strlit("7");
        reveal_strlit("8");
        reveal_strlit("9");
    }
    match d {
        0 => "0",
        1 => "1",
        2 => "2",
        3 => "3",
        4 => "4",
        5 => "5",
        6 => "6",
        7 => "7",
        8 => "8",
        _ => "9",
    }
}

/// Writes a 64-bit value in decimal.
pub fn u64_to_dec_string(x: u64) -> (r: String)
    ensures
        r@ == dec_str(x as nat),
{
    let mut digits: Vec<u8> = Vec::new();
    digits.push((x % 10) as u8);
    let mut n: u64 = x / 10;
    proof {
        assert(pow10(0) == 1);
        assert(pow10(1) == 10);
    }
    while n != 0
        invariant
            digits@.len() >= 1,
            n as nat == x as nat / pow10(digits@.len()),
            forall|j: int|
                0 <= j < digits@.len() ==> digits@[j] as nat == (x as nat / pow10(
                    j as nat,
                )) % 10,
            forall|j: int| 0 <= j < digits@.len() ==> digits@[j] < 10,
            digits@.len() >= 2 ==> x as nat / pow10((digits@.len() - 1) as nat) != 0,
        decreases n,
    {
        let d: u8 = (n % 10) as u8;
        let ghost len0 = digits@.len();
        digits.push(d);
        proof {
            lemma_pow10_pos(len0);
            assert(pow10(len0 + 1) == pow10(len0) * 10) by {
                vstd::arithmetic::mul::lemma_mul_is_commutative(10, pow10(len0) as int);
            }
            lemma_div_denominator(x as int, pow10(len0) as int, 10);
        }
        n = n / 10;
    }
    let mut s = String::new();
    let mut i: usize = digits.len();
    while i > 0
        invariant
            i <= digits@.len(),
            digits@.len() >= 1,
            forall|j: int|
                0 <= j < digits@.len() ==> digits@[j] as nat == (x as nat / pow10(
                    j as nat,
                )) % 10,
            forall|j: int| 0 <= j < digits@.len() ==> digits@[j] < 10,
            x as nat / pow10(digits@.len()) == 0,
            digits@.len() >= 2 ==> x as nat / pow10((digits@.len() - 1) as nat) != 0,
            i == digits@.len() ==> s@ == Seq::<char>::empty(),
            i < digits@.len() ==> s@ == dec_str(x as nat / pow10(i as nat)),
        decreases i,
    {
        let d = digits[i - 1];
        s.append(digit_str(d));
        proof {
            let ghost k = (i - 1) as nat;
            let ghost v = x as nat / pow10(k);
            lemma_pow10_pos(k);
            assert(pow10(k + 1) == pow10(k) * 10) by {
                vstd::arithmetic::mul::lemma_mul_is_commutative(10, pow10(k) as int);
            }
            lemma_div_denominator(x as int, pow10(k) as int, 10);
            assert(v / 10 == x as nat / pow10(k + 1));
            assert(d as nat == v % 10);
            if i == digits.len() {
                // The leading digit: everything above it divides to zero.
                assert(v / 10 == 0);
                assert(v < 10) by {
                    lemma_fundamental_div_mod(v as int, 10);
                }
                assert(v % 10 == v) by {
                    lemma_fundamental_div_mod(v as int, 10);
                }
                assert(s@ == dec_str(v));
            } else {
                // An inner digit: the nonzero leading digit sits above it,
                // so this position still carries at least two digits.
                assert(v / 10 != 0) by {
                    if v / 10 == 0 {
                        lemma_high_digits_zero(x as nat, k + 1, (digits@.len() - 1) as nat);
                    }
                }
                assert(v >= 10) by {
                    if v < 10 {
                        vstd::arithmetic::div_mod::lemma_basic_div(v as int, 10);
                    }
                }
                assert(dec_str(v) == dec_str(v / 10).push(dec_digit(v % 10)));
                assert(s@ == dec_str(v));
            }
        }
        i = i - 1;
    }
    proof {
        assert(pow10(0) == 1);
        assert(x as nat / 1 == x as nat) by {
            vstd::arithmetic::div_mod::lemma_div_basics_1(x as int);
        }
    }
    s
}

/// Once some power of ten divides `x` to zero, every higher one does.
proof fn lemma_high_digits_zero(x: nat, k: nat, m: nat)
    requires
        x / pow10(k) == 0,
        k <= m,
    ensures
        x / pow10(m) == 0,
    decreases m - k,
{
    if k < m {
        lemma_pow10_pos(k);
        assert(pow10(k + 1) == pow10(k) * 10) by {
            vstd::arithmetic::mul::lemma_mul_is_commutative(10, pow10(k) as int);
        }
        lemma_div_denominator(x as int, pow10(k) as int, 10);
        assert(x / pow10(k + 1) == (x / pow10(k)) / 10);
        assert((0nat as int) / 10 == 0) by {
            vstd::arithmetic::div_mod::lemma_div_basics_1(0);
        }
        lemma_high_digits_zero(x, k + 1, m);
    }
}

} // verus!
