//! Hexadecimal decoding of `0x`-prefixed fixed-width values.
use crate::errors::FromHexError;
use vstd::prelude::*;

verus! {

pub open spec fn is_hex_digit(c: char) -> bool {
    (0x30 <= c as u32 && c as u32 <= 0x39) || (0x61 <= c as u32 && c as u32 <= 0x66) || (0x41
        <= c as u32 && c as u32 <= 0x46)
}

/// Value of one hex digit.
pub open spec fn hex_val(c: char) -> nat {
    if 0x30 <= c as u32 && c as u32 <= 0x39 {
        (c as u32 - 0x30) as nat
    } else if 0x61 <= c as u32 && c as u32 <= 0x66 {
        (c as u32 - 0x61 + 10) as nat
    } else {
        (c as u32 - 0x41 + 10) as nat
    }
}

/// Byte written as the two hex digits `hi` `lo`.
pub open spec fn hex_pair(hi: char, lo: char) -> u8 {
    (hex_val(hi) * 16 + hex_val(lo)) as u8
}

/// The digits of `s` read pairwise as bytes (for even-length, all-hex `s`).
pub open spec fn hex_bytes(s: Seq<char>) -> Seq<u8> {
    Seq::new(s.len() / 2, |i: int| hex_pair(s[2 * i], s[2 * i + 1]))
}

/// `s` without a leading `0x`, if it has one.
pub open spec fn strip_hex_prefix(s: Seq<char>) -> Seq<char> {
    if s.len() >= 2 && s[0] == '0' && s[1] == 'x' {
        s.subrange(2, s.len() as int)
    } else {
        s
    }
}

fn hex_val_exec(c: char) -> (v: u8)
    requires
        is_hex_digit(c),
    ensures
        v as nat == hex_val(c),
        v < 16,
{
    let u = c as u32;
    if 0x30 <= u && u <= 0x39 {
        (u - 0x30) as u8
    } else if 0x61 <= u && u <= 0x66 {
        (u - 0x61 + 10) as u8
    } else {
        (u - 0x41 + 10) as u8
    }
}

fn is_hex_digit_exec(c: char) -> (r: bool)
    ensures
        r == is_hex_digit(c),
{
    let u = c as u32;
    (0x30 <= u && u <= 0x39) || (0x61 <= u && u <= 0x66) || (0x41 <= u && u <= 0x46)
}

/// Decodes `s` into exactly `n` bytes. A `0x` prefix is allowed and ignored.
/// The digits are checked left to right, at most `2 * n` of them, and the
/// first character outside the hex alphabet is reported with its position;
/// only then does a wrong number of digits count as a length error.
pub fn parse_hex_fixed(s: &str, n: usize) -> (r: Result<Vec<u8>, FromHexError>)
    requires
        n <= 0x1000_0000,
    ensures
        ({
            let t = strip_hex_prefix(s@);
            let win = if t.len() < 2 * n { t.len() as int } else { 2 * n as int };
            match r {
                Ok(v) => {
                    &&& t.len() == 2 * n
                    &&& forall|j: int| 0 <= j < 2 * n ==> is_hex_digit(t[j])
                    &&& v@ == hex_bytes(t)
                    &&& v@.len() == n
                },
                Err(FromHexError::InvalidHexCharacter(c, idx)) => {
                    &&& 0 <= idx < win
                    &&& !is_hex_digit(t[idx as int])
                    &&& c == t[idx as int]
                    &&& forall|j: int| 0 <= j < idx ==> is_hex_digit(t[j])
                },
                Err(FromHexError::InvalidHexLength) => {
                    &&& t.len() != 2 * n
                    &&& forall|j: int| 0 <= j < win ==> is_hex_digit(t[j])
                },
            }
        }),
{
    let slen = s.unicode_len();
    let base: usize = if slen >= 2 && s.get_char(0) == '0' && s.get_char(1) == 'x' {
        2
    } else {
        0
    };
    let ghost t = strip_hex_prefix(s@);
    proof {
        assert(t.len() == slen - base);
        assert(forall|j: int| 0 <= j < t.len() ==> t[j] == s@[base + j]);
    }
    let tlen = slen - base;
    let target = 2 * n;
    let win = if tlen < target {
        tlen
    } else {
        target
    };
    let mut j: usize = 0;
    while j < win
        invariant
            j <= win,
            win == if tlen < target { tlen } else { target },
            target == 2 * n,
            n <= 0x1000_0000,
            tlen == slen - base,
            base <= slen,
            slen == s@.len(),
            t == strip_hex_prefix(s@),
            t.len() == tlen,
            forall|i: int| 0 <= i < t.len() ==> t[i] == s@[base + i],
            forall|i: int| 0 <= i < j ==> is_hex_digit(t[i]),
        decreases win - j,
    {
        let c = s.get_char(base + j);
        if !is_hex_digit_exec(c) {
            return Err(FromHexError::InvalidHexCharacter(c, j));
        }
        j = j + 1;
    }
    if tlen != target {
        return Err(FromHexError::InvalidHexLength);
    }
    let mut out: Vec<u8> = Vec::new();
    let mut i: usize = 0;
    while i < n
        invariant
            i <= n,
            n <= 0x1000_0000,
            tlen == 2 * n,
            tlen == slen - base,
            base <= slen,
            slen == s@.len(),
            t == strip_hex_prefix(s@),
            t.len() == tlen,
            forall|k: int| 0 <= k < t.len() ==> t[k] == s@[base + k],
            forall|k: int| 0 <= k < t.len() ==> is_hex_digit(t[k]),
            out@.len() == i,
            forall|k: int| 0 <= k < i ==> out@[k] == hex_pair(t[2 * k], t[2 * k + 1]),
        decreases n - i,
    {
        let hi = s.get_char(base + 2 * i);
        let lo = s.get_char(base + 2 * i + 1);
        proof {
            assert(hi == t[2 * i as int]);
            assert(lo == t[2 * i as int + 1]);
        }
        let b: u8 = hex_val_exec(hi) * 16 + hex_val_exec(lo);
        out.push(b);
        i = i + 1;
    }
    proof {
        assert(out@ =~= hex_bytes(t));
    }
    Ok(out)
}

} // verus!
