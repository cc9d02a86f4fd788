//! Classification of free-text relay error messages into the typed taxonomy.
//!
//! A gas-shortfall message has the shape `<prefix><digits><mid><digits>`,
//! anywhere inside the message; the match is taken at the leftmost position
//! where the whole shape fits, each digit run as long as it can be. A message
//! that fits no shape but carries the over-verification marker is classified
//! by that marker; everything else stays unknown, and the raw message is the
//! caller's to keep.
use crate::errors::UserOpMiddlewareError;
use vstd::arithmetic::div_mod::lemma_fundamental_div_mod;
use vstd::prelude::*;
use vstd::string::StringSliceAdditionalSpecFns;
use vstd::utf8::encode_utf8;

verus! {

pub open spec fn is_digit(b: u8) -> bool {
    0x30 <= b && b <= 0x39
}

/// First position at or after `i` that is past the message or not a digit.
pub open spec fn digit_run_end(msg: Seq<u8>, i: int) -> int
    decreases msg.len() - i,
{
    if i < 0 || i >= msg.len() || !is_digit(msg[i]) {
        i
    } else {
        digit_run_end(msg, i + 1)
    }
}

/// The number written by a run of decimal digit bytes.
pub open spec fn digits_val(s: Seq<u8>) -> nat
    decreases s.len(),
{
    if s.len() == 0 {
        0
    } else {
        (digits_val(s.drop_last()) * 10 + (s.last() - 0x30)) as nat
    }
}

/// Whether `<prefix><digits><mid><digits>` fits with its start at `i`, both
/// digit runs maximal and nonempty.
pub open spec fn gas_pattern_matches_at(
    msg: Seq<u8>,
    i: int,
    prefix: Seq<u8>,
    mid: Seq<u8>,
) -> bool {
    let d1s = i + prefix.len();
    let d1e = digit_run_end(msg, d1s);
    let d2s = d1e + mid.len();
    let d2e = digit_run_end(msg, d2s);
    &&& 0 <= i
    &&& d1s <= msg.len()
    &&& msg.subrange(i, d1s) == prefix
    &&& d1e > d1s
    &&& d2s <= msg.len()
    &&& msg.subrange(d1e, d2s) == mid
    &&& d2e > d2s
}

/// The leftmost position at or after `i` where the shape fits.
pub open spec fn gas_pattern_first_match(
    msg: Seq<u8>,
    prefix: Seq<u8>,
    mid: Seq<u8>,
    i: int,
) -> Option<int>
    decreases msg.len() + 1 - i,
{
    if i > msg.len() {
        None
    } else if gas_pattern_matches_at(msg, i, prefix, mid) {
        Some(i)
    } else {
        gas_pattern_first_match(msg, prefix, mid, i + 1)
    }
}

/// The first captured digit run of a match at `i`.
pub open spec fn first_capture(msg: Seq<u8>, i: int, prefix: Seq<u8>) -> Seq<u8> {
    let d1s = i + prefix.len();
    msg.subrange(d1s, digit_run_end(msg, d1s))
}

/// The second captured digit run of a match at `i`.
pub open spec fn second_capture(msg: Seq<u8>, i: int, prefix: Seq<u8>, mid: Seq<u8>) -> Seq<u8> {
    let d1e = digit_run_end(msg, i + prefix.len());
    let d2s = d1e + mid.len();
    msg.subrange(d2s, digit_run_end(msg, d2s))
}

/// Whether `pat` occurs anywhere in `msg`.
pub open spec fn contains_seq(msg: Seq<u8>, pat: Seq<u8>) -> bool {
    exists|i: int|
        0 <= i && i + pat.len() <= msg.len() && #[trigger] msg.subrange(i, i + pat.len()) == pat
}

pub open spec fn call_gas_prefix() -> Seq<u8> {
    encode_utf8("Call gas limit "@)
}

pub open spec fn call_gas_mid() -> Seq<u8> {
    encode_utf8(" is lower than call gas estimation "@)
}

pub open spec fn pre_verification_prefix() -> Seq<u8> {
    encode_utf8("Pre-verification gas "@)
}

pub open spec fn pre_verification_mid() -> Seq<u8> {
    encode_utf8(" is lower than calculated pre-verification gas "@)
}

pub open spec fn verification_gas_marker() -> Seq<u8> {
    encode_utf8("AA40 over verificationGasLimit"@)
}

/// The classification of a relay error message, in priority order: the
/// call-gas shortfall shape, the pre-verification-gas shortfall shape, the
/// over-verification marker, and otherwise unknown. A shortfall whose numbers
/// run past 64 bits carries no usable figures and stays unknown.
pub open spec fn classify_spec(msg: Seq<u8>) -> UserOpMiddlewareError {
    match gas_pattern_first_match(msg, call_gas_prefix(), call_gas_mid(), 0) {
        Some(i) => {
            let v1 = digits_val(first_capture(msg, i, call_gas_prefix()));
            let v2 = digits_val(second_capture(msg, i, call_gas_prefix(), call_gas_mid()));
            if v1 <= u64::MAX && v2 <= u64::MAX {
                UserOpMiddlewareError::CallGasLimitError(v1 as u64, v2 as u64)
            } else {
                UserOpMiddlewareError::UnknownError
            }
        },
        None => match gas_pattern_first_match(
            msg,
            pre_verification_prefix(),
            pre_verification_mid(),
            0,
        ) {
            Some(i) => {
                let v1 = digits_val(first_capture(msg, i, pre_verification_prefix()));
                let v2 = digits_val(
                    second_capture(msg, i, pre_verification_prefix(), pre_verification_mid()),
                );
                if v1 <= u64::MAX && v2 <= u64::MAX {
                    UserOpMiddlewareError::PreVerificationGasError(v1 as u64, v2 as u64)
                } else {
                    UserOpMiddlewareError::UnknownError
                }
            },
            None => {
                if contains_seq(msg, verification_gas_marker()) {
                    UserOpMiddlewareError::VerificationGasLimitError
                } else {
                    UserOpMiddlewareError::UnknownError
                }
            },
        },
    }
}

pub proof fn lemma_digit_run_bounds(msg: Seq<u8>, i: int)
    requires
        0 <= i <= msg.len(),
    ensures
        i <= digit_run_end(msg, i) <= msg.len(),
    decreases msg.len() - i,
{
    if i < msg.len() && is_digit(msg[i]) {
        lemma_digit_run_bounds(msg, i + 1);
    }
}

pub proof fn lemma_digit_run_digits(msg: Seq<u8>, i: int, k: int)
    requires
        0 <= i <= k < digit_run_end(msg, i),
        i <= msg.len(),
    ensures
        k < msg.len() && is_digit(msg[k]),
    decreases k - i,
{
    lemma_digit_run_bounds(msg, i);
    if k == i {
        assert(digit_run_end(msg, i) > i);
    } else {
        assert(digit_run_end(msg, i) > i);
        assert(is_digit(msg[i]));
        lemma_digit_run_digits(msg, i + 1, k);
    }
}

/// A longer digit string never writes a smaller number.
proof fn lemma_digits_val_prefix(v: Seq<u8>, k: int)
    requires
        0 <= k <= v.len(),
        forall|j: int| 0 <= j < v.len() ==> is_digit(v[j]),
    ensures
        digits_val(v) >= digits_val(v.subrange(0, k)),
    decreases v.len(),
{
    if k < v.len() {
        let w = v.drop_last();
        assert(forall|j: int| 0 <= j < w.len() ==> is_digit(w[j]));
        lemma_digits_val_prefix(w, k);
        assert(v.subrange(0, k) =~= w.subrange(0, k));
        assert(is_digit(v.last()));
        assert(digits_val(w) * 10 >= digits_val(w)) by (nonlinear_arith);
    } else {
        assert(v.subrange(0, k) =~= v);
    }
}

/// Whether `pat@` sits at position `i` of `msg@`.
fn match_at(msg: &[u8], i: usize, pat: &[u8]) -> (r: bool)
    requires
        i <= msg@.len(),
    ensures
        r == (i + pat@.len() <= msg@.len() && msg@.subrange(
            i as int,
            i as int + pat@.len(),
        ) == pat@),
{
    let n = msg.len();
    if pat.len() > n - i {
        assert(i + pat@.len() > msg@.len());
        return false;
    }
    let mut j: usize = 0;
    while j < pat.len()
        invariant
            j <= pat@.len(),
            n == msg@.len(),
            i + pat@.len() <= n,
            forall|k: int| 0 <= k < j ==> msg@[i + k] == pat@[k],
        decreases pat@.len() - j,
    {
        if msg[i + j] != pat[j] {
            assert(msg@.subrange(i as int, i as int + pat@.len()) != pat@) by {
                assert(msg@.subrange(i as int, i as int + pat@.len())[j as int] != pat@[j as int]);
            }
            return false;
        }
        j = j + 1;
    }
    proof {
        assert(msg@.subrange(i as int, i as int + pat@.len()) =~= pat@);
    }
    true
}

/// The end of the digit run starting at `i`.
fn digit_run_end_exec(msg: &[u8], i: usize) -> (r: usize)
    requires
        i <= msg@.len(),
    ensures
        r == digit_run_end(msg@, i as int),
        i <= r <= msg@.len(),
{
    let mut j: usize = i;
    while j < msg.len() && msg[j] >= 0x30 && msg[j] <= 0x39
        invariant
            i <= j <= msg@.len(),
            digit_run_end(msg@, i as int) == digit_run_end(msg@, j as int),
        decreases msg@.len() - j,
    {
        j = j + 1;
    }
    proof {
        assert(digit_run_end(msg@, j as int) == j);
    }
    j
}

/// Looks for `<prefix><digits><mid><digits>` from the left; hands back the
/// start of the match and the ends of the two digit runs.
fn find_gas_pattern(msg: &[u8], prefix: &[u8], mid: &[u8]) -> (r: Option<(usize, usize, usize)>)
    ensures
        match r {
            Some(t) => {
                &&& gas_pattern_first_match(msg@, prefix@, mid@, 0) == Some(t.0 as int)
                &&& t.1 == digit_run_end(msg@, t.0 + prefix@.len())
                &&& t.2 == digit_run_end(msg@, t.1 + mid@.len())
                &&& gas_pattern_matches_at(msg@, t.0 as int, prefix@, mid@)
            },
            None => gas_pattern_first_match(msg@, prefix@, mid@, 0) is None,
        },
{
    let mut i: usize = 0;
    while i < msg.len()
        invariant
            i <= msg@.len(),
            gas_pattern_first_match(msg@, prefix@, mid@, 0) == gas_pattern_first_match(
                msg@,
                prefix@,
                mid@,
                i as int,
            ),
        decreases msg@.len() - i,
    {
        if match_at(msg, i, prefix) {
            let d1s = i + prefix.len();
            let d1e = digit_run_end_exec(msg, d1s);
            if d1e > d1s && match_at(msg, d1e, mid) {
                let d2s = d1e + mid.len();
                let d2e = digit_run_end_exec(msg, d2s);
                if d2e > d2s {
                    assert(gas_pattern_matches_at(msg@, i as int, prefix@, mid@));
                    return Some((i, d1e, d2e));
                }
            }
        }
        proof {
            assert(!gas_pattern_matches_at(msg@, i as int, prefix@, mid@));
        }
        i = i + 1;
    }
    proof {
        let n = msg@.len() as int;
        assert(digit_run_end(msg@, n + prefix@.len()) == n + prefix@.len());
        assert(!gas_pattern_matches_at(msg@, n, prefix@, mid@));
        assert(gas_pattern_first_match(msg@, prefix@, mid@, n + 1) is None);
        assert(gas_pattern_first_match(msg@, prefix@, mid@, n) is None);
    }
    None
}

/// Reads the number in `msg[s..e)`; a value past 64 bits is reported as such.
fn parse_digits(msg: &[u8], s: usize, e: usize) -> (r: Option<u64>)
    requires
        s <= e <= msg@.len(),
        forall|k: int| s <= k < e ==> is_digit(msg@[k]),
    ensures
        match r {
            Some(v) => v == digits_val(msg@.subrange(s as int, e as int)),
            None => digits_val(msg@.subrange(s as int, e as int)) > u64::MAX,
        },
{
    let mut val: u64 = 0;
    let mut k: usize = s;
    proof {
        assert(msg@.subrange(s as int, s as int) =~= Seq::<u8>::empty());
    }
    while k < e
        invariant
            s <= k <= e <= msg@.len(),
            forall|j: int| s <= j < e ==> is_digit(msg@[j]),
            val == digits_val(msg@.subrange(s as int, k as int)),
        decreases e - k,
    {
        let d: u64 = (msg[k] - 0x30) as u64;
        let ghost cur = msg@.subrange(s as int, k as int);
        let ghost nxt = msg@.subrange(s as int, k as int + 1);
        proof {
            assert(nxt.drop_last() =~= cur);
            assert(digits_val(nxt) == digits_val(cur) * 10 + d);
        }
        if val > (u64::MAX - d) / 10 {
            proof {
                let m = u64::MAX - d;
                lemma_fundamental_div_mod(m as int, 10);
                assert(val * 10 + d > u64::MAX) by (nonlinear_arith)
                    requires
                        val > m / 10,
                        m == 10 * (m / 10) + m % 10,
                        m % 10 < 10,
                        m == u64::MAX - d,
                ;
                assert(forall|j: int|
                    0 <= j < e - s ==> is_digit(msg@.subrange(s as int, e as int)[j]));
                lemma_digits_val_prefix(msg@.subrange(s as int, e as int), k as int + 1 - s);
                assert(msg@.subrange(s as int, e as int).subrange(0, k as int + 1 - s) =~= nxt);
            }
            return None;
        }
        proof {
            let m = u64::MAX - d;
            lemma_fundamental_div_mod(m as int, 10);
            assert(val * 10 + d <= u64::MAX) by (nonlinear_arith)
                requires
                    val <= m / 10,
                    m == 10 * (m / 10) + m % 10,
                    0 <= m % 10,
                    m == u64::MAX - d,
            ;
        }
        val = val * 10 + d;
        k = k + 1;
    }
    Some(val)
}

/// Classifies a relay error message given as bytes.
pub fn classify_relay_message(msg: &[u8]) -> (r: UserOpMiddlewareError)
    ensures
        r == classify_spec(msg@),
{
    let p1: &[u8] = "Call gas limit ".as_bytes();
    let m1: &[u8] = " is lower than call gas estimation ".as_bytes();
    let p2: &[u8] = "Pre-verification gas ".as_bytes();
    let m2: &[u8] = " is lower than calculated pre-verification gas ".as_bytes();
    if let Some((i, d1e, d2e)) = find_gas_pattern(msg, p1, m1) {
        let d1s = i + p1.len();
        let d2s = d1e + m1.len();
        proof {
            assert forall|k: int| d1s <= k < d1e implies is_digit(msg@[k]) by {
                lemma_digit_run_digits(msg@, d1s as int, k);
            }
            assert forall|k: int| d2s <= k < d2e implies is_digit(msg@[k]) by {
                lemma_digit_run_digits(msg@, d2s as int, k);
            }
        }
        proof {
            lemma_digit_run_bounds(msg@, d1s as int);
            lemma_digit_run_bounds(msg@, d2s as int);
        }
        let v1 = parse_digits(msg, d1s, d1e);
        let v2 = parse_digits(msg, d2s, d2e);
        proof {
            assert(msg@.subrange(d1s as int, d1e as int) == first_capture(msg@, i as int, p1@));
            assert(msg@.subrange(d2s as int, d2e as int) == second_capture(
                msg@,
                i as int,
                p1@,
                m1@,
            ));
        }
        match (v1, v2) {
            (Some(a), Some(b)) => UserOpMiddlewareError::CallGasLimitError(a, b),
            _ => UserOpMiddlewareError::UnknownError,
        }
    } else if let Some((i, d1e, d2e)) = find_gas_pattern(msg, p2, m2) {
        let d1s = i + p2.len();
        let d2s = d1e + m2.len();
        proof {
            assert forall|k: int| d1s <= k < d1e implies is_digit(msg@[k]) by {
                lemma_digit_run_digits(msg@, d1s as int, k);
            }
            assert forall|k: int| d2s <= k < d2e implies is_digit(msg@[k]) by {
                lemma_digit_run_digits(msg@, d2s as int, k);
            }
        }
        proof {
            lemma_digit_run_bounds(msg@, d1s as int);
            lemma_digit_run_bounds(msg@, d2s as int);
        }
        let v1 = parse_digits(msg, d1s, d1e);
        let v2 = parse_digits(msg, d2s, d2e);
        proof {
            assert(msg@.subrange(d1s as int, d1e as int) == first_capture(msg@, i as int, p2@));
            assert(msg@.subrange(d2s as int, d2e as int) == second_capture(
                msg@,
                i as int,
                p2@,
                m2@,
            ));
        }
        match (v1, v2) {
            (Some(a), Some(b)) => UserOpMiddlewareError::PreVerificationGasError(a, b),
            _ => UserOpMiddlewareError::UnknownError,
        }
    } else {
        let marker: &[u8] = "AA40 over verificationGasLimit".as_bytes();
        if contains_subslice(msg, marker) {
            UserOpMiddlewareError::VerificationGasLimitError
        } else {
            UserOpMiddlewareError::UnknownError
        }
    }
}

/// Classifies the message of a relay error string.
pub fn classify_relay_error(message: &str) -> (r: UserOpMiddlewareError)
    ensures
        r == classify_spec(message.spec_bytes()),
{
    classify_relay_message(message.as_bytes())
}

/// Whether `pat@` occurs anywhere in `msg@`.
fn contains_subslice(msg: &[u8], pat: &[u8]) -> (r: bool)
    ensures
        r == contains_seq(msg@, pat@),
{
    let mut i: usize = 0;
    while i < msg.len()
        invariant
            i <= msg@.len(),
            forall|j: int|
                0 <= j < i ==> !(j + pat@.len() <= msg@.len() && #[trigger] msg@.subrange(
                    j,
                    j + pat@.len(),
                ) == pat@),
        decreases msg@.len() - i,
    {
        if match_at(msg, i, pat) {
            return true;
        }
        i = i + 1;
    }
    if match_at(msg, msg.len(), pat) {
        return true;
    }
    proof {
        assert(!contains_seq(msg@, pat@));
    }
    false
}

} // verus!
