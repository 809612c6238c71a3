//! Decimal text: formatting integers and reading the pid file.
//!
//! The external runtime writes the init process's pid as decimal text; the
//! engine reads it back, tolerating surrounding whitespace. Command
//! argument lists also need small integers rendered as decimal strings.

use vstd::prelude::*;
use vstd::string::StringExecFns;
use crate::error::Error;

verus! {

/// The character for one decimal digit value.
pub open spec fn digit_char(d: nat) -> char {
    if d == 0 { '0' } else if d == 1 { '1' } else if d == 2 { '2' }
    else if d == 3 { '3' } else if d == 4 { '4' } else if d == 5 { '5' }
    else if d == 6 { '6' } else if d == 7 { '7' } else if d == 8 { '8' }
    else { '9' }
}

/// The decimal rendering of a number, most significant digit first.
pub open spec fn spec_decimal(n: nat) -> Seq<char>
    decreases n,
{
    if n < 10 {
        seq![digit_char(n)]
    } else {
        spec_decimal(n / 10) + seq![digit_char(n % 10)]
    }
}

fn append_digit(s: &mut String, d: u64)
    requires
        d < 10,
    ensures
        final(s)@ == old(s)@ + seq![digit_char(d as nat)],
{
    proof {
        reveal_strlit("0"); reveal_strlit("1"); reveal_strlit("2");
        reveal_strlit("3"); reveal_strlit("4"); reveal_strlit("5");
        reveal_strlit("6"); reveal_strlit("7"); reveal_strlit("8");
        reveal_strlit("9");
    }
    if d == 0 { s.append("0") } else if d == 1 { s.append("1") }
    else if d == 2 { s.append("2") } else if d == 3 { s.append("3") }
    else if d == 4 { s.append("4") } else if d == 5 { s.append("5") }
    else if d == 6 { s.append("6") } else if d == 7 { s.append("7") }
    else if d == 8 { s.append("8") } else { s.append("9") }
}

fn append_decimal(s: &mut String, n: u64)
    ensures
        final(s)@ == old(s)@ + spec_decimal(n as nat),
    decreases n,
{
    if n < 10 {
        append_digit(s, n);
    } else {
        append_decimal(s, n / 10);
        append_digit(s, n % 10);
        proof {
            assert(old(s)@ + spec_decimal((n / 10) as nat) + seq![
                digit_char((n % 10) as nat),
            ] =~= old(s)@ + spec_decimal(n as nat));
        }
    }
}

/// Render a number as decimal text.
pub fn decimal_string(n: u64) -> (r: String)
    ensures
        r@ == spec_decimal(n as nat),
{
    let mut s = String::new();
    append_decimal(&mut s, n);
    proof {
        assert(Seq::<char>::empty() + spec_decimal(n as nat) =~= spec_decimal(n as nat));
    }
    s
}

/// Whitespace bytes tolerated around the pid digits.
pub open spec fn is_ws(b: u8) -> bool {
    b == 32 || b == 10 || b == 13 || b == 9
}

/// A decimal digit byte.
pub open spec fn is_digit_byte(b: u8) -> bool {
    48 <= b <= 57
}

pub open spec fn all_digits(s: Seq<u8>) -> bool {
    forall|i: int| 0 <= i < s.len() ==> is_digit_byte(#[trigger] s[i])
}

/// Leading whitespace removed.
pub open spec fn trim_start(s: Seq<u8>) -> Seq<u8>
    decreases s.len(),
{
    if s.len() > 0 && is_ws(s[0]) {
        trim_start(s.subrange(1, s.len() as int))
    } else {
        s
    }
}

/// Trailing whitespace removed.
pub open spec fn trim_end(s: Seq<u8>) -> Seq<u8>
    decreases s.len(),
{
    if s.len() > 0 && is_ws(s.last()) {
        trim_end(s.subrange(0, s.len() - 1))
    } else {
        s
    }
}

/// Whitespace removed from both ends.
pub open spec fn trimmed(s: Seq<u8>) -> Seq<u8> {
    trim_end(trim_start(s))
}

/// The value of a digit sequence read as decimal.
pub open spec fn digits_value(s: Seq<u8>) -> nat
    decreases s.len(),
{
    if s.len() == 0 {
        0
    } else {
        10 * digits_value(s.subrange(0, s.len() - 1)) + (
        if is_digit_byte(s.last()) { (s.last() - 48) as nat } else { 0 })
    }
}

pub open spec fn pow10(k: nat) -> nat
    decreases k,
{
    if k == 0 { 1 } else { 10 * pow10((k - 1) as nat) }
}

proof fn lemma_trim_start_skip(s: Seq<u8>, k: int)
    requires
        0 <= k <= s.len(),
        forall|i: int| 0 <= i < k ==> is_ws(#[trigger] s[i]),
        k == s.len() || !is_ws(s[k]),
    ensures
        trim_start(s) == s.subrange(k, s.len() as int),
    decreases k,
{
    if k == 0 {
        assert(s.subrange(0, s.len() as int) =~= s);
    } else {
        let t = s.subrange(1, s.len() as int);
        lemma_trim_start_skip(t, k - 1);
        assert(t.subrange(k - 1, t.len() as int) =~= s.subrange(k, s.len() as int));
    }
}

proof fn lemma_trim_end_take(s: Seq<u8>, k: int)
    requires
        0 <= k <= s.len(),
        forall|i: int| k <= i < s.len() ==> is_ws(#[trigger] s[i]),
        k == 0 || !is_ws(s[k - 1]),
    ensures
        trim_end(s) == s.subrange(0, k),
    decreases s.len() - k,
{
    if k == s.len() {
        if k == 0 {
            assert(trim_end(s) == s);
        } else {
            assert(trim_end(s) == s);
        }
        assert(s.subrange(0, k) =~= s);
    } else {
        let t = s.subrange(0, s.len() - 1);
        assert(is_ws(s.last()));
        lemma_trim_end_take(t, k);
        assert(t.subrange(0, k) =~= s.subrange(0, k));
    }
}

/// Parse the contents of a pid file: optional whitespace around a run of
/// decimal digits. Succeeds exactly when the trimmed text is one to
/// eighteen digits; the bound keeps the value well inside `i64`.
pub fn parse_pid_bytes(v: &Vec<u8>) -> (r: Result<i64, Error>)
    ensures
        r is Ok <==> (1 <= trimmed(v@).len() <= 18 && all_digits(trimmed(v@))),
        r matches Ok(n) ==> n == digits_value(trimmed(v@)) && n >= 0,
        r matches Err(e) ==> e is MalformedPidFile,
{
    let n = v.len();
    let mut a: usize = 0;
    while a < n && (v[a] == 32 || v[a] == 10 || v[a] == 13 || v[a] == 9)
        invariant
            0 <= a <= n,
            n == v.len(),
            forall|i: int| 0 <= i < a ==> is_ws(#[trigger] v@[i]),
        decreases n - a,
    {
        a = a + 1;
    }
    proof {
        lemma_trim_start_skip(v@, a as int);
    }
    let ghost st = v@.subrange(a as int, n as int);
    let mut b: usize = n;
    while b > a && (v[b - 1] == 32 || v[b - 1] == 10 || v[b - 1] == 13 || v[b - 1] == 9)
        invariant
            a <= b <= n,
            n == v.len(),
            forall|i: int| b <= i < n ==> is_ws(#[trigger] v@[i]),
        decreases b,
    {
        b = b - 1;
    }
    proof {
        assert(forall|i: int| b - a <= i < st.len() ==> is_ws(#[trigger] st[i]));
        lemma_trim_end_take(st, b - a);
        assert(st.subrange(0, b - a) =~= v@.subrange(a as int, b as int));
        assert(trimmed(v@) == v@.subrange(a as int, b as int));
    }
    let ghost tr = trimmed(v@);
    if b == a {
        assert(tr.len() == 0);
        return Err(Error::MalformedPidFile);
    }
    if b - a > 18 {
        return Err(Error::MalformedPidFile);
    }
    let mut val: u64 = 0;
    let mut j: usize = a;
    while j < b
        invariant
            a <= j <= b <= n,
            n == v.len(),
            b - a <= 18,
            tr == trimmed(v@),
            tr == v@.subrange(a as int, b as int),
            all_digits(v@.subrange(a as int, j as int)),
            val == digits_value(v@.subrange(a as int, j as int)),
            val < pow10((j - a) as nat),
        decreases b - j,
    {
        let c = v[j];
        if c < 48 || c > 57 {
            proof {
                assert(tr[j as int - a as int] == v@[j as int]);
                assert(!is_digit_byte(tr[j as int - a as int]));
                assert(!all_digits(tr));
            }
            return Err(Error::MalformedPidFile);
        }
        let ghost pre = v@.subrange(a as int, j as int);
        let ghost cur = v@.subrange(a as int, j + 1 as int);
        proof {
            assert(cur.subrange(0, cur.len() - 1) =~= pre);
            assert(cur.last() == v@[j as int]);
            assert(pow10((j - a) as nat) <= pow10(17)) by {
                lemma_pow10_mono((j - a) as nat, 17);
            }
            assert(pow10(18) == 10 * pow10(17));
            assert(pow10(18) < 0x8000_0000_0000_0000) by {
                reveal_with_fuel(pow10, 19);
            }
            assert(val * 10 + 9 < 0x8000_0000_0000_0000);
        }
        val = val * 10 + ((c - 48) as u64);
        j = j + 1;
    }
    proof {
        assert(v@.subrange(a as int, b as int) =~= tr);
        assert(pow10((b - a) as nat) <= pow10(18)) by {
            lemma_pow10_mono((b - a) as nat, 18);
        }
        assert(pow10(18) < 0x8000_0000_0000_0000) by {
            reveal_with_fuel(pow10, 19);
        }
    }
    Ok(val as i64)
}

proof fn lemma_pow10_mono(j: nat, k: nat)
    requires
        j <= k,
    ensures
        pow10(j) <= pow10(k),
    decreases k,
{
    if j < k {
        lemma_pow10_mono(j, (k - 1) as nat);
        assert(pow10(k) == 10 * pow10((k - 1) as nat));
    }
}

} // verus!
