//! The `atoi`/`atol` readers of the interceptors' environment settings:
//! leading whitespace, an optional sign, then the longest run of ASCII digits;
//! no digits, or a value too large for the type, reads as 0.
use vstd::prelude::*;
use vstd::string::StrSliceExecFns;

verus! {

/// `char::is_whitespace`: the Unicode `White_Space` characters.
pub open spec fn is_ws(c: char) -> bool {
    let u = c as u32;
    (0x09 <= u <= 0x0d) || u == 0x20 || u == 0x85 || u == 0xa0 || u == 0x1680 || (0x2000 <= u <= 0x200a)
        || u == 0x2028 || u == 0x2029 || u == 0x202f || u == 0x205f || u == 0x3000
}

pub fn is_ws_exec(c: char) -> (r: bool)
    ensures
        r == is_ws(c),
{
    let u = c as u32;
    (0x09 <= u && u <= 0x0d) || u == 0x20 || u == 0x85 || u == 0xa0 || u == 0x1680 || (0x2000 <= u && u
        <= 0x200a) || u == 0x2028 || u == 0x2029 || u == 0x202f || u == 0x205f || u == 0x3000
}

pub open spec fn is_digit(c: char) -> bool {
    '0' <= c <= '9'
}

/// The index of the first non-whitespace character at or after `i`.
pub open spec fn skip_ws(s: Seq<char>, i: int) -> int
    decreases s.len() - i,
{
    if i < 0 || i >= s.len() {
        i
    } else if is_ws(s[i]) {
        skip_ws(s, i + 1)
    } else {
        i
    }
}

/// The end of the run of digits that starts at `i`.
pub open spec fn digit_run_end(s: Seq<char>, i: int) -> int
    decreases s.len() - i,
{
    if i < 0 || i >= s.len() {
        i
    } else if is_digit(s[i]) {
        digit_run_end(s, i + 1)
    } else {
        i
    }
}

/// The value of a string of decimal digits.
pub open spec fn digits_value(d: Seq<char>) -> nat
    decreases d.len(),
{
    if d.len() == 0 {
        0
    } else {
        digits_value(d.drop_last()) * 10 + ((d.last() as u32) - 48) as nat
    }
}

/// Where the sign is, whether it is '-', and where the digits start.
pub open spec fn sign_and_start(s: Seq<char>) -> (bool, int) {
    let i = skip_ws(s, 0);
    if i < s.len() && s[i] == '-' {
        (true, i + 1)
    } else if i < s.len() && s[i] == '+' {
        (false, i + 1)
    } else {
        (false, i)
    }
}

/// What the reader gives for `s` when values above `max` read as 0.
pub open spec fn parse_leading_int(s: Seq<char>, max: nat) -> int {
    let (neg, start) = sign_and_start(s);
    let end = digit_run_end(s, start);
    let v = digits_value(s.subrange(start, end));
    let v = if end == start || v > max {
        0
    } else {
        v
    };
    if neg {
        -v
    } else {
        v as int
    }
}

proof fn lemma_skip_ws_at(s: Seq<char>, i: int, k: int)
    requires
        0 <= i <= k <= s.len(),
        forall|j: int| i <= j < k ==> is_ws(s[j]),
        k < s.len() ==> !is_ws(s[k]),
    ensures
        skip_ws(s, i) == k,
    decreases k - i,
{
    if i < k {
        lemma_skip_ws_at(s, i + 1, k);
    }
}

proof fn lemma_digit_run_at(s: Seq<char>, i: int, k: int)
    requires
        0 <= i <= k <= s.len(),
        forall|j: int| i <= j < k ==> is_digit(s[j]),
        k < s.len() ==> !is_digit(s[k]),
    ensures
        digit_run_end(s, i) == k,
    decreases k - i,
{
    if i < k {
        lemma_digit_run_at(s, i + 1, k);
    }
}

proof fn lemma_digits_value_grows(d: Seq<char>, c: char)
    requires
        is_digit(c),
    ensures
        digits_value(d.push(c)) >= digits_value(d),
        digits_value(d.push(c)) == digits_value(d) * 10 + ((c as u32) - 48) as nat,
{
    assert(d.push(c).drop_last() == d);
}

/// Reads the leading integer of `s`; values above `max` (at most `i64::MAX`) read as 0.
fn parse_leading(s: &str, max: u64) -> (r: i64)
    requires
        max <= i64::MAX,
    ensures
        r as int == parse_leading_int(s@, max as nat),
{
    let n = s.unicode_len();
    let mut i: usize = 0;
    while i < n && is_ws_exec(s.get_char(i))
        invariant
            n == s@.len(),
            i <= n,
            forall|j: int| 0 <= j < i ==> is_ws(s@[j]),
        decreases n - i,
    {
        i = i + 1;
    }
    proof {
        lemma_skip_ws_at(s@, 0, i as int);
    }
    let mut neg = false;
    if i < n {
        let c = s.get_char(i);
        if c == '-' {
            neg = true;
            i = i + 1;
        } else if c == '+' {
            i = i + 1;
        }
    }
    let start = i;
    assert(sign_and_start(s@) == (neg, start as int));
    let mut acc: u128 = 0;
    let mut over = false;
    while i < n && is_digit_exec(s.get_char(i))
        invariant
            n == s@.len(),
            start <= i <= n,
            max <= i64::MAX,
            forall|j: int| start <= j < i ==> is_digit(s@[j]),
            over == (digits_value(s@.subrange(start as int, i as int)) > max),
            !over ==> acc == digits_value(s@.subrange(start as int, i as int)),
        decreases n - i,
    {
        let c = s.get_char(i);
        let ghost pre = s@.subrange(start as int, i as int);
        proof {
            lemma_digits_value_grows(pre, c);
            assert(s@.subrange(start as int, i + 1 as int) == pre.push(c));
        }
        if !over {
            let d = (c as u32 - 48) as u128;
            acc = acc * 10 + d;
            if acc > max as u128 {
                over = true;
            }
        }
        i = i + 1;
    }
    proof {
        lemma_digit_run_at(s@, start as int, i as int);
    }
    let v: i64 = if i == start || over {
        0
    } else {
        acc as i64
    };
    if neg {
        -v
    } else {
        v
    }
}

fn is_digit_exec(c: char) -> (r: bool)
    ensures
        r == is_digit(c),
{
    '0' <= c && c <= '9'
}

/// `atoi` of the interceptors: the leading `i32` of `s`, or 0.
pub fn atoi(s: &str) -> (r: i32)
    ensures
        r as int == parse_leading_int(s@, i32::MAX as nat),
{
    let v = parse_leading(s, i32::MAX as u64);
    v as i32
}

/// `atol` of the buffer tracer: the leading `i64` of `s`, or 0.
pub fn atol(s: &str) -> (r: i64)
    ensures
        r as int == parse_leading_int(s@, i64::MAX as nat),
{
    parse_leading(s, i64::MAX as u64)
}

} // verus!
