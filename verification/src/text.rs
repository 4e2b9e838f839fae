//! Byte-text building blocks for the trace and log lines: decimal and hex
//! numbers, glibc-style pointer text, and literal pieces.
use vstd::prelude::*;
use vstd::string::StringSliceAdditionalSpecFns;

verus! {

/// The lowercase hex digit for `d < 16`.
pub open spec fn hex_digit(d: nat) -> u8 {
    if d < 10 {
        (48 + d) as u8
    } else {
        (87 + d) as u8
    }
}

/// `{:x}`: the shortest lowercase hex text of `n`.
pub open spec fn hex_text(n: nat) -> Seq<u8>
    decreases n,
{
    if n < 16 {
        seq![hex_digit(n)]
    } else {
        hex_text(n / 16).push(hex_digit(n % 16))
    }
}

/// `{:0w x}`: hex text of `n`, left-padded with '0' to at least `w` digits.
pub open spec fn hex_padded(n: nat, w: nat) -> Seq<u8> {
    let t = hex_text(n);
    if t.len() < w {
        Seq::new((w - t.len()) as nat, |i: int| 48u8) + t
    } else {
        t
    }
}

/// `{}` of an unsigned number: its decimal text.
pub open spec fn dec_text(n: nat) -> Seq<u8>
    decreases n,
{
    if n < 10 {
        seq![(48 + n) as u8]
    } else {
        dec_text(n / 10).push((48 + n % 10) as u8)
    }
}

/// `{:0w}` of an unsigned number: decimal text left-padded with '0' to `w` digits.
pub open spec fn dec_padded(n: nat, w: nat) -> Seq<u8> {
    let t = dec_text(n);
    if t.len() < w {
        Seq::new((w - t.len()) as nat, |i: int| 48u8) + t
    } else {
        t
    }
}

/// `{}` of a signed number: '-' then the decimal text of its magnitude.
pub open spec fn int_text(i: int) -> Seq<u8> {
    if i < 0 {
        seq![45u8] + dec_text((-i) as nat)
    } else {
        dec_text(i as nat)
    }
}

/// glibc `%p`: `(nil)` for a null pointer, else `0x` and its hex text.
pub open spec fn ptr_text(p: u64) -> Seq<u8> {
    if p == 0 {
        seq![40u8, 110u8, 105u8, 108u8, 41u8]
    } else {
        seq![48u8, 120u8] + hex_text(p as nat)
    }
}

/// `16^k`.
pub open spec fn pow16(k: nat) -> nat
    decreases k,
{
    if k == 0 {
        1
    } else {
        16 * pow16((k - 1) as nat)
    }
}

/// A byte in two hex digits: its high and its low nibble, each written with
/// the digits `0123456789abcdef`.
pub proof fn law_byte_hex(x: u8)
    ensures
        hex_padded(x as nat, 2) == seq![
            seq![48u8, 49u8, 50u8, 51u8, 52u8, 53u8, 54u8, 55u8, 56u8, 57u8, 97u8, 98u8, 99u8, 100u8, 101u8, 102u8][(x / 16) as int],
            seq![48u8, 49u8, 50u8, 51u8, 52u8, 53u8, 54u8, 55u8, 56u8, 57u8, 97u8, 98u8, 99u8, 100u8, 101u8, 102u8][(x % 16) as int],
        ],
{
    let digits = seq![48u8, 49u8, 50u8, 51u8, 52u8, 53u8, 54u8, 55u8, 56u8, 57u8, 97u8, 98u8, 99u8, 100u8, 101u8, 102u8];
    assert(forall|d: nat| d < 16 ==> #[trigger] hex_digit(d) == digits[d as int]);
    if (x as nat) < 16 {
        assert(hex_padded(x as nat, 2) =~= seq![digits[(x / 16) as int], digits[(x % 16) as int]]);
    } else {
        assert(hex_text((x / 16) as nat) == seq![hex_digit((x / 16) as nat)]);
        assert(hex_padded(x as nat, 2) =~= seq![digits[(x / 16) as int], digits[(x % 16) as int]]);
    }
}

/// Below `16^k`, the hex text has at most `k` digits.
pub proof fn lemma_hex_len_bound(n: nat, k: nat)
    requires
        k >= 1,
        n < pow16(k),
    ensures
        1 <= hex_text(n).len() <= k,
    decreases k,
{
    if n >= 16 {
        let k1 = (k - 1) as nat;
        if k1 == 0 {
            assert(pow16(1) == 16) by {
                reveal_with_fuel(pow16, 2);
            }
        }
        assert(k1 >= 1);
        assert(n / 16 < pow16(k1)) by (nonlinear_arith)
            requires
                n < 16 * pow16(k1),
        ;
        lemma_hex_len_bound(n / 16, k1);
    }
}

/// The number of hex digits of a 64-bit number is between 1 and 16.
pub proof fn lemma_hex_text_len(n: nat)
    requires
        n < 0x1_0000_0000_0000_0000,
    ensures
        1 <= hex_text(n).len() <= 16,
{
    assert(pow16(16) == 0x1_0000_0000_0000_0000) by {
        reveal_with_fuel(pow16, 17);
    }
    lemma_hex_len_bound(n, 16);
}

/// Appends the bytes of `s` to `out`.
pub fn push_str(out: &mut Vec<u8>, s: &str)
    ensures
        final(out)@ == old(out)@ + s.spec_bytes(),
{
    let b = s.as_bytes();
    let ghost start = out@;
    let mut i: usize = 0;
    while i < b.len()
        invariant
            i <= b@.len(),
            b@ == s.spec_bytes(),
            out@ == start + b@.subrange(0, i as int),
        decreases b@.len() - i,
    {
        out.push(b[i]);
        i = i + 1;
        assert(b@.subrange(0, i as int) == b@.subrange(0, i - 1 as int).push(b@[i - 1]));
    }
    assert(b@.subrange(0, b@.len() as int) == b@);
}

/// Appends the bytes of `s` to `out`.
pub fn push_bytes(out: &mut Vec<u8>, s: &[u8])
    ensures
        final(out)@ == old(out)@ + s@,
{
    let ghost start = out@;
    let mut i: usize = 0;
    while i < s.len()
        invariant
            i <= s@.len(),
            out@ == start + s@.subrange(0, i as int),
        decreases s@.len() - i,
    {
        out.push(s[i]);
        i = i + 1;
        assert(s@.subrange(0, i as int) == s@.subrange(0, i - 1 as int).push(s@[i - 1]));
    }
    assert(s@.subrange(0, s@.len() as int) == s@);
}

fn hex_digit_exec(d: u64) -> (r: u8)
    requires
        d < 16,
    ensures
        r == hex_digit(d as nat),
{
    if d < 10 {
        (48 + d) as u8
    } else {
        (87 + d) as u8
    }
}

/// Appends `{:x}` of `n`.
pub fn push_hex(out: &mut Vec<u8>, n: u64)
    ensures
        final(out)@ == old(out)@ + hex_text(n as nat),
    decreases n,
{
    if n >= 16 {
        push_hex(out, n / 16);
    }
    out.push(hex_digit_exec(n % 16));
}

/// The number of hex digits `{:x}` writes for `n`.
pub fn hex_len(n: u64) -> (r: usize)
    ensures
        r == hex_text(n as nat).len(),
        1 <= r <= 16,
    decreases n,
{
    proof {
        lemma_hex_text_len(n as nat);
    }
    if n >= 16 {
        proof {
            lemma_hex_text_len((n / 16) as nat);
        }
        hex_len(n / 16) + 1
    } else {
        1
    }
}

/// Appends `{:0w x}` of `n`.
pub fn push_hex_padded(out: &mut Vec<u8>, n: u64, w: usize)
    ensures
        final(out)@ == old(out)@ + hex_padded(n as nat, w as nat),
{
    let len = hex_len(n);
    let ghost start = out@;
    if len < w {
        let pad = w - len;
        let mut i: usize = 0;
        while i < pad
            invariant
                i <= pad,
                out@ == start + Seq::new(i as nat, |k: int| 48u8),
            decreases pad - i,
        {
            out.push(48u8);
            i = i + 1;
            assert(Seq::new(i as nat, |k: int| 48u8) == Seq::new((i - 1) as nat, |k: int| 48u8).push(48u8));
        }
        let ghost mid = out@;
        push_hex(out, n);
        assert(out@ == start + (Seq::new(pad as nat, |k: int| 48u8) + hex_text(n as nat)));
    } else {
        push_hex(out, n);
    }
}

/// Appends the decimal text of `n`.
pub fn push_dec(out: &mut Vec<u8>, n: u64)
    ensures
        final(out)@ == old(out)@ + dec_text(n as nat),
    decreases n,
{
    if n >= 10 {
        push_dec(out, n / 10);
    }
    out.push((48 + n % 10) as u8);
}

/// The number of decimal digits of `n`.
pub fn dec_len(n: u64) -> (r: usize)
    ensures
        r == dec_text(n as nat).len(),
        1 <= r <= 20,
    decreases n,
{
    proof {
        lemma_dec_len_bound(n as nat, 20);
    }
    if n >= 10 {
        proof {
            lemma_dec_len_bound((n / 10) as nat, 20);
        }
        dec_len(n / 10) + 1
    } else {
        1
    }
}

/// `10^k`.
pub open spec fn pow10(k: nat) -> nat
    decreases k,
{
    if k == 0 {
        1
    } else {
        10 * pow10((k - 1) as nat)
    }
}

/// Below `10^k`, the decimal text has at most `k` digits.
pub proof fn lemma_dec_len_bound(n: nat, k: nat)
    requires
        k >= 1,
        n < pow10(k) || (k == 20 && n < 0x1_0000_0000_0000_0000),
    ensures
        1 <= dec_text(n).len() <= k,
    decreases k,
{
    if k == 20 && n < 0x1_0000_0000_0000_0000 {
        assert(pow10(20) == 100_000_000_000_000_000_000) by {
            reveal_with_fuel(pow10, 21);
        }
    }
    if n >= 10 {
        let k1 = (k - 1) as nat;
        if k1 == 0 {
            assert(pow10(1) == 10) by {
                reveal_with_fuel(pow10, 2);
            }
        }
        assert(n / 10 < pow10(k1)) by (nonlinear_arith)
            requires
                n < 10 * pow10(k1),
        ;
        lemma_dec_len_bound(n / 10, k1);
    }
}

/// Appends `{:0w}` of `n`.
pub fn push_dec_padded(out: &mut Vec<u8>, n: u64, w: usize)
    ensures
        final(out)@ == old(out)@ + dec_padded(n as nat, w as nat),
{
    let len = dec_len(n);
    let ghost start = out@;
    if len < w {
        let pad = w - len;
        let mut i: usize = 0;
        while i < pad
            invariant
                i <= pad,
                out@ == start + Seq::new(i as nat, |k: int| 48u8),
            decreases pad - i,
        {
            out.push(48u8);
            i = i + 1;
            assert(Seq::new(i as nat, |k: int| 48u8) == Seq::new((i - 1) as nat, |k: int| 48u8).push(48u8));
        }
        push_dec(out, n);
        assert(out@ == start + (Seq::new(pad as nat, |k: int| 48u8) + dec_text(n as nat)));
    } else {
        push_dec(out, n);
    }
}

/// Appends the decimal text of the signed `i`.
pub fn push_int(out: &mut Vec<u8>, i: i64)
    ensures
        final(out)@ == old(out)@ + int_text(i as int),
{
    if i < 0 {
        out.push(45u8);
        let m: u64 = if i == i64::MIN {
            9223372036854775808u64
        } else {
            (-i) as u64
        };
        let ghost mid = out@;
        push_dec(out, m);
        assert(out@ == old(out)@ + (seq![45u8] + dec_text(m as nat)));
    } else {
        push_dec(out, i as u64);
    }
}

/// Appends glibc `%p` text of `p`.
pub fn push_ptr(out: &mut Vec<u8>, p: u64)
    ensures
        final(out)@ == old(out)@ + ptr_text(p),
{
    if p == 0 {
        out.push(40u8);
        out.push(110u8);
        out.push(105u8);
        out.push(108u8);
        out.push(41u8);
        assert(out@ == old(out)@ + ptr_text(p));
    } else {
        out.push(48u8);
        out.push(120u8);
        let ghost mid = out@;
        push_hex(out, p);
        assert(out@ == old(out)@ + (seq![48u8, 120u8] + hex_text(p as nat)));
    }
}

/// glibc `%p` text of `p` (`p` in the trace lines).
pub fn p(ptr: u64) -> (r: Vec<u8>)
    ensures
        r@ == ptr_text(ptr),
{
    let mut out: Vec<u8> = Vec::new();
    push_ptr(&mut out, ptr);
    assert(out@ == Seq::<u8>::empty() + ptr_text(ptr));
    out
}

} // verus!
