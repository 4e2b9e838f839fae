//! Buffer dumps of the buffer tracer: the FNV-1a hash, the hex dump layout, and
//! the per-buffer lines written around kernel launches.
use vstd::prelude::*;
use vstd::string::StringSliceAdditionalSpecFns;
use crate::text::{dec_text, hex_padded, int_text, lemma_hex_len_bound, pow16, ptr_text, push_dec, push_hex_padded, push_int, push_ptr, push_str, push_bytes};
use crate::tracker::{buffer_type_name, BufferType, TrackedBuffer};

verus! {

pub const FNV_OFFSET_BASIS: u64 = 0xcbf2_9ce4_8422_2325;

pub const FNV_PRIME: u64 = 0x0000_0100_0000_01b3;

/// One FNV-1a step: xor in the byte, multiply by the prime modulo 2^64.
pub open spec fn fnv_step(h: u64, b: u8) -> u64 {
    (((h ^ (b as u64)) as nat * FNV_PRIME as nat) % 0x1_0000_0000_0000_0000nat) as u64
}

/// FNV-1a of `s` started from the state `h`.
pub open spec fn fnv_from(h: u64, s: Seq<u8>) -> u64
    decreases s.len(),
{
    if s.len() == 0 {
        h
    } else {
        fnv_step(fnv_from(h, s.drop_last()), s.last())
    }
}

/// The 64-bit FNV-1a hash of `s`.
pub open spec fn fnv1a(s: Seq<u8>) -> u64 {
    fnv_from(FNV_OFFSET_BASIS, s)
}

/// `compute_hash`: the 64-bit FNV-1a hash of the bytes.
pub fn compute_hash(data: &[u8]) -> (r: u64)
    ensures
        r == fnv1a(data@),
{
    let mut hash: u64 = FNV_OFFSET_BASIS;
    let mut i: usize = 0;
    while i < data.len()
        invariant
            i <= data@.len(),
            hash == fnv_from(FNV_OFFSET_BASIS, data@.subrange(0, i as int)),
        decreases data@.len() - i,
    {
        let ghost pre = data@.subrange(0, i as int);
        hash = (hash ^ (data[i] as u64)).wrapping_mul(FNV_PRIME);
        i = i + 1;
        assert(data@.subrange(0, i as int).drop_last() == pre);
    }
    assert(data@.subrange(0, data@.len() as int) == data@);
    hash
}

/// Hashing a concatenation continues from the hash of the first part.
pub proof fn law_hash_concat(h: u64, a: Seq<u8>, b: Seq<u8>)
    ensures
        fnv_from(h, a + b) == fnv_from(fnv_from(h, a), b),
    decreases b.len(),
{
    if b.len() == 0 {
        assert(a + b == a);
    } else {
        assert((a + b).drop_last() == a + b.drop_last());
        law_hash_concat(h, a, b.drop_last());
    }
}

/// The separator after the `n`-th byte (counting from 1) of a hex dump: a new
/// indented line every 32 bytes, a space every 4.
pub open spec fn dump_sep(n: nat) -> Seq<u8> {
    if n % 32 == 0 {
        seq![10u8, 32u8, 32u8, 32u8, 32u8]
    } else if n % 4 == 0 {
        seq![32u8]
    } else {
        Seq::empty()
    }
}

/// The hex digits and separators of the first `n` bytes.
pub open spec fn hex_body(data: Seq<u8>, n: nat) -> Seq<u8>
    decreases n,
{
    if n == 0 {
        Seq::empty()
    } else {
        hex_body(data, (n - 1) as nat) + hex_padded(data[n - 1] as nat, 2) + dump_sep(n)
    }
}

/// A byte's two-digit hex text is two characters long.
proof fn lemma_byte_hex_len(x: u8)
    ensures
        hex_padded(x as nat, 2).len() == 2,
{
    assert(pow16(2) == 256) by {
        reveal_with_fuel(pow16, 3);
    }
    lemma_hex_len_bound(x as nat, 2);
}

/// The hex dump is laid out in rows of 32 bytes: every byte takes two
/// digits, a space follows each group of 4 bytes within a row, and each full
/// row of 32 bytes ends with a newline and the next row's four-space indent
/// (so `n` bytes take `2n + n/4 + 4(n/32)` characters).
pub proof fn law_dump_rows(data: Seq<u8>, n: nat)
    ensures
        hex_body(data, n).len() == 2 * n + n / 4 + 4 * (n / 32),
        n >= 1 && n % 32 == 0 ==> hex_body(data, n).subrange(hex_body(data, n).len() - 5, hex_body(data, n).len() as int)
            == seq![10u8, 32u8, 32u8, 32u8, 32u8],
        n >= 1 && n % 4 == 0 && n % 32 != 0 ==> hex_body(data, n).subrange(
            hex_body(data, n).len() - 3,
            hex_body(data, n).len() as int,
        ) == hex_padded(data[n - 1] as nat, 2).push(32u8),
        n >= 1 && n % 4 != 0 ==> hex_body(data, n).subrange(hex_body(data, n).len() - 2, hex_body(data, n).len() as int)
            == hex_padded(data[n - 1] as nat, 2),
    decreases n,
{
    if n >= 1 {
        law_dump_rows(data, (n - 1) as nat);
        lemma_byte_hex_len(data[n - 1]);
        let prev = hex_body(data, (n - 1) as nat);
        let hp = hex_padded(data[n - 1] as nat, 2);
        let body = hex_body(data, n);
        assert(body == prev + hp + dump_sep(n));
        if n % 32 == 0 {
            assert(body.subrange(body.len() - 5, body.len() as int) =~= seq![10u8, 32u8, 32u8, 32u8, 32u8]);
        } else if n % 4 == 0 {
            assert(body.subrange(body.len() - 3, body.len() as int) =~= hp.push(32u8));
        } else {
            assert(body.subrange(body.len() - 2, body.len() as int) =~= hp);
        }
    }
}

pub open spec fn min_nat(a: nat, b: nat) -> nat {
    if a <= b {
        a
    } else {
        b
    }
}

/// `dump_buffer_hex`: four spaces, the first `min(size, max_bytes)` bytes in
/// hex, a note of how many bytes were left out, and a newline.
pub open spec fn hex_dump_text(data: Seq<u8>, size: nat, max_bytes: nat) -> Seq<u8> {
    seq![32u8, 32u8, 32u8, 32u8] + hex_body(data, min_nat(size, max_bytes)) + (if size > max_bytes {
        "... (".spec_bytes() + dec_text((size - max_bytes) as nat) + " more bytes)".spec_bytes()
    } else {
        Seq::empty()
    }) + seq![10u8]
}

pub fn dump_buffer_hex(data: &[u8], size: usize, max_bytes: usize) -> (r: Vec<u8>)
    requires
        data@.len() >= min_nat(size as nat, max_bytes as nat),
    ensures
        r@ == hex_dump_text(data@, size as nat, max_bytes as nat),
{
    let dump_size = if size < max_bytes {
        size
    } else {
        max_bytes
    };
    let mut out: Vec<u8> = Vec::new();
    out.push(32u8);
    out.push(32u8);
    out.push(32u8);
    out.push(32u8);
    let mut i: usize = 0;
    while i < dump_size
        invariant
            i <= dump_size,
            dump_size == min_nat(size as nat, max_bytes as nat),
            data@.len() >= dump_size,
            out@ == seq![32u8, 32u8, 32u8, 32u8] + hex_body(data@, i as nat),
        decreases dump_size - i,
    {
        let ghost before = out@;
        push_hex_padded(&mut out, data[i] as u64, 2);
        let n = i + 1;
        if n % 32 == 0 {
            out.push(10u8);
            out.push(32u8);
            out.push(32u8);
            out.push(32u8);
            out.push(32u8);
        } else if n % 4 == 0 {
            out.push(32u8);
        }
        assert(out@ =~= before + hex_padded(data@[i as int] as nat, 2) + dump_sep(n as nat));
        i = n;
    }
    let ghost body = out@;
    if size > max_bytes {
        push_str(&mut out, "... (");
        push_dec(&mut out, (size - max_bytes) as u64);
        push_str(&mut out, " more bytes)");
    }
    out.push(10u8);
    assert(out@ =~= hex_dump_text(data@, size as nat, max_bytes as nat));
    out
}

/// How many bytes of a buffer the dump reads: all of them for a full dump,
/// else at most the configured maximum (0 means no limit).
pub open spec fn read_size_spec(size: usize, dump_max: usize, force_full: bool) -> usize {
    if !force_full && dump_max > 0 && size > dump_max {
        dump_max
    } else {
        size
    }
}

pub fn dump_read_size(size: usize, dump_max: usize, force_full: bool) -> (r: usize)
    ensures
        r == read_size_spec(size, dump_max, force_full),
{
    if !force_full && dump_max > 0 && size > dump_max {
        dump_max
    } else {
        size
    }
}

/// How many bytes the hex dump of a buffer shows before it elides the rest.
pub fn dump_max_bytes(size: usize, dump_max: usize, force_full: bool) -> (r: usize)
    ensures
        r == (if force_full {
            size
        } else {
            dump_max
        }),
{
    if force_full {
        size
    } else {
        dump_max
    }
}

/// The bytes the read covers are enough for the hex dump it feeds.
pub proof fn lemma_read_covers_dump(size: usize, dump_max: usize, force_full: bool)
    ensures
        read_size_spec(size, dump_max, force_full) >= min_nat(
            size as nat,
            (if force_full {
                size
            } else {
                dump_max
            }) as nat,
        ),
{
}

/// `  [alloc <id>] <type> <ptr> size=<size>`, the head of each dump line.
pub open spec fn entry_head(b: TrackedBuffer) -> Seq<u8> {
    "  [alloc ".spec_bytes() + dec_text(b.alloc_id as nat) + "] ".spec_bytes() + type_name_bytes(b.btype)
        + " ".spec_bytes() + ptr_text(b.ptr) + " size=".spec_bytes() + dec_text(b.size as nat)
}

pub open spec fn type_name_bytes(t: BufferType) -> Seq<u8> {
    match t {
        BufferType::Device => "device".spec_bytes(),
        BufferType::Host => "host".spec_bytes(),
        BufferType::Managed => "managed".spec_bytes(),
    }
}

fn push_entry_head(out: &mut Vec<u8>, b: &TrackedBuffer)
    ensures
        final(out)@ == old(out)@ + entry_head(*b),
{
    let ghost start = out@;
    push_str(out, "  [alloc ");
    push_dec(out, b.alloc_id);
    push_str(out, "] ");
    let name = buffer_type_name(b.btype);
    push_str(out, name);
    assert(name.spec_bytes() == type_name_bytes(b.btype));
    push_str(out, " ");
    push_ptr(out, b.ptr);
    push_str(out, " size=");
    push_dec(out, b.size as u64);
    assert(out@ =~= start + entry_head(*b));
}

/// The line (before its timestamp) for a device buffer whose copy back failed.
pub fn dump_memcpy_failed_text(b: &TrackedBuffer, err: i32) -> (r: Vec<u8>)
    ensures
        r@ == entry_head(*b) + " - MEMCPY FAILED: ".spec_bytes() + int_text(err as int),
{
    let mut out: Vec<u8> = Vec::new();
    push_entry_head(&mut out, b);
    push_str(&mut out, " - MEMCPY FAILED: ");
    push_int(&mut out, err as i64);
    assert(out@ =~= entry_head(*b) + " - MEMCPY FAILED: ".spec_bytes() + int_text(err as int));
    out
}

/// The dump text of one buffer given the bytes read from it: one line with the
/// FNV-1a hash in hash mode, else a header line and the hex dump.
pub fn dump_entry_text(b: &TrackedBuffer, data: &[u8], hash_mode: bool, max_dump: usize) -> (r: Vec<u8>)
    requires
        !hash_mode ==> data@.len() >= min_nat(b.size as nat, max_dump as nat),
    ensures
        hash_mode ==> r@ == entry_head(*b) + " hash=0x".spec_bytes() + hex_padded(fnv1a(data@) as nat, 16)
            + seq![10u8],
        !hash_mode ==> r@ == entry_head(*b) + ":".spec_bytes() + seq![10u8] + hex_dump_text(
            data@,
            b.size as nat,
            max_dump as nat,
        ),
{
    let mut out: Vec<u8> = Vec::new();
    push_entry_head(&mut out, b);
    if hash_mode {
        let h = compute_hash(data);
        push_str(&mut out, " hash=0x");
        push_hex_padded(&mut out, h, 16);
        out.push(10u8);
        assert(out@ =~= entry_head(*b) + " hash=0x".spec_bytes() + hex_padded(fnv1a(data@) as nat, 16)
            + seq![10u8]);
    } else {
        push_str(&mut out, ":");
        out.push(10u8);
        let hex = dump_buffer_hex(data, b.size, max_dump);
        push_bytes(&mut out, hex.as_slice());
        assert(out@ =~= entry_head(*b) + ":".spec_bytes() + seq![10u8] + hex_dump_text(
            data@,
            b.size as nat,
            max_dump as nat,
        ));
    }
    out
}

/// `=== Buffer Dump: <label> (<count> buffers)[ [FULL DUMP]] ===`.
pub open spec fn dump_header_spec(label: Seq<u8>, count: nat, force_full: bool) -> Seq<u8> {
    "=== Buffer Dump: ".spec_bytes() + label + " (".spec_bytes() + dec_text(count) + " buffers)".spec_bytes() + (
    if force_full {
        " [FULL DUMP]".spec_bytes()
    } else {
        Seq::empty()
    }) + " ===".spec_bytes()
}

pub fn dump_header(label: &[u8], count: usize, force_full: bool) -> (r: Vec<u8>)
    ensures
        r@ == dump_header_spec(label@, count as nat, force_full),
{
    let mut out: Vec<u8> = Vec::new();
    push_str(&mut out, "=== Buffer Dump: ");
    push_bytes(&mut out, label);
    push_str(&mut out, " (");
    push_dec(&mut out, count as u64);
    push_str(&mut out, " buffers)");
    if force_full {
        push_str(&mut out, " [FULL DUMP]");
    }
    push_str(&mut out, " ===");
    assert(out@ =~= dump_header_spec(label@, count as nat, force_full));
    out
}

/// The buffers a dump visits: the slots in use with a non-empty size, in slot order.
pub open spec fn dump_target(b: TrackedBuffer) -> bool {
    b.in_use && b.size > 0
}

pub fn dump_targets(slots: &[TrackedBuffer]) -> (r: Vec<TrackedBuffer>)
    ensures
        r@ == slots@.filter(|b: TrackedBuffer| dump_target(b)),
{
    let mut out: Vec<TrackedBuffer> = Vec::new();
    let mut i: usize = 0;
    while i < slots.len()
        invariant
            i <= slots@.len(),
            out@ == slots@.subrange(0, i as int).filter(|b: TrackedBuffer| dump_target(b)),
        decreases slots@.len() - i,
    {
        let b = slots[i];
        proof {
            let s = slots@.subrange(0, i as int);
            assert(slots@.subrange(0, i + 1 as int) == s.push(slots@[i as int]));
            s.lemma_filter_push(slots@[i as int], |b: TrackedBuffer| dump_target(b));
        }
        if b.in_use && b.size > 0 {
            out.push(b);
        }
        i = i + 1;
    }
    assert(slots@.subrange(0, slots@.len() as int) == slots@);
    out
}

} // verus!
