//! The buffer tracer's kernel registry and the decisions it makes per launch:
//! whether to trace a kernel, and whether to dump its buffers in full.
use vstd::prelude::*;
use crate::text::{ptr_text, push_ptr, push_bytes, push_str};
use vstd::string::StringSliceAdditionalSpecFns;

verus! {

/// `needle` occurs in `hay` (an empty needle occurs everywhere).
pub open spec fn contains_sub(hay: Seq<u8>, needle: Seq<u8>) -> bool {
    exists|i: int|
        0 <= i && i + needle.len() <= hay.len() && #[trigger] hay.subrange(i, i + needle.len()) == needle
}

/// Byte-substring search (`str::contains` on the kernel names).
pub fn contains_bytes(hay: &[u8], needle: &[u8]) -> (r: bool)
    ensures
        r == contains_sub(hay@, needle@),
{
    let n = hay.len();
    let m = needle.len();
    if m > n {
        return false;
    }
    let mut i: usize = 0;
    while i <= n - m
        invariant
            m <= n,
            n == hay@.len(),
            m == needle@.len(),
            i <= n - m + 1,
            forall|k: int| 0 <= k < i ==> #[trigger] hay@.subrange(k, k + m) != needle@,
        decreases n - i,
    {
        let mut j: usize = 0;
        let mut eq = true;
        while j < m
            invariant
                i + m <= n,
                n == hay@.len(),
                m == needle@.len(),
                j <= m,
                eq == (forall|t: int| 0 <= t < j ==> hay@[i + t] == needle@[t]),
            decreases m - j,
        {
            if hay[i + j] != needle[j] {
                eq = false;
            }
            j = j + 1;
        }
        if eq {
            assert(hay@.subrange(i as int, i + m) =~= needle@);
            return true;
        }
        proof {
            if hay@.subrange(i as int, i + m) == needle@ {
                assert forall|t: int| 0 <= t < m implies hay@[i + t] == needle@[t] by {
                    assert(hay@.subrange(i as int, i + m)[t] == hay@[i + t]);
                }
            }
        }
        i = i + 1;
    }
    proof {
        if contains_sub(hay@, needle@) {
            let k = choose|k: int|
                0 <= k && k + needle@.len() <= hay@.len() && #[trigger] hay@.subrange(k, k + needle@.len())
                    == needle@;
            assert(hay@.subrange(k, k + m) == needle@);
        }
    }
    false
}

/// A registered kernel: its host function address and its name.
pub struct KernelInfo {
    pub host_func: u64,
    pub name: Vec<u8>,
}

/// The name a kernel gets when it was registered without one.
pub open spec fn default_kernel_name(host_func: u64) -> Seq<u8> {
    "kernel_"@.map_values(|c: char| c as u8) + ptr_text(host_func)
}

/// The index of the first entry for `h`, searching from `i`.
pub open spec fn kernel_index_from(s: Seq<(u64, Seq<u8>)>, h: u64, i: int) -> Option<int>
    decreases s.len() - i,
{
    if i < 0 || i >= s.len() {
        None
    } else if s[i].0 == h {
        Some(i)
    } else {
        kernel_index_from(s, h, i + 1)
    }
}

/// The name registered for `h`, if any.
pub open spec fn kernel_name_of(s: Seq<(u64, Seq<u8>)>, h: u64) -> Option<Seq<u8>> {
    match kernel_index_from(s, h, 0) {
        Some(i) => Some(s[i].1),
        None => None,
    }
}

pub proof fn lemma_kernel_index_skip(s: Seq<(u64, Seq<u8>)>, h: u64, i: int)
    requires
        0 <= i <= s.len(),
        forall|j: int| 0 <= j < i ==> (#[trigger] s[j]).0 != h,
    ensures
        kernel_index_from(s, h, 0) == kernel_index_from(s, h, i),
    decreases i,
{
    if i > 0 {
        lemma_kernel_index_skip(s, h, i - 1);
    }
}

pub proof fn lemma_kernel_index_props(s: Seq<(u64, Seq<u8>)>, h: u64, i: int)
    requires
        0 <= i,
    ensures
        kernel_index_from(s, h, i) matches Some(k) ==> i <= k < s.len() && s[k].0 == h,
        kernel_index_from(s, h, i) is None ==> forall|j: int| i <= j < s.len() ==> (#[trigger] s[j]).0 != h,
    decreases s.len() - i,
{
    if i < s.len() && s[i].0 != h {
        lemma_kernel_index_props(s, h, i + 1);
    }
}

/// The registry of kernels seen through `__hipRegisterFunction`.
pub struct KernelTable {
    kernels: Vec<KernelInfo>,
}

impl View for KernelTable {
    type V = Seq<(u64, Seq<u8>)>;

    closed spec fn view(&self) -> Seq<(u64, Seq<u8>)> {
        self.kernels@.map_values(|k: KernelInfo| (k.host_func, k.name@))
    }
}

/// Copies a byte slice.
pub fn copy_bytes(s: &[u8]) -> (r: Vec<u8>)
    ensures
        r@ == s@,
{
    let mut out: Vec<u8> = Vec::new();
    push_bytes(&mut out, s);
    assert(out@ =~= s@);
    out
}

impl KernelTable {
    /// An empty registry.
    pub fn new() -> (t: KernelTable)
        ensures
            t@ == Seq::<(u64, Seq<u8>)>::empty(),
    {
        let t = KernelTable { kernels: Vec::new() };
        assert(t@ =~= Seq::<(u64, Seq<u8>)>::empty());
        t
    }

    /// `kernel_table_add`: register `host_func` under `name`, or under
    /// `kernel_<ptr>` when no name is given. A null function or one already
    /// registered is left alone; the result says whether an entry was added.
    pub fn add(&mut self, host_func: u64, name: Option<&[u8]>) -> (r: bool)
        ensures
            r == (host_func != 0 && kernel_index_from(old(self)@, host_func, 0) is None),
            r ==> final(self)@ == old(self)@.push(
                (
                    host_func,
                    match name {
                        Some(n) => n@,
                        None => default_kernel_name(host_func),
                    },
                ),
            ),
            !r ==> final(self)@ == old(self)@,
    {
        if host_func == 0 {
            return false;
        }
        let n = self.kernels.len();
        let mut i: usize = 0;
        while i < n
            invariant
                n == self.kernels@.len(),
                n == self@.len(),
                i <= n,
                forall|j: int| 0 <= j < i ==> (#[trigger] self@[j]).0 != host_func,
            ensures
                i <= n,
                forall|j: int| 0 <= j < i ==> (#[trigger] self@[j]).0 != host_func,
                i < n ==> self@[i as int].0 == host_func,
            decreases n - i,
        {
            if self.kernels[i].host_func == host_func {
                break;
            }
            i = i + 1;
        }
        proof {
            lemma_kernel_index_skip(self@, host_func, i as int);
        }
        if i < n {
            return false;
        }
        let bytes = match name {
            Some(nm) => copy_bytes(nm),
            None => {
                let mut out: Vec<u8> = Vec::new();
                push_str(&mut out, "kernel_");
                proof {
                    reveal_strlit("kernel_");
                    vstd::string::is_ascii_spec_bytes("kernel_");
                }
                push_ptr(&mut out, host_func);
                assert("kernel_".spec_bytes() =~= "kernel_"@.map_values(|c: char| c as u8));
                out
            },
        };
        let ghost before = self@;
        self.kernels.push(KernelInfo { host_func, name: bytes });
        assert(self@ =~= before.push((host_func, match name {
            Some(n) => n@,
            None => default_kernel_name(host_func),
        })));
        true
    }

    /// `kernel_table_get_name`: the name registered for `host_func`.
    pub fn get_name(&self, host_func: u64) -> (r: Option<Vec<u8>>)
        ensures
            r matches Some(v) ==> kernel_name_of(self@, host_func) == Some(v@),
            r is None ==> kernel_name_of(self@, host_func) is None,
    {
        let n = self.kernels.len();
        let mut i: usize = 0;
        while i < n
            invariant
                n == self.kernels@.len(),
                n == self@.len(),
                i <= n,
                forall|j: int| 0 <= j < i ==> (#[trigger] self@[j]).0 != host_func,
            decreases n - i,
        {
            if self.kernels[i].host_func == host_func {
                proof {
                    lemma_kernel_index_skip(self@, host_func, i as int);
                }
                return Some(copy_bytes(self.kernels[i].name.as_slice()));
            }
            i = i + 1;
        }
        proof {
            lemma_kernel_index_skip(self@, host_func, n as int);
        }
        None
    }
}

/// Registering a kernel makes its name retrievable: the given one (or the
/// default) for a new function, the earlier one for a function seen before.
pub proof fn law_register_then_lookup(
    before: Seq<(u64, Seq<u8>)>,
    after: Seq<(u64, Seq<u8>)>,
    host_func: u64,
    name: Seq<u8>,
)
    requires
        host_func != 0,
        kernel_index_from(before, host_func, 0) is None ==> after == before.push((host_func, name)),
        kernel_index_from(before, host_func, 0) is Some ==> after == before,
    ensures
        kernel_index_from(before, host_func, 0) is None ==> kernel_name_of(after, host_func) == Some(name),
        kernel_index_from(before, host_func, 0) is Some ==> kernel_name_of(after, host_func) == kernel_name_of(
            before,
            host_func,
        ),
{
    lemma_kernel_index_props(before, host_func, 0);
    if kernel_index_from(before, host_func, 0) is None {
        assert forall|j: int| 0 <= j < before.len() implies (#[trigger] after[j]).0 != host_func by {
            assert(after[j] == before[j]);
        }
        lemma_kernel_index_skip(after, host_func, before.len() as int);
    }
}

/// `should_trace_kernel`: a launch is traced while the count limit (if any) is
/// not reached, and, when a non-empty filter is set, only if the kernel has a
/// name that contains the filter.
pub open spec fn trace_kernel_spec(limit: i32, count: i32, filter: Option<Seq<u8>>, name: Option<Seq<u8>>) -> bool {
    &&& !(limit > 0 && count >= limit)
    &&& (filter is Some && filter->0.len() > 0 ==> (name is Some && contains_sub(name->0, filter->0)))
}

pub fn should_trace_kernel(limit: i32, count: i32, filter: Option<&[u8]>, name: Option<&[u8]>) -> (r: bool)
    ensures
        r == trace_kernel_spec(
            limit,
            count,
            match filter {
                Some(f) => Some(f@),
                None => None,
            },
            match name {
                Some(n) => Some(n@),
                None => None,
            },
        ),
{
    if limit > 0 && count >= limit {
        return false;
    }
    match filter {
        Some(f) => {
            if f.len() > 0 {
                match name {
                    Some(n) => contains_bytes(n, f),
                    None => false,
                }
            } else {
                true
            }
        },
        None => true,
    }
}

/// With a kernel count limit set, the launches that are traced never take
/// the count past the limit: a launch is traced only while the count is
/// below it, and each traced launch counts one.
pub proof fn law_trace_count_bounded(limit: i32, count: i32, filter: Option<Seq<u8>>, name: Option<Seq<u8>>)
    requires
        limit > 0,
        0 <= count <= limit,
    ensures
        count + (if trace_kernel_spec(limit, count, filter, name) {
            1int
        } else {
            0int
        }) <= limit,
        count == limit ==> !trace_kernel_spec(limit, count, filter, name),
{
}

/// The kernel filter and the count limit each have a veto: a launch whose
/// name does not contain a non-empty filter (or that has no name) is not
/// traced whatever the limit and count; one the limit has been reached for
/// is not traced whatever its name; and a launch that passes both is traced.
pub proof fn law_trace_decision(limit: i32, count: i32, filter: Option<Seq<u8>>, name: Option<Seq<u8>>)
    ensures
        filter is Some && filter->0.len() > 0 && (name is None || forall|i: int|
            0 <= i && i + filter->0.len() <= name->0.len() ==> #[trigger] name->0.subrange(i, i + filter->0.len())
                != filter->0) ==> !trace_kernel_spec(limit, count, filter, name),
        limit > 0 && count >= limit ==> !trace_kernel_spec(limit, count, filter, name),
        !(limit > 0 && count >= limit) && (filter is None || filter->0.len() == 0) ==> trace_kernel_spec(
            limit,
            count,
            filter,
            name,
        ),
        !(limit > 0 && count >= limit) && filter is Some && name is Some && (exists|i: int|
            0 <= i && i + filter->0.len() <= name->0.len() && #[trigger] name->0.subrange(i, i + filter->0.len())
                == filter->0) ==> trace_kernel_spec(limit, count, filter, name),
{
}

/// The index of the first ':' at or after `i` (the length if there is none).
pub open spec fn colon_index(s: Seq<u8>, i: int) -> int
    decreases s.len() - i,
{
    if i < 0 || i >= s.len() {
        s.len() as int
    } else if s[i] == 58 {
        i
    } else {
        colon_index(s, i + 1)
    }
}

pub proof fn lemma_colon_index(s: Seq<u8>, i: int)
    requires
        0 <= i <= s.len(),
    ensures
        i <= colon_index(s, i) <= s.len(),
        colon_index(s, i) < s.len() ==> s[colon_index(s, i)] == 58,
        forall|j: int| i <= j < colon_index(s, i) ==> s[j] != 58,
    decreases s.len() - i,
{
    if i < s.len() && s[i] != 58 {
        lemma_colon_index(s, i + 1);
    }
}

/// The first ':'-separated token of `list` that is non-empty and occurs in
/// `name` (the tokens as `str::split(':')` yields them).
pub open spec fn full_dump_match(list: Seq<u8>, name: Seq<u8>) -> Option<Seq<u8>>
    decreases list.len(),
{
    let k = colon_index(list, 0);
    let tok = list.subrange(0, k);
    if k < 0 || k > list.len() {
        None
    } else if tok.len() > 0 && contains_sub(name, tok) {
        Some(tok)
    } else if k >= list.len() {
        None
    } else {
        full_dump_match(list.subrange(k + 1, list.len() as int), name)
    }
}

/// `should_full_dump_kernel`: the token of the full-dump list that matches the
/// kernel's name, if the list is set and non-empty and the kernel is named.
pub fn should_full_dump_kernel(list: Option<&[u8]>, name: Option<&[u8]>) -> (r: Option<Vec<u8>>)
    ensures
        (list is Some && list->0@.len() > 0 && name is Some) ==> match r {
            Some(t) => full_dump_match(list->0@, name->0@) == Some(t@),
            None => full_dump_match(list->0@, name->0@) is None,
        },
        !(list is Some && list->0@.len() > 0 && name is Some) ==> r is None,
{
    let l = match list {
        Some(l) => l,
        None => return None,
    };
    let n = match name {
        Some(n) => n,
        None => return None,
    };
    if l.len() == 0 {
        return None;
    }
    let len = l.len();
    let mut start: usize = 0;
    assert(l@.subrange(0, len as int) =~= l@);
    loop
        invariant
            list == Some(l),
            name == Some(n),
            len > 0,
            len == l@.len(),
            start <= len,
            full_dump_match(l@, n@) == full_dump_match(l@.subrange(start as int, len as int), n@),
        decreases len - start,
    {
        let mut k: usize = start;
        while k < len
            invariant
                start <= k <= len,
                len == l@.len(),
                forall|j: int| start <= j < k ==> l@[j] != 58,
            ensures
                start <= k <= len,
                forall|j: int| start <= j < k ==> l@[j] != 58,
                k < len ==> l@[k as int] == 58,
            decreases len - k,
        {
            if l[k] == 58u8 {
                break;
            }
            k = k + 1;
        }
        let ghost rest = l@.subrange(start as int, len as int);
        proof {
            lemma_colon_index(rest, 0);
            assert(colon_index(rest, 0) == k - start) by {
                lemma_colon_index_at(rest, (k - start) as int);
            }
        }
        let mut tok: Vec<u8> = Vec::new();
        let mut t: usize = start;
        while t < k
            invariant
                start <= t <= k <= len,
                len == l@.len(),
                tok@ == l@.subrange(start as int, t as int),
            decreases k - t,
        {
            tok.push(l[t]);
            t = t + 1;
            assert(tok@ =~= l@.subrange(start as int, t as int));
        }
        assert(tok@ =~= rest.subrange(0, (k - start) as int));
        if tok.len() > 0 && contains_bytes(n, tok.as_slice()) {
            return Some(tok);
        }
        if k == len {
            return None;
        }
        assert(rest.subrange((k - start + 1) as int, rest.len() as int) =~= l@.subrange(k + 1, len as int));
        start = k + 1;
    }
}

/// The colon search of a sequence whose first ':' sits at `k`.
pub proof fn lemma_colon_index_at(s: Seq<u8>, k: int)
    requires
        0 <= k <= s.len(),
        forall|j: int| 0 <= j < k ==> s[j] != 58,
        k < s.len() ==> s[k] == 58,
    ensures
        colon_index(s, 0) == k,
{
    lemma_colon_index_from(s, 0, k);
}

proof fn lemma_colon_index_from(s: Seq<u8>, i: int, k: int)
    requires
        0 <= i <= k <= s.len(),
        forall|j: int| i <= j < k ==> s[j] != 58,
        k < s.len() ==> s[k] == 58,
    ensures
        colon_index(s, i) == k,
    decreases k - i,
{
    if i < k {
        lemma_colon_index_from(s, i + 1, k);
    }
}

} // verus!
