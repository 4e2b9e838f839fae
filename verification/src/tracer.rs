//! The buffer tracer interceptor: its settings, its state, and the decisions
//! and lines of each intercepted call. The calls themselves, the clock and the
//! trace file are the caller's; this module says what to record and write.
use vstd::prelude::*;
use vstd::string::StringSliceAdditionalSpecFns;
use crate::dump::{dump_header, dump_header_spec};
use crate::kernels::{
    copy_bytes, full_dump_match, kernel_name_of, should_full_dump_kernel, should_trace_kernel,
    trace_kernel_spec, KernelTable,
};
use crate::numparse::{atoi, atol, parse_leading_int};
use crate::text::{
    dec_padded, dec_text, int_text, ptr_text, push_bytes, push_dec, push_dec_padded, push_int, push_ptr,
    push_str,
};
use crate::tracker::{AddOutcome, BufferTable, BufferType};

verus! {

/// `[<sec>.<usec:06>] <msg>\n`: a trace or log line stamped with the
/// monotonic clock.
pub open spec fn stamped_line_spec(sec: i64, nsec: i64, msg: Seq<u8>) -> Seq<u8> {
    seq![91u8] + int_text(sec as int) + seq![46u8] + dec_padded((nsec / 1000) as nat, 6) + seq![93u8, 32u8]
        + msg + seq![10u8]
}

pub fn stamped_line(sec: i64, nsec: i64, msg: &[u8]) -> (r: Vec<u8>)
    requires
        0 <= nsec < 1_000_000_000,
    ensures
        r@ == stamped_line_spec(sec, nsec, msg@),
{
    let mut out: Vec<u8> = Vec::new();
    out.push(91u8);
    push_int(&mut out, sec);
    out.push(46u8);
    push_dec_padded(&mut out, (nsec / 1000) as u64, 6);
    out.push(93u8);
    out.push(32u8);
    push_bytes(&mut out, msg);
    out.push(10u8);
    assert(out@ =~= stamped_line_spec(sec, nsec, msg@));
    out
}

/// A line is written when its level is at most the configured one.
pub fn level_enabled(level: i32, configured: i32) -> (r: bool)
    ensures
        r == (level <= configured),
{
    level <= configured
}

/// The buffer tracer's settings, read from its environment variables.
pub struct TracerConfig {
    pub trace_level: i32,
    pub trace_sync: bool,
    /// 0 = no dumps, 1 = full hex dumps, 2 = hashes.
    pub trace_dump: i32,
    pub trace_dump_max: usize,
    pub kernel_filter: Option<Vec<u8>>,
    pub kernel_count_limit: i32,
    pub kernel_full_dump_list: Option<Vec<u8>>,
}

pub open spec fn opt_bytes(s: Option<&str>) -> Option<Seq<u8>> {
    match s {
        Some(v) => Some(v.spec_bytes()),
        None => None,
    }
}

pub open spec fn opt_vec(v: Option<Vec<u8>>) -> Option<Seq<u8>> {
    match v {
        Some(x) => Some(x@),
        None => None,
    }
}

/// An integer setting: the leading `i32` of the value, else the default.
pub open spec fn int_setting(v: Option<&str>, default: i32) -> int {
    match v {
        Some(s) => parse_leading_int(s@, i32::MAX as nat),
        None => default as int,
    }
}

fn int_setting_exec(v: Option<&str>, default: i32) -> (r: i32)
    ensures
        r as int == int_setting(v, default),
{
    match v {
        Some(s) => atoi(s),
        None => default,
    }
}

fn str_bytes(s: &str) -> (r: Vec<u8>)
    ensures
        r@ == s.spec_bytes(),
{
    copy_bytes(s.as_bytes())
}

impl TracerConfig {
    /// Reads the settings from the values of `HIP_TRACE_LEVEL` (default 2),
    /// `HIP_TRACE_SYNC` (non-zero enables), `HIP_TRACE_DUMP` (default 0),
    /// `HIP_TRACE_DUMP_MAX` (default 1024), `HIP_TRACE_KERNEL_FILTER`,
    /// `HIP_TRACE_KERNEL_COUNT` (default 0) and `HIP_TRACE_KERNEL_FULL_DUMP`
    /// (an empty list is no list); `None` is an unset variable.
    pub fn from_env(
        level: Option<&str>,
        sync: Option<&str>,
        dump: Option<&str>,
        dump_max: Option<&str>,
        kernel_filter: Option<&str>,
        kernel_count: Option<&str>,
        full_dump: Option<&str>,
    ) -> (c: TracerConfig)
        ensures
            c.trace_level as int == int_setting(level, 2),
            c.trace_sync == (int_setting(sync, 0) != 0),
            c.trace_dump as int == int_setting(dump, 0),
            c.trace_dump_max == (match dump_max {
                Some(s) => parse_leading_int(s@, i64::MAX as nat) as usize,
                None => 1024usize,
            }),
            opt_vec(c.kernel_filter) == opt_bytes(kernel_filter),
            c.kernel_count_limit as int == int_setting(kernel_count, 0),
            opt_vec(c.kernel_full_dump_list) == (match full_dump {
                Some(s) => if s@.len() > 0 {
                    Some(s.spec_bytes())
                } else {
                    None
                },
                None => None,
            }),
    {
        let trace_dump_max = match dump_max {
            Some(s) => {
                let v = atol(s);
                #[verifier::truncate]
                (v as usize)
            },
            None => 1024,
        };
        let filter = match kernel_filter {
            Some(s) => Some(str_bytes(s)),
            None => None,
        };
        let full = match full_dump {
            Some(s) => if s.is_empty() {
                None
            } else {
                Some(str_bytes(s))
            },
            None => None,
        };
        TracerConfig {
            trace_level: int_setting_exec(level, 2),
            trace_sync: int_setting_exec(sync, 0) != 0,
            trace_dump: int_setting_exec(dump, 0),
            trace_dump_max,
            kernel_filter: filter,
            kernel_count_limit: int_setting_exec(kernel_count, 0),
            kernel_full_dump_list: full,
        }
    }
}

/// The lines the tracer writes at level 1 when it starts, in order.
pub open spec fn init_lines_spec(c: TracerConfig) -> Seq<Seq<u8>> {
    let full = match c.kernel_full_dump_list {
        Some(l) => seq![
            "Full dump enabled for kernels (len=".spec_bytes() + dec_text(l@.len()) + "): ".spec_bytes() + l@,
        ],
        None => Seq::empty(),
    };
    let filter = match c.kernel_filter {
        Some(f) => if f@.len() > 0 {
            seq!["  kernel_filter=".spec_bytes() + f@]
        } else {
            Seq::empty()
        },
        None => Seq::empty(),
    };
    let limit = if c.kernel_count_limit > 0 {
        seq!["  kernel_count_limit=".spec_bytes() + int_text(c.kernel_count_limit as int)]
    } else {
        Seq::empty()
    };
    full + seq![
        "HIP Buffer Tracer initialized".spec_bytes(),
        "  trace_level=".spec_bytes() + int_text(c.trace_level as int) + ", trace_sync=".spec_bytes()
            + int_text(if c.trace_sync {
            1
        } else {
            0
        }) + ", trace_dump=".spec_bytes() + int_text(c.trace_dump as int) + ", dump_max=".spec_bytes()
            + dec_text(c.trace_dump_max as nat),
    ] + filter + limit
}

fn str_line(s: &str) -> (r: Vec<u8>)
    ensures
        r@ == s.spec_bytes(),
{
    let mut out: Vec<u8> = Vec::new();
    push_str(&mut out, s);
    assert(out@ =~= s.spec_bytes());
    out
}

pub open spec fn lines_view(v: Seq<Vec<u8>>) -> Seq<Seq<u8>> {
    Seq::new(v.len(), |i: int| v[i]@)
}

fn push_line(lines: &mut Vec<Vec<u8>>, line: Vec<u8>)
    ensures
        lines_view(final(lines)@) == lines_view(old(lines)@).push(line@),
{
    lines.push(line);
    assert(lines_view(lines@) =~= lines_view(old(lines)@).push(line@));
}

/// The lines the tracer writes when it starts.
pub fn init_lines(c: &TracerConfig) -> (r: Vec<Vec<u8>>)
    ensures
        lines_view(r@) == init_lines_spec(*c),
{
    let mut lines: Vec<Vec<u8>> = Vec::new();
    if let Some(l) = &c.kernel_full_dump_list {
        let mut out: Vec<u8> = Vec::new();
        push_str(&mut out, "Full dump enabled for kernels (len=");
        push_dec(&mut out, l.len() as u64);
        push_str(&mut out, "): ");
        push_bytes(&mut out, l.as_slice());
        push_line(&mut lines, out);
    }
    push_line(&mut lines, str_line("HIP Buffer Tracer initialized"));
    let mut out: Vec<u8> = Vec::new();
    push_str(&mut out, "  trace_level=");
    push_int(&mut out, c.trace_level as i64);
    push_str(&mut out, ", trace_sync=");
    push_int(&mut out, if c.trace_sync {
        1
    } else {
        0
    });
    push_str(&mut out, ", trace_dump=");
    push_int(&mut out, c.trace_dump as i64);
    push_str(&mut out, ", dump_max=");
    push_dec(&mut out, c.trace_dump_max as u64);
    push_line(&mut lines, out);
    if let Some(f) = &c.kernel_filter {
        if f.len() > 0 {
            let mut out: Vec<u8> = Vec::new();
            push_str(&mut out, "  kernel_filter=");
            push_bytes(&mut out, f.as_slice());
            push_line(&mut lines, out);
        }
    }
    if c.kernel_count_limit > 0 {
        let mut out: Vec<u8> = Vec::new();
        push_str(&mut out, "  kernel_count_limit=");
        push_int(&mut out, c.kernel_count_limit as i64);
        push_line(&mut lines, out);
    }
    assert(lines_view(lines@) =~= init_lines_spec(*c));
    lines
}

/// The decisions taken before a kernel launch.
pub struct LaunchPlan {
    /// The registered name of the launched function.
    pub name: Option<Vec<u8>>,
    /// Whether the launch is traced (and counted).
    pub trace: bool,
    /// The full-dump token that matched the name, if any.
    pub full_dump_token: Option<Vec<u8>>,
    /// Whether the device is synchronised and every tracked buffer dumped
    /// before and after the launch: a traced launch with `HIP_TRACE_SYNC` set.
    pub sync: bool,
}

/// The whole state of the buffer tracer.
pub struct TracerState {
    pub config: TracerConfig,
    pub kernel_count: i32,
    pub buffers: BufferTable,
    pub kernels: KernelTable,
}

impl TracerState {
    /// The state right after initialisation: no kernel traced, nothing tracked.
    pub fn new(config: TracerConfig) -> (s: TracerState)
        ensures
            s.config == config,
            s.kernel_count == 0,
            s.buffers@.wf(),
            s.buffers@.count == 0,
            s.buffers@.next_alloc_id == 1,
            s.kernels@ == Seq::<(u64, Seq<u8>)>::empty(),
    {
        TracerState { config, kernel_count: 0, buffers: BufferTable::new(), kernels: KernelTable::new() }
    }

    /// What to do before launching `func`: look up its name, decide whether
    /// the launch is traced and whether its dumps are full.
    pub fn launch_plan(&self, func: u64) -> (p: LaunchPlan)
        ensures
            opt_vec(p.name) == kernel_name_of(self.kernels@, func),
            p.trace == trace_kernel_spec(
                self.config.kernel_count_limit,
                self.kernel_count,
                opt_vec(self.config.kernel_filter),
                opt_vec(p.name),
            ),
            (self.config.kernel_full_dump_list is Some && p.name is Some) ==> opt_vec(p.full_dump_token)
                == full_dump_match(self.config.kernel_full_dump_list->0@, p.name->0@),
            !(self.config.kernel_full_dump_list is Some && p.name is Some) ==> p.full_dump_token is None,
            p.sync == (p.trace && self.config.trace_sync),
    {
        let name = self.kernels.get_name(func);
        let filter: Option<&[u8]> = match &self.config.kernel_filter {
            Some(f) => Some(f.as_slice()),
            None => None,
        };
        let name_ref: Option<&[u8]> = match &name {
            Some(n) => Some(n.as_slice()),
            None => None,
        };
        let list: Option<&[u8]> = match &self.config.kernel_full_dump_list {
            Some(l) => Some(l.as_slice()),
            None => None,
        };
        let trace = should_trace_kernel(self.config.kernel_count_limit, self.kernel_count, filter, name_ref);
        let full = should_full_dump_kernel(list, name_ref);
        proof {
            if self.config.kernel_full_dump_list is Some && name is Some {
                if self.config.kernel_full_dump_list->0@.len() == 0 {
                    reveal_with_fuel(full_dump_match, 1);
                    crate::kernels::lemma_colon_index(self.config.kernel_full_dump_list->0@, 0);
                    assert(self.config.kernel_full_dump_list->0@.subrange(0, 0) =~= Seq::<u8>::empty());
                }
            }
        }
        LaunchPlan { name, trace, full_dump_token: full, sync: trace && self.config.trace_sync }
    }

    /// After a launch: a traced launch counts one more kernel.
    pub fn finish_launch(&mut self, plan: &LaunchPlan)
        requires
            old(self).kernel_count < i32::MAX,
        ensures
            final(self).kernel_count == old(self).kernel_count + if plan.trace {
                1int
            } else {
                0int
            },
            final(self).config == old(self).config,
            final(self).buffers@ == old(self).buffers@,
            final(self).kernels@ == old(self).kernels@,
    {
        if plan.trace {
            self.kernel_count = self.kernel_count + 1;
        }
    }

    /// Records a successful allocation; when the table is full, the level 1
    /// warning to write is returned.
    pub fn track_allocation(&mut self, ptr: u64, size: usize, btype: BufferType) -> (warning: Option<Vec<u8>>)
        requires
            old(self).buffers@.wf(),
            old(self).buffers@.next_alloc_id < u64::MAX,
        ensures
            final(self).buffers@.wf(),
            final(self).buffers@ == old(self).buffers@.add(ptr, size, btype).0,
            final(self).config == old(self).config,
            final(self).kernel_count == old(self).kernel_count,
            final(self).kernels@ == old(self).kernels@,
            old(self).buffers@.add(ptr, size, btype).1 is TableFull ==> warning is Some && warning->0@
                == "WARNING: buffer table full, cannot track ".spec_bytes() + ptr_text(ptr),
            !(old(self).buffers@.add(ptr, size, btype).1 is TableFull) ==> warning is None,
    {
        let r = self.buffers.add(ptr, size, btype);
        match r {
            AddOutcome::TableFull => {
                let mut out: Vec<u8> = Vec::new();
                push_str(&mut out, "WARNING: buffer table full, cannot track ");
                push_ptr(&mut out, ptr);
                assert(out@ =~= "WARNING: buffer table full, cannot track ".spec_bytes() + ptr_text(ptr));
                Some(out)
            },
            _ => None,
        }
    }

    /// Forgets a freed allocation.
    pub fn untrack_allocation(&mut self, ptr: u64)
        requires
            old(self).buffers@.wf(),
        ensures
            final(self).buffers@.wf(),
            final(self).buffers@ == old(self).buffers@.remove(ptr).0,
            final(self).config == old(self).config,
            final(self).kernel_count == old(self).kernel_count,
            final(self).kernels@ == old(self).kernels@,
    {
        self.buffers.remove(ptr);
    }

    /// Records a registered kernel (its device name when it has one).
    pub fn register_function(&mut self, host_func: u64, device_name: Option<&[u8]>)
        ensures
            final(self).kernels@ == (if host_func != 0 && crate::kernels::kernel_index_from(
                old(self).kernels@,
                host_func,
                0,
            ) is None {
                old(self).kernels@.push(
                    (
                        host_func,
                        match device_name {
                            Some(n) => n@,
                            None => crate::kernels::default_kernel_name(host_func),
                        },
                    ),
                )
            } else {
                old(self).kernels@
            }),
            final(self).config == old(self).config,
            final(self).kernel_count == old(self).kernel_count,
            final(self).buffers@ == old(self).buffers@,
    {
        self.kernels.add(host_func, device_name);
    }

    /// Whether dumps are on at all.
    pub fn dumps_enabled(&self) -> (r: bool)
        ensures
            r == (self.config.trace_dump != 0),
    {
        self.config.trace_dump != 0
    }

    /// Whether a buffer's dump is a hash line (hash mode, unless a full dump).
    pub fn hash_mode(&self, force_full: bool) -> (r: bool)
        ensures
            r == (self.config.trace_dump == 2 && !force_full),
    {
        self.config.trace_dump == 2 && !force_full
    }

    /// The header line of a dump with `label`.
    pub fn dump_header_line(&self, label: &[u8], force_full: bool) -> (r: Vec<u8>)
        requires
            self.buffers@.wf(),
        ensures
            r@ == dump_header_spec(label@, self.buffers@.count, force_full),
    {
        dump_header(label, self.buffers.count(), force_full)
    }

    /// The lines the tracer writes when it shuts down.
    pub fn shutdown_lines(&self) -> (r: Vec<Vec<u8>>)
        requires
            self.buffers@.wf(),
        ensures
            lines_view(r@) == seq![
                "HIP Buffer Tracer shutting down".spec_bytes(),
                "  Total kernels traced: ".spec_bytes() + int_text(self.kernel_count as int),
                "  Total buffers tracked: ".spec_bytes() + dec_text(self.buffers@.count),
            ],
    {
        let mut lines: Vec<Vec<u8>> = Vec::new();
        push_line(&mut lines, str_line("HIP Buffer Tracer shutting down"));
        let mut a: Vec<u8> = Vec::new();
        push_str(&mut a, "  Total kernels traced: ");
        push_int(&mut a, self.kernel_count as i64);
        push_line(&mut lines, a);
        let mut b: Vec<u8> = Vec::new();
        push_str(&mut b, "  Total buffers tracked: ");
        push_dec(&mut b, self.buffers.count() as u64);
        push_line(&mut lines, b);
        assert(lines_view(lines@) =~= seq![
            "HIP Buffer Tracer shutting down".spec_bytes(),
            "  Total kernels traced: ".spec_bytes() + int_text(self.kernel_count as int),
            "  Total buffers tracked: ".spec_bytes() + dec_text(self.buffers@.count),
        ]);
        lines
    }
}

/// The kernel's name in a label, `(unknown)` when it has none.
pub open spec fn label_name(name: Option<Seq<u8>>) -> Seq<u8> {
    match name {
        Some(n) => n,
        None => "(unknown)".spec_bytes(),
    }
}

/// `BEFORE kernel #<count>: <name>`.
pub fn before_label(count: i32, name: Option<&[u8]>) -> (r: Vec<u8>)
    ensures
        r@ == "BEFORE kernel #".spec_bytes() + int_text(count as int) + ": ".spec_bytes() + label_name(
            match name {
                Some(n) => Some(n@),
                None => None,
            },
        ),
{
    let mut out: Vec<u8> = Vec::new();
    push_str(&mut out, "BEFORE kernel #");
    push_int(&mut out, count as i64);
    push_str(&mut out, ": ");
    match name {
        Some(n) => push_bytes(&mut out, n),
        None => push_str(&mut out, "(unknown)"),
    }
    out
}

/// `AFTER kernel #<count>: <name> (ret=<err>)`.
pub fn after_label(count: i32, name: Option<&[u8]>, err: i32) -> (r: Vec<u8>)
    ensures
        r@ == "AFTER kernel #".spec_bytes() + int_text(count as int) + ": ".spec_bytes() + label_name(
            match name {
                Some(n) => Some(n@),
                None => None,
            },
        ) + " (ret=".spec_bytes() + int_text(err as int) + ")".spec_bytes(),
{
    let mut out: Vec<u8> = Vec::new();
    push_str(&mut out, "AFTER kernel #");
    push_int(&mut out, count as i64);
    push_str(&mut out, ": ");
    match name {
        Some(n) => push_bytes(&mut out, n),
        None => push_str(&mut out, "(unknown)"),
    }
    push_str(&mut out, " (ret=");
    push_int(&mut out, err as i64);
    push_str(&mut out, ")");
    out
}

/// `Full dump match: kernel='<name>' matches token='<token>'` (level 3).
pub fn full_dump_match_line(name: &[u8], token: &[u8]) -> (r: Vec<u8>)
    ensures
        r@ == "Full dump match: kernel='".spec_bytes() + name@ + "' matches token='".spec_bytes() + token@
            + "'".spec_bytes(),
{
    let mut out: Vec<u8> = Vec::new();
    push_str(&mut out, "Full dump match: kernel='");
    push_bytes(&mut out, name);
    push_str(&mut out, "' matches token='");
    push_bytes(&mut out, token);
    push_str(&mut out, "'");
    out
}

} // verus!

verus! {

/// Which launch call a trace line is for.
#[derive(Clone, Copy, PartialEq, Eq, Structural, Debug)]
pub enum LaunchKind {
    ModuleLaunchKernel,
    LaunchKernel,
    ExtModuleLaunchKernel,
}

/// `(x,y,z)`.
pub open spec fn dims_text(d: (u32, u32, u32)) -> Seq<u8> {
    "(".spec_bytes() + dec_text(d.0 as nat) + ",".spec_bytes() + dec_text(d.1 as nat) + ",".spec_bytes()
        + dec_text(d.2 as nat) + ")".spec_bytes()
}

fn push_dims(out: &mut Vec<u8>, d: (u32, u32, u32))
    ensures
        final(out)@ == old(out)@ + dims_text(d),
{
    let ghost start = out@;
    push_str(out, "(");
    push_dec(out, d.0 as u64);
    push_str(out, ",");
    push_dec(out, d.1 as u64);
    push_str(out, ",");
    push_dec(out, d.2 as u64);
    push_str(out, ")");
    assert(out@ =~= start + dims_text(d));
}

/// The trace line written before a launch, naming the call, the function and
/// its registered name (`?` if none), the two launch shapes, the shared
/// memory size and the stream; the extended launch adds its flags.
pub open spec fn launch_line_spec(
    kind: LaunchKind,
    func: u64,
    name: Option<Seq<u8>>,
    first: (u32, u32, u32),
    second: (u32, u32, u32),
    shared: u64,
    stream: u64,
    flags: u32,
) -> Seq<u8> {
    let call = match kind {
        LaunchKind::ModuleLaunchKernel => "hipModuleLaunchKernel".spec_bytes(),
        LaunchKind::LaunchKernel => "hipLaunchKernel".spec_bytes(),
        LaunchKind::ExtModuleLaunchKernel => "hipExtModuleLaunchKernel".spec_bytes(),
    };
    let (l1, l2) = match kind {
        LaunchKind::ExtModuleLaunchKernel => ("globalSize=".spec_bytes(), ", localSize=".spec_bytes()),
        _ => ("grid=".spec_bytes(), ", block=".spec_bytes()),
    };
    let n = match name {
        Some(v) => v,
        None => "?".spec_bytes(),
    };
    call + "(func=".spec_bytes() + ptr_text(func) + " [".spec_bytes() + n + "], ".spec_bytes() + l1 + dims_text(
        first,
    ) + l2 + dims_text(second) + ", shared=".spec_bytes() + dec_text(shared as nat) + ", stream=".spec_bytes()
        + ptr_text(stream) + match kind {
        LaunchKind::ExtModuleLaunchKernel => ", flags=0x".spec_bytes() + crate::text::hex_text(flags as nat),
        _ => Seq::empty(),
    } + ")".spec_bytes()
}

pub fn launch_line(
    kind: LaunchKind,
    func: u64,
    name: Option<&[u8]>,
    first: (u32, u32, u32),
    second: (u32, u32, u32),
    shared: u64,
    stream: u64,
    flags: u32,
) -> (r: Vec<u8>)
    ensures
        r@ == launch_line_spec(
            kind,
            func,
            match name {
                Some(n) => Some(n@),
                None => None,
            },
            first,
            second,
            shared,
            stream,
            flags,
        ),
{
    let mut out: Vec<u8> = Vec::new();
    match kind {
        LaunchKind::ModuleLaunchKernel => push_str(&mut out, "hipModuleLaunchKernel"),
        LaunchKind::LaunchKernel => push_str(&mut out, "hipLaunchKernel"),
        LaunchKind::ExtModuleLaunchKernel => push_str(&mut out, "hipExtModuleLaunchKernel"),
    }
    push_str(&mut out, "(func=");
    push_ptr(&mut out, func);
    push_str(&mut out, " [");
    match name {
        Some(n) => push_bytes(&mut out, n),
        None => push_str(&mut out, "?"),
    }
    push_str(&mut out, "], ");
    match kind {
        LaunchKind::ExtModuleLaunchKernel => push_str(&mut out, "globalSize="),
        _ => push_str(&mut out, "grid="),
    }
    push_dims(&mut out, first);
    match kind {
        LaunchKind::ExtModuleLaunchKernel => push_str(&mut out, ", localSize="),
        _ => push_str(&mut out, ", block="),
    }
    push_dims(&mut out, second);
    push_str(&mut out, ", shared=");
    push_dec(&mut out, shared);
    push_str(&mut out, ", stream=");
    push_ptr(&mut out, stream);
    match kind {
        LaunchKind::ExtModuleLaunchKernel => {
            push_str(&mut out, ", flags=0x");
            crate::text::push_hex(&mut out, flags as u64);
        },
        _ => {},
    }
    push_str(&mut out, ")");
    assert(out@ =~= launch_line_spec(
        kind,
        func,
        match name {
            Some(n) => Some(n@),
            None => None,
        },
        first,
        second,
        shared,
        stream,
        flags,
    ));
    out
}

/// `  -> <err>`, the line after a traced launch.
pub fn launch_result_line(err: i32) -> (r: Vec<u8>)
    ensures
        r@ == "  -> ".spec_bytes() + int_text(err as int),
{
    let mut out: Vec<u8> = Vec::new();
    push_str(&mut out, "  -> ");
    push_int(&mut out, err as i64);
    out
}

} // verus!
