//! Direct queue operations: each is one submission that waits on some
//! semaphores, does one thing, and signals others. This module builds what is
//! submitted and checks the arguments.
use vstd::prelude::*;
use crate::buffer::HrxBufferS;
use crate::iree::{
    iree_hal_semaphore_list_t, IREE_HAL_COMMAND_BUFFER_MODE_ONE_SHOT, IREE_HAL_COMMAND_CATEGORY_TRANSFER,
    IREE_HAL_QUEUE_AFFINITY_ANY,
};
use crate::status::{HrxStatusCode, HrxStatusS, is_error, status_error};
use crate::sync::HrxSemaphoreS;

verus! {

/// The most semaphores one list of a queue operation may hold.
pub const HRX_MAX_QUEUE_SEMAPHORES: usize = 16;

/// `hrx_semaphore_list_t`: `count` semaphores and the value for each.
pub struct HrxSemaphoreList<'a> {
    pub semaphores: &'a [HrxSemaphoreS],
    pub values: &'a [u64],
    pub count: usize,
}

/// `normalize_affinity`: affinity 0 means any queue.
pub fn normalize_affinity(affinity: u64) -> (r: u64)
    ensures
        affinity == 0 ==> r == IREE_HAL_QUEUE_AFFINITY_ANY,
        affinity != 0 ==> r == affinity,
{
    if affinity == 0 {
        IREE_HAL_QUEUE_AFFINITY_ANY
    } else {
        affinity
    }
}

/// A semaphore list the queue operations can take: at most
/// `HRX_MAX_QUEUE_SEMAPHORES` entries, each with a semaphore and a value.
pub open spec fn list_ok(list: Option<&HrxSemaphoreList>) -> bool {
    list is Some ==> list->0.count <= HRX_MAX_QUEUE_SEMAPHORES && list->0.count <= list->0.semaphores@.len()
        && list->0.count <= list->0.values@.len()
}

/// `r` is the IREE form of `list`: empty for no list or an empty one, else
/// the IREE semaphores of its first `count` entries with their values.
pub open spec fn iree_list_of(list: Option<&HrxSemaphoreList>, r: iree_hal_semaphore_list_t) -> bool {
    if list is None || list->0.count == 0 {
        r.count == 0 && r.semaphores@.len() == 0 && r.payload_values@.len() == 0
    } else {
        let l = list->0;
        &&& r.count == l.count
        &&& r.semaphores@ == Seq::new(l.count as nat, |i: int| l.semaphores@[i].hal)
        &&& r.payload_values@ == l.values@.subrange(0, l.count as int)
    }
}

/// `to_iree_sem_list`: no list, or an empty one, is the empty IREE list;
/// otherwise the IREE semaphores of the first `count` entries with their values.
pub fn to_iree_sem_list(list: Option<&HrxSemaphoreList>) -> (r: iree_hal_semaphore_list_t)
    requires
        list_ok(list),
    ensures
        iree_list_of(list, r),
{
    let l = match list {
        None => return iree_hal_semaphore_list_t::default(),
        Some(l) => l,
    };
    if l.count == 0 {
        return iree_hal_semaphore_list_t::default();
    }
    let n = l.count;
    let mut sems: Vec<u64> = Vec::new();
    let mut vals: Vec<u64> = Vec::new();
    let mut i: usize = 0;
    while i < n
        invariant
            n == l.count,
            n <= l.semaphores@.len(),
            n <= l.values@.len(),
            i <= n,
            sems@ == Seq::new(i as nat, |k: int| l.semaphores@[k].hal),
            vals@ == l.values@.subrange(0, i as int),
        decreases n - i,
    {
        sems.push(l.semaphores[i].hal);
        vals.push(l.values[i]);
        i = i + 1;
        assert(sems@ =~= Seq::new(i as nat, |k: int| l.semaphores@[k].hal));
        assert(vals@ =~= l.values@.subrange(0, i as int));
    }
    iree_hal_semaphore_list_t { count: n, semaphores: sems, payload_values: vals }
}

/// `hrx_buffer_ref_t`: a range of a buffer.
pub struct HrxBufferRef<'a> {
    pub buffer: Option<&'a HrxBufferS>,
    pub offset: usize,
    pub length: usize,
}

/// `iree_hal_buffer_ref_t`: a range of an IREE buffer.
#[derive(Clone, Copy, PartialEq, Eq, Structural, Debug)]
pub struct IreeBufferRef {
    pub buffer: u64,
    pub offset: u64,
    pub length: u64,
}

/// `build_hal_bindings`: the IREE ranges of the first `count` bindings, or
/// `Err` when one of them has no buffer.
pub fn build_hal_bindings(bindings: &[HrxBufferRef], count: usize) -> (r: Result<Vec<IreeBufferRef>, ()>)
    requires
        count <= bindings@.len(),
    ensures
        (exists|i: int| 0 <= i < count && (#[trigger] bindings@[i]).buffer is None) <==> r is Err,
        r matches Ok(v) ==> v@.len() == count && forall|i: int|
            0 <= i < count ==> (#[trigger] v@[i]) == (IreeBufferRef {
                buffer: bindings@[i].buffer->0.hal_buffer,
                offset: bindings@[i].offset as u64,
                length: bindings@[i].length as u64,
            }),
{
    let mut v: Vec<IreeBufferRef> = Vec::new();
    let mut i: usize = 0;
    while i < count
        invariant
            count <= bindings@.len(),
            i <= count,
            v@.len() == i,
            forall|k: int| 0 <= k < i ==> (#[trigger] bindings@[k]).buffer is Some,
            forall|k: int|
                0 <= k < i ==> (#[trigger] v@[k]) == (IreeBufferRef {
                    buffer: bindings@[k].buffer->0.hal_buffer,
                    offset: bindings@[k].offset as u64,
                    length: bindings@[k].length as u64,
                }),
        decreases count - i,
    {
        match bindings[i].buffer {
            None => return Err(()),
            Some(b) => {
                v.push(IreeBufferRef { buffer: b.hal_buffer, offset: bindings[i].offset as u64, length: bindings[i].length as u64 });
            },
        }
        i = i + 1;
    }
    Ok(v)
}

/// `hrx_dispatch_config_t`: the workgroup count, the workgroup size, and the
/// subgroup size.
#[derive(Clone, Copy, Debug)]
pub struct HrxDispatchConfig {
    pub workgroup_count: [u32; 3],
    pub workgroup_size: [u32; 3],
    pub subgroup_size: u32,
}

/// The static IREE dispatch configuration: the workgroup size and count.
#[derive(Clone, Copy, Debug)]
pub struct IreeDispatchConfig {
    pub workgroup_size: [u32; 3],
    pub workgroup_count: [u32; 3],
}

pub fn static_dispatch_config(c: &HrxDispatchConfig) -> (r: IreeDispatchConfig)
    ensures
        r.workgroup_size == c.workgroup_size,
        r.workgroup_count == c.workgroup_count,
{
    IreeDispatchConfig { workgroup_size: c.workgroup_size, workgroup_count: c.workgroup_count }
}

/// Everything a dispatch submits.
pub struct DispatchRequest {
    pub executable: u64,
    pub function: u64,
    pub config: IreeDispatchConfig,
    pub bindings: Vec<IreeBufferRef>,
    /// The push constants, as bytes.
    pub constants: Vec<u8>,
    pub flags: u64,
}

/// The constants a dispatch passes: the first `size` bytes the caller gave
/// (none when it gave none).
pub open spec fn constants_bytes(constants: Option<&[u8]>, size: usize) -> Seq<u8> {
    match constants {
        Some(c) => c@.subrange(0, size as int),
        None => Seq::empty(),
    }
}

/// The argument checks a dispatch fails with `invalid_msg`: the target
/// (device or stream), the executable or the configuration is missing, or the
/// constants or bindings are missing while their sizes say they are there.
pub open spec fn dispatch_invalid(
    target_present: bool,
    executable: Option<u64>,
    config: Option<&HrxDispatchConfig>,
    constants_present: bool,
    constants_size: usize,
    bindings: Option<&[HrxBufferRef]>,
    binding_count: usize,
) -> bool {
    !target_present || executable is None || config is None || (binding_count > 0 && bindings is None) || (
    constants_size > 0 && !constants_present)
}

/// A dispatch is refused exactly for a missing target, executable or
/// configuration, for constants that are missing while their size is not
/// zero, and for a missing bindings array while bindings are counted: with no
/// binding counted, an absent array is no error and no binding can lack its
/// buffer.
pub proof fn law_dispatch_arguments(
    target_present: bool,
    executable: Option<u64>,
    config: Option<&HrxDispatchConfig>,
    constants_present: bool,
    constants_size: usize,
    bindings: Option<&[HrxBufferRef]>,
    binding_count: usize,
)
    ensures
        dispatch_invalid(target_present, executable, config, constants_present, constants_size, bindings, binding_count)
            <==> (!target_present || executable is None || config is None || (constants_size != 0
            && !constants_present) || (binding_count != 0 && bindings is None)),
        binding_count == 0 ==> !binding_missing(bindings, binding_count),
        binding_count == 0 && target_present && executable is Some && config is Some && (constants_present
            || constants_size == 0) ==> !dispatch_invalid(
            target_present,
            executable,
            config,
            constants_present,
            constants_size,
            bindings,
            binding_count,
        ),
{
}

/// One of the first `count` bindings has no buffer.
pub open spec fn binding_missing(bindings: Option<&[HrxBufferRef]>, count: usize) -> bool {
    count > 0 && exists|i: int| 0 <= i < count && (#[trigger] bindings->0@[i]).buffer is None
}

/// `req` dispatches export `export_ordinal` of `executable` with the static
/// configuration of `config`, the IREE ranges of the first `count` bindings,
/// the constant bytes and `flags`.
pub open spec fn dispatch_made(
    req: DispatchRequest,
    executable: u64,
    export_ordinal: u32,
    config: HrxDispatchConfig,
    bindings: Option<&[HrxBufferRef]>,
    count: usize,
    constants: Seq<u8>,
    flags: u32,
) -> bool {
    &&& req.executable == executable
    &&& req.function == export_ordinal as u64
    &&& req.config.workgroup_size == config.workgroup_size
    &&& req.config.workgroup_count == config.workgroup_count
    &&& req.bindings@.len() == count
    &&& forall|i: int|
        0 <= i < count ==> (#[trigger] req.bindings@[i]) == (IreeBufferRef {
            buffer: bindings->0@[i].buffer->0.hal_buffer,
            offset: bindings->0@[i].offset as u64,
            length: bindings->0@[i].length as u64,
        })
    &&& req.constants@ == constants
    &&& req.flags == flags as u64
}

/// The argument checks of `hrx_queue_dispatch` and `hrx_stream_dispatch`
/// (`invalid_msg`, see `dispatch_invalid`), then every binding must have a
/// buffer; what passes is the dispatch to submit.
pub fn dispatch_request(
    target_present: bool,
    executable: Option<u64>,
    export_ordinal: u32,
    config: Option<&HrxDispatchConfig>,
    constants: Option<&[u8]>,
    constants_size: usize,
    bindings: Option<&[HrxBufferRef]>,
    binding_count: usize,
    flags: u32,
    invalid_msg: &str,
) -> (r: Result<DispatchRequest, HrxStatusS>)
    requires
        bindings is Some ==> binding_count <= bindings->0@.len(),
        constants is Some ==> constants_size <= constants->0@.len(),
    ensures
        dispatch_invalid(target_present, executable, config, constants is Some, constants_size, bindings, binding_count)
            ==> r is Err && is_error(r->Err_0, HrxStatusCode::InvalidArgument, invalid_msg@),
        !dispatch_invalid(target_present, executable, config, constants is Some, constants_size, bindings, binding_count)
            && binding_missing(bindings, binding_count) ==> r is Err && is_error(
            r->Err_0,
            HrxStatusCode::InvalidArgument,
            "binding buffer is NULL"@,
        ),
        !dispatch_invalid(target_present, executable, config, constants is Some, constants_size, bindings, binding_count)
            && !binding_missing(bindings, binding_count) ==> r is Ok && dispatch_made(
            r->Ok_0,
            executable->0,
            export_ordinal,
            *config->0,
            bindings,
            binding_count,
            constants_bytes(constants, constants_size),
            flags,
        ),
{
    if !target_present || executable.is_none() || config.is_none() || (binding_count > 0 && bindings.is_none()) || (
    constants_size > 0 && constants.is_none()) {
        return Err(status_error(HrxStatusCode::InvalidArgument, invalid_msg));
    }
    let exe = match executable {
        Some(e) => e,
        None => return Err(status_error(HrxStatusCode::InvalidArgument, invalid_msg)),
    };
    let cfg = match config {
        Some(c) => c,
        None => return Err(status_error(HrxStatusCode::InvalidArgument, invalid_msg)),
    };
    let list = if binding_count == 0 {
        Vec::new()
    } else {
        let bs = match bindings {
            Some(b) => b,
            None => return Err(status_error(HrxStatusCode::InvalidArgument, invalid_msg)),
        };
        match build_hal_bindings(bs, binding_count) {
            Ok(v) => v,
            Err(()) => return Err(status_error(HrxStatusCode::InvalidArgument, "binding buffer is NULL")),
        }
    };
    Ok(
        DispatchRequest {
            executable: exe,
            function: export_ordinal as u64,
            config: static_dispatch_config(cfg),
            bindings: list,
            constants: match constants {
                Some(c) => vstd::slice::slice_to_vec(vstd::slice::slice_subrange(c, 0, constants_size)),
                None => Vec::new(),
            },
            flags: flags as u64,
        },
    )
}

} // verus!

verus! {

/// The IREE range `[offset, offset + length)` of a buffer.
pub fn buffer_range(buffer: &HrxBufferS, offset: usize, length: usize) -> (r: IreeBufferRef)
    ensures
        r == (IreeBufferRef { buffer: buffer.hal_buffer, offset: offset as u64, length: length as u64 }),
{
    IreeBufferRef { buffer: buffer.hal_buffer, offset: offset as u64, length: length as u64 }
}

/// The first failure among the statuses of the steps of a submission, if any.
pub open spec fn first_failure(steps: Seq<crate::status::IreeStatus>) -> crate::status::IreeStatus
    decreases steps.len(),
{
    if steps.len() == 0 {
        None
    } else if steps[0] is Some {
        steps[0]
    } else {
        first_failure(steps.drop_first())
    }
}

/// The outcome of a submission made of several IREE steps (create, begin,
/// record, end, execute — each taken only after the previous succeeded): the
/// first failure, converted, or OK.
pub fn hrx_queue_complete(steps: &[crate::status::IreeStatus]) -> (r: crate::status::HrxStatus)
    ensures
        crate::status::converts(first_failure(steps@), r),
{
    let mut i: usize = 0;
    assert(steps@.subrange(0, steps@.len() as int) =~= steps@);
    while i < steps.len()
        invariant
            i <= steps@.len(),
            first_failure(steps@) == first_failure(steps@.subrange(i as int, steps@.len() as int)),
        decreases steps@.len() - i,
    {
        let ghost rest = steps@.subrange(i as int, steps@.len() as int);
        if steps[i].is_some() {
            return crate::status::hrx_status_from_iree_ref(&steps[i]);
        }
        assert(rest.drop_first() =~= steps@.subrange(i + 1, steps@.len() as int));
        i = i + 1;
    }
    None
}

/// The outcome of a fill or copy submitted through a one-shot command
/// buffer: when its creation failed, that error and nothing to release;
/// otherwise the first failure among begin, record, end and execute (or OK),
/// and the command buffer, released exactly once whichever way it went.
pub fn one_shot_outcome(created: Result<u64, crate::status::IreeError>, steps: &[crate::status::IreeStatus]) -> (r: (
    crate::status::HrxStatus,
    Option<u64>,
))
    ensures
        match created {
            Err(e) => crate::status::converts(Some(e), r.0) && r.1 is None,
            Ok(cb) => crate::status::converts(first_failure(steps@), r.0) && r.1 == Some(cb),
        },
{
    match created {
        Err(e) => (crate::status::hrx_status_from_iree(Some(e)), None),
        Ok(cb) => (hrx_queue_complete(steps), Some(cb)),
    }
}

/// What a fill or copy queue operation submits.
pub struct QueueTransferPlan {
    /// The mode and categories of the command buffer the operation is
    /// recorded into: one-shot, transfer only.
    pub command_buffer_mode: u32,
    pub command_categories: u32,
    pub affinity: u64,
    pub wait: iree_hal_semaphore_list_t,
    pub signal: iree_hal_semaphore_list_t,
    pub source: Option<IreeBufferRef>,
    pub target: IreeBufferRef,
    /// The fill pattern's bytes (a fill only).
    pub pattern: Option<Vec<u8>>,
}

/// `hrx_queue_fill`: refuses a missing device, buffer or pattern; else fills
/// `[offset, offset + size)` of the buffer with the first `pattern_size`
/// bytes of the pattern, on the normalized queue between the wait and signal
/// lists (its outcome is `one_shot_outcome`).
pub fn hrx_queue_fill(
    device_present: bool,
    affinity: u64,
    wait: Option<&HrxSemaphoreList>,
    signal: Option<&HrxSemaphoreList>,
    buffer: Option<&HrxBufferS>,
    offset: usize,
    size: usize,
    pattern: Option<&[u8]>,
    pattern_size: usize,
) -> (r: Result<QueueTransferPlan, HrxStatusS>)
    requires
        list_ok(wait),
        list_ok(signal),
        pattern is Some ==> pattern_size <= pattern->0@.len(),
    ensures
        (!device_present || buffer is None || pattern is None) ==> r is Err && is_error(
            r->Err_0,
            HrxStatusCode::InvalidArgument,
            "device, buffer, or pattern is NULL"@,
        ),
        device_present && buffer is Some && pattern is Some ==> r is Ok && r->Ok_0.source is None
            && (r->Ok_0.pattern matches Some(p) && p@ == pattern->0@.subrange(0, pattern_size as int))
            && r->Ok_0.target == (IreeBufferRef {
            buffer: buffer->0.hal_buffer,
            offset: offset as u64,
            length: size as u64,
        }) && (affinity == 0 ==> r->Ok_0.affinity == IREE_HAL_QUEUE_AFFINITY_ANY) && (affinity != 0
            ==> r->Ok_0.affinity == affinity) && iree_list_of(wait, r->Ok_0.wait) && iree_list_of(signal, r->Ok_0.signal)
            && r->Ok_0.command_buffer_mode == IREE_HAL_COMMAND_BUFFER_MODE_ONE_SHOT && r->Ok_0.command_categories
            == IREE_HAL_COMMAND_CATEGORY_TRANSFER,
{
    let b = match buffer {
        Some(b) => b,
        None => return Err(status_error(HrxStatusCode::InvalidArgument, "device, buffer, or pattern is NULL")),
    };
    let pat = match pattern {
        Some(p) => p,
        None => return Err(status_error(HrxStatusCode::InvalidArgument, "device, buffer, or pattern is NULL")),
    };
    if !device_present {
        return Err(status_error(HrxStatusCode::InvalidArgument, "device, buffer, or pattern is NULL"));
    }
    Ok(
        QueueTransferPlan {
            command_buffer_mode: IREE_HAL_COMMAND_BUFFER_MODE_ONE_SHOT,
            command_categories: IREE_HAL_COMMAND_CATEGORY_TRANSFER,
            affinity: normalize_affinity(affinity),
            wait: to_iree_sem_list(wait),
            signal: to_iree_sem_list(signal),
            source: None,
            target: buffer_range(b, offset, size),
            pattern: Some(vstd::slice::slice_to_vec(vstd::slice::slice_subrange(pat, 0, pattern_size))),
        },
    )
}

/// `hrx_queue_copy`: refuses a missing device, source or target; else copies
/// `size` bytes from `src_offset` of one buffer to `dst_offset` of the other.
pub fn hrx_queue_copy(
    device_present: bool,
    affinity: u64,
    wait: Option<&HrxSemaphoreList>,
    signal: Option<&HrxSemaphoreList>,
    src: Option<&HrxBufferS>,
    src_offset: usize,
    dst: Option<&HrxBufferS>,
    dst_offset: usize,
    size: usize,
) -> (r: Result<QueueTransferPlan, HrxStatusS>)
    requires
        list_ok(wait),
        list_ok(signal),
    ensures
        (!device_present || src is None || dst is None) ==> r is Err && is_error(
            r->Err_0,
            HrxStatusCode::InvalidArgument,
            "device, src, or dst is NULL"@,
        ),
        device_present && src is Some && dst is Some ==> r is Ok && r->Ok_0.source == Some(
            IreeBufferRef { buffer: src->0.hal_buffer, offset: src_offset as u64, length: size as u64 },
        ) && r->Ok_0.target == (IreeBufferRef {
            buffer: dst->0.hal_buffer,
            offset: dst_offset as u64,
            length: size as u64,
        }) && (affinity == 0 ==> r->Ok_0.affinity == IREE_HAL_QUEUE_AFFINITY_ANY) && (affinity != 0
            ==> r->Ok_0.affinity == affinity) && iree_list_of(wait, r->Ok_0.wait) && iree_list_of(signal, r->Ok_0.signal)
            && r->Ok_0.command_buffer_mode == IREE_HAL_COMMAND_BUFFER_MODE_ONE_SHOT && r->Ok_0.command_categories
            == IREE_HAL_COMMAND_CATEGORY_TRANSFER && r->Ok_0.pattern is None,
{
    let s = match src {
        Some(s) => s,
        None => return Err(status_error(HrxStatusCode::InvalidArgument, "device, src, or dst is NULL")),
    };
    let d = match dst {
        Some(d) => d,
        None => return Err(status_error(HrxStatusCode::InvalidArgument, "device, src, or dst is NULL")),
    };
    if !device_present {
        return Err(status_error(HrxStatusCode::InvalidArgument, "device, src, or dst is NULL"));
    }
    Ok(
        QueueTransferPlan {
            command_buffer_mode: IREE_HAL_COMMAND_BUFFER_MODE_ONE_SHOT,
            command_categories: IREE_HAL_COMMAND_CATEGORY_TRANSFER,
            affinity: normalize_affinity(affinity),
            wait: to_iree_sem_list(wait),
            signal: to_iree_sem_list(signal),
            source: Some(buffer_range(s, src_offset, size)),
            target: buffer_range(d, dst_offset, size),
            pattern: None,
        },
    )
}

/// The submission of a barrier or a host call: the queue and the two lists.
pub struct QueueSync {
    pub affinity: u64,
    pub wait: iree_hal_semaphore_list_t,
    pub signal: iree_hal_semaphore_list_t,
}

/// The queue and lists of a submission on the device's queues.
fn queue_sync(affinity: u64, wait: Option<&HrxSemaphoreList>, signal: Option<&HrxSemaphoreList>) -> (r: QueueSync)
    requires
        list_ok(wait),
        list_ok(signal),
    ensures
        affinity == 0 ==> r.affinity == IREE_HAL_QUEUE_AFFINITY_ANY,
        affinity != 0 ==> r.affinity == affinity,
        iree_list_of(wait, r.wait),
        iree_list_of(signal, r.signal),
{
    QueueSync { affinity: normalize_affinity(affinity), wait: to_iree_sem_list(wait), signal: to_iree_sem_list(signal) }
}

/// `hrx_queue_barrier`: refuses a missing device; else a barrier on the
/// normalized queue between the two lists.
pub fn hrx_queue_barrier(
    device_present: bool,
    affinity: u64,
    wait: Option<&HrxSemaphoreList>,
    signal: Option<&HrxSemaphoreList>,
) -> (r: Result<QueueSync, HrxStatusS>)
    requires
        list_ok(wait),
        list_ok(signal),
    ensures
        !device_present ==> r is Err && is_error(r->Err_0, HrxStatusCode::InvalidArgument, "device is NULL"@),
        device_present ==> r is Ok && (affinity == 0 ==> r->Ok_0.affinity == IREE_HAL_QUEUE_AFFINITY_ANY) && (
        affinity != 0 ==> r->Ok_0.affinity == affinity) && iree_list_of(wait, r->Ok_0.wait) && iree_list_of(
            signal,
            r->Ok_0.signal,
        ),
{
    if !device_present {
        return Err(status_error(HrxStatusCode::InvalidArgument, "device is NULL"));
    }
    Ok(queue_sync(affinity, wait, signal))
}

/// What a host call hands to IREE: the caller's callback and user data,
/// which the trampoline IREE runs unwraps.
pub struct HostCallThunk {
    pub callback: u64,
    pub user_data: u64,
}

impl HostCallThunk {
    /// The trampoline: takes the thunk (so that it runs at most once) and
    /// gives the callback and exactly the user data to call it with.
    pub fn run(self) -> (r: (u64, u64))
        ensures
            r == (self.callback, self.user_data),
    {
        (self.callback, self.user_data)
    }
}

/// `hrx_queue_host_call`: refuses a missing device or callback; else the
/// callback is called with `user_data`, through a thunk, on the normalized
/// queue between the two lists.
pub fn hrx_queue_host_call(
    device_present: bool,
    callback: Option<u64>,
    user_data: u64,
    affinity: u64,
    wait: Option<&HrxSemaphoreList>,
    signal: Option<&HrxSemaphoreList>,
) -> (r: Result<(QueueSync, HostCallThunk), HrxStatusS>)
    requires
        list_ok(wait),
        list_ok(signal),
    ensures
        (!device_present || callback is None) ==> r is Err && is_error(
            r->Err_0,
            HrxStatusCode::InvalidArgument,
            "device or callback is NULL"@,
        ),
        device_present && callback is Some ==> r is Ok && (affinity == 0 ==> r->Ok_0.0.affinity
            == IREE_HAL_QUEUE_AFFINITY_ANY) && (affinity != 0 ==> r->Ok_0.0.affinity == affinity) && iree_list_of(
            wait,
            r->Ok_0.0.wait,
        ) && iree_list_of(signal, r->Ok_0.0.signal) && r->Ok_0.1.callback == callback->0 && r->Ok_0.1.user_data
            == user_data,
{
    let cb = match callback {
        Some(c) => c,
        None => return Err(status_error(HrxStatusCode::InvalidArgument, "device or callback is NULL")),
    };
    if !device_present {
        return Err(status_error(HrxStatusCode::InvalidArgument, "device or callback is NULL"));
    }
    Ok((queue_sync(affinity, wait, signal), HostCallThunk { callback: cb, user_data }))
}

/// After the host call was submitted: a failed submission is converted and
/// hands the thunk back to be freed (its callback never runs); a successful
/// one leaves the thunk to the queued call.
pub fn host_call_submitted(thunk: HostCallThunk, submitted: crate::status::IreeStatus) -> (r: (
    crate::status::HrxStatus,
    Option<HostCallThunk>,
))
    ensures
        crate::status::converts(submitted, r.0),
        submitted is Some ==> r.1 == Some(thunk),
        submitted is None ==> r.1 is None,
{
    if submitted.is_some() {
        (crate::status::hrx_status_from_iree(submitted), Some(thunk))
    } else {
        (None, None)
    }
}

/// `hrx_queue_dispatch`: the checks of `dispatch_request` (with "device,
/// executable, config, constants, or bindings are invalid"), then the
/// dispatch on the normalized queue between the two lists.
pub fn hrx_queue_dispatch(
    device_present: bool,
    affinity: u64,
    wait: Option<&HrxSemaphoreList>,
    signal: Option<&HrxSemaphoreList>,
    executable: Option<u64>,
    export_ordinal: u32,
    config: Option<&HrxDispatchConfig>,
    constants: Option<&[u8]>,
    constants_size: usize,
    bindings: Option<&[HrxBufferRef]>,
    binding_count: usize,
    flags: u32,
) -> (r: Result<(QueueSync, DispatchRequest), HrxStatusS>)
    requires
        list_ok(wait),
        list_ok(signal),
        bindings is Some ==> binding_count <= bindings->0@.len(),
        constants is Some ==> constants_size <= constants->0@.len(),
    ensures
        dispatch_invalid(device_present, executable, config, constants is Some, constants_size, bindings, binding_count)
            ==> r is Err && is_error(
            r->Err_0,
            HrxStatusCode::InvalidArgument,
            "device, executable, config, constants, or bindings are invalid"@,
        ),
        !dispatch_invalid(device_present, executable, config, constants is Some, constants_size, bindings, binding_count)
            && binding_missing(bindings, binding_count) ==> r is Err && is_error(
            r->Err_0,
            HrxStatusCode::InvalidArgument,
            "binding buffer is NULL"@,
        ),
        !dispatch_invalid(device_present, executable, config, constants is Some, constants_size, bindings, binding_count)
            && !binding_missing(bindings, binding_count) ==> r is Ok && dispatch_made(
            r->Ok_0.1,
            executable->0,
            export_ordinal,
            *config->0,
            bindings,
            binding_count,
            constants_bytes(constants, constants_size),
            flags,
        ) && (affinity == 0 ==> r->Ok_0.0.affinity == IREE_HAL_QUEUE_AFFINITY_ANY) && (affinity != 0
            ==> r->Ok_0.0.affinity == affinity) && iree_list_of(wait, r->Ok_0.0.wait) && iree_list_of(
            signal,
            r->Ok_0.0.signal,
        ),
{
    let req = dispatch_request(
        device_present,
        executable,
        export_ordinal,
        config,
        constants,
        constants_size,
        bindings,
        binding_count,
        flags,
        "device, executable, config, constants, or bindings are invalid",
    );
    match req {
        Err(e) => Err(e),
        Ok(d) => Ok((queue_sync(affinity, wait, signal), d)),
    }
}

} // verus!
