//! HRX buffers: allocation and import through a device allocator, the
//! reference count, host mapping, synchronous transfer bounds, virtual memory
//! bookkeeping and stream-ordered allocation.
use vstd::prelude::*;
use crate::device::HrxAllocatorInline;
use crate::iree::{
    iree_byte_span_t, iree_hal_buffer_mapping_t, iree_hal_buffer_params_t, IREE_HAL_MEMORY_ACCESS_ALL,
    IREE_HAL_MEMORY_ACCESS_DISCARD_WRITE, IREE_HAL_MEMORY_ACCESS_READ, IREE_HAL_MEMORY_ACCESS_WRITE,
};
use crate::status::{
    HrxStatus, HrxStatusCode, HrxStatusS, IreeError, IreeStatus, converts, hrx_status_from_iree, is_error,
    status_error,
};

verus! {

/// `HRX_MAP_READ` / `HRX_MAP_WRITE` / `HRX_MAP_DISCARD`.
pub const HRX_MAP_READ: u32 = 1;

pub const HRX_MAP_WRITE: u32 = 2;

pub const HRX_MAP_DISCARD: u32 = 4;

/// `HRX_MEMORY_TYPE_DEVICE_LOCAL`, the type of reserved virtual buffers.
pub const HRX_MEMORY_TYPE_DEVICE_LOCAL: u32 = 0x30;

/// `IREE_HAL_BUFFER_USAGE_DEFAULT`.
pub const IREE_HAL_BUFFER_USAGE_DEFAULT: u32 = 0x0000_0c03;

/// `hrx_buffer_params_t`.
#[derive(Clone, Copy, PartialEq, Eq, Structural, Debug)]
pub struct HrxBufferParams {
    pub type_: u32,
    pub access: u16,
    pub usage: u32,
    pub queue_affinity: u64,
}

/// The IREE parameters for HRX buffer parameters: the same usage, access,
/// type and affinity, and no minimum alignment.
pub open spec fn hal_params_spec(p: HrxBufferParams) -> iree_hal_buffer_params_t {
    iree_hal_buffer_params_t {
        usage: p.usage,
        access: p.access,
        type_: p.type_,
        queue_affinity: p.queue_affinity,
        min_alignment: 0,
    }
}

pub fn hal_params(p: HrxBufferParams) -> (r: iree_hal_buffer_params_t)
    ensures
        r == hal_params_spec(p),
{
    iree_hal_buffer_params_t {
        usage: p.usage,
        access: p.access,
        type_: p.type_,
        queue_affinity: p.queue_affinity,
        min_alignment: 0,
    }
}

/// The IREE parameters used to query and allocate raw memory of `mem_type`:
/// default usage, all access, any queue.
pub fn default_params_for(mem_type: u32) -> (r: iree_hal_buffer_params_t)
    ensures
        r == (iree_hal_buffer_params_t {
            usage: IREE_HAL_BUFFER_USAGE_DEFAULT,
            access: IREE_HAL_MEMORY_ACCESS_ALL,
            type_: mem_type,
            queue_affinity: 0,
            min_alignment: 0,
        }),
{
    iree_hal_buffer_params_t {
        usage: IREE_HAL_BUFFER_USAGE_DEFAULT,
        access: IREE_HAL_MEMORY_ACCESS_ALL,
        type_: mem_type,
        queue_affinity: 0,
        min_alignment: 0,
    }
}

/// An HRX buffer.
#[derive(Clone, Copy, PartialEq, Eq, Structural, Debug)]
pub struct HrxBufferS {
    pub ref_count: i32,
    pub hal_buffer: u64,
    /// The pool a stream-ordered allocation came from (0 otherwise).
    pub hal_pool: u64,
    pub device: u64,
    pub mem_type: u32,
    pub size: usize,
    pub mapping: iree_hal_buffer_mapping_t,
    pub is_mapped: bool,
    pub mapped_ptr: u64,
}

impl HrxBufferS {
    /// A live buffer has a reference; its mapped pointer is the mapping's
    /// data while mapped.
    pub open spec fn wf(self) -> bool {
        &&& self.ref_count >= 1
        &&& (self.is_mapped ==> self.mapped_ptr == self.mapping.contents.data)
        &&& (!self.is_mapped ==> self.mapped_ptr == 0)
    }

    /// The buffer once `span` of it is mapped.
    pub open spec fn mapped_to(self, span: iree_byte_span_t) -> HrxBufferS {
        HrxBufferS { mapping: iree_hal_buffer_mapping_t { contents: span }, is_mapped: true, mapped_ptr: span.data, ..self }
    }

    /// The buffer once it is unmapped (the mapping record stays).
    pub open spec fn unmapped(self) -> HrxBufferS {
        HrxBufferS { is_mapped: false, mapped_ptr: 0, ..self }
    }

    /// The buffer with one more reference.
    pub open spec fn retained(self) -> HrxBufferS {
        HrxBufferS { ref_count: (self.ref_count + 1) as i32, ..self }
    }

    /// The buffer with one reference fewer; the last release unmaps it.
    pub open spec fn released(self) -> HrxBufferS {
        let b = HrxBufferS { ref_count: (self.ref_count - 1) as i32, ..self };
        if self.ref_count == 1 && self.is_mapped {
            b.unmapped()
        } else {
            b
        }
    }
}

/// A fresh, unmapped buffer with one reference.
pub open spec fn fresh_buffer(hal_buffer: u64, hal_pool: u64, device: u64, mem_type: u32, size: usize) -> HrxBufferS {
    HrxBufferS {
        ref_count: 1,
        hal_buffer,
        hal_pool,
        device,
        mem_type,
        size,
        mapping: iree_hal_buffer_mapping_t { contents: iree_byte_span_t { data: 0, data_length: 0 } },
        is_mapped: false,
        mapped_ptr: 0,
    }
}

pub fn new_buffer_pub(hal_buffer: u64, hal_pool: u64, device: u64, mem_type: u32, size: usize) -> (r: HrxBufferS)
    ensures
        r == fresh_buffer(hal_buffer, hal_pool, device, mem_type, size),
        r.wf(),
{
    HrxBufferS {
        ref_count: 1,
        hal_buffer,
        hal_pool,
        device,
        mem_type,
        size,
        mapping: iree_hal_buffer_mapping_t::zeroed(),
        is_mapped: false,
        mapped_ptr: 0,
    }
}

/// `hrx_allocator_allocate_buffer`: wraps the buffer IREE allocated for
/// (`hal_params(params)`, `size`) into an HRX buffer of the allocator's
/// device (which the caller retains), or converts IREE's error.
pub fn hrx_allocator_allocate_buffer(
    allocator: Option<&HrxAllocatorInline>,
    params: HrxBufferParams,
    size: usize,
    allocated: Result<u64, IreeError>,
) -> (r: Result<HrxBufferS, HrxStatusS>)
    ensures
        allocator is None ==> r is Err && is_error(
            r->Err_0,
            HrxStatusCode::InvalidArgument,
            "allocator or buffer is NULL"@,
        ),
        allocator is Some ==> match allocated {
            Err(e) => r is Err && converts(Some(e), Some(r->Err_0)),
            Ok(h) => r == Ok::<HrxBufferS, HrxStatusS>(
                fresh_buffer(h, 0, allocator->0.device, params.type_, size),
            ),
        },
{
    let a = match allocator {
        Some(a) => a,
        None => return Err(status_error(HrxStatusCode::InvalidArgument, "allocator or buffer is NULL")),
    };
    match allocated {
        Err(e) => Err(unwrap_error(hrx_status_from_iree(Some(e)))),
        Ok(h) => Ok(new_buffer_pub(h, 0, a.device, params.type_, size)),
    }
}

/// The payload of a status that is an error.
pub fn unwrap_error(s: HrxStatus) -> (r: HrxStatusS)
    requires
        s is Some,
    ensures
        Some(r) == s,
{
    match s {
        Some(e) => e,
        None => HrxStatusS { code: 0, message: None },
    }
}

/// `hrx_allocator_import_buffer`: like allocation, for a host allocation IREE
/// imported; a null host pointer is refused.
pub fn hrx_allocator_import_buffer(
    allocator: Option<&HrxAllocatorInline>,
    params: HrxBufferParams,
    host_ptr: u64,
    size: usize,
    imported: Result<u64, IreeError>,
) -> (r: Result<HrxBufferS, HrxStatusS>)
    ensures
        (allocator is None || host_ptr == 0) ==> r is Err && is_error(
            r->Err_0,
            HrxStatusCode::InvalidArgument,
            "allocator, host_ptr, or buffer is NULL"@,
        ),
        allocator is Some && host_ptr != 0 ==> match imported {
            Err(e) => r is Err && converts(Some(e), Some(r->Err_0)),
            Ok(h) => r == Ok::<HrxBufferS, HrxStatusS>(
                fresh_buffer(h, 0, allocator->0.device, params.type_, size),
            ),
        },
{
    let a = match allocator {
        Some(a) => a,
        None => return Err(
            status_error(HrxStatusCode::InvalidArgument, "allocator, host_ptr, or buffer is NULL"),
        ),
    };
    if host_ptr == 0 {
        return Err(status_error(HrxStatusCode::InvalidArgument, "allocator, host_ptr, or buffer is NULL"));
    }
    match imported {
        Err(e) => Err(unwrap_error(hrx_status_from_iree(Some(e)))),
        Ok(h) => Ok(new_buffer_pub(h, 0, a.device, params.type_, size)),
    }
}

/// `hrx_buffer_retain`: one more reference (the caller also retains the
/// IREE buffer, its pool and the device).
pub fn hrx_buffer_retain(buffer: &mut HrxBufferS)
    requires
        old(buffer).wf(),
        old(buffer).ref_count < i32::MAX,
    ensures
        final(buffer).wf(),
        *final(buffer) == old(buffer).retained(),
{
    buffer.ref_count = buffer.ref_count + 1;
}

/// What releasing one reference asks of the caller.
#[derive(Clone, Copy, PartialEq, Eq, Structural, Debug)]
pub struct BufferRelease {
    /// The last reference is gone: the buffer object is freed.
    pub freed: bool,
    /// The buffer was still mapped and must be unmapped before it is freed.
    pub unmap_first: bool,
}

/// `hrx_buffer_release`: one reference fewer; the last one frees the buffer
/// (unmapping it first when it is still mapped). Every release also releases
/// one reference to the IREE buffer, the pool and the device.
pub fn hrx_buffer_release(buffer: &mut HrxBufferS) -> (r: BufferRelease)
    requires
        old(buffer).wf(),
    ensures
        *final(buffer) == old(buffer).released(),
        r.freed == (old(buffer).ref_count == 1),
        r.unmap_first == (r.freed && old(buffer).is_mapped),
        !r.freed ==> final(buffer).wf(),
{
    let previous = buffer.ref_count;
    buffer.ref_count = previous - 1;
    if previous == 1 {
        if buffer.is_mapped {
            buffer.is_mapped = false;
            buffer.mapped_ptr = 0;
            return BufferRelease { freed: true, unmap_first: true };
        }
        return BufferRelease { freed: true, unmap_first: false };
    }
    BufferRelease { freed: false, unmap_first: false }
}

/// The IREE access for `hrx_buffer_map` flags: read, write, and discard-write
/// for the discard flag.
pub open spec fn map_access_spec(flags: u32) -> u16 {
    ((if flags & HRX_MAP_READ != 0 {
        IREE_HAL_MEMORY_ACCESS_READ
    } else {
        0
    }) | (if flags & HRX_MAP_WRITE != 0 {
        IREE_HAL_MEMORY_ACCESS_WRITE
    } else {
        0
    }) | (if flags & HRX_MAP_DISCARD != 0 {
        IREE_HAL_MEMORY_ACCESS_DISCARD_WRITE
    } else {
        0
    })) as u16
}

pub fn map_access(flags: u32) -> (r: u16)
    ensures
        r == map_access_spec(flags),
{
    let read: u16 = if flags & HRX_MAP_READ != 0 {
        IREE_HAL_MEMORY_ACCESS_READ
    } else {
        0
    };
    let write: u16 = if flags & HRX_MAP_WRITE != 0 {
        IREE_HAL_MEMORY_ACCESS_WRITE
    } else {
        0
    };
    let discard: u16 = if flags & HRX_MAP_DISCARD != 0 {
        IREE_HAL_MEMORY_ACCESS_DISCARD_WRITE
    } else {
        0
    };
    read | write | discard
}

/// `hrx_buffer_map`: maps a range of an unmapped buffer, given the span IREE
/// mapped for (`map_access(flags)`, `offset`, `size`); a mapped buffer is
/// refused and IREE's error is converted with the buffer left as it was.
pub fn hrx_buffer_map(
    buffer: Option<&mut HrxBufferS>,
    flags: u32,
    offset: usize,
    size: usize,
    mapped: Result<iree_byte_span_t, IreeError>,
) -> (r: Result<u64, HrxStatusS>)
    requires
        buffer is Some ==> buffer->0.wf(),
    ensures
        buffer is None ==> r is Err && is_error(
            r->Err_0,
            HrxStatusCode::InvalidArgument,
            "buffer or mapped_ptr is NULL"@,
        ),
        buffer is Some ==> final(buffer->0).wf(),
        buffer is Some && buffer->0.is_mapped ==> r is Err && is_error(
            r->Err_0,
            HrxStatusCode::FailedPrecondition,
            "buffer is already mapped"@,
        ) && *final(buffer->0) == *buffer->0,
        buffer is Some && !buffer->0.is_mapped ==> match mapped {
            Err(e) => r is Err && converts(Some(e), Some(r->Err_0)) && *final(buffer->0) == *buffer->0,
            Ok(span) => r == Ok::<u64, HrxStatusS>(span.data) && *final(buffer->0) == buffer->0.mapped_to(span),
        },
{
    let b = match buffer {
        Some(b) => b,
        None => return Err(status_error(HrxStatusCode::InvalidArgument, "buffer or mapped_ptr is NULL")),
    };
    if b.is_mapped {
        return Err(status_error(HrxStatusCode::FailedPrecondition, "buffer is already mapped"));
    }
    match mapped {
        Err(e) => Err(unwrap_error(hrx_status_from_iree(Some(e)))),
        Ok(span) => {
            b.mapping = iree_hal_buffer_mapping_t { contents: span };
            b.is_mapped = true;
            b.mapped_ptr = span.data;
            Ok(span.data)
        },
    }
}

/// `hrx_buffer_unmap`: an unmapped buffer is left alone; a mapped one is
/// marked unmapped whatever IREE's unmap returned, and that outcome is
/// converted.
pub fn hrx_buffer_unmap(buffer: Option<&mut HrxBufferS>, unmapped: IreeStatus) -> (r: HrxStatus)
    requires
        buffer is Some ==> buffer->0.wf(),
    ensures
        buffer is None ==> r is Some && is_error(r->0, HrxStatusCode::InvalidArgument, "buffer is NULL"@),
        buffer is Some ==> final(buffer->0).wf(),
        buffer is Some && !buffer->0.is_mapped ==> r is None && *final(buffer->0) == *buffer->0,
        buffer is Some && buffer->0.is_mapped ==> converts(unmapped, r) && *final(buffer->0) == buffer->0.unmapped(),
{
    let b = match buffer {
        Some(b) => b,
        None => return Some(status_error(HrxStatusCode::InvalidArgument, "buffer is NULL")),
    };
    if !b.is_mapped {
        return None;
    }
    b.is_mapped = false;
    b.mapped_ptr = 0;
    hrx_status_from_iree(unmapped)
}

/// `hrx_buffer_get_device_ptr`: the mapped pointer when there is one, else
/// the pointer of a full read-write mapping IREE made; a buffer IREE cannot
/// map has no device pointer.
pub fn hrx_buffer_get_device_ptr(buffer: Option<&mut HrxBufferS>, mapped: Result<iree_byte_span_t, IreeError>) -> (r:
    Result<u64, HrxStatusS>)
    requires
        buffer is Some ==> buffer->0.wf(),
    ensures
        buffer is None ==> r is Err && is_error(
            r->Err_0,
            HrxStatusCode::InvalidArgument,
            "buffer or device_ptr is NULL"@,
        ),
        buffer is Some ==> final(buffer->0).wf(),
        buffer is Some && buffer->0.mapped_ptr != 0 ==> r == Ok::<u64, HrxStatusS>(buffer->0.mapped_ptr)
            && *final(buffer->0) == *buffer->0,
        buffer is Some && buffer->0.mapped_ptr == 0 ==> match mapped {
            Err(_) => r is Err && is_error(
                r->Err_0,
                HrxStatusCode::Unavailable,
                "cannot get device pointer for this buffer type"@,
            ) && *final(buffer->0) == *buffer->0,
            Ok(span) => r == Ok::<u64, HrxStatusS>(span.data) && *final(buffer->0) == buffer->0.mapped_to(span),
        },
{
    let b = match buffer {
        Some(b) => b,
        None => return Err(status_error(HrxStatusCode::InvalidArgument, "buffer or device_ptr is NULL")),
    };
    if b.mapped_ptr != 0 {
        return Ok(b.mapped_ptr);
    }
    match mapped {
        Ok(span) => {
            b.mapping = iree_hal_buffer_mapping_t { contents: span };
            b.is_mapped = true;
            b.mapped_ptr = span.data;
            Ok(span.data)
        },
        Err(_) => Err(
            status_error(HrxStatusCode::Unavailable, "cannot get device pointer for this buffer type"),
        ),
    }
}

/// `hrx_buffer_get_size`.
pub fn hrx_buffer_get_size(buffer: Option<&HrxBufferS>) -> (r: Result<usize, HrxStatusS>)
    ensures
        buffer is None ==> r is Err && is_error(r->Err_0, HrxStatusCode::InvalidArgument, "buffer or size is NULL"@),
        buffer is Some ==> r == Ok::<usize, HrxStatusS>(buffer->0.size),
{
    match buffer {
        Some(b) => Ok(b.size),
        None => Err(status_error(HrxStatusCode::InvalidArgument, "buffer or size is NULL")),
    }
}

/// The bounds check of `hrx_synchronous_h2d` / `hrx_synchronous_d2h`: null
/// arguments are refused, a range past the end of the buffer is out of range;
/// otherwise the transfer IREE made decides.
fn synchronous_transfer(
    device_present: bool,
    host_ptr: u64,
    buffer: Option<&HrxBufferS>,
    offset: usize,
    size: usize,
    transferred: IreeStatus,
) -> (r: HrxStatus)
    ensures
        (!device_present || host_ptr == 0 || buffer is None) ==> r is Some && is_error(
            r->0,
            HrxStatusCode::InvalidArgument,
            "NULL argument"@,
        ),
        device_present && host_ptr != 0 && buffer is Some && offset + size > buffer->0.size ==> r is Some
            && is_error(r->0, HrxStatusCode::OutOfRange, "transfer exceeds buffer size"@),
        device_present && host_ptr != 0 && buffer is Some && offset + size <= buffer->0.size ==> converts(
            transferred,
            r,
        ),
{
    let b = match buffer {
        Some(b) => b,
        None => return Some(status_error(HrxStatusCode::InvalidArgument, "NULL argument")),
    };
    if !device_present || host_ptr == 0 {
        return Some(status_error(HrxStatusCode::InvalidArgument, "NULL argument"));
    }
    if offset > b.size || size > b.size - offset {
        return Some(status_error(HrxStatusCode::OutOfRange, "transfer exceeds buffer size"));
    }
    hrx_status_from_iree(transferred)
}

/// `hrx_synchronous_h2d`: copies `size` bytes from host memory into `dst` at
/// `dst_offset` (see `hrx_synchronous_transfer`).
pub fn hrx_synchronous_h2d(
    device_present: bool,
    host_src: u64,
    dst: Option<&HrxBufferS>,
    dst_offset: usize,
    size: usize,
    transferred: IreeStatus,
) -> (r: HrxStatus)
    ensures
        (!device_present || host_src == 0 || dst is None) ==> r is Some && is_error(
            r->0,
            HrxStatusCode::InvalidArgument,
            "NULL argument"@,
        ),
        device_present && host_src != 0 && dst is Some && dst_offset + size > dst->0.size ==> r is Some && is_error(
            r->0,
            HrxStatusCode::OutOfRange,
            "transfer exceeds buffer size"@,
        ),
        device_present && host_src != 0 && dst is Some && dst_offset + size <= dst->0.size ==> converts(
            transferred,
            r,
        ),
{
    synchronous_transfer(device_present, host_src, dst, dst_offset, size, transferred)
}

/// `hrx_synchronous_d2h`: copies `size` bytes of `src` from `src_offset` into
/// host memory (see `hrx_synchronous_transfer`).
pub fn hrx_synchronous_d2h(
    device_present: bool,
    src: Option<&HrxBufferS>,
    src_offset: usize,
    host_dst: u64,
    size: usize,
    transferred: IreeStatus,
) -> (r: HrxStatus)
    ensures
        (!device_present || src is None || host_dst == 0) ==> r is Some && is_error(
            r->0,
            HrxStatusCode::InvalidArgument,
            "NULL argument"@,
        ),
        device_present && src is Some && host_dst != 0 && src_offset + size > src->0.size ==> r is Some && is_error(
            r->0,
            HrxStatusCode::OutOfRange,
            "transfer exceeds buffer size"@,
        ),
        device_present && src is Some && host_dst != 0 && src_offset + size <= src->0.size ==> converts(
            transferred,
            r,
        ),
{
    synchronous_transfer(device_present, host_dst, src, src_offset, size, transferred)
}

/// Whether an allocator supports virtual memory, and its page sizes.
#[derive(Clone, Copy, PartialEq, Eq, Structural, Debug)]
pub struct VirtualMemorySupport {
    pub supported: bool,
    pub min_page_size: usize,
    pub recommended_page_size: usize,
}

/// `hrx_allocator_query_virtual_memory`: unsupported (page sizes 0) when the
/// IREE allocator has no virtual memory or cannot report its granularity for
/// `default_params_for(mem_type)`; else supported with the minimum and
/// recommended page sizes IREE reported.
pub fn hrx_allocator_query_virtual_memory(
    allocator: Option<&HrxAllocatorInline>,
    mem_type: u32,
    supports: bool,
    granularity: Result<(u64, u64), IreeError>,
) -> (r: Result<VirtualMemorySupport, HrxStatusS>)
    ensures
        allocator is None ==> r is Err && is_error(
            r->Err_0,
            HrxStatusCode::InvalidArgument,
            "allocator or supported is NULL"@,
        ),
        allocator is Some && (!supports || granularity is Err) ==> r == Ok::<VirtualMemorySupport, HrxStatusS>(
            VirtualMemorySupport { supported: false, min_page_size: 0, recommended_page_size: 0 },
        ),
        allocator is Some && supports && granularity is Ok ==> r == Ok::<VirtualMemorySupport, HrxStatusS>(
            VirtualMemorySupport {
                supported: true,
                min_page_size: granularity->Ok_0.0 as usize,
                recommended_page_size: granularity->Ok_0.1 as usize,
            },
        ),
{
    if allocator.is_none() {
        return Err(status_error(HrxStatusCode::InvalidArgument, "allocator or supported is NULL"));
    }
    if !supports {
        return Ok(VirtualMemorySupport { supported: false, min_page_size: 0, recommended_page_size: 0 });
    }
    match granularity {
        Err(_) => Ok(VirtualMemorySupport { supported: false, min_page_size: 0, recommended_page_size: 0 }),
        Ok((min, rec)) => {
            #[verifier::truncate]
            let min_page_size = min as usize;
            #[verifier::truncate]
            let recommended_page_size = rec as usize;
            Ok(VirtualMemorySupport { supported: true, min_page_size, recommended_page_size })
        },
    }
}

/// The check of the virtual and physical memory operations: "NULL argument"
/// when a handle is missing, else IREE's outcome converted.
fn memory_op(present: bool, outcome: IreeStatus) -> (r: HrxStatus)
    ensures
        !present ==> r is Some && is_error(r->0, HrxStatusCode::InvalidArgument, "NULL argument"@),
        present ==> converts(outcome, r),
{
    if !present {
        return Some(status_error(HrxStatusCode::InvalidArgument, "NULL argument"));
    }
    hrx_status_from_iree(outcome)
}

/// `hrx_allocator_virtual_memory_reserve`: a device-local buffer of the
/// allocator's device around the virtual range IREE reserved.
pub fn hrx_allocator_virtual_memory_reserve(
    allocator: Option<&HrxAllocatorInline>,
    affinity: u64,
    size: usize,
    reserved: Result<u64, IreeError>,
) -> (r: Result<HrxBufferS, HrxStatusS>)
    ensures
        allocator is None ==> r is Err && is_error(r->Err_0, HrxStatusCode::InvalidArgument, "NULL argument"@),
        allocator is Some ==> match reserved {
            Err(e) => r is Err && converts(Some(e), Some(r->Err_0)),
            Ok(h) => r == Ok::<HrxBufferS, HrxStatusS>(
                fresh_buffer(h, 0, allocator->0.device, HRX_MEMORY_TYPE_DEVICE_LOCAL, size),
            ),
        },
{
    let a = match allocator {
        Some(a) => a,
        None => return Err(status_error(HrxStatusCode::InvalidArgument, "NULL argument")),
    };
    match reserved {
        Err(e) => Err(unwrap_error(hrx_status_from_iree(Some(e)))),
        Ok(h) => Ok(new_buffer_pub(h, 0, a.device, HRX_MEMORY_TYPE_DEVICE_LOCAL, size)),
    }
}

/// `hrx_allocator_virtual_memory_release`: gives the virtual range back to
/// IREE and frees the buffer, whatever IREE returned.
pub fn hrx_allocator_virtual_memory_release(
    allocator: Option<&HrxAllocatorInline>,
    virtual_buffer: Option<HrxBufferS>,
    released: IreeStatus,
) -> (r: HrxStatus)
    ensures
        (allocator is None || virtual_buffer is None) ==> r is Some && is_error(
            r->0,
            HrxStatusCode::InvalidArgument,
            "NULL argument"@,
        ),
        allocator is Some && virtual_buffer is Some ==> converts(released, r),
{
    memory_op(allocator.is_some() && virtual_buffer.is_some(), released)
}

/// `hrx_allocator_physical_memory_allocate`: the physical memory IREE
/// allocated for `default_params_for(mem_type)` and `size`.
pub fn hrx_allocator_physical_memory_allocate(
    allocator: Option<&HrxAllocatorInline>,
    mem_type: u32,
    size: usize,
    allocated: Result<u64, IreeError>,
) -> (r: Result<u64, HrxStatusS>)
    ensures
        allocator is None ==> r is Err && is_error(r->Err_0, HrxStatusCode::InvalidArgument, "NULL argument"@),
        allocator is Some ==> match allocated {
            Err(e) => r is Err && converts(Some(e), Some(r->Err_0)),
            Ok(h) => r == Ok::<u64, HrxStatusS>(h),
        },
{
    if allocator.is_none() {
        return Err(status_error(HrxStatusCode::InvalidArgument, "NULL argument"));
    }
    match allocated {
        Err(e) => Err(unwrap_error(hrx_status_from_iree(Some(e)))),
        Ok(h) => Ok(h),
    }
}

/// `hrx_allocator_physical_memory_free`.
pub fn hrx_allocator_physical_memory_free(allocator: Option<&HrxAllocatorInline>, physical: Option<u64>, freed: IreeStatus) -> (r:
    HrxStatus)
    ensures
        (allocator is None || physical is None) ==> r is Some && is_error(
            r->0,
            HrxStatusCode::InvalidArgument,
            "NULL argument"@,
        ),
        allocator is Some && physical is Some ==> converts(freed, r),
{
    memory_op(allocator.is_some() && physical.is_some(), freed)
}

/// `hrx_allocator_virtual_memory_map`: maps `size` bytes of the physical
/// memory from `physical_offset` at `virtual_offset` of the virtual buffer.
pub fn hrx_allocator_virtual_memory_map(
    allocator: Option<&HrxAllocatorInline>,
    virtual_buffer: Option<&HrxBufferS>,
    virtual_offset: usize,
    physical: Option<u64>,
    physical_offset: usize,
    size: usize,
    mapped: IreeStatus,
) -> (r: HrxStatus)
    ensures
        (allocator is None || virtual_buffer is None || physical is None) ==> r is Some && is_error(
            r->0,
            HrxStatusCode::InvalidArgument,
            "NULL argument"@,
        ),
        allocator is Some && virtual_buffer is Some && physical is Some ==> converts(mapped, r),
{
    memory_op(allocator.is_some() && virtual_buffer.is_some() && physical.is_some(), mapped)
}

/// `hrx_allocator_virtual_memory_unmap`.
pub fn hrx_allocator_virtual_memory_unmap(
    allocator: Option<&HrxAllocatorInline>,
    virtual_buffer: Option<&HrxBufferS>,
    virtual_offset: usize,
    size: usize,
    unmapped: IreeStatus,
) -> (r: HrxStatus)
    ensures
        (allocator is None || virtual_buffer is None) ==> r is Some && is_error(
            r->0,
            HrxStatusCode::InvalidArgument,
            "NULL argument"@,
        ),
        allocator is Some && virtual_buffer is Some ==> converts(unmapped, r),
{
    memory_op(allocator.is_some() && virtual_buffer.is_some(), unmapped)
}

/// `hrx_allocator_virtual_memory_protect`: sets the protection of a range on
/// any queue.
pub fn hrx_allocator_virtual_memory_protect(
    allocator: Option<&HrxAllocatorInline>,
    virtual_buffer: Option<&HrxBufferS>,
    virtual_offset: usize,
    size: usize,
    protection: u32,
    protected: IreeStatus,
) -> (r: HrxStatus)
    ensures
        (allocator is None || virtual_buffer is None) ==> r is Some && is_error(
            r->0,
            HrxStatusCode::InvalidArgument,
            "NULL argument"@,
        ),
        allocator is Some && virtual_buffer is Some ==> converts(protected, r),
{
    memory_op(allocator.is_some() && virtual_buffer.is_some(), protected)
}

/// Mapping an unmapped buffer and unmapping it again gives back the buffer
/// (with the last mapping recorded); while it is mapped, another map is
/// refused (`hrx_buffer_map` refuses a mapped buffer), and once unmapped it
/// maps again as the fresh buffer would, whatever pointer IREE returned.
pub proof fn law_map_unmap(b: HrxBufferS, span: iree_byte_span_t, again: iree_byte_span_t)
    requires
        b.wf(),
        !b.is_mapped,
    ensures
        b.mapped_to(span).wf(),
        b.mapped_to(span).is_mapped,
        b.mapped_to(span).mapped_ptr == span.data,
        b.mapped_to(span).unmapped().wf(),
        b.mapped_to(span).unmapped() == (HrxBufferS { mapping: iree_hal_buffer_mapping_t { contents: span }, ..b }),
        !b.mapped_to(span).unmapped().is_mapped,
        b.mapped_to(span).unmapped().mapped_to(again) == b.mapped_to(again),
{
}

/// A retain followed by a release gives back the buffer and does not free it.
pub proof fn law_retain_release(b: HrxBufferS)
    requires
        b.wf(),
        b.ref_count < i32::MAX,
    ensures
        b.retained().wf(),
        b.retained().ref_count != 1,
        b.retained().released() == b,
{
}

} // verus!
