//! The lines the logging interceptor writes for each HIP call it forwards:
//! the call, its arguments and what it returned.
use vstd::prelude::*;
use vstd::string::StringSliceAdditionalSpecFns;
use crate::hipnames::{attribute_name_text, device_attribute_name, memcpy_kind_name, memcpy_kind_spec};
use crate::text::{
    dec_text, hex_padded, hex_text, int_text, ptr_text, push_bytes, push_dec, push_hex, push_hex_padded, push_int,
    push_ptr, push_str,
};

verus! {

/// The logging interceptor's line for `hipInit`.
pub fn hip_init_line(flags: u64, err: i64) -> (r: Vec<u8>)
    ensures
        r@ == "hipInit(flags=0x".spec_bytes() + hex_text(flags as nat) + ") -> ".spec_bytes() + int_text(err as int),
{
    let mut out: Vec<u8> = Vec::new();
    push_str(&mut out, "hipInit(flags=0x");
    push_hex(&mut out, flags);
    push_str(&mut out, ") -> ");
    push_int(&mut out, err);
    proof {
        assert(Seq::<u8>::empty() + "hipInit(flags=0x".spec_bytes() =~= "hipInit(flags=0x".spec_bytes());
    }
    out
}

/// The logging interceptor's line for `hipDriverGetVersion`.
pub fn hip_driver_get_version_line(version: i64, err: i64) -> (r: Vec<u8>)
    ensures
        r@ == "hipDriverGetVersion() -> version=".spec_bytes() + int_text(version as int) + ", ret=".spec_bytes() + int_text(err as int),
{
    let mut out: Vec<u8> = Vec::new();
    push_str(&mut out, "hipDriverGetVersion() -> version=");
    push_int(&mut out, version);
    push_str(&mut out, ", ret=");
    push_int(&mut out, err);
    proof {
        assert(Seq::<u8>::empty() + "hipDriverGetVersion() -> version=".spec_bytes() =~= "hipDriverGetVersion() -> version=".spec_bytes());
    }
    out
}

/// The logging interceptor's line for `hipRuntimeGetVersion`.
pub fn hip_runtime_get_version_line(version: i64, err: i64) -> (r: Vec<u8>)
    ensures
        r@ == "hipRuntimeGetVersion() -> version=".spec_bytes() + int_text(version as int) + ", ret=".spec_bytes() + int_text(err as int),
{
    let mut out: Vec<u8> = Vec::new();
    push_str(&mut out, "hipRuntimeGetVersion() -> version=");
    push_int(&mut out, version);
    push_str(&mut out, ", ret=");
    push_int(&mut out, err);
    proof {
        assert(Seq::<u8>::empty() + "hipRuntimeGetVersion() -> version=".spec_bytes() =~= "hipRuntimeGetVersion() -> version=".spec_bytes());
    }
    out
}

/// The logging interceptor's line for `hipGetDevice`.
pub fn hip_get_device_line(device: i64, err: i64) -> (r: Vec<u8>)
    ensures
        r@ == "hipGetDevice() -> device=".spec_bytes() + int_text(device as int) + ", ret=".spec_bytes() + int_text(err as int),
{
    let mut out: Vec<u8> = Vec::new();
    push_str(&mut out, "hipGetDevice() -> device=");
    push_int(&mut out, device);
    push_str(&mut out, ", ret=");
    push_int(&mut out, err);
    proof {
        assert(Seq::<u8>::empty() + "hipGetDevice() -> device=".spec_bytes() =~= "hipGetDevice() -> device=".spec_bytes());
    }
    out
}

/// The logging interceptor's line for `hipGetDeviceCount`.
pub fn hip_get_device_count_line(count: i64, err: i64) -> (r: Vec<u8>)
    ensures
        r@ == "hipGetDeviceCount() -> count=".spec_bytes() + int_text(count as int) + ", ret=".spec_bytes() + int_text(err as int),
{
    let mut out: Vec<u8> = Vec::new();
    push_str(&mut out, "hipGetDeviceCount() -> count=");
    push_int(&mut out, count);
    push_str(&mut out, ", ret=");
    push_int(&mut out, err);
    proof {
        assert(Seq::<u8>::empty() + "hipGetDeviceCount() -> count=".spec_bytes() =~= "hipGetDeviceCount() -> count=".spec_bytes());
    }
    out
}

/// The logging interceptor's line for `hipSetDevice`.
pub fn hip_set_device_line(device: i64, err: i64) -> (r: Vec<u8>)
    ensures
        r@ == "hipSetDevice(".spec_bytes() + int_text(device as int) + ") -> ".spec_bytes() + int_text(err as int),
{
    let mut out: Vec<u8> = Vec::new();
    push_str(&mut out, "hipSetDevice(");
    push_int(&mut out, device);
    push_str(&mut out, ") -> ");
    push_int(&mut out, err);
    proof {
        assert(Seq::<u8>::empty() + "hipSetDevice(".spec_bytes() =~= "hipSetDevice(".spec_bytes());
    }
    out
}

/// The logging interceptor's line for `hipDeviceSynchronize`.
pub fn hip_device_synchronize_line(err: i64) -> (r: Vec<u8>)
    ensures
        r@ == "hipDeviceSynchronize() -> ".spec_bytes() + int_text(err as int),
{
    let mut out: Vec<u8> = Vec::new();
    push_str(&mut out, "hipDeviceSynchronize() -> ");
    push_int(&mut out, err);
    proof {
        assert(Seq::<u8>::empty() + "hipDeviceSynchronize() -> ".spec_bytes() =~= "hipDeviceSynchronize() -> ".spec_bytes());
    }
    out
}

/// The logging interceptor's line for `hipGetDeviceProperties`.
pub fn hip_get_device_properties_line(device: i64, err: i64) -> (r: Vec<u8>)
    ensures
        r@ == "hipGetDeviceProperties(device=".spec_bytes() + int_text(device as int) + ") -> ret=".spec_bytes() + int_text(err as int),
{
    let mut out: Vec<u8> = Vec::new();
    push_str(&mut out, "hipGetDeviceProperties(device=");
    push_int(&mut out, device);
    push_str(&mut out, ") -> ret=");
    push_int(&mut out, err);
    proof {
        assert(Seq::<u8>::empty() + "hipGetDeviceProperties(device=".spec_bytes() =~= "hipGetDeviceProperties(device=".spec_bytes());
    }
    out
}

/// The logging interceptor's line for `hipGetDeviceProperties (the device's name)`.
pub fn device_props_name_line(name: &[u8]) -> (r: Vec<u8>)
    ensures
        r@ == "  DeviceProps: name=".spec_bytes() + name@,
{
    let mut out: Vec<u8> = Vec::new();
    push_str(&mut out, "  DeviceProps: name=");
    push_bytes(&mut out, name);
    proof {
        assert(Seq::<u8>::empty() + "  DeviceProps: name=".spec_bytes() =~= "  DeviceProps: name=".spec_bytes());
    }
    out
}

/// The logging interceptor's line for `hipDeviceGetAttribute`.
pub fn hip_device_get_attribute_line(attr: u32, device: i64, value: i64, err: i64) -> (r: Vec<u8>)
    ensures
        r@ == "hipDeviceGetAttribute(attr=".spec_bytes() + attribute_name_text(attr) + "(".spec_bytes() + dec_text(attr as nat) + "), device=".spec_bytes() + int_text(device as int) + ") -> value=".spec_bytes() + int_text(value as int) + ", ret=".spec_bytes() + int_text(err as int),
{
    let mut out: Vec<u8> = Vec::new();
    push_str(&mut out, "hipDeviceGetAttribute(attr=");
    let name = device_attribute_name(attr);
    push_bytes(&mut out, name.as_slice());
    push_str(&mut out, "(");
    push_dec(&mut out, attr as u64);
    push_str(&mut out, "), device=");
    push_int(&mut out, device);
    push_str(&mut out, ") -> value=");
    push_int(&mut out, value);
    push_str(&mut out, ", ret=");
    push_int(&mut out, err);
    proof {
        assert(Seq::<u8>::empty() + "hipDeviceGetAttribute(attr=".spec_bytes() =~= "hipDeviceGetAttribute(attr=".spec_bytes());
    }
    out
}

/// The logging interceptor's line for `hipDeviceGetName`.
pub fn hip_device_get_name_line(device: i64, name: &[u8], err: i64) -> (r: Vec<u8>)
    ensures
        r@ == "hipDeviceGetName(device=".spec_bytes() + int_text(device as int) + ") -> name=".spec_bytes() + name@ + ", ret=".spec_bytes() + int_text(err as int),
{
    let mut out: Vec<u8> = Vec::new();
    push_str(&mut out, "hipDeviceGetName(device=");
    push_int(&mut out, device);
    push_str(&mut out, ") -> name=");
    push_bytes(&mut out, name);
    push_str(&mut out, ", ret=");
    push_int(&mut out, err);
    proof {
        assert(Seq::<u8>::empty() + "hipDeviceGetName(device=".spec_bytes() =~= "hipDeviceGetName(device=".spec_bytes());
    }
    out
}

/// The logging interceptor's line for `hipMemGetInfo`.
pub fn hip_mem_get_info_line(free: u64, total: u64, err: i64) -> (r: Vec<u8>)
    ensures
        r@ == "hipMemGetInfo() -> free=".spec_bytes() + dec_text(free as nat) + ", total=".spec_bytes() + dec_text(total as nat) + ", ret=".spec_bytes() + int_text(err as int),
{
    let mut out: Vec<u8> = Vec::new();
    push_str(&mut out, "hipMemGetInfo() -> free=");
    push_dec(&mut out, free as u64);
    push_str(&mut out, ", total=");
    push_dec(&mut out, total as u64);
    push_str(&mut out, ", ret=");
    push_int(&mut out, err);
    proof {
        assert(Seq::<u8>::empty() + "hipMemGetInfo() -> free=".spec_bytes() =~= "hipMemGetInfo() -> free=".spec_bytes());
    }
    out
}

/// The logging interceptor's line for `hipMalloc`.
pub fn hip_malloc_line(size: u64, ptr: u64, err: i64) -> (r: Vec<u8>)
    ensures
        r@ == "hipMalloc(size=".spec_bytes() + dec_text(size as nat) + ") -> ptr=".spec_bytes() + ptr_text(ptr) + ", ret=".spec_bytes() + int_text(err as int),
{
    let mut out: Vec<u8> = Vec::new();
    push_str(&mut out, "hipMalloc(size=");
    push_dec(&mut out, size as u64);
    push_str(&mut out, ") -> ptr=");
    push_ptr(&mut out, ptr);
    push_str(&mut out, ", ret=");
    push_int(&mut out, err);
    proof {
        assert(Seq::<u8>::empty() + "hipMalloc(size=".spec_bytes() =~= "hipMalloc(size=".spec_bytes());
    }
    out
}

/// The logging interceptor's line for `hipFree`.
pub fn hip_free_line(ptr: u64, err: i64) -> (r: Vec<u8>)
    ensures
        r@ == "hipFree(".spec_bytes() + ptr_text(ptr) + ") -> ".spec_bytes() + int_text(err as int),
{
    let mut out: Vec<u8> = Vec::new();
    push_str(&mut out, "hipFree(");
    push_ptr(&mut out, ptr);
    push_str(&mut out, ") -> ");
    push_int(&mut out, err);
    proof {
        assert(Seq::<u8>::empty() + "hipFree(".spec_bytes() =~= "hipFree(".spec_bytes());
    }
    out
}

/// The logging interceptor's line for `hipHostMalloc`.
pub fn hip_host_malloc_line(size: u64, flags: u64, ptr: u64, err: i64) -> (r: Vec<u8>)
    ensures
        r@ == "hipHostMalloc(size=".spec_bytes() + dec_text(size as nat) + ", flags=0x".spec_bytes() + hex_text(flags as nat) + ") -> ptr=".spec_bytes() + ptr_text(ptr) + ", ret=".spec_bytes() + int_text(err as int),
{
    let mut out: Vec<u8> = Vec::new();
    push_str(&mut out, "hipHostMalloc(size=");
    push_dec(&mut out, size as u64);
    push_str(&mut out, ", flags=0x");
    push_hex(&mut out, flags);
    push_str(&mut out, ") -> ptr=");
    push_ptr(&mut out, ptr);
    push_str(&mut out, ", ret=");
    push_int(&mut out, err);
    proof {
        assert(Seq::<u8>::empty() + "hipHostMalloc(size=".spec_bytes() =~= "hipHostMalloc(size=".spec_bytes());
    }
    out
}

/// The logging interceptor's line for `hipHostFree`.
pub fn hip_host_free_line(ptr: u64, err: i64) -> (r: Vec<u8>)
    ensures
        r@ == "hipHostFree(".spec_bytes() + ptr_text(ptr) + ") -> ".spec_bytes() + int_text(err as int),
{
    let mut out: Vec<u8> = Vec::new();
    push_str(&mut out, "hipHostFree(");
    push_ptr(&mut out, ptr);
    push_str(&mut out, ") -> ");
    push_int(&mut out, err);
    proof {
        assert(Seq::<u8>::empty() + "hipHostFree(".spec_bytes() =~= "hipHostFree(".spec_bytes());
    }
    out
}

/// The logging interceptor's line for `hipMemcpy`.
pub fn hip_memcpy_line(dst: u64, src: u64, size: u64, kind: i32, err: i64) -> (r: Vec<u8>)
    ensures
        r@ == "hipMemcpy(dst=".spec_bytes() + ptr_text(dst) + ", src=".spec_bytes() + ptr_text(src) + ", size=".spec_bytes() + dec_text(size as nat) + ", kind=".spec_bytes() + vstd::utf8::encode_utf8(memcpy_kind_spec(kind)) + ") -> ".spec_bytes() + int_text(err as int),
{
    let mut out: Vec<u8> = Vec::new();
    push_str(&mut out, "hipMemcpy(dst=");
    push_ptr(&mut out, dst);
    push_str(&mut out, ", src=");
    push_ptr(&mut out, src);
    push_str(&mut out, ", size=");
    push_dec(&mut out, size as u64);
    push_str(&mut out, ", kind=");
    push_str(&mut out, memcpy_kind_name(kind));
    push_str(&mut out, ") -> ");
    push_int(&mut out, err);
    proof {
        assert(Seq::<u8>::empty() + "hipMemcpy(dst=".spec_bytes() =~= "hipMemcpy(dst=".spec_bytes());
    }
    out
}

/// The logging interceptor's line for `hipMemcpyAsync`.
pub fn hip_memcpy_async_line(dst: u64, src: u64, size: u64, kind: i32, stream: u64, err: i64) -> (r: Vec<u8>)
    ensures
        r@ == "hipMemcpyAsync(dst=".spec_bytes() + ptr_text(dst) + ", src=".spec_bytes() + ptr_text(src) + ", size=".spec_bytes() + dec_text(size as nat) + ", kind=".spec_bytes() + vstd::utf8::encode_utf8(memcpy_kind_spec(kind)) + ", stream=".spec_bytes() + ptr_text(stream) + ") -> ".spec_bytes() + int_text(err as int),
{
    let mut out: Vec<u8> = Vec::new();
    push_str(&mut out, "hipMemcpyAsync(dst=");
    push_ptr(&mut out, dst);
    push_str(&mut out, ", src=");
    push_ptr(&mut out, src);
    push_str(&mut out, ", size=");
    push_dec(&mut out, size as u64);
    push_str(&mut out, ", kind=");
    push_str(&mut out, memcpy_kind_name(kind));
    push_str(&mut out, ", stream=");
    push_ptr(&mut out, stream);
    push_str(&mut out, ") -> ");
    push_int(&mut out, err);
    proof {
        assert(Seq::<u8>::empty() + "hipMemcpyAsync(dst=".spec_bytes() =~= "hipMemcpyAsync(dst=".spec_bytes());
    }
    out
}

/// The logging interceptor's line for `hipMemset`.
pub fn hip_memset_line(dst: u64, value: i32, size: u64, err: i64) -> (r: Vec<u8>)
    ensures
        r@ == "hipMemset(dst=".spec_bytes() + ptr_text(dst) + ", value=0x".spec_bytes() + hex_padded((value as u32) as nat, 2) + ", size=".spec_bytes() + dec_text(size as nat) + ") -> ".spec_bytes() + int_text(err as int),
{
    let mut out: Vec<u8> = Vec::new();
    push_str(&mut out, "hipMemset(dst=");
    push_ptr(&mut out, dst);
    push_str(&mut out, ", value=0x");
    push_hex_padded(&mut out, value as u32 as u64, 2);
    push_str(&mut out, ", size=");
    push_dec(&mut out, size as u64);
    push_str(&mut out, ") -> ");
    push_int(&mut out, err);
    proof {
        assert(Seq::<u8>::empty() + "hipMemset(dst=".spec_bytes() =~= "hipMemset(dst=".spec_bytes());
    }
    out
}

/// The logging interceptor's line for `hipMemsetAsync`.
pub fn hip_memset_async_line(dst: u64, value: i32, size: u64, stream: u64, err: i64) -> (r: Vec<u8>)
    ensures
        r@ == "hipMemsetAsync(dst=".spec_bytes() + ptr_text(dst) + ", value=0x".spec_bytes() + hex_padded((value as u32) as nat, 2) + ", size=".spec_bytes() + dec_text(size as nat) + ", stream=".spec_bytes() + ptr_text(stream) + ") -> ".spec_bytes() + int_text(err as int),
{
    let mut out: Vec<u8> = Vec::new();
    push_str(&mut out, "hipMemsetAsync(dst=");
    push_ptr(&mut out, dst);
    push_str(&mut out, ", value=0x");
    push_hex_padded(&mut out, value as u32 as u64, 2);
    push_str(&mut out, ", size=");
    push_dec(&mut out, size as u64);
    push_str(&mut out, ", stream=");
    push_ptr(&mut out, stream);
    push_str(&mut out, ") -> ");
    push_int(&mut out, err);
    proof {
        assert(Seq::<u8>::empty() + "hipMemsetAsync(dst=".spec_bytes() =~= "hipMemsetAsync(dst=".spec_bytes());
    }
    out
}

/// The logging interceptor's line for `hipStreamCreate`.
pub fn hip_stream_create_line(stream: u64, err: i64) -> (r: Vec<u8>)
    ensures
        r@ == "hipStreamCreate() -> stream=".spec_bytes() + ptr_text(stream) + ", ret=".spec_bytes() + int_text(err as int),
{
    let mut out: Vec<u8> = Vec::new();
    push_str(&mut out, "hipStreamCreate() -> stream=");
    push_ptr(&mut out, stream);
    push_str(&mut out, ", ret=");
    push_int(&mut out, err);
    proof {
        assert(Seq::<u8>::empty() + "hipStreamCreate() -> stream=".spec_bytes() =~= "hipStreamCreate() -> stream=".spec_bytes());
    }
    out
}

/// The logging interceptor's line for `hipStreamCreateWithFlags`.
pub fn hip_stream_create_with_flags_line(flags: u64, stream: u64, err: i64) -> (r: Vec<u8>)
    ensures
        r@ == "hipStreamCreateWithFlags(flags=0x".spec_bytes() + hex_text(flags as nat) + ") -> stream=".spec_bytes() + ptr_text(stream) + ", ret=".spec_bytes() + int_text(err as int),
{
    let mut out: Vec<u8> = Vec::new();
    push_str(&mut out, "hipStreamCreateWithFlags(flags=0x");
    push_hex(&mut out, flags);
    push_str(&mut out, ") -> stream=");
    push_ptr(&mut out, stream);
    push_str(&mut out, ", ret=");
    push_int(&mut out, err);
    proof {
        assert(Seq::<u8>::empty() + "hipStreamCreateWithFlags(flags=0x".spec_bytes() =~= "hipStreamCreateWithFlags(flags=0x".spec_bytes());
    }
    out
}

/// The logging interceptor's line for `hipStreamDestroy`.
pub fn hip_stream_destroy_line(stream: u64, err: i64) -> (r: Vec<u8>)
    ensures
        r@ == "hipStreamDestroy(stream=".spec_bytes() + ptr_text(stream) + ") -> ".spec_bytes() + int_text(err as int),
{
    let mut out: Vec<u8> = Vec::new();
    push_str(&mut out, "hipStreamDestroy(stream=");
    push_ptr(&mut out, stream);
    push_str(&mut out, ") -> ");
    push_int(&mut out, err);
    proof {
        assert(Seq::<u8>::empty() + "hipStreamDestroy(stream=".spec_bytes() =~= "hipStreamDestroy(stream=".spec_bytes());
    }
    out
}

/// The logging interceptor's line for `hipStreamSynchronize`.
pub fn hip_stream_synchronize_line(stream: u64, err: i64) -> (r: Vec<u8>)
    ensures
        r@ == "hipStreamSynchronize(stream=".spec_bytes() + ptr_text(stream) + ") -> ".spec_bytes() + int_text(err as int),
{
    let mut out: Vec<u8> = Vec::new();
    push_str(&mut out, "hipStreamSynchronize(stream=");
    push_ptr(&mut out, stream);
    push_str(&mut out, ") -> ");
    push_int(&mut out, err);
    proof {
        assert(Seq::<u8>::empty() + "hipStreamSynchronize(stream=".spec_bytes() =~= "hipStreamSynchronize(stream=".spec_bytes());
    }
    out
}

/// The logging interceptor's line for `hipStreamQuery`.
pub fn hip_stream_query_line(stream: u64, err: i64) -> (r: Vec<u8>)
    ensures
        r@ == "hipStreamQuery(stream=".spec_bytes() + ptr_text(stream) + ") -> ".spec_bytes() + int_text(err as int),
{
    let mut out: Vec<u8> = Vec::new();
    push_str(&mut out, "hipStreamQuery(stream=");
    push_ptr(&mut out, stream);
    push_str(&mut out, ") -> ");
    push_int(&mut out, err);
    proof {
        assert(Seq::<u8>::empty() + "hipStreamQuery(stream=".spec_bytes() =~= "hipStreamQuery(stream=".spec_bytes());
    }
    out
}

/// The logging interceptor's line for `hipStreamWaitEvent`.
pub fn hip_stream_wait_event_line(stream: u64, event: u64, flags: u64, err: i64) -> (r: Vec<u8>)
    ensures
        r@ == "hipStreamWaitEvent(stream=".spec_bytes() + ptr_text(stream) + ", event=".spec_bytes() + ptr_text(event) + ", flags=0x".spec_bytes() + hex_text(flags as nat) + ") -> ".spec_bytes() + int_text(err as int),
{
    let mut out: Vec<u8> = Vec::new();
    push_str(&mut out, "hipStreamWaitEvent(stream=");
    push_ptr(&mut out, stream);
    push_str(&mut out, ", event=");
    push_ptr(&mut out, event);
    push_str(&mut out, ", flags=0x");
    push_hex(&mut out, flags);
    push_str(&mut out, ") -> ");
    push_int(&mut out, err);
    proof {
        assert(Seq::<u8>::empty() + "hipStreamWaitEvent(stream=".spec_bytes() =~= "hipStreamWaitEvent(stream=".spec_bytes());
    }
    out
}

/// The logging interceptor's line for `hipEventCreate`.
pub fn hip_event_create_line(event: u64, err: i64) -> (r: Vec<u8>)
    ensures
        r@ == "hipEventCreate() -> event=".spec_bytes() + ptr_text(event) + ", ret=".spec_bytes() + int_text(err as int),
{
    let mut out: Vec<u8> = Vec::new();
    push_str(&mut out, "hipEventCreate() -> event=");
    push_ptr(&mut out, event);
    push_str(&mut out, ", ret=");
    push_int(&mut out, err);
    proof {
        assert(Seq::<u8>::empty() + "hipEventCreate() -> event=".spec_bytes() =~= "hipEventCreate() -> event=".spec_bytes());
    }
    out
}

/// The logging interceptor's line for `hipEventCreateWithFlags`.
pub fn hip_event_create_with_flags_line(flags: u64, event: u64, err: i64) -> (r: Vec<u8>)
    ensures
        r@ == "hipEventCreateWithFlags(flags=0x".spec_bytes() + hex_text(flags as nat) + ") -> event=".spec_bytes() + ptr_text(event) + ", ret=".spec_bytes() + int_text(err as int),
{
    let mut out: Vec<u8> = Vec::new();
    push_str(&mut out, "hipEventCreateWithFlags(flags=0x");
    push_hex(&mut out, flags);
    push_str(&mut out, ") -> event=");
    push_ptr(&mut out, event);
    push_str(&mut out, ", ret=");
    push_int(&mut out, err);
    proof {
        assert(Seq::<u8>::empty() + "hipEventCreateWithFlags(flags=0x".spec_bytes() =~= "hipEventCreateWithFlags(flags=0x".spec_bytes());
    }
    out
}

/// The logging interceptor's line for `hipEventDestroy`.
pub fn hip_event_destroy_line(event: u64, err: i64) -> (r: Vec<u8>)
    ensures
        r@ == "hipEventDestroy(event=".spec_bytes() + ptr_text(event) + ") -> ".spec_bytes() + int_text(err as int),
{
    let mut out: Vec<u8> = Vec::new();
    push_str(&mut out, "hipEventDestroy(event=");
    push_ptr(&mut out, event);
    push_str(&mut out, ") -> ");
    push_int(&mut out, err);
    proof {
        assert(Seq::<u8>::empty() + "hipEventDestroy(event=".spec_bytes() =~= "hipEventDestroy(event=".spec_bytes());
    }
    out
}

/// The logging interceptor's line for `hipEventRecord`.
pub fn hip_event_record_line(event: u64, stream: u64, err: i64) -> (r: Vec<u8>)
    ensures
        r@ == "hipEventRecord(event=".spec_bytes() + ptr_text(event) + ", stream=".spec_bytes() + ptr_text(stream) + ") -> ".spec_bytes() + int_text(err as int),
{
    let mut out: Vec<u8> = Vec::new();
    push_str(&mut out, "hipEventRecord(event=");
    push_ptr(&mut out, event);
    push_str(&mut out, ", stream=");
    push_ptr(&mut out, stream);
    push_str(&mut out, ") -> ");
    push_int(&mut out, err);
    proof {
        assert(Seq::<u8>::empty() + "hipEventRecord(event=".spec_bytes() =~= "hipEventRecord(event=".spec_bytes());
    }
    out
}

/// The logging interceptor's line for `hipEventSynchronize`.
pub fn hip_event_synchronize_line(event: u64, err: i64) -> (r: Vec<u8>)
    ensures
        r@ == "hipEventSynchronize(event=".spec_bytes() + ptr_text(event) + ") -> ".spec_bytes() + int_text(err as int),
{
    let mut out: Vec<u8> = Vec::new();
    push_str(&mut out, "hipEventSynchronize(event=");
    push_ptr(&mut out, event);
    push_str(&mut out, ") -> ");
    push_int(&mut out, err);
    proof {
        assert(Seq::<u8>::empty() + "hipEventSynchronize(event=".spec_bytes() =~= "hipEventSynchronize(event=".spec_bytes());
    }
    out
}

/// The logging interceptor's line for `hipEventQuery`.
pub fn hip_event_query_line(event: u64, err: i64) -> (r: Vec<u8>)
    ensures
        r@ == "hipEventQuery(event=".spec_bytes() + ptr_text(event) + ") -> ".spec_bytes() + int_text(err as int),
{
    let mut out: Vec<u8> = Vec::new();
    push_str(&mut out, "hipEventQuery(event=");
    push_ptr(&mut out, event);
    push_str(&mut out, ") -> ");
    push_int(&mut out, err);
    proof {
        assert(Seq::<u8>::empty() + "hipEventQuery(event=".spec_bytes() =~= "hipEventQuery(event=".spec_bytes());
    }
    out
}

/// The logging interceptor's line for `hipEventElapsedTime (`ms` is the elapsed time's text)`.
pub fn hip_event_elapsed_time_line(start: u64, stop: u64, ms: &[u8], err: i64) -> (r: Vec<u8>)
    ensures
        r@ == "hipEventElapsedTime(start=".spec_bytes() + ptr_text(start) + ", stop=".spec_bytes() + ptr_text(stop) + ") -> ms=".spec_bytes() + ms@ + ", ret=".spec_bytes() + int_text(err as int),
{
    let mut out: Vec<u8> = Vec::new();
    push_str(&mut out, "hipEventElapsedTime(start=");
    push_ptr(&mut out, start);
    push_str(&mut out, ", stop=");
    push_ptr(&mut out, stop);
    push_str(&mut out, ") -> ms=");
    push_bytes(&mut out, ms);
    push_str(&mut out, ", ret=");
    push_int(&mut out, err);
    proof {
        assert(Seq::<u8>::empty() + "hipEventElapsedTime(start=".spec_bytes() =~= "hipEventElapsedTime(start=".spec_bytes());
    }
    out
}

/// The logging interceptor's line for `hipModuleLaunchKernel`.
pub fn hip_module_launch_kernel_line(func: u64, gx: u64, gy: u64, gz: u64, bx: u64, by: u64, bz: u64, shared: u64, stream: u64, extra: u64, err: i64) -> (r: Vec<u8>)
    ensures
        r@ == "hipModuleLaunchKernel(func=".spec_bytes() + ptr_text(func) + ", grid=(".spec_bytes() + dec_text(gx as nat) + ",".spec_bytes() + dec_text(gy as nat) + ",".spec_bytes() + dec_text(gz as nat) + ")".spec_bytes() + ", block=(".spec_bytes() + dec_text(bx as nat) + ",".spec_bytes() + dec_text(by as nat) + ",".spec_bytes() + dec_text(bz as nat) + ")".spec_bytes() + ", shared=".spec_bytes() + dec_text(shared as nat) + ", stream=".spec_bytes() + ptr_text(stream) + ", extra=".spec_bytes() + ptr_text(extra) + ") -> ".spec_bytes() + int_text(err as int),
{
    let mut out: Vec<u8> = Vec::new();
    push_str(&mut out, "hipModuleLaunchKernel(func=");
    push_ptr(&mut out, func);
    push_str(&mut out, ", grid=(");
    push_dec(&mut out, gx as u64);
    push_str(&mut out, ",");
    push_dec(&mut out, gy as u64);
    push_str(&mut out, ",");
    push_dec(&mut out, gz as u64);
    push_str(&mut out, ")");
    push_str(&mut out, ", block=(");
    push_dec(&mut out, bx as u64);
    push_str(&mut out, ",");
    push_dec(&mut out, by as u64);
    push_str(&mut out, ",");
    push_dec(&mut out, bz as u64);
    push_str(&mut out, ")");
    push_str(&mut out, ", shared=");
    push_dec(&mut out, shared as u64);
    push_str(&mut out, ", stream=");
    push_ptr(&mut out, stream);
    push_str(&mut out, ", extra=");
    push_ptr(&mut out, extra);
    push_str(&mut out, ") -> ");
    push_int(&mut out, err);
    proof {
        assert(Seq::<u8>::empty() + "hipModuleLaunchKernel(func=".spec_bytes() =~= "hipModuleLaunchKernel(func=".spec_bytes());
    }
    out
}

/// The logging interceptor's line for `hipExtModuleLaunchKernel`.
pub fn hip_ext_module_launch_kernel_line(func: u64, gx: u64, gy: u64, gz: u64, bx: u64, by: u64, bz: u64, shared: u64, stream: u64, flags: u64, err: i64) -> (r: Vec<u8>)
    ensures
        r@ == "hipExtModuleLaunchKernel(func=".spec_bytes() + ptr_text(func) + ", grid=(".spec_bytes() + dec_text(gx as nat) + ",".spec_bytes() + dec_text(gy as nat) + ",".spec_bytes() + dec_text(gz as nat) + ")".spec_bytes() + ", block=(".spec_bytes() + dec_text(bx as nat) + ",".spec_bytes() + dec_text(by as nat) + ",".spec_bytes() + dec_text(bz as nat) + ")".spec_bytes() + ", shared=".spec_bytes() + dec_text(shared as nat) + ", stream=".spec_bytes() + ptr_text(stream) + ", flags=0x".spec_bytes() + hex_text(flags as nat) + ") -> ".spec_bytes() + int_text(err as int),
{
    let mut out: Vec<u8> = Vec::new();
    push_str(&mut out, "hipExtModuleLaunchKernel(func=");
    push_ptr(&mut out, func);
    push_str(&mut out, ", grid=(");
    push_dec(&mut out, gx as u64);
    push_str(&mut out, ",");
    push_dec(&mut out, gy as u64);
    push_str(&mut out, ",");
    push_dec(&mut out, gz as u64);
    push_str(&mut out, ")");
    push_str(&mut out, ", block=(");
    push_dec(&mut out, bx as u64);
    push_str(&mut out, ",");
    push_dec(&mut out, by as u64);
    push_str(&mut out, ",");
    push_dec(&mut out, bz as u64);
    push_str(&mut out, ")");
    push_str(&mut out, ", shared=");
    push_dec(&mut out, shared as u64);
    push_str(&mut out, ", stream=");
    push_ptr(&mut out, stream);
    push_str(&mut out, ", flags=0x");
    push_hex(&mut out, flags);
    push_str(&mut out, ") -> ");
    push_int(&mut out, err);
    proof {
        assert(Seq::<u8>::empty() + "hipExtModuleLaunchKernel(func=".spec_bytes() =~= "hipExtModuleLaunchKernel(func=".spec_bytes());
    }
    out
}

/// The logging interceptor's line for `hipLaunchKernel`.
pub fn hip_launch_kernel_line(func: u64, gx: u64, gy: u64, gz: u64, bx: u64, by: u64, bz: u64, shared: u64, stream: u64, err: i64) -> (r: Vec<u8>)
    ensures
        r@ == "hipLaunchKernel(func=".spec_bytes() + ptr_text(func) + ", grid=(".spec_bytes() + dec_text(gx as nat) + ",".spec_bytes() + dec_text(gy as nat) + ",".spec_bytes() + dec_text(gz as nat) + ")".spec_bytes() + ", block=(".spec_bytes() + dec_text(bx as nat) + ",".spec_bytes() + dec_text(by as nat) + ",".spec_bytes() + dec_text(bz as nat) + ")".spec_bytes() + ", shared=".spec_bytes() + dec_text(shared as nat) + ", stream=".spec_bytes() + ptr_text(stream) + ") -> ".spec_bytes() + int_text(err as int),
{
    let mut out: Vec<u8> = Vec::new();
    push_str(&mut out, "hipLaunchKernel(func=");
    push_ptr(&mut out, func);
    push_str(&mut out, ", grid=(");
    push_dec(&mut out, gx as u64);
    push_str(&mut out, ",");
    push_dec(&mut out, gy as u64);
    push_str(&mut out, ",");
    push_dec(&mut out, gz as u64);
    push_str(&mut out, ")");
    push_str(&mut out, ", block=(");
    push_dec(&mut out, bx as u64);
    push_str(&mut out, ",");
    push_dec(&mut out, by as u64);
    push_str(&mut out, ",");
    push_dec(&mut out, bz as u64);
    push_str(&mut out, ")");
    push_str(&mut out, ", shared=");
    push_dec(&mut out, shared as u64);
    push_str(&mut out, ", stream=");
    push_ptr(&mut out, stream);
    push_str(&mut out, ") -> ");
    push_int(&mut out, err);
    proof {
        assert(Seq::<u8>::empty() + "hipLaunchKernel(func=".spec_bytes() =~= "hipLaunchKernel(func=".spec_bytes());
    }
    out
}

/// The logging interceptor's line for `__hipRegisterFatBinary`.
pub fn hip_register_fat_binary_line(data: u64, handle: u64) -> (r: Vec<u8>)
    ensures
        r@ == "__hipRegisterFatBinary(data=".spec_bytes() + ptr_text(data) + ") -> handle=".spec_bytes() + ptr_text(handle),
{
    let mut out: Vec<u8> = Vec::new();
    push_str(&mut out, "__hipRegisterFatBinary(data=");
    push_ptr(&mut out, data);
    push_str(&mut out, ") -> handle=");
    push_ptr(&mut out, handle);
    proof {
        assert(Seq::<u8>::empty() + "__hipRegisterFatBinary(data=".spec_bytes() =~= "__hipRegisterFatBinary(data=".spec_bytes());
    }
    out
}

/// The logging interceptor's line for `__hipUnregisterFatBinary`.
pub fn hip_unregister_fat_binary_line(handle: u64) -> (r: Vec<u8>)
    ensures
        r@ == "__hipUnregisterFatBinary(handle=".spec_bytes() + ptr_text(handle) + ")".spec_bytes(),
{
    let mut out: Vec<u8> = Vec::new();
    push_str(&mut out, "__hipUnregisterFatBinary(handle=");
    push_ptr(&mut out, handle);
    push_str(&mut out, ")");
    proof {
        assert(Seq::<u8>::empty() + "__hipUnregisterFatBinary(handle=".spec_bytes() =~= "__hipUnregisterFatBinary(handle=".spec_bytes());
    }
    out
}

/// The logging interceptor's line for `__hipRegisterFunction`.
pub fn hip_register_function_line(handle: u64, host: u64, device_name: &[u8]) -> (r: Vec<u8>)
    ensures
        r@ == "__hipRegisterFunction(handle=".spec_bytes() + ptr_text(handle) + ", host=".spec_bytes() + ptr_text(host) + ", device=".spec_bytes() + device_name@ + ")".spec_bytes(),
{
    let mut out: Vec<u8> = Vec::new();
    push_str(&mut out, "__hipRegisterFunction(handle=");
    push_ptr(&mut out, handle);
    push_str(&mut out, ", host=");
    push_ptr(&mut out, host);
    push_str(&mut out, ", device=");
    push_bytes(&mut out, device_name);
    push_str(&mut out, ")");
    proof {
        assert(Seq::<u8>::empty() + "__hipRegisterFunction(handle=".spec_bytes() =~= "__hipRegisterFunction(handle=".spec_bytes());
    }
    out
}

/// The logging interceptor's line for `__hipRegisterVar`.
pub fn hip_register_var_line(handle: u64, name: &[u8], size: u64) -> (r: Vec<u8>)
    ensures
        r@ == "__hipRegisterVar(handle=".spec_bytes() + ptr_text(handle) + ", name=".spec_bytes() + name@ + ", size=".spec_bytes() + dec_text(size as nat) + ")".spec_bytes(),
{
    let mut out: Vec<u8> = Vec::new();
    push_str(&mut out, "__hipRegisterVar(handle=");
    push_ptr(&mut out, handle);
    push_str(&mut out, ", name=");
    push_bytes(&mut out, name);
    push_str(&mut out, ", size=");
    push_dec(&mut out, size as u64);
    push_str(&mut out, ")");
    proof {
        assert(Seq::<u8>::empty() + "__hipRegisterVar(handle=".spec_bytes() =~= "__hipRegisterVar(handle=".spec_bytes());
    }
    out
}

/// The note the logging interceptor writes after a device's name.
pub fn device_props_note_line() -> (r: Vec<u8>)
    ensures
        r@ == "  DeviceProps: (use hipDeviceGetAttribute logs for individual fields)".spec_bytes(),
{
    let mut out: Vec<u8> = Vec::new();
    push_str(&mut out, "  DeviceProps: (use hipDeviceGetAttribute logs for individual fields)");
    proof {
        assert(Seq::<u8>::empty() + "  DeviceProps: (use hipDeviceGetAttribute logs for individual fields)".spec_bytes()
            =~= "  DeviceProps: (use hipDeviceGetAttribute logs for individual fields)".spec_bytes());
    }
    out
}

/// The logging interceptor's last line, written when it shuts down.
pub fn logging_shutdown_line() -> (r: Vec<u8>)
    ensures
        r@ == "HIP Logging shutting down".spec_bytes(),
{
    let mut out: Vec<u8> = Vec::new();
    push_str(&mut out, "HIP Logging shutting down");
    proof {
        assert(Seq::<u8>::empty() + "HIP Logging shutting down".spec_bytes() =~= "HIP Logging shutting down".spec_bytes());
    }
    out
}

} // verus!
