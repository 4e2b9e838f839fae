//! HRX devices: their description, the properties callers query, and the
//! allocator each device owns.
use vstd::prelude::*;
use crate::status::{HrxStatus, HrxStatusS, HrxStatusCode, IreeError, IreeStatus, code_value, converts, hrx_status_from_iree, is_error, status_error};

verus! {

/// `HRX_ACCELERATOR_GPU` / `HRX_ACCELERATOR_CPU`.
pub const HRX_ACCELERATOR_GPU: i32 = 0;

pub const HRX_ACCELERATOR_CPU: i32 = 1;

/// `hrx_device_property_t`.
pub const HRX_DEVICE_PROPERTY_NAME: i32 = 0;

pub const HRX_DEVICE_PROPERTY_ARCHITECTURE: i32 = 1;

pub const HRX_DEVICE_PROPERTY_TOTAL_MEMORY: i32 = 2;

pub const HRX_DEVICE_PROPERTY_COMPUTE_UNITS: i32 = 3;

pub const HRX_DEVICE_PROPERTY_MAX_WORKGROUP_SIZE: i32 = 4;

/// The bytes of a device's name field and of its architecture field.
pub const DEVICE_NAME_BYTES: usize = 128;

pub const DEVICE_ARCH_BYTES: usize = 64;

/// The allocator a device owns: its IREE allocator and the device handle
/// that buffers allocated from it keep a reference to.
#[derive(Clone, Copy, PartialEq, Eq, Structural, Debug)]
pub struct HrxAllocatorInline {
    pub hal_allocator: u64,
    pub device: u64,
}

/// An HRX device.
pub struct HrxDeviceS {
    pub type_: i32,
    pub ordinal: i32,
    pub allocator: HrxAllocatorInline,
    pub hal_device_group: u64,
    pub hal_device: u64,
    /// NUL-terminated, `DEVICE_NAME_BYTES` long.
    pub name: Vec<u8>,
    /// NUL-terminated, `DEVICE_ARCH_BYTES` long.
    pub architecture: Vec<u8>,
}

/// The index of the first NUL of `s`, or its length if it has none.
pub open spec fn cstr_len_spec(s: Seq<u8>) -> nat
    decreases s.len(),
{
    if s.len() == 0 {
        0
    } else if s[0] == 0 {
        0
    } else {
        1 + cstr_len_spec(s.drop_first())
    }
}

/// A field holds a NUL within it.
pub open spec fn has_nul(s: Seq<u8>) -> bool {
    exists|i: int| 0 <= i < s.len() && s[i] == 0
}

impl HrxDeviceS {
    /// The name and architecture fields have their sizes and are terminated.
    pub open spec fn wf(&self) -> bool {
        &&& self.name@.len() == DEVICE_NAME_BYTES
        &&& self.architecture@.len() == DEVICE_ARCH_BYTES
        &&& has_nul(self.name@)
        &&& has_nul(self.architecture@)
    }
}

proof fn lemma_cstr_len(s: Seq<u8>)
    ensures
        cstr_len_spec(s) <= s.len(),
        cstr_len_spec(s) < s.len() ==> s[cstr_len_spec(s) as int] == 0,
        forall|j: int| 0 <= j < cstr_len_spec(s) ==> s[j] != 0,
        has_nul(s) ==> cstr_len_spec(s) < s.len(),
    decreases s.len(),
{
    if s.len() > 0 && s[0] != 0 {
        lemma_cstr_len(s.drop_first());
        assert forall|j: int| 0 <= j < cstr_len_spec(s) implies s[j] != 0 by {
            if j > 0 {
                assert(s[j] == s.drop_first()[j - 1]);
            }
        }
        if has_nul(s) {
            let i = choose|i: int| 0 <= i < s.len() && s[i] == 0;
            assert(s.drop_first()[i - 1] == 0);
        }
    }
}

/// `cstr_len`: the length of the NUL-terminated text in a field.
pub fn cstr_len(buf: &[u8]) -> (r: usize)
    ensures
        r == cstr_len_spec(buf@),
{
    proof {
        lemma_cstr_len(buf@);
    }
    let mut n: usize = 0;
    while n < buf.len() && buf[n] != 0
        invariant
            n <= buf@.len(),
            forall|j: int| 0 <= j < n ==> buf@[j] != 0,
            cstr_len_spec(buf@) <= buf@.len(),
            cstr_len_spec(buf@) < buf@.len() ==> buf@[cstr_len_spec(buf@) as int] == 0,
            forall|j: int| 0 <= j < cstr_len_spec(buf@) ==> buf@[j] != 0,
        decreases buf@.len() - n,
    {
        n = n + 1;
    }
    n
}

/// `s` in a zero-filled field of `n` bytes, cut to `n - 1` bytes so that the
/// field stays NUL-terminated.
pub open spec fn cstr_field(s: Seq<u8>, n: nat) -> Seq<u8> {
    Seq::new(n, |i: int| if i < s.len() && i < n - 1 { s[i] } else { 0u8 })
}

/// The first NUL of `t` is at `k`.
proof fn lemma_cstr_len_at(t: Seq<u8>, k: int)
    requires
        0 <= k < t.len(),
        t[k] == 0,
        forall|j: int| 0 <= j < k ==> t[j] != 0,
    ensures
        cstr_len_spec(t) == k,
    decreases k,
{
    if k > 0 {
        assert(t[0] != 0);
        let d = t.drop_first();
        assert forall|j: int| 0 <= j < k - 1 implies d[j] != 0 by {
            assert(d[j] == t[j + 1]);
        }
        lemma_cstr_len_at(d, k - 1);
    }
}

/// A field made from NUL-free text shorter than the field holds that text
/// and its NUL.
pub proof fn lemma_cstr_field_text(s: Seq<u8>, n: nat)
    requires
        s.len() < n,
        forall|i: int| 0 <= i < s.len() ==> s[i] != 0,
    ensures
        cstr_len_spec(cstr_field(s, n)) == s.len(),
        field_text(cstr_field(s, n)) == s.push(0u8),
{
    let t = cstr_field(s, n);
    lemma_cstr_len_at(t, s.len() as int);
    assert(field_text(t) =~= s.push(0u8));
}

/// `cstr_array`: `s` copied into a zero-filled field of `n` bytes, cut to
/// `n - 1` bytes so that the field stays NUL-terminated.
pub fn cstr_array(s: &[u8], n: usize) -> (r: Vec<u8>)
    requires
        n >= 1,
    ensures
        r@ == cstr_field(s@, n as nat),
        r@.len() == n,
        r@[n - 1] == 0,
{
    let mut out: Vec<u8> = Vec::new();
    let mut i: usize = 0;
    while i < n
        invariant
            i <= n,
            n >= 1,
            out@.len() == i,
            forall|k: int| 0 <= k < i ==> out@[k] == (if k < s@.len() && k < n - 1 {
                s@[k]
            } else {
                0u8
            }),
        decreases n - i,
    {
        if i < s.len() && i < n - 1 {
            out.push(s[i]);
        } else {
            out.push(0u8);
        }
        i = i + 1;
    }
    assert(out@ =~= cstr_field(s@, n as nat));
    out
}

/// The value of a device property.
#[derive(Debug)]
pub enum PropertyValue {
    /// NUL-terminated text.
    Text(Vec<u8>),
    U64(u64),
    U32(u32),
}

/// The text of a field up to and including its terminating NUL.
pub open spec fn field_text(s: Seq<u8>) -> Seq<u8> {
    s.subrange(0, cstr_len_spec(s) as int + 1)
}

fn field_text_exec(s: &[u8], len: usize) -> (r: Vec<u8>)
    requires
        len == cstr_len_spec(s@),
        len < s@.len(),
    ensures
        r@ == field_text(s@),
{
    let mut out: Vec<u8> = Vec::new();
    let mut i: usize = 0;
    while i <= len
        invariant
            len < s@.len(),
            i <= len + 1,
            out@ == s@.subrange(0, i as int),
        decreases len + 1 - i,
    {
        out.push(s[i]);
        i = i + 1;
        assert(out@ =~= s@.subrange(0, i as int));
    }
    out
}

/// `hrx_device_get_property` for a caller buffer of `value_size` bytes:
/// the name or architecture text (with its NUL) when it fits, the total memory
/// (the answer of IREE's `memory.total` query, 0 if the query fails) when 8
/// bytes fit, 0 for compute units and workgroup size when 4 bytes fit.
/// The memory query's answer is only read for the total-memory property.
pub fn hrx_device_get_property(
    device: Option<&HrxDeviceS>,
    prop: i32,
    value_size: usize,
    total_memory: Result<i64, IreeError>,
) -> (r: Result<PropertyValue, HrxStatusS>)
    requires
        device is Some ==> device->0.wf(),
    ensures
        device is None ==> r is Err && is_error(r->Err_0, HrxStatusCode::InvalidArgument, "device or value is NULL"@),
        device is Some && prop == HRX_DEVICE_PROPERTY_NAME ==> {
            let n = device->0.name@;
            if value_size < cstr_len_spec(n) + 1 {
                r is Err && is_error(r->Err_0, HrxStatusCode::OutOfRange, "buffer too small for device name"@)
            } else {
                r matches Ok(PropertyValue::Text(t)) && t@ == field_text(n)
            }
        },
        device is Some && prop == HRX_DEVICE_PROPERTY_ARCHITECTURE ==> {
            let a = device->0.architecture@;
            if value_size < cstr_len_spec(a) + 1 {
                r is Err && is_error(
                    r->Err_0,
                    HrxStatusCode::OutOfRange,
                    "buffer too small for architecture string"@,
                )
            } else {
                r matches Ok(PropertyValue::Text(t)) && t@ == field_text(a)
            }
        },
        device is Some && prop == HRX_DEVICE_PROPERTY_TOTAL_MEMORY ==> if value_size < 8 {
            r is Err && is_error(r->Err_0, HrxStatusCode::OutOfRange, "buffer too small for uint64_t"@)
        } else {
            r matches Ok(PropertyValue::U64(m)) && m == match total_memory {
                Ok(v) => v as u64,
                Err(_) => 0u64,
            }
        },
        device is Some && (prop == HRX_DEVICE_PROPERTY_COMPUTE_UNITS || prop
            == HRX_DEVICE_PROPERTY_MAX_WORKGROUP_SIZE) ==> if value_size < 4 {
            r is Err && is_error(r->Err_0, HrxStatusCode::OutOfRange, "buffer too small for uint32_t"@)
        } else {
            r matches Ok(PropertyValue::U32(v)) && v == 0
        },
        device is Some && !(0 <= prop <= 4) ==> r is Err && is_error(
            r->Err_0,
            HrxStatusCode::InvalidArgument,
            "unknown device property"@,
        ),
{
    let dev = match device {
        Some(d) => d,
        None => return Err(status_error(HrxStatusCode::InvalidArgument, "device or value is NULL")),
    };
    if prop == HRX_DEVICE_PROPERTY_NAME {
        proof {
            lemma_cstr_len(dev.name@);
        }
        let len = cstr_len(dev.name.as_slice());
        if value_size < len + 1 {
            return Err(status_error(HrxStatusCode::OutOfRange, "buffer too small for device name"));
        }
        Ok(PropertyValue::Text(field_text_exec(dev.name.as_slice(), len)))
    } else if prop == HRX_DEVICE_PROPERTY_ARCHITECTURE {
        proof {
            lemma_cstr_len(dev.architecture@);
        }
        let len = cstr_len(dev.architecture.as_slice());
        if value_size < len + 1 {
            return Err(status_error(HrxStatusCode::OutOfRange, "buffer too small for architecture string"));
        }
        Ok(PropertyValue::Text(field_text_exec(dev.architecture.as_slice(), len)))
    } else if prop == HRX_DEVICE_PROPERTY_TOTAL_MEMORY {
        if value_size < 8 {
            return Err(status_error(HrxStatusCode::OutOfRange, "buffer too small for uint64_t"));
        }
        let mem: i64 = match total_memory {
            Ok(v) => v,
            Err(_) => 0,
        };
        Ok(PropertyValue::U64(mem as u64))
    } else if prop == HRX_DEVICE_PROPERTY_COMPUTE_UNITS || prop == HRX_DEVICE_PROPERTY_MAX_WORKGROUP_SIZE {
        if value_size < 4 {
            return Err(status_error(HrxStatusCode::OutOfRange, "buffer too small for uint32_t"));
        }
        Ok(PropertyValue::U32(0))
    } else {
        Err(status_error(HrxStatusCode::InvalidArgument, "unknown device property"))
    }
}

/// `hrx_device_get_type`: the accelerator type of a device.
pub fn hrx_device_get_type(device: Option<&HrxDeviceS>) -> (r: Result<i32, HrxStatusS>)
    ensures
        device is None ==> r is Err && is_error(r->Err_0, HrxStatusCode::InvalidArgument, "device or type is NULL"@),
        device is Some ==> r == Ok::<i32, HrxStatusS>(device->0.type_),
{
    match device {
        Some(d) => Ok(d.type_),
        None => Err(status_error(HrxStatusCode::InvalidArgument, "device or type is NULL")),
    }
}

/// `hrx_device_synchronize`: the outcome of IREE's wait on an empty
/// semaphore list (which returns at once), converted.
pub fn hrx_device_synchronize(device: Option<&HrxDeviceS>, wait: IreeStatus) -> (r: HrxStatus)
    ensures
        device is None ==> r is Some && is_error(r->0, HrxStatusCode::InvalidArgument, "device is NULL"@),
        device is Some ==> converts(wait, r),
{
    match device {
        None => Some(status_error(HrxStatusCode::InvalidArgument, "device is NULL")),
        Some(_) => hrx_status_from_iree(wait),
    }
}

/// `hrx_device_allocator`: the allocator the device owns.
pub fn hrx_device_allocator(device: &HrxDeviceS) -> (r: &HrxAllocatorInline)
    ensures
        *r == device.allocator,
{
    &device.allocator
}

} // verus!
