//! Names the HIP interceptors print for enumerated HIP values, and the
//! logging interceptor's settings.
use vstd::prelude::*;
use vstd::string::StringSliceAdditionalSpecFns;
use crate::numparse::{atoi, parse_leading_int};
use crate::text::{dec_text, int_text, push_dec, push_int, push_str};

verus! {

/// The name of a `hipMemcpyKind`.
pub open spec fn memcpy_kind_spec(kind: i32) -> Seq<char> {
    if kind == 0 {
        "H2H"@
    } else if kind == 1 {
        "H2D"@
    } else if kind == 2 {
        "D2H"@
    } else if kind == 3 {
        "D2D"@
    } else if kind == 4 {
        "Default"@
    } else {
        "Unknown"@
    }
}

/// `memcpy_kind_name`: the short name of a copy direction.
pub fn memcpy_kind_name(kind: i32) -> (r: &'static str)
    ensures
        r@ == memcpy_kind_spec(kind),
{
    match kind {
        0 => "H2H",
        1 => "H2D",
        2 => "D2H",
        3 => "D2D",
        4 => "Default",
        _ => "Unknown",
    }
}

/// The name the logging interceptor knows for a device attribute, if any.
pub open spec fn known_attribute(attr: u32) -> Option<Seq<char>> {
    if attr == 0 {
        Some("MaxThreadsPerBlock"@)
    } else if attr == 1 {
        Some("MaxBlockDimX"@)
    } else if attr == 2 {
        Some("MaxBlockDimY"@)
    } else if attr == 3 {
        Some("MaxBlockDimZ"@)
    } else if attr == 4 {
        Some("MaxGridDimX"@)
    } else if attr == 5 {
        Some("MaxGridDimY"@)
    } else if attr == 6 {
        Some("MaxGridDimZ"@)
    } else if attr == 7 {
        Some("MaxSharedMemoryPerBlock"@)
    } else if attr == 8 {
        Some("TotalConstantMemory"@)
    } else if attr == 9 {
        Some("WarpSize"@)
    } else if attr == 10 {
        Some("MaxRegistersPerBlock"@)
    } else if attr == 11 {
        Some("ClockRate"@)
    } else if attr == 15 {
        Some("MemoryClockRate"@)
    } else if attr == 16 {
        Some("MemoryBusWidth"@)
    } else if attr == 17 {
        Some("MultiProcessorCount"@)
    } else if attr == 19 {
        Some("ComputeCapabilityMajor"@)
    } else if attr == 20 {
        Some("ComputeCapabilityMinor"@)
    } else if attr == 21 {
        Some("L2CacheSize"@)
    } else if attr == 22 {
        Some("MaxThreadsPerMultiProcessor"@)
    } else if attr == 24 {
        Some("ConcurrentKernels"@)
    } else if attr == 28 {
        Some("PCIBusId"@)
    } else if attr == 29 {
        Some("PCIDeviceId"@)
    } else if attr == 32 {
        Some("MaxSharedMemoryPerMultiprocessor"@)
    } else if attr == 43 {
        Some("IsMultiGpuBoard"@)
    } else if attr == 70 {
        Some("CooperativeLaunch"@)
    } else if attr == 71 {
        Some("CooperativeMultiDeviceLaunch"@)
    } else if attr == 87 {
        Some("PageableMemoryAccess"@)
    } else if attr == 95 {
        Some("ManagedMemory"@)
    } else if attr == 96 {
        Some("DirectManagedMemAccessFromHost"@)
    } else if attr == 100 {
        Some("ConcurrentManagedAccess"@)
    } else if attr == 101 {
        Some("PageableMemoryAccessUsesHostPageTables"@)
    } else if attr == 1000 {
        Some("GCN_ARCH"@)
    } else if attr == 1003 {
        Some("GCN_ARCH_NAME"@)
    } else {
        None
    }
}

fn known_attribute_exec(attr: u32) -> (r: Option<&'static str>)
    ensures
        match r {
            Some(s) => known_attribute(attr) == Some(s@),
            None => known_attribute(attr) is None,
        },
{
    match attr {
        0 => Some("MaxThreadsPerBlock"),
        1 => Some("MaxBlockDimX"),
        2 => Some("MaxBlockDimY"),
        3 => Some("MaxBlockDimZ"),
        4 => Some("MaxGridDimX"),
        5 => Some("MaxGridDimY"),
        6 => Some("MaxGridDimZ"),
        7 => Some("MaxSharedMemoryPerBlock"),
        8 => Some("TotalConstantMemory"),
        9 => Some("WarpSize"),
        10 => Some("MaxRegistersPerBlock"),
        11 => Some("ClockRate"),
        15 => Some("MemoryClockRate"),
        16 => Some("MemoryBusWidth"),
        17 => Some("MultiProcessorCount"),
        19 => Some("ComputeCapabilityMajor"),
        20 => Some("ComputeCapabilityMinor"),
        21 => Some("L2CacheSize"),
        22 => Some("MaxThreadsPerMultiProcessor"),
        24 => Some("ConcurrentKernels"),
        28 => Some("PCIBusId"),
        29 => Some("PCIDeviceId"),
        32 => Some("MaxSharedMemoryPerMultiprocessor"),
        43 => Some("IsMultiGpuBoard"),
        70 => Some("CooperativeLaunch"),
        71 => Some("CooperativeMultiDeviceLaunch"),
        87 => Some("PageableMemoryAccess"),
        95 => Some("ManagedMemory"),
        96 => Some("DirectManagedMemAccessFromHost"),
        100 => Some("ConcurrentManagedAccess"),
        101 => Some("PageableMemoryAccessUsesHostPageTables"),
        1000 => Some("GCN_ARCH"),
        1003 => Some("GCN_ARCH_NAME"),
        _ => None,
    }
}

/// A name's length and its last and fourth-last characters, which already
/// tell the known attribute names apart.
spec fn name_key(s: Seq<char>) -> (nat, char, char) {
    (s.len(), s[s.len() - 1], s[s.len() - 4])
}

/// The logger's names for device attributes: exactly the codes below have a
/// name, each the one given, and no two codes share a name, so a logged name
/// tells the attribute apart.
pub proof fn law_attribute_names()
    ensures
        known_attribute(0) == Some("MaxThreadsPerBlock"@),
        known_attribute(1) == Some("MaxBlockDimX"@),
        known_attribute(2) == Some("MaxBlockDimY"@),
        known_attribute(3) == Some("MaxBlockDimZ"@),
        known_attribute(4) == Some("MaxGridDimX"@),
        known_attribute(5) == Some("MaxGridDimY"@),
        known_attribute(6) == Some("MaxGridDimZ"@),
        known_attribute(7) == Some("MaxSharedMemoryPerBlock"@),
        known_attribute(8) == Some("TotalConstantMemory"@),
        known_attribute(9) == Some("WarpSize"@),
        known_attribute(10) == Some("MaxRegistersPerBlock"@),
        known_attribute(11) == Some("ClockRate"@),
        known_attribute(15) == Some("MemoryClockRate"@),
        known_attribute(16) == Some("MemoryBusWidth"@),
        known_attribute(17) == Some("MultiProcessorCount"@),
        known_attribute(19) == Some("ComputeCapabilityMajor"@),
        known_attribute(20) == Some("ComputeCapabilityMinor"@),
        known_attribute(21) == Some("L2CacheSize"@),
        known_attribute(22) == Some("MaxThreadsPerMultiProcessor"@),
        known_attribute(24) == Some("ConcurrentKernels"@),
        known_attribute(28) == Some("PCIBusId"@),
        known_attribute(29) == Some("PCIDeviceId"@),
        known_attribute(32) == Some("MaxSharedMemoryPerMultiprocessor"@),
        known_attribute(43) == Some("IsMultiGpuBoard"@),
        known_attribute(70) == Some("CooperativeLaunch"@),
        known_attribute(71) == Some("CooperativeMultiDeviceLaunch"@),
        known_attribute(87) == Some("PageableMemoryAccess"@),
        known_attribute(95) == Some("ManagedMemory"@),
        known_attribute(96) == Some("DirectManagedMemAccessFromHost"@),
        known_attribute(100) == Some("ConcurrentManagedAccess"@),
        known_attribute(101) == Some("PageableMemoryAccessUsesHostPageTables"@),
        known_attribute(1000) == Some("GCN_ARCH"@),
        known_attribute(1003) == Some("GCN_ARCH_NAME"@),
        forall|a: u32| #[trigger] known_attribute(a) is Some <==> (a == 0 || a == 1 || a == 2 || a == 3 || a == 4 || a == 5 || a == 6 || a == 7 || a == 8 || a == 9 || a == 10 || a == 11 || a == 15 || a == 16 || a == 17 || a == 19 || a == 20 || a == 21 || a == 22 || a == 24 || a == 28 || a == 29 || a == 32 || a == 43 || a == 70 || a == 71 || a == 87 || a == 95 || a == 96 || a == 100 || a == 101 || a == 1000 || a == 1003),
        forall|a: u32, b: u32|
            #![trigger known_attribute(a), known_attribute(b)]
            known_attribute(a) is Some && known_attribute(a) == known_attribute(b) ==> a == b,
{
    reveal_strlit("MaxThreadsPerBlock");
    assert(name_key("MaxThreadsPerBlock"@) == (18nat, 'k', 'l'));
    reveal_strlit("MaxBlockDimX");
    assert(name_key("MaxBlockDimX"@) == (12nat, 'X', 'D'));
    reveal_strlit("MaxBlockDimY");
    assert(name_key("MaxBlockDimY"@) == (12nat, 'Y', 'D'));
    reveal_strlit("MaxBlockDimZ");
    assert(name_key("MaxBlockDimZ"@) == (12nat, 'Z', 'D'));
    reveal_strlit("MaxGridDimX");
    assert(name_key("MaxGridDimX"@) == (11nat, 'X', 'D'));
    reveal_strlit("MaxGridDimY");
    assert(name_key("MaxGridDimY"@) == (11nat, 'Y', 'D'));
    reveal_strlit("MaxGridDimZ");
    assert(name_key("MaxGridDimZ"@) == (11nat, 'Z', 'D'));
    reveal_strlit("MaxSharedMemoryPerBlock");
    assert(name_key("MaxSharedMemoryPerBlock"@) == (23nat, 'k', 'l'));
    reveal_strlit("TotalConstantMemory");
    assert(name_key("TotalConstantMemory"@) == (19nat, 'y', 'm'));
    reveal_strlit("WarpSize");
    assert(name_key("WarpSize"@) == (8nat, 'e', 'S'));
    reveal_strlit("MaxRegistersPerBlock");
    assert(name_key("MaxRegistersPerBlock"@) == (20nat, 'k', 'l'));
    reveal_strlit("ClockRate");
    assert(name_key("ClockRate"@) == (9nat, 'e', 'R'));
    reveal_strlit("MemoryClockRate");
    assert(name_key("MemoryClockRate"@) == (15nat, 'e', 'R'));
    reveal_strlit("MemoryBusWidth");
    assert(name_key("MemoryBusWidth"@) == (14nat, 'h', 'i'));
    reveal_strlit("MultiProcessorCount");
    assert(name_key("MultiProcessorCount"@) == (19nat, 't', 'o'));
    reveal_strlit("ComputeCapabilityMajor");
    assert(name_key("ComputeCapabilityMajor"@) == (22nat, 'r', 'a'));
    reveal_strlit("ComputeCapabilityMinor");
    assert(name_key("ComputeCapabilityMinor"@) == (22nat, 'r', 'i'));
    reveal_strlit("L2CacheSize");
    assert(name_key("L2CacheSize"@) == (11nat, 'e', 'S'));
    reveal_strlit("MaxThreadsPerMultiProcessor");
    assert(name_key("MaxThreadsPerMultiProcessor"@) == (27nat, 'r', 's'));
    reveal_strlit("ConcurrentKernels");
    assert(name_key("ConcurrentKernels"@) == (17nat, 's', 'n'));
    reveal_strlit("PCIBusId");
    assert(name_key("PCIBusId"@) == (8nat, 'd', 'u'));
    reveal_strlit("PCIDeviceId");
    assert(name_key("PCIDeviceId"@) == (11nat, 'd', 'c'));
    reveal_strlit("MaxSharedMemoryPerMultiprocessor");
    assert(name_key("MaxSharedMemoryPerMultiprocessor"@) == (32nat, 'r', 's'));
    reveal_strlit("IsMultiGpuBoard");
    assert(name_key("IsMultiGpuBoard"@) == (15nat, 'd', 'o'));
    reveal_strlit("CooperativeLaunch");
    assert(name_key("CooperativeLaunch"@) == (17nat, 'h', 'u'));
    reveal_strlit("CooperativeMultiDeviceLaunch");
    assert(name_key("CooperativeMultiDeviceLaunch"@) == (28nat, 'h', 'u'));
    reveal_strlit("PageableMemoryAccess");
    assert(name_key("PageableMemoryAccess"@) == (20nat, 's', 'c'));
    reveal_strlit("ManagedMemory");
    assert(name_key("ManagedMemory"@) == (13nat, 'y', 'm'));
    reveal_strlit("DirectManagedMemAccessFromHost");
    assert(name_key("DirectManagedMemAccessFromHost"@) == (30nat, 't', 'H'));
    reveal_strlit("ConcurrentManagedAccess");
    assert(name_key("ConcurrentManagedAccess"@) == (23nat, 's', 'c'));
    reveal_strlit("PageableMemoryAccessUsesHostPageTables");
    assert(name_key("PageableMemoryAccessUsesHostPageTables"@) == (38nat, 's', 'b'));
    reveal_strlit("GCN_ARCH");
    assert(name_key("GCN_ARCH"@) == (8nat, 'H', 'A'));
    reveal_strlit("GCN_ARCH_NAME");
    assert(name_key("GCN_ARCH_NAME"@) == (13nat, 'E', 'N'));
    assert forall|a: u32, b: u32|
        #![trigger known_attribute(a), known_attribute(b)]
        known_attribute(a) is Some && known_attribute(a) == known_attribute(b) implies a == b by {
        assert(name_key(known_attribute(a)->0) == name_key(known_attribute(b)->0));
    }
}

/// The text the logger gives a device attribute: its name, or `attr_<n>`
/// for an attribute it does not know.
pub open spec fn attribute_name_text(attr: u32) -> Seq<u8> {
    match known_attribute(attr) {
        Some(s) => vstd::utf8::encode_utf8(s),
        None => "attr_".spec_bytes() + dec_text(attr as nat),
    }
}

/// `device_attribute_name`: the attribute's name, or `attr_<n>` for an
/// attribute the logger does not know.
pub fn device_attribute_name(attr: u32) -> (r: Vec<u8>)
    ensures
        r@ == attribute_name_text(attr),
        match known_attribute(attr) {
            Some(s) => r@ == vstd::utf8::encode_utf8(s),
            None => r@ == "attr_".spec_bytes() + dec_text(attr as nat),
        },
{
    let mut out: Vec<u8> = Vec::new();
    match known_attribute_exec(attr) {
        Some(s) => {
            push_str(&mut out, s);
            assert(out@ =~= s.spec_bytes());
        },
        None => {
            push_str(&mut out, "attr_");
            push_dec(&mut out, attr as u64);
        },
    }
    out
}

/// The logging interceptor's level: `HIP_LOG_LEVEL` read with `atoi`, 2 when unset.
pub fn logging_level(value: Option<&str>) -> (r: i32)
    ensures
        r as int == match value {
            Some(s) => parse_leading_int(s@, i32::MAX as nat),
            None => 2int,
        },
{
    match value {
        Some(s) => atoi(s),
        None => 2,
    }
}

/// `HIP Logging initialized (level=<n>)`.
pub fn logging_init_line(level: i32) -> (r: Vec<u8>)
    ensures
        r@ == "HIP Logging initialized (level=".spec_bytes() + int_text(level as int) + ")".spec_bytes(),
{
    let mut out: Vec<u8> = Vec::new();
    push_str(&mut out, "HIP Logging initialized (level=");
    push_int(&mut out, level as i64);
    push_str(&mut out, ")");
    out
}

/// The level and text the logger gives the result of `hipGetLastError` or
/// `hipPeekAtLastError`: an error at level 1, success at level 3.
pub fn last_error_line(call: &str, err: i32) -> (r: (i32, Vec<u8>))
    ensures
        err != 0 ==> r.0 == 1 && r.1@ == call.spec_bytes() + "() -> ".spec_bytes() + int_text(err as int)
            + " (ERROR)".spec_bytes(),
        err == 0 ==> r.0 == 3 && r.1@ == call.spec_bytes() + "() -> 0".spec_bytes(),
{
    let mut out: Vec<u8> = Vec::new();
    push_str(&mut out, call);
    if err != 0 {
        push_str(&mut out, "() -> ");
        push_int(&mut out, err as i64);
        push_str(&mut out, " (ERROR)");
        (1, out)
    } else {
        push_str(&mut out, "() -> 0");
        (3, out)
    }
}

} // verus!
