//! The IREE values the runtime builds and reads, held as plain values: buffer
//! parameters, mappings, string views, timeouts, semaphore lists, executable
//! function descriptions and the handles of IREE objects (their addresses).
#![allow(non_camel_case_types)]
use vstd::prelude::*;
use vstd::string::StringSliceAdditionalSpecFns;

verus! {

/// `IREE_HAL_QUEUE_AFFINITY_ANY`.
pub const IREE_HAL_QUEUE_AFFINITY_ANY: u64 = 0xffff_ffff_ffff_ffff;

/// `IREE_HAL_COMMAND_BUFFER_MODE_ONE_SHOT`: a command buffer submitted once.
pub const IREE_HAL_COMMAND_BUFFER_MODE_ONE_SHOT: u32 = 1;

/// `IREE_HAL_COMMAND_CATEGORY_TRANSFER` / `IREE_HAL_COMMAND_CATEGORY_DISPATCH`.
pub const IREE_HAL_COMMAND_CATEGORY_TRANSFER: u32 = 1;

pub const IREE_HAL_COMMAND_CATEGORY_DISPATCH: u32 = 2;

/// `IREE_TIMEOUT_ABSOLUTE` / `IREE_TIMEOUT_RELATIVE`.
pub const IREE_TIMEOUT_ABSOLUTE: i32 = 0;

pub const IREE_TIMEOUT_RELATIVE: i32 = 1;

/// `IREE_TIME_INFINITE_FUTURE` / `IREE_TIME_INFINITE_PAST`.
pub const IREE_TIME_INFINITE_FUTURE: i64 = 0x7fff_ffff_ffff_ffff;

pub const IREE_TIME_INFINITE_PAST: i64 = -0x8000_0000_0000_0000;

/// HAL memory access bits.
pub const IREE_HAL_MEMORY_ACCESS_READ: u16 = 1;

pub const IREE_HAL_MEMORY_ACCESS_WRITE: u16 = 2;

pub const IREE_HAL_MEMORY_ACCESS_DISCARD: u16 = 4;

pub const IREE_HAL_MEMORY_ACCESS_DISCARD_WRITE: u16 = 6;

pub const IREE_HAL_MEMORY_ACCESS_ALL: u16 = 7;

/// `iree_hal_executable_function_t`: a function of an executable, by ordinal.
#[derive(Clone, Copy, PartialEq, Eq, Structural, Debug)]
pub struct iree_hal_executable_function_t {
    pub value: u64,
}

/// `iree_vm_function_t`: 16 bytes IREE fills when it resolves a function.
#[derive(Clone, Copy, Debug)]
pub struct iree_vm_function_t {
    pub bytes: [u8; 16],
}

impl iree_vm_function_t {
    /// All zero.
    pub fn zeroed() -> (r: iree_vm_function_t)
        ensures
            forall|i: int| 0 <= i < 16 ==> r.bytes@[i] == 0,
    {
        iree_vm_function_t { bytes: [0u8; 16] }
    }
}

/// `iree_hal_module_device_policy_t`: 16 bytes filled by IREE's default policy.
#[derive(Clone, Copy, Debug)]
pub struct iree_hal_module_device_policy_t {
    pub bytes: [u8; 16],
}

/// `iree_hal_module_debug_sink_t`: 32 bytes filled by IREE's null sink.
#[derive(Clone, Copy, Debug)]
pub struct iree_hal_module_debug_sink_t {
    pub bytes: [u8; 32],
}

/// `iree_hal_executable_params_t`: 64 bytes filled by IREE's initializer.
#[derive(Clone, Copy, Debug)]
pub struct iree_hal_executable_params_t {
    pub bytes: [u8; 64],
}

impl iree_hal_executable_params_t {
    /// All zero.
    pub fn zeroed() -> (r: iree_hal_executable_params_t)
        ensures
            forall|i: int| 0 <= i < 64 ==> r.bytes@[i] == 0,
    {
        iree_hal_executable_params_t { bytes: [0u8; 64] }
    }
}

/// `iree_string_view_t`: the bytes viewed (without a terminating NUL) and their count.
#[derive(Clone, Debug)]
pub struct iree_string_view_t {
    pub data: Vec<u8>,
    pub size: usize,
}

impl iree_string_view_t {
    /// `iree_make_cstring_view`: the view of `s`, its size the byte length.
    pub fn cstr(s: &str) -> (r: iree_string_view_t)
        ensures
            r.data@ == s.spec_bytes(),
            r.size == r.data@.len(),
    {
        let data = crate::kernels::copy_bytes(s.as_bytes());
        let size = data.len();
        iree_string_view_t { data, size }
    }

    /// The empty view.
    pub fn empty() -> (r: iree_string_view_t)
        ensures
            r.data@.len() == 0,
            r.size == 0,
    {
        iree_string_view_t { data: Vec::new(), size: 0 }
    }
}

/// `iree_hal_executable_function_info_t`: what IREE reports of one export.
#[derive(Clone, Debug)]
pub struct iree_hal_executable_function_info_t {
    pub name: iree_string_view_t,
    pub flags: u32,
    pub constant_count: u16,
    pub binding_count: u16,
    pub parameter_count: u16,
    pub workgroup_size: [u32; 3],
}

impl iree_hal_executable_function_info_t {
    /// An all-zero description with an empty name.
    pub fn zeroed() -> (r: iree_hal_executable_function_info_t)
        ensures
            r.name.size == 0,
            r.name.data@.len() == 0,
            r.flags == 0,
            r.constant_count == 0,
            r.binding_count == 0,
            r.parameter_count == 0,
            r.workgroup_size@ == seq![0u32, 0u32, 0u32],
    {
        iree_hal_executable_function_info_t {
            name: iree_string_view_t::empty(),
            flags: 0,
            constant_count: 0,
            binding_count: 0,
            parameter_count: 0,
            workgroup_size: [0u32; 3],
        }
    }
}

/// `iree_hal_buffer_params_t`.
#[derive(Clone, Copy, PartialEq, Eq, Structural, Debug)]
pub struct iree_hal_buffer_params_t {
    pub usage: u32,
    pub access: u16,
    pub type_: u32,
    pub queue_affinity: u64,
    pub min_alignment: u64,
}

/// `iree_byte_span_t`: an address and a length.
#[derive(Clone, Copy, PartialEq, Eq, Structural, Debug)]
pub struct iree_byte_span_t {
    pub data: u64,
    pub data_length: usize,
}

/// `iree_hal_buffer_mapping_t`: the mapped span of a buffer.
#[derive(Clone, Copy, PartialEq, Eq, Structural, Debug)]
pub struct iree_hal_buffer_mapping_t {
    pub contents: iree_byte_span_t,
}

impl iree_hal_buffer_mapping_t {
    /// No mapping: a null span.
    pub fn zeroed() -> (r: iree_hal_buffer_mapping_t)
        ensures
            r.contents.data == 0,
            r.contents.data_length == 0,
    {
        iree_hal_buffer_mapping_t { contents: iree_byte_span_t { data: 0, data_length: 0 } }
    }
}

/// `iree_timeout_t`: an absolute deadline or a relative duration, in ns.
#[derive(Clone, Copy, PartialEq, Eq, Structural, Debug)]
pub struct iree_timeout_t {
    pub type_: i32,
    pub nanos: i64,
}

impl iree_timeout_t {
    /// `iree_infinite_timeout`: the absolute deadline in the infinite future.
    pub fn infinite() -> (r: iree_timeout_t)
        ensures
            r.type_ == IREE_TIMEOUT_ABSOLUTE,
            r.nanos == IREE_TIME_INFINITE_FUTURE,
    {
        iree_timeout_t { type_: IREE_TIMEOUT_ABSOLUTE, nanos: IREE_TIME_INFINITE_FUTURE }
    }

    /// `iree_immediate_timeout`: the absolute deadline in the infinite past.
    pub fn immediate() -> (r: iree_timeout_t)
        ensures
            r.type_ == IREE_TIMEOUT_ABSOLUTE,
            r.nanos == IREE_TIME_INFINITE_PAST,
    {
        iree_timeout_t { type_: IREE_TIMEOUT_ABSOLUTE, nanos: IREE_TIME_INFINITE_PAST }
    }

    /// `iree_make_timeout_ns`: a relative timeout.
    pub fn relative_ns(ns: i64) -> (r: iree_timeout_t)
        ensures
            r.type_ == IREE_TIMEOUT_RELATIVE,
            r.nanos == ns,
    {
        iree_timeout_t { type_: IREE_TIMEOUT_RELATIVE, nanos: ns }
    }
}

/// `iree_hal_semaphore_list_t`: semaphores (by handle) and the payload value
/// for each.
#[derive(Clone, Debug)]
pub struct iree_hal_semaphore_list_t {
    pub count: usize,
    pub semaphores: Vec<u64>,
    pub payload_values: Vec<u64>,
}

impl iree_hal_semaphore_list_t {
    /// The empty list.
    pub fn default() -> (r: iree_hal_semaphore_list_t)
        ensures
            r.count == 0,
            r.semaphores@.len() == 0,
            r.payload_values@.len() == 0,
    {
        iree_hal_semaphore_list_t { count: 0, semaphores: Vec::new(), payload_values: Vec::new() }
    }
}

/// `iree_async_frontier_tracker_options_t`.
#[derive(Clone, Copy, PartialEq, Eq, Structural, Debug)]
pub struct iree_async_frontier_tracker_options_t {
    pub axis_table_capacity: u32,
    pub session_epoch: u8,
    pub machine_index: u8,
}

impl iree_async_frontier_tracker_options_t {
    /// The defaults: 256 axis slots, session epoch 1, machine 0.
    pub fn default_opts() -> (r: iree_async_frontier_tracker_options_t)
        ensures
            r.axis_table_capacity == 256,
            r.session_epoch == 1,
            r.machine_index == 0,
    {
        iree_async_frontier_tracker_options_t { axis_table_capacity: 256, session_epoch: 1, machine_index: 0 }
    }
}

/// An owned reference to an IREE fence, by its (non-null) address.
pub struct HalFence(u64);

impl HalFence {
    pub closed spec fn addr(self) -> u64 {
        self.0
    }

    #[verifier::type_invariant]
    closed spec fn non_null(self) -> bool {
        self.0 != 0
    }

    /// Takes over a fence reference; `None` for a null address.
    pub fn from_owned(ptr: u64) -> (r: Option<HalFence>)
        ensures
            ptr == 0 ==> r is None,
            ptr != 0 ==> r is Some && r->0.addr() == ptr,
    {
        if ptr == 0 {
            None
        } else {
            Some(HalFence(ptr))
        }
    }

    /// The fence's address.
    pub fn as_ptr(&self) -> (r: u64)
        ensures
            r == self.addr(),
            r != 0,
    {
        proof {
            use_type_invariant(self);
        }
        self.0
    }
}

} // verus!
