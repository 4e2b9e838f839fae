//! Executables loaded on a device and their exported functions; VM modules
//! and the functions resolved in them.
use vstd::prelude::*;
use crate::buffer::unwrap_error;
use crate::iree::{iree_hal_executable_function_info_t, iree_vm_function_t};
use crate::status::{HrxStatus, HrxStatusCode, HrxStatusS, IreeError, IreeStatus, converts, hrx_status_from_iree, is_error, status_error};

verus! {

/// An HRX executable: the IREE executable, the cache that prepared it, and
/// the device it keeps a reference to.
#[derive(Clone, Copy, PartialEq, Eq, Structural, Debug)]
pub struct HrxExecutableS {
    pub hal_executable: u64,
    pub hal_executable_cache: u64,
    pub device: u64,
}

/// Whether a format was given: present, non-empty and not starting with NUL.
pub open spec fn format_given(format: Option<&[u8]>) -> bool {
    format is Some && format->0@.len() > 0 && format->0@[0] != 0
}

/// `format_given`, computed.
pub fn executable_format_given(format: Option<&[u8]>) -> (r: bool)
    ensures
        r == format_given(format),
{
    match format {
        None => false,
        Some(f) => f.len() > 0 && f[0] != 0,
    }
}

/// `hrx_executable_load_data`: refuses a missing device or empty data, then
/// (after the cache is created) a missing or empty format; otherwise the
/// executable the cache prepared. Each IREE failure is converted. The second
/// result is the cache to release: the one created, when a later step failed.
pub fn hrx_executable_load_data(
    device: Option<u64>,
    data_present: bool,
    data_size: usize,
    format: Option<&[u8]>,
    cache: Result<u64, IreeError>,
    prepared: Result<u64, IreeError>,
) -> (r: (Result<HrxExecutableS, HrxStatusS>, Option<u64>))
    ensures
        (device is None || !data_present || data_size == 0) ==> r.0 is Err && is_error(
            r.0->Err_0,
            HrxStatusCode::InvalidArgument,
            "device, executable_data, or executable is invalid"@,
        ) && r.1 is None,
        device is Some && data_present && data_size != 0 ==> match cache {
            Err(e) => r.0 is Err && converts(Some(e), Some(r.0->Err_0)) && r.1 is None,
            Ok(c) => if !format_given(format) {
                r.0 is Err && is_error(r.0->Err_0, HrxStatusCode::InvalidArgument, "executable_format is required"@)
                    && r.1 == Some(c)
            } else {
                match prepared {
                    Err(e) => r.0 is Err && converts(Some(e), Some(r.0->Err_0)) && r.1 == Some(c),
                    Ok(x) => r.0 == Ok::<HrxExecutableS, HrxStatusS>(
                        HrxExecutableS { hal_executable: x, hal_executable_cache: c, device: device->0 },
                    ) && r.1 is None,
                }
            },
        },
{
    let d = match device {
        Some(d) => d,
        None => return (
            Err(status_error(HrxStatusCode::InvalidArgument, "device, executable_data, or executable is invalid")),
            None,
        ),
    };
    if !data_present || data_size == 0 {
        return (
            Err(status_error(HrxStatusCode::InvalidArgument, "device, executable_data, or executable is invalid")),
            None,
        );
    }
    let c = match cache {
        Err(e) => return (Err(unwrap_error(hrx_status_from_iree(Some(e)))), None),
        Ok(c) => c,
    };
    if !executable_format_given(format) {
        return (Err(status_error(HrxStatusCode::InvalidArgument, "executable_format is required")), Some(c));
    }
    match prepared {
        Err(e) => (Err(unwrap_error(hrx_status_from_iree(Some(e)))), Some(c)),
        Ok(x) => (Ok(HrxExecutableS { hal_executable: x, hal_executable_cache: c, device: d }), None),
    }
}

/// `hrx_executable_export_count`: the function count IREE reports.
pub fn hrx_executable_export_count(executable: Option<&HrxExecutableS>, count: usize) -> (r: Result<usize, HrxStatusS>)
    ensures
        executable is None ==> r is Err && is_error(
            r->Err_0,
            HrxStatusCode::InvalidArgument,
            "executable or count is NULL"@,
        ),
        executable is Some ==> r == Ok::<usize, HrxStatusS>(count),
{
    match executable {
        None => Err(status_error(HrxStatusCode::InvalidArgument, "executable or count is NULL")),
        Some(_) => Ok(count),
    }
}

/// `hrx_executable_export_info_t`.
pub struct HrxExecutableExportInfo {
    pub name: Vec<u8>,
    pub flags: u32,
    pub constant_count: u32,
    pub binding_count: u32,
    pub parameter_count: u32,
    pub workgroup_size: [u32; 3],
}

/// `hrx_executable_export_info`: IREE's description of the export, its
/// counts widened to 32 bits.
pub fn hrx_executable_export_info(
    executable: Option<&HrxExecutableS>,
    info: Result<iree_hal_executable_function_info_t, IreeError>,
) -> (r: Result<HrxExecutableExportInfo, HrxStatusS>)
    ensures
        executable is None ==> r is Err && is_error(
            r->Err_0,
            HrxStatusCode::InvalidArgument,
            "executable or out_info is NULL"@,
        ),
        executable is Some ==> match info {
            Err(e) => r is Err && converts(Some(e), Some(r->Err_0)),
            Ok(i) => r is Ok && r->Ok_0.name@ == i.name.data@ && r->Ok_0.flags == i.flags
                && r->Ok_0.constant_count == i.constant_count as u32 && r->Ok_0.binding_count
                == i.binding_count as u32 && r->Ok_0.parameter_count == i.parameter_count as u32
                && r->Ok_0.workgroup_size == i.workgroup_size,
        },
{
    if executable.is_none() {
        return Err(status_error(HrxStatusCode::InvalidArgument, "executable or out_info is NULL"));
    }
    match info {
        Err(e) => Err(unwrap_error(hrx_status_from_iree(Some(e)))),
        Ok(i) => Ok(
            HrxExecutableExportInfo {
                name: i.name.data,
                flags: i.flags,
                constant_count: i.constant_count as u32,
                binding_count: i.binding_count as u32,
                parameter_count: i.parameter_count as u32,
                workgroup_size: i.workgroup_size,
            },
        ),
    }
}

/// `hrx_executable_lookup_export_by_name`: the ordinal of the function IREE
/// found by name; a function handle beyond 32 bits is not a dense ordinal.
pub fn hrx_executable_lookup_export_by_name(
    executable: Option<&HrxExecutableS>,
    name_present: bool,
    found: Result<u64, IreeError>,
) -> (r: Result<u32, HrxStatusS>)
    ensures
        (executable is None || !name_present) ==> r is Err && is_error(
            r->Err_0,
            HrxStatusCode::InvalidArgument,
            "executable, name, or export_ordinal is NULL"@,
        ),
        executable is Some && name_present ==> match found {
            Err(e) => r is Err && converts(Some(e), Some(r->Err_0)),
            Ok(v) => if v > u32::MAX {
                r is Err && is_error(
                    r->Err_0,
                    HrxStatusCode::Unimplemented,
                    "executable function is not a dense ordinal"@,
                )
            } else {
                r == Ok::<u32, HrxStatusS>(v as u32)
            },
        },
{
    if executable.is_none() || !name_present {
        return Err(status_error(HrxStatusCode::InvalidArgument, "executable, name, or export_ordinal is NULL"));
    }
    match found {
        Err(e) => Err(unwrap_error(hrx_status_from_iree(Some(e)))),
        Ok(v) => if v > u32::MAX as u64 {
            Err(status_error(HrxStatusCode::Unimplemented, "executable function is not a dense ordinal"))
        } else {
            Ok(v as u32)
        },
    }
}

/// The steps of `hrx_executable_load_file` that can fail before the data is
/// handed to `hrx_executable_load_data`.
#[derive(Clone, Copy, PartialEq, Eq, Structural, Debug)]
pub enum LoadFileFailure {
    MissingArgument,
    Open,
    SeekEnd,
    EmptyFile,
    Rewind,
    ShortRead,
}

/// The status each failing step of `hrx_executable_load_file` returns.
pub fn load_file_error(f: LoadFileFailure) -> (r: HrxStatusS)
    ensures
        f == LoadFileFailure::MissingArgument ==> is_error(
            r,
            HrxStatusCode::InvalidArgument,
            "device, path, or executable is NULL"@,
        ),
        f == LoadFileFailure::Open ==> is_error(r, HrxStatusCode::NotFound, "failed to open executable file"@),
        f == LoadFileFailure::SeekEnd ==> is_error(r, HrxStatusCode::Internal, "failed to seek executable file"@),
        f == LoadFileFailure::EmptyFile ==> is_error(r, HrxStatusCode::InvalidArgument, "empty executable file"@),
        f == LoadFileFailure::Rewind ==> is_error(r, HrxStatusCode::Internal, "failed to rewind executable file"@),
        f == LoadFileFailure::ShortRead ==> is_error(
            r,
            HrxStatusCode::DataLoss,
            "short read while loading executable file"@,
        ),
{
    match f {
        LoadFileFailure::MissingArgument => status_error(
            HrxStatusCode::InvalidArgument,
            "device, path, or executable is NULL",
        ),
        LoadFileFailure::Open => status_error(HrxStatusCode::NotFound, "failed to open executable file"),
        LoadFileFailure::SeekEnd => status_error(HrxStatusCode::Internal, "failed to seek executable file"),
        LoadFileFailure::EmptyFile => status_error(HrxStatusCode::InvalidArgument, "empty executable file"),
        LoadFileFailure::Rewind => status_error(HrxStatusCode::Internal, "failed to rewind executable file"),
        LoadFileFailure::ShortRead => status_error(
            HrxStatusCode::DataLoss,
            "short read while loading executable file",
        ),
    }
}

/// The file size `hrx_executable_load_file` reads: positive, else the file
/// is empty.
pub fn load_file_size(file_size: i64) -> (r: Result<usize, LoadFileFailure>)
    ensures
        file_size <= 0 ==> r == Err::<usize, LoadFileFailure>(LoadFileFailure::EmptyFile),
        0 < file_size <= usize::MAX ==> r == Ok::<usize, LoadFileFailure>(file_size as usize),
{
    if file_size <= 0 {
        return Err(LoadFileFailure::EmptyFile);
    }
    #[verifier::truncate]
    let n = file_size as usize;
    Ok(n)
}

/// A read that returned fewer bytes than the file size is a short read.
pub fn load_file_read(read_size: usize, file_size: usize) -> (r: Result<(), LoadFileFailure>)
    ensures
        read_size != file_size ==> r == Err::<(), LoadFileFailure>(LoadFileFailure::ShortRead),
        read_size == file_size ==> r is Ok,
{
    if read_size != file_size {
        Err(LoadFileFailure::ShortRead)
    } else {
        Ok(())
    }
}

/// An HRX VM module: its VM context, its HAL and bytecode modules, and the
/// device it keeps a reference to.
#[derive(Clone, Copy, PartialEq, Eq, Structural, Debug)]
pub struct HrxModuleS {
    pub context: u64,
    pub hal_module: u64,
    pub bytecode_module: u64,
    pub device: u64,
}

/// An HRX function: the module (handle) it keeps a reference to and the VM
/// function resolved in it.
#[derive(Clone, Copy, Debug)]
pub struct HrxFunctionS {
    pub module: u64,
    pub vm_function: iree_vm_function_t,
}

/// The modules a failed `hrx_module_load_vmfb` releases, in order: the HAL
/// module (when it was made) before the bytecode module (when it was made).
pub open spec fn vmfb_partial_releases(
    group: u64,
    bytecode: Result<u64, IreeError>,
    hal_module: Result<u64, IreeError>,
    context: Result<u64, IreeError>,
) -> Seq<u64> {
    if bytecode is Err {
        Seq::empty()
    } else if group == 0 || hal_module is Err {
        seq![bytecode->Ok_0]
    } else if context is Err {
        seq![hal_module->Ok_0, bytecode->Ok_0]
    } else {
        Seq::empty()
    }
}

/// `hrx_module_load_vmfb`: refuses missing arguments, an empty module and an
/// uninitialised runtime; then builds, in order, the bytecode module, the HAL
/// module over the device's group (a device without a group is refused),
/// and the context of both. The first failure is returned, with the modules
/// built before it to release (`vmfb_partial_releases`); later outcomes are
/// not read. A loaded module holds the device `device.0`.
pub fn hrx_module_load_vmfb(
    device: Option<(u64, u64)>,
    data_present: bool,
    size: usize,
    runtime: (u64, bool),
    bytecode: Result<u64, IreeError>,
    hal_module: Result<u64, IreeError>,
    context: Result<u64, IreeError>,
) -> (r: (Result<HrxModuleS, HrxStatusS>, Vec<u64>))
    ensures
        (device is None || !data_present) ==> r.0 is Err && is_error(
            r.0->Err_0,
            HrxStatusCode::InvalidArgument,
            "device, vmfb_data, or module is NULL"@,
        ) && r.1@.len() == 0,
        device is Some && data_present && size == 0 ==> r.0 is Err && is_error(
            r.0->Err_0,
            HrxStatusCode::InvalidArgument,
            "vmfb_size must be > 0"@,
        ) && r.1@.len() == 0,
        device is Some && data_present && size != 0 && (!runtime.1 || runtime.0 == 0) ==> r.0 is Err && is_error(
            r.0->Err_0,
            HrxStatusCode::Unavailable,
            "runtime is not initialized"@,
        ) && r.1@.len() == 0,
        device is Some && data_present && size != 0 && runtime.1 && runtime.0 != 0 ==> {
            let (handle, group) = device->0;
            &&& r.1@ == vmfb_partial_releases(group, bytecode, hal_module, context)
            &&& if bytecode is Err {
                r.0 is Err && converts(Some(bytecode->Err_0), Some(r.0->Err_0))
            } else if group == 0 {
                r.0 is Err && is_error(
                    r.0->Err_0,
                    HrxStatusCode::FailedPrecondition,
                    "device is missing its HAL device group"@,
                )
            } else if hal_module is Err {
                r.0 is Err && converts(Some(hal_module->Err_0), Some(r.0->Err_0))
            } else if context is Err {
                r.0 is Err && converts(Some(context->Err_0), Some(r.0->Err_0))
            } else {
                r.0 == Ok::<HrxModuleS, HrxStatusS>(
                    HrxModuleS {
                        context: context->Ok_0,
                        hal_module: hal_module->Ok_0,
                        bytecode_module: bytecode->Ok_0,
                        device: handle,
                    },
                )
            }
        },
{
    let mut released: Vec<u64> = Vec::new();
    let (handle, group) = match device {
        Some(d) => d,
        None => return (
            Err(status_error(HrxStatusCode::InvalidArgument, "device, vmfb_data, or module is NULL")),
            released,
        ),
    };
    if !data_present {
        return (Err(status_error(HrxStatusCode::InvalidArgument, "device, vmfb_data, or module is NULL")), released);
    }
    if size == 0 {
        return (Err(status_error(HrxStatusCode::InvalidArgument, "vmfb_size must be > 0")), released);
    }
    if !runtime.1 || runtime.0 == 0 {
        return (Err(status_error(HrxStatusCode::Unavailable, "runtime is not initialized")), released);
    }
    let b = match bytecode {
        Err(e) => return (Err(unwrap_error(hrx_status_from_iree(Some(e)))), released),
        Ok(b) => b,
    };
    if group == 0 {
        released.push(b);
        return (
            Err(status_error(HrxStatusCode::FailedPrecondition, "device is missing its HAL device group")),
            released,
        );
    }
    let h = match hal_module {
        Err(e) => {
            released.push(b);
            return (Err(unwrap_error(hrx_status_from_iree(Some(e)))), released);
        },
        Ok(h) => h,
    };
    match context {
        Err(e) => {
            released.push(h);
            released.push(b);
            (Err(unwrap_error(hrx_status_from_iree(Some(e)))), released)
        },
        Ok(c) => (Ok(HrxModuleS { context: c, hal_module: h, bytecode_module: b, device: handle }), released),
    }
}

/// `hrx_module_lookup_function`: the function IREE resolved by name in the
/// module's context, holding a reference to the module `module_handle`.
pub fn hrx_module_lookup_function(
    module: Option<u64>,
    name_present: bool,
    resolved: Result<iree_vm_function_t, IreeError>,
) -> (r: Result<HrxFunctionS, HrxStatusS>)
    ensures
        (module is None || !name_present) ==> r is Err && is_error(
            r->Err_0,
            HrxStatusCode::InvalidArgument,
            "module, name, or function is NULL"@,
        ),
        module is Some && name_present ==> match resolved {
            Err(e) => r is Err && converts(Some(e), Some(r->Err_0)),
            Ok(f) => r is Ok && r->Ok_0.module == module->0 && r->Ok_0.vm_function.bytes == f.bytes,
        },
{
    let m = match module {
        None => return Err(status_error(HrxStatusCode::InvalidArgument, "module, name, or function is NULL")),
        Some(m) => m,
    };
    if !name_present {
        return Err(status_error(HrxStatusCode::InvalidArgument, "module, name, or function is NULL"));
    }
    match resolved {
        Err(e) => Err(unwrap_error(hrx_status_from_iree(Some(e)))),
        Ok(f) => Ok(HrxFunctionS { module: m, vm_function: f }),
    }
}

/// `hrx_function_invoke`: the function must belong to the module it is
/// invoked in; then the invocation's outcome is converted.
pub fn hrx_function_invoke(module: Option<u64>, function: Option<&HrxFunctionS>, invoked: IreeStatus) -> (r: HrxStatus)
    ensures
        (module is None || function is None) ==> r is Some && is_error(
            r->0,
            HrxStatusCode::InvalidArgument,
            "module or function is NULL"@,
        ),
        module is Some && function is Some && function->0.module != module->0 ==> r is Some && is_error(
            r->0,
            HrxStatusCode::InvalidArgument,
            "function does not belong to module"@,
        ),
        module is Some && function is Some && function->0.module == module->0 ==> converts(invoked, r),
{
    let m = match module {
        None => return Some(status_error(HrxStatusCode::InvalidArgument, "module or function is NULL")),
        Some(m) => m,
    };
    let f = match function {
        None => return Some(status_error(HrxStatusCode::InvalidArgument, "module or function is NULL")),
        Some(f) => f,
    };
    if f.module != m {
        return Some(status_error(HrxStatusCode::InvalidArgument, "function does not belong to module"));
    }
    hrx_status_from_iree(invoked)
}

} // verus!
