use hrx_rs::device::{
    cstr_array, cstr_len, hrx_device_allocator, hrx_device_get_property, hrx_device_get_type,
    hrx_device_synchronize, HrxAllocatorInline, HrxDeviceS, PropertyValue, DEVICE_ARCH_BYTES, DEVICE_NAME_BYTES,
    HRX_ACCELERATOR_CPU, HRX_DEVICE_PROPERTY_ARCHITECTURE, HRX_DEVICE_PROPERTY_COMPUTE_UNITS,
    HRX_DEVICE_PROPERTY_MAX_WORKGROUP_SIZE, HRX_DEVICE_PROPERTY_NAME, HRX_DEVICE_PROPERTY_TOTAL_MEMORY,
};
use hrx_rs::iree::{
    iree_async_frontier_tracker_options_t, iree_hal_buffer_mapping_t, iree_hal_executable_function_info_t,
    iree_hal_executable_params_t, iree_hal_semaphore_list_t, iree_string_view_t, iree_timeout_t,
    iree_vm_function_t, HalFence, IREE_TIMEOUT_ABSOLUTE, IREE_TIMEOUT_RELATIVE, IREE_TIME_INFINITE_FUTURE,
    IREE_TIME_INFINITE_PAST,
};
use hrx_rs::pool::{
    exact_pool_precondition, params_match, pool_acquire_reservation, pool_materialize_reservation,
    pool_query_capabilities, pool_release_reservation, PoolReservation, IREE_HAL_POOL_ACQUIRE_OK_FRESH,
    IREE_STATUS_FAILED_PRECONDITION, IREE_STATUS_INVALID_ARGUMENT, MATERIALIZE_TRANSFER_OWNERSHIP,
};
use hrx_rs::runtime::{hrx_runtime_version, CpuDeviceParts, Globals, HrxHostAllocator, SharedHandles, SharedState};
use hrx_rs::status::{hrx_status_code, HrxStatus, HrxStatusS, IreeError};

fn ierr(code: i32, msg: &str) -> IreeError {
    IreeError { code, formatted: Some(msg.to_string()) }
}

fn is_err(s: &HrxStatus, code: i32, msg: &str) -> bool {
    match s {
        Some(e) => e.code == code && e.message.as_deref() == Some(msg),
        None => false,
    }
}

fn err_is(e: &HrxStatusS, code: i32, msg: &str) -> bool {
    e.code == code && e.message.as_deref() == Some(msg)
}

fn device(name: &[u8], arch: &[u8]) -> HrxDeviceS {
    HrxDeviceS {
        type_: HRX_ACCELERATOR_CPU,
        ordinal: 0,
        allocator: HrxAllocatorInline { hal_allocator: 0x500, device: 0x600 },
        hal_device_group: 0x700,
        hal_device: 0x800,
        name: cstr_array(name, DEVICE_NAME_BYTES),
        architecture: cstr_array(arch, DEVICE_ARCH_BYTES),
    }
}

#[test]
fn runtime_version_is_0_1_0() {
    assert_eq!(hrx_runtime_version(), (0, 1, 0));
}

#[test]
fn cstr_fields() {
    let f = cstr_array(b"abc", 8);
    assert_eq!(f, vec![b'a', b'b', b'c', 0, 0, 0, 0, 0]);
    assert_eq!(cstr_len(&f), 3);
    let f = cstr_array(b"abcdef", 4);
    assert_eq!(f, vec![b'a', b'b', b'c', 0]);
    assert_eq!(cstr_len(b"xyz"), 3);
    assert_eq!(cstr_len(b""), 0);
}

#[test]
fn device_properties() {
    let d = device(b"CPU 0 (local-task)", b"host");
    match hrx_device_get_property(Some(&d), HRX_DEVICE_PROPERTY_NAME, 128, Ok(0)).unwrap() {
        PropertyValue::Text(t) => assert_eq!(t, b"CPU 0 (local-task)\0".to_vec()),
        _ => panic!("name is text"),
    }
    let e = hrx_device_get_property(Some(&d), HRX_DEVICE_PROPERTY_NAME, 18, Ok(0)).unwrap_err();
    assert!(err_is(&e, 11, "buffer too small for device name"));
    match hrx_device_get_property(Some(&d), HRX_DEVICE_PROPERTY_ARCHITECTURE, 5, Ok(0)).unwrap() {
        PropertyValue::Text(t) => assert_eq!(t, b"host\0".to_vec()),
        _ => panic!("architecture is text"),
    }
    let e = hrx_device_get_property(Some(&d), HRX_DEVICE_PROPERTY_ARCHITECTURE, 4, Ok(0)).unwrap_err();
    assert!(err_is(&e, 11, "buffer too small for architecture string"));
    match hrx_device_get_property(Some(&d), HRX_DEVICE_PROPERTY_TOTAL_MEMORY, 8, Ok(1 << 30)).unwrap() {
        PropertyValue::U64(m) => assert_eq!(m, 1 << 30),
        _ => panic!("memory is u64"),
    }
    match hrx_device_get_property(Some(&d), HRX_DEVICE_PROPERTY_TOTAL_MEMORY, 8, Err(ierr(12, "no"))).unwrap() {
        PropertyValue::U64(m) => assert_eq!(m, 0),
        _ => panic!("memory is u64"),
    }
    let e = hrx_device_get_property(Some(&d), HRX_DEVICE_PROPERTY_TOTAL_MEMORY, 7, Ok(1)).unwrap_err();
    assert!(err_is(&e, 11, "buffer too small for uint64_t"));
    for prop in [HRX_DEVICE_PROPERTY_COMPUTE_UNITS, HRX_DEVICE_PROPERTY_MAX_WORKGROUP_SIZE] {
        match hrx_device_get_property(Some(&d), prop, 4, Ok(0)).unwrap() {
            PropertyValue::U32(v) => assert_eq!(v, 0),
            _ => panic!("u32 property"),
        }
        let e = hrx_device_get_property(Some(&d), prop, 3, Ok(0)).unwrap_err();
        assert!(err_is(&e, 11, "buffer too small for uint32_t"));
    }
    let e = hrx_device_get_property(Some(&d), 5, 64, Ok(0)).unwrap_err();
    assert!(err_is(&e, 3, "unknown device property"));
    let e = hrx_device_get_property(None, 0, 64, Ok(0)).unwrap_err();
    assert!(err_is(&e, 3, "device or value is NULL"));
}

#[test]
fn device_type_sync_allocator() {
    let d = device(b"d", b"a");
    assert_eq!(hrx_device_get_type(Some(&d)).unwrap(), HRX_ACCELERATOR_CPU);
    assert!(is_err(&hrx_device_get_type(None).err(), 3, "device or type is NULL"));
    assert!(hrx_device_synchronize(Some(&d), None).is_none());
    assert_eq!(hrx_status_code(&hrx_device_synchronize(Some(&d), Some(ierr(4, "late")))), 4);
    assert!(is_err(&hrx_device_synchronize(None, None), 3, "device is NULL"));
    assert_eq!(*hrx_device_allocator(&d), HrxAllocatorInline { hal_allocator: 0x500, device: 0x600 });
}

fn handles(v: u64) -> SharedHandles {
    SharedHandles { vm_instance: v, proactor_pool: v + 1, host_allocator: HrxHostAllocator { self_: 0, ctl: v + 2 } }
}

#[test]
fn shared_state_counts_users() {
    let mut s = SharedState::new();
    assert!(s.ensure(Ok(handles(10))).is_none());
    assert_eq!(s.shared_vm_instance(), (10, true));
    assert_eq!(s.init_count, 1);
    assert!(s.ensure(Ok(handles(99))).is_none());
    assert_eq!(s.init_count, 2);
    assert_eq!(s.vm_instance, 10);
    assert_eq!(s.release(), None);
    assert_eq!(s.release(), Some((11, 10)));
    assert_eq!(s.shared_vm_instance(), (0, false));
    assert_eq!(s.release(), None);
}

#[test]
fn shared_state_creation_failure() {
    let mut s = SharedState::new();
    let e = HrxStatusS { code: 8, message: Some("oom".to_string()) };
    let r = s.ensure(Err(e));
    assert!(is_err(&r, 8, "oom"));
    assert!(!s.initialized);
    assert_eq!(s.init_count, 0);
}

#[test]
fn ensure_then_release_restores() {
    let mut s = SharedState::new();
    s.ensure(Ok(handles(1)));
    let before = s;
    s.ensure(Ok(handles(5)));
    assert_eq!(s.release(), None);
    assert_eq!(s, before);
}

fn parts() -> CpuDeviceParts {
    CpuDeviceParts { driver: 1, hal_device: 2, hal_device_group: 3, hal_allocator: 4, device_handle: 5 }
}

#[test]
fn cpu_lifecycle() {
    let mut g = Globals::new();
    assert!(err_is(&g.hrx_cpu_device_count().unwrap_err(), 14, "CPU accelerator not initialized"));
    assert!(err_is(&g.hrx_cpu_device_get(0).err().unwrap(), 14, "CPU accelerator not initialized"));
    assert!(g.hrx_cpu_initialize(Ok(handles(10)), Ok(parts())).is_none());
    assert_eq!(g.hrx_cpu_device_count().unwrap(), 1);
    let d = g.hrx_cpu_device_get(0).unwrap();
    assert_eq!(d.type_, HRX_ACCELERATOR_CPU);
    assert_eq!(d.ordinal, 0);
    assert_eq!(d.hal_device, 2);
    assert_eq!(d.hal_device_group, 3);
    assert_eq!(d.allocator, HrxAllocatorInline { hal_allocator: 4, device: 5 });
    assert_eq!(&d.name[..19], b"CPU 0 (local-task)\0");
    assert_eq!(d.name.len(), DEVICE_NAME_BYTES);
    assert_eq!(&d.architecture[..5], b"host\0");
    assert!(err_is(&g.hrx_cpu_device_get(1).err().unwrap(), 11, "CPU device index out of range"));
    assert!(err_is(&g.hrx_cpu_device_get(-1).err().unwrap(), 11, "CPU device index out of range"));
    let again = g.hrx_cpu_initialize(Ok(handles(20)), Ok(parts()));
    assert!(is_err(&again, 6, "CPU accelerator already initialized"));
    let t = g.hrx_cpu_shutdown().unwrap();
    assert_eq!(t.devices.len(), 1);
    assert_eq!(t.driver, 1);
    assert_eq!(t.shared, Some((11, 10)));
    assert!(!g.shared.initialized);
    assert!(err_is(&g.hrx_cpu_shutdown().err().unwrap(), 3, "CPU accelerator not initialized"));
}

#[test]
fn cpu_initialize_failures_leave_nothing() {
    let mut g = Globals::new();
    let e = HrxStatusS { code: 13, message: Some("no driver".to_string()) };
    let r = g.hrx_cpu_initialize(Ok(handles(10)), Err(e));
    assert!(is_err(&r, 13, "no driver"));
    assert!(!g.cpu.initialized);
    assert!(!g.shared.initialized);
    assert_eq!(g.shared.init_count, 0);
    let e = HrxStatusS { code: 8, message: Some("shared".to_string()) };
    let r = g.hrx_cpu_initialize(Err(e), Ok(parts()));
    assert!(is_err(&r, 8, "shared"));
    assert!(!g.cpu.initialized);
}

#[test]
fn iree_value_constructors() {
    let f = iree_vm_function_t::zeroed();
    assert_eq!(f.bytes, [0u8; 16]);
    let p = iree_hal_executable_params_t::zeroed();
    assert_eq!(p.bytes, [0u8; 64]);
    let v = iree_string_view_t::cstr("dispatch_0");
    assert_eq!(v.data, b"dispatch_0".to_vec());
    assert_eq!(v.size, 10);
    let e = iree_string_view_t::empty();
    assert_eq!(e.size, 0);
    let i = iree_hal_executable_function_info_t::zeroed();
    assert_eq!(i.name.size, 0);
    assert_eq!(i.workgroup_size, [0, 0, 0]);
    let m = iree_hal_buffer_mapping_t::zeroed();
    assert_eq!(m.contents.data, 0);
    assert_eq!(m.contents.data_length, 0);
    let t = iree_timeout_t::infinite();
    assert_eq!((t.type_, t.nanos), (IREE_TIMEOUT_ABSOLUTE, IREE_TIME_INFINITE_FUTURE));
    let t = iree_timeout_t::immediate();
    assert_eq!((t.type_, t.nanos), (IREE_TIMEOUT_ABSOLUTE, IREE_TIME_INFINITE_PAST));
    let t = iree_timeout_t::relative_ns(1500);
    assert_eq!((t.type_, t.nanos), (IREE_TIMEOUT_RELATIVE, 1500));
    let l = iree_hal_semaphore_list_t::default();
    assert_eq!(l.count, 0);
    assert!(l.semaphores.is_empty());
    let o = iree_async_frontier_tracker_options_t::default_opts();
    assert_eq!((o.axis_table_capacity, o.session_epoch, o.machine_index), (256, 1, 0));
}

#[test]
fn hal_fence_handles() {
    assert!(HalFence::from_owned(0).is_none());
    let f = HalFence::from_owned(0x1234).unwrap();
    assert_eq!(f.as_ptr(), 0x1234);
}

fn params(t: u32) -> hrx_rs::iree::iree_hal_buffer_params_t {
    hrx_rs::iree::iree_hal_buffer_params_t { usage: 0xc03, access: 7, type_: t, queue_affinity: 0, min_alignment: 0 }
}

#[test]
fn pool_reservations() {
    assert_eq!(pool_acquire_reservation(0, Ok((1, 1))), Err(IREE_STATUS_INVALID_ARGUMENT));
    assert_eq!(pool_acquire_reservation(64, Err(8)), Err(8));
    let (res, how) = pool_acquire_reservation(64, Ok((0xb0, 64))).unwrap();
    assert_eq!(res, PoolReservation { offset: 0, length: 64, block_handle: 0xb0, slab_index: 0 });
    assert_eq!(how, IREE_HAL_POOL_ACQUIRE_OK_FRESH);
    assert_eq!(pool_release_reservation(&res), Some(0xb0));
    let empty = PoolReservation { offset: 0, length: 0, block_handle: 0, slab_index: 0 };
    assert_eq!(pool_release_reservation(&empty), None);
    let p = params(0x30);
    assert_eq!(pool_materialize_reservation(&p, &p, &res, 0), Ok((0xb0, true)));
    assert_eq!(pool_materialize_reservation(&p, &p, &res, MATERIALIZE_TRANSFER_OWNERSHIP), Ok((0xb0, false)));
    assert_eq!(pool_materialize_reservation(&p, &params(0x31), &res, 0), Err(IREE_STATUS_INVALID_ARGUMENT));
    assert_eq!(pool_materialize_reservation(&p, &p, &empty, 0), Err(IREE_STATUS_INVALID_ARGUMENT));
}

#[test]
fn pool_params_and_capabilities() {
    assert!(params_match(&params(1), &params(1)));
    assert!(!params_match(&params(1), &params(2)));
    let mut q = params(1);
    q.min_alignment = 64;
    assert!(!params_match(&params(1), &q));
    let c = pool_query_capabilities(&params(0x30));
    assert_eq!((c.memory_type, c.supported_usage, c.min_allocation_size, c.max_allocation_size), (0x30, 0xc03, 0, 0));
    assert_eq!(exact_pool_precondition(0), Err(IREE_STATUS_FAILED_PRECONDITION));
    assert_eq!(exact_pool_precondition(7), Ok(()));
}
