use hrx_rs::device::{
    cstr_array, hrx_device_get_property, HrxAllocatorInline, HrxDeviceS, PropertyValue, DEVICE_ARCH_BYTES,
    DEVICE_NAME_BYTES, HRX_ACCELERATOR_CPU, HRX_DEVICE_PROPERTY_ARCHITECTURE, HRX_DEVICE_PROPERTY_NAME,
};
use hrx_rs::handle::{
    hrx_allocator_release, hrx_allocator_retain, hrx_device_release, hrx_device_retain, hrx_fence_release,
    hrx_fence_retain, Handle,
};
use hrx_rs::iree::HalFence;
use hrx_rs::runtime::{
    cpu_device_parts, local_task_device_outcome, shared_creation_outcome, CpuDeviceParts, Globals, HrxHostAllocator,
    SharedHandles,
};
use hrx_rs::status::{HrxStatusS, IreeError};
use hrx_rs::sync::HrxFenceS;
use hrx_rs::tracer::{TracerConfig, TracerState};
use hrx_rs::value_list::{hrx_value_list_create, hrx_value_list_release, hrx_value_list_retain};

fn ierr(code: i32, msg: &str) -> IreeError {
    IreeError { code, formatted: Some(msg.to_string()) }
}

fn err_is(e: &HrxStatusS, code: i32, msg: &str) -> bool {
    e.code == code && e.message.as_deref() == Some(msg)
}

fn initialized() -> Globals {
    let mut g = Globals::new();
    let shared = SharedHandles { vm_instance: 0x10, proactor_pool: 0x11, host_allocator: HrxHostAllocator { self_: 0, ctl: 0x12 } };
    let parts = CpuDeviceParts { driver: 1, hal_device: 2, hal_device_group: 3, hal_allocator: 4, device_handle: 5 };
    assert!(g.hrx_cpu_initialize(Ok(shared), Ok(parts)).is_none());
    g
}

#[test]
fn cpu_device_name_property() {
    let g = initialized();
    let dev = g.hrx_cpu_device_get(0).unwrap();
    let small = hrx_device_get_property(Some(dev), HRX_DEVICE_PROPERTY_NAME, 18, Ok(0)).err().unwrap();
    assert!(err_is(&small, 11, "buffer too small for device name"));
    match hrx_device_get_property(Some(dev), HRX_DEVICE_PROPERTY_NAME, 19, Ok(0)) {
        Ok(PropertyValue::Text(t)) => assert_eq!(&t[..], b"CPU 0 (local-task)\0"),
        _ => panic!("name expected"),
    }
    match hrx_device_get_property(Some(dev), HRX_DEVICE_PROPERTY_ARCHITECTURE, 5, Ok(0)) {
        Ok(PropertyValue::Text(t)) => assert_eq!(&t[..], b"host\0"),
        _ => panic!("architecture expected"),
    }
}

#[test]
fn refused_initialize_keeps_devices() {
    let mut g = initialized();
    let before = g.hrx_cpu_device_get(0).unwrap().name.clone();
    let shared = SharedHandles { vm_instance: 0x20, proactor_pool: 0x21, host_allocator: HrxHostAllocator { self_: 0, ctl: 0x22 } };
    let parts = CpuDeviceParts { driver: 9, hal_device: 9, hal_device_group: 9, hal_allocator: 9, device_handle: 9 };
    let r = g.hrx_cpu_initialize(Ok(shared), Ok(parts));
    assert_eq!(r.unwrap().code, 6);
    assert_eq!(g.hrx_cpu_device_count().unwrap(), 1);
    assert_eq!(g.cpu.driver, 1);
    assert_eq!(g.hrx_cpu_device_get(0).unwrap().hal_device, 2);
    assert_eq!(g.hrx_cpu_device_get(0).unwrap().name, before);
    assert_eq!(g.shared.init_count, 1);
}

#[test]
fn local_task_device_releases_in_order() {
    let (r, rel) = local_task_device_outcome(Err(ierr(8, "executor")), Ok(vec![1, 2]), Ok(3), Ok(4), Ok(5));
    assert!(err_is(&r.unwrap_err(), 8, "executor"));
    assert!(rel.is_empty());

    let (r, rel) = local_task_device_outcome(Ok(0x10), Err(ierr(5, "loaders")), Ok(3), Ok(4), Ok(5));
    assert!(err_is(&r.unwrap_err(), 5, "loaders"));
    assert_eq!(rel, vec![0x10]);

    let (r, rel) = local_task_device_outcome(Ok(0x10), Ok(vec![1, 2]), Err(ierr(8, "heap")), Ok(4), Ok(5));
    assert!(err_is(&r.unwrap_err(), 8, "heap"));
    assert_eq!(rel, vec![1, 2, 0x10]);

    let (r, rel) = local_task_device_outcome(Ok(0x10), Ok(vec![1, 2]), Ok(3), Err(ierr(13, "driver")), Ok(5));
    assert!(err_is(&r.unwrap_err(), 13, "driver"));
    assert_eq!(rel, vec![0x10, 1, 2, 3]);

    let (r, rel) = local_task_device_outcome(Ok(0x10), Ok(vec![1, 2]), Ok(3), Ok(4), Err(ierr(5, "device")));
    assert!(err_is(&r.unwrap_err(), 5, "device"));
    assert_eq!(rel, vec![0x10, 1, 2, 3, 4]);

    let (r, rel) = local_task_device_outcome(Ok(0x10), Ok(vec![]), Ok(3), Ok(4), Ok(5));
    assert_eq!(r.unwrap(), (4, 5));
    assert_eq!(rel, vec![0x10, 3]);
}

#[test]
fn generic_handle_last_release_hands_back() {
    let mut h = Handle::new(42u64);
    assert_eq!(h.refs(), 1);
    h.retain();
    h.retain();
    assert_eq!(*h.get(), 42);
    assert_eq!(h.release(), None);
    assert_eq!(h.release(), None);
    assert_eq!(h.refs(), 1);
    assert_eq!(h.release(), Some(42));
    assert_eq!(h.refs(), 0);
}

#[test]
fn fence_handle_retain_release() {
    let mut f = Handle::new(HrxFenceS { hal: HalFence::from_owned(0x77).unwrap() });
    hrx_fence_retain(&mut f);
    assert_eq!(f.refs(), 2);
    assert!(hrx_fence_release(&mut f).is_none());
    let last = hrx_fence_release(&mut f).unwrap();
    assert_eq!(last.hal.as_ptr(), 0x77);
}

#[test]
fn value_list_usable_until_last_release() {
    let mut l = hrx_value_list_create(Ok(0x11)).unwrap();
    for _ in 0..3 {
        hrx_value_list_retain(&mut l);
    }
    for i in 0..3 {
        assert!(!hrx_value_list_release(&mut l));
        assert_eq!(l.vm_list, 0x11);
        assert_eq!(l.ref_count, 3 - i);
    }
    assert!(hrx_value_list_release(&mut l));
}

#[test]
fn launch_synchronizes_only_traced_with_sync() {
    let c = TracerConfig::from_env(None, Some("1"), Some("1"), None, None, None, None);
    let mut st = TracerState::new(c);
    st.register_function(0x100, Some(b"k"));
    let plan = st.launch_plan(0x100);
    assert!(plan.trace && plan.sync);
    let mut quiet = TracerState::new(TracerConfig::from_env(None, Some("0"), Some("1"), None, None, None, None));
    quiet.register_function(0x100, Some(b"k"));
    let plan = quiet.launch_plan(0x100);
    assert!(plan.trace && !plan.sync);
}

#[test]
fn device_and_allocator_share_references() {
    let dev = HrxDeviceS {
        type_: HRX_ACCELERATOR_CPU,
        ordinal: 0,
        allocator: HrxAllocatorInline { hal_allocator: 0x500, device: 0x600 },
        hal_device_group: 0x700,
        hal_device: 0x800,
        name: cstr_array(b"d", DEVICE_NAME_BYTES),
        architecture: cstr_array(b"a", DEVICE_ARCH_BYTES),
    };
    let mut h = Handle::new(dev);
    assert_eq!(hrx_allocator_retain(&mut h), 0x500);
    assert_eq!(h.refs(), 2);
    hrx_device_retain(&mut h);
    assert_eq!(h.refs(), 3);
    assert!(hrx_device_release(&mut h).is_none());
    let (a, last) = hrx_allocator_release(&mut h);
    assert_eq!(a, 0x500);
    assert!(last.is_none());
    let last = hrx_device_release(&mut h).unwrap();
    assert_eq!(last.hal_device, 0x800);
    assert_eq!(h.refs(), 0);
}

#[test]
fn shared_creation_releases_instance_after_later_failure() {
    let ha = HrxHostAllocator { self_: 0, ctl: 0x12 };
    let (r, rel) = shared_creation_outcome(Err(ierr(8, "instance")), None, Ok(2), ha);
    assert!(err_is(&r.unwrap_err(), 8, "instance"));
    assert!(rel.is_none());
    let (r, rel) = shared_creation_outcome(Ok(1), Some(ierr(13, "types")), Ok(2), ha);
    assert!(err_is(&r.unwrap_err(), 13, "types"));
    assert_eq!(rel, Some(1));
    let (r, rel) = shared_creation_outcome(Ok(1), None, Err(ierr(8, "pool")), ha);
    assert!(err_is(&r.unwrap_err(), 8, "pool"));
    assert_eq!(rel, Some(1));
    let (r, rel) = shared_creation_outcome(Ok(1), None, Ok(2), ha);
    assert_eq!(r.unwrap(), SharedHandles { vm_instance: 1, proactor_pool: 2, host_allocator: ha });
    assert!(rel.is_none());
}

#[test]
fn cpu_device_group_failure_releases_device_then_driver() {
    let (r, rel) = cpu_device_parts(Err(HrxStatusS { code: 13, message: Some("task".to_string()) }), Ok(3), 4, 5);
    assert!(err_is(&r.unwrap_err(), 13, "task"));
    assert!(rel.is_empty());
    let (r, rel) = cpu_device_parts(Ok((1, 2)), Err(ierr(8, "group")), 4, 5);
    assert!(err_is(&r.unwrap_err(), 8, "group"));
    assert_eq!(rel, vec![2, 1]);
    let (r, rel) = cpu_device_parts(Ok((1, 2)), Ok(3), 4, 5);
    assert_eq!(
        r.unwrap(),
        CpuDeviceParts { driver: 1, hal_device: 2, hal_device_group: 3, hal_allocator: 4, device_handle: 5 }
    );
    assert!(rel.is_empty());
}

#[test]
fn shutdown_then_reinitialize() {
    let mut g = initialized();
    let t = g.hrx_cpu_shutdown().unwrap();
    assert_eq!(t.devices.len(), 1);
    assert!(err_is(&g.hrx_cpu_device_count().unwrap_err(), 14, "CPU accelerator not initialized"));
    assert!(err_is(&g.hrx_cpu_device_get(0).err().unwrap(), 14, "CPU accelerator not initialized"));
    assert!(err_is(&g.hrx_cpu_shutdown().err().unwrap(), 3, "CPU accelerator not initialized"));
    assert_eq!(g.shared.init_count, 0);
    let shared = SharedHandles { vm_instance: 0x30, proactor_pool: 0x31, host_allocator: HrxHostAllocator { self_: 0, ctl: 0 } };
    let parts = CpuDeviceParts { driver: 6, hal_device: 7, hal_device_group: 8, hal_allocator: 9, device_handle: 10 };
    assert!(g.hrx_cpu_initialize(Ok(shared), Ok(parts)).is_none());
    assert_eq!(g.hrx_cpu_device_count().unwrap(), 1);
}
