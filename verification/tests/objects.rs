use hrx_rs::buffer::{
    default_params_for, hal_params, hrx_allocator_allocate_buffer, hrx_allocator_import_buffer,
    hrx_allocator_physical_memory_allocate, hrx_allocator_physical_memory_free,
    hrx_allocator_query_virtual_memory, hrx_allocator_virtual_memory_map, hrx_allocator_virtual_memory_protect,
    hrx_allocator_virtual_memory_release, hrx_allocator_virtual_memory_reserve, hrx_allocator_virtual_memory_unmap,
    hrx_buffer_get_device_ptr, hrx_buffer_get_size, hrx_buffer_map, hrx_buffer_release, hrx_buffer_retain,
    hrx_buffer_unmap, hrx_synchronous_d2h, hrx_synchronous_h2d, map_access, new_buffer_pub, HrxBufferParams,
    HrxBufferS, VirtualMemorySupport, HRX_MAP_DISCARD, HRX_MAP_READ, HRX_MAP_WRITE, HRX_MEMORY_TYPE_DEVICE_LOCAL,
    IREE_HAL_BUFFER_USAGE_DEFAULT,
};
use hrx_rs::buffer_view::{hrx_buffer_view_create, hrx_buffer_view_dim, hrx_buffer_view_rank};
use hrx_rs::device::HrxAllocatorInline;
use hrx_rs::executable::{
    executable_format_given, hrx_executable_export_count, hrx_executable_export_info, hrx_executable_load_data,
    hrx_executable_lookup_export_by_name, hrx_function_invoke, hrx_module_load_vmfb, hrx_module_lookup_function,
    load_file_error, load_file_read, load_file_size, HrxExecutableS, LoadFileFailure,
};
use hrx_rs::iree::{
    iree_byte_span_t, iree_hal_buffer_params_t, iree_hal_executable_function_info_t, iree_string_view_t, iree_vm_function_t,
    IREE_HAL_MEMORY_ACCESS_ALL, IREE_HAL_QUEUE_AFFINITY_ANY,
};
use hrx_rs::queue::{
    build_hal_bindings, hrx_queue_barrier, hrx_queue_complete, hrx_queue_copy, hrx_queue_dispatch, hrx_queue_fill,
    host_call_submitted, hrx_queue_host_call, normalize_affinity, one_shot_outcome, to_iree_sem_list, HrxBufferRef, HrxDispatchConfig, HrxSemaphoreList,
    IreeBufferRef, HRX_MAX_QUEUE_SEMAPHORES,
};
use hrx_rs::status::{hrx_status_code, HrxStatus, HrxStatusS, IreeError};
use hrx_rs::stream::{
    allocate_query_params, hrx_buffer_allocate, hrx_stream_copy_buffer, hrx_stream_create, hrx_stream_dispatch,
    hrx_stream_advance_timeline, hrx_stream_execution_barrier, hrx_stream_fill_buffer, hrx_stream_get_timeline_position, hrx_stream_flush, hrx_stream_get_device,
    hrx_stream_get_semaphore, hrx_stream_query, hrx_stream_synchronize, hrx_stream_update_buffer, hrx_stream_wait,
    hrx_stream_wait_on, wait_on_barrier, HrxStreamS, HrxTimelinePoint, StreamCommand,
};
use hrx_rs::sync::{
    hrx_fence_create, hrx_fence_create_at, hrx_fence_extend, hrx_fence_insert, hrx_fence_signal, hrx_fence_wait,
    hrx_semaphore_create, hrx_semaphore_query, hrx_semaphore_signal, hrx_semaphore_wait, wait_timeout,
    HrxSemaphoreS,
};
use hrx_rs::value_list::{
    hrx_value_list_create, hrx_value_list_get_i64, hrx_value_list_push_buffer, hrx_value_list_push_buffer_view,
    hrx_value_list_push_fence, hrx_value_list_push_i64, hrx_value_list_push_null_ref, hrx_value_list_release,
    hrx_value_list_retain, hrx_value_list_size, take8, HrxValueListS,
};

fn ierr(code: i32, msg: &str) -> IreeError {
    IreeError { code, formatted: Some(msg.to_string()) }
}

fn is_err(s: &HrxStatus, code: i32, msg: &str) -> bool {
    match s {
        Some(e) => e.code == code && e.message.as_deref() == Some(msg),
        None => false,
    }
}

fn err_is(e: &HrxStatusS, code: i32, msg: &str) -> bool {
    e.code == code && e.message.as_deref() == Some(msg)
}

fn allocator() -> HrxAllocatorInline {
    HrxAllocatorInline { hal_allocator: 0xa110c, device: 0xde5 }
}

fn buffer(size: usize) -> HrxBufferS {
    new_buffer_pub(0xb0f, 0, 0xde5, 0x30, size)
}

#[test]
fn buffer_params() {
    let p = HrxBufferParams { type_: 0x30, access: 3, usage: 0x10, queue_affinity: 2 };
    let h = hal_params(p);
    assert_eq!((h.type_, h.access, h.usage, h.queue_affinity, h.min_alignment), (0x30, 3, 0x10, 2, 0));
    let d = default_params_for(0x6);
    assert_eq!((d.type_, d.access, d.usage, d.queue_affinity), (0x6, IREE_HAL_MEMORY_ACCESS_ALL, IREE_HAL_BUFFER_USAGE_DEFAULT, 0));
    let q = allocate_query_params(0x30, 0x3);
    assert_eq!((q.type_, q.usage, q.access), (0x30, 0x3, IREE_HAL_MEMORY_ACCESS_ALL));
}

#[test]
fn allocate_and_import() {
    let p = HrxBufferParams { type_: 0x30, access: 3, usage: 0x10, queue_affinity: 0 };
    let b = hrx_allocator_allocate_buffer(Some(&allocator()), p, 256, Ok(0xb1)).unwrap();
    assert_eq!((b.ref_count, b.hal_buffer, b.device, b.mem_type, b.size, b.is_mapped), (1, 0xb1, 0xde5, 0x30, 256, false));
    let e = hrx_allocator_allocate_buffer(Some(&allocator()), p, 256, Err(ierr(8, "oom"))).unwrap_err();
    assert!(err_is(&e, 8, "oom"));
    let e = hrx_allocator_allocate_buffer(None, p, 256, Ok(1)).unwrap_err();
    assert!(err_is(&e, 3, "allocator or buffer is NULL"));
    let b = hrx_allocator_import_buffer(Some(&allocator()), p, 0x7000, 64, Ok(0xb2)).unwrap();
    assert_eq!((b.hal_buffer, b.size), (0xb2, 64));
    let e = hrx_allocator_import_buffer(Some(&allocator()), p, 0, 64, Ok(0xb2)).unwrap_err();
    assert!(err_is(&e, 3, "allocator, host_ptr, or buffer is NULL"));
}

#[test]
fn buffer_retain_release() {
    let mut b = buffer(16);
    hrx_buffer_retain(&mut b);
    assert_eq!(b.ref_count, 2);
    let r = hrx_buffer_release(&mut b);
    assert!(!r.freed && !r.unmap_first);
    assert_eq!(b, buffer(16));
    assert_eq!(hrx_buffer_get_size(Some(&b)).unwrap(), 16);
    assert!(err_is(&hrx_buffer_get_size(None).unwrap_err(), 3, "buffer or size is NULL"));
}

#[test]
fn last_release_of_mapped_buffer_unmaps() {
    let mut b = buffer(16);
    let span = iree_byte_span_t { data: 0x9000, data_length: 16 };
    assert_eq!(hrx_buffer_map(Some(&mut b), HRX_MAP_READ, 0, 16, Ok(span)).unwrap(), 0x9000);
    let r = hrx_buffer_release(&mut b);
    assert!(r.freed && r.unmap_first);
    assert!(!b.is_mapped);
    assert_eq!(b.ref_count, 0);
}

#[test]
fn map_flags() {
    assert_eq!(map_access(0), 0);
    assert_eq!(map_access(HRX_MAP_READ), 1);
    assert_eq!(map_access(HRX_MAP_WRITE), 2);
    assert_eq!(map_access(HRX_MAP_READ | HRX_MAP_WRITE), 3);
    assert_eq!(map_access(HRX_MAP_DISCARD), 6);
    assert_eq!(map_access(7), 7);
}

#[test]
fn map_unmap_roundtrip() {
    let mut b = buffer(32);
    let original = b;
    let span = iree_byte_span_t { data: 0x4000, data_length: 32 };
    assert_eq!(hrx_buffer_map(Some(&mut b), HRX_MAP_WRITE, 0, 32, Ok(span)).unwrap(), 0x4000);
    assert!(b.is_mapped);
    assert_eq!(b.mapped_ptr, 0x4000);
    let again = hrx_buffer_map(Some(&mut b), HRX_MAP_READ, 0, 32, Ok(span)).unwrap_err();
    assert!(err_is(&again, 9, "buffer is already mapped"));
    assert_eq!(hrx_buffer_get_device_ptr(Some(&mut b), Err(ierr(12, "x"))).unwrap(), 0x4000);
    assert!(hrx_buffer_unmap(Some(&mut b), None).is_none());
    assert!(!b.is_mapped);
    assert_eq!(b.mapped_ptr, 0);
    assert_eq!(b.ref_count, original.ref_count);
    assert_eq!(b.mapping.contents, span);
    assert!(hrx_buffer_unmap(Some(&mut b), Some(ierr(13, "ignored"))).is_none());
    assert!(is_err(&hrx_buffer_unmap(None, None), 3, "buffer is NULL"));
}

#[test]
fn map_failures() {
    let mut b = buffer(8);
    let e = hrx_buffer_map(Some(&mut b), HRX_MAP_READ, 0, 8, Err(ierr(11, "range"))).unwrap_err();
    assert!(err_is(&e, 11, "range"));
    assert!(!b.is_mapped);
    assert!(err_is(&hrx_buffer_map(None, 0, 0, 0, Err(ierr(1, "x"))).unwrap_err(), 3, "buffer or mapped_ptr is NULL"));
    let mut m = buffer(8);
    hrx_buffer_map(Some(&mut m), HRX_MAP_READ, 0, 8, Ok(iree_byte_span_t { data: 0x10, data_length: 8 })).unwrap();
    assert_eq!(hrx_status_code(&hrx_buffer_unmap(Some(&mut m), Some(ierr(13, "unmap failed")))), 13);
    assert!(!m.is_mapped);
}

#[test]
fn device_pointer() {
    let mut b = buffer(8);
    let e = hrx_buffer_get_device_ptr(Some(&mut b), Err(ierr(12, "host only"))).unwrap_err();
    assert!(err_is(&e, 14, "cannot get device pointer for this buffer type"));
    let span = iree_byte_span_t { data: 0xd000, data_length: 8 };
    assert_eq!(hrx_buffer_get_device_ptr(Some(&mut b), Ok(span)).unwrap(), 0xd000);
    assert!(b.is_mapped);
    assert!(err_is(&hrx_buffer_get_device_ptr(None, Ok(span)).unwrap_err(), 3, "buffer or device_ptr is NULL"));
}

#[test]
fn synchronous_transfers() {
    let b = buffer(100);
    assert!(hrx_synchronous_h2d(true, 0x10, Some(&b), 90, 10, None).is_none());
    assert!(is_err(&hrx_synchronous_h2d(true, 0x10, Some(&b), 91, 10, None), 11, "transfer exceeds buffer size"));
    let huge = hrx_synchronous_h2d(true, 0x10, Some(&b), usize::MAX, 2, None);
    assert!(is_err(&huge, 11, "transfer exceeds buffer size"));
    let huge = hrx_synchronous_d2h(true, Some(&b), 2, 0x10, usize::MAX, None);
    assert!(is_err(&huge, 11, "transfer exceeds buffer size"));
    assert!(is_err(&hrx_synchronous_h2d(true, 0, Some(&b), 0, 1, None), 3, "NULL argument"));
    assert!(is_err(&hrx_synchronous_h2d(false, 0x10, Some(&b), 0, 1, None), 3, "NULL argument"));
    assert!(is_err(&hrx_synchronous_h2d(true, 0x10, None, 0, 1, None), 3, "NULL argument"));
    assert_eq!(hrx_status_code(&hrx_synchronous_h2d(true, 0x10, Some(&b), 0, 1, Some(ierr(4, "slow")))), 4);
    assert!(hrx_synchronous_d2h(true, Some(&b), 0, 0x10, 100, None).is_none());
    assert!(is_err(&hrx_synchronous_d2h(true, Some(&b), 1, 0x10, 100, None), 11, "transfer exceeds buffer size"));
    assert!(is_err(&hrx_synchronous_d2h(true, Some(&b), 0, 0, 1, None), 3, "NULL argument"));
}

#[test]
fn virtual_memory() {
    let a = allocator();
    let e = hrx_allocator_query_virtual_memory(None, 0x30, true, Ok((1, 2))).unwrap_err();
    assert!(err_is(&e, 3, "allocator or supported is NULL"));
    let none = VirtualMemorySupport { supported: false, min_page_size: 0, recommended_page_size: 0 };
    assert_eq!(hrx_allocator_query_virtual_memory(Some(&a), 0x30, false, Ok((1, 2))).unwrap(), none);
    assert_eq!(hrx_allocator_query_virtual_memory(Some(&a), 0x30, true, Err(ierr(12, "x"))).unwrap(), none);
    assert_eq!(
        hrx_allocator_query_virtual_memory(Some(&a), 0x30, true, Ok((4096, 65536))).unwrap(),
        VirtualMemorySupport { supported: true, min_page_size: 4096, recommended_page_size: 65536 }
    );
    let v = hrx_allocator_virtual_memory_reserve(Some(&a), 0, 1 << 20, Ok(0xcafe)).unwrap();
    assert_eq!((v.hal_buffer, v.device, v.mem_type, v.size, v.ref_count), (0xcafe, 0xde5, HRX_MEMORY_TYPE_DEVICE_LOCAL, 1 << 20, 1));
    assert!(err_is(&hrx_allocator_virtual_memory_reserve(None, 0, 1, Ok(1)).unwrap_err(), 3, "NULL argument"));
    let e = hrx_allocator_virtual_memory_reserve(Some(&a), 0, 1, Err(ierr(8, "no va"))).unwrap_err();
    assert!(err_is(&e, 8, "no va"));
    assert_eq!(hrx_allocator_physical_memory_allocate(Some(&a), 0x30, 4096, Ok(0x9a)).unwrap(), 0x9a);
    assert!(err_is(&hrx_allocator_physical_memory_allocate(None, 0x30, 4096, Ok(1)).unwrap_err(), 3, "NULL argument"));
    assert!(hrx_allocator_virtual_memory_map(Some(&a), Some(&v), 0, Some(0x9a), 0, 4096, None).is_none());
    assert!(is_err(&hrx_allocator_virtual_memory_map(Some(&a), Some(&v), 0, None, 0, 4096, None), 3, "NULL argument"));
    assert!(hrx_allocator_virtual_memory_protect(Some(&a), Some(&v), 0, 4096, 3, None).is_none());
    assert!(is_err(&hrx_allocator_virtual_memory_protect(Some(&a), None, 0, 4096, 3, None), 3, "NULL argument"));
    assert_eq!(hrx_status_code(&hrx_allocator_virtual_memory_unmap(Some(&a), Some(&v), 0, 4096, Some(ierr(11, "r")))), 11);
    assert!(is_err(&hrx_allocator_virtual_memory_unmap(None, Some(&v), 0, 4096, None), 3, "NULL argument"));
    assert!(hrx_allocator_physical_memory_free(Some(&a), Some(0x9a), None).is_none());
    assert!(is_err(&hrx_allocator_physical_memory_free(Some(&a), None, None), 3, "NULL argument"));
    assert!(hrx_allocator_virtual_memory_release(Some(&a), Some(v), None).is_none());
    assert!(is_err(&hrx_allocator_virtual_memory_release(Some(&a), None, None), 3, "NULL argument"));
}

fn sem() -> HrxSemaphoreS {
    HrxSemaphoreS { hal: 0x5e, device: 0xde5 }
}

fn stream() -> HrxStreamS {
    hrx_stream_create(Some(0xde5), 0, Ok(sem())).unwrap()
}

#[test]
fn semaphores_and_fences() {
    assert_eq!(hrx_semaphore_create(Some(0xde5), Ok(0x5e)).unwrap(), sem());
    assert!(err_is(&hrx_semaphore_create(None, Ok(1)).unwrap_err(), 3, "device or semaphore is NULL"));
    assert!(err_is(&hrx_semaphore_create(Some(1), Err(ierr(8, "no"))).unwrap_err(), 8, "no"));
    assert_eq!(hrx_semaphore_query(Some(&sem()), Ok(41)).unwrap(), 41);
    assert!(err_is(&hrx_semaphore_query(None, Ok(1)).unwrap_err(), 3, "semaphore or value is NULL"));
    assert!(hrx_semaphore_wait(Some(&sem()), 5, 0, None).is_none());
    assert_eq!(hrx_status_code(&hrx_semaphore_wait(Some(&sem()), 5, 10, Some(ierr(4, "timeout")))), 4);
    assert!(is_err(&hrx_semaphore_wait(None, 5, 0, None), 3, "semaphore is NULL"));
    assert!(hrx_semaphore_signal(Some(&sem()), 6, None).is_none());
    assert!(is_err(&hrx_semaphore_signal(None, 6, None), 3, "semaphore is NULL"));
    let w = wait_timeout(u64::MAX);
    assert_eq!((w.type_, w.nanos), (0, i64::MAX));
    let w = wait_timeout(0);
    assert_eq!((w.type_, w.nanos), (0, i64::MIN));
    let w = wait_timeout(250);
    assert_eq!((w.type_, w.nanos), (1, 250));
    let f = hrx_fence_create(Ok(0xfe)).unwrap();
    assert_eq!(f.hal.as_ptr(), 0xfe);
    assert!(err_is(&hrx_fence_create(Err(ierr(8, "x"))).err().unwrap(), 8, "x"));
    let g = hrx_fence_create_at(Some(&sem()), Ok(0xff)).unwrap();
    assert!(err_is(&hrx_fence_create_at(None, Ok(1)).err().unwrap(), 3, "semaphore or fence is NULL"));
    assert!(hrx_fence_insert(Some(&f), Some(&sem()), None).is_none());
    assert!(is_err(&hrx_fence_insert(Some(&f), None, None), 3, "fence or semaphore is NULL"));
    assert!(hrx_fence_extend(Some(&f), Some(&g), None).is_none());
    assert!(is_err(&hrx_fence_extend(None, Some(&g), None), 3, "into_fence or from_fence is NULL"));
    assert!(hrx_fence_signal(Some(&f), None).is_none());
    assert!(is_err(&hrx_fence_signal(None, None), 3, "fence is NULL"));
    assert_eq!(hrx_status_code(&hrx_fence_wait(Some(&f), 1, Some(ierr(4, "late")))), 4);
    assert!(is_err(&hrx_fence_wait(None, 1, None), 3, "fence is NULL"));
}

#[test]
fn stream_create_and_getters() {
    let s = stream();
    assert_eq!((s.timepoint, s.pending_cb, s.has_pending_work, s.device), (0, 0, false, 0xde5));
    assert!(err_is(&hrx_stream_create(None, 0, Ok(sem())).unwrap_err(), 3, "device or stream is NULL"));
    let e = HrxStatusS { code: 8, message: Some("sem".to_string()) };
    assert!(err_is(&hrx_stream_create(Some(1), 0, Err(e)).unwrap_err(), 8, "sem"));
    assert_eq!(hrx_stream_get_semaphore(Some(&s)).unwrap(), sem());
    assert!(err_is(&hrx_stream_get_semaphore(None).unwrap_err(), 3, "stream or semaphore is NULL"));
    assert_eq!(hrx_stream_get_device(Some(&s)).unwrap(), 0xde5);
    assert!(err_is(&hrx_stream_get_device(None).unwrap_err(), 3, "stream or device is NULL"));
    assert_eq!(hrx_stream_get_timeline_position(Some(&s)).unwrap(), HrxTimelinePoint { semaphore: Some(sem()), value: 0 });
    assert!(err_is(&hrx_stream_get_timeline_position(None).unwrap_err(), 3, "stream or position is NULL"));
}

#[test]
fn stream_record_then_flush() {
    let mut s = stream();
    let b = buffer(64);
    let (st, cmd) = hrx_stream_fill_buffer(Some(&mut s), Some(&b), 8, 16, Some(&[0xab]), Ok(0xcb), None, None, None);
    assert!(st.is_none());
    match cmd {
        Some(StreamCommand::Fill { target, pattern }) => {
            assert_eq!(target, IreeBufferRef { buffer: 0xb0f, offset: 8, length: 16 });
            assert_eq!(pattern, vec![0xab]);
        },
        _ => panic!("fill recorded"),
    }
    assert_eq!((s.pending_cb, s.has_pending_work), (0xcb, true));
    assert!(hrx_stream_flush(Some(&mut s), None, None).is_none());
    assert_eq!((s.timepoint, s.pending_cb, s.has_pending_work), (1, 0, false));
    assert!(hrx_stream_flush(Some(&mut s), Some(ierr(13, "unused")), None).is_none());
    assert_eq!(s.timepoint, 1);
    assert!(is_err(&hrx_stream_flush(None, None, None), 3, "stream is NULL"));
}

#[test]
fn stream_flush_failures_keep_work() {
    let mut s = stream();
    let b = buffer(64);
    hrx_stream_copy_buffer(Some(&mut s), Some(&b), 0, Some(&b), 32, 32, Ok(0xcb), None, None, None);
    let before = s;
    assert_eq!(hrx_status_code(&hrx_stream_flush(Some(&mut s), Some(ierr(13, "end")), None)), 13);
    assert_eq!(s, before);
    assert_eq!(hrx_status_code(&hrx_stream_flush(Some(&mut s), None, Some(ierr(14, "exec")))), 14);
    assert_eq!(s, before);
}

#[test]
fn stream_record_failures() {
    let mut s = stream();
    let b = buffer(64);
    let (st, cmd) = hrx_stream_fill_buffer(Some(&mut s), None, 0, 1, Some(&[1]), Ok(0xcb), None, None, None);
    assert!(is_err(&st, 3, "stream, buffer, or pattern is NULL"));
    assert!(cmd.is_none());
    assert_eq!(s, stream());
    let (st, cmd) = hrx_stream_update_buffer(Some(&mut s), Some(&[1, 2, 3]), Some(&b), 4, Err(ierr(8, "cb")), None, None, None);
    assert_eq!(hrx_status_code(&st), 8);
    assert!(cmd.is_none());
    assert_eq!(s.pending_cb, 0);
    let (st, cmd) = hrx_stream_update_buffer(Some(&mut s), Some(&[1, 2, 3]), Some(&b), 4, Ok(0xcb), None, Some(ierr(3, "rec")), None);
    assert_eq!(hrx_status_code(&st), 3);
    match cmd {
        Some(StreamCommand::Update { target, data }) => {
            assert_eq!(target, IreeBufferRef { buffer: 0xb0f, offset: 4, length: 3 });
            assert_eq!(data, vec![1, 2, 3]);
        },
        _ => panic!("update reached the command buffer"),
    }
    assert_eq!((s.pending_cb, s.has_pending_work), (0xcb, false));
    let (st, _) = hrx_stream_execution_barrier(Some(&mut s), Ok(0x99), None, None);
    assert!(st.is_none());
    assert_eq!((s.pending_cb, s.has_pending_work), (0xcb, true));
    let (st, cmd) = hrx_stream_execution_barrier(None, Ok(0x99), None, None);
    assert!(is_err(&st, 3, "stream is NULL"));
    assert!(cmd.is_none());
    let (st, _) = hrx_stream_copy_buffer(Some(&mut s), Some(&b), 0, None, 0, 1, Ok(1), None, None, None);
    assert!(is_err(&st, 3, "stream, src, or dst is NULL"));
}

#[test]
fn stream_dispatch_records() {
    let mut s = stream();
    let b = buffer(64);
    let cfg = HrxDispatchConfig { workgroup_count: [4, 1, 1], workgroup_size: [64, 1, 1], subgroup_size: 0 };
    let binds = [HrxBufferRef { buffer: Some(&b), offset: 0, length: 64 }];
    let (st, cmd) = hrx_stream_dispatch(Some(&mut s), Some(0xe0), 2, Some(&cfg), Some(&[7, 0, 0, 0]), 4, Some(&binds), 1, 0, Ok(0xcb), None, None, None);
    assert!(st.is_none());
    match cmd {
        Some(StreamCommand::Dispatch(req)) => {
            assert_eq!((req.executable, req.function, req.flags), (0xe0, 2, 0));
            assert_eq!(req.config.workgroup_size, [64, 1, 1]);
            assert_eq!(req.config.workgroup_count, [4, 1, 1]);
            assert_eq!(req.bindings, vec![IreeBufferRef { buffer: 0xb0f, offset: 0, length: 64 }]);
            assert_eq!(req.constants, vec![7, 0, 0, 0]);
        },
        _ => panic!("dispatch recorded"),
    }
    assert!(s.has_pending_work);
    let mut t = stream();
    let (st, _) = hrx_stream_dispatch(Some(&mut t), None, 0, Some(&cfg), None, 0, None, 0, 0, Ok(0xcb), None, None, None);
    assert!(is_err(&st, 3, "stream, executable, config, constants, or bindings are invalid"));
    let (st, _) = hrx_stream_dispatch(Some(&mut t), Some(1), 0, Some(&cfg), None, 4, None, 0, 0, Ok(0xcb), None, None, None);
    assert!(is_err(&st, 3, "stream, executable, config, constants, or bindings are invalid"));
    assert_eq!(t, stream());
    let missing = [HrxBufferRef { buffer: None, offset: 0, length: 0 }];
    let (st, cmd) = hrx_stream_dispatch(Some(&mut t), Some(1), 0, Some(&cfg), None, 0, Some(&missing), 1, 0, Ok(0xcb), None, None, None);
    assert!(is_err(&st, 3, "binding buffer is NULL"));
    assert!(cmd.is_none());
    assert_eq!((t.pending_cb, t.has_pending_work), (0xcb, false));
}

#[test]
fn stream_wait_query_sync() {
    let mut s = stream();
    assert!(hrx_stream_wait(Some(&s), Some(ierr(13, "never read"))).is_none());
    assert_eq!(hrx_stream_query(Some(&s), Err(ierr(13, "never read"))).unwrap(), true);
    let b = buffer(8);
    hrx_stream_fill_buffer(Some(&mut s), Some(&b), 0, 8, Some(&[0]), Ok(0xcb), None, None, None);
    assert!(hrx_stream_synchronize(Some(&mut s), None, None, None).is_none());
    assert_eq!(s.timepoint, 1);
    assert_eq!(hrx_stream_query(Some(&s), Ok(0)).unwrap(), false);
    assert_eq!(hrx_stream_query(Some(&s), Ok(1)).unwrap(), true);
    assert!(err_is(&hrx_stream_query(Some(&s), Err(ierr(14, "lost"))).unwrap_err(), 14, "lost"));
    assert!(err_is(&hrx_stream_query(None, Ok(1)).unwrap_err(), 3, "stream or complete is NULL"));
    assert_eq!(hrx_status_code(&hrx_stream_wait(Some(&s), Some(ierr(4, "late")))), 4);
    assert!(is_err(&hrx_stream_wait(None, None), 3, "stream is NULL"));
    assert_eq!(hrx_status_code(&hrx_stream_synchronize(Some(&mut s), None, None, Some(ierr(4, "late")))), 4);
    assert!(is_err(&hrx_stream_synchronize(None, None, None, None), 3, "stream is NULL"));
}

#[test]
fn stream_timeline_and_wait_on() {
    let mut s = stream();
    assert_eq!(hrx_stream_advance_timeline(Some(&mut s)).unwrap(), 1);
    assert!(err_is(&hrx_stream_advance_timeline(None).unwrap_err(), 3, "stream or value is NULL"));
    assert_eq!(s.timepoint, 1);
    let (w, sig) = wait_on_barrier(&s, 0x77, 9);
    assert_eq!((w.count, w.semaphores.clone(), w.payload_values.clone()), (1, vec![0x77], vec![9]));
    assert_eq!((sig.count, sig.semaphores.clone(), sig.payload_values.clone()), (1, vec![0x5e], vec![2]));
    let pos = HrxTimelinePoint { semaphore: Some(HrxSemaphoreS { hal: 0x77, device: 1 }), value: 9 };
    assert!(hrx_stream_wait_on(Some(&mut s), pos, None, None, None).is_none());
    assert_eq!(s.timepoint, 2);
    let none = HrxTimelinePoint { semaphore: None, value: 9 };
    assert!(is_err(&hrx_stream_wait_on(Some(&mut s), none, None, None, None), 3, "position semaphore is NULL"));
    assert_eq!(hrx_status_code(&hrx_stream_wait_on(Some(&mut s), pos, None, None, Some(ierr(14, "b")))), 14);
    assert_eq!(s.timepoint, 2);
    assert!(is_err(&hrx_stream_wait_on(None, pos, None, None, None), 3, "stream is NULL"));
}

fn norm() -> iree_hal_buffer_params_t {
    iree_hal_buffer_params_t { usage: 3, access: 7, type_: 0x36, queue_affinity: 1, min_alignment: 64 }
}

#[test]
fn stream_ordered_allocation() {
    let mut s = stream();
    let (e, steps) = hrx_buffer_allocate(Some(&mut s), 0, 0x30, 1, norm(), None, None, Ok(1), Ok(2), None);
    assert!(err_is(&e.unwrap_err(), 3, "allocation size must be > 0"));
    assert!(steps.request.is_none() && steps.release.is_empty() && steps.retain_device.is_none());
    let (e, _) = hrx_buffer_allocate(Some(&mut s), 64, 0x30, 0, norm(), None, None, Ok(1), Ok(2), None);
    assert!(err_is(&e.unwrap_err(), 3, "buffer params are not allocatable on this device"));
    let (e, _) = hrx_buffer_allocate(None, 64, 0x30, 1, norm(), None, None, Ok(1), Ok(2), None);
    assert!(err_is(&e.unwrap_err(), 3, "stream or buffer is NULL"));
    let (b, steps) = hrx_buffer_allocate(Some(&mut s), 64, 0x30, 1, norm(), None, None, Ok(0x900), Ok(0xb9), None);
    let b = b.unwrap();
    assert_eq!((b.hal_buffer, b.hal_pool, b.device, b.mem_type, b.size, b.ref_count), (0xb9, 0x900, 0xde5, 0x30, 64, 1));
    assert_eq!(s.timepoint, 1);
    assert_eq!(steps.retain_device, Some(0xde5));
    assert!(steps.release.is_empty());
    let req = steps.request.unwrap();
    assert_eq!((req.wait.count, req.signal.count), (0, 1));
    assert_eq!((req.signal.semaphores, req.signal.payload_values), (vec![0x5e], vec![1]));
    assert_eq!((req.size, req.wait_for), (64, (0x5e, 1)));
    assert_eq!(req.params, norm());
    assert_eq!(steps.pool_params, Some(norm()));
    let (_, steps) = hrx_buffer_allocate(Some(&mut s), 8, 0x30, 1, norm(), None, None, Ok(0x901), Ok(0xba), None);
    let req = steps.request.unwrap();
    assert_eq!((req.wait.count, req.wait.payload_values, req.wait_for), (1, vec![1], (0x5e, 2)));
    assert_eq!(s.timepoint, 2);
    let (e, steps) = hrx_buffer_allocate(Some(&mut s), 64, 0x30, 1, norm(), None, None, Err(ierr(8, "pool")), Ok(1), None);
    assert!(err_is(&e.unwrap_err(), 8, "pool"));
    assert!(steps.request.is_none() && steps.release.is_empty());
    assert_eq!(steps.pool_params, Some(norm()));
    let (e, steps) = hrx_buffer_allocate(Some(&mut s), 64, 0x30, 1, norm(), None, None, Ok(0x902), Err(ierr(8, "alloca")), None);
    assert!(err_is(&e.unwrap_err(), 8, "alloca"));
    assert_eq!(steps.release, vec![0x902]);
    let (e, steps) = hrx_buffer_allocate(Some(&mut s), 64, 0x30, 1, norm(), None, None, Ok(0x903), Ok(0xbb), Some(ierr(4, "wait")));
    assert!(err_is(&e.unwrap_err(), 4, "wait"));
    assert_eq!(steps.release, vec![0xbb, 0x903]);
    assert!(steps.retain_device.is_none());
    assert_eq!(s.timepoint, 2);
}

#[test]
fn one_shot_command_buffers_are_released_once() {
    let (st, cb) = one_shot_outcome(Err(ierr(8, "create")), &[None]);
    assert!(is_err(&st, 8, "create"));
    assert!(cb.is_none());
    let (st, cb) = one_shot_outcome(Ok(0xcb), &[None, Some(ierr(3, "record")), None]);
    assert!(is_err(&st, 3, "record"));
    assert_eq!(cb, Some(0xcb));
    let (st, cb) = one_shot_outcome(Ok(0xcb), &[None, None, None, None]);
    assert!(st.is_none());
    assert_eq!(cb, Some(0xcb));
}

fn sems<'a>(list: &'a [HrxSemaphoreS], values: &'a [u64]) -> HrxSemaphoreList<'a> {
    HrxSemaphoreList { semaphores: list, values, count: list.len() }
}

#[test]
fn queue_lists_and_affinity() {
    assert_eq!(normalize_affinity(0), IREE_HAL_QUEUE_AFFINITY_ANY);
    assert_eq!(normalize_affinity(2), 2);
    let ss = [sem(), HrxSemaphoreS { hal: 0x6e, device: 1 }];
    let vs = [3u64, 4];
    let l = sems(&ss, &vs);
    let r = to_iree_sem_list(Some(&l));
    assert_eq!((r.count, r.semaphores, r.payload_values), (2, vec![0x5e, 0x6e], vec![3, 4]));
    let r = to_iree_sem_list(None);
    assert_eq!(r.count, 0);
    assert!(HRX_MAX_QUEUE_SEMAPHORES >= 2);
}

#[test]
fn queue_operations() {
    let b = buffer(64);
    let ss = [sem()];
    let vs = [1u64];
    let w = sems(&ss, &vs);
    let plan = hrx_queue_fill(true, 0, Some(&w), None, Some(&b), 0, 64, Some(&[1, 2, 3, 4, 5]), 4).unwrap();
    assert_eq!(plan.pattern, Some(vec![1, 2, 3, 4]));
    assert_eq!(plan.affinity, IREE_HAL_QUEUE_AFFINITY_ANY);
    assert_eq!(plan.target, IreeBufferRef { buffer: 0xb0f, offset: 0, length: 64 });
    assert!(plan.source.is_none());
    assert_eq!((plan.command_buffer_mode, plan.command_categories), (1, 1));
    assert_eq!(plan.wait.semaphores, vec![0x5e]);
    assert_eq!(plan.signal.count, 0);
    assert!(err_is(&hrx_queue_fill(true, 0, None, None, Some(&b), 0, 64, None, 4).err().unwrap(), 3, "device, buffer, or pattern is NULL"));
    let plan = hrx_queue_copy(true, 4, None, Some(&w), Some(&b), 8, Some(&b), 16, 8).unwrap();
    assert_eq!(plan.affinity, 4);
    assert_eq!((plan.command_buffer_mode, plan.command_categories), (1, 1));
    assert_eq!(plan.source, Some(IreeBufferRef { buffer: 0xb0f, offset: 8, length: 8 }));
    assert_eq!(plan.target, IreeBufferRef { buffer: 0xb0f, offset: 16, length: 8 });
    assert_eq!(plan.signal.payload_values, vec![1]);
    assert!(plan.pattern.is_none());
    assert!(err_is(&hrx_queue_copy(false, 0, None, None, Some(&b), 0, Some(&b), 0, 1).err().unwrap(), 3, "device, src, or dst is NULL"));
    let q = hrx_queue_barrier(true, 0, Some(&w), None).unwrap();
    assert_eq!((q.affinity, q.wait.count, q.signal.count), (IREE_HAL_QUEUE_AFFINITY_ANY, 1, 0));
    assert!(err_is(&hrx_queue_barrier(false, 0, None, None).err().unwrap(), 3, "device is NULL"));
    let (q, thunk) = hrx_queue_host_call(true, Some(0xca11), 0xda7a, 1, None, None).ok().unwrap();
    assert_eq!(q.affinity, 1);
    assert_eq!(thunk.run(), (0xca11, 0xda7a));
    assert!(err_is(&hrx_queue_host_call(true, None, 0, 1, None, None).err().unwrap(), 3, "device or callback is NULL"));
    assert!(err_is(&hrx_queue_host_call(false, Some(1), 0, 1, None, None).err().unwrap(), 3, "device or callback is NULL"));
    let (_, thunk) = hrx_queue_host_call(true, Some(0xca11), 0xda7a, 0, None, None).ok().unwrap();
    let (st, back) = host_call_submitted(thunk, Some(ierr(14, "queue lost")));
    assert!(is_err(&st, 14, "queue lost"));
    assert_eq!(back.unwrap().user_data, 0xda7a);
    let (_, thunk) = hrx_queue_host_call(true, Some(0xca11), 0xda7a, 0, None, None).ok().unwrap();
    let (st, back) = host_call_submitted(thunk, None);
    assert!(st.is_none());
    assert!(back.is_none());
}

#[test]
fn queue_dispatch_checks() {
    let b = buffer(64);
    let cfg = HrxDispatchConfig { workgroup_count: [1, 2, 3], workgroup_size: [8, 8, 1], subgroup_size: 32 };
    let binds = [HrxBufferRef { buffer: Some(&b), offset: 4, length: 8 }, HrxBufferRef { buffer: Some(&b), offset: 12, length: 4 }];
    let (q, req) = hrx_queue_dispatch(true, 0, None, None, Some(0xe0), 1, Some(&cfg), Some(&[9u8; 20]), 16, Some(&binds), 2, 3).unwrap();
    assert_eq!(req.constants, vec![9u8; 16]);
    assert_eq!(q.affinity, IREE_HAL_QUEUE_AFFINITY_ANY);
    assert_eq!((req.executable, req.function, req.flags), (0xe0, 1, 3));
    assert_eq!(req.bindings.len(), 2);
    assert_eq!(req.bindings[1], IreeBufferRef { buffer: 0xb0f, offset: 12, length: 4 });
    let e = hrx_queue_dispatch(false, 0, None, None, Some(0xe0), 1, Some(&cfg), Some(&[9u8; 20]), 16, Some(&binds), 2, 3).err().unwrap();
    assert!(err_is(&e, 3, "device, executable, config, constants, or bindings are invalid"));
    let e = hrx_queue_dispatch(true, 0, None, None, Some(0xe0), 1, Some(&cfg), Some(&[]), 0, None, 1, 3).err().unwrap();
    assert!(err_is(&e, 3, "device, executable, config, constants, or bindings are invalid"));
    let bad = [HrxBufferRef { buffer: Some(&b), offset: 0, length: 1 }, HrxBufferRef { buffer: None, offset: 0, length: 1 }];
    let e = hrx_queue_dispatch(true, 0, None, None, Some(0xe0), 1, Some(&cfg), None, 0, Some(&bad), 2, 0).err().unwrap();
    assert!(err_is(&e, 3, "binding buffer is NULL"));
    assert!(hrx_queue_dispatch(true, 0, None, None, Some(0xe0), 1, Some(&cfg), None, 0, Some(&bad), 1, 0).is_ok());
}

#[test]
fn bindings_and_completion() {
    let b = buffer(8);
    let binds = [HrxBufferRef { buffer: Some(&b), offset: 1, length: 2 }];
    assert_eq!(build_hal_bindings(&binds, 1).unwrap(), vec![IreeBufferRef { buffer: 0xb0f, offset: 1, length: 2 }]);
    assert!(build_hal_bindings(&binds, 0).unwrap().is_empty());
    let none = [HrxBufferRef { buffer: None, offset: 0, length: 0 }];
    assert!(build_hal_bindings(&none, 1).is_err());
    assert!(hrx_queue_complete(&[None, None]).is_none());
    let s = hrx_queue_complete(&[None, Some(ierr(11, "first")), Some(ierr(14, "second"))]);
    assert!(is_err(&s, 11, "first"));
    assert!(hrx_queue_complete(&[]).is_none());
}

#[test]
fn buffer_views() {
    let b = buffer(24);
    let v = hrx_buffer_view_create(Some(&b), 2, Some(&[2, 3]), 0x10, 1, Ok(0x71)).unwrap();
    assert_eq!(hrx_buffer_view_rank(Some(&v)).unwrap(), 2);
    assert_eq!(hrx_buffer_view_dim(Some(&v), 0).unwrap(), 2);
    assert_eq!(hrx_buffer_view_dim(Some(&v), 1).unwrap(), 3);
    assert!(err_is(&hrx_buffer_view_dim(Some(&v), 2).unwrap_err(), 11, "buffer_view dim out of range"));
    assert!(err_is(&hrx_buffer_view_dim(None, 0).unwrap_err(), 3, "buffer_view or value is NULL"));
    assert!(err_is(&hrx_buffer_view_rank(None).unwrap_err(), 3, "buffer_view or rank is NULL"));
    assert_eq!((v.hal, v.element_type, v.encoding_type), (0x71, 0x10, 1));
    let e = hrx_buffer_view_create(Some(&b), 2, Some(&[2, -1]), 0, 0, Ok(1)).err().unwrap();
    assert!(err_is(&e, 3, "shape dimensions must be non-negative"));
    let e = hrx_buffer_view_create(Some(&b), 1, None, 0, 0, Ok(1)).err().unwrap();
    assert!(err_is(&e, 3, "shape is NULL for non-zero rank"));
    let e = hrx_buffer_view_create(None, 0, None, 0, 0, Ok(1)).err().unwrap();
    assert!(err_is(&e, 3, "buffer or buffer_view is NULL"));
    let scalar = hrx_buffer_view_create(Some(&b), 0, None, 0, 0, Ok(2)).unwrap();
    assert_eq!(hrx_buffer_view_rank(Some(&scalar)).unwrap(), 0);
    let e = hrx_buffer_view_create(Some(&b), 1, Some(&[4, -7]), 0, 0, Err(ierr(3, "shape"))).err().unwrap();
    assert!(err_is(&e, 3, "shape"));
}

#[test]
fn value_lists() {
    let mut l = hrx_value_list_create(Ok(0x11)).unwrap();
    assert_eq!(l, HrxValueListS { ref_count: 1, vm_list: 0x11 });
    assert!(err_is(&hrx_value_list_create(Err(ierr(8, "oom"))).unwrap_err(), 8, "oom"));
    hrx_value_list_retain(&mut l);
    assert_eq!(l.ref_count, 2);
    assert!(!hrx_value_list_release(&mut l));
    assert!(hrx_value_list_release(&mut l));
    let l = HrxValueListS { ref_count: 1, vm_list: 0x11 };
    assert!(hrx_value_list_push_i64(Some(&l), 42, None).is_none());
    assert!(is_err(&hrx_value_list_push_i64(None, 42, None), 3, "list is NULL"));
    assert!(is_err(&hrx_value_list_push_null_ref(None, None), 3, "list is NULL"));
    assert_eq!(hrx_status_code(&hrx_value_list_push_null_ref(Some(&l), Some(ierr(11, "full")))), 11);
    let b = buffer(4);
    assert!(hrx_value_list_push_buffer(Some(&l), Some(&b), None).is_none());
    assert!(is_err(&hrx_value_list_push_buffer(Some(&l), None, None), 3, "list or buffer is NULL"));
    let v = hrx_buffer_view_create(Some(&b), 0, None, 0, 0, Ok(2)).unwrap();
    assert!(hrx_value_list_push_buffer_view(Some(&l), Some(&v), None).is_none());
    assert!(is_err(&hrx_value_list_push_buffer_view(None, Some(&v), None), 3, "list or buffer_view is NULL"));
    let f = hrx_fence_create(Ok(0xfe)).unwrap();
    assert!(hrx_value_list_push_fence(Some(&l), Some(&f), None).is_none());
    assert!(is_err(&hrx_value_list_push_fence(Some(&l), None, None), 3, "list or fence is NULL"));
    assert_eq!(hrx_value_list_size(Some(&l), 5).unwrap(), 5);
    assert!(err_is(&hrx_value_list_size(None, 5).unwrap_err(), 3, "list or size is NULL"));
    assert_eq!(hrx_value_list_get_i64(Some(&l), Ok(-9)).unwrap(), -9);
    assert!(err_is(&hrx_value_list_get_i64(Some(&l), Err(ierr(11, "index"))).unwrap_err(), 11, "index"));
    assert!(err_is(&hrx_value_list_get_i64(None, Ok(1)).unwrap_err(), 3, "list or value is NULL"));
}

#[test]
fn take8_reads_little_endian() {
    let data = [1u8, 0, 0, 0, 0, 0, 0, 0, 0xff, 0xff];
    let mut i = 0usize;
    assert_eq!(take8(&data, &mut i), 1);
    assert_eq!(i, 8);
    assert_eq!(take8(&data, &mut i), 0xffff);
    assert_eq!(i, 16);
    assert_eq!(take8(&data, &mut i), 0);
    let neg = [0xffu8; 8];
    let mut j = 0usize;
    assert_eq!(take8(&neg, &mut j), -1);
}

fn exe() -> HrxExecutableS {
    HrxExecutableS { hal_executable: 0xe0, hal_executable_cache: 0xec, device: 0xde5 }
}

#[test]
fn executables() {
    let (r, rel) = hrx_executable_load_data(Some(0xde5), true, 16, Some(b"embedded-elf-x86_64"), Ok(0xec), Ok(0xe0));
    assert_eq!(r.unwrap(), exe());
    assert!(rel.is_none());
    let (r, rel) = hrx_executable_load_data(Some(0xde5), true, 0, Some(b"f"), Ok(0xec), Ok(0xe0));
    assert!(err_is(&r.unwrap_err(), 3, "device, executable_data, or executable is invalid"));
    assert!(rel.is_none());
    let (r, rel) = hrx_executable_load_data(Some(0xde5), true, 16, Some(b""), Ok(0xec), Ok(0xe0));
    assert!(err_is(&r.unwrap_err(), 3, "executable_format is required"));
    assert_eq!(rel, Some(0xec));
    let (r, rel) = hrx_executable_load_data(Some(0xde5), true, 16, Some(b"\0x"), Ok(0xec), Ok(0xe0));
    assert!(err_is(&r.unwrap_err(), 3, "executable_format is required"));
    assert_eq!(rel, Some(0xec));
    let (r, rel) = hrx_executable_load_data(Some(0xde5), true, 16, None, Err(ierr(8, "cache")), Ok(0xe0));
    assert!(err_is(&r.unwrap_err(), 8, "cache"));
    assert!(rel.is_none());
    let (r, rel) = hrx_executable_load_data(Some(0xde5), true, 16, Some(b"f"), Ok(0xec), Err(ierr(3, "bad elf")));
    assert!(err_is(&r.unwrap_err(), 3, "bad elf"));
    assert_eq!(rel, Some(0xec));
    assert!(executable_format_given(Some(b"f")));
    assert!(!executable_format_given(Some(b"\0f")));
    assert!(!executable_format_given(None));
    assert_eq!(hrx_executable_export_count(Some(&exe()), 3).unwrap(), 3);
    assert!(err_is(&hrx_executable_export_count(None, 3).unwrap_err(), 3, "executable or count is NULL"));
    let mut info = iree_hal_executable_function_info_t::zeroed();
    info.name = iree_string_view_t::cstr("main_dispatch");
    info.binding_count = 2;
    info.workgroup_size = [64, 1, 1];
    let i = hrx_executable_export_info(Some(&exe()), Ok(info)).ok().unwrap();
    assert_eq!(i.name, b"main_dispatch".to_vec());
    assert_eq!((i.binding_count, i.constant_count, i.workgroup_size), (2, 0, [64, 1, 1]));
    assert!(err_is(&hrx_executable_export_info(None, Err(ierr(1, "x"))).err().unwrap(), 3, "executable or out_info is NULL"));
    assert_eq!(hrx_executable_lookup_export_by_name(Some(&exe()), true, Ok(7)).unwrap(), 7);
    let e = hrx_executable_lookup_export_by_name(Some(&exe()), true, Ok(1 << 32)).unwrap_err();
    assert!(err_is(&e, 12, "executable function is not a dense ordinal"));
    let e = hrx_executable_lookup_export_by_name(Some(&exe()), false, Ok(1)).unwrap_err();
    assert!(err_is(&e, 3, "executable, name, or export_ordinal is NULL"));
    let e = hrx_executable_lookup_export_by_name(Some(&exe()), true, Err(ierr(5, "no such export"))).unwrap_err();
    assert!(err_is(&e, 5, "no such export"));
}

#[test]
fn executable_file_steps() {
    assert!(err_is(&load_file_error(LoadFileFailure::MissingArgument), 3, "device, path, or executable is NULL"));
    assert!(err_is(&load_file_error(LoadFileFailure::Open), 5, "failed to open executable file"));
    assert!(err_is(&load_file_error(LoadFileFailure::SeekEnd), 13, "failed to seek executable file"));
    assert!(err_is(&load_file_error(LoadFileFailure::EmptyFile), 3, "empty executable file"));
    assert!(err_is(&load_file_error(LoadFileFailure::Rewind), 13, "failed to rewind executable file"));
    assert!(err_is(&load_file_error(LoadFileFailure::ShortRead), 15, "short read while loading executable file"));
    assert_eq!(load_file_size(0), Err(LoadFileFailure::EmptyFile));
    assert_eq!(load_file_size(-1), Err(LoadFileFailure::EmptyFile));
    assert_eq!(load_file_size(4096), Ok(4096));
    assert_eq!(load_file_read(10, 12), Err(LoadFileFailure::ShortRead));
    assert_eq!(load_file_read(12, 12), Ok(()));
}

#[test]
fn modules_and_functions() {
    let (m, rel) = hrx_module_load_vmfb(Some((0xde5, 0x9)), true, 100, (0x1, true), Ok(0xbc), Ok(0x4a), Ok(0xc7));
    let m = m.unwrap();
    assert!(rel.is_empty());
    assert_eq!((m.context, m.hal_module, m.bytecode_module, m.device), (0xc7, 0x4a, 0xbc, 0xde5));
    let (e, rel) = hrx_module_load_vmfb(None, true, 100, (0x1, true), Ok(1), Ok(1), Ok(1));
    assert!(err_is(&e.unwrap_err(), 3, "device, vmfb_data, or module is NULL"));
    assert!(rel.is_empty());
    let (e, _) = hrx_module_load_vmfb(Some((1, 1)), true, 0, (0x1, true), Ok(1), Ok(1), Ok(1));
    assert!(err_is(&e.unwrap_err(), 3, "vmfb_size must be > 0"));
    let (e, _) = hrx_module_load_vmfb(Some((1, 1)), true, 10, (0x1, false), Ok(1), Ok(1), Ok(1));
    assert!(err_is(&e.unwrap_err(), 14, "runtime is not initialized"));
    let (e, rel) = hrx_module_load_vmfb(Some((1, 0)), true, 10, (0x1, true), Ok(0xbc), Ok(1), Ok(1));
    assert!(err_is(&e.unwrap_err(), 9, "device is missing its HAL device group"));
    assert_eq!(rel, vec![0xbc]);
    let (e, rel) = hrx_module_load_vmfb(Some((1, 0)), true, 10, (0x1, true), Err(ierr(3, "bad vmfb")), Ok(1), Ok(1));
    assert!(err_is(&e.unwrap_err(), 3, "bad vmfb"));
    assert!(rel.is_empty());
    let (e, rel) = hrx_module_load_vmfb(Some((1, 2)), true, 10, (0x1, true), Ok(0xbc), Err(ierr(13, "hal")), Ok(1));
    assert!(err_is(&e.unwrap_err(), 13, "hal"));
    assert_eq!(rel, vec![0xbc]);
    let (e, rel) = hrx_module_load_vmfb(Some((1, 2)), true, 10, (0x1, true), Ok(0xbc), Ok(0x4a), Err(ierr(13, "ctx")));
    assert!(err_is(&e.unwrap_err(), 13, "ctx"));
    assert_eq!(rel, vec![0x4a, 0xbc]);
    let mut vf = iree_vm_function_t::zeroed();
    vf.bytes[0] = 7;
    let f = hrx_module_lookup_function(Some(0xa0), true, Ok(vf)).unwrap();
    assert_eq!(f.module, 0xa0);
    assert_eq!(f.vm_function.bytes[0], 7);
    let e = hrx_module_lookup_function(Some(0xa0), true, Err(ierr(5, "no fn"))).err().unwrap();
    assert!(err_is(&e, 5, "no fn"));
    assert!(err_is(&hrx_module_lookup_function(None, true, Ok(vf)).err().unwrap(), 3, "module, name, or function is NULL"));
    assert!(hrx_function_invoke(Some(0xa0), Some(&f), None).is_none());
    assert!(is_err(&hrx_function_invoke(Some(0xa1), Some(&f), None), 3, "function does not belong to module"));
    assert!(is_err(&hrx_function_invoke(None, Some(&f), None), 3, "module or function is NULL"));
    assert_eq!(hrx_status_code(&hrx_function_invoke(Some(0xa0), Some(&f), Some(ierr(13, "trap")))), 13);
}
