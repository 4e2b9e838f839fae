use hrx_rs::hiplog::{
    device_props_note_line, hip_device_get_attribute_line, hip_event_elapsed_time_line, hip_free_line, hip_init_line,
    hip_launch_kernel_line, hip_memcpy_line, hip_memset_line, hip_register_var_line, logging_shutdown_line,
};

fn text(b: &[u8]) -> String {
    String::from_utf8(b.to_vec()).unwrap()
}

#[test]
fn call_lines() {
    assert_eq!(text(&hip_init_line(0x1f, 0)), "hipInit(flags=0x1f) -> 0");
    assert_eq!(text(&hip_free_line(0, 1)), "hipFree((nil)) -> 1");
    assert_eq!(
        text(&hip_memcpy_line(0x1000, 0x2000, 16, 1, 0)),
        "hipMemcpy(dst=0x1000, src=0x2000, size=16, kind=H2D) -> 0"
    );
    assert_eq!(text(&hip_memcpy_line(0x1000, 0x2000, 16, 9, 0)), "hipMemcpy(dst=0x1000, src=0x2000, size=16, kind=Unknown) -> 0");
    assert_eq!(text(&hip_memset_line(0x10, 5, 8, 0)), "hipMemset(dst=0x10, value=0x05, size=8) -> 0");
    assert_eq!(text(&hip_memset_line(0x10, -1, 8, 0)), "hipMemset(dst=0x10, value=0xffffffff, size=8) -> 0");
    assert_eq!(
        text(&hip_device_get_attribute_line(0, 1, 1024, 0)),
        "hipDeviceGetAttribute(attr=MaxThreadsPerBlock(0), device=1) -> value=1024, ret=0"
    );
    assert_eq!(
        text(&hip_device_get_attribute_line(77777, 0, -1, 1)),
        "hipDeviceGetAttribute(attr=attr_77777(77777), device=0) -> value=-1, ret=1"
    );
    assert_eq!(
        text(&hip_launch_kernel_line(0xf0, 4, 2, 1, 64, 1, 1, 0, 0, 0)),
        "hipLaunchKernel(func=0xf0, grid=(4,2,1), block=(64,1,1), shared=0, stream=(nil)) -> 0"
    );
    assert_eq!(
        text(&hip_event_elapsed_time_line(0x1, 0x2, b"1.500000", 0)),
        "hipEventElapsedTime(start=0x1, stop=0x2) -> ms=1.500000, ret=0"
    );
    assert_eq!(text(&hip_register_var_line(0x5, b"gvar", 4)), "__hipRegisterVar(handle=0x5, name=gvar, size=4)");
    assert_eq!(text(&device_props_note_line()), "  DeviceProps: (use hipDeviceGetAttribute logs for individual fields)");
    assert_eq!(text(&logging_shutdown_line()), "HIP Logging shutting down");
}
