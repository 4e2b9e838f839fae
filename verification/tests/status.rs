use hrx_rs::status::{
    hrx_code_from_iree, hrx_make_status, hrx_ok_status, hrx_status_code, hrx_status_from_iree,
    hrx_status_from_iree_ref, hrx_status_ignore, hrx_status_is_ok, hrx_status_to_string, status_error, HrxStatus,
    HrxStatusCode, HrxStatusS, IreeError, HRX_STATUS_OK,
};

#[test]
fn ok_status_is_ok() {
    let s = hrx_ok_status();
    assert!(hrx_status_is_ok(&s));
    assert_eq!(hrx_status_code(&s), HRX_STATUS_OK);
    let (text, len) = hrx_status_to_string(&s);
    assert_eq!(text, "OK");
    assert_eq!(len, 2);
}

#[test]
fn make_status_keeps_code_and_message() {
    assert!(hrx_make_status(0, Some("ignored")).is_none());
    let s = hrx_make_status(5, Some("not here"));
    assert!(!hrx_status_is_ok(&s));
    assert_eq!(hrx_status_code(&s), 5);
    assert_eq!(hrx_status_to_string(&s), ("not here".to_string(), 8));
    let s = hrx_make_status(13, None);
    assert_eq!(hrx_status_code(&s), 13);
    assert_eq!(hrx_status_to_string(&s), ("(no message)".to_string(), 12));
    hrx_status_ignore(s);
}

#[test]
fn status_to_string_counts_bytes() {
    let s: HrxStatus = Some(HrxStatusS { code: 2, message: Some("é".to_string()) });
    assert_eq!(hrx_status_to_string(&s), ("é".to_string(), 2));
}

#[test]
fn code_values() {
    assert_eq!(HrxStatusCode::Success.value(), 0);
    assert_eq!(HrxStatusCode::Cancelled.value(), 1);
    assert_eq!(HrxStatusCode::InvalidArgument.value(), 3);
    assert_eq!(HrxStatusCode::OutOfMemory.value(), 8);
    assert_eq!(HrxStatusCode::FailedPrecondition.value(), 9);
    assert_eq!(HrxStatusCode::OutOfRange.value(), 11);
    assert_eq!(HrxStatusCode::Internal.value(), 13);
    assert_eq!(HrxStatusCode::Unavailable.value(), 14);
    assert_eq!(HrxStatusCode::DataLoss.value(), 15);
    let e = status_error(HrxStatusCode::NotFound, "gone");
    assert_eq!(e.code, 5);
    assert_eq!(e.message.as_deref(), Some("gone"));
}

#[test]
fn iree_codes_map() {
    assert_eq!(hrx_code_from_iree(3), 3);
    assert_eq!(hrx_code_from_iree(5), 5);
    assert_eq!(hrx_code_from_iree(6), 6);
    assert_eq!(hrx_code_from_iree(11), 11);
    assert_eq!(hrx_code_from_iree(12), 12);
    assert_eq!(hrx_code_from_iree(14), 14);
    assert_eq!(hrx_code_from_iree(8), 8);
    assert_eq!(hrx_code_from_iree(4), 4);
    assert_eq!(hrx_code_from_iree(1), 13);
    assert_eq!(hrx_code_from_iree(9), 13);
    assert_eq!(hrx_code_from_iree(15), 13);
    assert_eq!(hrx_code_from_iree(-1), 13);
}

#[test]
fn iree_status_conversion() {
    assert!(hrx_status_from_iree(None).is_none());
    let s = hrx_status_from_iree(Some(IreeError { code: 8, formatted: Some("RESOURCE_EXHAUSTED; oom".to_string()) }));
    assert_eq!(hrx_status_code(&s), 8);
    assert_eq!(hrx_status_to_string(&s).0, "RESOURCE_EXHAUSTED; oom");
    let s = hrx_status_from_iree(Some(IreeError { code: 10, formatted: None }));
    assert_eq!(hrx_status_code(&s), 13);
    assert_eq!(hrx_status_to_string(&s).0, "IREE error (could not format message)");
    let e = Some(IreeError { code: 3, formatted: Some("bad".to_string()) });
    let s = hrx_status_from_iree_ref(&e);
    assert_eq!(hrx_status_code(&s), 3);
    assert_eq!(s.unwrap().message.as_deref(), Some("bad"));
}

#[test]
fn iree_errors_stay_errors() {
    for code in -3..40 {
        let s = hrx_status_from_iree(Some(IreeError { code, formatted: None }));
        let c = hrx_status_code(&s);
        assert!(c != HRX_STATUS_OK);
        assert!((1..=15).contains(&c));
    }
}
