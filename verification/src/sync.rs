//! Timeline semaphores and fences: handles, wait timeouts, and the argument
//! checks of their operations.
use vstd::prelude::*;
use crate::iree::{iree_timeout_t, HalFence, IREE_TIMEOUT_ABSOLUTE, IREE_TIMEOUT_RELATIVE, IREE_TIME_INFINITE_FUTURE, IREE_TIME_INFINITE_PAST};
use crate::status::{HrxStatus, HrxStatusCode, HrxStatusS, IreeError, IreeStatus, converts, hrx_status_from_iree, is_error, status_error};
use crate::buffer::unwrap_error;

verus! {

/// An HRX timeline semaphore: its IREE semaphore and the device it was made on.
#[derive(Clone, Copy, PartialEq, Eq, Structural, Debug)]
pub struct HrxSemaphoreS {
    pub hal: u64,
    pub device: u64,
}

/// An HRX fence: its IREE fence.
pub struct HrxFenceS {
    pub hal: HalFence,
}

/// The IREE timeout for a wait of `timeout_ns`: `u64::MAX` waits forever, 0
/// does not wait, anything else is that many nanoseconds from now (read as
/// a signed count).
pub open spec fn timeout_spec(timeout_ns: u64) -> iree_timeout_t {
    if timeout_ns == 0xffff_ffff_ffff_ffff {
        iree_timeout_t { type_: IREE_TIMEOUT_ABSOLUTE, nanos: IREE_TIME_INFINITE_FUTURE }
    } else if timeout_ns == 0 {
        iree_timeout_t { type_: IREE_TIMEOUT_ABSOLUTE, nanos: IREE_TIME_INFINITE_PAST }
    } else {
        iree_timeout_t { type_: IREE_TIMEOUT_RELATIVE, nanos: timeout_ns as i64 }
    }
}

pub fn wait_timeout(timeout_ns: u64) -> (r: iree_timeout_t)
    ensures
        r == timeout_spec(timeout_ns),
{
    if timeout_ns == u64::MAX {
        iree_timeout_t::infinite()
    } else if timeout_ns == 0 {
        iree_timeout_t::immediate()
    } else {
        #[verifier::truncate]
        let ns = timeout_ns as i64;
        iree_timeout_t::relative_ns(ns)
    }
}

/// `hrx_semaphore_create`: a semaphore on `device` from the IREE semaphore
/// created with `initial_value` (the caller retains the device).
pub fn hrx_semaphore_create(device: Option<u64>, created: Result<u64, IreeError>) -> (r: Result<HrxSemaphoreS, HrxStatusS>)
    ensures
        device is None ==> r is Err && is_error(
            r->Err_0,
            HrxStatusCode::InvalidArgument,
            "device or semaphore is NULL"@,
        ),
        device is Some ==> match created {
            Err(e) => r is Err && converts(Some(e), Some(r->Err_0)),
            Ok(h) => r == Ok::<HrxSemaphoreS, HrxStatusS>(HrxSemaphoreS { hal: h, device: device->0 }),
        },
{
    let d = match device {
        Some(d) => d,
        None => return Err(status_error(HrxStatusCode::InvalidArgument, "device or semaphore is NULL")),
    };
    match created {
        Err(e) => Err(unwrap_error(hrx_status_from_iree(Some(e)))),
        Ok(h) => Ok(HrxSemaphoreS { hal: h, device: d }),
    }
}

/// `hrx_semaphore_query`: the payload IREE reported, or its error.
pub fn hrx_semaphore_query(semaphore: Option<&HrxSemaphoreS>, queried: Result<u64, IreeError>) -> (r: Result<
    u64,
    HrxStatusS,
>)
    ensures
        semaphore is None ==> r is Err && is_error(
            r->Err_0,
            HrxStatusCode::InvalidArgument,
            "semaphore or value is NULL"@,
        ),
        semaphore is Some ==> match queried {
            Err(e) => r is Err && converts(Some(e), Some(r->Err_0)),
            Ok(v) => r == Ok::<u64, HrxStatusS>(v),
        },
{
    if semaphore.is_none() {
        return Err(status_error(HrxStatusCode::InvalidArgument, "semaphore or value is NULL"));
    }
    match queried {
        Err(e) => Err(unwrap_error(hrx_status_from_iree(Some(e)))),
        Ok(v) => Ok(v),
    }
}

/// The outcome of an operation on one semaphore: "semaphore is NULL" when it
/// is missing, else IREE's outcome converted.
fn semaphore_op(semaphore: Option<&HrxSemaphoreS>, outcome: IreeStatus) -> (r: HrxStatus)
    ensures
        semaphore is None ==> r is Some && is_error(r->0, HrxStatusCode::InvalidArgument, "semaphore is NULL"@),
        semaphore is Some ==> converts(outcome, r),
{
    match semaphore {
        None => Some(status_error(HrxStatusCode::InvalidArgument, "semaphore is NULL")),
        Some(_) => hrx_status_from_iree(outcome),
    }
}

/// `hrx_semaphore_wait`: waits until the semaphore reaches `value`, with the
/// timeout `wait_timeout(timeout_ns)`; `waited` is IREE's outcome of that wait.
pub fn hrx_semaphore_wait(semaphore: Option<&HrxSemaphoreS>, value: u64, timeout_ns: u64, waited: IreeStatus) -> (r:
    HrxStatus)
    ensures
        semaphore is None ==> r is Some && is_error(r->0, HrxStatusCode::InvalidArgument, "semaphore is NULL"@),
        semaphore is Some ==> converts(waited, r),
{
    semaphore_op(semaphore, waited)
}

/// `hrx_semaphore_signal`: signals the semaphore to `value`; `signaled` is
/// IREE's outcome of that signal.
pub fn hrx_semaphore_signal(semaphore: Option<&HrxSemaphoreS>, value: u64, signaled: IreeStatus) -> (r: HrxStatus)
    ensures
        semaphore is None ==> r is Some && is_error(r->0, HrxStatusCode::InvalidArgument, "semaphore is NULL"@),
        semaphore is Some ==> converts(signaled, r),
{
    semaphore_op(semaphore, signaled)
}

/// `hrx_fence_create` / `hrx_fence_create_at`: a fence around the IREE fence
/// created (for `capacity` semaphores, or at a semaphore's value); a missing
/// semaphore is refused by `create_at`.
pub fn hrx_fence_create(created: Result<u64, IreeError>) -> (r: Result<HrxFenceS, HrxStatusS>)
    requires
        created is Ok ==> created->Ok_0 != 0,
    ensures
        match created {
            Err(e) => r is Err && converts(Some(e), Some(r->Err_0)),
            Ok(h) => r is Ok && r->Ok_0.hal.addr() == h,
        },
{
    match created {
        Err(e) => Err(unwrap_error(hrx_status_from_iree(Some(e)))),
        Ok(h) => {
            let f = HalFence::from_owned(h);
            match f {
                Some(f) => Ok(HrxFenceS { hal: f }),
                None => vstd::pervasive::unreached(),
            }
        },
    }
}

pub fn hrx_fence_create_at(semaphore: Option<&HrxSemaphoreS>, created: Result<u64, IreeError>) -> (r: Result<
    HrxFenceS,
    HrxStatusS,
>)
    requires
        created is Ok ==> created->Ok_0 != 0,
    ensures
        semaphore is None ==> r is Err && is_error(
            r->Err_0,
            HrxStatusCode::InvalidArgument,
            "semaphore or fence is NULL"@,
        ),
        semaphore is Some ==> match created {
            Err(e) => r is Err && converts(Some(e), Some(r->Err_0)),
            Ok(h) => r is Ok && r->Ok_0.hal.addr() == h,
        },
{
    if semaphore.is_none() {
        return Err(status_error(HrxStatusCode::InvalidArgument, "semaphore or fence is NULL"));
    }
    hrx_fence_create(created)
}

/// The argument check of the fence operations: the message when a fence (or
/// the inserted semaphore) is missing, else IREE's outcome converted.
fn fence_op(present: bool, missing_msg: &str, outcome: IreeStatus) -> (r: HrxStatus)
    ensures
        !present ==> r is Some && is_error(r->0, HrxStatusCode::InvalidArgument, missing_msg@),
        present ==> converts(outcome, r),
{
    if !present {
        return Some(status_error(HrxStatusCode::InvalidArgument, missing_msg));
    }
    hrx_status_from_iree(outcome)
}

/// `hrx_fence_insert`: "fence or semaphore is NULL" when either is missing.
pub fn hrx_fence_insert(fence: Option<&HrxFenceS>, semaphore: Option<&HrxSemaphoreS>, inserted: IreeStatus) -> (r:
    HrxStatus)
    ensures
        (fence is None || semaphore is None) ==> r is Some && is_error(
            r->0,
            HrxStatusCode::InvalidArgument,
            "fence or semaphore is NULL"@,
        ),
        fence is Some && semaphore is Some ==> converts(inserted, r),
{
    fence_op(fence.is_some() && semaphore.is_some(), "fence or semaphore is NULL", inserted)
}

/// `hrx_fence_extend`: "into_fence or from_fence is NULL" when either is missing.
pub fn hrx_fence_extend(into: Option<&HrxFenceS>, from: Option<&HrxFenceS>, extended: IreeStatus) -> (r: HrxStatus)
    ensures
        (into is None || from is None) ==> r is Some && is_error(
            r->0,
            HrxStatusCode::InvalidArgument,
            "into_fence or from_fence is NULL"@,
        ),
        into is Some && from is Some ==> converts(extended, r),
{
    fence_op(into.is_some() && from.is_some(), "into_fence or from_fence is NULL", extended)
}

/// `hrx_fence_signal`: signals every semaphore of the fence; `signaled` is
/// IREE's outcome.
pub fn hrx_fence_signal(fence: Option<&HrxFenceS>, signaled: IreeStatus) -> (r: HrxStatus)
    ensures
        fence is None ==> r is Some && is_error(r->0, HrxStatusCode::InvalidArgument, "fence is NULL"@),
        fence is Some ==> converts(signaled, r),
{
    fence_op(fence.is_some(), "fence is NULL", signaled)
}

/// `hrx_fence_wait`: waits for every semaphore of the fence, with the timeout
/// `wait_timeout(timeout_ns)`; `waited` is IREE's outcome.
pub fn hrx_fence_wait(fence: Option<&HrxFenceS>, timeout_ns: u64, waited: IreeStatus) -> (r: HrxStatus)
    ensures
        fence is None ==> r is Some && is_error(r->0, HrxStatusCode::InvalidArgument, "fence is NULL"@),
        fence is Some ==> converts(waited, r),
{
    fence_op(fence.is_some(), "fence is NULL", waited)
}

} // verus!
