//! Value lists: the argument and result lists of VM function calls, counted
//! by reference.
use vstd::prelude::*;
use crate::buffer::{unwrap_error, HrxBufferS};
use crate::buffer_view::HrxBufferViewS;
use crate::sync::HrxFenceS;
use crate::status::{HrxStatus, HrxStatusCode, HrxStatusS, IreeError, IreeStatus, converts, hrx_status_from_iree, is_error, status_error};

verus! {

/// An HRX value list: its reference count and its IREE VM list.
#[derive(Clone, Copy, PartialEq, Eq, Structural, Debug)]
pub struct HrxValueListS {
    pub ref_count: i32,
    pub vm_list: u64,
}

/// `hrx_value_list_create`: a list with one reference around the VM list
/// IREE created (for `capacity` values), or IREE's error.
pub fn hrx_value_list_create(created: Result<u64, IreeError>) -> (r: Result<HrxValueListS, HrxStatusS>)
    ensures
        match created {
            Err(e) => r is Err && converts(Some(e), Some(r->Err_0)),
            Ok(h) => r == Ok::<HrxValueListS, HrxStatusS>(HrxValueListS { ref_count: 1, vm_list: h }),
        },
{
    match created {
        Err(e) => Err(unwrap_error(hrx_status_from_iree(Some(e)))),
        Ok(h) => Ok(HrxValueListS { ref_count: 1, vm_list: h }),
    }
}

/// The list after one more reference.
pub open spec fn retained(l: HrxValueListS) -> HrxValueListS {
    HrxValueListS { ref_count: (l.ref_count + 1) as i32, ..l }
}

/// The list after one reference fewer, and whether that was the last one.
pub open spec fn released(l: HrxValueListS) -> (HrxValueListS, bool) {
    (HrxValueListS { ref_count: (l.ref_count - 1) as i32, ..l }, l.ref_count == 1)
}

/// `hrx_value_list_retain`: one more reference (the caller also retains the VM list).
pub fn hrx_value_list_retain(list: &mut HrxValueListS)
    requires
        old(list).ref_count >= 1,
        old(list).ref_count < i32::MAX,
    ensures
        *final(list) == retained(*old(list)),
{
    list.ref_count = list.ref_count + 1;
}

/// `hrx_value_list_release`: one reference fewer (the caller releases one VM
/// list reference every time); the last one frees the list.
pub fn hrx_value_list_release(list: &mut HrxValueListS) -> (freed: bool)
    requires
        old(list).ref_count >= 1,
    ensures
        (*final(list), freed) == released(*old(list)),
{
    let previous = list.ref_count;
    list.ref_count = previous - 1;
    previous == 1
}

/// The checks of the list pushes: `missing_msg` when the list (or the pushed
/// object) is missing, else IREE's outcome of the push converted.
fn value_list_push(list: Option<&HrxValueListS>, operand_present: bool, missing_msg: &str, pushed: IreeStatus) -> (r:
    HrxStatus)
    ensures
        (list is None || !operand_present) ==> r is Some && is_error(
            r->0,
            HrxStatusCode::InvalidArgument,
            missing_msg@,
        ),
        list is Some && operand_present ==> converts(pushed, r),
{
    if list.is_none() || !operand_present {
        return Some(status_error(HrxStatusCode::InvalidArgument, missing_msg));
    }
    hrx_status_from_iree(pushed)
}

/// `hrx_value_list_push_i64`: pushes `value` as an i64 (`pushed` is IREE's
/// outcome of that push).
pub fn hrx_value_list_push_i64(list: Option<&HrxValueListS>, value: i64, pushed: IreeStatus) -> (r: HrxStatus)
    ensures
        list is None ==> r is Some && is_error(r->0, HrxStatusCode::InvalidArgument, "list is NULL"@),
        list is Some ==> converts(pushed, r),
{
    value_list_push(list, true, "list is NULL", pushed)
}

/// `hrx_value_list_push_null_ref`: pushes a null reference.
pub fn hrx_value_list_push_null_ref(list: Option<&HrxValueListS>, pushed: IreeStatus) -> (r: HrxStatus)
    ensures
        list is None ==> r is Some && is_error(r->0, HrxStatusCode::InvalidArgument, "list is NULL"@),
        list is Some ==> converts(pushed, r),
{
    value_list_push(list, true, "list is NULL", pushed)
}

/// `hrx_value_list_push_buffer`: pushes a new reference to the buffer's IREE buffer.
pub fn hrx_value_list_push_buffer(list: Option<&HrxValueListS>, buffer: Option<&HrxBufferS>, pushed: IreeStatus) -> (r:
    HrxStatus)
    ensures
        (list is None || buffer is None) ==> r is Some && is_error(
            r->0,
            HrxStatusCode::InvalidArgument,
            "list or buffer is NULL"@,
        ),
        list is Some && buffer is Some ==> converts(pushed, r),
{
    value_list_push(list, buffer.is_some(), "list or buffer is NULL", pushed)
}

/// `hrx_value_list_push_buffer_view`: pushes a new reference to the view's IREE buffer view.
pub fn hrx_value_list_push_buffer_view(
    list: Option<&HrxValueListS>,
    buffer_view: Option<&HrxBufferViewS>,
    pushed: IreeStatus,
) -> (r: HrxStatus)
    ensures
        (list is None || buffer_view is None) ==> r is Some && is_error(
            r->0,
            HrxStatusCode::InvalidArgument,
            "list or buffer_view is NULL"@,
        ),
        list is Some && buffer_view is Some ==> converts(pushed, r),
{
    value_list_push(list, buffer_view.is_some(), "list or buffer_view is NULL", pushed)
}

/// `hrx_value_list_push_fence`: pushes a new reference to the fence's IREE fence.
pub fn hrx_value_list_push_fence(list: Option<&HrxValueListS>, fence: Option<&HrxFenceS>, pushed: IreeStatus) -> (r:
    HrxStatus)
    ensures
        (list is None || fence is None) ==> r is Some && is_error(
            r->0,
            HrxStatusCode::InvalidArgument,
            "list or fence is NULL"@,
        ),
        list is Some && fence is Some ==> converts(pushed, r),
{
    value_list_push(list, fence.is_some(), "list or fence is NULL", pushed)
}

/// `hrx_value_list_size`: the size IREE reports for the VM list.
pub fn hrx_value_list_size(list: Option<&HrxValueListS>, size: usize) -> (r: Result<usize, HrxStatusS>)
    ensures
        list is None ==> r is Err && is_error(r->Err_0, HrxStatusCode::InvalidArgument, "list or size is NULL"@),
        list is Some ==> r == Ok::<usize, HrxStatusS>(size),
{
    match list {
        None => Err(status_error(HrxStatusCode::InvalidArgument, "list or size is NULL")),
        Some(_) => Ok(size),
    }
}

/// `hrx_value_list_get_i64`: the value IREE read as an i64, or its error.
pub fn hrx_value_list_get_i64(list: Option<&HrxValueListS>, got: Result<i64, IreeError>) -> (r: Result<i64, HrxStatusS>)
    ensures
        list is None ==> r is Err && is_error(r->Err_0, HrxStatusCode::InvalidArgument, "list or value is NULL"@),
        list is Some ==> match got {
            Err(e) => r is Err && converts(Some(e), Some(r->Err_0)),
            Ok(v) => r == Ok::<i64, HrxStatusS>(v),
        },
{
    if list.is_none() {
        return Err(status_error(HrxStatusCode::InvalidArgument, "list or value is NULL"));
    }
    match got {
        Err(e) => Err(unwrap_error(hrx_status_from_iree(Some(e)))),
        Ok(v) => Ok(v),
    }
}

/// A retain followed by a release gives back the list as it was and does
/// not free it.
pub proof fn law_retain_release(l: HrxValueListS)
    requires
        l.ref_count >= 1,
        l.ref_count < i32::MAX,
    ensures
        released(retained(l)) == (l, false),
{
}

/// The list after `k` more references.
pub open spec fn retained_times(l: HrxValueListS, k: nat) -> HrxValueListS
    decreases k,
{
    if k == 0 {
        l
    } else {
        retained(retained_times(l, (k - 1) as nat))
    }
}

/// The list after `k` releases.
pub open spec fn released_times(l: HrxValueListS, k: nat) -> HrxValueListS
    decreases k,
{
    if k == 0 {
        l
    } else {
        released(released_times(l, (k - 1) as nat)).0
    }
}

proof fn lemma_retained_times(l: HrxValueListS, k: nat)
    requires
        l.ref_count >= 0,
        l.ref_count + k <= i32::MAX,
    ensures
        retained_times(l, k) == (HrxValueListS { ref_count: (l.ref_count + k) as i32, ..l }),
    decreases k,
{
    if k > 0 {
        lemma_retained_times(l, (k - 1) as nat);
    }
}

proof fn lemma_released_times(l: HrxValueListS, k: nat)
    requires
        k <= l.ref_count,
    ensures
        released_times(l, k) == (HrxValueListS { ref_count: (l.ref_count - k) as i32, ..l }),
    decreases k,
{
    if k > 0 {
        lemma_released_times(l, (k - 1) as nat);
    }
}

/// A list made with one reference and retained `k` times stays usable
/// through the first `k` releases (each leaves the same VM list and one
/// reference fewer, and frees nothing); the next release frees it.
pub proof fn law_value_list_lifetime(l: HrxValueListS, k: nat)
    requires
        l.ref_count == 1,
        k < i32::MAX,
    ensures
        retained_times(l, k).ref_count == 1 + k,
        forall|i: nat|
            i <= k ==> #[trigger] released_times(retained_times(l, k), i) == (HrxValueListS {
                ref_count: (1 + k - i) as i32,
                ..l
            }),
        forall|i: nat| i < k ==> !(#[trigger] released(released_times(retained_times(l, k), i))).1,
        released(released_times(retained_times(l, k), k)).1,
{
    lemma_retained_times(l, k);
    let m = retained_times(l, k);
    assert forall|i: nat| i <= k implies #[trigger] released_times(m, i) == (HrxValueListS {
        ref_count: (1 + k - i) as i32,
        ..l
    }) by {
        lemma_released_times(m, i);
    }
    assert forall|i: nat| i < k implies !(#[trigger] released(released_times(m, i))).1 by {
        lemma_released_times(m, i);
    }
    lemma_released_times(m, k);
}

} // verus!

verus! {

/// `take8` of the value-list fuzzer: the little-endian `i64` in the 8 bytes
/// from `*i` (missing bytes read as 0); the cursor moves on by 8.
pub open spec fn le_value(data: Seq<u8>, start: int, n: nat) -> nat
    decreases n,
{
    if n == 0 {
        0
    } else {
        le_value(data, start, (n - 1) as nat) + byte_at(data, start + n - 1) as nat * pow256((n - 1) as nat)
    }
}

pub open spec fn byte_at(data: Seq<u8>, i: int) -> u8 {
    if 0 <= i < data.len() {
        data[i]
    } else {
        0
    }
}

pub open spec fn pow256(k: nat) -> nat
    decreases k,
{
    if k == 0 {
        1
    } else {
        256 * pow256((k - 1) as nat)
    }
}

proof fn lemma_le_value_bound(data: Seq<u8>, start: int, n: nat)
    ensures
        le_value(data, start, n) < pow256(n),
    decreases n,
{
    if n > 0 {
        lemma_le_value_bound(data, start, (n - 1) as nat);
        let b = byte_at(data, start + n - 1) as nat;
        let p = pow256((n - 1) as nat);
        assert(le_value(data, start, n) == le_value(data, start, (n - 1) as nat) + b * p);
        assert(b * p <= 255 * p) by (nonlinear_arith)
            requires
                b <= 255,
        ;
    }
}

pub fn take8(data: &[u8], i: &mut usize) -> (r: i64)
    requires
        *old(i) + 8 <= usize::MAX,
    ensures
        *final(i) == *old(i) + 8,
        r == le_value(data@, *old(i) as int, 8) as u64 as i64,
{
    let start = *i;
    let mut v: u64 = 0;
    let mut k: usize = 0;
    let mut p: u64 = 1;
    assert(pow256(8) == 0x1_0000_0000_0000_0000) by {
        reveal_with_fuel(pow256, 9);
    }
    while k < 8
        invariant
            k <= 8,
            start + 8 <= usize::MAX,
            v == le_value(data@, start as int, k as nat),
            k < 8 ==> p == pow256(k as nat),
            k < 8 ==> pow256(k as nat) * 256 <= 0x1_0000_0000_0000_0000,
            v < pow256(k as nat),
            pow256(8) == 0x1_0000_0000_0000_0000,
        decreases 8 - k,
    {
        let b: u8 = if start + k < data.len() {
            data[start + k]
        } else {
            0
        };
        proof {
            lemma_le_value_bound(data@, start as int, (k + 1) as nat);
            assert(b == byte_at(data@, start + k));
            assert(le_value(data@, start as int, (k + 1) as nat) == v + b as nat * p);
            reveal_with_fuel(pow256, 9);
            assert(pow256((k + 1) as nat) <= 0x1_0000_0000_0000_0000);
        }
        v = v + (b as u64) * p;
        k = k + 1;
        if k < 8 {
            p = p * 256;
        }
    }
    *i = start + 8;
    v as i64
}

} // verus!
