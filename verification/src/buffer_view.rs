//! Buffer views: a buffer seen as a shaped, typed array.
use vstd::prelude::*;
use crate::buffer::{unwrap_error, HrxBufferS};
use crate::status::{HrxStatusCode, HrxStatusS, IreeError, converts, hrx_status_from_iree, is_error, status_error};

verus! {

/// An HRX buffer view: the IREE view and the shape, element type and
/// encoding it was made with.
pub struct HrxBufferViewS {
    pub hal: u64,
    pub shape: Vec<u64>,
    pub element_type: u32,
    pub encoding_type: u32,
}

/// The first negative dimension among the first `rank`, if any.
pub open spec fn has_negative_dim(shape: Seq<i64>, rank: nat) -> bool {
    exists|i: int| 0 <= i < rank && #[trigger] shape[i] < 0
}

/// `hrx_buffer_view_create`: refuses a missing buffer, a missing shape for a
/// non-zero rank and negative dimensions; else the view IREE made over the
/// buffer with the first `rank` dimensions of the shape.
pub fn hrx_buffer_view_create(
    buffer: Option<&HrxBufferS>,
    shape_rank: usize,
    shape: Option<&[i64]>,
    element_type: u32,
    encoding_type: u32,
    created: Result<u64, IreeError>,
) -> (r: Result<HrxBufferViewS, HrxStatusS>)
    requires
        shape is Some ==> shape_rank <= shape->0@.len(),
    ensures
        buffer is None ==> r is Err && is_error(
            r->Err_0,
            HrxStatusCode::InvalidArgument,
            "buffer or buffer_view is NULL"@,
        ),
        buffer is Some && shape_rank > 0 && shape is None ==> r is Err && is_error(
            r->Err_0,
            HrxStatusCode::InvalidArgument,
            "shape is NULL for non-zero rank"@,
        ),
        buffer is Some && shape is Some && has_negative_dim(shape->0@, shape_rank as nat) ==> r is Err
            && is_error(r->Err_0, HrxStatusCode::InvalidArgument, "shape dimensions must be non-negative"@),
        buffer is Some && (shape_rank == 0 || shape is Some) && !(shape is Some && has_negative_dim(
            shape->0@,
            shape_rank as nat,
        )) ==> match created {
            Err(e) => r is Err && converts(Some(e), Some(r->Err_0)),
            Ok(h) => r is Ok && r->Ok_0.hal == h && r->Ok_0.shape@.len() == shape_rank && (forall|i: int|
                0 <= i < shape_rank ==> r->Ok_0.shape@[i] == shape->0@[i] as u64) && r->Ok_0.element_type
                == element_type && r->Ok_0.encoding_type == encoding_type,
        },
{
    if buffer.is_none() {
        return Err(status_error(HrxStatusCode::InvalidArgument, "buffer or buffer_view is NULL"));
    }
    let mut dims: Vec<u64> = Vec::new();
    if shape_rank > 0 {
        let s = match shape {
            Some(s) => s,
            None => return Err(status_error(HrxStatusCode::InvalidArgument, "shape is NULL for non-zero rank")),
        };
        let mut i: usize = 0;
        while i < shape_rank
            invariant
                buffer is Some,
                shape == Some(s),
                shape_rank <= s@.len(),
                i <= shape_rank,
                dims@.len() == i,
                forall|k: int| 0 <= k < i ==> #[trigger] s@[k] >= 0,
                forall|k: int| 0 <= k < i ==> #[trigger] dims@[k] == s@[k] as u64,
            decreases shape_rank - i,
        {
            let dim = s[i];
            if dim < 0 {
                return Err(status_error(HrxStatusCode::InvalidArgument, "shape dimensions must be non-negative"));
            }
            let ghost before = dims@;
            dims.push(dim as u64);
            proof {
                assert(dims@ == before.push(dim as u64));
                assert forall|k: int| 0 <= k < i + 1 implies s@[k] >= 0 && dims@[k] == s@[k] as u64 by {
                    if k < i {
                        assert(dims@[k] == before[k]);
                    } else {
                        assert(s@[k] == dim);
                    }
                }
            }
            i = i + 1;
        }
        assert(!has_negative_dim(s@, shape_rank as nat)) by {
            assert forall|k: int| 0 <= k < shape_rank implies !(#[trigger] s@[k] < 0) by {
                assert(s@[k] >= 0);
            }
        }
    }
    match created {
        Err(e) => Err(unwrap_error(hrx_status_from_iree(Some(e)))),
        Ok(h) => Ok(HrxBufferViewS { hal: h, shape: dims, element_type, encoding_type }),
    }
}

/// `hrx_buffer_view_rank`: the number of dimensions.
pub fn hrx_buffer_view_rank(view: Option<&HrxBufferViewS>) -> (r: Result<usize, HrxStatusS>)
    ensures
        view is None ==> r is Err && is_error(
            r->Err_0,
            HrxStatusCode::InvalidArgument,
            "buffer_view or rank is NULL"@,
        ),
        view is Some ==> r == Ok::<usize, HrxStatusS>(view->0.shape@.len() as usize),
{
    match view {
        None => Err(status_error(HrxStatusCode::InvalidArgument, "buffer_view or rank is NULL")),
        Some(v) => Ok(v.shape.len()),
    }
}

/// `hrx_buffer_view_dim`: the size of dimension `dim`; a dimension past the
/// rank is out of range.
pub fn hrx_buffer_view_dim(view: Option<&HrxBufferViewS>, dim: usize) -> (r: Result<i64, HrxStatusS>)
    ensures
        view is None ==> r is Err && is_error(
            r->Err_0,
            HrxStatusCode::InvalidArgument,
            "buffer_view or value is NULL"@,
        ),
        view is Some && dim >= view->0.shape@.len() ==> r is Err && is_error(
            r->Err_0,
            HrxStatusCode::OutOfRange,
            "buffer_view dim out of range"@,
        ),
        view is Some && dim < view->0.shape@.len() ==> r == Ok::<i64, HrxStatusS>(
            view->0.shape@[dim as int] as i64,
        ),
{
    let v = match view {
        None => return Err(status_error(HrxStatusCode::InvalidArgument, "buffer_view or value is NULL")),
        Some(v) => v,
    };
    if dim >= v.shape.len() {
        return Err(status_error(HrxStatusCode::OutOfRange, "buffer_view dim out of range"));
    }
    #[verifier::truncate]
    let d = v.shape[dim] as i64;
    Ok(d)
}

/// A view reports the shape it was made with: its rank, and each dimension.
pub proof fn law_view_reports_shape(view: HrxBufferViewS, shape: Seq<i64>, rank: nat)
    requires
        rank <= shape.len(),
        !has_negative_dim(shape, rank),
        view.shape@.len() == rank,
        forall|i: int| 0 <= i < rank ==> view.shape@[i] == shape[i] as u64,
    ensures
        forall|i: int| 0 <= i < rank ==> view.shape@[i] as i64 == shape[i],
{
    assert forall|i: int| 0 <= i < rank implies view.shape@[i] as i64 == shape[i] by {
        assert(shape[i] >= 0);
    }
}

} // verus!
