//! The exact pool behind stream-ordered allocation: each reservation is one
//! buffer allocated for exactly the requested size with the pool's parameters.
use vstd::prelude::*;
use crate::iree::iree_hal_buffer_params_t;

verus! {

/// `IREE_STATUS_INVALID_ARGUMENT` / `IREE_STATUS_FAILED_PRECONDITION`.
pub const IREE_STATUS_INVALID_ARGUMENT: i32 = 3;

pub const IREE_STATUS_FAILED_PRECONDITION: i32 = 9;

/// `IREE_HAL_POOL_ACQUIRE_OK_FRESH`.
pub const IREE_HAL_POOL_ACQUIRE_OK_FRESH: u32 = 1;

/// `IREE_HAL_POOL_MATERIALIZE_FLAG_TRANSFER_RESERVATION_OWNERSHIP`.
pub const MATERIALIZE_TRANSFER_OWNERSHIP: u32 = 1;

/// `params_match`: two parameter sets agree on type, access, usage, affinity
/// and alignment.
pub fn params_match(lhs: &iree_hal_buffer_params_t, rhs: &iree_hal_buffer_params_t) -> (r: bool)
    ensures
        r == (*lhs == *rhs),
{
    lhs.type_ == rhs.type_ && lhs.access == rhs.access && lhs.usage == rhs.usage && lhs.queue_affinity
        == rhs.queue_affinity && lhs.min_alignment == rhs.min_alignment
}

/// `iree_hal_pool_reservation_t`: the reserved range and the buffer behind it.
#[derive(Clone, Copy, PartialEq, Eq, Structural, Debug)]
pub struct PoolReservation {
    pub offset: u64,
    pub length: u64,
    pub block_handle: u64,
    pub slab_index: u16,
}

pub open spec fn acquire_spec(size: u64, allocated: Result<(u64, u64), i32>) -> Result<(PoolReservation, u32), i32> {
    if size == 0 {
        Err(IREE_STATUS_INVALID_ARGUMENT)
    } else {
        match allocated {
            Err(code) => Err(code),
            Ok((buffer, length)) => Ok(
                (
                    PoolReservation { offset: 0, length, block_handle: buffer, slab_index: 0 },
                    IREE_HAL_POOL_ACQUIRE_OK_FRESH,
                ),
            ),
        }
    }
}

pub open spec fn materialize_spec(
    pool_params: iree_hal_buffer_params_t,
    params: iree_hal_buffer_params_t,
    reservation: PoolReservation,
    flags: u32,
) -> Result<(u64, bool), i32> {
    if pool_params != params || reservation.block_handle == 0 {
        Err(IREE_STATUS_INVALID_ARGUMENT)
    } else {
        Ok((reservation.block_handle, flags & MATERIALIZE_TRANSFER_OWNERSHIP == 0))
    }
}

/// `pool_acquire_reservation`: an empty request is an invalid argument;
/// otherwise the buffer the allocator made for exactly `size` bytes (and
/// its byte length) is the reservation, handed out fresh. An allocation
/// error is passed on as is.
pub fn pool_acquire_reservation(size: u64, allocated: Result<(u64, u64), i32>) -> (r: Result<
    (PoolReservation, u32),
    i32,
>)
    ensures
        r == acquire_spec(size, allocated),
{
    if size == 0 {
        return Err(IREE_STATUS_INVALID_ARGUMENT);
    }
    match allocated {
        Err(code) => Err(code),
        Ok((buffer, length)) => Ok(
            (
                PoolReservation { offset: 0, length, block_handle: buffer, slab_index: 0 },
                IREE_HAL_POOL_ACQUIRE_OK_FRESH,
            ),
        ),
    }
}

/// `pool_release_reservation`: the buffer to release (and the pool's
/// notification to signal), if the reservation holds one.
pub fn pool_release_reservation(reservation: &PoolReservation) -> (r: Option<u64>)
    ensures
        reservation.block_handle == 0 ==> r is None,
        reservation.block_handle != 0 ==> r == Some(reservation.block_handle),
{
    if reservation.block_handle == 0 {
        None
    } else {
        Some(reservation.block_handle)
    }
}

/// `pool_materialize_reservation`: the reservation's buffer, for the pool's
/// own parameters only; the result says whether the caller takes a new
/// reference (it does unless ownership of the reservation is transferred).
pub fn pool_materialize_reservation(
    pool_params: &iree_hal_buffer_params_t,
    params: &iree_hal_buffer_params_t,
    reservation: &PoolReservation,
    flags: u32,
) -> (r: Result<(u64, bool), i32>)
    ensures
        r == materialize_spec(*pool_params, *params, *reservation, flags),
{
    if !params_match(pool_params, params) {
        return Err(IREE_STATUS_INVALID_ARGUMENT);
    }
    if reservation.block_handle == 0 {
        return Err(IREE_STATUS_INVALID_ARGUMENT);
    }
    Ok((reservation.block_handle, flags & MATERIALIZE_TRANSFER_OWNERSHIP == 0))
}

/// `iree_hal_pool_capabilities_t`.
#[derive(Clone, Copy, PartialEq, Eq, Structural, Debug)]
pub struct PoolCapabilities {
    pub memory_type: u32,
    pub supported_usage: u32,
    pub min_allocation_size: u64,
    pub max_allocation_size: u64,
}

/// `pool_query_capabilities`: the pool's memory type and usage, no size limits.
pub fn pool_query_capabilities(pool_params: &iree_hal_buffer_params_t) -> (r: PoolCapabilities)
    ensures
        r == (PoolCapabilities {
            memory_type: pool_params.type_,
            supported_usage: pool_params.usage,
            min_allocation_size: 0,
            max_allocation_size: 0,
        }),
{
    PoolCapabilities {
        memory_type: pool_params.type_,
        supported_usage: pool_params.usage,
        min_allocation_size: 0,
        max_allocation_size: 0,
    }
}

/// `hrx_iree_exact_pool_create`'s precondition on the runtime: without a
/// proactor pool (the shared state not initialised) there is no pool.
pub fn exact_pool_precondition(proactor_pool: u64) -> (r: Result<(), i32>)
    ensures
        proactor_pool == 0 ==> r == Err::<(), i32>(IREE_STATUS_FAILED_PRECONDITION),
        proactor_pool != 0 ==> r is Ok,
{
    if proactor_pool == 0 {
        Err(IREE_STATUS_FAILED_PRECONDITION)
    } else {
        Ok(())
    }
}

/// A reservation materialized with the pool's own parameters gives back the
/// buffer the allocator made for it; the caller takes a reference unless it
/// takes over the reservation.
pub proof fn law_acquire_then_materialize(
    size: u64,
    buffer: u64,
    length: u64,
    params: iree_hal_buffer_params_t,
    flags: u32,
)
    requires
        size != 0,
        buffer != 0,
    ensures
        acquire_spec(size, Ok((buffer, length))) is Ok,
        materialize_spec(params, params, acquire_spec(size, Ok((buffer, length)))->Ok_0.0, flags) == Ok::<
            (u64, bool),
            i32,
        >((buffer, flags & MATERIALIZE_TRANSFER_OWNERSHIP == 0)),
{
}

} // verus!
