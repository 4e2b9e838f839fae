//! HRX streams: a timeline semaphore and a lazily created one-shot command
//! buffer that recorded operations accumulate in until the stream is flushed.
use vstd::prelude::*;
use crate::buffer::{fresh_buffer, unwrap_error, HrxBufferS, IREE_HAL_BUFFER_USAGE_DEFAULT};
use crate::iree::{iree_hal_buffer_params_t, iree_hal_semaphore_list_t, IREE_HAL_MEMORY_ACCESS_ALL};
use crate::status::{
    HrxStatus, HrxStatusCode, HrxStatusS, IreeError, IreeStatus, converts, hrx_status_from_iree, is_error,
    status_error,
};
use crate::sync::HrxSemaphoreS;
use crate::queue::{
    binding_missing, buffer_range, constants_bytes, dispatch_invalid, dispatch_made, dispatch_request, DispatchRequest, HrxBufferRef,
    HrxDispatchConfig, IreeBufferRef,
};

verus! {

/// An HRX stream.
#[derive(Clone, Copy, PartialEq, Eq, Structural, Debug)]
pub struct HrxStreamS {
    /// The last value submitted work signals on the stream's semaphore.
    pub timepoint: u64,
    /// The command buffer being recorded (0 when there is none).
    pub pending_cb: u64,
    pub has_pending_work: bool,
    pub flags: u32,
    pub semaphore: HrxSemaphoreS,
    /// The device the stream holds a reference to.
    pub device: u64,
}

/// `hrx_timeline_point_t`: a semaphore and a value on it.
#[derive(Clone, Copy, PartialEq, Eq, Structural, Debug)]
pub struct HrxTimelinePoint {
    pub semaphore: Option<HrxSemaphoreS>,
    pub value: u64,
}

/// `hrx_stream_create`: a stream on `device` with a fresh timeline semaphore
/// at 0, no timepoint and nothing recorded.
pub fn hrx_stream_create(device: Option<u64>, flags: u32, semaphore: Result<HrxSemaphoreS, HrxStatusS>) -> (r: Result<
    HrxStreamS,
    HrxStatusS,
>)
    ensures
        device is None ==> r is Err && is_error(r->Err_0, HrxStatusCode::InvalidArgument, "device or stream is NULL"@),
        device is Some && semaphore is Err ==> r == Err::<HrxStreamS, HrxStatusS>(semaphore->Err_0),
        device is Some && semaphore is Ok ==> r == Ok::<HrxStreamS, HrxStatusS>(
            HrxStreamS {
                timepoint: 0,
                pending_cb: 0,
                has_pending_work: false,
                flags,
                semaphore: semaphore->Ok_0,
                device: device->0,
            },
        ),
{
    let d = match device {
        Some(d) => d,
        None => return Err(status_error(HrxStatusCode::InvalidArgument, "device or stream is NULL")),
    };
    match semaphore {
        Err(e) => Err(e),
        Ok(s) => Ok(
            HrxStreamS { timepoint: 0, pending_cb: 0, has_pending_work: false, flags, semaphore: s, device: d },
        ),
    }
}

/// What a flush submits: the command buffer, a wait on the stream's last
/// timepoint (none before the first submission) and a signal of the next one.
pub struct Submission {
    pub command_buffer: u64,
    pub wait: iree_hal_semaphore_list_t,
    pub signal: iree_hal_semaphore_list_t,
}

/// The list with the one semaphore at `value`.
pub open spec fn one_semaphore(l: iree_hal_semaphore_list_t, sem: u64, value: u64) -> bool {
    l.count == 1 && l.semaphores@ == seq![sem] && l.payload_values@ == seq![value]
}

fn single_list(sem: u64, value: u64) -> (r: iree_hal_semaphore_list_t)
    ensures
        one_semaphore(r, sem, value),
{
    let mut s: Vec<u64> = Vec::new();
    s.push(sem);
    let mut v: Vec<u64> = Vec::new();
    v.push(value);
    assert(s@ =~= seq![sem]);
    assert(v@ =~= seq![value]);
    iree_hal_semaphore_list_t { count: 1, semaphores: s, payload_values: v }
}

/// The wait on the stream's last timepoint: one entry when there is a
/// timepoint, none before the first submission.
pub open spec fn timeline_wait(l: iree_hal_semaphore_list_t, sem: u64, timepoint: u64) -> bool {
    if timepoint > 0 {
        one_semaphore(l, sem, timepoint)
    } else {
        l.count == 0
    }
}

fn timeline_wait_list(sem: u64, timepoint: u64) -> (r: iree_hal_semaphore_list_t)
    ensures
        timeline_wait(r, sem, timepoint),
        r.semaphores@ == seq![sem],
        r.payload_values@ == seq![timepoint],
{
    let mut l = single_list(sem, timepoint);
    if timepoint == 0 {
        l.count = 0;
    }
    l
}

impl HrxStreamS {
    /// The stream with its next timepoint reserved; nothing else changes.
    pub open spec fn advanced(self) -> HrxStreamS {
        HrxStreamS { timepoint: (self.timepoint + 1) as u64, ..self }
    }

    /// The stream's position on its timeline: its semaphore and timepoint.
    pub open spec fn position(self) -> HrxTimelinePoint {
        HrxTimelinePoint { semaphore: Some(self.semaphore), value: self.timepoint }
    }

    /// The stream after a successful flush (or unchanged when there was
    /// nothing to flush).
    pub open spec fn flushed(self) -> HrxStreamS {
        if !self.has_pending_work || self.pending_cb == 0 {
            self
        } else {
            HrxStreamS {
                timepoint: (self.timepoint + 1) as u64,
                pending_cb: 0,
                has_pending_work: false,
                ..self
            }
        }
    }

    /// Whether a flush submits anything.
    pub open spec fn needs_flush(self) -> bool {
        self.has_pending_work && self.pending_cb != 0
    }

    /// The submission a flush makes.
    pub fn flush_submission(&self) -> (r: Option<Submission>)
        requires
            self.timepoint < u64::MAX,
        ensures
            r is None <==> !self.needs_flush(),
            r matches Some(s) ==> s.command_buffer == self.pending_cb && timeline_wait(
                s.wait,
                self.semaphore.hal,
                self.timepoint,
            ) && one_semaphore(s.signal, self.semaphore.hal, (self.timepoint + 1) as u64),
    {
        if !self.has_pending_work || self.pending_cb == 0 {
            return None;
        }
        Some(
            Submission {
                command_buffer: self.pending_cb,
                wait: timeline_wait_list(self.semaphore.hal, self.timepoint),
                signal: single_list(self.semaphore.hal, self.timepoint + 1),
            },
        )
    }

    /// `flush_inner`: ends the pending command buffer and submits it (with
    /// `flush_submission`); on success the timeline advances by one and the
    /// stream has nothing pending (the caller releases the submitted command
    /// buffer). A failure to end or to submit is returned with the stream
    /// unchanged. Nothing pending: nothing happens.
    pub fn flush_inner(&mut self, ended: IreeStatus, executed: IreeStatus) -> (r: HrxStatus)
        requires
            old(self).timepoint < u64::MAX,
        ensures
            !old(self).needs_flush() ==> r is None && *final(self) == *old(self),
            old(self).needs_flush() && ended is Some ==> converts(ended, r) && *final(self) == *old(self),
            old(self).needs_flush() && ended is None && executed is Some ==> converts(executed, r) && *final(self)
                == *old(self),
            old(self).needs_flush() && ended is None && executed is None ==> r is None && *final(self) == old(self).flushed(),
    {
        if !self.has_pending_work || self.pending_cb == 0 {
            return None;
        }
        if ended.is_some() {
            return hrx_status_from_iree(ended);
        }
        if executed.is_some() {
            return hrx_status_from_iree(executed);
        }
        self.timepoint = self.timepoint + 1;
        self.pending_cb = 0;
        self.has_pending_work = false;
        None
    }

    /// Makes sure a command buffer is being recorded: keeps the current one,
    /// else installs the one IREE created and began (a failure of either is
    /// returned; the caller releases a created buffer that failed to begin).
    pub fn begin_cb(&mut self, created: Result<u64, IreeError>, begun: IreeStatus) -> (r: HrxStatus)
        requires
            created is Ok ==> created->Ok_0 != 0,
        ensures
            old(self).pending_cb != 0 ==> r is None && *final(self) == *old(self),
            old(self).pending_cb == 0 ==> match created {
                Err(e) => converts(Some(e), r) && *final(self) == *old(self),
                Ok(cb) => if begun is Some {
                    converts(begun, r) && *final(self) == *old(self)
                } else {
                    r is None && *final(self) == (HrxStreamS { pending_cb: cb, ..*old(self) })
                },
            },
    {
        if self.pending_cb != 0 {
            return None;
        }
        match created {
            Err(e) => hrx_status_from_iree(Some(e)),
            Ok(cb) => {
                if begun.is_some() {
                    return hrx_status_from_iree(begun);
                }
                self.pending_cb = cb;
                None
            },
        }
    }

    /// Whether `begin_cb` leaves a command buffer ready to record into.
    pub open spec fn cb_ready(self, created: Result<u64, IreeError>, begun: IreeStatus) -> bool {
        self.pending_cb != 0 || (created is Ok && begun is None)
    }

    /// The stream once `begin_cb` succeeded.
    pub open spec fn with_cb(self, created: Result<u64, IreeError>) -> HrxStreamS {
        if self.pending_cb != 0 {
            self
        } else {
            HrxStreamS { pending_cb: created->Ok_0, ..self }
        }
    }

    /// After an operation was recorded into the ready command buffer: the
    /// ordering barrier's outcome follows the operation's; on success the
    /// stream has pending work.
    fn after_record(&mut self, recorded: IreeStatus, barrier: IreeStatus) -> (r: HrxStatus)
        ensures
            recorded is Some ==> converts(recorded, r) && *final(self) == *old(self),
            recorded is None && barrier is Some ==> converts(barrier, r) && *final(self) == *old(self),
            recorded is None && barrier is None ==> r is None && *final(self) == (HrxStreamS {
                has_pending_work: true,
                ..*old(self)
            }),
    {
        if recorded.is_some() {
            return hrx_status_from_iree(recorded);
        }
        if barrier.is_some() {
            return hrx_status_from_iree(barrier);
        }
        self.has_pending_work = true;
        None
    }

    /// The stream after recording one operation, and the IREE failure (if
    /// any) that stopped it: a command buffer is made ready (`begin_cb`),
    /// the operation is recorded, then (unless it is itself a barrier) an
    /// ordering barrier; the first failure stops the rest, and on success the
    /// stream has pending work.
    pub open spec fn record_spec(
        self,
        created: Result<u64, IreeError>,
        begun: IreeStatus,
        recorded: IreeStatus,
        barrier: IreeStatus,
    ) -> (HrxStreamS, IreeStatus) {
        if self.pending_cb == 0 && created is Err {
            (self, Some(created->Err_0))
        } else if self.pending_cb == 0 && begun is Some {
            (self, begun)
        } else {
            let s1 = if self.pending_cb != 0 {
                self
            } else {
                HrxStreamS { pending_cb: created->Ok_0, ..self }
            };
            if recorded is Some {
                (s1, recorded)
            } else if barrier is Some {
                (s1, barrier)
            } else {
                (HrxStreamS { has_pending_work: true, ..s1 }, None)
            }
        }
    }

    /// The wait `hrx_stream_wait` makes: on the stream's semaphore at its
    /// timepoint, forever; none before the first submission.
    pub fn wait_target(&self) -> (r: Option<(u64, u64)>)
        ensures
            self.timepoint == 0 ==> r is None,
            self.timepoint != 0 ==> r == Some((self.semaphore.hal, self.timepoint)),
    {
        if self.timepoint == 0 {
            None
        } else {
            Some((self.semaphore.hal, self.timepoint))
        }
    }

    /// What the last release of a stream does: flushes pending work (its
    /// outcome is dropped), then waits for the timepoint (if any) and releases a
    /// command buffer left over from a failed flush.
    pub fn teardown(&mut self, ended: IreeStatus, executed: IreeStatus) -> (r: (Option<(u64, u64)>, u64))
        requires
            old(self).timepoint < u64::MAX,
        ensures
            ({
                let s1 = if old(self).needs_flush() && ended is None && executed is None {
                    old(self).flushed()
                } else {
                    *old(self)
                };
                &&& *final(self) == s1
                &&& r.0 == (if s1.timepoint > 0 {
                    Some((s1.semaphore.hal, s1.timepoint))
                } else {
                    None
                })
                &&& r.1 == s1.pending_cb
            }),
    {
        if self.has_pending_work {
            let _ = self.flush_inner(ended, executed);
        }
        let w = self.wait_target();
        (w, self.pending_cb)
    }
}

/// `hrx_stream_advance_timeline`: reserves the next timepoint and returns it.
pub fn hrx_stream_advance_timeline(stream: Option<&mut HrxStreamS>) -> (r: Result<u64, HrxStatusS>)
    requires
        stream is Some ==> stream->0.timepoint < u64::MAX,
    ensures
        stream is None ==> r is Err && is_error(r->Err_0, HrxStatusCode::InvalidArgument, "stream or value is NULL"@),
        stream is Some ==> r == Ok::<u64, HrxStatusS>((stream->0.timepoint + 1) as u64) && *final(stream->0)
            == stream->0.advanced(),
{
    match stream {
        None => Err(status_error(HrxStatusCode::InvalidArgument, "stream or value is NULL")),
        Some(s) => {
            s.timepoint = s.timepoint + 1;
            Ok(s.timepoint)
        },
    }
}

/// `hrx_stream_get_timeline_position`: the stream's semaphore and timepoint.
pub fn hrx_stream_get_timeline_position(stream: Option<&HrxStreamS>) -> (r: Result<HrxTimelinePoint, HrxStatusS>)
    ensures
        stream is None ==> r is Err && is_error(
            r->Err_0,
            HrxStatusCode::InvalidArgument,
            "stream or position is NULL"@,
        ),
        stream is Some ==> r == Ok::<HrxTimelinePoint, HrxStatusS>(stream->0.position()),
{
    match stream {
        None => Err(status_error(HrxStatusCode::InvalidArgument, "stream or position is NULL")),
        Some(s) => Ok(HrxTimelinePoint { semaphore: Some(s.semaphore), value: s.timepoint }),
    }
}

/// `hrx_stream_flush`.
pub fn hrx_stream_flush(stream: Option<&mut HrxStreamS>, ended: IreeStatus, executed: IreeStatus) -> (r: HrxStatus)
    requires
        stream is Some ==> stream->0.timepoint < u64::MAX,
    ensures
        stream is None ==> r is Some && is_error(r->0, HrxStatusCode::InvalidArgument, "stream is NULL"@),
        stream is Some ==> {
            let s = *stream->0;
            &&& !s.needs_flush() ==> r is None && *final(stream->0) == s
            &&& s.needs_flush() && ended is Some ==> converts(ended, r) && *final(stream->0) == s
            &&& s.needs_flush() && ended is None && executed is Some ==> converts(executed, r) && *final(stream->0) == s
            &&& s.needs_flush() && ended is None && executed is None ==> r is None && *final(stream->0)
                == s.flushed()
        },
{
    match stream {
        None => Some(status_error(HrxStatusCode::InvalidArgument, "stream is NULL")),
        Some(s) => s.flush_inner(ended, executed),
    }
}

/// `hrx_stream_wait`: nothing to wait for before the first submission, else
/// the outcome of the wait on the stream's timepoint.
pub fn hrx_stream_wait(stream: Option<&HrxStreamS>, waited: IreeStatus) -> (r: HrxStatus)
    ensures
        stream is None ==> r is Some && is_error(r->0, HrxStatusCode::InvalidArgument, "stream is NULL"@),
        stream is Some && stream->0.timepoint == 0 ==> r is None,
        stream is Some && stream->0.timepoint != 0 ==> converts(waited, r),
{
    match stream {
        None => Some(status_error(HrxStatusCode::InvalidArgument, "stream is NULL")),
        Some(s) => if s.timepoint == 0 {
            None
        } else {
            hrx_status_from_iree(waited)
        },
    }
}

/// `hrx_stream_query`: complete before the first submission, else complete
/// when the semaphore's value (as IREE reported it) reached the timepoint.
pub fn hrx_stream_query(stream: Option<&HrxStreamS>, current: Result<u64, IreeError>) -> (r: Result<bool, HrxStatusS>)
    ensures
        stream is None ==> r is Err && is_error(
            r->Err_0,
            HrxStatusCode::InvalidArgument,
            "stream or complete is NULL"@,
        ),
        stream is Some && stream->0.timepoint == 0 ==> r == Ok::<bool, HrxStatusS>(true),
        stream is Some && stream->0.timepoint != 0 ==> match current {
            Err(e) => r is Err && converts(Some(e), Some(r->Err_0)),
            Ok(v) => r == Ok::<bool, HrxStatusS>(v >= stream->0.timepoint),
        },
{
    let s = match stream {
        Some(s) => s,
        None => return Err(status_error(HrxStatusCode::InvalidArgument, "stream or complete is NULL")),
    };
    if s.timepoint == 0 {
        return Ok(true);
    }
    match current {
        Err(e) => Err(unwrap_error(hrx_status_from_iree(Some(e)))),
        Ok(v) => Ok(v >= s.timepoint),
    }
}

/// The barrier `hrx_stream_wait_on` submits after flushing: wait for the
/// position, signal the stream's next timepoint.
pub fn wait_on_barrier(stream: &HrxStreamS, position_sem: u64, position_value: u64) -> (r: (
    iree_hal_semaphore_list_t,
    iree_hal_semaphore_list_t,
))
    requires
        stream.timepoint < u64::MAX,
    ensures
        one_semaphore(r.0, position_sem, position_value),
        one_semaphore(r.1, stream.semaphore.hal, (stream.timepoint + 1) as u64),
{
    (single_list(position_sem, position_value), single_list(stream.semaphore.hal, stream.timepoint + 1))
}

/// `hrx_stream_wait_on`: a missing position semaphore is refused; the stream
/// is flushed (its failure returned), then the barrier is submitted and on
/// success the timeline advances by one.
pub fn hrx_stream_wait_on(
    stream: Option<&mut HrxStreamS>,
    position: HrxTimelinePoint,
    ended: IreeStatus,
    executed: IreeStatus,
    barrier: IreeStatus,
) -> (r: HrxStatus)
    requires
        stream is Some ==> stream->0.timepoint < u64::MAX - 1,
    ensures
        stream is None ==> r is Some && is_error(r->0, HrxStatusCode::InvalidArgument, "stream is NULL"@),
        stream is Some && position.semaphore is None ==> r is Some && is_error(
            r->0,
            HrxStatusCode::InvalidArgument,
            "position semaphore is NULL"@,
        ) && *final(stream->0) == *stream->0,
        stream is Some && position.semaphore is Some ==> {
            let s = *stream->0;
            let flush_failed = s.needs_flush() && (ended is Some || executed is Some);
            let s1 = if s.needs_flush() {
                s.flushed()
            } else {
                s
            };
            &&& flush_failed && ended is Some ==> converts(ended, r) && *final(stream->0) == s
            &&& flush_failed && ended is None ==> converts(executed, r) && *final(stream->0) == s
            &&& !flush_failed && barrier is Some ==> converts(barrier, r) && *final(stream->0) == s1
            &&& !flush_failed && barrier is None ==> r is None && *final(stream->0) == (HrxStreamS {
                timepoint: (s1.timepoint + 1) as u64,
                ..s1
            })
        },
{
    let s = match stream {
        Some(s) => s,
        None => return Some(status_error(HrxStatusCode::InvalidArgument, "stream is NULL")),
    };
    if position.semaphore.is_none() {
        return Some(status_error(HrxStatusCode::InvalidArgument, "position semaphore is NULL"));
    }
    let f = s.flush_inner(ended, executed);
    if f.is_some() {
        return f;
    }
    if barrier.is_some() {
        return hrx_status_from_iree(barrier);
    }
    s.timepoint = s.timepoint + 1;
    None
}

/// Flushing twice submits once: the second flush has nothing to do.
pub proof fn law_flush_idempotent(s: HrxStreamS)
    requires
        s.timepoint < u64::MAX,
    ensures
        !s.flushed().needs_flush(),
        s.flushed().flushed() == s.flushed(),
        s.needs_flush() ==> s.flushed().timepoint == s.timepoint + 1,
        !s.needs_flush() ==> s.flushed() == s,
{
}

/// Advancing the timeline reserves the timepoint after the current one: the
/// stream's position is then its own semaphore at that value, and nothing
/// else about the stream (pending work, command buffer) changes.
pub proof fn law_advance_then_position(s: HrxStreamS)
    requires
        s.timepoint < u64::MAX,
    ensures
        s.advanced().position() == (HrxTimelinePoint { semaphore: Some(s.semaphore), value: (s.timepoint + 1) as u64 }),
        s.advanced().timepoint == s.timepoint + 1,
        s.advanced().pending_cb == s.pending_cb,
        s.advanced().has_pending_work == s.has_pending_work,
        s.advanced().semaphore == s.semaphore,
        s.advanced().device == s.device,
{
}

/// Once the semaphore has reached the timepoint a successful flush signals,
/// a query reports the stream complete.
pub proof fn law_flush_then_query(s: HrxStreamS, current: u64)
    requires
        s.timepoint < u64::MAX,
        s.needs_flush(),
        current >= s.timepoint + 1,
    ensures
        s.flushed().timepoint != 0,
        current >= s.flushed().timepoint,
{
}

/// `hrx_buffer_allocate`'s checks before the queue allocation: a missing
/// stream or a zero size is refused, as are parameters the device's allocator
/// does not report as allocatable.
pub open spec fn allocate_check(stream_present: bool, size: usize, compatibility: u32) -> Option<Seq<char>> {
    if !stream_present {
        Some("stream or buffer is NULL"@)
    } else if size == 0 {
        Some("allocation size must be > 0"@)
    } else if compatibility & 1 == 0 {
        Some("buffer params are not allocatable on this device"@)
    } else {
        None
    }
}

/// Whether the allocator can allocate is read from the ALLOCATABLE bit (bit
/// 0) of its compatibility answer alone: answers with the same bit 0 are
/// checked alike, an answer with it set passes for a present stream and a
/// non-zero size, and one with it clear is refused as not allocatable.
pub proof fn law_allocatable_bit(stream_present: bool, size: usize, c1: u32, c2: u32)
    ensures
        c1 % 2 == c2 % 2 ==> allocate_check(stream_present, size, c1) == allocate_check(stream_present, size, c2),
        stream_present && size > 0 && c1 % 2 == 1 ==> allocate_check(stream_present, size, c1) is None,
        stream_present && size > 0 && c1 % 2 == 0 ==> allocate_check(stream_present, size, c1) == Some(
            "buffer params are not allocatable on this device"@,
        ),
{
    assert(c1 & 1 == 0 <==> c1 % 2 == 0) by (bit_vector);
    assert(c2 & 1 == 0 <==> c2 % 2 == 0) by (bit_vector);
}

/// The parameters `hrx_buffer_allocate` asks the allocator about: the
/// requested usage and memory type with all access on any queue.
pub fn allocate_query_params(mem_type: u32, usage: u32) -> (r: iree_hal_buffer_params_t)
    ensures
        r == (iree_hal_buffer_params_t {
            usage,
            access: IREE_HAL_MEMORY_ACCESS_ALL,
            type_: mem_type,
            queue_affinity: 0,
            min_alignment: 0,
        }),
{
    iree_hal_buffer_params_t {
        usage,
        access: IREE_HAL_MEMORY_ACCESS_ALL,
        type_: mem_type,
        queue_affinity: 0,
        min_alignment: 0,
    }
}

/// The queue allocation `hrx_buffer_allocate` submits: it waits for the
/// stream's timepoint (none before the first submission), signals the next
/// one, allocates `size` bytes, and is then waited for on the host at that
/// next timepoint of the stream's semaphore.
pub struct AllocaRequest {
    pub wait: iree_hal_semaphore_list_t,
    pub signal: iree_hal_semaphore_list_t,
    pub size: u64,
    pub wait_for: (u64, u64),
    /// The buffer parameters as the allocator's query normalised them.
    pub params: iree_hal_buffer_params_t,
}

/// What `hrx_buffer_allocate` did besides its result: the queue allocation
/// it submitted (once the exact pool was made), the IREE buffer and pool to
/// release after a failed step (in order), and the device a new buffer takes
/// a reference to.
pub struct AllocationSteps {
    /// The parameters the exact pool is made with, once it is made.
    pub pool_params: Option<iree_hal_buffer_params_t>,
    pub request: Option<AllocaRequest>,
    pub release: Vec<u64>,
    pub retain_device: Option<u64>,
}

/// The queue allocation for a stream at timepoint `s.timepoint`.
pub open spec fn alloca_request_of(
    req: AllocaRequest,
    s: HrxStreamS,
    size: usize,
    params: iree_hal_buffer_params_t,
) -> bool {
    &&& req.params == params
    &&& timeline_wait(req.wait, s.semaphore.hal, s.timepoint)
    &&& one_semaphore(req.signal, s.semaphore.hal, (s.timepoint + 1) as u64)
    &&& req.size == size as u64
    &&& req.wait_for == (s.semaphore.hal, (s.timepoint + 1) as u64)
}

/// `hrx_buffer_allocate`: a stream-ordered allocation. After its checks
/// (`compatibility` is the allocator's answer for the query parameters, and
/// `normalized` the parameters that query resolved, which the pool and the
/// queue allocation are then made with) the
/// stream is flushed; then the exact pool is made (`pool`), the queue
/// allocation is submitted (`alloca`, the buffer IREE made) and waited for
/// (`waited`); the first failure is returned. On success the buffer belongs
/// to the stream's device, which it takes a reference to, and the stream's
/// timeline has advanced to the allocation's timepoint.
pub fn hrx_buffer_allocate(
    stream: Option<&mut HrxStreamS>,
    size: usize,
    mem_type: u32,
    compatibility: u32,
    normalized: iree_hal_buffer_params_t,
    ended: IreeStatus,
    executed: IreeStatus,
    pool: Result<u64, IreeError>,
    alloca: Result<u64, IreeError>,
    waited: IreeStatus,
) -> (r: (Result<HrxBufferS, HrxStatusS>, AllocationSteps))
    requires
        stream is Some ==> stream->0.timepoint < u64::MAX - 1,
    ensures
        allocate_check(stream is Some, size, compatibility) matches Some(msg) ==> r.0 is Err && is_error(
            r.0->Err_0,
            HrxStatusCode::InvalidArgument,
            msg,
        ) && r.1.request is None && r.1.release@.len() == 0 && r.1.retain_device is None && r.1.pool_params is None,
        stream is Some && allocate_check(true, size, compatibility) is Some ==> *final(stream->0) == *stream->0,
        stream is Some && allocate_check(true, size, compatibility) is None ==> {
            let s = *stream->0;
            let flush_failed = s.needs_flush() && (ended is Some || executed is Some);
            let s1 = if s.needs_flush() {
                s.flushed()
            } else {
                s
            };
            &&& flush_failed ==> r.1.request is None && r.1.release@.len() == 0 && r.1.retain_device is None
                && *final(stream->0) == s && r.1.pool_params is None
            &&& !flush_failed ==> r.1.pool_params == Some(normalized)
            &&& flush_failed && ended is Some ==> r.0 is Err && converts(ended, Some(r.0->Err_0))
            &&& flush_failed && ended is None ==> r.0 is Err && converts(executed, Some(r.0->Err_0))
            &&& !flush_failed && pool is Err ==> r.0 is Err && converts(Some(pool->Err_0), Some(r.0->Err_0))
                && r.1.request is None && r.1.release@.len() == 0 && r.1.retain_device is None
                && *final(stream->0) == s1
            &&& !flush_failed && pool is Ok ==> r.1.request is Some && alloca_request_of(r.1.request->0, s1, size, normalized)
            &&& !flush_failed && pool is Ok && alloca is Err ==> r.0 is Err && converts(
                Some(alloca->Err_0),
                Some(r.0->Err_0),
            ) && r.1.release@ == seq![pool->Ok_0] && r.1.retain_device is None && *final(stream->0) == s1
            &&& !flush_failed && pool is Ok && alloca is Ok && waited is Some ==> r.0 is Err && converts(
                waited,
                Some(r.0->Err_0),
            ) && r.1.release@ == seq![alloca->Ok_0, pool->Ok_0] && r.1.retain_device is None && *final(stream->0)
                == s1
            &&& !flush_failed && pool is Ok && alloca is Ok && waited is None ==> r.0 == Ok::<
                HrxBufferS,
                HrxStatusS,
            >(fresh_buffer(alloca->Ok_0, pool->Ok_0, s1.device, mem_type, size)) && r.1.release@.len() == 0
                && r.1.retain_device == Some(s1.device) && *final(stream->0) == (HrxStreamS {
                timepoint: (s1.timepoint + 1) as u64,
                ..s1
            })
        },
{
    let mut steps = AllocationSteps { pool_params: None, request: None, release: Vec::new(), retain_device: None };
    let s = match stream {
        Some(s) => s,
        None => return (Err(status_error(HrxStatusCode::InvalidArgument, "stream or buffer is NULL")), steps),
    };
    if size == 0 {
        return (Err(status_error(HrxStatusCode::InvalidArgument, "allocation size must be > 0")), steps);
    }
    if compatibility & 1 == 0 {
        return (
            Err(status_error(HrxStatusCode::InvalidArgument, "buffer params are not allocatable on this device")),
            steps,
        );
    }
    let f = s.flush_inner(ended, executed);
    if f.is_some() {
        return (Err(unwrap_error(f)), steps);
    }
    steps.pool_params = Some(normalized);
    let p = match pool {
        Err(e) => return (Err(unwrap_error(hrx_status_from_iree(Some(e)))), steps),
        Ok(p) => p,
    };
    let next = s.timepoint + 1;
    steps.request = Some(
        AllocaRequest {
            wait: timeline_wait_list(s.semaphore.hal, s.timepoint),
            signal: single_list(s.semaphore.hal, next),
            size: size as u64,
            wait_for: (s.semaphore.hal, next),
            params: normalized,
        },
    );
    let hal_buffer = match alloca {
        Err(e) => {
            steps.release.push(p);
            assert(steps.release@ =~= seq![p]);
            return (Err(unwrap_error(hrx_status_from_iree(Some(e)))), steps);
        },
        Ok(h) => h,
    };
    if waited.is_some() {
        steps.release.push(hal_buffer);
        steps.release.push(p);
        assert(steps.release@ =~= seq![hal_buffer, p]);
        return (Err(unwrap_error(hrx_status_from_iree(waited))), steps);
    }
    let b = crate::buffer::new_buffer_pub(hal_buffer, p, s.device, mem_type, size);
    steps.retain_device = Some(s.device);
    s.timepoint = next;
    (Ok(b), steps)
}

/// What a recording operation records into the stream's command buffer
/// (each but the barrier is followed by an ordering barrier).
pub enum StreamCommand {
    /// Fill the target range with the pattern bytes, repeated.
    Fill { target: IreeBufferRef, pattern: Vec<u8> },
    /// Copy the source range to the target range.
    Copy { source: IreeBufferRef, target: IreeBufferRef },
    /// Write the host bytes over the target range.
    Update { target: IreeBufferRef, data: Vec<u8> },
    /// An execution barrier.
    Barrier,
    /// A dispatch.
    Dispatch(DispatchRequest),
}

/// The checks and state changes shared by the recording operations: a
/// missing stream or operand is refused with `missing_msg` and changes
/// nothing; else a command buffer is made ready (`begin_cb`) and, when that
/// succeeded, the caller's command is recorded (`after_record`).
fn record_command(
    stream: Option<&mut HrxStreamS>,
    operands_present: bool,
    missing_msg: &str,
    command: StreamCommand,
    created: Result<u64, IreeError>,
    begun: IreeStatus,
    recorded: IreeStatus,
    barrier: IreeStatus,
) -> (r: (HrxStatus, Option<StreamCommand>))
    requires
        created is Ok ==> created->Ok_0 != 0,
    ensures
        (stream is None || !operands_present) ==> r.0 is Some && is_error(
            r.0->0,
            HrxStatusCode::InvalidArgument,
            missing_msg@,
        ) && r.1 is None,
        stream is Some && !operands_present ==> *final(stream->0) == *stream->0,
        stream is Some && operands_present ==> *final(stream->0) == (*stream->0).record_spec(
            created,
            begun,
            recorded,
            barrier,
        ).0 && converts((*stream->0).record_spec(created, begun, recorded, barrier).1, r.0) && (
        (*stream->0).cb_ready(created, begun) ==> r.1 == Some(command)) && (!(*stream->0).cb_ready(
            created,
            begun,
        ) ==> r.1 is None),
{
    match stream {
        None => (Some(status_error(HrxStatusCode::InvalidArgument, missing_msg)), None),
        Some(s) => {
            if !operands_present {
                return (Some(status_error(HrxStatusCode::InvalidArgument, missing_msg)), None);
            }
            let st = s.begin_cb(created, begun);
            if st.is_some() {
                return (st, None);
            }
            (s.after_record(recorded, barrier), Some(command))
        },
    }
}

/// `hrx_stream_fill_buffer`: records a fill of `[offset, offset + size)` of
/// the buffer with the pattern.
pub fn hrx_stream_fill_buffer(
    stream: Option<&mut HrxStreamS>,
    buffer: Option<&HrxBufferS>,
    offset: usize,
    size: usize,
    pattern: Option<&[u8]>,
    created: Result<u64, IreeError>,
    begun: IreeStatus,
    recorded: IreeStatus,
    barrier: IreeStatus,
) -> (r: (HrxStatus, Option<StreamCommand>))
    requires
        created is Ok ==> created->Ok_0 != 0,
    ensures
        (stream is None || buffer is None || pattern is None) ==> r.0 is Some && is_error(
            r.0->0,
            HrxStatusCode::InvalidArgument,
            "stream, buffer, or pattern is NULL"@,
        ) && r.1 is None,
        stream is Some && (buffer is None || pattern is None) ==> *final(stream->0) == *stream->0,
        stream is Some && buffer is Some && pattern is Some ==> {
            let (s2, failure) = (*stream->0).record_spec(created, begun, recorded, barrier);
            &&& *final(stream->0) == s2
            &&& converts(failure, r.0)
            &&& (*stream->0).cb_ready(created, begun) ==> (r.1 matches Some(StreamCommand::Fill { target, pattern: p })
                && target == (IreeBufferRef { buffer: buffer->0.hal_buffer, offset: offset as u64, length: size as u64 })
                && p@ == pattern->0@)
            &&& !(*stream->0).cb_ready(created, begun) ==> r.1 is None
        },
{
    let present = buffer.is_some() && pattern.is_some();
    let command = match (buffer, pattern) {
        (Some(b), Some(p)) => StreamCommand::Fill {
            target: buffer_range(b, offset, size),
            pattern: vstd::slice::slice_to_vec(p),
        },
        _ => StreamCommand::Barrier,
    };
    record_command(stream, present, "stream, buffer, or pattern is NULL", command, created, begun, recorded, barrier)
}

/// `hrx_stream_copy_buffer`: records a copy of `size` bytes from `src_offset`
/// of `src` to `dst_offset` of `dst`.
pub fn hrx_stream_copy_buffer(
    stream: Option<&mut HrxStreamS>,
    src: Option<&HrxBufferS>,
    src_offset: usize,
    dst: Option<&HrxBufferS>,
    dst_offset: usize,
    size: usize,
    created: Result<u64, IreeError>,
    begun: IreeStatus,
    recorded: IreeStatus,
    barrier: IreeStatus,
) -> (r: (HrxStatus, Option<StreamCommand>))
    requires
        created is Ok ==> created->Ok_0 != 0,
    ensures
        (stream is None || src is None || dst is None) ==> r.0 is Some && is_error(
            r.0->0,
            HrxStatusCode::InvalidArgument,
            "stream, src, or dst is NULL"@,
        ) && r.1 is None,
        stream is Some && (src is None || dst is None) ==> *final(stream->0) == *stream->0,
        stream is Some && src is Some && dst is Some ==> {
            let (s2, failure) = (*stream->0).record_spec(created, begun, recorded, barrier);
            &&& *final(stream->0) == s2
            &&& converts(failure, r.0)
            &&& (*stream->0).cb_ready(created, begun) ==> r.1 == Some(
                StreamCommand::Copy {
                    source: IreeBufferRef {
                        buffer: src->0.hal_buffer,
                        offset: src_offset as u64,
                        length: size as u64,
                    },
                    target: IreeBufferRef {
                        buffer: dst->0.hal_buffer,
                        offset: dst_offset as u64,
                        length: size as u64,
                    },
                },
            )
            &&& !(*stream->0).cb_ready(created, begun) ==> r.1 is None
        },
{
    let present = src.is_some() && dst.is_some();
    let command = match (src, dst) {
        (Some(a), Some(b)) => StreamCommand::Copy {
            source: buffer_range(a, src_offset, size),
            target: buffer_range(b, dst_offset, size),
        },
        _ => StreamCommand::Barrier,
    };
    record_command(stream, present, "stream, src, or dst is NULL", command, created, begun, recorded, barrier)
}

/// `hrx_stream_update_buffer`: records a write of the host data over
/// `[dst_offset, dst_offset + host_data.len())` of `dst`.
pub fn hrx_stream_update_buffer(
    stream: Option<&mut HrxStreamS>,
    host_data: Option<&[u8]>,
    dst: Option<&HrxBufferS>,
    dst_offset: usize,
    created: Result<u64, IreeError>,
    begun: IreeStatus,
    recorded: IreeStatus,
    barrier: IreeStatus,
) -> (r: (HrxStatus, Option<StreamCommand>))
    requires
        created is Ok ==> created->Ok_0 != 0,
    ensures
        (stream is None || host_data is None || dst is None) ==> r.0 is Some && is_error(
            r.0->0,
            HrxStatusCode::InvalidArgument,
            "stream, host_data, or dst is NULL"@,
        ) && r.1 is None,
        stream is Some && (host_data is None || dst is None) ==> *final(stream->0) == *stream->0,
        stream is Some && host_data is Some && dst is Some ==> {
            let (s2, failure) = (*stream->0).record_spec(created, begun, recorded, barrier);
            &&& *final(stream->0) == s2
            &&& converts(failure, r.0)
            &&& (*stream->0).cb_ready(created, begun) ==> (r.1 matches Some(StreamCommand::Update { target, data })
                && target == (IreeBufferRef {
                buffer: dst->0.hal_buffer,
                offset: dst_offset as u64,
                length: host_data->0@.len() as u64,
            }) && data@ == host_data->0@)
            &&& !(*stream->0).cb_ready(created, begun) ==> r.1 is None
        },
{
    let present = host_data.is_some() && dst.is_some();
    let command = match (host_data, dst) {
        (Some(h), Some(d)) => StreamCommand::Update {
            target: buffer_range(d, dst_offset, h.len()),
            data: vstd::slice::slice_to_vec(h),
        },
        _ => StreamCommand::Barrier,
    };
    record_command(stream, present, "stream, host_data, or dst is NULL", command, created, begun, recorded, barrier)
}

/// `hrx_stream_execution_barrier`: records an execution barrier (with no
/// ordering barrier after it).
pub fn hrx_stream_execution_barrier(
    stream: Option<&mut HrxStreamS>,
    created: Result<u64, IreeError>,
    begun: IreeStatus,
    recorded: IreeStatus,
) -> (r: (HrxStatus, Option<StreamCommand>))
    requires
        created is Ok ==> created->Ok_0 != 0,
    ensures
        stream is None ==> r.0 is Some && is_error(r.0->0, HrxStatusCode::InvalidArgument, "stream is NULL"@)
            && r.1 is None,
        stream is Some ==> {
            let (s2, failure) = (*stream->0).record_spec(created, begun, recorded, None);
            &&& *final(stream->0) == s2
            &&& converts(failure, r.0)
            &&& (*stream->0).cb_ready(created, begun) ==> r.1 == Some(StreamCommand::Barrier)
            &&& !(*stream->0).cb_ready(created, begun) ==> r.1 is None
        },
{
    record_command(stream, true, "stream is NULL", StreamCommand::Barrier, created, begun, recorded, None)
}

/// `hrx_stream_dispatch`: the checks of `dispatch_request` (with "stream,
/// executable, config, constants, or bindings are invalid"); then a command
/// buffer is made ready, after which a binding without a buffer is refused
/// (the command buffer stays); then the dispatch is recorded.
pub fn hrx_stream_dispatch(
    stream: Option<&mut HrxStreamS>,
    executable: Option<u64>,
    export_ordinal: u32,
    config: Option<&HrxDispatchConfig>,
    constants: Option<&[u8]>,
    constants_size: usize,
    bindings: Option<&[HrxBufferRef]>,
    binding_count: usize,
    flags: u32,
    created: Result<u64, IreeError>,
    begun: IreeStatus,
    recorded: IreeStatus,
    barrier: IreeStatus,
) -> (r: (HrxStatus, Option<StreamCommand>))
    requires
        created is Ok ==> created->Ok_0 != 0,
        bindings is Some ==> binding_count <= bindings->0@.len(),
        constants is Some ==> constants_size <= constants->0@.len(),
    ensures
        dispatch_invalid(stream is Some, executable, config, constants is Some, constants_size, bindings, binding_count)
            ==> r.0 is Some && is_error(
            r.0->0,
            HrxStatusCode::InvalidArgument,
            "stream, executable, config, constants, or bindings are invalid"@,
        ) && r.1 is None,
        stream is Some && dispatch_invalid(
            true,
            executable,
            config,
            constants is Some,
            constants_size,
            bindings,
            binding_count,
        ) ==> *final(stream->0) == *stream->0,
        stream is Some && !dispatch_invalid(
            true,
            executable,
            config,
            constants is Some,
            constants_size,
            bindings,
            binding_count,
        ) ==> {
            let s = *stream->0;
            let (s2, failure) = s.record_spec(created, begun, recorded, barrier);
            &&& !s.cb_ready(created, begun) ==> *final(stream->0) == s && converts(
                s.record_spec(created, begun, recorded, barrier).1,
                r.0,
            ) && r.1 is None
            &&& s.cb_ready(created, begun) && binding_missing(bindings, binding_count) ==> *final(stream->0)
                == s.with_cb(created) && r.0 is Some && is_error(
                r.0->0,
                HrxStatusCode::InvalidArgument,
                "binding buffer is NULL"@,
            ) && r.1 is None
            &&& s.cb_ready(created, begun) && !binding_missing(bindings, binding_count) ==> *final(stream->0)
                == s2 && converts(failure, r.0) && (r.1 matches Some(StreamCommand::Dispatch(req)) && dispatch_made(
                req,
                executable->0,
                export_ordinal,
                *config->0,
                bindings,
                binding_count,
                constants_bytes(constants, constants_size),
                flags,
            ))
        },
{
    let s = match stream {
        Some(s) => s,
        None => return (
            Some(
                status_error(
                    HrxStatusCode::InvalidArgument,
                    "stream, executable, config, constants, or bindings are invalid",
                ),
            ),
            None,
        ),
    };
    if executable.is_none() || config.is_none() || (binding_count > 0 && bindings.is_none()) || (constants_size > 0
        && constants.is_none()) {
        return (
            Some(
                status_error(
                    HrxStatusCode::InvalidArgument,
                    "stream, executable, config, constants, or bindings are invalid",
                ),
            ),
            None,
        );
    }
    let st = s.begin_cb(created, begun);
    if st.is_some() {
        return (st, None);
    }
    let req = dispatch_request(
        true,
        executable,
        export_ordinal,
        config,
        constants,
        constants_size,
        bindings,
        binding_count,
        flags,
        "stream, executable, config, constants, or bindings are invalid",
    );
    match req {
        Err(e) => (Some(e), None),
        Ok(d) => (s.after_record(recorded, barrier), Some(StreamCommand::Dispatch(d))),
    }
}

/// `hrx_stream_synchronize`: flushes the stream (its failure returned), then
/// waits for its timepoint (`waited` is IREE's outcome of that wait).
pub fn hrx_stream_synchronize(
    stream: Option<&mut HrxStreamS>,
    ended: IreeStatus,
    executed: IreeStatus,
    waited: IreeStatus,
) -> (r: HrxStatus)
    requires
        stream is Some ==> stream->0.timepoint < u64::MAX,
    ensures
        stream is None ==> r is Some && is_error(r->0, HrxStatusCode::InvalidArgument, "stream is NULL"@),
        stream is Some ==> {
            let s = *stream->0;
            let flush_failed = s.needs_flush() && (ended is Some || executed is Some);
            &&& flush_failed && ended is Some ==> converts(ended, r) && *final(stream->0) == s
            &&& flush_failed && ended is None ==> converts(executed, r) && *final(stream->0) == s
            &&& !flush_failed ==> *final(stream->0) == s.flushed() && (s.flushed().timepoint == 0 ==> r is None)
                && (s.flushed().timepoint != 0 ==> converts(waited, r))
        },
{
    let s = match stream {
        Some(s) => s,
        None => return Some(status_error(HrxStatusCode::InvalidArgument, "stream is NULL")),
    };
    let f = s.flush_inner(ended, executed);
    if f.is_some() {
        return f;
    }
    hrx_stream_wait(Some(&*s), waited)
}

/// `hrx_stream_get_semaphore` / `hrx_stream_get_device`: the stream's
/// semaphore and device.
pub fn hrx_stream_get_semaphore(stream: Option<&HrxStreamS>) -> (r: Result<HrxSemaphoreS, HrxStatusS>)
    ensures
        stream is None ==> r is Err && is_error(
            r->Err_0,
            HrxStatusCode::InvalidArgument,
            "stream or semaphore is NULL"@,
        ),
        stream is Some ==> r == Ok::<HrxSemaphoreS, HrxStatusS>(stream->0.semaphore),
{
    match stream {
        None => Err(status_error(HrxStatusCode::InvalidArgument, "stream or semaphore is NULL")),
        Some(s) => Ok(s.semaphore),
    }
}

pub fn hrx_stream_get_device(stream: Option<&HrxStreamS>) -> (r: Result<u64, HrxStatusS>)
    ensures
        stream is None ==> r is Err && is_error(r->Err_0, HrxStatusCode::InvalidArgument, "stream or device is NULL"@),
        stream is Some ==> r == Ok::<u64, HrxStatusS>(stream->0.device),
{
    match stream {
        None => Err(status_error(HrxStatusCode::InvalidArgument, "stream or device is NULL")),
        Some(s) => Ok(s.device),
    }
}

/// A recorded operation leaves work that the next flush submits.
pub proof fn law_record_then_flush(
    s: HrxStreamS,
    created: Result<u64, IreeError>,
    begun: IreeStatus,
    recorded: IreeStatus,
    barrier: IreeStatus,
)
    requires
        created is Ok ==> created->Ok_0 != 0,
        s.record_spec(created, begun, recorded, barrier).1 is None,
        s.timepoint < u64::MAX,
    ensures
        s.record_spec(created, begun, recorded, barrier).0.needs_flush(),
        s.record_spec(created, begun, recorded, barrier).0.flushed().timepoint == s.timepoint + 1,
        !s.record_spec(created, begun, recorded, barrier).0.flushed().needs_flush(),
{
}

} // verus!
