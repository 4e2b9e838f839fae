//! Counted handles: the objects handed out through the HRX API live as long
//! as someone holds a reference; the last release hands the object back,
//! exactly once, for its teardown.
use vstd::prelude::*;
use crate::buffer_view::HrxBufferViewS;
use crate::device::HrxDeviceS;
use crate::executable::{HrxExecutableS, HrxFunctionS, HrxModuleS};
use crate::stream::HrxStreamS;
use crate::sync::{HrxFenceS, HrxSemaphoreS};

verus! {

/// An object and the number of references to it.
pub struct Handle<T> {
    object: Option<T>,
    refs: u64,
}

/// The abstract handle: its reference count and the object while it lives.
pub struct HandleView<T> {
    pub refs: nat,
    pub object: Option<T>,
}

impl<T> View for Handle<T> {
    type V = HandleView<T>;

    closed spec fn view(&self) -> HandleView<T> {
        HandleView { refs: self.refs as nat, object: self.object }
    }
}

impl<T> HandleView<T> {
    /// A handle holds its object exactly while it has references.
    pub open spec fn wf(self) -> bool {
        self.refs >= 1 <==> self.object is Some
    }

    /// The handle with one more reference.
    pub open spec fn retained(self) -> HandleView<T> {
        HandleView { refs: self.refs + 1, ..self }
    }

    /// The handle after one release, and the object handed back for teardown
    /// when that was the last reference.
    pub open spec fn released(self) -> (HandleView<T>, Option<T>) {
        if self.refs == 1 {
            (HandleView { refs: 0, object: None }, self.object)
        } else {
            (HandleView { refs: (self.refs - 1) as nat, ..self }, None)
        }
    }
}

impl<T> Handle<T> {
    /// A handle to a new object, holding one reference.
    pub fn new(object: T) -> (h: Handle<T>)
        ensures
            h@ == (HandleView { refs: 1, object: Some(object) }),
    {
        Handle { object: Some(object), refs: 1 }
    }

    /// The number of references.
    pub fn refs(&self) -> (r: u64)
        ensures
            r == self@.refs,
    {
        self.refs
    }

    /// The object of a live handle.
    pub fn get(&self) -> (r: &T)
        requires
            self@.wf(),
            self@.refs >= 1,
        ensures
            Some(*r) == self@.object,
    {
        match &self.object {
            Some(o) => o,
            None => vstd::pervasive::unreached(),
        }
    }

    /// One more reference to a live handle.
    pub fn retain(&mut self)
        requires
            old(self)@.wf(),
            old(self)@.refs >= 1,
            old(self)@.refs < u64::MAX,
        ensures
            final(self)@ == old(self)@.retained(),
            final(self)@.wf(),
    {
        self.refs = self.refs + 1;
    }

    /// One reference fewer; the last one hands the object back for teardown.
    pub fn release(&mut self) -> (r: Option<T>)
        requires
            old(self)@.wf(),
            old(self)@.refs >= 1,
        ensures
            (final(self)@, r) == old(self)@.released(),
            final(self)@.wf(),
    {
        self.refs = self.refs - 1;
        if self.refs == 0 {
            let mut out: Option<T> = None;
            std::mem::swap(&mut out, &mut self.object);
            out
        } else {
            None
        }
    }
}

/// `hrx_stream_retain` / `hrx_stream_release`: the last release hands the
/// stream back for its teardown (`HrxStreamS::teardown`).
pub fn hrx_stream_retain(stream: &mut Handle<HrxStreamS>)
    requires
        old(stream)@.wf(),
        old(stream)@.refs >= 1,
        old(stream)@.refs < u64::MAX,
    ensures
        final(stream)@ == old(stream)@.retained(),
{
    stream.retain();
}

pub fn hrx_stream_release(stream: &mut Handle<HrxStreamS>) -> (r: Option<HrxStreamS>)
    requires
        old(stream)@.wf(),
        old(stream)@.refs >= 1,
    ensures
        (final(stream)@, r) == old(stream)@.released(),
{
    stream.release()
}

/// `hrx_semaphore_retain` / `hrx_semaphore_release`: the last release hands
/// the semaphore back to release its IREE semaphore and device.
pub fn hrx_semaphore_retain(semaphore: &mut Handle<HrxSemaphoreS>)
    requires
        old(semaphore)@.wf(),
        old(semaphore)@.refs >= 1,
        old(semaphore)@.refs < u64::MAX,
    ensures
        final(semaphore)@ == old(semaphore)@.retained(),
{
    semaphore.retain();
}

pub fn hrx_semaphore_release(semaphore: &mut Handle<HrxSemaphoreS>) -> (r: Option<HrxSemaphoreS>)
    requires
        old(semaphore)@.wf(),
        old(semaphore)@.refs >= 1,
    ensures
        (final(semaphore)@, r) == old(semaphore)@.released(),
{
    semaphore.release()
}

/// `hrx_fence_retain` / `hrx_fence_release`: the last release hands the fence
/// back to release its IREE fence.
pub fn hrx_fence_retain(fence: &mut Handle<HrxFenceS>)
    requires
        old(fence)@.wf(),
        old(fence)@.refs >= 1,
        old(fence)@.refs < u64::MAX,
    ensures
        final(fence)@ == old(fence)@.retained(),
{
    fence.retain();
}

pub fn hrx_fence_release(fence: &mut Handle<HrxFenceS>) -> (r: Option<HrxFenceS>)
    requires
        old(fence)@.wf(),
        old(fence)@.refs >= 1,
    ensures
        (final(fence)@, r) == old(fence)@.released(),
{
    fence.release()
}

/// `hrx_executable_retain` / `hrx_executable_release`: the last release
/// hands the executable back to release its IREE executable, cache and device.
pub fn hrx_executable_retain(executable: &mut Handle<HrxExecutableS>)
    requires
        old(executable)@.wf(),
        old(executable)@.refs >= 1,
        old(executable)@.refs < u64::MAX,
    ensures
        final(executable)@ == old(executable)@.retained(),
{
    executable.retain();
}

pub fn hrx_executable_release(executable: &mut Handle<HrxExecutableS>) -> (r: Option<HrxExecutableS>)
    requires
        old(executable)@.wf(),
        old(executable)@.refs >= 1,
    ensures
        (final(executable)@, r) == old(executable)@.released(),
{
    executable.release()
}

/// `hrx_module_retain` / `hrx_module_release`: the last release hands the
/// module back to release its context, HAL and bytecode modules and device.
pub fn hrx_module_retain(module: &mut Handle<HrxModuleS>)
    requires
        old(module)@.wf(),
        old(module)@.refs >= 1,
        old(module)@.refs < u64::MAX,
    ensures
        final(module)@ == old(module)@.retained(),
{
    module.retain();
}

pub fn hrx_module_release(module: &mut Handle<HrxModuleS>) -> (r: Option<HrxModuleS>)
    requires
        old(module)@.wf(),
        old(module)@.refs >= 1,
    ensures
        (final(module)@, r) == old(module)@.released(),
{
    module.release()
}

/// `hrx_function_retain` / `hrx_function_release`: the last release hands
/// the function back to release the module it holds.
pub fn hrx_function_retain(function: &mut Handle<HrxFunctionS>)
    requires
        old(function)@.wf(),
        old(function)@.refs >= 1,
        old(function)@.refs < u64::MAX,
    ensures
        final(function)@ == old(function)@.retained(),
{
    function.retain();
}

pub fn hrx_function_release(function: &mut Handle<HrxFunctionS>) -> (r: Option<HrxFunctionS>)
    requires
        old(function)@.wf(),
        old(function)@.refs >= 1,
    ensures
        (final(function)@, r) == old(function)@.released(),
{
    function.release()
}

/// `hrx_buffer_view_retain` / `hrx_buffer_view_release`: the last release
/// hands the view back to release its IREE buffer view.
pub fn hrx_buffer_view_retain(view: &mut Handle<HrxBufferViewS>)
    requires
        old(view)@.wf(),
        old(view)@.refs >= 1,
        old(view)@.refs < u64::MAX,
    ensures
        final(view)@ == old(view)@.retained(),
{
    view.retain();
}

pub fn hrx_buffer_view_release(view: &mut Handle<HrxBufferViewS>) -> (r: Option<HrxBufferViewS>)
    requires
        old(view)@.wf(),
        old(view)@.refs >= 1,
    ensures
        (final(view)@, r) == old(view)@.released(),
{
    view.release()
}

/// `hrx_device_retain` / `hrx_device_release`: the last release hands the
/// device back to release its IREE device, group and allocator.
pub fn hrx_device_retain(device: &mut Handle<HrxDeviceS>)
    requires
        old(device)@.wf(),
        old(device)@.refs >= 1,
        old(device)@.refs < u64::MAX,
    ensures
        final(device)@ == old(device)@.retained(),
{
    device.retain();
}

pub fn hrx_device_release(device: &mut Handle<HrxDeviceS>) -> (r: Option<HrxDeviceS>)
    requires
        old(device)@.wf(),
        old(device)@.refs >= 1,
    ensures
        (final(device)@, r) == old(device)@.released(),
{
    device.release()
}

/// `hrx_allocator_retain`: an allocator lives inside its device, so one more
/// reference to it is one more reference to the device, and one to the IREE
/// allocator returned here.
pub fn hrx_allocator_retain(device: &mut Handle<HrxDeviceS>) -> (hal_allocator: u64)
    requires
        old(device)@.wf(),
        old(device)@.refs >= 1,
        old(device)@.refs < u64::MAX,
    ensures
        final(device)@ == old(device)@.retained(),
        hal_allocator == old(device)@.object->0.allocator.hal_allocator,
{
    let a = device.get().allocator.hal_allocator;
    device.retain();
    a
}

/// `hrx_allocator_release`: releases the IREE allocator returned here and one
/// reference to the device; the device is handed back when that was its last.
pub fn hrx_allocator_release(device: &mut Handle<HrxDeviceS>) -> (r: (u64, Option<HrxDeviceS>))
    requires
        old(device)@.wf(),
        old(device)@.refs >= 1,
    ensures
        r.0 == old(device)@.object->0.allocator.hal_allocator,
        (final(device)@, r.1) == old(device)@.released(),
{
    let a = device.get().allocator.hal_allocator;
    let last = device.release();
    (a, last)
}

/// A retain followed by a release gives back the handle and hands nothing
/// back; the release of the last reference hands the object back once and
/// leaves a handle that can no longer be released.
pub proof fn law_handle_retain_release<T>(h: HandleView<T>)
    requires
        h.wf(),
        h.refs >= 1,
    ensures
        h.retained().released() == (h, None::<T>),
        h.refs == 1 ==> h.released() == (HandleView::<T> { refs: 0, object: None }, h.object),
        h.refs == 1 ==> !(h.released().0.refs >= 1),
        h.released().0.wf(),
{
}

} // verus!
