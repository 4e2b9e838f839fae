//! The runtime's global state: the shared IREE infrastructure (counted by the
//! accelerators that use it) and the CPU accelerator with its devices.
use vstd::prelude::*;
use crate::device::{
    cstr_array, cstr_field, cstr_len_spec, field_text, lemma_cstr_field_text, HrxAllocatorInline, HrxDeviceS, HRX_ACCELERATOR_CPU,
    DEVICE_ARCH_BYTES, DEVICE_NAME_BYTES, has_nul,
};
use crate::status::{
    HrxStatus, HrxStatusS, HrxStatusCode, IreeError, IreeStatus, converts, hrx_status_from_iree, is_error, status_error,
};
use crate::buffer::unwrap_error;

verus! {

/// The runtime version, `HRX_VERSION_{MAJOR,MINOR,PATCH}`.
pub fn hrx_runtime_version() -> (r: (i32, i32, i32))
    ensures
        r == (0i32, 1i32, 0i32),
{
    (0, 1, 0)
}

/// `hrx_host_allocator_t`: an allocator's `{self, ctl}` pair.
#[derive(Clone, Copy, PartialEq, Eq, Structural, Debug)]
pub struct HrxHostAllocator {
    pub self_: u64,
    pub ctl: u64,
}

/// The IREE objects the shared state holds once created.
#[derive(Clone, Copy, PartialEq, Eq, Structural, Debug)]
pub struct SharedHandles {
    pub vm_instance: u64,
    pub proactor_pool: u64,
    pub host_allocator: HrxHostAllocator,
}

/// Shared infrastructure: created by the first accelerator that initialises,
/// released when the last one shuts down.
#[derive(Clone, Copy, PartialEq, Eq, Structural, Debug)]
pub struct SharedState {
    pub vm_instance: u64,
    pub proactor_pool: u64,
    pub host_allocator: HrxHostAllocator,
    pub init_count: i32,
    pub initialized: bool,
}

/// IREE hands back non-null objects when it creates them.
pub open spec fn created_ok(created: Result<SharedHandles, HrxStatusS>) -> bool {
    created matches Ok(h) ==> h.vm_instance != 0 && h.proactor_pool != 0
}

impl SharedState {
    /// Nothing created yet.
    pub fn new() -> (s: SharedState)
        ensures
            s.wf(),
            !s.initialized,
            s.init_count == 0,
            s.vm_instance == 0,
            s.proactor_pool == 0,
            s.host_allocator == (HrxHostAllocator { self_: 0, ctl: 0 }),
    {
        SharedState {
            vm_instance: 0,
            proactor_pool: 0,
            host_allocator: HrxHostAllocator { self_: 0, ctl: 0 },
            init_count: 0,
            initialized: false,
        }
    }

    /// Initialised exactly while at least one user holds it.
    pub open spec fn wf(self) -> bool {
        &&& (self.initialized <==> self.init_count >= 1)
        &&& self.init_count >= 0
        &&& (self.initialized ==> self.vm_instance != 0 && self.proactor_pool != 0)
        &&& (!self.initialized ==> self.vm_instance == 0 && self.proactor_pool == 0)
    }

    /// The state after `ensure` with the creation outcome `created`.
    pub open spec fn ensure_spec(self, created: Result<SharedHandles, HrxStatusS>) -> (SharedState, HrxStatus) {
        if self.initialized {
            (SharedState { init_count: (self.init_count + 1) as i32, ..self }, None)
        } else {
            match created {
                Err(e) => (self, Some(e)),
                Ok(h) => (
                    SharedState {
                        vm_instance: h.vm_instance,
                        proactor_pool: h.proactor_pool,
                        host_allocator: h.host_allocator,
                        init_count: 1,
                        initialized: true,
                    },
                    None,
                ),
            }
        }
    }

    /// The state after `release`, and the pool and VM instance to release
    /// (those that were created) when the last user left.
    pub open spec fn release_spec(self) -> (SharedState, Option<(u64, u64)>) {
        if !self.initialized {
            (self, None)
        } else if self.init_count - 1 > 0 {
            (SharedState { init_count: (self.init_count - 1) as i32, ..self }, None)
        } else {
            (
                SharedState {
                    vm_instance: 0,
                    proactor_pool: 0,
                    init_count: 0,
                    initialized: false,
                    ..self
                },
                Some((self.proactor_pool, self.vm_instance)),
            )
        }
    }

    /// `hrx_ensure_shared_state`: another user of an initialised state is
    /// counted; otherwise the state takes the objects the caller created (the
    /// VM instance with the HAL types registered, and the proactor pool) or
    /// reports why their creation failed (`shared_creation_outcome`).
    pub fn ensure(&mut self, created: Result<SharedHandles, HrxStatusS>) -> (r: HrxStatus)
        requires
            old(self).wf(),
            old(self).init_count < i32::MAX,
            created_ok(created),
        ensures
            final(self).wf(),
            (*final(self), r) == old(self).ensure_spec(created),
    {
        if self.initialized {
            self.init_count = self.init_count + 1;
            return None;
        }
        match created {
            Err(e) => Some(e),
            Ok(h) => {
                self.vm_instance = h.vm_instance;
                self.proactor_pool = h.proactor_pool;
                self.host_allocator = h.host_allocator;
                self.initialized = true;
                self.init_count = 1;
                None
            },
        }
    }

    /// `hrx_release_shared_state`: one user leaves; the last one gets the
    /// pool and the VM instance back to release.
    pub fn release(&mut self) -> (r: Option<(u64, u64)>)
        requires
            old(self).wf(),
        ensures
            final(self).wf(),
            (*final(self), r) == old(self).release_spec(),
    {
        if !self.initialized {
            return None;
        }
        self.init_count = self.init_count - 1;
        if self.init_count > 0 {
            return None;
        }
        let out = (self.proactor_pool, self.vm_instance);
        self.proactor_pool = 0;
        self.vm_instance = 0;
        self.initialized = false;
        Some(out)
    }

    /// `shared_vm_instance`: the VM instance and whether the state is initialised.
    pub fn shared_vm_instance(&self) -> (r: (u64, bool))
        ensures
            r == (self.vm_instance, self.initialized),
    {
        (self.vm_instance, self.initialized)
    }
}

/// The shared state stays well formed (initialised exactly while it has
/// users, its objects non-null exactly then); joining it counts one more user
/// (creating the objects only for the first), and leaving again gives back
/// the count and the initialisation it had; a first user that leaves releases
/// what it created, and a failed creation changes nothing.
pub proof fn law_ensure_then_release(s: SharedState, created: Result<SharedHandles, HrxStatusS>)
    requires
        s.wf(),
        s.init_count < i32::MAX,
        created_ok(created),
    ensures
        ({
            let (s1, st) = s.ensure_spec(created);
            let (s2, released) = s1.release_spec();
            &&& s1.wf() && s2.wf()
            &&& st is None ==> s1.initialized && s1.init_count == s.init_count + 1
            &&& st is None && s.initialized ==> s1.vm_instance == s.vm_instance && s1.proactor_pool == s.proactor_pool
            &&& st is Some ==> !s.initialized && s1 == s
            &&& s2.init_count == s.init_count
            &&& s2.initialized == s.initialized
            &&& (s.initialized ==> s2 == s && released is None)
            &&& (!s.initialized && created is Ok ==> released == Some(
                (created->Ok_0.proactor_pool, created->Ok_0.vm_instance),
            ))
            &&& (!s.initialized && created is Err ==> s2 == s && released is None)
        }),
{
}

/// The name of the CPU device, `CPU 0 (local-task)`.
pub open spec fn cpu_device_name() -> Seq<u8> {
    seq![67u8, 80u8, 85u8, 32u8, 48u8, 32u8, 40u8, 108u8, 111u8, 99u8, 97u8, 108u8, 45u8, 116u8, 97u8, 115u8, 107u8, 41u8]
}

/// The architecture of the CPU device, `host`.
pub open spec fn cpu_device_arch() -> Seq<u8> {
    seq![104u8, 111u8, 115u8, 116u8]
}

/// The loaders' handles, as a sequence.
pub open spec fn loaders_view(loaders: Result<Vec<u64>, IreeError>) -> Result<Seq<u64>, IreeError> {
    match loaders {
        Ok(l) => Ok(l@),
        Err(e) => Err(e),
    }
}

/// The first failing step of building a local-task device: the task
/// executor, the executable loaders, the heap allocator, the driver and the
/// device, in that order.
pub open spec fn local_task_failure(
    executor: Result<u64, IreeError>,
    loaders: Result<Seq<u64>, IreeError>,
    heap: Result<u64, IreeError>,
    driver: Result<u64, IreeError>,
    device: Result<u64, IreeError>,
) -> IreeStatus {
    if executor is Err {
        Some(executor->Err_0)
    } else if loaders is Err {
        Some(loaders->Err_0)
    } else if heap is Err {
        Some(heap->Err_0)
    } else if driver is Err {
        Some(driver->Err_0)
    } else if device is Err {
        Some(device->Err_0)
    } else {
        None
    }
}

/// The references released while building a local-task device, in order: a
/// failed step releases what the earlier steps made (the loaders, then the
/// executor); once the driver step is reached, the executor, the loaders and
/// the heap allocator are released (the driver holds its own references), and
/// a failed device creation also releases the driver.
pub open spec fn local_task_releases(
    executor: Result<u64, IreeError>,
    loaders: Result<Seq<u64>, IreeError>,
    heap: Result<u64, IreeError>,
    driver: Result<u64, IreeError>,
    device: Result<u64, IreeError>,
) -> Seq<u64> {
    match executor {
        Err(_) => Seq::empty(),
        Ok(ex) => match loaders {
            Err(_) => seq![ex],
            Ok(ls) => match heap {
                Err(_) => ls.push(ex),
                Ok(hp) => {
                    let base = seq![ex] + ls.push(hp);
                    match driver {
                        Ok(dr) => if device is Err {
                            base.push(dr)
                        } else {
                            base
                        },
                        Err(_) => base,
                    }
                },
            },
        },
    }
}

fn push_all(out: &mut Vec<u64>, items: &Vec<u64>)
    ensures
        final(out)@ == old(out)@ + items@,
{
    let ghost start = out@;
    let mut i: usize = 0;
    while i < items.len()
        invariant
            i <= items@.len(),
            out@ == start + items@.subrange(0, i as int),
        decreases items@.len() - i,
    {
        out.push(items[i]);
        i = i + 1;
        assert(items@.subrange(0, i as int) == items@.subrange(0, i - 1 as int).push(items@[i - 1]));
    }
    assert(items@.subrange(0, items@.len() as int) == items@);
}

/// Building the local-task device of the CPU accelerator, given what each
/// step returned: the driver and the device, or the first step's error; and
/// the references to release, in order (`local_task_releases`).
pub fn local_task_device_outcome(
    executor: Result<u64, IreeError>,
    loaders: Result<Vec<u64>, IreeError>,
    heap: Result<u64, IreeError>,
    driver: Result<u64, IreeError>,
    device: Result<u64, IreeError>,
) -> (r: (Result<(u64, u64), HrxStatusS>, Vec<u64>))
    requires
        loaders matches Ok(l) ==> l@.len() <= 8,
    ensures
        r.1@ == local_task_releases(executor, loaders_view(loaders), heap, driver, device),
        match local_task_failure(executor, loaders_view(loaders), heap, driver, device) {
            Some(e) => r.0 is Err && converts(Some(e), Some(r.0->Err_0)),
            None => r.0 == Ok::<(u64, u64), HrxStatusS>((driver->Ok_0, device->Ok_0)),
        },
{
    let mut released: Vec<u64> = Vec::new();
    let ex = match executor {
        Err(e) => return (Err(unwrap_error(hrx_status_from_iree(Some(e)))), released),
        Ok(ex) => ex,
    };
    let ls = match loaders {
        Err(e) => {
            released.push(ex);
            assert(released@ =~= seq![ex]);
            return (Err(unwrap_error(hrx_status_from_iree(Some(e)))), released);
        },
        Ok(ls) => ls,
    };
    let hp = match heap {
        Err(e) => {
            push_all(&mut released, &ls);
            released.push(ex);
            assert(released@ =~= ls@.push(ex));
            return (Err(unwrap_error(hrx_status_from_iree(Some(e)))), released);
        },
        Ok(hp) => hp,
    };
    released.push(ex);
    push_all(&mut released, &ls);
    released.push(hp);
    assert(released@ =~= seq![ex] + ls@.push(hp));
    let dr = match driver {
        Err(e) => return (Err(unwrap_error(hrx_status_from_iree(Some(e)))), released),
        Ok(dr) => dr,
    };
    match device {
        Err(e) => {
            released.push(dr);
            (Err(unwrap_error(hrx_status_from_iree(Some(e)))), released)
        },
        Ok(dv) => (Ok((dr, dv)), released),
    }
}

/// Creating the shared objects, given what each step returned: the VM
/// instance, the registration of the HAL types in it, and the proactor pool.
/// The result is the handles (with the system allocator `host_allocator`) or
/// the first step's error converted; the second result is the VM instance to
/// release when a later step failed.
pub fn shared_creation_outcome(
    instance: Result<u64, IreeError>,
    registered: IreeStatus,
    pool: Result<u64, IreeError>,
    host_allocator: HrxHostAllocator,
) -> (r: (Result<SharedHandles, HrxStatusS>, Option<u64>))
    requires
        instance matches Ok(i) ==> i != 0,
        pool matches Ok(p) ==> p != 0,
    ensures
        created_ok(r.0),
        instance is Err ==> r.0 is Err && converts(Some(instance->Err_0), Some(r.0->Err_0)) && r.1 is None,
        instance is Ok && registered is Some ==> r.0 is Err && converts(registered, Some(r.0->Err_0))
            && r.1 == Some(instance->Ok_0),
        instance is Ok && registered is None && pool is Err ==> r.0 is Err && converts(
            Some(pool->Err_0),
            Some(r.0->Err_0),
        ) && r.1 == Some(instance->Ok_0),
        instance is Ok && registered is None && pool is Ok ==> r.0 == Ok::<SharedHandles, HrxStatusS>(
            SharedHandles { vm_instance: instance->Ok_0, proactor_pool: pool->Ok_0, host_allocator },
        ) && r.1 is None,
{
    let inst = match instance {
        Err(e) => return (Err(unwrap_error(hrx_status_from_iree(Some(e)))), None),
        Ok(i) => i,
    };
    if registered.is_some() {
        return (Err(unwrap_error(hrx_status_from_iree(registered))), Some(inst));
    }
    match pool {
        Err(e) => (Err(unwrap_error(hrx_status_from_iree(Some(e)))), Some(inst)),
        Ok(p) => (Ok(SharedHandles { vm_instance: inst, proactor_pool: p, host_allocator }), None),
    }
}

/// The CPU device's parts, given the local-task device (driver and HAL
/// device, or why it could not be built), the single-device group made over
/// it, the device's allocator and the handle the device is known by. When the
/// group cannot be made, its error is returned converted, with the HAL device
/// and then the driver to release.
pub fn cpu_device_parts(
    local_task: Result<(u64, u64), HrxStatusS>,
    group: Result<u64, IreeError>,
    hal_allocator: u64,
    device_handle: u64,
) -> (r: (Result<CpuDeviceParts, HrxStatusS>, Vec<u64>))
    ensures
        local_task is Err ==> r.0 == Err::<CpuDeviceParts, HrxStatusS>(local_task->Err_0) && r.1@.len() == 0,
        local_task is Ok && group is Err ==> r.0 is Err && converts(Some(group->Err_0), Some(r.0->Err_0))
            && r.1@ == seq![local_task->Ok_0.1, local_task->Ok_0.0],
        local_task is Ok && group is Ok ==> r.0 == Ok::<CpuDeviceParts, HrxStatusS>(
            CpuDeviceParts {
                driver: local_task->Ok_0.0,
                hal_device: local_task->Ok_0.1,
                hal_device_group: group->Ok_0,
                hal_allocator,
                device_handle,
            },
        ) && r.1@.len() == 0,
{
    let mut released: Vec<u64> = Vec::new();
    let (driver, hal_device) = match local_task {
        Err(e) => return (Err(e), released),
        Ok(d) => d,
    };
    match group {
        Err(e) => {
            released.push(hal_device);
            released.push(driver);
            assert(released@ =~= seq![hal_device, driver]);
            (Err(unwrap_error(hrx_status_from_iree(Some(e)))), released)
        },
        Ok(g) => (
            Ok(CpuDeviceParts { driver, hal_device, hal_device_group: g, hal_allocator, device_handle }),
            released,
        ),
    }
}

/// The IREE objects behind a freshly created CPU device: the task driver, the
/// HAL device, its single-device group and its allocator, and the handle the
/// device is known by.
#[derive(Clone, Copy, PartialEq, Eq, Structural, Debug)]
pub struct CpuDeviceParts {
    pub driver: u64,
    pub hal_device: u64,
    pub hal_device_group: u64,
    pub hal_allocator: u64,
    pub device_handle: u64,
}

/// The CPU accelerator: its devices and its task driver.
pub struct CpuState {
    pub devices: Vec<HrxDeviceS>,
    pub device_count: i32,
    pub initialized: bool,
    pub driver: u64,
}

/// What a shutdown hands back for release: the devices, the driver, and the
/// shared objects if this was their last user.
pub struct CpuTeardown {
    pub devices: Vec<HrxDeviceS>,
    pub driver: u64,
    pub shared: Option<(u64, u64)>,
}

/// The runtime's global state.
pub struct Globals {
    pub shared: SharedState,
    pub cpu: CpuState,
}

impl Globals {
    /// Nothing initialised.
    pub fn new() -> (g: Globals)
        ensures
            g.wf(),
            !g.shared.initialized,
            !g.cpu.initialized,
            g.shared == (SharedState {
                vm_instance: 0,
                proactor_pool: 0,
                host_allocator: HrxHostAllocator { self_: 0, ctl: 0 },
                init_count: 0,
                initialized: false,
            }),
            g.cpu.devices@.len() == 0,
            g.cpu.device_count == 0,
            g.cpu.driver == 0,
    {
        Globals {
            shared: SharedState::new(),
            cpu: CpuState { devices: Vec::new(), device_count: 0, initialized: false, driver: 0 },
        }
    }

    /// The CPU accelerator's device list matches its count, and while it is
    /// initialised it holds one user of the shared state.
    pub open spec fn wf(&self) -> bool {
        &&& self.shared.wf()
        &&& self.cpu.device_count == self.cpu.devices@.len()
        &&& (self.cpu.initialized ==> self.shared.initialized)
        &&& (!self.cpu.initialized ==> self.cpu.devices@.len() == 0)
        &&& forall|i: int| 0 <= i < self.cpu.devices@.len() ==> (#[trigger] self.cpu.devices@[i]).wf()
    }

    /// What `hrx_cpu_initialize` does: from `old` to `new`, returning `r`.
    pub open spec fn initialize_post(
        old: Globals,
        new: Globals,
        shared_created: Result<SharedHandles, HrxStatusS>,
        device_created: Result<CpuDeviceParts, HrxStatusS>,
        r: HrxStatus,
    ) -> bool {
        &&& new.wf()
        &&& old.cpu.initialized ==> r is Some && is_error(
            r->0,
            HrxStatusCode::AlreadyExists,
            "CPU accelerator already initialized"@,
        ) && new.shared == old.shared && new.cpu == old.cpu
        &&& !old.cpu.initialized ==> {
            let (s1, st) = old.shared.ensure_spec(shared_created);
            if st is Some {
                r == st && new.shared == old.shared && !new.cpu.initialized
            } else if device_created is Err {
                r == Some(device_created->Err_0) && new.shared == s1.release_spec().0
                    && !new.cpu.initialized
            } else {
                let p = device_created->Ok_0;
                &&& r is None
                &&& new.shared == s1
                &&& new.cpu.initialized
                &&& new.cpu.device_count == 1
                &&& new.cpu.driver == p.driver
                &&& new.cpu.devices@[0].type_ == HRX_ACCELERATOR_CPU
                &&& new.cpu.devices@[0].ordinal == 0
                &&& new.cpu.devices@[0].hal_device == p.hal_device
                &&& new.cpu.devices@[0].hal_device_group == p.hal_device_group
                &&& new.cpu.devices@[0].allocator == HrxAllocatorInline {
                    hal_allocator: p.hal_allocator,
                    device: p.device_handle,
                }
                &&& new.cpu.devices@[0].name@ == cstr_field(cpu_device_name(), DEVICE_NAME_BYTES as nat)
                &&& new.cpu.devices@[0].architecture@ == cstr_field(
                    cpu_device_arch(),
                    DEVICE_ARCH_BYTES as nat,
                )
                &&& cstr_len_spec(new.cpu.devices@[0].name@) == cpu_device_name().len()
                &&& cstr_len_spec(new.cpu.devices@[0].architecture@) == cpu_device_arch().len()
                &&& field_text(new.cpu.devices@[0].name@) == cpu_device_name().push(0u8)
                &&& field_text(new.cpu.devices@[0].architecture@) == cpu_device_arch().push(0u8)
            }
        }
    }

    /// `hrx_cpu_initialize`: fails if already initialised; else joins the shared
    /// state (with `shared_created` as its creation outcome when it is the first
    /// user) and installs the single CPU device `CPU 0 (local-task)` built from
    /// `device_created` (`cpu_device_parts`); when the device could not be
    /// built the shared state is left again and the error is returned.
    pub fn hrx_cpu_initialize(
        &mut self,
        shared_created: Result<SharedHandles, HrxStatusS>,
        device_created: Result<CpuDeviceParts, HrxStatusS>,
    ) -> (r: HrxStatus)
        requires
            old(self).wf(),
            old(self).shared.init_count < i32::MAX,
            created_ok(shared_created),
        ensures
            Globals::initialize_post(*old(self), *final(self), shared_created, device_created, r),
    {
        if self.cpu.initialized {
            return Some(status_error(HrxStatusCode::AlreadyExists, "CPU accelerator already initialized"));
        }
        let st = self.shared.ensure(shared_created);
        if st.is_some() {
            return st;
        }
        match device_created {
            Err(e) => {
                self.shared.release();
                Some(e)
            },
            Ok(p) => {
                let name_text: Vec<u8> = vec![
                    67u8, 80u8, 85u8, 32u8, 48u8, 32u8, 40u8, 108u8, 111u8, 99u8, 97u8, 108u8, 45u8, 116u8, 97u8,
                    115u8, 107u8, 41u8,
                ];
                let arch_text: Vec<u8> = vec![104u8, 111u8, 115u8, 116u8];
                assert(name_text@ == cpu_device_name());
                assert(arch_text@ == cpu_device_arch());
                let name = cstr_array(name_text.as_slice(), DEVICE_NAME_BYTES);
                let arch = cstr_array(arch_text.as_slice(), DEVICE_ARCH_BYTES);
                proof {
                    lemma_cstr_field_text(cpu_device_name(), DEVICE_NAME_BYTES as nat);
                    lemma_cstr_field_text(cpu_device_arch(), DEVICE_ARCH_BYTES as nat);
                }
                let dev = HrxDeviceS {
                    type_: HRX_ACCELERATOR_CPU,
                    ordinal: 0,
                    allocator: HrxAllocatorInline { hal_allocator: p.hal_allocator, device: p.device_handle },
                    hal_device_group: p.hal_device_group,
                    hal_device: p.hal_device,
                    name,
                    architecture: arch,
                };
                assert(dev.name@[DEVICE_NAME_BYTES - 1] == 0);
                assert(has_nul(dev.name@));
                assert(dev.architecture@[DEVICE_ARCH_BYTES - 1] == 0);
                assert(has_nul(dev.architecture@));
                self.cpu.devices = Vec::new();
                self.cpu.devices.push(dev);
                self.cpu.driver = p.driver;
                self.cpu.device_count = 1;
                self.cpu.initialized = true;
                None
            },
        }
    }

    /// What `hrx_cpu_shutdown` does: from `old` to `new`, returning `r`.
    pub open spec fn shutdown_post(old: Globals, new: Globals, r: Result<CpuTeardown, HrxStatusS>) -> bool {
        &&& new.wf()
        &&& !old.cpu.initialized ==> r is Err && is_error(
            r->Err_0,
            HrxStatusCode::InvalidArgument,
            "CPU accelerator not initialized"@,
        ) && new.shared == old.shared && new.cpu == old.cpu
        &&& old.cpu.initialized ==> r is Ok && !new.cpu.initialized && new.cpu.device_count == 0
            && new.cpu.driver == 0 && r->Ok_0.devices@ == old.cpu.devices@ && r->Ok_0.driver == old.cpu.driver
            && (new.shared, r->Ok_0.shared) == old.shared.release_spec()
    }

    /// `hrx_cpu_shutdown`: fails if not initialised; else hands back the
    /// devices and the driver, and leaves the shared state.
    pub fn hrx_cpu_shutdown(&mut self) -> (r: Result<CpuTeardown, HrxStatusS>)
        requires
            old(self).wf(),
        ensures
            Globals::shutdown_post(*old(self), *final(self), r),
    {
        if !self.cpu.initialized {
            return Err(status_error(HrxStatusCode::InvalidArgument, "CPU accelerator not initialized"));
        }
        let mut devices: Vec<HrxDeviceS> = Vec::new();
        std::mem::swap(&mut devices, &mut self.cpu.devices);
        let driver = self.cpu.driver;
        self.cpu.driver = 0;
        self.cpu.device_count = 0;
        self.cpu.initialized = false;
        let shared = self.shared.release();
        Ok(CpuTeardown { devices, driver, shared })
    }

    /// `hrx_cpu_device_count`.
    pub fn hrx_cpu_device_count(&self) -> (r: Result<i32, HrxStatusS>)
        ensures
            !self.cpu.initialized ==> r is Err && is_error(
                r->Err_0,
                HrxStatusCode::Unavailable,
                "CPU accelerator not initialized"@,
            ),
            self.cpu.initialized ==> r == Ok::<i32, HrxStatusS>(self.cpu.device_count),
    {
        if !self.cpu.initialized {
            return Err(status_error(HrxStatusCode::Unavailable, "CPU accelerator not initialized"));
        }
        Ok(self.cpu.device_count)
    }

    /// `hrx_cpu_device_get`: the device at `index` (borrowed, no reference taken).
    pub fn hrx_cpu_device_get(&self, index: i32) -> (r: Result<&HrxDeviceS, HrxStatusS>)
        requires
            self.wf(),
        ensures
            !self.cpu.initialized ==> r is Err && is_error(
                r->Err_0,
                HrxStatusCode::Unavailable,
                "CPU accelerator not initialized"@,
            ),
            self.cpu.initialized && (index < 0 || index >= self.cpu.device_count) ==> r is Err && is_error(
                r->Err_0,
                HrxStatusCode::OutOfRange,
                "CPU device index out of range"@,
            ),
            self.cpu.initialized && 0 <= index < self.cpu.device_count ==> r is Ok && r->Ok_0
                == &self.cpu.devices@[index as int],
    {
        if !self.cpu.initialized {
            return Err(status_error(HrxStatusCode::Unavailable, "CPU accelerator not initialized"));
        }
        if index < 0 || index >= self.cpu.device_count {
            return Err(status_error(HrxStatusCode::OutOfRange, "CPU device index out of range"));
        }
        Ok(&self.cpu.devices[index as usize])
    }
}

/// A CPU accelerator that initialised and then shut down is uninitialised
/// again (so its device count and devices are unavailable), and the shared
/// state is back to its users and objects from before; shutting down again
/// is refused and changes nothing; and initialising again succeeds when the
/// shared objects and the device can be made.
pub proof fn law_cpu_initialize_shutdown(
    g0: Globals,
    g1: Globals,
    g2: Globals,
    g3: Globals,
    g4: Globals,
    shared_created: Result<SharedHandles, HrxStatusS>,
    device_created: Result<CpuDeviceParts, HrxStatusS>,
    r1: HrxStatus,
    r2: Result<CpuTeardown, HrxStatusS>,
    r3: Result<CpuTeardown, HrxStatusS>,
    shared_again: Result<SharedHandles, HrxStatusS>,
    device_again: Result<CpuDeviceParts, HrxStatusS>,
    r4: HrxStatus,
)
    requires
        g0.wf(),
        g0.shared.init_count < i32::MAX,
        !g0.cpu.initialized,
        created_ok(shared_created),
        Globals::initialize_post(g0, g1, shared_created, device_created, r1),
        r1 is None,
        Globals::shutdown_post(g1, g2, r2),
        Globals::shutdown_post(g2, g3, r3),
        created_ok(shared_again),
        shared_again is Ok,
        device_again is Ok,
        Globals::initialize_post(g2, g4, shared_again, device_again, r4),
    ensures
        r2 is Ok,
        g2.wf(),
        !g2.cpu.initialized,
        g2.shared.init_count == g0.shared.init_count,
        g2.shared.initialized == g0.shared.initialized,
        g2.shared.vm_instance == g0.shared.vm_instance,
        g2.shared.proactor_pool == g0.shared.proactor_pool,
        g2.shared.init_count < i32::MAX,
        r3 is Err && r3->Err_0.code == 3,
        g3.shared == g2.shared && g3.cpu == g2.cpu,
        r4 is None,
        g4.cpu.initialized,
{
}

} // verus!
