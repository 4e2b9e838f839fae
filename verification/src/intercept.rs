//! Decisions of the passthrough library that stands in for `libamdhip64.so`:
//! which backend to load, which interceptor to load, which function table
//! the exported HIP entry points forward through.
use vstd::prelude::*;

verus! {

/// The version written in the real function table.
pub const FUNCTION_TABLE_VERSION: u32 = 1;

/// The number of function slots in the table.
pub const FUNCTION_TABLE_SLOTS: u32 = 49;

/// `struct_size` of the function table on a 64-bit target: two 32-bit header
/// words and one pointer per slot.
pub fn function_table_size() -> (r: u32)
    ensures
        r == 8 + 8 * FUNCTION_TABLE_SLOTS,
{
    8 + 8 * FUNCTION_TABLE_SLOTS
}

/// The backend path: the value of `HIP_PASSTHROUGH_BACKEND_LIB` when set and
/// non-empty, else `/opt/rocm/lib/libamdhip64.so`.
pub fn backend_path(env_value: Option<&str>) -> (r: String)
    ensures
        env_value is Some && env_value->0@.len() > 0 ==> r@ == env_value->0@,
        !(env_value is Some && env_value->0@.len() > 0) ==> r@ == "/opt/rocm/lib/libamdhip64.so"@,
{
    match env_value {
        Some(v) => if v.is_empty() {
            "/opt/rocm/lib/libamdhip64.so".to_owned()
        } else {
            v.to_owned()
        },
        None => "/opt/rocm/lib/libamdhip64.so".to_owned(),
    }
}

/// The interceptor to load: `HIP_INTERCEPTION_LIBRARY` when set and non-empty.
pub fn interceptor_path(env_value: Option<&str>) -> (r: Option<String>)
    ensures
        env_value is Some && env_value->0@.len() > 0 ==> r is Some && r->0@ == env_value->0@,
        !(env_value is Some && env_value->0@.len() > 0) ==> r is None,
{
    match env_value {
        Some(v) => if v.is_empty() {
            None
        } else {
            Some(v.to_owned())
        },
        None => None,
    }
}

/// The table the exports forward through: the interceptor's wrapper table
/// when its `hip_interceptor_init` returned one (non-null), else the real table.
pub fn active_table(real_table: u64, interceptor_table: Option<u64>) -> (r: u64)
    ensures
        (interceptor_table is Some && interceptor_table->0 != 0) ==> r == interceptor_table->0,
        !(interceptor_table is Some && interceptor_table->0 != 0) ==> r == real_table,
{
    match interceptor_table {
        Some(t) => if t != 0 {
            t
        } else {
            real_table
        },
        None => real_table,
    }
}

/// A one-shot initialisation guard: the first request runs the
/// initialisation, every later one does not.
pub struct InitOnce {
    done: bool,
}

impl View for InitOnce {
    type V = bool;

    closed spec fn view(&self) -> bool {
        self.done
    }
}

impl InitOnce {
    pub fn new() -> (r: InitOnce)
        ensures
            !r@,
    {
        InitOnce { done: false }
    }

    /// `ensure_init`: whether this request is the one that must initialise.
    pub fn ensure_init(&mut self) -> (run: bool)
        ensures
            run == !old(self)@,
            final(self)@,
    {
        if self.done {
            false
        } else {
            self.done = true;
            true
        }
    }
}

} // verus!
