//! Verified core of the HRX runtime and the HIP passthrough interceptors.
//!
//! The library holds the decisions the runtime makes around its device work:
//! status values, argument validation, object state machines (buffers, streams,
//! the shared runtime state), and the text that the HIP interceptors emit.
//! Work done by the IREE runtime is represented by the results it hands back,
//! which the functions here take as arguments.
pub mod status;
pub mod text;
pub mod tracker;
pub mod kernels;
pub mod dump;
pub mod numparse;
pub mod tracer;
pub mod hipnames;
pub mod hiplog;
pub mod intercept;
pub mod iree;
pub mod device;
pub mod runtime;
pub mod buffer;
pub mod sync;
pub mod stream;
pub mod queue;
pub mod buffer_view;
pub mod value_list;
pub mod pool;
pub mod executable;
pub mod handle;
