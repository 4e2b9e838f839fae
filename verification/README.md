# hrx_rs

A verified core for the HRX runtime and its HIP passthrough interceptors.

`src/` is the library, checked with Verus:

- `status`: status codes, IREE-to-HRX status conversion.
- `device`, `runtime`: devices and their properties, the shared runtime
  state (counted by its users) and the CPU accelerator.
- `buffer`, `buffer_view`, `stream`, `sync`, `queue`, `value_list`,
  `executable`, `pool`: the object state machines and argument checks of the
  HRX API. Work done by the IREE runtime enters these functions as the result
  it returned (`IreeStatus`, `Result<_, IreeError>`), so every outcome of an
  IREE call is covered by the contracts; the arguments of the IREE calls
  (`QueueTransferPlan`, `StreamCommand`, `DispatchRequest`, `AllocaRequest`)
  and the IREE objects to release after a partial failure are returned as
  data, in their order.
- `handle`: counted handles; the last release hands the object back once.
- `iree`: the plain values exchanged with IREE.
- `tracker`, `kernels`, `dump`, `tracer`: the buffer tracer's allocation table,
  kernel registry, FNV-1a hashing, hex dumps, and the trace lines.
- `hiplog`: the logging interceptor's line for each HIP call it forwards.
- `hipnames`, `intercept`, `numparse`, `text`: names and settings of the HIP
  interceptors, passthrough decisions, C-style integer parsing, and the byte
  text every log line is made of.

`app/` holds what Verus does not see: the HIP function table, the
passthrough library's dynamic loading and exported entry points, the logging,
tracing and no-op interceptors, log files, and reading executables from disk.
The calls into the IREE runtime's C API are not part of this crate.

`tests/` runs the library on concrete values.
