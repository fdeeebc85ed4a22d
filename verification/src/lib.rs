//! An interactive terminal console for inspecting and controlling containers
//! managed by a remote container-management daemon.
//!
//! This library holds the core of that console: the bridge between a
//! synchronous, frame-driven UI context and an asynchronous worker that owns
//! the backend connection — two bounded queues with a best-effort send
//! policy, the worker's dispatch and publish decisions — and the table state
//! model that keeps on-screen rows consistent across polling cycles while
//! preserving the operator's selection. The transport, the terminal widgets
//! and the process plumbing live outside, around these contracts.

pub mod containers;
pub mod containers_table_view;
pub mod lexord;
pub mod logs;
pub mod messages;
pub mod queue;
pub mod row_sort;
pub mod table_state;
pub mod ui;
pub mod worker;

use vstd::prelude::*;

verus! {

/// Consume an outcome whose failure may be safely ignored: the caller tried
/// an operation to the best of its abilities, and a failure (for example a
/// full channel) is dropped by design rather than propagated.
pub fn try_best<T>(err: T) {
    let _ = err;
}

} // verus!
