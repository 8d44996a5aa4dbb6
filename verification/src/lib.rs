//! Cross-process sharing of GPU image resources: a broker process owns each
//! resource, client processes import an OS memory handle for it and then watch
//! a small versioned record in shared memory to detect staleness.
//!
//! This crate is the coordination core: the byte-exact wire codec for the
//! request/response envelopes, the layout and locking discipline of the shared
//! record, the timeout-bounded channel protocol, the broker's registry with
//! its create/find/propagate command handlers, and the reactor's bookkeeping.
//! The OS-facing edges (sockets, shared-memory mappings, the graphics backend)
//! live outside and hand plain values in and out.

pub mod error;
pub mod img_data;
pub mod ipc_commands;
pub mod record;
pub mod registry;
pub mod ipc_shmem;
pub mod gl_shared_image;
pub mod vk_shared_image;
pub mod ipc_unix_socket;
pub mod server;
pub mod client;

use vstd::prelude::*;

verus! {

/// Sum of two counters; the caller keeps the sum within machine range.
pub fn add(left: usize, right: usize) -> (r: usize)
    requires
        left + right <= usize::MAX,
    ensures
        r == left + right,
{
    left + right
}

} // verus!
