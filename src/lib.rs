//! Typed bindings to a preemptive real-time kernel: the status model, wait
//! options and tick conversion, the lifecycle and bookkeeping of each kernel
//! primitive, and the signal that lets a thread block on a future.
use vstd::prelude::*;

pub mod allocator;
pub mod error;
pub mod event_flags;
pub mod executor;
pub mod mutex;
pub mod pool;
pub mod queue;
pub mod thread;
pub mod time;
pub mod timer;
pub mod wait;

verus! {
} // verus!
