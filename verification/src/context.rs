//! Process-lifetime state shared by every host function.
//!
//! Exactly one context exists per run. It is constructed immediately before
//! the guest module is instantiated — capturing the wall-clock start instant
//! at that moment — and referenced by every host function for the life of
//! the process. The start instant is write-once; ordering is enforced by
//! construction order, not by runtime checks.

use vstd::prelude::*;
use crate::timing::{duration_between, duration_millis, instant_now, truncate_millis};

verus! {

/// The wall-clock origin of the simulation and the handle to the shared
/// linear memory the guest runs in.
pub struct ExecutionContext {
    pub start: std::time::Instant,
    pub memory: wasmer::Memory,
}

impl ExecutionContext {
    /// Capture the start instant now and take the shared memory handle.
    pub fn new(memory: wasmer::Memory) -> (r: ExecutionContext)
        ensures
            r.memory == memory,
    {
        ExecutionContext { start: instant_now(), memory }
    }

    /// The shared memory the guest's host functions read through.
    pub fn memory(&self) -> (r: &wasmer::Memory)
        ensures
            *r == self.memory,
    {
        &self.memory
    }

    /// Milliseconds elapsed since the context was constructed, measured at
    /// call time and truncated to a 32-bit signed integer as the guest
    /// expects — wrapping silently once the count outgrows 32 bits.
    pub fn elapsed_milliseconds(&self) -> i32 {
        let now = instant_now();
        let elapsed = duration_between(&self.start, &now);
        truncate_millis(duration_millis(&elapsed))
    }
}

} // verus!
