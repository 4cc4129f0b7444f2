//! Host runtime for a single pre-compiled WebAssembly game module.
//!
//! The host owns the shared linear memory exported to the guest, supplies the
//! handful of imported functions the guest expects (logging, timing, a stubbed
//! video callback), links the guest binary into a runnable instance, and steps
//! it at a fixed real-time cadence.

pub mod context;
pub mod engine;
pub mod errors;
pub mod guest_memory;
pub mod invoke;
pub mod linker;
pub mod pacing;
pub mod text;
pub mod timing;
pub mod video;
