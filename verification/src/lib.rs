//! A portable model of a bare-metal, per-core cooperative task runtime:
//! core-local storage, a calibrated monotonic timer, per-core schedulers,
//! a global runtime registry with a shared injector queue, and a
//! work-stealing executor loop — plus the console, formatting and build
//! helpers that surround it.

pub mod debug;
pub mod display;
pub mod log;
pub mod paths;
pub mod platform;
pub mod runtime;
pub mod utils;
