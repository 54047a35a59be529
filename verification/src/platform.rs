//! Platform-level primitives: core counts, model-specific registers,
//! core-local storage, and firmware configuration-table discovery.

pub mod local;
pub mod msr;
pub mod output;
pub mod smp;
pub mod tables;
