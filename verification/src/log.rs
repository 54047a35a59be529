//! The logging consoles and subscriber plumbing: output sinks for the
//! graphics console, the firmware text console and the emulator debug port,
//! and the subscriber bookkeeping that fans events out to them.

pub mod gop_cons;
pub mod layer;
pub mod qemu;
pub mod tracer;
pub mod txt_cons;
pub mod writer;
