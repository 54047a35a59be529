//! Debugging support: the unwind table extracted from the loaded image,
//! and rough stack traces over it.

pub mod info;
pub mod trace;
