//! Compile-time limits for multi-core support.

use vstd::prelude::*;

verus! {

/// How many CPU cores the runtime can manage. Each core gets one scheduler
/// slot in the global registry; the slots are claimed in order and never
/// released.
pub const MAX_CORES: usize = 2048;

} // verus!
