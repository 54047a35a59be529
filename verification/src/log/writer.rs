//! The sink abstraction the log layers write through: something that can
//! hand out a writer, say whether it is enabled, and report how wide its
//! lines are.

use vstd::prelude::*;

verus! {

/// A log output: a factory for writers plus its enablement and geometry.
pub trait LogOutput: Sized {
    /// The concrete writer this output hands out.
    type Writer;

    /// Whether this output currently accepts log text.
    spec fn enabled_spec(&self) -> bool;

    /// A fresh writer for one log record.
    fn make_writer(&self) -> Self::Writer;

    fn enabled(&self) -> (r: bool)
        ensures
            r == self.enabled_spec(),
    ;

    /// A writer, only when the output is enabled.
    fn make_writer_for(&self) -> (r: Option<Self::Writer>)
        ensures
            r is Some <==> self.enabled_spec(),
    {
        if self.enabled() {
            Some(self.make_writer())
        } else {
            None
        }
    }

    /// How many characters fit on one line.
    fn line_len(&self) -> usize {
        80
    }
}

/// The absent secondary output: never enabled.
#[derive(Clone, Copy, PartialEq, Eq, Structural, Debug)]
pub struct NoOutput;

impl Default for NoOutput {
    fn default() -> (r: Self)
        ensures
            r == NoOutput,
    {
        NoOutput
    }
}

impl LogOutput for NoOutput {
    type Writer = NoOutput;

    open spec fn enabled_spec(&self) -> bool {
        false
    }

    fn make_writer(&self) -> Self::Writer {
        NoOutput
    }

    fn enabled(&self) -> (r: bool) {
        false
    }
}

} // verus!
