//! Rough stack traces: a captured starting point and the frames walked
//! from it. Reading the instruction and stack pointers takes machine
//! instructions outside this library; the walk itself is not implemented
//! yet, so a trace carries its start and an empty frame list.

use vstd::prelude::*;

verus! {

/// One stack frame: the frame base, the return address, and the stack
/// pointer inside it.
#[derive(Clone, Copy, PartialEq, Eq, Structural, Debug)]
pub struct Frame {
    pub base: usize,
    pub ip: usize,
    pub sp: usize,
}

/// A captured stack trace.
pub struct Trace {
    start_addr: usize,
    frames: Vec<Frame>,
}

impl Trace {
    /// Where the capture began.
    pub closed spec fn start_addr_spec(&self) -> int {
        self.start_addr as int
    }

    /// The walked frames, innermost first.
    pub closed spec fn frames_spec(&self) -> Seq<Frame> {
        self.frames@
    }

    /// Captures a trace from the given starting address. Walking the
    /// frames is not implemented yet, so the frame list stays empty.
    pub fn new(start_addr: usize) -> (r: Trace)
        ensures
            r.start_addr_spec() == start_addr,
            r.frames_spec() == Seq::<Frame>::empty(),
    {
        Trace { start_addr, frames: Vec::new() }
    }

    pub fn start_addr(&self) -> (r: usize)
        ensures
            r == self.start_addr_spec(),
    {
        self.start_addr
    }

    pub fn frames(&self) -> (r: &Vec<Frame>)
        ensures
            r@ == self.frames_spec(),
    {
        &self.frames
    }
}

} // verus!
