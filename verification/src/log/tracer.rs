//! The console subscriber: fans log records out to a primary console and
//! an optional secondary one, allocating span identities whose low bits
//! remember which console was enabled when the span began.

use vstd::prelude::*;

use crate::log::layer::fmt::Output;
use crate::log::writer::{LogOutput, NoOutput};

verus! {

/// The identity bit marking the primary console as enabled for a span.
pub const PRI_BIT: u64 = 1;

/// The identity bit marking the secondary console as enabled for a span.
pub const SEC_BIT: u64 = 2;

/// A subscriber writing every record to a primary console and, when it is
/// enabled, a secondary one.
pub struct ConsoleSubscriber<P, S = NoOutput> {
    pri_con: Output<P>,
    sec_con: Output<S>,
    next_id: u64,
}

impl<P: LogOutput, S: LogOutput> ConsoleSubscriber<P, S> {
    /// The primary console.
    pub closed spec fn pri_spec(&self) -> Output<P> {
        self.pri_con
    }

    /// The secondary console.
    pub closed spec fn sec_spec(&self) -> Output<S> {
        self.sec_con
    }

    /// The base of the next span identity.
    pub closed spec fn next_id_spec(&self) -> u64 {
        self.next_id
    }

    /// A subscriber over both consoles' default instances.
    pub fn new() -> (r: Self) where P: Default, S: Default
        ensures
            r.next_id_spec() == 0,
    {
        ConsoleSubscriber {
            pri_con: Output::new(P::default()),
            sec_con: Output::new(S::default()),
            next_id: 0,
        }
    }

    /// A subscriber with only the primary console attached.
    pub fn primary_only(primary: P) -> (r: Self) where S: Default
        ensures
            r.pri_spec().writer_spec() == primary,
            r.next_id_spec() == 0,
    {
        ConsoleSubscriber {
            pri_con: Output::new(primary),
            sec_con: Output::new(S::default()),
            next_id: 0,
        }
    }

    /// The same subscriber with the secondary console replaced.
    pub fn with_secondary<S2: LogOutput>(self, output: S2) -> (r: ConsoleSubscriber<P, S2>)
        ensures
            r.pri_spec() == self.pri_spec(),
            r.sec_spec().writer_spec() == output,
            r.next_id_spec() == self.next_id_spec(),
    {
        ConsoleSubscriber {
            pri_con: self.pri_con,
            sec_con: Output::new(output),
            next_id: self.next_id,
        }
    }

    /// Whether any attached console accepts records.
    pub fn enabled(&self) -> (r: bool)
        ensures
            r == (self.pri_spec().writer_spec().enabled_spec()
                || self.sec_spec().writer_spec().enabled_spec()),
    {
        self.pri_con.enabled() || self.sec_con.enabled()
    }

    /// Allocates the identity for a new span: the running counter, with
    /// the low bits marking which consoles are enabled right now. A
    /// counter that has run into the low marker bits starts over.
    pub fn new_span_id(&mut self) -> (id: u64)
        requires
            old(self).next_id_spec() < u64::MAX,
        ensures
            final(self).pri_spec() == old(self).pri_spec(),
            final(self).sec_spec() == old(self).sec_spec(),
            old(self).pri_spec().writer_spec().enabled_spec() ==> id & PRI_BIT != 0,
            old(self).sec_spec().writer_spec().enabled_spec() ==> id & SEC_BIT != 0,
    {
        proof {
            assert(forall|x: u64| #[trigger] ((x | 1u64) & 1u64) != 0u64) by (bit_vector);
            assert(forall|x: u64| #[trigger] ((x | 2u64) & 2u64) != 0u64) by (bit_vector);
            assert(forall|x: u64| #[trigger] ((x | 2u64) & 1u64) == (x & 1u64)) by (bit_vector);
        }
        let mut id = self.next_id;
        self.next_id = self.next_id + 1;
        if id & PRI_BIT != 0 {
            self.next_id = 0;
        }
        if self.pri_con.enabled() {
            id = id | PRI_BIT;
        }
        if self.sec_con.enabled() {
            id = id | SEC_BIT;
        }
        id
    }
}

} // verus!
