//! Model-specific registers, identified by their register number.
//!
//! Reading and writing an MSR takes a privileged instruction, which lives
//! outside this library; here an [`Msr`] is the register's identity alone,
//! ordered and compared by its number.

use vstd::prelude::*;

verus! {

/// A model-specific register: a 32-bit register number plus an optional
/// human-readable name. Two registers are the same exactly when their
/// numbers agree; the name is a label only.
#[derive(Clone, Copy)]
pub struct Msr {
    pub reg: u32,
    name: Option<&'static str>,
}

impl Msr {
    /// The register number.
    pub closed spec fn reg_spec(&self) -> u32 {
        self.reg
    }

    /// The attached label, if any.
    pub closed spec fn name_spec(&self) -> Option<&'static str> {
        self.name
    }

    /// An anonymous register.
    pub fn new(reg: u32) -> (r: Self)
        ensures
            r.reg_spec() == reg,
            r.name_spec() is None,
    {
        Self { reg, name: None }
    }

    /// A register with a label attached.
    pub fn with_name(reg: u32, name: &'static str) -> (r: Self)
        ensures
            r.reg_spec() == reg,
            r.name_spec() == Some(name),
    {
        Self { reg, name: Some(name) }
    }
}

impl PartialEq for Msr {
    fn eq(&self, other: &Self) -> (r: bool) {
        self.reg == other.reg
    }
}

impl vstd::std_specs::cmp::PartialEqSpecImpl for Msr {
    open spec fn obeys_eq_spec() -> bool {
        true
    }

    open spec fn eq_spec(&self, other: &Self) -> bool {
        self.reg_spec() == other.reg_spec()
    }
}

impl Eq for Msr {}

impl PartialOrd for Msr {
    fn partial_cmp(&self, other: &Self) -> (r: Option<core::cmp::Ordering>) {
        if self.reg > other.reg {
            Some(core::cmp::Ordering::Greater)
        } else if self.reg < other.reg {
            Some(core::cmp::Ordering::Less)
        } else {
            Some(core::cmp::Ordering::Equal)
        }
    }
}

impl vstd::std_specs::cmp::PartialOrdSpecImpl for Msr {
    open spec fn obeys_partial_cmp_spec() -> bool {
        true
    }

    open spec fn partial_cmp_spec(&self, other: &Self) -> Option<core::cmp::Ordering> {
        if self.reg_spec() > other.reg_spec() {
            Some(core::cmp::Ordering::Greater)
        } else if self.reg_spec() < other.reg_spec() {
            Some(core::cmp::Ordering::Less)
        } else {
            Some(core::cmp::Ordering::Equal)
        }
    }
}

} // verus!
