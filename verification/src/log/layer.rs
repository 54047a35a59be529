//! The log layers: formatting layers over one output each.

pub mod fmt;
