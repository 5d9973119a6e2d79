//! Error kinds and the error value returned by GDS operations.

use vstd::prelude::*;

verus! {

/// What went wrong in a multi-step operation.
#[derive(Debug, Clone, Copy, PartialEq, Eq, Structural)]
pub enum ErrorKind {
    /// No buffer holds the named port.
    BufferLookup,
    /// The port's offset within its buffer could not be found.
    OffsetLookup,
    /// The buffer page could not be locked.
    BufferLock,
    /// The buffer page could not be unlocked.
    BufferUnlock,
    /// The buffer handle could not be released.
    BufferRelease,
    /// The requested length does not fit the port.
    PortSizeMismatch,
    /// A cyclic data exchange between bus and GDS failed.
    Transfer,
    /// The bus master rejected a service that its current state does not permit.
    BusState,
    /// The connected bus does not match the configuration frame.
    ConfigurationMismatch,
    /// A device or the bus did not answer in time.
    Timeout,
    /// Any other failure reported by the runtime.
    Other,
}

/// An error reported by the runtime, with its text.
#[derive(Debug)]
pub struct PlcnextError {
    pub kind: ErrorKind,
    pub details: String,
}

impl PlcnextError {
    /// An error of kind `Other` carrying `msg`.
    pub fn new(msg: &str) -> (r: PlcnextError)
        ensures
            r.kind == ErrorKind::Other,
            r.details@ == msg@,
    {
        PlcnextError { kind: ErrorKind::Other, details: String::from_str(msg) }
    }

    /// An error of the given kind carrying `msg`.
    pub fn with_kind(kind: ErrorKind, msg: String) -> (r: PlcnextError)
        ensures
            r.kind == kind,
            r.details == msg,
    {
        PlcnextError { kind, details: msg }
    }

    /// The error's text.
    pub fn description(&self) -> (r: &str)
        ensures
            r@ == self.details@,
    {
        self.details.as_str()
    }
}

} // verus!
