//! The process-wide session flag that arbitrates the serial port.
//!
//! A `PortRegistry` records whether a background serial reader should keep
//! running. It is the single source of truth consulted by the reader task
//! (which polls it once per outer loop iteration) and written by stop
//! requests and by the flash orchestrator, which must force the reader off
//! the port before an upload touches it.

use vstd::prelude::*;

verus! {

/// Session flag for one monitoring coordinator: `active` is true exactly
/// while a background reader is meant to keep reading.
pub struct PortRegistry {
    pub active: bool,
}

impl PortRegistry {
    /// A fresh registry: no reader is active.
    pub fn new() -> (r: PortRegistry)
        ensures
            !r.active,
    {
        PortRegistry { active: false }
    }

    /// Ask any running reader to stop. Idempotent, never blocks, always
    /// succeeds: the flag is simply set false.
    pub fn request_stop(&mut self)
        ensures
            !final(self).active,
    {
        self.active = false;
    }

    /// Mark a reader session as active; the reader task polls `is_active`
    /// and keeps reading while it returns true.
    pub fn activate(&mut self)
        ensures
            final(self).active,
    {
        self.active = true;
    }

    /// Whether a reader should currently be reading.
    pub fn is_active(&self) -> (b: bool)
        ensures
            b == self.active,
    {
        self.active
    }
}

} // verus!
