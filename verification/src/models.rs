//! Values exchanged with callers of the pump service.

use vstd::prelude::*;

verus! {

/// A scheduled request to hold one pump's line active for a fixed time.
#[derive(Clone, Copy, Debug, PartialEq, Eq, Structural)]
pub struct PumpJob {
    pub pump_number: u8,
    pub duration_in_milliseconds: u64,
}

/// Whether the worker currently holds one pump's line active.
#[derive(Clone, Copy, Debug, PartialEq, Eq, Structural)]
pub struct PumpState {
    pub pump_number: u8,
    pub is_running: bool,
}

/// Body of a rejected request: a message for the person who sent it.
#[derive(Clone, Debug)]
pub struct GenericError {
    pub message: String,
}

} // verus!
