//! The failures that the simulation core reports.

use vstd::prelude::*;

verus! {

/// Why a grid could not be built or a batch of edits was not taken.
#[derive(Clone, Copy, Debug, PartialEq, Eq, Structural)]
pub enum AutomataError {
    /// A grid was asked for with no columns or no rows, or with buffers that
    /// do not hold one cell for each grid position.
    InvalidDimensions,
    /// A batch of edits holds more entries than the queue has slots. The
    /// batch is rejected as a whole; nothing is truncated.
    CapacityExceeded,
}

impl AutomataError {
    /// A line of text for the failure.
    pub fn message(&self) -> (text: &'static str)
        ensures
            text@ == match *self {
                AutomataError::InvalidDimensions => "grid dimensions are invalid"@,
                AutomataError::CapacityExceeded => "edit batch exceeds the queue capacity"@,
            },
    {
        match self {
            AutomataError::InvalidDimensions => "grid dimensions are invalid",
            AutomataError::CapacityExceeded => "edit batch exceeds the queue capacity",
        }
    }
}

} // verus!
