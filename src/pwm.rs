//! Errors of the pulse-width outputs.
use vstd::prelude::*;

verus! {

/// Why a duty cycle could not be set.
#[derive(Debug, Copy, Clone, Eq, PartialEq, Ord, PartialOrd, Hash)]
pub enum PwmError {
    /// The duty cycle exceeds the maximum.
    DutyCycleTooLarge,
}

} // verus!
