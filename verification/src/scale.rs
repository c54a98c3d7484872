//! How a control's position maps to its value.

use vstd::prelude::*;

verus! {

/// The mapping between a control's position and its value.
#[derive(Debug, Clone, Copy, PartialEq, Eq, Structural)]
pub enum Scale {
    /// Equal steps of position are equal steps of value.
    Linear,
    /// Equal steps of position multiply the value alike (for frequencies);
    /// values must be positive.
    Logarithmic,
}

impl Default for Scale {
    /// Linear.
    fn default() -> (s: Scale)
        ensures
            s == Scale::Linear,
    {
        Scale::Linear
    }
}

} // verus!
