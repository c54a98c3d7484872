//! The shared size scale of the components.

use vstd::prelude::*;

verus! {

/// Standard component sizes, smallest first.
#[derive(Debug, Clone, Copy, PartialEq, Eq, Hash, Structural)]
pub enum ComponentSize {
    /// Extra small, for dense layouts.
    Xs,
    /// Small.
    Sm,
    /// Medium, the default.
    Md,
    /// Large.
    Lg,
    /// Extra large, for prominent elements.
    Xl,
}

impl Default for ComponentSize {
    /// Medium.
    fn default() -> (s: ComponentSize)
        ensures
            s == ComponentSize::Md,
    {
        ComponentSize::Md
    }
}

/// Components that can be given a standard size.
pub trait Sized {
    /// The component with the given size.
    fn size(self, size: ComponentSize) -> Self;
}

} // verus!
