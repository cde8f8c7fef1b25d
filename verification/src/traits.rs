//! Builder capabilities shared by components.
use vstd::prelude::*;

use crate::size::ComponentSize;

verus! {

/// A component that can be disabled: disabled, it answers neither pointer nor keyboard
/// activation; enabled again, it behaves as by default.
pub trait Disableable: Sized {
    /// Sets the disabled state.
    fn disabled(self, disabled: bool) -> Self;
}

/// A component with an explicit semantic size, which takes precedence over the
/// application's default.
pub trait Sizable: Sized {
    /// Sets the explicit size.
    fn size(self, size: ComponentSize) -> Self;
}

} // verus!
