//! The platform mouse-button set, the neutral pointer-button set, and the
//! fixed mapping between them.
//!
//! Only the left, middle and right buttons have a neutral counterpart;
//! extra buttons produce no pointer-button event.

use vstd::prelude::*;

verus! {

/// A platform mouse button.
#[derive(Clone, Copy, Debug, PartialEq, Eq, Structural)]
pub enum MouseButton {
    Unknown,
    Left,
    Middle,
    Right,
    X1,
    X2,
}

/// A neutral pointer button of the GUI input representation.
#[derive(Clone, Copy, Debug, PartialEq, Eq, Structural)]
pub enum PointerButton {
    /// The primary button, usually the left one.
    Primary,
    /// The middle button.
    Middle,
    /// The secondary button, usually the right one.
    Secondary,
}

/// The neutral pointer button that a platform mouse button denotes, if any.
pub open spec fn spec_pointer_button_for(btn: MouseButton) -> Option<PointerButton> {
    match btn {
        MouseButton::Left => Some(PointerButton::Primary),
        MouseButton::Middle => Some(PointerButton::Middle),
        MouseButton::Right => Some(PointerButton::Secondary),
        _ => None,
    }
}

/// Translate a platform mouse button into its neutral pointer button, or
/// `None` for a button outside the mapping table.
pub fn pointer_button_for(btn: MouseButton) -> (r: Option<PointerButton>)
    ensures
        r == spec_pointer_button_for(btn),
{
    match btn {
        MouseButton::Left => Some(PointerButton::Primary),
        MouseButton::Middle => Some(PointerButton::Middle),
        MouseButton::Right => Some(PointerButton::Secondary),
        _ => None,
    }
}

} // verus!
