//! Modifier-key state and its derivation from the platform's modifier
//! bitmask.
//!
//! The platform reports held modifier keys as a bitmask with one bit per
//! physical key (left and right variants are distinct bits). The GUI side
//! keeps five independent flags; `alt`, `ctrl` and `shift` are true when
//! either side is held, `mac_cmd` follows the left platform-meta key alone,
//! and `command` is the OS-convention "command" flag: left ctrl or left
//! platform-meta.

use vstd::prelude::*;

verus! {

/// Bit for the left shift key in the platform modifier bitmask.
pub const MOD_LSHIFT: u16 = 0x0001;
/// Bit for the right shift key in the platform modifier bitmask.
pub const MOD_RSHIFT: u16 = 0x0002;
/// Bit for the left ctrl key in the platform modifier bitmask.
pub const MOD_LCTRL: u16 = 0x0040;
/// Bit for the right ctrl key in the platform modifier bitmask.
pub const MOD_RCTRL: u16 = 0x0080;
/// Bit for the left alt key in the platform modifier bitmask.
pub const MOD_LALT: u16 = 0x0100;
/// Bit for the right alt key in the platform modifier bitmask.
pub const MOD_RALT: u16 = 0x0200;
/// Bit for the left platform-meta ("GUI") key in the platform modifier bitmask.
pub const MOD_LGUI: u16 = 0x0400;
/// Bit for the right platform-meta ("GUI") key in the platform modifier bitmask.
pub const MOD_RGUI: u16 = 0x0800;

/// The five independent modifier flags of the neutral input representation.
#[derive(Clone, Copy, Debug, PartialEq, Eq, Structural)]
pub struct Modifiers {
    /// Either alt key is held.
    pub alt: bool,
    /// Either ctrl key is held.
    pub ctrl: bool,
    /// Either shift key is held.
    pub shift: bool,
    /// The left platform-meta key is held.
    pub mac_cmd: bool,
    /// The OS-convention "command" flag: left ctrl or left platform-meta.
    pub command: bool,
}

impl Modifiers {
    /// The state with no modifier key held.
    pub open spec fn spec_none() -> Modifiers {
        Modifiers { alt: false, ctrl: false, shift: false, mac_cmd: false, command: false }
    }

    /// Construct the state with no modifier key held.
    pub fn none() -> (m: Modifiers)
        ensures
            m == Modifiers::spec_none(),
    {
        Modifiers { alt: false, ctrl: false, shift: false, mac_cmd: false, command: false }
    }
}

/// The modifier flags that a platform modifier bitmask denotes.
pub open spec fn spec_modifiers_from_bits(bits: u16) -> Modifiers {
    Modifiers {
        alt: bits & MOD_LALT == MOD_LALT || bits & MOD_RALT == MOD_RALT,
        ctrl: bits & MOD_LCTRL == MOD_LCTRL || bits & MOD_RCTRL == MOD_RCTRL,
        shift: bits & MOD_LSHIFT == MOD_LSHIFT || bits & MOD_RSHIFT == MOD_RSHIFT,
        mac_cmd: bits & MOD_LGUI == MOD_LGUI,
        command: bits & MOD_LCTRL == MOD_LCTRL || bits & MOD_LGUI == MOD_LGUI,
    }
}

/// Recompute the full modifier state from a platform modifier bitmask.
pub fn modifiers_from_bits(bits: u16) -> (m: Modifiers)
    ensures
        m == spec_modifiers_from_bits(bits),
{
    Modifiers {
        alt: bits & MOD_LALT == MOD_LALT || bits & MOD_RALT == MOD_RALT,
        ctrl: bits & MOD_LCTRL == MOD_LCTRL || bits & MOD_RCTRL == MOD_RCTRL,
        shift: bits & MOD_LSHIFT == MOD_LSHIFT || bits & MOD_RSHIFT == MOD_RSHIFT,
        mac_cmd: bits & MOD_LGUI == MOD_LGUI,
        command: bits & MOD_LCTRL == MOD_LCTRL || bits & MOD_LGUI == MOD_LGUI,
    }
}

} // verus!
