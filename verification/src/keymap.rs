//! The platform keycode set, the neutral key set, and the fixed mapping
//! between them.
//!
//! The two enumerations are independent closed sets. The mapping is a
//! partial function: arrows, escape, tab, backspace, space, enter, insert,
//! home, delete, end, page up/down, the digits (main row and numeric pad
//! both map to the same neutral digit) and the letters A-Z have a neutral
//! key; every other keycode has none, and key events carrying one are
//! dropped by the adapter.

use vstd::prelude::*;

verus! {

/// A platform keycode, reduced to the codes the bridge distinguishes.
///
/// Every platform keycode outside this set behaves identically (no neutral
/// key), so the host maps all of them to `Other`.
#[derive(Clone, Copy, Debug, PartialEq, Eq, Structural)]
pub enum KeyCode {
    Left,
    Up,
    Right,
    Down,
    Escape,
    Tab,
    Backspace,
    Space,
    Return,
    Insert,
    Home,
    Delete,
    End,
    PageDown,
    PageUp,
    Kp0,
    Kp1,
    Kp2,
    Kp3,
    Kp4,
    Kp5,
    Kp6,
    Kp7,
    Kp8,
    Kp9,
    Num0,
    Num1,
    Num2,
    Num3,
    Num4,
    Num5,
    Num6,
    Num7,
    Num8,
    Num9,
    A,
    B,
    C,
    D,
    E,
    F,
    G,
    H,
    I,
    J,
    K,
    L,
    M,
    N,
    O,
    P,
    Q,
    R,
    S,
    T,
    U,
    V,
    W,
    X,
    Y,
    Z,
    /// Any platform keycode that no neutral key corresponds to.
    Other,
}

/// A neutral key of the GUI input representation.
#[derive(Clone, Copy, Debug, PartialEq, Eq, Structural)]
pub enum Key {
    ArrowDown,
    ArrowLeft,
    ArrowRight,
    ArrowUp,
    Escape,
    Tab,
    Backspace,
    Enter,
    Space,
    Insert,
    Delete,
    Home,
    End,
    PageUp,
    PageDown,
    Num0,
    Num1,
    Num2,
    Num3,
    Num4,
    Num5,
    Num6,
    Num7,
    Num8,
    Num9,
    A,
    B,
    C,
    D,
    E,
    F,
    G,
    H,
    I,
    J,
    K,
    L,
    M,
    N,
    O,
    P,
    Q,
    R,
    S,
    T,
    U,
    V,
    W,
    X,
    Y,
    Z,
}

/// The neutral key that a platform keycode denotes, if any.
pub open spec fn spec_key_for_code(code: KeyCode) -> Option<Key> {
    match code {
        KeyCode::Left => Some(Key::ArrowLeft),
        KeyCode::Up => Some(Key::ArrowUp),
        KeyCode::Right => Some(Key::ArrowRight),
        KeyCode::Down => Some(Key::ArrowDown),
        KeyCode::Escape => Some(Key::Escape),
        KeyCode::Tab => Some(Key::Tab),
        KeyCode::Backspace => Some(Key::Backspace),
        KeyCode::Space => Some(Key::Space),
        KeyCode::Return => Some(Key::Enter),
        KeyCode::Insert => Some(Key::Insert),
        KeyCode::Home => Some(Key::Home),
        KeyCode::Delete => Some(Key::Delete),
        KeyCode::End => Some(Key::End),
        KeyCode::PageDown => Some(Key::PageDown),
        KeyCode::PageUp => Some(Key::PageUp),
        KeyCode::Kp0 => Some(Key::Num0),
        KeyCode::Kp1 => Some(Key::Num1),
        KeyCode::Kp2 => Some(Key::Num2),
        KeyCode::Kp3 => Some(Key::Num3),
        KeyCode::Kp4 => Some(Key::Num4),
        KeyCode::Kp5 => Some(Key::Num5),
        KeyCode::Kp6 => Some(Key::Num6),
        KeyCode::Kp7 => Some(Key::Num7),
        KeyCode::Kp8 => Some(Key::Num8),
        KeyCode::Kp9 => Some(Key::Num9),
        KeyCode::Num0 => Some(Key::Num0),
        KeyCode::Num1 => Some(Key::Num1),
        KeyCode::Num2 => Some(Key::Num2),
        KeyCode::Num3 => Some(Key::Num3),
        KeyCode::Num4 => Some(Key::Num4),
        KeyCode::Num5 => Some(Key::Num5),
        KeyCode::Num6 => Some(Key::Num6),
        KeyCode::Num7 => Some(Key::Num7),
        KeyCode::Num8 => Some(Key::Num8),
        KeyCode::Num9 => Some(Key::Num9),
        KeyCode::A => Some(Key::A),
        KeyCode::B => Some(Key::B),
        KeyCode::C => Some(Key::C),
        KeyCode::D => Some(Key::D),
        KeyCode::E => Some(Key::E),
        KeyCode::F => Some(Key::F),
        KeyCode::G => Some(Key::G),
        KeyCode::H => Some(Key::H),
        KeyCode::I => Some(Key::I),
        KeyCode::J => Some(Key::J),
        KeyCode::K => Some(Key::K),
        KeyCode::L => Some(Key::L),
        KeyCode::M => Some(Key::M),
        KeyCode::N => Some(Key::N),
        KeyCode::O => Some(Key::O),
        KeyCode::P => Some(Key::P),
        KeyCode::Q => Some(Key::Q),
        KeyCode::R => Some(Key::R),
        KeyCode::S => Some(Key::S),
        KeyCode::T => Some(Key::T),
        KeyCode::U => Some(Key::U),
        KeyCode::V => Some(Key::V),
        KeyCode::W => Some(Key::W),
        KeyCode::X => Some(Key::X),
        KeyCode::Y => Some(Key::Y),
        KeyCode::Z => Some(Key::Z),
        KeyCode::Other => None,
    }
}

/// Translate a platform keycode into its neutral key, or `None` for a
/// keycode outside the mapping table.
pub fn key_for_code(code: KeyCode) -> (r: Option<Key>)
    ensures
        r == spec_key_for_code(code),
{
    match code {
        KeyCode::Left => Some(Key::ArrowLeft),
        KeyCode::Up => Some(Key::ArrowUp),
        KeyCode::Right => Some(Key::ArrowRight),
        KeyCode::Down => Some(Key::ArrowDown),
        KeyCode::Escape => Some(Key::Escape),
        KeyCode::Tab => Some(Key::Tab),
        KeyCode::Backspace => Some(Key::Backspace),
        KeyCode::Space => Some(Key::Space),
        KeyCode::Return => Some(Key::Enter),
        KeyCode::Insert => Some(Key::Insert),
        KeyCode::Home => Some(Key::Home),
        KeyCode::Delete => Some(Key::Delete),
        KeyCode::End => Some(Key::End),
        KeyCode::PageDown => Some(Key::PageDown),
        KeyCode::PageUp => Some(Key::PageUp),
        KeyCode::Kp0 => Some(Key::Num0),
        KeyCode::Kp1 => Some(Key::Num1),
        KeyCode::Kp2 => Some(Key::Num2),
        KeyCode::Kp3 => Some(Key::Num3),
        KeyCode::Kp4 => Some(Key::Num4),
        KeyCode::Kp5 => Some(Key::Num5),
        KeyCode::Kp6 => Some(Key::Num6),
        KeyCode::Kp7 => Some(Key::Num7),
        KeyCode::Kp8 => Some(Key::Num8),
        KeyCode::Kp9 => Some(Key::Num9),
        KeyCode::Num0 => Some(Key::Num0),
        KeyCode::Num1 => Some(Key::Num1),
        KeyCode::Num2 => Some(Key::Num2),
        KeyCode::Num3 => Some(Key::Num3),
        KeyCode::Num4 => Some(Key::Num4),
        KeyCode::Num5 => Some(Key::Num5),
        KeyCode::Num6 => Some(Key::Num6),
        KeyCode::Num7 => Some(Key::Num7),
        KeyCode::Num8 => Some(Key::Num8),
        KeyCode::Num9 => Some(Key::Num9),
        KeyCode::A => Some(Key::A),
        KeyCode::B => Some(Key::B),
        KeyCode::C => Some(Key::C),
        KeyCode::D => Some(Key::D),
        KeyCode::E => Some(Key::E),
        KeyCode::F => Some(Key::F),
        KeyCode::G => Some(Key::G),
        KeyCode::H => Some(Key::H),
        KeyCode::I => Some(Key::I),
        KeyCode::J => Some(Key::J),
        KeyCode::K => Some(Key::K),
        KeyCode::L => Some(Key::L),
        KeyCode::M => Some(Key::M),
        KeyCode::N => Some(Key::N),
        KeyCode::O => Some(Key::O),
        KeyCode::P => Some(Key::P),
        KeyCode::Q => Some(Key::Q),
        KeyCode::R => Some(Key::R),
        KeyCode::S => Some(Key::S),
        KeyCode::T => Some(Key::T),
        KeyCode::U => Some(Key::U),
        KeyCode::V => Some(Key::V),
        KeyCode::W => Some(Key::W),
        KeyCode::X => Some(Key::X),
        KeyCode::Y => Some(Key::Y),
        KeyCode::Z => Some(Key::Z),
        KeyCode::Other => None,
    }
}

} // verus!
