//! The platform's discrete input events and the neutral events of the
//! batched frame input, together with their mathematical models.
//!
//! `PlatformEvent` is what the host hands to the adapter, one value per
//! windowing-system event; `Event` is what the adapter appends to the
//! pending frame input for the GUI side. Each has a ghost model that the
//! contracts speak of, with integers as `int` and text as `Seq<char>`.

use crate::buttons::{MouseButton, PointerButton};
use crate::keymap::{Key, KeyCode};
use crate::modifiers::Modifiers;
use vstd::prelude::*;

verus! {

/// A discrete windowing-system event, reduced to the data the adapter
/// reads from it.
///
/// Every platform event of a kind the adapter ignores is `Other`.
#[derive(Clone, Debug, PartialEq)]
pub enum PlatformEvent {
    /// The window was resized or its size changed; the new size is `(w, h)`.
    WindowResized { w: i32, h: i32 },
    /// A mouse button went down. The platform event carries no coordinate;
    /// the adapter reuses the last known pointer position.
    MouseButtonDown { button: MouseButton },
    /// A mouse button was released.
    MouseButtonUp { button: MouseButton },
    /// The pointer moved to `(x, y)`.
    MouseMotion { x: i32, y: i32 },
    /// The mouse wheel turned by `(dx, dy)` steps.
    MouseWheel { dx: i32, dy: i32 },
    /// A key went down, with the platform modifier bitmask at that moment.
    KeyDown { keycode: Option<KeyCode>, keymod: u16 },
    /// A key was released, with the platform modifier bitmask at that moment.
    KeyUp { keycode: Option<KeyCode>, keymod: u16 },
    /// Text was entered.
    TextInput { text: String },
    /// Any event the adapter does not react to.
    Other,
}

/// The model of a platform event.
pub ghost enum PlatformEventModel {
    WindowResized { w: int, h: int },
    MouseButtonDown { button: MouseButton },
    MouseButtonUp { button: MouseButton },
    MouseMotion { x: int, y: int },
    MouseWheel { dx: int, dy: int },
    KeyDown { keycode: Option<KeyCode>, keymod: u16 },
    KeyUp { keycode: Option<KeyCode>, keymod: u16 },
    TextInput { text: Seq<char> },
    Other,
}

impl View for PlatformEvent {
    type V = PlatformEventModel;

    open spec fn view(&self) -> PlatformEventModel {
        match self {
            PlatformEvent::WindowResized { w, h } => PlatformEventModel::WindowResized {
                w: *w as int,
                h: *h as int,
            },
            PlatformEvent::MouseButtonDown { button } => PlatformEventModel::MouseButtonDown {
                button: *button,
            },
            PlatformEvent::MouseButtonUp { button } => PlatformEventModel::MouseButtonUp {
                button: *button,
            },
            PlatformEvent::MouseMotion { x, y } => PlatformEventModel::MouseMotion {
                x: *x as int,
                y: *y as int,
            },
            PlatformEvent::MouseWheel { dx, dy } => PlatformEventModel::MouseWheel {
                dx: *dx as int,
                dy: *dy as int,
            },
            PlatformEvent::KeyDown { keycode, keymod } => PlatformEventModel::KeyDown {
                keycode: *keycode,
                keymod: *keymod,
            },
            PlatformEvent::KeyUp { keycode, keymod } => PlatformEventModel::KeyUp {
                keycode: *keycode,
                keymod: *keymod,
            },
            PlatformEvent::TextInput { text } => PlatformEventModel::TextInput { text: text@ },
            PlatformEvent::Other => PlatformEventModel::Other,
        }
    }
}

/// A neutral input event of the batched frame input.
#[derive(Clone, Debug, PartialEq)]
pub enum Event {
    /// The user asked to copy the selection.
    Copy,
    /// The user asked to cut the selection.
    Cut,
    /// Text entered by the user, or injected from the platform clipboard
    /// on a paste shortcut.
    Text { text: String },
    /// A neutral key went down or up, with the modifier state recomputed
    /// from that key event.
    Key { key: Key, pressed: bool, modifiers: Modifiers },
    /// The pointer moved to `(x, y)`.
    PointerMoved { x: i32, y: i32 },
    /// A pointer button went down or up at the last known pointer
    /// position, with the modifier state current at that moment.
    PointerButton { x: i32, y: i32, button: PointerButton, pressed: bool, modifiers: Modifiers },
    /// A scroll by `(dx, dy)` points: the wheel steps scaled by 8.
    Scroll { dx: i64, dy: i64 },
    /// A zoom gesture from a ctrl-scroll. The zoom factor the GUI side
    /// receives is the exponential of `scaled_dy / 125`, where `scaled_dy`
    /// is the vertical wheel step scaled by 8; the adapter keeps the exact
    /// integer and leaves the floating-point evaluation to the host.
    Zoom { scaled_dy: i64 },
}

/// The model of a neutral input event.
pub ghost enum EventModel {
    Copy,
    Cut,
    Text { text: Seq<char> },
    Key { key: Key, pressed: bool, modifiers: Modifiers },
    PointerMoved { x: int, y: int },
    PointerButton { x: int, y: int, button: PointerButton, pressed: bool, modifiers: Modifiers },
    Scroll { dx: int, dy: int },
    Zoom { scaled_dy: int },
}

impl View for Event {
    type V = EventModel;

    open spec fn view(&self) -> EventModel {
        match self {
            Event::Copy => EventModel::Copy,
            Event::Cut => EventModel::Cut,
            Event::Text { text } => EventModel::Text { text: text@ },
            Event::Key { key, pressed, modifiers } => EventModel::Key {
                key: *key,
                pressed: *pressed,
                modifiers: *modifiers,
            },
            Event::PointerMoved { x, y } => EventModel::PointerMoved {
                x: *x as int,
                y: *y as int,
            },
            Event::PointerButton { x, y, button, pressed, modifiers } => {
                EventModel::PointerButton {
                    x: *x as int,
                    y: *y as int,
                    button: *button,
                    pressed: *pressed,
                    modifiers: *modifiers,
                }
            },
            Event::Scroll { dx, dy } => EventModel::Scroll { dx: *dx as int, dy: *dy as int },
            Event::Zoom { scaled_dy } => EventModel::Zoom { scaled_dy: *scaled_dy as int },
        }
    }
}

} // verus!
