//! A windowing-to-GUI input bridge: translates platform input events
//! (keyboard, mouse, text, resize, clipboard) into a neutral batched
//! frame-input representation, manages the per-frame accumulate/flush
//! cycle, and plans the platform side effects (cursor shape, clipboard
//! writes) that a finished GUI frame requests.

pub mod buttons;
pub mod cursor;
pub mod error;
pub mod events;
pub mod input;
pub mod keymap;
pub mod modifiers;
pub mod platform;
pub mod state;
