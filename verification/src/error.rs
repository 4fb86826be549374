//! The ways the bridge's platform side effects can fail.
//!
//! Both failures come from the surrounding platform, are reported upward
//! immediately, and are recoverable: the host decides whether to retry,
//! ignore or abort. Malformed or unrecognized input events are never
//! errors; the adapter drops them silently.

use vstd::prelude::*;

verus! {

/// A failure of a platform side effect.
#[derive(Clone, Copy, Debug, PartialEq, Eq, Structural)]
pub enum BridgeError {
    /// The platform refused to construct a requested system cursor;
    /// raised at construction and at the end-of-frame cursor update.
    CursorUnavailable,
    /// The platform clipboard rejected a write.
    ClipboardWriteFailed,
}

impl BridgeError {
    /// A short description of the failure.
    pub fn message(&self) -> (r: &'static str)
        ensures
            *self == BridgeError::CursorUnavailable ==> r@ == "failed to construct the system cursor"@,
            *self == BridgeError::ClipboardWriteFailed ==> r@ == "failed to write text to the clipboard"@,
    {
        match self {
            BridgeError::CursorUnavailable => "failed to construct the system cursor",
            BridgeError::ClipboardWriteFailed => "failed to write text to the clipboard",
        }
    }
}

} // verus!
