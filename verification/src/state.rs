//! The mathematical model of the adapter and its transition function.
//!
//! `spec_step` says, for every platform event, exactly how the adapter's
//! state changes: which neutral events are appended to the pending frame
//! input, and how the pointer position, the modifier state and the screen
//! rectangle move. The executable adapter is proved to follow it event for
//! event; the proof functions below state the laws that hold of it.

use crate::buttons::MouseButton;
use crate::cursor::SystemCursor;
use crate::events::{EventModel, PlatformEventModel};
use crate::input::FrameInputModel;
use crate::keymap::{spec_key_for_code, Key, KeyCode};
use crate::modifiers::{
    spec_modifiers_from_bits, Modifiers, MOD_LCTRL, MOD_RCTRL,
};
use vstd::prelude::*;

verus! {

/// The model of the whole adapter.
#[verifier::ext_equal]
pub ghost struct PlatformModel {
    /// The input accumulated since the last frame boundary.
    pub pending: FrameInputModel,
    /// The last known pointer position, reused when a button event is
    /// synthesized.
    pub pointer_x: int,
    /// See `pointer_x`.
    pub pointer_y: int,
    /// The modifier state as of the last key event.
    pub modifiers: Modifiers,
    /// The system cursor currently installed on the platform.
    pub system_cursor: SystemCursor,
    /// Whether a GUI frame is open (between a frame begin and the frame's
    /// end).
    pub frame_open: bool,
}

/// The model of a freshly constructed adapter for a screen of the given
/// size: arrow cursor, pointer at the origin, no modifier held, an empty
/// event batch, and no frame open.
pub open spec fn spec_initial(w: int, h: int) -> PlatformModel {
    PlatformModel {
        pending: FrameInputModel {
            screen_rect: Option::Some((w, h)),
            time_micros: Option::None,
            modifiers: Modifiers::spec_none(),
            events: Seq::empty(),
        },
        pointer_x: 0,
        pointer_y: 0,
        modifiers: Modifiers::spec_none(),
        system_cursor: SystemCursor::Arrow,
        frame_open: false,
    }
}

/// The text a platform clipboard value holds, as a sequence of
/// characters.
pub open spec fn spec_clipboard_view(c: Option<String>) -> Option<Seq<char>> {
    match c {
        Option::Some(s) => Option::Some(s@),
        Option::None => Option::None,
    }
}

/// Whether either ctrl key is held according to a platform modifier
/// bitmask.
pub open spec fn spec_ctrl_held(bits: u16) -> bool {
    bits & MOD_LCTRL == MOD_LCTRL || bits & MOD_RCTRL == MOD_RCTRL
}

/// The model with one more event in the pending batch and everything else
/// unchanged.
pub open spec fn spec_append(m: PlatformModel, e: EventModel) -> PlatformModel {
    PlatformModel {
        pending: FrameInputModel { events: m.pending.events.push(e), ..m.pending },
        ..m
    }
}

/// The effect of a mouse-button event: if the button maps to a neutral
/// pointer button, a pointer-button event is appended carrying the last
/// known pointer position and the current modifiers; otherwise nothing
/// happens.
pub open spec fn spec_button_step(m: PlatformModel, button: MouseButton, pressed: bool) -> PlatformModel {
    match crate::buttons::spec_pointer_button_for(button) {
        Option::Some(b) => spec_append(
            m,
            EventModel::PointerButton {
                x: m.pointer_x,
                y: m.pointer_y,
                button: b,
                pressed,
                modifiers: m.modifiers,
            },
        ),
        Option::None => m,
    }
}

/// The events a key-down appends before the key event itself: copy for
/// "C", cut for "X", and for "V" the platform clipboard's text, if it
/// holds any, as a text event.
pub open spec fn spec_shortcut_events(key: Key, clipboard: Option<Seq<char>>) -> Seq<EventModel> {
    if key == Key::C {
        seq![EventModel::Copy]
    } else if key == Key::X {
        seq![EventModel::Cut]
    } else if key == Key::V {
        match clipboard {
            Option::Some(text) => seq![EventModel::Text { text }],
            Option::None => Seq::empty(),
        }
    } else {
        Seq::empty()
    }
}

/// The effect of a key event. A keycode outside the mapping table (or a
/// missing one) changes nothing at all. A mapped key first recomputes the
/// modifier state from the event's bitmask; a key-down then appends the
/// copy/cut/paste events its key calls for; and the key event itself is
/// appended last, carrying the recomputed modifiers.
pub open spec fn spec_key_step(
    m: PlatformModel,
    keycode: Option<KeyCode>,
    keymod: u16,
    pressed: bool,
    clipboard: Option<Seq<char>>,
) -> PlatformModel {
    match keycode {
        Option::None => m,
        Option::Some(code) => match spec_key_for_code(code) {
            Option::None => m,
            Option::Some(key) => {
                let mods = spec_modifiers_from_bits(keymod);
                let side = if pressed {
                    spec_shortcut_events(key, clipboard)
                } else {
                    Seq::empty()
                };
                PlatformModel {
                    modifiers: mods,
                    pending: FrameInputModel {
                        modifiers: mods,
                        events: m.pending.events + side
                            + seq![EventModel::Key { key, pressed, modifiers: mods }],
                        ..m.pending
                    },
                    ..m
                }
            },
        },
    }
}

/// The transition function of the adapter: the state after ingesting one
/// platform event.
///
/// `live_mod_bits` is the platform's modifier bitmask as queried live at
/// the event (the wheel handler reads the ctrl keys from it, not from the
/// stored modifier state), and `clipboard` is the text the platform
/// clipboard holds, if any (read only by the paste shortcut).
pub open spec fn spec_step(
    m: PlatformModel,
    ev: PlatformEventModel,
    live_mod_bits: u16,
    clipboard: Option<Seq<char>>,
) -> PlatformModel {
    match ev {
        PlatformEventModel::WindowResized { w, h } => PlatformModel {
            pending: FrameInputModel {
                screen_rect: Option::Some((w, h)),
                ..m.pending
            },
            ..m
        },
        PlatformEventModel::MouseButtonDown { button } => spec_button_step(m, button, true),
        PlatformEventModel::MouseButtonUp { button } => spec_button_step(m, button, false),
        PlatformEventModel::MouseMotion { x, y } => {
            let moved = PlatformModel { pointer_x: x, pointer_y: y, ..m };
            spec_append(moved, EventModel::PointerMoved { x, y })
        },
        PlatformEventModel::MouseWheel { dx, dy } => {
            if spec_ctrl_held(live_mod_bits) {
                spec_append(m, EventModel::Zoom { scaled_dy: 8 * dy })
            } else {
                spec_append(m, EventModel::Scroll { dx: 8 * dx, dy: 8 * dy })
            }
        },
        PlatformEventModel::KeyDown { keycode, keymod } => {
            spec_key_step(m, keycode, keymod, true, clipboard)
        },
        PlatformEventModel::KeyUp { keycode, keymod } => {
            spec_key_step(m, keycode, keymod, false, clipboard)
        },
        PlatformEventModel::TextInput { text } => spec_append(m, EventModel::Text { text }),
        PlatformEventModel::Other => m,
    }
}

/// The state after ingesting a whole sequence of platform events in
/// order, all under the same live modifier bitmask and clipboard text.
pub open spec fn spec_run(
    m: PlatformModel,
    evs: Seq<PlatformEventModel>,
    live_mod_bits: u16,
    clipboard: Option<Seq<char>>,
) -> PlatformModel
    decreases evs.len(),
{
    if evs.len() == 0 {
        m
    } else {
        spec_run(
            spec_step(m, evs[0], live_mod_bits, clipboard),
            evs.subrange(1, evs.len() as int),
            live_mod_bits,
            clipboard,
        )
    }
}

/// Ingesting an event only appends to the pending batch: every event
/// already accumulated stays, in its place, so the GUI side sees the
/// events of a frame in exactly the order they arrived.
pub proof fn lemma_step_appends_in_order(
    m: PlatformModel,
    ev: PlatformEventModel,
    live_mod_bits: u16,
    clipboard: Option<Seq<char>>,
)
    ensures
        spec_step(m, ev, live_mod_bits, clipboard).pending.events.len()
            >= m.pending.events.len(),
        forall|j: int| 0 <= j < m.pending.events.len()
            ==> #[trigger] spec_step(m, ev, live_mod_bits, clipboard).pending.events[j]
                == m.pending.events[j],
{
}

/// A key-down whose keycode is missing or outside the mapping table
/// changes nothing: no event is appended and the stored modifier state
/// stays exactly as it was before the event.
pub proof fn lemma_unmapped_key_down_changes_nothing(
    m: PlatformModel,
    keycode: Option<KeyCode>,
    keymod: u16,
    live_mod_bits: u16,
    clipboard: Option<Seq<char>>,
)
    requires
        keycode matches Option::Some(code) ==> spec_key_for_code(code) is None,
    ensures
        spec_step(
            m,
            PlatformEventModel::KeyDown { keycode, keymod },
            live_mod_bits,
            clipboard,
        ) == m,
{
}

/// Or-of-both-sides semantics of the modifier bits: a key-down whose
/// bitmask has both the left and the right ctrl bit set drives the
/// adapter to the same state as one whose bitmask has only the left ctrl
/// bit set.
pub proof fn lemma_both_ctrl_bits_equal_left_ctrl(
    m: PlatformModel,
    keycode: Option<KeyCode>,
    base: u16,
    live_mod_bits: u16,
    clipboard: Option<Seq<char>>,
)
    ensures
        spec_step(
            m,
            PlatformEventModel::KeyDown { keycode, keymod: base | MOD_LCTRL | MOD_RCTRL },
            live_mod_bits,
            clipboard,
        ) == spec_step(
            m,
            PlatformEventModel::KeyDown { keycode, keymod: base | MOD_LCTRL },
            live_mod_bits,
            clipboard,
        ),
{
    let k1 = base | MOD_LCTRL | MOD_RCTRL;
    let k2 = base | MOD_LCTRL;
    assert(spec_modifiers_from_bits(k1) == spec_modifiers_from_bits(k2)) by {
        assert((((base | 0x40u16) | 0x80u16) & 0x100u16 == 0x100u16) == ((base | 0x40u16)
            & 0x100u16 == 0x100u16)) by (bit_vector);
        assert((((base | 0x40u16) | 0x80u16) & 0x200u16 == 0x200u16) == ((base | 0x40u16)
            & 0x200u16 == 0x200u16)) by (bit_vector);
        assert((((base | 0x40u16) | 0x80u16) & 0x1u16 == 0x1u16) == ((base | 0x40u16)
            & 0x1u16 == 0x1u16)) by (bit_vector);
        assert((((base | 0x40u16) | 0x80u16) & 0x2u16 == 0x2u16) == ((base | 0x40u16)
            & 0x2u16 == 0x2u16)) by (bit_vector);
        assert((((base | 0x40u16) | 0x80u16) & 0x400u16 == 0x400u16) == ((base | 0x40u16)
            & 0x400u16 == 0x400u16)) by (bit_vector);
        assert(((base | 0x40u16) | 0x80u16) & 0x40u16 == 0x40u16) by (bit_vector);
        assert((base | 0x40u16) & 0x40u16 == 0x40u16) by (bit_vector);
    };
}

/// Pointer-button events synthesize the position from the last motion
/// event: running any sequence of button-down events with no intervening
/// motion leaves the stored pointer position unchanged, keeps every event
/// already pending, and appends only pointer-button press events carrying
/// the position stored before the run (which `spec_initial` sets to the
/// origin and only motion events change).
pub proof fn lemma_button_downs_use_last_pointer(
    m: PlatformModel,
    evs: Seq<PlatformEventModel>,
    live_mod_bits: u16,
    clipboard: Option<Seq<char>>,
)
    requires
        forall|i: int| 0 <= i < evs.len() ==> evs[i] is MouseButtonDown,
    ensures
        spec_run(m, evs, live_mod_bits, clipboard).pointer_x == m.pointer_x,
        spec_run(m, evs, live_mod_bits, clipboard).pointer_y == m.pointer_y,
        spec_run(m, evs, live_mod_bits, clipboard).pending.events.len()
            >= m.pending.events.len(),
        forall|j: int| 0 <= j < m.pending.events.len()
            ==> spec_run(m, evs, live_mod_bits, clipboard).pending.events[j]
                == m.pending.events[j],
        forall|j: int|
            m.pending.events.len() <= j < spec_run(
                m,
                evs,
                live_mod_bits,
                clipboard,
            ).pending.events.len() ==> ((#[trigger] spec_run(
                m,
                evs,
                live_mod_bits,
                clipboard,
            ).pending.events[j]) matches EventModel::PointerButton { x, y, pressed, .. }
                && x == m.pointer_x
                && y == m.pointer_y
                && pressed),
    decreases evs.len(),
{
    if evs.len() > 0 {
        let m1 = spec_step(m, evs[0], live_mod_bits, clipboard);
        let rest = evs.subrange(1, evs.len() as int);
        assert(forall|i: int| 0 <= i < rest.len() ==> rest[i] is MouseButtonDown);
        lemma_button_downs_use_last_pointer(m1, rest, live_mod_bits, clipboard);
        let fin = spec_run(m, evs, live_mod_bits, clipboard);
        assert(fin == spec_run(m1, rest, live_mod_bits, clipboard));
        let pre_len = m.pending.events.len() as int;
        assert(m1.pending.events.len() <= pre_len + 1);
        assert(forall|j: int| 0 <= j < pre_len
            ==> #[trigger] m1.pending.events[j] == m.pending.events[j]);
        assert(m1.pending.events.len() > pre_len ==> (m1.pending.events[pre_len]
            matches EventModel::PointerButton { x, y, pressed, .. }
            && x == m.pointer_x
            && y == m.pointer_y
            && pressed));
        assert forall|j: int| 0 <= j < pre_len implies #[trigger] fin.pending.events[j]
            == m.pending.events[j] by {
            assert(fin.pending.events[j] == m1.pending.events[j]);
        }
        assert forall|j: int| pre_len <= j < fin.pending.events.len() implies ((
        #[trigger] fin.pending.events[j]) matches EventModel::PointerButton {
            x,
            y,
            pressed,
            ..
        }
            && x == m.pointer_x
            && y == m.pointer_y
            && pressed) by {
            if j < m1.pending.events.len() {
                assert(fin.pending.events[j] == m1.pending.events[j]);
            }
        }
    }
}

} // verus!
