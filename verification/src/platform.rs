//! The platform adapter: the stateful bridge between the windowing
//! system's raw events and the GUI side's batched frame input.
//!
//! The host feeds every raw event to [`Platform::handle_event`], calls
//! [`Platform::update_time`] once per frame, takes the batch with
//! [`Platform::begin_frame`], lets the GUI side draw, and closes the frame
//! with [`Platform::close_frame`] after asking [`plan_end_frame`] which
//! platform side effects the GUI output calls for.

use crate::buttons::{pointer_button_for, MouseButton};
use crate::cursor::{cursor_for_icon, spec_cursor_for_icon, CursorIcon, SystemCursor};
use crate::events::{Event, EventModel, PlatformEvent};
use crate::input::{FrameInput, FrameInputModel, ScreenRect};
use crate::keymap::{key_for_code, Key, KeyCode};
use crate::modifiers::{modifiers_from_bits, Modifiers, MOD_LCTRL, MOD_RCTRL};
use crate::state::{
    spec_append, spec_button_step, spec_clipboard_view, spec_ctrl_held, spec_initial,
    spec_key_step, spec_step, PlatformModel,
};
use vstd::prelude::*;

verus! {

/// The stateful platform adapter.
pub struct Platform {
    /// The input accumulated since the last frame boundary.
    pending: FrameInput,
    /// The last known pointer position.
    pointer_x: i32,
    /// See `pointer_x`.
    pointer_y: i32,
    /// The modifier state as of the last key event.
    modifiers: Modifiers,
    /// The system cursor currently installed on the platform.
    system_cursor: SystemCursor,
    /// Whether a GUI frame is open.
    frame_open: bool,
}

impl View for Platform {
    type V = PlatformModel;

    closed spec fn view(&self) -> PlatformModel {
        PlatformModel {
            pending: self.pending@,
            pointer_x: self.pointer_x as int,
            pointer_y: self.pointer_y as int,
            modifiers: self.modifiers,
            system_cursor: self.system_cursor,
            frame_open: self.frame_open,
        }
    }
}

impl Platform {
    /// Construct an adapter for a screen of the given size, with the
    /// arrow cursor, the pointer at the origin, no modifier held, an
    /// empty event batch and no frame open.
    pub fn new(screen_size: (u32, u32)) -> (p: Platform)
        ensures
            p@ == spec_initial(screen_size.0 as int, screen_size.1 as int),
    {
        let p = Platform {
            pending: FrameInput {
                screen_rect: Option::Some(
                    ScreenRect { w: screen_size.0 as i64, h: screen_size.1 as i64 },
                ),
                time_micros: Option::None,
                modifiers: Modifiers::none(),
                events: Vec::new(),
            },
            pointer_x: 0,
            pointer_y: 0,
            modifiers: Modifiers::none(),
            system_cursor: SystemCursor::Arrow,
            frame_open: false,
        };
        proof {
            assert(p@ =~= spec_initial(screen_size.0 as int, screen_size.1 as int));
        }
        p
    }

    /// Whether a GUI frame is currently open.
    pub fn frame_open(&self) -> (r: bool)
        ensures
            r == self@.frame_open,
    {
        self.frame_open
    }

    /// Record the new screen rectangle after a resize.
    fn on_resize(&mut self, w: i32, h: i32)
        ensures
            final(self)@ == (PlatformModel {
                pending: FrameInputModel {
                    screen_rect: Option::Some((w as int, h as int)),
                    ..old(self)@.pending
                },
                ..old(self)@
            }),
    {
        self.pending.screen_rect = Option::Some(ScreenRect { w: w as i64, h: h as i64 });
        proof {
            assert(self@ =~= (PlatformModel {
                pending: FrameInputModel {
                    screen_rect: Option::Some((w as int, h as int)),
                    ..old(self)@.pending
                },
                ..old(self)@
            }));
        }
    }

    /// Append the pointer-button event for a mouse button, if the button
    /// maps to a neutral one.
    fn on_button(&mut self, button: MouseButton, pressed: bool)
        ensures
            final(self)@ == spec_button_step(old(self)@, button, pressed),
    {
        if let Option::Some(b) = pointer_button_for(button) {
            self.pending.events.push(Event::PointerButton {
                x: self.pointer_x,
                y: self.pointer_y,
                button: b,
                pressed,
                modifiers: self.modifiers,
            });
            proof {
                assert(self@.pending.events =~= spec_button_step(
                    old(self)@,
                    button,
                    pressed,
                ).pending.events);
                assert(self@ =~= spec_button_step(old(self)@, button, pressed));
            }
        }
    }

    /// Update the stored pointer position and append the motion event.
    fn on_motion(&mut self, x: i32, y: i32)
        ensures
            final(self)@ == spec_append(
                PlatformModel { pointer_x: x as int, pointer_y: y as int, ..old(self)@ },
                EventModel::PointerMoved { x: x as int, y: y as int },
            ),
    {
        self.pointer_x = x;
        self.pointer_y = y;
        self.pending.events.push(Event::PointerMoved { x, y });
        proof {
            let target = spec_append(
                PlatformModel { pointer_x: x as int, pointer_y: y as int, ..old(self)@ },
                EventModel::PointerMoved { x: x as int, y: y as int },
            );
            assert(self@.pending.events =~= target.pending.events);
            assert(self@ =~= target);
        }
    }

    /// Append the scroll or zoom event for a wheel turn, deciding by the
    /// live ctrl-key state.
    fn on_wheel(&mut self, dx: i32, dy: i32, live_mod_bits: u16)
        ensures
            spec_ctrl_held(live_mod_bits) ==> final(self)@ == spec_append(
                old(self)@,
                EventModel::Zoom { scaled_dy: 8 * dy },
            ),
            !spec_ctrl_held(live_mod_bits) ==> final(self)@ == spec_append(
                old(self)@,
                EventModel::Scroll { dx: 8 * dx, dy: 8 * dy },
            ),
    {
        let ctrl_held = (live_mod_bits & MOD_LCTRL == MOD_LCTRL)
            || (live_mod_bits & MOD_RCTRL == MOD_RCTRL);
        if ctrl_held {
            self.pending.events.push(Event::Zoom { scaled_dy: (dy as i64) * 8 });
            proof {
                let target = spec_append(old(self)@, EventModel::Zoom { scaled_dy: 8 * dy });
                assert(self@.pending.events =~= target.pending.events);
                assert(self@ =~= target);
            }
        } else {
            self.pending.events.push(Event::Scroll {
                dx: (dx as i64) * 8,
                dy: (dy as i64) * 8,
            });
            proof {
                let target = spec_append(
                    old(self)@,
                    EventModel::Scroll { dx: 8 * dx, dy: 8 * dy },
                );
                assert(self@.pending.events =~= target.pending.events);
                assert(self@ =~= target);
            }
        }
    }

    /// Handle a key event: recompute the modifiers from the event's
    /// bitmask, append the copy/cut/paste events a key-down calls for,
    /// and append the key event itself — or nothing at all for a keycode
    /// outside the mapping table.
    fn on_key(
        &mut self,
        keycode: Option<KeyCode>,
        keymod: u16,
        pressed: bool,
        clipboard_text: Option<String>,
    )
        ensures
            final(self)@ == spec_key_step(
                old(self)@,
                keycode,
                keymod,
                pressed,
                spec_clipboard_view(clipboard_text),
            ),
    {
        let ghost pre = self@;
        let ghost clip = spec_clipboard_view(clipboard_text);
        if let Option::Some(code) = keycode {
            if let Option::Some(key) = key_for_code(code) {
                let mods = modifiers_from_bits(keymod);
                if pressed {
                    if key == Key::C {
                        self.pending.events.push(Event::Copy);
                    } else if key == Key::X {
                        self.pending.events.push(Event::Cut);
                    } else if key == Key::V {
                        if let Option::Some(text) = clipboard_text {
                            self.pending.events.push(Event::Text { text });
                        }
                    }
                }
                self.modifiers = mods;
                self.pending.modifiers = mods;
                self.pending.events.push(Event::Key { key, pressed, modifiers: mods });
                proof {
                    let target = spec_key_step(pre, keycode, keymod, pressed, clip);
                    assert(self@.pending.events =~= target.pending.events);
                    assert(self@ =~= target);
                }
            }
        }
    }

    /// Ingest one platform event, exactly as the transition function
    /// [`spec_step`] says.
    ///
    /// `live_mod_bits` is the platform's modifier bitmask queried live at
    /// the event, and `clipboard_text` is the text the platform clipboard
    /// currently holds, if any. Never fails: events the adapter does not
    /// react to change nothing.
    pub fn handle_event(
        &mut self,
        event: PlatformEvent,
        live_mod_bits: u16,
        clipboard_text: Option<String>,
    )
        ensures
            final(self)@ == spec_step(
                old(self)@,
                event@,
                live_mod_bits,
                spec_clipboard_view(clipboard_text),
            ),
    {
        match event {
            PlatformEvent::WindowResized { w, h } => {
                self.on_resize(w, h);
            },
            PlatformEvent::MouseButtonDown { button } => {
                self.on_button(button, true);
            },
            PlatformEvent::MouseButtonUp { button } => {
                self.on_button(button, false);
            },
            PlatformEvent::MouseMotion { x, y } => {
                self.on_motion(x, y);
            },
            PlatformEvent::MouseWheel { dx, dy } => {
                self.on_wheel(dx, dy, live_mod_bits);
            },
            PlatformEvent::KeyDown { keycode, keymod } => {
                self.on_key(keycode, keymod, true, clipboard_text);
            },
            PlatformEvent::KeyUp { keycode, keymod } => {
                self.on_key(keycode, keymod, false, clipboard_text);
            },
            PlatformEvent::TextInput { text } => {
                let ghost pre = self@;
                let ghost t = text@;
                self.pending.events.push(Event::Text { text });
                proof {
                    let target = spec_append(pre, EventModel::Text { text: t });
                    assert(self@.pending.events =~= target.pending.events);
                    assert(self@ =~= target);
                }
            },
            PlatformEvent::Other => {},
        }
    }

    /// Store the frame timestamp, in microseconds since the host's
    /// arbitrary fixed epoch, into the pending frame input. To be called
    /// once before each frame begin.
    pub fn update_time(&mut self, time_micros: u64)
        ensures
            final(self)@ == (PlatformModel {
                pending: FrameInputModel {
                    time_micros: Option::Some(time_micros as int),
                    ..old(self)@.pending
                },
                ..old(self)@
            }),
    {
        self.pending.time_micros = Option::Some(time_micros);
        proof {
            assert(self@ =~= (PlatformModel {
                pending: FrameInputModel {
                    time_micros: Option::Some(time_micros as int),
                    ..old(self)@.pending
                },
                ..old(self)@
            }));
        }
    }

    /// Begin a GUI frame: move the accumulated input out for the GUI side
    /// to consume, leaving a fresh accumulator (modifier state kept), and
    /// mark the frame open.
    pub fn begin_frame(&mut self) -> (input: FrameInput)
        ensures
            input@ == old(self)@.pending,
            final(self)@ == (PlatformModel {
                pending: old(self)@.pending.taken(),
                frame_open: true,
                ..old(self)@
            }),
    {
        self.frame_open = true;
        let input = self.pending.take();
        proof {
            assert(self@ =~= (PlatformModel {
                pending: old(self)@.pending.taken(),
                frame_open: true,
                ..old(self)@
            }));
        }
        input
    }

    /// Close the open GUI frame and record the system cursor that the
    /// frame's output had installed. Nothing else changes; in particular
    /// the input accumulated for the next frame stays.
    pub fn close_frame(&mut self, installed: SystemCursor)
        requires
            old(self)@.frame_open,
        ensures
            final(self)@ == (PlatformModel {
                frame_open: false,
                system_cursor: installed,
                ..old(self)@
            }),
    {
        self.frame_open = false;
        self.system_cursor = installed;
        proof {
            assert(self@ =~= (PlatformModel {
                frame_open: false,
                system_cursor: installed,
                ..old(self)@
            }));
        }
    }
}

/// What the GUI side produced for the frame just ended, reduced to the
/// parts the adapter reacts to.
#[derive(Clone, Debug, PartialEq)]
pub struct GuiOutput {
    /// Text the GUI asks to place on the platform clipboard; empty for
    /// none.
    pub copied_text: String,
    /// The cursor icon the GUI asks for.
    pub cursor_icon: CursorIcon,
}

/// The platform side effects a finished GUI frame calls for, in order:
/// first the clipboard write, if any, then installing the cursor.
#[derive(Clone, Debug, PartialEq)]
pub struct EndFramePlan {
    /// The text to write to the platform clipboard, or `None` when the
    /// GUI copied nothing.
    pub clipboard_write: Option<String>,
    /// The system cursor to construct and install.
    pub cursor: SystemCursor,
}

/// Decide the platform side effects for a finished GUI frame: the copied
/// text goes to the clipboard exactly when it is non-empty, and the
/// requested cursor icon is translated through the fixed cursor table.
pub fn plan_end_frame(output: GuiOutput) -> (plan: EndFramePlan)
    ensures
        plan.cursor == spec_cursor_for_icon(output.cursor_icon),
        output.copied_text@.len() == 0 ==> plan.clipboard_write is None,
        output.copied_text@.len() > 0 ==> (plan.clipboard_write matches Option::Some(t)
            && t@ == output.copied_text@),
{
    let cursor = cursor_for_icon(output.cursor_icon);
    if output.copied_text.as_str().is_empty() {
        EndFramePlan { clipboard_write: Option::None, cursor }
    } else {
        EndFramePlan { clipboard_write: Option::Some(output.copied_text), cursor }
    }
}

} // verus!
