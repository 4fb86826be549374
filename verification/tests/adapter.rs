//! Tests for the adapter's event ingestion and frame lifecycle.

use egui_sdl2_platform::buttons::{MouseButton, PointerButton};
use egui_sdl2_platform::cursor::{CursorIcon, SystemCursor};
use egui_sdl2_platform::events::{Event, PlatformEvent};
use egui_sdl2_platform::input::ScreenRect;
use egui_sdl2_platform::keymap::{Key, KeyCode};
use egui_sdl2_platform::modifiers::{Modifiers, MOD_LCTRL, MOD_RCTRL, MOD_RSHIFT};
use egui_sdl2_platform::platform::{plan_end_frame, GuiOutput, Platform};

fn key_down(code: KeyCode, keymod: u16) -> PlatformEvent {
    PlatformEvent::KeyDown { keycode: Some(code), keymod }
}

#[test]
fn wheel_without_ctrl_scrolls() {
    let mut p = Platform::new((640, 360));
    p.handle_event(PlatformEvent::MouseWheel { dx: 1, dy: 2 }, 0, None);
    let input = p.begin_frame();
    assert_eq!(input.events, vec![Event::Scroll { dx: 8, dy: 16 }]);
}

#[test]
fn wheel_with_ctrl_zooms() {
    // The live platform modifier state decides, whichever ctrl key it is.
    for bits in [MOD_LCTRL, MOD_RCTRL, MOD_LCTRL | MOD_RCTRL] {
        let mut p = Platform::new((640, 360));
        p.handle_event(PlatformEvent::MouseWheel { dx: 1, dy: 2 }, bits, None);
        let input = p.begin_frame();
        assert_eq!(input.events, vec![Event::Zoom { scaled_dy: 16 }]);
    }
    // The zoom factor the GUI side receives from that event.
    let factor = (16.0_f32 / 125.0).exp();
    assert!((factor - 1.1384).abs() < 2e-3);
}

#[test]
fn wheel_ignores_stored_modifiers() {
    // Ctrl recorded in the stored modifier state does not turn a wheel
    // into a zoom; only the live bitmask does.
    let mut p = Platform::new((640, 360));
    p.handle_event(key_down(KeyCode::A, MOD_LCTRL), 0, None);
    p.handle_event(PlatformEvent::MouseWheel { dx: 0, dy: 1 }, 0, None);
    let input = p.begin_frame();
    assert_eq!(input.events.last(), Some(&Event::Scroll { dx: 0, dy: 8 }));
}

#[test]
fn resize_sets_the_screen_rect() {
    let mut p = Platform::new((800, 600));
    p.handle_event(PlatformEvent::WindowResized { w: 640, h: 360 }, 0, None);
    let input = p.begin_frame();
    assert_eq!(input.screen_rect, Some(ScreenRect { w: 640, h: 360 }));
    // The frame boundary takes the rectangle: absent until the next resize.
    let input = p.begin_frame();
    assert_eq!(input.screen_rect, None);
}

#[test]
fn construction_sizes_the_screen_rect() {
    let mut p = Platform::new((1024, 768));
    let input = p.begin_frame();
    assert_eq!(input.screen_rect, Some(ScreenRect { w: 1024, h: 768 }));
    assert_eq!(input.events, vec![]);
    assert_eq!(input.time_micros, None);
    assert_eq!(input.modifiers, Modifiers::none());
}

#[test]
fn paste_injects_clipboard_text() {
    let mut p = Platform::new((640, 360));
    p.handle_event(key_down(KeyCode::V, 0), 0, Some("hello".to_string()));
    let input = p.begin_frame();
    assert_eq!(input.events.len(), 2);
    assert_eq!(input.events[0], Event::Text { text: "hello".to_string() });
    assert_eq!(
        input.events[1],
        Event::Key { key: Key::V, pressed: true, modifiers: Modifiers::none() }
    );
}

#[test]
fn paste_with_empty_clipboard_appends_only_the_key() {
    let mut p = Platform::new((640, 360));
    p.handle_event(key_down(KeyCode::V, 0), 0, None);
    let input = p.begin_frame();
    assert_eq!(
        input.events,
        vec![Event::Key { key: Key::V, pressed: true, modifiers: Modifiers::none() }]
    );
}

#[test]
fn copy_and_cut_keys_emit_their_events() {
    let mut p = Platform::new((640, 360));
    p.handle_event(key_down(KeyCode::C, 0), 0, None);
    p.handle_event(key_down(KeyCode::X, 0), 0, None);
    let input = p.begin_frame();
    assert_eq!(input.events.len(), 4);
    assert_eq!(input.events[0], Event::Copy);
    assert!(matches!(input.events[1], Event::Key { key: Key::C, pressed: true, .. }));
    assert_eq!(input.events[2], Event::Cut);
    assert!(matches!(input.events[3], Event::Key { key: Key::X, pressed: true, .. }));
}

#[test]
fn key_up_has_no_clipboard_side_effect() {
    let mut p = Platform::new((640, 360));
    p.handle_event(
        PlatformEvent::KeyUp { keycode: Some(KeyCode::V), keymod: 0 },
        0,
        Some("hello".to_string()),
    );
    let input = p.begin_frame();
    assert_eq!(
        input.events,
        vec![Event::Key { key: Key::V, pressed: false, modifiers: Modifiers::none() }]
    );
}

#[test]
fn unmapped_key_down_changes_nothing() {
    let mut p = Platform::new((640, 360));
    // Establish a non-default stored modifier state first.
    p.handle_event(key_down(KeyCode::A, MOD_RSHIFT), 0, None);
    // An unmapped keycode: no event, and the modifiers stay as they were,
    // even though the event's bitmask differs.
    p.handle_event(key_down(KeyCode::Other, MOD_LCTRL), 0, None);
    // A missing keycode behaves the same.
    p.handle_event(PlatformEvent::KeyDown { keycode: None, keymod: MOD_LCTRL }, 0, None);
    let input = p.begin_frame();
    assert_eq!(input.events.len(), 1);
    assert!(matches!(input.events[0], Event::Key { key: Key::A, pressed: true, .. }));
    let shift_only = Modifiers { alt: false, ctrl: false, shift: true, mac_cmd: false, command: false };
    assert_eq!(input.modifiers, shift_only);
}

#[test]
fn both_ctrl_bits_equal_left_ctrl() {
    let mut both = Platform::new((640, 360));
    both.handle_event(key_down(KeyCode::A, MOD_LCTRL | MOD_RCTRL), 0, None);
    let mut left = Platform::new((640, 360));
    left.handle_event(key_down(KeyCode::A, MOD_LCTRL), 0, None);
    let a = both.begin_frame();
    let b = left.begin_frame();
    assert_eq!(a, b);
}

#[test]
fn buttons_reuse_the_last_pointer_position() {
    let mut p = Platform::new((640, 360));
    // Before any motion, the synthesized position is the origin.
    p.handle_event(PlatformEvent::MouseButtonDown { button: MouseButton::Left }, 0, None);
    p.handle_event(PlatformEvent::MouseMotion { x: 10, y: 20 }, 0, None);
    // After a motion, every button event carries its position.
    p.handle_event(PlatformEvent::MouseButtonDown { button: MouseButton::Right }, 0, None);
    p.handle_event(PlatformEvent::MouseButtonUp { button: MouseButton::Right }, 0, None);
    let input = p.begin_frame();
    assert_eq!(input.events.len(), 4);
    assert_eq!(
        input.events[0],
        Event::PointerButton {
            x: 0,
            y: 0,
            button: PointerButton::Primary,
            pressed: true,
            modifiers: Modifiers::none()
        }
    );
    assert_eq!(input.events[1], Event::PointerMoved { x: 10, y: 20 });
    assert_eq!(
        input.events[2],
        Event::PointerButton {
            x: 10,
            y: 20,
            button: PointerButton::Secondary,
            pressed: true,
            modifiers: Modifiers::none()
        }
    );
    assert_eq!(
        input.events[3],
        Event::PointerButton {
            x: 10,
            y: 20,
            button: PointerButton::Secondary,
            pressed: false,
            modifiers: Modifiers::none()
        }
    );
}

#[test]
fn extra_buttons_produce_no_event() {
    let mut p = Platform::new((640, 360));
    p.handle_event(PlatformEvent::MouseButtonDown { button: MouseButton::X1 }, 0, None);
    p.handle_event(PlatformEvent::MouseButtonUp { button: MouseButton::X2 }, 0, None);
    let input = p.begin_frame();
    assert_eq!(input.events, vec![]);
}

#[test]
fn text_input_is_carried_verbatim() {
    let mut p = Platform::new((640, 360));
    p.handle_event(PlatformEvent::TextInput { text: "héllo".to_string() }, 0, None);
    let input = p.begin_frame();
    assert_eq!(input.events, vec![Event::Text { text: "héllo".to_string() }]);
}

#[test]
fn unrecognized_events_are_dropped_silently() {
    let mut p = Platform::new((640, 360));
    p.handle_event(PlatformEvent::Other, 0, None);
    let input = p.begin_frame();
    assert_eq!(input.events, vec![]);
}

#[test]
fn update_time_is_taken_at_the_frame_boundary() {
    let mut p = Platform::new((640, 360));
    p.update_time(1_500_000);
    let input = p.begin_frame();
    assert_eq!(input.time_micros, Some(1_500_000));
    let input = p.begin_frame();
    assert_eq!(input.time_micros, None);
}

#[test]
fn modifiers_persist_across_frame_boundaries() {
    let mut p = Platform::new((640, 360));
    p.handle_event(key_down(KeyCode::A, MOD_LCTRL), 0, None);
    let _ = p.begin_frame();
    let input = p.begin_frame();
    assert!(input.modifiers.ctrl && input.modifiers.command);
    assert_eq!(input.events, vec![]);
}

#[test]
fn frame_open_follows_the_begin_close_cycle() {
    let mut p = Platform::new((640, 360));
    assert!(!p.frame_open());
    let _ = p.begin_frame();
    assert!(p.frame_open());
    p.close_frame(SystemCursor::SizeAll);
    assert!(!p.frame_open());
}

#[test]
fn end_frame_plan_writes_nonempty_copied_text() {
    let plan = plan_end_frame(GuiOutput {
        copied_text: "copied".to_string(),
        cursor_icon: CursorIcon::Default,
    });
    assert_eq!(plan.clipboard_write, Some("copied".to_string()));
    assert_eq!(plan.cursor, SystemCursor::Arrow);
}

#[test]
fn end_frame_plan_skips_empty_copied_text() {
    let plan = plan_end_frame(GuiOutput {
        copied_text: String::new(),
        cursor_icon: CursorIcon::Wait,
    });
    assert_eq!(plan.clipboard_write, None);
    assert_eq!(plan.cursor, SystemCursor::Wait);
}
