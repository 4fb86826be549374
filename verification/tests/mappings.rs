//! Tests for the fixed mapping tables: keycodes, mouse buttons, cursor
//! icons and the modifier bitmask.

use egui_sdl2_platform::buttons::{pointer_button_for, MouseButton, PointerButton};
use egui_sdl2_platform::cursor::{cursor_for_icon, CursorIcon, SystemCursor};
use egui_sdl2_platform::error::BridgeError;
use egui_sdl2_platform::keymap::{key_for_code, Key, KeyCode};
use egui_sdl2_platform::modifiers::{
    modifiers_from_bits, Modifiers, MOD_LALT, MOD_LCTRL, MOD_LGUI, MOD_LSHIFT, MOD_RALT,
    MOD_RCTRL, MOD_RGUI, MOD_RSHIFT,
};

#[test]
fn arrows_and_named_keys_map() {
    assert_eq!(key_for_code(KeyCode::Left), Some(Key::ArrowLeft));
    assert_eq!(key_for_code(KeyCode::Up), Some(Key::ArrowUp));
    assert_eq!(key_for_code(KeyCode::Right), Some(Key::ArrowRight));
    assert_eq!(key_for_code(KeyCode::Down), Some(Key::ArrowDown));
    assert_eq!(key_for_code(KeyCode::Escape), Some(Key::Escape));
    assert_eq!(key_for_code(KeyCode::Return), Some(Key::Enter));
    assert_eq!(key_for_code(KeyCode::Backspace), Some(Key::Backspace));
    assert_eq!(key_for_code(KeyCode::PageUp), Some(Key::PageUp));
    assert_eq!(key_for_code(KeyCode::PageDown), Some(Key::PageDown));
}

#[test]
fn main_row_and_keypad_digits_share_a_key() {
    assert_eq!(key_for_code(KeyCode::Kp0), Some(Key::Num0));
    assert_eq!(key_for_code(KeyCode::Num0), Some(Key::Num0));
    assert_eq!(key_for_code(KeyCode::Kp7), Some(Key::Num7));
    assert_eq!(key_for_code(KeyCode::Num7), Some(Key::Num7));
    assert_eq!(key_for_code(KeyCode::Kp9), Some(Key::Num9));
    assert_eq!(key_for_code(KeyCode::Num9), Some(Key::Num9));
}

#[test]
fn letters_map() {
    assert_eq!(key_for_code(KeyCode::A), Some(Key::A));
    assert_eq!(key_for_code(KeyCode::C), Some(Key::C));
    assert_eq!(key_for_code(KeyCode::V), Some(Key::V));
    assert_eq!(key_for_code(KeyCode::X), Some(Key::X));
    assert_eq!(key_for_code(KeyCode::Z), Some(Key::Z));
}

#[test]
fn unmapped_keycode_has_no_key() {
    assert_eq!(key_for_code(KeyCode::Other), None);
}

#[test]
fn mouse_buttons_map() {
    assert_eq!(pointer_button_for(MouseButton::Left), Some(PointerButton::Primary));
    assert_eq!(pointer_button_for(MouseButton::Middle), Some(PointerButton::Middle));
    assert_eq!(pointer_button_for(MouseButton::Right), Some(PointerButton::Secondary));
    assert_eq!(pointer_button_for(MouseButton::X1), None);
    assert_eq!(pointer_button_for(MouseButton::X2), None);
    assert_eq!(pointer_button_for(MouseButton::Unknown), None);
}

#[test]
fn cursor_table_maps_named_icons() {
    assert_eq!(cursor_for_icon(CursorIcon::Crosshair), SystemCursor::Crosshair);
    assert_eq!(cursor_for_icon(CursorIcon::Default), SystemCursor::Arrow);
    assert_eq!(cursor_for_icon(CursorIcon::Grab), SystemCursor::Hand);
    assert_eq!(cursor_for_icon(CursorIcon::Grabbing), SystemCursor::SizeAll);
    assert_eq!(cursor_for_icon(CursorIcon::Move), SystemCursor::SizeAll);
    assert_eq!(cursor_for_icon(CursorIcon::PointingHand), SystemCursor::Hand);
    assert_eq!(cursor_for_icon(CursorIcon::ResizeHorizontal), SystemCursor::SizeWE);
    assert_eq!(cursor_for_icon(CursorIcon::ResizeNeSw), SystemCursor::SizeNESW);
    assert_eq!(cursor_for_icon(CursorIcon::ResizeNwSe), SystemCursor::SizeNWSE);
    assert_eq!(cursor_for_icon(CursorIcon::ResizeVertical), SystemCursor::SizeNS);
    assert_eq!(cursor_for_icon(CursorIcon::Text), SystemCursor::IBeam);
    assert_eq!(cursor_for_icon(CursorIcon::NotAllowed), SystemCursor::No);
    assert_eq!(cursor_for_icon(CursorIcon::NoDrop), SystemCursor::No);
    assert_eq!(cursor_for_icon(CursorIcon::Wait), SystemCursor::Wait);
}

#[test]
fn unrecognized_icons_fall_back_to_arrow() {
    assert_eq!(cursor_for_icon(CursorIcon::Help), SystemCursor::Arrow);
    assert_eq!(cursor_for_icon(CursorIcon::Cell), SystemCursor::Arrow);
    assert_eq!(cursor_for_icon(CursorIcon::ZoomIn), SystemCursor::Arrow);
    assert_eq!(cursor_for_icon(CursorIcon::ResizeColumn), SystemCursor::Arrow);
    assert_eq!(cursor_for_icon(CursorIcon::Hidden), SystemCursor::Arrow);
}

#[test]
fn modifier_bits_read_either_side() {
    let m = modifiers_from_bits(MOD_LALT | MOD_RSHIFT);
    assert_eq!(
        m,
        Modifiers { alt: true, ctrl: false, shift: true, mac_cmd: false, command: false }
    );
    let m = modifiers_from_bits(MOD_RALT);
    assert!(m.alt && !m.ctrl && !m.shift && !m.mac_cmd && !m.command);
    let m = modifiers_from_bits(MOD_LSHIFT);
    assert!(m.shift && !m.alt);
}

#[test]
fn command_follows_left_ctrl_or_left_meta_only() {
    let left_ctrl = modifiers_from_bits(MOD_LCTRL);
    assert!(left_ctrl.ctrl && left_ctrl.command && !left_ctrl.mac_cmd);
    let right_ctrl = modifiers_from_bits(MOD_RCTRL);
    assert!(right_ctrl.ctrl && !right_ctrl.command);
    let left_meta = modifiers_from_bits(MOD_LGUI);
    assert!(left_meta.mac_cmd && left_meta.command && !left_meta.ctrl);
    // The right platform-meta key sets no flag at all: `mac_cmd` and
    // `command` follow the left one only.
    let right_meta = modifiers_from_bits(MOD_RGUI);
    assert_eq!(right_meta, Modifiers::none());
}

#[test]
fn error_messages_name_the_failure() {
    assert_eq!(
        BridgeError::CursorUnavailable.message(),
        "failed to construct the system cursor"
    );
    assert_eq!(
        BridgeError::ClipboardWriteFailed.message(),
        "failed to write text to the clipboard"
    );
}
