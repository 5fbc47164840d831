use soulstas::gamepad::VirtualGamepad;
use soulstas::input::{
    key_event_flags, mouse_button_data, mouse_button_flags, scroll_wheel_data, string_to_axis,
    string_to_button, string_to_input_type, string_to_keycode, string_to_mousebutton,
    string_to_stick, GamepadAxis, GamepadButton, GamepadStick, InputType, MouseButton, VirtualKey,
};
use soulstas::mem::{find_export, ModuleExport};
use soulstas::text::split_line;

#[test]
fn names_match_without_regard_to_case() {
    assert_eq!(string_to_keycode("F12"), Some(VirtualKey(0x7b)));
    assert_eq!(string_to_keycode("Escape"), Some(VirtualKey(0x1b)));
    assert_eq!(string_to_keycode("ARROW_LEFT"), Some(VirtualKey(0x25)));
    assert_eq!(string_to_keycode("7"), Some(VirtualKey(0x37)));
    assert_eq!(string_to_keycode("f13"), None);
    assert_eq!(string_to_mousebutton("Middle"), Some(MouseButton::Middle));
    assert_eq!(string_to_mousebutton("e3"), None);
    assert_eq!(string_to_button("R1"), Some(GamepadButton::ShoulderRight));
    assert_eq!(string_to_button("Options"), Some(GamepadButton::Start));
    assert_eq!(string_to_stick("RIGHT"), Some(GamepadStick::StickRight));
    assert_eq!(string_to_axis("Stick_L_Y"), Some(GamepadAxis::StickLeftY));
    assert_eq!(string_to_axis("trigger"), None);
    assert_eq!(string_to_input_type("DOWN"), Some(InputType::Down));
}

#[test]
fn words_split_on_unicode_whitespace() {
    assert_eq!(split_line("  a\u{3000}b\tc ; d"), vec!["a", "b", "c"]);
    assert_eq!(split_line("x#y z"), vec!["x"]);
    assert!(split_line("").is_empty());
}

#[test]
fn key_flags() {
    assert_eq!(key_event_flags(VirtualKey(0x41), InputType::Down, false), 0);
    assert_eq!(key_event_flags(VirtualKey(0x41), InputType::Up, false), 0x2);
    assert_eq!(key_event_flags(VirtualKey(0x26), InputType::Down, false), 0x1);
    assert_eq!(key_event_flags(VirtualKey(0x26), InputType::Up, true), 0xb);
    assert_eq!(key_event_flags(VirtualKey(0x41), InputType::Down, true), 0x8);
}

#[test]
fn mouse_words() {
    assert_eq!(mouse_button_flags(MouseButton::Left, InputType::Down), 0x2);
    assert_eq!(mouse_button_flags(MouseButton::Right, InputType::Up), 0x10);
    assert_eq!(mouse_button_flags(MouseButton::Extra2, InputType::Up), 0x100);
    assert_eq!(mouse_button_data(MouseButton::Extra1), 1);
    assert_eq!(mouse_button_data(MouseButton::Extra2), 2);
    assert_eq!(mouse_button_data(MouseButton::Left), 0);
    assert_eq!(scroll_wheel_data(2, InputType::Up), 240);
    assert_eq!(scroll_wheel_data(2, InputType::Down), (-240i32) as u32);
    assert_eq!(scroll_wheel_data(0, InputType::Down), 0);
}

#[test]
fn gamepad_buttons_and_axes() {
    let mut pad = VirtualGamepad::new();
    pad.send_gamepad_button(GamepadButton::A, InputType::Down);
    pad.send_gamepad_button(GamepadButton::Up, InputType::Down);
    assert_eq!(pad.buttons, 0x1001);
    assert_eq!(pad.packet_number, 2);
    pad.send_gamepad_button(GamepadButton::A, InputType::Up);
    assert_eq!(pad.buttons, 0x0001);
    pad.send_gamepad_axis(GamepadAxis::StickLeftX, -32768);
    pad.send_gamepad_axis(GamepadAxis::TriggerLeft, 255);
    pad.send_gamepad_axis(GamepadAxis::StickRightY, 70000);
    assert_eq!(pad.thumb_lx, -32768);
    assert_eq!(pad.left_trigger, 255);
    assert_eq!(pad.thumb_ry, 70000i32 as i16);
    assert_eq!(pad.packet_number, 6);
    pad.packet_number = u32::MAX;
    pad.send_gamepad_button(GamepadButton::B, InputType::Down);
    assert_eq!(pad.packet_number, 0);
}

#[test]
fn gamepad_state_bytes() {
    let pad = VirtualGamepad {
        packet_number: 0x0102_0304,
        buttons: 0x8001,
        left_trigger: 7,
        right_trigger: 9,
        thumb_lx: -1,
        thumb_ly: 0x1234,
        thumb_rx: 0,
        thumb_ry: -32768,
    };
    assert_eq!(
        pad.to_bytes(),
        vec![4, 3, 2, 1, 0x01, 0x80, 7, 9, 0xff, 0xff, 0x34, 0x12, 0, 0, 0x00, 0x80]
    );
}

#[test]
fn export_lookup_takes_first_exact_match() {
    let ex = vec![
        ModuleExport { name: "DS3_FRAME_RUNNING_X".to_string(), addr: 1 },
        ModuleExport { name: "DS3_FRAME_RUNNING".to_string(), addr: 2 },
        ModuleExport { name: "DS3_FRAME_RUNNING".to_string(), addr: 3 },
    ];
    assert_eq!(find_export(&ex, "DS3_FRAME_RUNNING"), Some(2));
    assert_eq!(find_export(&ex, "ds3_frame_running"), None);
    assert_eq!(find_export(&Vec::new(), "A"), None);
}
