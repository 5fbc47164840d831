//! Input vocabulary of scripts: key, mouse and gamepad names, the Windows
//! input-event words they turn into, and the virtual gamepad that the
//! target's controller hook reports.
use vstd::prelude::*;
use crate::text::{lower_of, lowercase, str_eq};

verus! {

#[derive(Clone, Copy, Debug, PartialEq, Eq, Structural)]
pub enum InputType {
    Up,
    Down,
}

#[derive(Clone, Copy, Debug, PartialEq, Eq, Structural)]
pub enum MouseButton {
    Left,
    Right,
    Middle,
    Extra1,
    Extra2,
}

#[derive(Clone, Copy, Debug, PartialEq, Eq, Structural)]
pub enum GamepadButton {
    Up,
    Down,
    Left,
    Right,
    A,
    B,
    X,
    Y,
    Start,
    Select,
    StickLeft,
    StickRight,
    ShoulderLeft,
    ShoulderRight,
}

#[derive(Clone, Copy, Debug, PartialEq, Eq, Structural)]
pub enum GamepadStick {
    StickLeft,
    StickRight,
}

#[derive(Clone, Copy, Debug, PartialEq, Eq, Structural)]
pub enum GamepadAxis {
    StickLeftX,
    StickLeftY,
    StickRightX,
    StickRightY,
    TriggerLeft,
    TriggerRight,
}

/// A Windows virtual-key code.
#[derive(Clone, Copy, Debug, PartialEq, Eq, Structural)]
pub struct VirtualKey(pub u16);

/// Direction of a key or button event named in a script.
pub open spec fn input_type_of_name(l: Seq<char>) -> Option<InputType> {
    if l == "up"@ {
        Some(InputType::Up)
    } else if l == "down"@ {
        Some(InputType::Down)
    } else {
        None
    }
}

/// Looks up an already lowercased name.
pub fn input_type_from_lower(l: &str) -> (r: Option<InputType>)
    ensures
        r == input_type_of_name(l@),
{
    if str_eq(l, "up") {
        Some(InputType::Up)
    } else if str_eq(l, "down") {
        Some(InputType::Down)
    } else {
        None
    }
}

/// Windows virtual-key code of a lowercased key name.
pub open spec fn key_of_name(l: Seq<char>) -> Option<VirtualKey> {
    if l == "0"@ {
        Some(VirtualKey(48))
    } else if l == "1"@ {
        Some(VirtualKey(49))
    } else if l == "2"@ {
        Some(VirtualKey(50))
    } else if l == "3"@ {
        Some(VirtualKey(51))
    } else if l == "4"@ {
        Some(VirtualKey(52))
    } else if l == "5"@ {
        Some(VirtualKey(53))
    } else if l == "6"@ {
        Some(VirtualKey(54))
    } else if l == "7"@ {
        Some(VirtualKey(55))
    } else if l == "8"@ {
        Some(VirtualKey(56))
    } else if l == "9"@ {
        Some(VirtualKey(57))
    } else if l == "a"@ {
        Some(VirtualKey(65))
    } else if l == "b"@ {
        Some(VirtualKey(66))
    } else if l == "c"@ {
        Some(VirtualKey(67))
    } else if l == "d"@ {
        Some(VirtualKey(68))
    } else if l == "e"@ {
        Some(VirtualKey(69))
    } else if l == "f"@ {
        Some(VirtualKey(70))
    } else if l == "g"@ {
        Some(VirtualKey(71))
    } else if l == "h"@ {
        Some(VirtualKey(72))
    } else if l == "i"@ {
        Some(VirtualKey(73))
    } else if l == "j"@ {
        Some(VirtualKey(74))
    } else if l == "k"@ {
        Some(VirtualKey(75))
    } else if l == "l"@ {
        Some(VirtualKey(76))
    } else if l == "m"@ {
        Some(VirtualKey(77))
    } else if l == "n"@ {
        Some(VirtualKey(78))
    } else if l == "o"@ {
        Some(VirtualKey(79))
    } else if l == "p"@ {
        Some(VirtualKey(80))
    } else if l == "q"@ {
        Some(VirtualKey(81))
    } else if l == "r"@ {
        Some(VirtualKey(82))
    } else if l == "s"@ {
        Some(VirtualKey(83))
    } else if l == "t"@ {
        Some(VirtualKey(84))
    } else if l == "u"@ {
        Some(VirtualKey(85))
    } else if l == "v"@ {
        Some(VirtualKey(86))
    } else if l == "w"@ {
        Some(VirtualKey(87))
    } else if l == "x"@ {
        Some(VirtualKey(88))
    } else if l == "y"@ {
        Some(VirtualKey(89))
    } else if l == "z"@ {
        Some(VirtualKey(90))
    } else if l == "f1"@ {
        Some(VirtualKey(112))
    } else if l == "f2"@ {
        Some(VirtualKey(113))
    } else if l == "f3"@ {
        Some(VirtualKey(114))
    } else if l == "f4"@ {
        Some(VirtualKey(115))
    } else if l == "f5"@ {
        Some(VirtualKey(116))
    } else if l == "f6"@ {
        Some(VirtualKey(117))
    } else if l == "f7"@ {
        Some(VirtualKey(118))
    } else if l == "f8"@ {
        Some(VirtualKey(119))
    } else if l == "f9"@ {
        Some(VirtualKey(120))
    } else if l == "f10"@ {
        Some(VirtualKey(121))
    } else if l == "f11"@ {
        Some(VirtualKey(122))
    } else if l == "f12"@ {
        Some(VirtualKey(123))
    } else if l == "shift"@ || l == "shift_l"@ || l == "shift_left"@ {
        Some(VirtualKey(0xa0))
    } else if l == "shift_r"@ || l == "shift_right"@ {
        Some(VirtualKey(0xa1))
    } else if l == "control"@ || l == "ctrl"@ || l == "control_l"@ || l == "ctrl_l"@ || l == "control_left"@ || l == "ctrl_left"@ {
        Some(VirtualKey(0xa2))
    } else if l == "control_r"@ || l == "ctrl_r"@ || l == "control_right"@ || l == "ctrl_right"@ {
        Some(VirtualKey(0xa3))
    } else if l == "alt"@ || l == "alt_l"@ || l == "alt_left"@ {
        Some(VirtualKey(0xa4))
    } else if l == "alt_r"@ || l == "alt_right"@ {
        Some(VirtualKey(0xa5))
    } else if l == "tab"@ {
        Some(VirtualKey(0x09))
    } else if l == "back"@ || l == "backspace"@ {
        Some(VirtualKey(0x08))
    } else if l == "enter"@ || l == "return"@ {
        Some(VirtualKey(0x0d))
    } else if l == "caps"@ || l == "capslock"@ {
        Some(VirtualKey(0x14))
    } else if l == "space"@ {
        Some(VirtualKey(0x20))
    } else if l == "escape"@ || l == "esc"@ {
        Some(VirtualKey(0x1b))
    } else if l == "up"@ || l == "arrow_up"@ {
        Some(VirtualKey(0x26))
    } else if l == "down"@ || l == "arrow_down"@ {
        Some(VirtualKey(0x28))
    } else if l == "left"@ || l == "arrow_left"@ {
        Some(VirtualKey(0x25))
    } else if l == "right"@ || l == "arrow_right"@ {
        Some(VirtualKey(0x27))
    } else {
        None
    }
}

/// Looks up an already lowercased name.
pub fn key_from_lower(l: &str) -> (r: Option<VirtualKey>)
    ensures
        r == key_of_name(l@),
{
    if str_eq(l, "0") {
        Some(VirtualKey(48))
    } else if str_eq(l, "1") {
        Some(VirtualKey(49))
    } else if str_eq(l, "2") {
        Some(VirtualKey(50))
    } else if str_eq(l, "3") {
        Some(VirtualKey(51))
    } else if str_eq(l, "4") {
        Some(VirtualKey(52))
    } else if str_eq(l, "5") {
        Some(VirtualKey(53))
    } else if str_eq(l, "6") {
        Some(VirtualKey(54))
    } else if str_eq(l, "7") {
        Some(VirtualKey(55))
    } else if str_eq(l, "8") {
        Some(VirtualKey(56))
    } else if str_eq(l, "9") {
        Some(VirtualKey(57))
    } else if str_eq(l, "a") {
        Some(VirtualKey(65))
    } else if str_eq(l, "b") {
        Some(VirtualKey(66))
    } else if str_eq(l, "c") {
        Some(VirtualKey(67))
    } else if str_eq(l, "d") {
        Some(VirtualKey(68))
    } else if str_eq(l, "e") {
        Some(VirtualKey(69))
    } else if str_eq(l, "f") {
        Some(VirtualKey(70))
    } else if str_eq(l, "g") {
        Some(VirtualKey(71))
    } else if str_eq(l, "h") {
        Some(VirtualKey(72))
    } else if str_eq(l, "i") {
        Some(VirtualKey(73))
    } else if str_eq(l, "j") {
        Some(VirtualKey(74))
    } else if str_eq(l, "k") {
        Some(VirtualKey(75))
    } else if str_eq(l, "l") {
        Some(VirtualKey(76))
    } else if str_eq(l, "m") {
        Some(VirtualKey(77))
    } else if str_eq(l, "n") {
        Some(VirtualKey(78))
    } else if str_eq(l, "o") {
        Some(VirtualKey(79))
    } else if str_eq(l, "p") {
        Some(VirtualKey(80))
    } else if str_eq(l, "q") {
        Some(VirtualKey(81))
    } else if str_eq(l, "r") {
        Some(VirtualKey(82))
    } else if str_eq(l, "s") {
        Some(VirtualKey(83))
    } else if str_eq(l, "t") {
        Some(VirtualKey(84))
    } else if str_eq(l, "u") {
        Some(VirtualKey(85))
    } else if str_eq(l, "v") {
        Some(VirtualKey(86))
    } else if str_eq(l, "w") {
        Some(VirtualKey(87))
    } else if str_eq(l, "x") {
        Some(VirtualKey(88))
    } else if str_eq(l, "y") {
        Some(VirtualKey(89))
    } else if str_eq(l, "z") {
        Some(VirtualKey(90))
    } else if str_eq(l, "f1") {
        Some(VirtualKey(112))
    } else if str_eq(l, "f2") {
        Some(VirtualKey(113))
    } else if str_eq(l, "f3") {
        Some(VirtualKey(114))
    } else if str_eq(l, "f4") {
        Some(VirtualKey(115))
    } else if str_eq(l, "f5") {
        Some(VirtualKey(116))
    } else if str_eq(l, "f6") {
        Some(VirtualKey(117))
    } else if str_eq(l, "f7") {
        Some(VirtualKey(118))
    } else if str_eq(l, "f8") {
        Some(VirtualKey(119))
    } else if str_eq(l, "f9") {
        Some(VirtualKey(120))
    } else if str_eq(l, "f10") {
        Some(VirtualKey(121))
    } else if str_eq(l, "f11") {
        Some(VirtualKey(122))
    } else if str_eq(l, "f12") {
        Some(VirtualKey(123))
    } else if str_eq(l, "shift") || str_eq(l, "shift_l") || str_eq(l, "shift_left") {
        Some(VirtualKey(0xa0))
    } else if str_eq(l, "shift_r") || str_eq(l, "shift_right") {
        Some(VirtualKey(0xa1))
    } else if str_eq(l, "control") || str_eq(l, "ctrl") || str_eq(l, "control_l") || str_eq(l, "ctrl_l") || str_eq(l, "control_left") || str_eq(l, "ctrl_left") {
        Some(VirtualKey(0xa2))
    } else if str_eq(l, "control_r") || str_eq(l, "ctrl_r") || str_eq(l, "control_right") || str_eq(l, "ctrl_right") {
        Some(VirtualKey(0xa3))
    } else if str_eq(l, "alt") || str_eq(l, "alt_l") || str_eq(l, "alt_left") {
        Some(VirtualKey(0xa4))
    } else if str_eq(l, "alt_r") || str_eq(l, "alt_right") {
        Some(VirtualKey(0xa5))
    } else if str_eq(l, "tab") {
        Some(VirtualKey(0x09))
    } else if str_eq(l, "back") || str_eq(l, "backspace") {
        Some(VirtualKey(0x08))
    } else if str_eq(l, "enter") || str_eq(l, "return") {
        Some(VirtualKey(0x0d))
    } else if str_eq(l, "caps") || str_eq(l, "capslock") {
        Some(VirtualKey(0x14))
    } else if str_eq(l, "space") {
        Some(VirtualKey(0x20))
    } else if str_eq(l, "escape") || str_eq(l, "esc") {
        Some(VirtualKey(0x1b))
    } else if str_eq(l, "up") || str_eq(l, "arrow_up") {
        Some(VirtualKey(0x26))
    } else if str_eq(l, "down") || str_eq(l, "arrow_down") {
        Some(VirtualKey(0x28))
    } else if str_eq(l, "left") || str_eq(l, "arrow_left") {
        Some(VirtualKey(0x25))
    } else if str_eq(l, "right") || str_eq(l, "arrow_right") {
        Some(VirtualKey(0x27))
    } else {
        None
    }
}

/// Mouse button of a lowercased name.
pub open spec fn mouse_button_of_name(l: Seq<char>) -> Option<MouseButton> {
    if l == "left"@ || l == "l"@ {
        Some(MouseButton::Left)
    } else if l == "right"@ || l == "r"@ {
        Some(MouseButton::Right)
    } else if l == "middle"@ || l == "m"@ {
        Some(MouseButton::Middle)
    } else if l == "extra1"@ || l == "e1"@ {
        Some(MouseButton::Extra1)
    } else if l == "extra2"@ || l == "e2"@ {
        Some(MouseButton::Extra2)
    } else {
        None
    }
}

/// Looks up an already lowercased name.
pub fn mouse_button_from_lower(l: &str) -> (r: Option<MouseButton>)
    ensures
        r == mouse_button_of_name(l@),
{
    if str_eq(l, "left") || str_eq(l, "l") {
        Some(MouseButton::Left)
    } else if str_eq(l, "right") || str_eq(l, "r") {
        Some(MouseButton::Right)
    } else if str_eq(l, "middle") || str_eq(l, "m") {
        Some(MouseButton::Middle)
    } else if str_eq(l, "extra1") || str_eq(l, "e1") {
        Some(MouseButton::Extra1)
    } else if str_eq(l, "extra2") || str_eq(l, "e2") {
        Some(MouseButton::Extra2)
    } else {
        None
    }
}

/// Gamepad button of a lowercased name.
pub open spec fn gamepad_button_of_name(l: Seq<char>) -> Option<GamepadButton> {
    if l == "up"@ || l == "dpad_up"@ {
        Some(GamepadButton::Up)
    } else if l == "down"@ || l == "dpad_down"@ {
        Some(GamepadButton::Down)
    } else if l == "left"@ || l == "dpad_left"@ {
        Some(GamepadButton::Left)
    } else if l == "right"@ || l == "dpad_right"@ {
        Some(GamepadButton::Right)
    } else if l == "a"@ || l == "cross"@ {
        Some(GamepadButton::A)
    } else if l == "b"@ || l == "circle"@ {
        Some(GamepadButton::B)
    } else if l == "x"@ || l == "square"@ {
        Some(GamepadButton::X)
    } else if l == "y"@ || l == "triangle"@ {
        Some(GamepadButton::Y)
    } else if l == "start"@ || l == "options"@ {
        Some(GamepadButton::Start)
    } else if l == "select"@ || l == "share"@ {
        Some(GamepadButton::Select)
    } else if l == "l3"@ || l == "stick_l"@ || l == "stick_left"@ {
        Some(GamepadButton::StickLeft)
    } else if l == "r3"@ || l == "stick_r"@ || l == "stick_right"@ {
        Some(GamepadButton::StickRight)
    } else if l == "l1"@ || l == "shoulder_l"@ || l == "shoulder_left"@ {
        Some(GamepadButton::ShoulderLeft)
    } else if l == "r1"@ || l == "shoulder_r"@ || l == "shoulder_right"@ {
        Some(GamepadButton::ShoulderRight)
    } else {
        None
    }
}

/// Looks up an already lowercased name.
pub fn gamepad_button_from_lower(l: &str) -> (r: Option<GamepadButton>)
    ensures
        r == gamepad_button_of_name(l@),
{
    if str_eq(l, "up") || str_eq(l, "dpad_up") {
        Some(GamepadButton::Up)
    } else if str_eq(l, "down") || str_eq(l, "dpad_down") {
        Some(GamepadButton::Down)
    } else if str_eq(l, "left") || str_eq(l, "dpad_left") {
        Some(GamepadButton::Left)
    } else if str_eq(l, "right") || str_eq(l, "dpad_right") {
        Some(GamepadButton::Right)
    } else if str_eq(l, "a") || str_eq(l, "cross") {
        Some(GamepadButton::A)
    } else if str_eq(l, "b") || str_eq(l, "circle") {
        Some(GamepadButton::B)
    } else if str_eq(l, "x") || str_eq(l, "square") {
        Some(GamepadButton::X)
    } else if str_eq(l, "y") || str_eq(l, "triangle") {
        Some(GamepadButton::Y)
    } else if str_eq(l, "start") || str_eq(l, "options") {
        Some(GamepadButton::Start)
    } else if str_eq(l, "select") || str_eq(l, "share") {
        Some(GamepadButton::Select)
    } else if str_eq(l, "l3") || str_eq(l, "stick_l") || str_eq(l, "stick_left") {
        Some(GamepadButton::StickLeft)
    } else if str_eq(l, "r3") || str_eq(l, "stick_r") || str_eq(l, "stick_right") {
        Some(GamepadButton::StickRight)
    } else if str_eq(l, "l1") || str_eq(l, "shoulder_l") || str_eq(l, "shoulder_left") {
        Some(GamepadButton::ShoulderLeft)
    } else if str_eq(l, "r1") || str_eq(l, "shoulder_r") || str_eq(l, "shoulder_right") {
        Some(GamepadButton::ShoulderRight)
    } else {
        None
    }
}

/// Analog stick of a lowercased name.
pub open spec fn stick_of_name(l: Seq<char>) -> Option<GamepadStick> {
    if l == "left"@ || l == "l"@ {
        Some(GamepadStick::StickLeft)
    } else if l == "right"@ || l == "r"@ {
        Some(GamepadStick::StickRight)
    } else {
        None
    }
}

/// Looks up an already lowercased name.
pub fn stick_from_lower(l: &str) -> (r: Option<GamepadStick>)
    ensures
        r == stick_of_name(l@),
{
    if str_eq(l, "left") || str_eq(l, "l") {
        Some(GamepadStick::StickLeft)
    } else if str_eq(l, "right") || str_eq(l, "r") {
        Some(GamepadStick::StickRight)
    } else {
        None
    }
}

/// Gamepad axis of a lowercased name.
pub open spec fn axis_of_name(l: Seq<char>) -> Option<GamepadAxis> {
    if l == "stick_left_x"@ || l == "stick_l_x"@ || l == "left_x"@ || l == "l_x"@ {
        Some(GamepadAxis::StickLeftX)
    } else if l == "stick_left_y"@ || l == "stick_l_y"@ || l == "left_y"@ || l == "l_y"@ {
        Some(GamepadAxis::StickLeftY)
    } else if l == "stick_right_x"@ || l == "stick_r_x"@ || l == "right_x"@ || l == "r_x"@ {
        Some(GamepadAxis::StickRightX)
    } else if l == "stick_right_y"@ || l == "stick_r_y"@ || l == "right_y"@ || l == "r_y"@ {
        Some(GamepadAxis::StickRightY)
    } else if l == "trigger_left"@ || l == "trigger_l"@ || l == "l2"@ {
        Some(GamepadAxis::TriggerLeft)
    } else if l == "trigger_right"@ || l == "trigger_r"@ || l == "r2"@ {
        Some(GamepadAxis::TriggerRight)
    } else {
        None
    }
}

/// Looks up an already lowercased name.
pub fn axis_from_lower(l: &str) -> (r: Option<GamepadAxis>)
    ensures
        r == axis_of_name(l@),
{
    if str_eq(l, "stick_left_x") || str_eq(l, "stick_l_x") || str_eq(l, "left_x") || str_eq(l, "l_x") {
        Some(GamepadAxis::StickLeftX)
    } else if str_eq(l, "stick_left_y") || str_eq(l, "stick_l_y") || str_eq(l, "left_y") || str_eq(l, "l_y") {
        Some(GamepadAxis::StickLeftY)
    } else if str_eq(l, "stick_right_x") || str_eq(l, "stick_r_x") || str_eq(l, "right_x") || str_eq(l, "r_x") {
        Some(GamepadAxis::StickRightX)
    } else if str_eq(l, "stick_right_y") || str_eq(l, "stick_r_y") || str_eq(l, "right_y") || str_eq(l, "r_y") {
        Some(GamepadAxis::StickRightY)
    } else if str_eq(l, "trigger_left") || str_eq(l, "trigger_l") || str_eq(l, "l2") {
        Some(GamepadAxis::TriggerLeft)
    } else if str_eq(l, "trigger_right") || str_eq(l, "trigger_r") || str_eq(l, "r2") {
        Some(GamepadAxis::TriggerRight)
    } else {
        None
    }
}

/// Key named in a script, matched without regard to case.
pub fn string_to_keycode(name: &str) -> (r: Option<VirtualKey>)
    ensures
        r == key_of_name(lower_of(name@)),
{
    let l = lowercase(name);
    key_from_lower(l.as_str())
}

/// Mouse button named in a script, matched without regard to case.
pub fn string_to_mousebutton(name: &str) -> (r: Option<MouseButton>)
    ensures
        r == mouse_button_of_name(lower_of(name@)),
{
    let l = lowercase(name);
    mouse_button_from_lower(l.as_str())
}

/// Gamepad button named in a script, matched without regard to case.
pub fn string_to_button(name: &str) -> (r: Option<GamepadButton>)
    ensures
        r == gamepad_button_of_name(lower_of(name@)),
{
    let l = lowercase(name);
    gamepad_button_from_lower(l.as_str())
}

/// Analog stick named in a script, matched without regard to case.
pub fn string_to_stick(name: &str) -> (r: Option<GamepadStick>)
    ensures
        r == stick_of_name(lower_of(name@)),
{
    let l = lowercase(name);
    stick_from_lower(l.as_str())
}

/// Gamepad axis named in a script, matched without regard to case.
pub fn string_to_axis(name: &str) -> (r: Option<GamepadAxis>)
    ensures
        r == axis_of_name(lower_of(name@)),
{
    let l = lowercase(name);
    axis_from_lower(l.as_str())
}

/// Event direction named in a script, matched without regard to case.
pub fn string_to_input_type(name: &str) -> (r: Option<InputType>)
    ensures
        r == input_type_of_name(lower_of(name@)),
{
    let l = lowercase(name);
    input_type_from_lower(l.as_str())
}


/// `KEYEVENTF_EXTENDEDKEY`, `KEYEVENTF_KEYUP` and `KEYEVENTF_SCANCODE`.
pub const KEYEVENTF_EXTENDEDKEY: u32 = 0x0001;
pub const KEYEVENTF_KEYUP: u32 = 0x0002;
pub const KEYEVENTF_SCANCODE: u32 = 0x0008;

/// The arrow keys, which are sent as extended keys.
pub open spec fn is_arrow_key(key: VirtualKey) -> bool {
    0x25 <= key.0 && key.0 <= 0x28
}

/// Flags of a keyboard event: extended for the arrows, key-up on release, and
/// scan-code for events that name the key by its scan code.
pub open spec fn key_flags(key: VirtualKey, input_type: InputType, scancode: bool) -> u32 {
    (if scancode { KEYEVENTF_SCANCODE } else { 0 }) | (if input_type == InputType::Up {
        KEYEVENTF_KEYUP
    } else {
        0
    }) | (if is_arrow_key(key) { KEYEVENTF_EXTENDEDKEY } else { 0 })
}

pub fn key_event_flags(key: VirtualKey, input_type: InputType, scancode: bool) -> (r: u32)
    ensures
        r == key_flags(key, input_type, scancode),
{
    let s: u32 = if scancode { KEYEVENTF_SCANCODE } else { 0 };
    let u: u32 = if input_type == InputType::Up { KEYEVENTF_KEYUP } else { 0 };
    let e: u32 = if 0x25 <= key.0 && key.0 <= 0x28 { KEYEVENTF_EXTENDEDKEY } else { 0 };
    s | u | e
}

/// `MOUSEEVENTF_*` word of a button press or release.
pub open spec fn mouse_flags(button: MouseButton, input_type: InputType) -> u32 {
    let down = input_type == InputType::Down;
    match button {
        MouseButton::Left => if down { 0x0002u32 } else { 0x0004u32 },
        MouseButton::Right => if down { 0x0008u32 } else { 0x0010u32 },
        MouseButton::Middle => if down { 0x0020u32 } else { 0x0040u32 },
        MouseButton::Extra1 | MouseButton::Extra2 => if down { 0x0080u32 } else { 0x0100u32 },
    }
}

pub fn mouse_button_flags(button: MouseButton, input_type: InputType) -> (r: u32)
    ensures
        r == mouse_flags(button, input_type),
{
    let down = input_type == InputType::Down;
    match button {
        MouseButton::Left => if down { 0x0002 } else { 0x0004 },
        MouseButton::Right => if down { 0x0008 } else { 0x0010 },
        MouseButton::Middle => if down { 0x0020 } else { 0x0040 },
        MouseButton::Extra1 | MouseButton::Extra2 => if down { 0x0080 } else { 0x0100 },
    }
}

/// The event's data word: which extra button (`XBUTTON1`, `XBUTTON2`), else 0.
pub fn mouse_button_data(button: MouseButton) -> (r: u32)
    ensures
        r == match button {
            MouseButton::Extra1 => 1u32,
            MouseButton::Extra2 => 2u32,
            _ => 0u32,
        },
{
    match button {
        MouseButton::Extra1 => 1,
        MouseButton::Extra2 => 2,
        _ => 0,
    }
}

/// One notch of the mouse wheel.
pub const WHEEL_DELTA: u32 = 120;

/// The wheel event's data word for `amount` notches: forward for `Up`,
/// backward (the two's complement) for `Down`.
pub fn scroll_wheel_data(amount: u32, input_type: InputType) -> (r: u32)
    requires
        amount * WHEEL_DELTA <= u32::MAX,
    ensures
        input_type == InputType::Up ==> r == amount * WHEEL_DELTA,
        input_type == InputType::Down ==> r as int == (0x1_0000_0000 - amount * WHEEL_DELTA)
            % 0x1_0000_0000,
{
    let v = amount * WHEEL_DELTA;
    match input_type {
        InputType::Up => v,
        InputType::Down => 0u32.wrapping_sub(v),
    }
}

} // verus!
