use soulstas::actions::{parse_action, AwaitFlag, FrameType, ParseError, TasActionType};
use soulstas::input::{GamepadAxis, GamepadButton, GamepadStick, InputType, MouseButton, VirtualKey};
use soulstas::script::{build_script, FrameResolver, ScriptError};

fn lines(v: &[&str]) -> Vec<String> {
    v.iter().map(|s| s.to_string()).collect()
}

fn parse_ok(line: &str) -> (u32, FrameType, TasActionType) {
    let info = parse_action(line).unwrap().unwrap();
    (info.frame, info.frame_type, info.action)
}

fn parse_err(line: &str) -> ParseError {
    parse_action(line).unwrap_err()
}

#[test]
fn frame_references_resolve_against_previous_and_anchor() {
    let script = build_script(&lines(&["100 nothing", "+50 nothing", "++200 nothing"])).unwrap();
    let frames: Vec<u32> = script.actions.iter().map(|a| a.frame).collect();
    assert_eq!(frames, vec![100, 150, 300]);
    assert_eq!(script.frame_max, 300);
}

#[test]
fn relative_form_leaves_anchor_alone() {
    let mut r = FrameResolver::new();
    assert_eq!(r.resolve(100, FrameType::Absolute), Some(100));
    assert_eq!(r.previous_absolute, 100);
    assert_eq!(r.resolve(50, FrameType::Relative), Some(150));
    assert_eq!(r.previous_absolute, 100);
    assert_eq!(r.resolve(200, FrameType::RelativeAbsolute), Some(300));
    assert_eq!(r.previous_absolute, 300);
    assert_eq!(r.resolve(5, FrameType::RelativeAbsolute), Some(305));
    assert_eq!(r.max, 305);
    assert_eq!(r.resolve(7, FrameType::Absolute), Some(7));
    assert_eq!(r.max, 305);
    assert_eq!(r.previous, 7);
}

#[test]
fn frame_overflow_is_reported_with_its_line() {
    let r = build_script(&lines(&["4294967295 nothing", "+1 nothing"]));
    assert_eq!(r.err(), Some(ScriptError::FrameOverflow { line: 2 }));
    let mut fr = FrameResolver::new();
    fr.resolve(u32::MAX, FrameType::Absolute);
    assert_eq!(fr.resolve(1, FrameType::Relative), None);
    assert_eq!(fr.previous, u32::MAX);
}

#[test]
fn script_of_comments_and_blanks_is_refused() {
    let r = build_script(&lines(&["", "   ", "; just a comment", "# another", "\t"]));
    assert_eq!(r.err(), Some(ScriptError::NoActions));
    assert_eq!(build_script(&Vec::new()).err(), Some(ScriptError::NoActions));
}

#[test]
fn parse_error_carries_one_based_line() {
    let r = build_script(&lines(&["0 nothing", "; fine", "12 jump"]));
    assert_eq!(r.err(), Some(ScriptError::Parse { line: 3, error: ParseError::InvalidAction }));
}

#[test]
fn blank_and_comment_lines_parse_to_none() {
    assert!(parse_action("").unwrap().is_none());
    assert!(parse_action("   \t ").unwrap().is_none());
    assert!(parse_action("; 10 key down a").unwrap().is_none());
    assert!(parse_action("#").unwrap().is_none());
}

#[test]
fn comment_suffix_is_dropped() {
    let (f, t, a) = parse_ok("10 nothing ; trailing words");
    assert_eq!((f, t), (10, FrameType::Absolute));
    assert!(matches!(a, TasActionType::Nothing));
    let (_, _, a) = parse_ok("10 fps 30#x");
    match a {
        TasActionType::Fps { fps } => assert_eq!(fps, "30"),
        _ => panic!("not fps"),
    }
}

#[test]
fn frame_forms() {
    assert_eq!(parse_ok("+5 nothing").1, FrameType::Relative);
    assert_eq!(parse_ok("++5 nothing").1, FrameType::RelativeAbsolute);
    assert_eq!(parse_ok("+5 nothing").0, 5);
    assert_eq!(parse_err("+++5 nothing"), ParseError::InvalidFrame);
    assert_eq!(parse_err("-5 nothing"), ParseError::InvalidFrame);
    assert_eq!(parse_err("abc nothing"), ParseError::InvalidFrame);
    assert_eq!(parse_err("4294967296 nothing"), ParseError::InvalidFrame);
    assert_eq!(parse_err("+ nothing"), ParseError::InvalidFrame);
    assert_eq!(parse_err("7"), ParseError::CantParseAction);
}

#[test]
fn key_actions() {
    let (_, _, a) = parse_ok("1 KEY Down A");
    match a {
        TasActionType::Key { input_type, key } => {
            assert_eq!(input_type, InputType::Down);
            assert_eq!(key, VirtualKey(0x41));
        }
        _ => panic!("not key"),
    }
    let (_, _, a) = parse_ok("1 key_alternative up ctrl_r");
    match a {
        TasActionType::KeyAlternative { input_type, key } => {
            assert_eq!(input_type, InputType::Up);
            assert_eq!(key, VirtualKey(0xa3));
        }
        _ => panic!("not key_alternative"),
    }
    assert_eq!(parse_err("1 key down"), ParseError::InvalidParameterCount);
    assert_eq!(parse_err("1 key sideways a"), ParseError::InvalidInputType);
    assert_eq!(parse_err("1 key down nokey"), ParseError::InvalidKey);
}

#[test]
fn mouse_actions() {
    match parse_ok("1 mouse button down E2").2 {
        TasActionType::MouseButton { input_type, button } => {
            assert_eq!(input_type, InputType::Down);
            assert_eq!(button, MouseButton::Extra2);
        }
        _ => panic!("not mouse button"),
    }
    match parse_ok("1 mouse scroll up +3").2 {
        TasActionType::MouseScroll { input_type, amount } => {
            assert_eq!(input_type, InputType::Up);
            assert_eq!(amount, 3);
        }
        _ => panic!("not scroll"),
    }
    match parse_ok("1 mouse move -20 15").2 {
        TasActionType::MouseMove { x, y } => assert_eq!((x, y), (-20, 15)),
        _ => panic!("not move"),
    }
    assert_eq!(parse_err("1 mouse"), ParseError::InvalidParameterCount);
    assert_eq!(parse_err("1 mouse BUTTON down left"), ParseError::InvalidMouseActionType);
    assert_eq!(parse_err("1 mouse button down"), ParseError::InvalidParameterCount);
    assert_eq!(parse_err("1 mouse button left left"), ParseError::InvalidInputType);
    assert_eq!(parse_err("1 mouse button down thumb"), ParseError::InvalidButton);
    assert_eq!(parse_err("1 mouse scroll up -1"), ParseError::InvalidScrollAmount);
    assert_eq!(parse_err("1 mouse move x 1"), ParseError::InvalidXAmount);
    assert_eq!(parse_err("1 mouse move 1 2147483648"), ParseError::InvalidYAmount);
    assert_eq!(parse_err("1 mouse wiggle 1 2"), ParseError::InvalidMouseActionType);
}

#[test]
fn gamepad_actions() {
    match parse_ok("1 gamepad button down Triangle").2 {
        TasActionType::GamepadButton { input_type, button } => {
            assert_eq!(input_type, InputType::Down);
            assert_eq!(button, GamepadButton::Y);
        }
        _ => panic!("not gamepad button"),
    }
    match parse_ok("1 gamepad stick L 90 0.5").2 {
        TasActionType::GamepadStick { stick, angle, amount } => {
            assert_eq!(stick, GamepadStick::StickLeft);
            assert_eq!(angle, "90");
            assert_eq!(amount, "0.5");
        }
        _ => panic!("not stick"),
    }
    match parse_ok("1 gamepad axis r2 255").2 {
        TasActionType::GamepadAxis { axis, amount } => {
            assert_eq!(axis, GamepadAxis::TriggerRight);
            assert_eq!(amount, 255);
        }
        _ => panic!("not axis"),
    }
    assert_eq!(parse_err("1 gamepad button down"), ParseError::InvalidParameterCount);
    assert_eq!(parse_err("1 gamepad button down a b"), ParseError::InvalidParameterCount);
    assert_eq!(parse_err("1 gamepad button held a"), ParseError::InvalidInputType);
    assert_eq!(parse_err("1 gamepad button down z"), ParseError::InvalidButton);
    assert_eq!(parse_err("1 gamepad stick middle 0 1"), ParseError::InvalidStick);
    assert_eq!(parse_err("1 gamepad stick left 0"), ParseError::InvalidParameterCount);
    assert_eq!(parse_err("1 gamepad axis l3 5"), ParseError::InvalidAxis);
    assert_eq!(parse_err("1 gamepad axis l_x five"), ParseError::InvalidAmount);
    assert_eq!(parse_err("1 gamepad press a b"), ParseError::InvalidGamepadActionType);
}

#[test]
fn other_actions() {
    match parse_ok("1 await No_Cutscene").2 {
        TasActionType::Await { flag } => assert_eq!(flag, AwaitFlag::NoCutscene),
        _ => panic!("not await"),
    }
    match parse_ok("1 frame 5").2 {
        TasActionType::Frame { frame } => assert_eq!(frame, 5),
        _ => panic!("not frame"),
    }
    match parse_ok("1 pause ms 250").2 {
        TasActionType::PauseMs { ms } => assert_eq!(ms, 250),
        _ => panic!("not pause ms"),
    }
    assert!(matches!(parse_ok("1 pause input").2, TasActionType::PauseInput));
    assert_eq!(parse_err("1 nothing at_all"), ParseError::InvalidParameterCount);
    assert_eq!(parse_err("1 fps"), ParseError::InvalidParameterCount);
    assert_eq!(parse_err("1 await"), ParseError::InvalidParameterCount);
    assert_eq!(parse_err("1 await sunrise"), ParseError::InvalidAwaitFlag);
    assert_eq!(parse_err("1 frame x"), ParseError::InvalidFrame);
    assert_eq!(parse_err("1 pause"), ParseError::InvalidParameterCount);
    assert_eq!(parse_err("1 pause ms"), ParseError::InvalidParameterCount);
    assert_eq!(parse_err("1 pause ms soon"), ParseError::InvalidMs);
    assert_eq!(parse_err("1 pause input now"), ParseError::InvalidParameterCount);
    assert_eq!(parse_err("1 pause forever"), ParseError::InvalidPauseActionType);
    assert_eq!(parse_err("1 dance"), ParseError::InvalidAction);
}

#[test]
fn error_messages() {
    assert_eq!(ParseError::InvalidFrame.message(), "Invalid frame");
    assert_eq!(ParseError::CantParseAction.message(), "Can't parse action");
    assert_eq!(ParseError::InvalidAwaitFlag.message(), "Invalid await flag");
}
