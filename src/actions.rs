//! Script lines: one action per line, a frame reference first, then an action
//! word and its parameters; `;` or `#` starts a comment.
use vstd::prelude::*;
use vstd::string::*;
use crate::input::{
    GamepadAxis, GamepadButton, GamepadStick, InputType, MouseButton, VirtualKey,
    axis_from_lower, axis_of_name, gamepad_button_from_lower, gamepad_button_of_name,
    input_type_from_lower, input_type_of_name, key_from_lower, key_of_name,
    mouse_button_from_lower, mouse_button_of_name, stick_from_lower, stick_of_name,
};
use crate::text::{
    i32_of_text, line_words, lower_of, lowercase, parse_i32, parse_u32, parse_u64, split_line,
    str_eq, u32_of_text, u64_of_text,
};

verus! {

#[derive(Clone, Copy, Debug, PartialEq, Eq, Structural)]
pub enum AwaitFlag {
    Control,
    NoControl,
    Cutscene,
    NoCutscene,
    SaveActive,
    NoSaveActive,
    Focus,
}

/// What one script line asks for. Decimal fractions (a frame rate, a stick
/// angle and deflection) are kept as the text the script gave.
#[derive(Debug)]
pub enum TasActionType {
    Key { input_type: InputType, key: VirtualKey },
    KeyAlternative { input_type: InputType, key: VirtualKey },
    MouseButton { input_type: InputType, button: MouseButton },
    MouseScroll { input_type: InputType, amount: u32 },
    MouseMove { x: i32, y: i32 },
    GamepadButton { input_type: InputType, button: GamepadButton },
    GamepadAxis { axis: GamepadAxis, amount: i32 },
    GamepadStick { stick: GamepadStick, angle: String, amount: String },
    Nothing,
    Fps { fps: String },
    Await { flag: AwaitFlag },
    Frame { frame: u32 },
    PauseMs { ms: u64 },
    PauseInput,
}

/// The mathematical value of an action: texts as character sequences.
pub enum ActionSpec {
    Key { input_type: InputType, key: VirtualKey },
    KeyAlternative { input_type: InputType, key: VirtualKey },
    MouseButton { input_type: InputType, button: MouseButton },
    MouseScroll { input_type: InputType, amount: u32 },
    MouseMove { x: i32, y: i32 },
    GamepadButton { input_type: InputType, button: GamepadButton },
    GamepadAxis { axis: GamepadAxis, amount: i32 },
    GamepadStick { stick: GamepadStick, angle: Seq<char>, amount: Seq<char> },
    Nothing,
    Fps { fps: Seq<char> },
    Await { flag: AwaitFlag },
    Frame { frame: u32 },
    PauseMs { ms: u64 },
    PauseInput,
}

impl View for TasActionType {
    type V = ActionSpec;

    open spec fn view(&self) -> ActionSpec {
        match self {
            TasActionType::Key { input_type, key } => ActionSpec::Key {
                input_type: *input_type,
                key: *key,
            },
            TasActionType::KeyAlternative { input_type, key } => ActionSpec::KeyAlternative {
                input_type: *input_type,
                key: *key,
            },
            TasActionType::MouseButton { input_type, button } => ActionSpec::MouseButton {
                input_type: *input_type,
                button: *button,
            },
            TasActionType::MouseScroll { input_type, amount } => ActionSpec::MouseScroll {
                input_type: *input_type,
                amount: *amount,
            },
            TasActionType::MouseMove { x, y } => ActionSpec::MouseMove { x: *x, y: *y },
            TasActionType::GamepadButton { input_type, button } => ActionSpec::GamepadButton {
                input_type: *input_type,
                button: *button,
            },
            TasActionType::GamepadAxis { axis, amount } => ActionSpec::GamepadAxis {
                axis: *axis,
                amount: *amount,
            },
            TasActionType::GamepadStick { stick, angle, amount } => ActionSpec::GamepadStick {
                stick: *stick,
                angle: angle@,
                amount: amount@,
            },
            TasActionType::Nothing => ActionSpec::Nothing,
            TasActionType::Fps { fps } => ActionSpec::Fps { fps: fps@ },
            TasActionType::Await { flag } => ActionSpec::Await { flag: *flag },
            TasActionType::Frame { frame } => ActionSpec::Frame { frame: *frame },
            TasActionType::PauseMs { ms } => ActionSpec::PauseMs { ms: *ms },
            TasActionType::PauseInput => ActionSpec::PauseInput,
        }
    }
}

/// An action placed on its resolved frame.
#[derive(Debug)]
pub struct TasAction {
    pub frame: u32,
    pub action: TasActionType,
}

/// How the frame number at the start of a line is to be read.
#[derive(Clone, Copy, Debug, PartialEq, Eq, Structural)]
pub enum FrameType {
    /// `N`: frame N.
    Absolute,
    /// `+N`: N frames after the previous action.
    Relative,
    /// `++N`: N frames after the last absolute frame.
    RelativeAbsolute,
}

/// A parsed line before its frame reference is resolved.
#[derive(Debug)]
pub struct TasActionInfo {
    pub frame: u32,
    pub frame_type: FrameType,
    pub action: TasActionType,
}

pub struct InfoSpec {
    pub frame: u32,
    pub frame_type: FrameType,
    pub action: ActionSpec,
}

impl View for TasActionInfo {
    type V = InfoSpec;

    open spec fn view(&self) -> InfoSpec {
        InfoSpec { frame: self.frame, frame_type: self.frame_type, action: self.action@ }
    }
}

#[derive(Clone, Copy, Debug, PartialEq, Eq, Structural)]
pub enum ParseError {
    InvalidFrame,
    CantParseAction,
    InvalidParameterCount,
    InvalidInputType,
    InvalidKey,
    InvalidButton,
    InvalidScrollAmount,
    InvalidXAmount,
    InvalidYAmount,
    InvalidMouseActionType,
    InvalidStick,
    InvalidAxis,
    InvalidAmount,
    InvalidGamepadActionType,
    InvalidAwaitFlag,
    InvalidMs,
    InvalidPauseActionType,
    InvalidAction,
}

impl ParseError {
    /// The one-line diagnostic shown for the error.
    pub fn message(&self) -> &'static str {
        match self {
            ParseError::InvalidFrame => "Invalid frame",
            ParseError::CantParseAction => "Can't parse action",
            ParseError::InvalidParameterCount => "Invalid parameter count",
            ParseError::InvalidInputType => "Invalid input type",
            ParseError::InvalidKey => "Invalid key",
            ParseError::InvalidButton => "Invalid button",
            ParseError::InvalidScrollAmount => "Invalid scroll amount",
            ParseError::InvalidXAmount => "Invalid X amount",
            ParseError::InvalidYAmount => "Invalid Y amount",
            ParseError::InvalidMouseActionType => "Invalid mouse action type",
            ParseError::InvalidStick => "Invalid stick",
            ParseError::InvalidAxis => "Invalid axis",
            ParseError::InvalidAmount => "Invalid amount",
            ParseError::InvalidGamepadActionType => "Invalid gamepad action type",
            ParseError::InvalidAwaitFlag => "Invalid await flag",
            ParseError::InvalidMs => "Invalid ms",
            ParseError::InvalidPauseActionType => "Invalid pause action type",
            ParseError::InvalidAction => "Invalid action",
        }
    }
}

/// Await condition of a lowercased name.
pub open spec fn await_flag_of_name(l: Seq<char>) -> Option<AwaitFlag> {
    if l == "control"@ {
        Some(AwaitFlag::Control)
    } else if l == "no_control"@ {
        Some(AwaitFlag::NoControl)
    } else if l == "cutscene"@ {
        Some(AwaitFlag::Cutscene)
    } else if l == "no_cutscene"@ {
        Some(AwaitFlag::NoCutscene)
    } else if l == "save_active"@ {
        Some(AwaitFlag::SaveActive)
    } else if l == "no_save_active"@ {
        Some(AwaitFlag::NoSaveActive)
    } else if l == "focus"@ {
        Some(AwaitFlag::Focus)
    } else {
        None
    }
}

pub fn await_flag_from_lower(l: &str) -> (r: Option<AwaitFlag>)
    ensures
        r == await_flag_of_name(l@),
{
    if str_eq(l, "control") {
        Some(AwaitFlag::Control)
    } else if str_eq(l, "no_control") {
        Some(AwaitFlag::NoControl)
    } else if str_eq(l, "cutscene") {
        Some(AwaitFlag::Cutscene)
    } else if str_eq(l, "no_cutscene") {
        Some(AwaitFlag::NoCutscene)
    } else if str_eq(l, "save_active") {
        Some(AwaitFlag::SaveActive)
    } else if str_eq(l, "no_save_active") {
        Some(AwaitFlag::NoSaveActive)
    } else if str_eq(l, "focus") {
        Some(AwaitFlag::Focus)
    } else {
        None
    }
}

/// The frame reference that starts a line: `N`, `+N` or `++N`; three or more
/// pluses are refused.
pub open spec fn frame_ref_of(t: Seq<char>) -> Option<(u32, FrameType)> {
    if t.len() >= 3 && t[0] == '+' && t[1] == '+' && t[2] == '+' {
        None
    } else if t.len() >= 2 && t[0] == '+' && t[1] == '+' {
        match u32_of_text(t.subrange(2, t.len() as int)) {
            Some(n) => Some((n, FrameType::RelativeAbsolute)),
            None => None,
        }
    } else if t.len() >= 1 && t[0] == '+' {
        match u32_of_text(t.subrange(1, t.len() as int)) {
            Some(n) => Some((n, FrameType::Relative)),
            None => None,
        }
    } else {
        match u32_of_text(t) {
            Some(n) => Some((n, FrameType::Absolute)),
            None => None,
        }
    }
}

pub open spec fn key_spec(p: Seq<Seq<char>>, alternative: bool) -> Result<ActionSpec, ParseError> {
    if p.len() != 2 {
        Err(ParseError::InvalidParameterCount)
    } else {
        match input_type_of_name(lower_of(p[0])) {
            None => Err(ParseError::InvalidInputType),
            Some(input_type) => match key_of_name(lower_of(p[1])) {
                None => Err(ParseError::InvalidKey),
                Some(key) => if alternative {
                    Ok(ActionSpec::KeyAlternative { input_type, key })
                } else {
                    Ok(ActionSpec::Key { input_type, key })
                },
            },
        }
    }
}

pub open spec fn mouse_spec(p: Seq<Seq<char>>) -> Result<ActionSpec, ParseError> {
    if p.len() < 1 {
        Err(ParseError::InvalidParameterCount)
    } else if p[0] == "button"@ {
        if p.len() != 3 {
            Err(ParseError::InvalidParameterCount)
        } else {
            match input_type_of_name(lower_of(p[1])) {
                None => Err(ParseError::InvalidInputType),
                Some(input_type) => match mouse_button_of_name(lower_of(p[2])) {
                    None => Err(ParseError::InvalidButton),
                    Some(button) => Ok(ActionSpec::MouseButton { input_type, button }),
                },
            }
        }
    } else if p[0] == "scroll"@ {
        if p.len() != 3 {
            Err(ParseError::InvalidParameterCount)
        } else {
            match input_type_of_name(lower_of(p[1])) {
                None => Err(ParseError::InvalidInputType),
                Some(input_type) => match u32_of_text(p[2]) {
                    None => Err(ParseError::InvalidScrollAmount),
                    Some(amount) => Ok(ActionSpec::MouseScroll { input_type, amount }),
                },
            }
        }
    } else if p[0] == "move"@ {
        if p.len() != 3 {
            Err(ParseError::InvalidParameterCount)
        } else {
            match i32_of_text(p[1]) {
                None => Err(ParseError::InvalidXAmount),
                Some(x) => match i32_of_text(p[2]) {
                    None => Err(ParseError::InvalidYAmount),
                    Some(y) => Ok(ActionSpec::MouseMove { x, y }),
                },
            }
        }
    } else {
        Err(ParseError::InvalidMouseActionType)
    }
}

pub open spec fn gamepad_spec(p: Seq<Seq<char>>) -> Result<ActionSpec, ParseError> {
    if p.len() < 3 {
        Err(ParseError::InvalidParameterCount)
    } else if p[0] == "button"@ {
        if p.len() != 3 {
            Err(ParseError::InvalidParameterCount)
        } else {
            match input_type_of_name(lower_of(p[1])) {
                None => Err(ParseError::InvalidInputType),
                Some(input_type) => match gamepad_button_of_name(lower_of(p[2])) {
                    None => Err(ParseError::InvalidButton),
                    Some(button) => Ok(ActionSpec::GamepadButton { input_type, button }),
                },
            }
        }
    } else if p[0] == "stick"@ {
        if p.len() != 4 {
            Err(ParseError::InvalidParameterCount)
        } else {
            match stick_of_name(lower_of(p[1])) {
                None => Err(ParseError::InvalidStick),
                Some(stick) => Ok(ActionSpec::GamepadStick { stick, angle: p[2], amount: p[3] }),
            }
        }
    } else if p[0] == "axis"@ {
        if p.len() != 3 {
            Err(ParseError::InvalidParameterCount)
        } else {
            match axis_of_name(lower_of(p[1])) {
                None => Err(ParseError::InvalidAxis),
                Some(axis) => match i32_of_text(p[2]) {
                    None => Err(ParseError::InvalidAmount),
                    Some(amount) => Ok(ActionSpec::GamepadAxis { axis, amount }),
                },
            }
        }
    } else {
        Err(ParseError::InvalidGamepadActionType)
    }
}

pub open spec fn pause_spec(p: Seq<Seq<char>>) -> Result<ActionSpec, ParseError> {
    if p.len() < 1 {
        Err(ParseError::InvalidParameterCount)
    } else if p[0] == "ms"@ {
        if p.len() != 2 {
            Err(ParseError::InvalidParameterCount)
        } else {
            match u64_of_text(p[1]) {
                None => Err(ParseError::InvalidMs),
                Some(ms) => Ok(ActionSpec::PauseMs { ms }),
            }
        }
    } else if p[0] == "input"@ {
        if p.len() != 1 {
            Err(ParseError::InvalidParameterCount)
        } else {
            Ok(ActionSpec::PauseInput)
        }
    } else {
        Err(ParseError::InvalidPauseActionType)
    }
}

/// The action that a lowercased action word `k` and its parameters `p` describe.
pub open spec fn action_spec(k: Seq<char>, p: Seq<Seq<char>>) -> Result<ActionSpec, ParseError> {
    if k == "key"@ {
        key_spec(p, false)
    } else if k == "key_alternative"@ {
        key_spec(p, true)
    } else if k == "mouse"@ {
        mouse_spec(p)
    } else if k == "gamepad"@ {
        gamepad_spec(p)
    } else if k == "nothing"@ {
        if p.len() != 0 {
            Err(ParseError::InvalidParameterCount)
        } else {
            Ok(ActionSpec::Nothing)
        }
    } else if k == "fps"@ {
        if p.len() != 1 {
            Err(ParseError::InvalidParameterCount)
        } else {
            Ok(ActionSpec::Fps { fps: p[0] })
        }
    } else if k == "await"@ {
        if p.len() != 1 {
            Err(ParseError::InvalidParameterCount)
        } else {
            match await_flag_of_name(lower_of(p[0])) {
                None => Err(ParseError::InvalidAwaitFlag),
                Some(flag) => Ok(ActionSpec::Await { flag }),
            }
        }
    } else if k == "frame"@ {
        if p.len() != 1 {
            Err(ParseError::InvalidParameterCount)
        } else {
            match u32_of_text(p[0]) {
                None => Err(ParseError::InvalidFrame),
                Some(frame) => Ok(ActionSpec::Frame { frame }),
            }
        }
    } else if k == "pause"@ {
        pause_spec(p)
    } else {
        Err(ParseError::InvalidAction)
    }
}

/// What a whole script line means: `Ok(None)` for a blank or comment-only line.
pub open spec fn parse_line(line: Seq<char>) -> Result<Option<InfoSpec>, ParseError> {
    let w = line_words(line);
    if w.len() == 0 {
        Ok(None)
    } else {
        match frame_ref_of(w[0]) {
            None => Err(ParseError::InvalidFrame),
            Some(fr) => if w.len() < 2 {
                Err(ParseError::CantParseAction)
            } else {
                match action_spec(lower_of(w[1]), w.subrange(2, w.len() as int)) {
                    Err(e) => Err(e),
                    Ok(a) => Ok(Some(InfoSpec { frame: fr.0, frame_type: fr.1, action: a })),
                }
            },
        }
    }
}

pub open spec fn result_view(r: Result<Option<TasActionInfo>, ParseError>) -> Result<
    Option<InfoSpec>,
    ParseError,
> {
    match r {
        Ok(Some(i)) => Ok(Some(i@)),
        Ok(None) => Ok(None),
        Err(e) => Err(e),
    }
}

pub open spec fn action_result_view(r: Result<TasActionType, ParseError>) -> Result<
    ActionSpec,
    ParseError,
> {
    match r {
        Ok(a) => Ok(a@),
        Err(e) => Err(e),
    }
}

/// Reads the frame reference at the start of a line.
pub fn parse_frame_ref(t: &str) -> (r: Option<(u32, FrameType)>)
    ensures
        r == frame_ref_of(t@),
{
    let n = t.unicode_len();
    if n >= 3 && t.get_char(0) == '+' && t.get_char(1) == '+' && t.get_char(2) == '+' {
        None
    } else if n >= 2 && t.get_char(0) == '+' && t.get_char(1) == '+' {
        match parse_u32(t.substring_char(2, n)) {
            Some(v) => Some((v, FrameType::RelativeAbsolute)),
            None => None,
        }
    } else if n >= 1 && t.get_char(0) == '+' {
        match parse_u32(t.substring_char(1, n)) {
            Some(v) => Some((v, FrameType::Relative)),
            None => None,
        }
    } else {
        match parse_u32(t) {
            Some(v) => Some((v, FrameType::Absolute)),
            None => None,
        }
    }
}

fn lowered_input_type(s: &str) -> (r: Option<InputType>)
    ensures
        r == input_type_of_name(lower_of(s@)),
{
    let l = lowercase(s);
    input_type_from_lower(l.as_str())
}

fn parse_key(w: &Vec<String>, alternative: bool) -> (r: Result<TasActionType, ParseError>)
    requires
        w.deep_view().len() >= 2,
    ensures
        action_result_view(r) == key_spec(
            w.deep_view().subrange(2, w.deep_view().len() as int),
            alternative,
        ),
{
    let ghost p = w.deep_view().subrange(2, w.deep_view().len() as int);
    if w.len() != 4 {
        return Err(ParseError::InvalidParameterCount);
    }
    assert(p[0] == w[2]@ && p[1] == w[3]@);
    let input_type = match lowered_input_type(w[2].as_str()) {
        Some(x) => x,
        None => return Err(ParseError::InvalidInputType),
    };
    let l = lowercase(w[3].as_str());
    let key = match key_from_lower(l.as_str()) {
        Some(x) => x,
        None => return Err(ParseError::InvalidKey),
    };
    if alternative {
        Ok(TasActionType::KeyAlternative { input_type, key })
    } else {
        Ok(TasActionType::Key { input_type, key })
    }
}

fn parse_mouse(w: &Vec<String>) -> (r: Result<TasActionType, ParseError>)
    requires
        w.deep_view().len() >= 2,
    ensures
        action_result_view(r) == mouse_spec(w.deep_view().subrange(2, w.deep_view().len() as int)),
{
    let ghost p = w.deep_view().subrange(2, w.deep_view().len() as int);
    if w.len() < 3 {
        return Err(ParseError::InvalidParameterCount);
    }
    assert(p[0] == w[2]@);
    let sub = w[2].as_str();
    if str_eq(sub, "button") {
        if w.len() != 5 {
            return Err(ParseError::InvalidParameterCount);
        }
        assert(p[1] == w[3]@ && p[2] == w[4]@);
        let input_type = match lowered_input_type(w[3].as_str()) {
            Some(x) => x,
            None => return Err(ParseError::InvalidInputType),
        };
        let l = lowercase(w[4].as_str());
        match mouse_button_from_lower(l.as_str()) {
            Some(button) => Ok(TasActionType::MouseButton { input_type, button }),
            None => Err(ParseError::InvalidButton),
        }
    } else if str_eq(sub, "scroll") {
        if w.len() != 5 {
            return Err(ParseError::InvalidParameterCount);
        }
        assert(p[1] == w[3]@ && p[2] == w[4]@);
        let input_type = match lowered_input_type(w[3].as_str()) {
            Some(x) => x,
            None => return Err(ParseError::InvalidInputType),
        };
        match parse_u32(w[4].as_str()) {
            Some(amount) => Ok(TasActionType::MouseScroll { input_type, amount }),
            None => Err(ParseError::InvalidScrollAmount),
        }
    } else if str_eq(sub, "move") {
        if w.len() != 5 {
            return Err(ParseError::InvalidParameterCount);
        }
        assert(p[1] == w[3]@ && p[2] == w[4]@);
        let x = match parse_i32(w[3].as_str()) {
            Some(v) => v,
            None => return Err(ParseError::InvalidXAmount),
        };
        match parse_i32(w[4].as_str()) {
            Some(y) => Ok(TasActionType::MouseMove { x, y }),
            None => Err(ParseError::InvalidYAmount),
        }
    } else {
        Err(ParseError::InvalidMouseActionType)
    }
}

fn parse_gamepad(w: &Vec<String>) -> (r: Result<TasActionType, ParseError>)
    requires
        w.deep_view().len() >= 2,
    ensures
        action_result_view(r) == gamepad_spec(
            w.deep_view().subrange(2, w.deep_view().len() as int),
        ),
{
    let ghost p = w.deep_view().subrange(2, w.deep_view().len() as int);
    if w.len() < 5 {
        return Err(ParseError::InvalidParameterCount);
    }
    assert(p[0] == w[2]@ && p[1] == w[3]@ && p[2] == w[4]@);
    let sub = w[2].as_str();
    if str_eq(sub, "button") {
        if w.len() != 5 {
            return Err(ParseError::InvalidParameterCount);
        }
        let input_type = match lowered_input_type(w[3].as_str()) {
            Some(x) => x,
            None => return Err(ParseError::InvalidInputType),
        };
        let l = lowercase(w[4].as_str());
        match gamepad_button_from_lower(l.as_str()) {
            Some(button) => Ok(TasActionType::GamepadButton { input_type, button }),
            None => Err(ParseError::InvalidButton),
        }
    } else if str_eq(sub, "stick") {
        if w.len() != 6 {
            return Err(ParseError::InvalidParameterCount);
        }
        assert(p[3] == w[5]@);
        let l = lowercase(w[3].as_str());
        match stick_from_lower(l.as_str()) {
            Some(stick) => {
                let angle = w[4].as_str().to_owned();
                let amount = w[5].as_str().to_owned();
                Ok(TasActionType::GamepadStick { stick, angle, amount })
            },
            None => Err(ParseError::InvalidStick),
        }
    } else if str_eq(sub, "axis") {
        if w.len() != 5 {
            return Err(ParseError::InvalidParameterCount);
        }
        let l = lowercase(w[3].as_str());
        let axis = match axis_from_lower(l.as_str()) {
            Some(x) => x,
            None => return Err(ParseError::InvalidAxis),
        };
        match parse_i32(w[4].as_str()) {
            Some(amount) => Ok(TasActionType::GamepadAxis { axis, amount }),
            None => Err(ParseError::InvalidAmount),
        }
    } else {
        Err(ParseError::InvalidGamepadActionType)
    }
}

fn parse_pause(w: &Vec<String>) -> (r: Result<TasActionType, ParseError>)
    requires
        w.deep_view().len() >= 2,
    ensures
        action_result_view(r) == pause_spec(w.deep_view().subrange(2, w.deep_view().len() as int)),
{
    let ghost p = w.deep_view().subrange(2, w.deep_view().len() as int);
    if w.len() < 3 {
        return Err(ParseError::InvalidParameterCount);
    }
    assert(p[0] == w[2]@);
    let sub = w[2].as_str();
    if str_eq(sub, "ms") {
        if w.len() != 4 {
            return Err(ParseError::InvalidParameterCount);
        }
        assert(p[1] == w[3]@);
        match parse_u64(w[3].as_str()) {
            Some(ms) => Ok(TasActionType::PauseMs { ms }),
            None => Err(ParseError::InvalidMs),
        }
    } else if str_eq(sub, "input") {
        if w.len() != 3 {
            return Err(ParseError::InvalidParameterCount);
        }
        Ok(TasActionType::PauseInput)
    } else {
        Err(ParseError::InvalidPauseActionType)
    }
}

/// Builds the action from the words of a line whose action word, lowercased, is `k`.
pub fn parse_action_words(k: &str, w: &Vec<String>) -> (r: Result<TasActionType, ParseError>)
    requires
        w.deep_view().len() >= 2,
    ensures
        action_result_view(r) == action_spec(k@, w.deep_view().subrange(2, w.deep_view().len() as int)),
{
    let ghost p = w.deep_view().subrange(2, w.deep_view().len() as int);
    if str_eq(k, "key") {
        parse_key(w, false)
    } else if str_eq(k, "key_alternative") {
        parse_key(w, true)
    } else if str_eq(k, "mouse") {
        parse_mouse(w)
    } else if str_eq(k, "gamepad") {
        parse_gamepad(w)
    } else if str_eq(k, "nothing") {
        if w.len() != 2 {
            Err(ParseError::InvalidParameterCount)
        } else {
            Ok(TasActionType::Nothing)
        }
    } else if str_eq(k, "fps") {
        if w.len() != 3 {
            Err(ParseError::InvalidParameterCount)
        } else {
            assert(p[0] == w[2]@);
            Ok(TasActionType::Fps { fps: w[2].as_str().to_owned() })
        }
    } else if str_eq(k, "await") {
        if w.len() != 3 {
            Err(ParseError::InvalidParameterCount)
        } else {
            assert(p[0] == w[2]@);
            let l = lowercase(w[2].as_str());
            match await_flag_from_lower(l.as_str()) {
                Some(flag) => Ok(TasActionType::Await { flag }),
                None => Err(ParseError::InvalidAwaitFlag),
            }
        }
    } else if str_eq(k, "frame") {
        if w.len() != 3 {
            Err(ParseError::InvalidParameterCount)
        } else {
            assert(p[0] == w[2]@);
            match parse_u32(w[2].as_str()) {
                Some(frame) => Ok(TasActionType::Frame { frame }),
                None => Err(ParseError::InvalidFrame),
            }
        }
    } else if str_eq(k, "pause") {
        parse_pause(w)
    } else {
        Err(ParseError::InvalidAction)
    }
}

/// Parses one script line. A blank or comment-only line gives `Ok(None)`.
pub fn parse_action(input: &str) -> (r: Result<Option<TasActionInfo>, ParseError>)
    ensures
        result_view(r) == parse_line(input@),
{
    let w = split_line(input);
    let ghost words = w.deep_view();
    if w.len() == 0 {
        return Ok(None);
    }
    assert(words[0] == w[0]@);
    let (frame, frame_type) = match parse_frame_ref(w[0].as_str()) {
        Some(fr) => fr,
        None => return Err(ParseError::InvalidFrame),
    };
    if w.len() < 2 {
        return Err(ParseError::CantParseAction);
    }
    assert(words[1] == w[1]@);
    let k = lowercase(w[1].as_str());
    match parse_action_words(k.as_str(), &w) {
        Ok(action) => Ok(Some(TasActionInfo { frame, frame_type, action })),
        Err(e) => Err(e),
    }
}

} // verus!
