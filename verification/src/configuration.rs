//! The binding configuration: the enumerated virtual-key space, one
//! configured key action per physical control, and the default binding
//! table.

use vstd::prelude::*;

verus! {

/// A virtual key of the OS key-injection interface. Each variant stands for
/// one OS-defined virtual-key code; `NoKey` is the null key, which is never
/// injected.
#[derive(Clone, Copy, Debug, PartialEq, Eq, Structural)]
pub enum Key {
    NoKey,
    Cancel,
    MouseLeftButton,
    MouseRightButton,
    MouseMiddleButton,
    MouseX1Button,
    MouseX2Button,
    BackSpace,
    Tab,
    Clear,
    Enter,
    Shift,
    Control,
    Alt,
    Pause,
    CapsLock,
    ImeKanaOrHangul,
    ImeJunja,
    ImeFinal,
    ImeKanjiOrHanja,
    Escape,
    ImeConvert,
    ImeNonConvert,
    ImeAccept,
    ImeModeChange,
    Space,
    PageUp,
    PageDown,
    End,
    Home,
    Left,
    Up,
    Right,
    Down,
    Select,
    Print,
    Execute,
    PrintScreen,
    Insert,
    Delete,
    Help,
    Zero,
    One,
    Two,
    Three,
    Four,
    Five,
    Six,
    Seven,
    Eight,
    Nine,
    A,
    B,
    C,
    D,
    E,
    F,
    G,
    H,
    I,
    J,
    K,
    L,
    M,
    N,
    O,
    P,
    Q,
    R,
    S,
    T,
    U,
    V,
    W,
    X,
    Y,
    Z,
    LeftWindows,
    RightWindows,
    Application,
    Sleep,
    Numpad0,
    Numpad1,
    Numpad2,
    Numpad3,
    Numpad4,
    Numpad5,
    Numpad6,
    Numpad7,
    Numpad8,
    Numpad9,
    AsteriskOrMultiply,
    PlusOrAdd,
    Separator,
    MinusOrSubstract,
    PeriodOrDecimal,
    SlashOrDivide,
    F1,
    F2,
    F3,
    F4,
    F5,
    F6,
    F7,
    F8,
    F9,
    F10,
    F11,
    F12,
    F13,
    F14,
    F15,
    F16,
    F17,
    F18,
    F19,
    F20,
    F21,
    F22,
    F23,
    F24,
    NumLock,
    Scroll,
    LeftShift,
    RightShift,
    LeftControl,
    RightControl,
    LeftAlt,
    RightAlt,
    BrowserBack,
    BrowserForward,
    BrowserRefresh,
    BrowserStop,
    BrowserSearch,
    BrowserFavorites,
    BrowserHome,
    VolumeMute,
    VolumeDown,
    VolumeUp,
    MediaNextTrack,
    MediaPrevTrack,
    MediaStop,
    MediaPlayPause,
    LaunchMail,
    LaunchMediaSelect,
    LaunchApp1,
    LaunchApp2,
    Oem1SemiColonOrColon,
    OemPlus,
    OemComma,
    OemMinus,
    OemPeriod,
    Oem2SlashOrQuestion,
    Oem3BacktickOrTilda,
    Oem4OpenSquareOrCurlyBracket,
    Oem5BackslashOrPipe,
    Oem6CloseSquareOrCurlyBracket,
    Oem7SingleOrDoubleQuote,
    Oem8,
    Oem102,
    ImeProcessKey,
    Packet,
    Attn,
    CrSel,
    ExSel,
    EraseEof,
    Play,
    Zoom,
    Pa1,
    OemClear,
}

impl Key {
    /// The OS virtual-key code this key stands for.
    pub open spec fn code_spec(self) -> u16 {
        match self {
            Key::NoKey => 0x00,
            Key::Cancel => 0x03,
            Key::MouseLeftButton => 0x01,
            Key::MouseRightButton => 0x02,
            Key::MouseMiddleButton => 0x04,
            Key::MouseX1Button => 0x05,
            Key::MouseX2Button => 0x06,
            Key::BackSpace => 0x08,
            Key::Tab => 0x09,
            Key::Clear => 0x0C,
            Key::Enter => 0x0D,
            Key::Shift => 0x10,
            Key::Control => 0x11,
            Key::Alt => 0x12,
            Key::Pause => 0x13,
            Key::CapsLock => 0x14,
            Key::ImeKanaOrHangul => 0x15,
            Key::ImeJunja => 0x17,
            Key::ImeFinal => 0x18,
            Key::ImeKanjiOrHanja => 0x19,
            Key::Escape => 0x1B,
            Key::ImeConvert => 0x1C,
            Key::ImeNonConvert => 0x1D,
            Key::ImeAccept => 0x1E,
            Key::ImeModeChange => 0x1F,
            Key::Space => 0x20,
            Key::PageUp => 0x21,
            Key::PageDown => 0x22,
            Key::End => 0x23,
            Key::Home => 0x24,
            Key::Left => 0x25,
            Key::Up => 0x26,
            Key::Right => 0x27,
            Key::Down => 0x28,
            Key::Select => 0x29,
            Key::Print => 0x2A,
            Key::Execute => 0x2B,
            Key::PrintScreen => 0x2C,
            Key::Insert => 0x2D,
            Key::Delete => 0x2E,
            Key::Help => 0x2F,
            Key::Zero => 0x30,
            Key::One => 0x31,
            Key::Two => 0x32,
            Key::Three => 0x33,
            Key::Four => 0x34,
            Key::Five => 0x35,
            Key::Six => 0x36,
            Key::Seven => 0x37,
            Key::Eight => 0x38,
            Key::Nine => 0x39,
            Key::A => 0x41,
            Key::B => 0x42,
            Key::C => 0x43,
            Key::D => 0x44,
            Key::E => 0x45,
            Key::F => 0x46,
            Key::G => 0x47,
            Key::H => 0x48,
            Key::I => 0x49,
            Key::J => 0x4A,
            Key::K => 0x4B,
            Key::L => 0x4C,
            Key::M => 0x4D,
            Key::N => 0x4E,
            Key::O => 0x4F,
            Key::P => 0x50,
            Key::Q => 0x51,
            Key::R => 0x52,
            Key::S => 0x53,
            Key::T => 0x54,
            Key::U => 0x55,
            Key::V => 0x56,
            Key::W => 0x57,
            Key::X => 0x58,
            Key::Y => 0x59,
            Key::Z => 0x5A,
            Key::LeftWindows => 0x5B,
            Key::RightWindows => 0x5C,
            Key::Application => 0x5D,
            Key::Sleep => 0x5F,
            Key::Numpad0 => 0x60,
            Key::Numpad1 => 0x61,
            Key::Numpad2 => 0x62,
            Key::Numpad3 => 0x63,
            Key::Numpad4 => 0x64,
            Key::Numpad5 => 0x65,
            Key::Numpad6 => 0x66,
            Key::Numpad7 => 0x67,
            Key::Numpad8 => 0x68,
            Key::Numpad9 => 0x69,
            Key::AsteriskOrMultiply => 0x6A,
            Key::PlusOrAdd => 0x6B,
            Key::Separator => 0x6C,
            Key::MinusOrSubstract => 0x6D,
            Key::PeriodOrDecimal => 0x6E,
            Key::SlashOrDivide => 0x6F,
            Key::F1 => 0x70,
            Key::F2 => 0x71,
            Key::F3 => 0x72,
            Key::F4 => 0x73,
            Key::F5 => 0x74,
            Key::F6 => 0x75,
            Key::F7 => 0x76,
            Key::F8 => 0x77,
            Key::F9 => 0x78,
            Key::F10 => 0x79,
            Key::F11 => 0x7A,
            Key::F12 => 0x7B,
            Key::F13 => 0x7C,
            Key::F14 => 0x7D,
            Key::F15 => 0x7E,
            Key::F16 => 0x7F,
            Key::F17 => 0x80,
            Key::F18 => 0x81,
            Key::F19 => 0x82,
            Key::F20 => 0x83,
            Key::F21 => 0x84,
            Key::F22 => 0x85,
            Key::F23 => 0x86,
            Key::F24 => 0x87,
            Key::NumLock => 0x90,
            Key::Scroll => 0x91,
            Key::LeftShift => 0xA0,
            Key::RightShift => 0xA1,
            Key::LeftControl => 0xA2,
            Key::RightControl => 0xA3,
            Key::LeftAlt => 0xA4,
            Key::RightAlt => 0xA5,
            Key::BrowserBack => 0xA6,
            Key::BrowserForward => 0xA7,
            Key::BrowserRefresh => 0xA8,
            Key::BrowserStop => 0xA9,
            Key::BrowserSearch => 0xAA,
            Key::BrowserFavorites => 0xAB,
            Key::BrowserHome => 0xAC,
            Key::VolumeMute => 0xAD,
            Key::VolumeDown => 0xAE,
            Key::VolumeUp => 0xAF,
            Key::MediaNextTrack => 0xB0,
            Key::MediaPrevTrack => 0xB1,
            Key::MediaStop => 0xB2,
            Key::MediaPlayPause => 0xB3,
            Key::LaunchMail => 0xB4,
            Key::LaunchMediaSelect => 0xB5,
            Key::LaunchApp1 => 0xB6,
            Key::LaunchApp2 => 0xB7,
            Key::Oem1SemiColonOrColon => 0xBA,
            Key::OemPlus => 0xBB,
            Key::OemComma => 0xBC,
            Key::OemMinus => 0xBD,
            Key::OemPeriod => 0xBE,
            Key::Oem2SlashOrQuestion => 0xBF,
            Key::Oem3BacktickOrTilda => 0xC0,
            Key::Oem4OpenSquareOrCurlyBracket => 0xDB,
            Key::Oem5BackslashOrPipe => 0xDC,
            Key::Oem6CloseSquareOrCurlyBracket => 0xDD,
            Key::Oem7SingleOrDoubleQuote => 0xDE,
            Key::Oem8 => 0xDF,
            Key::Oem102 => 0xE2,
            Key::ImeProcessKey => 0xE5,
            Key::Packet => 0xE7,
            Key::Attn => 0xF6,
            Key::CrSel => 0xF7,
            Key::ExSel => 0xF8,
            Key::EraseEof => 0xF9,
            Key::Play => 0xFA,
            Key::Zoom => 0xFB,
            Key::Pa1 => 0xFD,
            Key::OemClear => 0xFE,
        }
    }

    /// The OS virtual-key code this key stands for.
    pub fn code(self) -> (r: u16)
        ensures
            r == self.code_spec(),
    {
        match self {
            Key::NoKey => 0x00,
            Key::Cancel => 0x03,
            Key::MouseLeftButton => 0x01,
            Key::MouseRightButton => 0x02,
            Key::MouseMiddleButton => 0x04,
            Key::MouseX1Button => 0x05,
            Key::MouseX2Button => 0x06,
            Key::BackSpace => 0x08,
            Key::Tab => 0x09,
            Key::Clear => 0x0C,
            Key::Enter => 0x0D,
            Key::Shift => 0x10,
            Key::Control => 0x11,
            Key::Alt => 0x12,
            Key::Pause => 0x13,
            Key::CapsLock => 0x14,
            Key::ImeKanaOrHangul => 0x15,
            Key::ImeJunja => 0x17,
            Key::ImeFinal => 0x18,
            Key::ImeKanjiOrHanja => 0x19,
            Key::Escape => 0x1B,
            Key::ImeConvert => 0x1C,
            Key::ImeNonConvert => 0x1D,
            Key::ImeAccept => 0x1E,
            Key::ImeModeChange => 0x1F,
            Key::Space => 0x20,
            Key::PageUp => 0x21,
            Key::PageDown => 0x22,
            Key::End => 0x23,
            Key::Home => 0x24,
            Key::Left => 0x25,
            Key::Up => 0x26,
            Key::Right => 0x27,
            Key::Down => 0x28,
            Key::Select => 0x29,
            Key::Print => 0x2A,
            Key::Execute => 0x2B,
            Key::PrintScreen => 0x2C,
            Key::Insert => 0x2D,
            Key::Delete => 0x2E,
            Key::Help => 0x2F,
            Key::Zero => 0x30,
            Key::One => 0x31,
            Key::Two => 0x32,
            Key::Three => 0x33,
            Key::Four => 0x34,
            Key::Five => 0x35,
            Key::Six => 0x36,
            Key::Seven => 0x37,
            Key::Eight => 0x38,
            Key::Nine => 0x39,
            Key::A => 0x41,
            Key::B => 0x42,
            Key::C => 0x43,
            Key::D => 0x44,
            Key::E => 0x45,
            Key::F => 0x46,
            Key::G => 0x47,
            Key::H => 0x48,
            Key::I => 0x49,
            Key::J => 0x4A,
            Key::K => 0x4B,
            Key::L => 0x4C,
            Key::M => 0x4D,
            Key::N => 0x4E,
            Key::O => 0x4F,
            Key::P => 0x50,
            Key::Q => 0x51,
            Key::R => 0x52,
            Key::S => 0x53,
            Key::T => 0x54,
            Key::U => 0x55,
            Key::V => 0x56,
            Key::W => 0x57,
            Key::X => 0x58,
            Key::Y => 0x59,
            Key::Z => 0x5A,
            Key::LeftWindows => 0x5B,
            Key::RightWindows => 0x5C,
            Key::Application => 0x5D,
            Key::Sleep => 0x5F,
            Key::Numpad0 => 0x60,
            Key::Numpad1 => 0x61,
            Key::Numpad2 => 0x62,
            Key::Numpad3 => 0x63,
            Key::Numpad4 => 0x64,
            Key::Numpad5 => 0x65,
            Key::Numpad6 => 0x66,
            Key::Numpad7 => 0x67,
            Key::Numpad8 => 0x68,
            Key::Numpad9 => 0x69,
            Key::AsteriskOrMultiply => 0x6A,
            Key::PlusOrAdd => 0x6B,
            Key::Separator => 0x6C,
            Key::MinusOrSubstract => 0x6D,
            Key::PeriodOrDecimal => 0x6E,
            Key::SlashOrDivide => 0x6F,
            Key::F1 => 0x70,
            Key::F2 => 0x71,
            Key::F3 => 0x72,
            Key::F4 => 0x73,
            Key::F5 => 0x74,
            Key::F6 => 0x75,
            Key::F7 => 0x76,
            Key::F8 => 0x77,
            Key::F9 => 0x78,
            Key::F10 => 0x79,
            Key::F11 => 0x7A,
            Key::F12 => 0x7B,
            Key::F13 => 0x7C,
            Key::F14 => 0x7D,
            Key::F15 => 0x7E,
            Key::F16 => 0x7F,
            Key::F17 => 0x80,
            Key::F18 => 0x81,
            Key::F19 => 0x82,
            Key::F20 => 0x83,
            Key::F21 => 0x84,
            Key::F22 => 0x85,
            Key::F23 => 0x86,
            Key::F24 => 0x87,
            Key::NumLock => 0x90,
            Key::Scroll => 0x91,
            Key::LeftShift => 0xA0,
            Key::RightShift => 0xA1,
            Key::LeftControl => 0xA2,
            Key::RightControl => 0xA3,
            Key::LeftAlt => 0xA4,
            Key::RightAlt => 0xA5,
            Key::BrowserBack => 0xA6,
            Key::BrowserForward => 0xA7,
            Key::BrowserRefresh => 0xA8,
            Key::BrowserStop => 0xA9,
            Key::BrowserSearch => 0xAA,
            Key::BrowserFavorites => 0xAB,
            Key::BrowserHome => 0xAC,
            Key::VolumeMute => 0xAD,
            Key::VolumeDown => 0xAE,
            Key::VolumeUp => 0xAF,
            Key::MediaNextTrack => 0xB0,
            Key::MediaPrevTrack => 0xB1,
            Key::MediaStop => 0xB2,
            Key::MediaPlayPause => 0xB3,
            Key::LaunchMail => 0xB4,
            Key::LaunchMediaSelect => 0xB5,
            Key::LaunchApp1 => 0xB6,
            Key::LaunchApp2 => 0xB7,
            Key::Oem1SemiColonOrColon => 0xBA,
            Key::OemPlus => 0xBB,
            Key::OemComma => 0xBC,
            Key::OemMinus => 0xBD,
            Key::OemPeriod => 0xBE,
            Key::Oem2SlashOrQuestion => 0xBF,
            Key::Oem3BacktickOrTilda => 0xC0,
            Key::Oem4OpenSquareOrCurlyBracket => 0xDB,
            Key::Oem5BackslashOrPipe => 0xDC,
            Key::Oem6CloseSquareOrCurlyBracket => 0xDD,
            Key::Oem7SingleOrDoubleQuote => 0xDE,
            Key::Oem8 => 0xDF,
            Key::Oem102 => 0xE2,
            Key::ImeProcessKey => 0xE5,
            Key::Packet => 0xE7,
            Key::Attn => 0xF6,
            Key::CrSel => 0xF7,
            Key::ExSel => 0xF8,
            Key::EraseEof => 0xF9,
            Key::Play => 0xFA,
            Key::Zoom => 0xFB,
            Key::Pa1 => 0xFD,
            Key::OemClear => 0xFE,
        }
    }
}


/// One configured key action: the main key, the modifier flags that must be
/// held around it, and a display name shown when the action fires.
#[derive(Clone, Debug)]
pub struct KeyCombination {
    pub name: String,
    pub key: Key,
    pub ctrl: bool,
    pub alt: bool,
    pub shift: bool,
}

/// The binding of one physical control: nothing, a key held while the
/// control is active, or a key clicked once on activation.
#[derive(Clone, Debug)]
pub enum KeyAction {
    NoOp,
    KeyHold(KeyCombination),
    KeyClick(KeyCombination),
}

/// The full binding table: one action for every physical control on both
/// controller halves, both stick clicks, and the six zones of each stick.
/// Every control always has exactly one action; the explicit default is
/// `KeyAction::NoOp`, never an absence.
#[derive(Clone, Debug)]
pub struct Config {
    pub show_tooltip: bool,
    pub zl: KeyAction,
    pub l: KeyAction,
    pub minus: KeyAction,
    pub left_stick: KeyAction,
    pub left_stick_top_left: KeyAction,
    pub left_stick_top_center: KeyAction,
    pub left_stick_top_right: KeyAction,
    pub left_stick_bottom_left: KeyAction,
    pub left_stick_bottom_center: KeyAction,
    pub left_stick_bottom_right: KeyAction,
    pub up: KeyAction,
    pub down: KeyAction,
    pub left: KeyAction,
    pub right: KeyAction,
    pub capture: KeyAction,
    pub left_sl: KeyAction,
    pub left_sr: KeyAction,
    pub zr: KeyAction,
    pub r: KeyAction,
    pub plus: KeyAction,
    pub right_stick: KeyAction,
    pub right_stick_top_left: KeyAction,
    pub right_stick_top_center: KeyAction,
    pub right_stick_top_right: KeyAction,
    pub right_stick_bottom_left: KeyAction,
    pub right_stick_bottom_center: KeyAction,
    pub right_stick_bottom_right: KeyAction,
    pub x: KeyAction,
    pub b: KeyAction,
    pub y: KeyAction,
    pub a: KeyAction,
    pub home: KeyAction,
    pub right_sl: KeyAction,
    pub right_sr: KeyAction,
}

/// Whether an action is the explicit no-op binding.
pub open spec fn is_noop(a: KeyAction) -> bool {
    a is NoOp
}

/// Whether an action is a hold binding with exactly these fields.
pub open spec fn is_hold(
    a: KeyAction,
    name: Seq<char>,
    key: Key,
    ctrl: bool,
    alt: bool,
    shift: bool,
) -> bool {
    match a {
        KeyAction::KeyHold(k) => k.name@ == name && k.key == key && k.ctrl == ctrl && k.alt == alt
            && k.shift == shift,
        _ => false,
    }
}

/// Whether an action is a click binding with exactly these fields.
pub open spec fn is_click(
    a: KeyAction,
    name: Seq<char>,
    key: Key,
    ctrl: bool,
    alt: bool,
    shift: bool,
) -> bool {
    match a {
        KeyAction::KeyClick(k) => k.name@ == name && k.key == key && k.ctrl == ctrl && k.alt == alt
            && k.shift == shift,
        _ => false,
    }
}

/// The built-in binding table used when no configuration has been loaded:
/// drawing-tablet style defaults, identical on both controller halves.
pub fn create_default() -> (c: Config)
    ensures
        c.show_tooltip == true,
        is_hold(c.zl, "Eraser"@, Key::E, false, false, false),
        is_hold(c.l, "Shift"@, Key::LeftShift, false, false, false),
        is_click(c.minus, "Save"@, Key::S, true, false, false),
        is_noop(c.left_stick),
        is_click(c.left_stick_top_left, "Finger"@, Key::N, false, false, false),
        is_click(c.left_stick_top_center, "Brush"@, Key::B, false, false, false),
        is_click(c.left_stick_top_right, "Dodge"@, Key::O, false, false, false),
        is_hold(c.left_stick_bottom_left, "Rotate"@, Key::R, false, false, false),
        is_hold(c.left_stick_bottom_center, "Grab"@, Key::Space, false, false, false),
        is_hold(c.left_stick_bottom_right, "Zoom"@, Key::Z, false, false, false),
        is_hold(c.up, "Alt"@, Key::LeftAlt, false, false, false),
        is_noop(c.down),
        is_click(c.left, "Smaller Brush"@, Key::Oem4OpenSquareOrCurlyBracket, false, false, false),
        is_click(c.right, "Larger Brush"@, Key::Oem6CloseSquareOrCurlyBracket, false, false, false),
        is_noop(c.capture),
        is_click(c.left_sl, "Undo"@, Key::Z, true, false, false),
        is_click(c.left_sr, "Redo"@, Key::Z, true, false, true),
        is_hold(c.zr, "Eraser"@, Key::E, false, false, false),
        is_hold(c.r, "Shift"@, Key::LeftShift, false, false, false),
        is_click(c.plus, "Save"@, Key::S, true, false, false),
        is_noop(c.right_stick),
        is_click(c.right_stick_top_left, "Finger"@, Key::N, false, false, false),
        is_click(c.right_stick_top_center, "Brush"@, Key::B, false, false, false),
        is_click(c.right_stick_top_right, "Dodge"@, Key::O, false, false, false),
        is_hold(c.right_stick_bottom_left, "Rotate"@, Key::R, false, false, false),
        is_hold(c.right_stick_bottom_center, "Grab"@, Key::Space, false, false, false),
        is_hold(c.right_stick_bottom_right, "Zoom"@, Key::Z, false, false, false),
        is_hold(c.x, "Alt"@, Key::LeftAlt, false, false, false),
        is_noop(c.b),
        is_click(c.y, "Smaller Brush"@, Key::Oem4OpenSquareOrCurlyBracket, false, false, false),
        is_click(c.a, "Larger Brush"@, Key::Oem6CloseSquareOrCurlyBracket, false, false, false),
        is_noop(c.home),
        is_click(c.right_sl, "Undo"@, Key::Z, true, false, false),
        is_click(c.right_sr, "Redo"@, Key::Z, true, false, true),
{
    Config {
        show_tooltip: true,
        zl: KeyAction::KeyHold(KeyCombination {
            name: "Eraser".to_owned(),
            key: Key::E,
            ctrl: false,
            alt: false,
            shift: false,
        }),
        l: KeyAction::KeyHold(KeyCombination {
            name: "Shift".to_owned(),
            key: Key::LeftShift,
            ctrl: false,
            alt: false,
            shift: false,
        }),
        minus: KeyAction::KeyClick(KeyCombination {
            name: "Save".to_owned(),
            key: Key::S,
            ctrl: true,
            alt: false,
            shift: false,
        }),
        left_stick: KeyAction::NoOp,
        left_stick_top_left: KeyAction::KeyClick(KeyCombination {
            name: "Finger".to_owned(),
            key: Key::N,
            ctrl: false,
            alt: false,
            shift: false,
        }),
        left_stick_top_center: KeyAction::KeyClick(KeyCombination {
            name: "Brush".to_owned(),
            key: Key::B,
            ctrl: false,
            alt: false,
            shift: false,
        }),
        left_stick_top_right: KeyAction::KeyClick(KeyCombination {
            name: "Dodge".to_owned(),
            key: Key::O,
            ctrl: false,
            alt: false,
            shift: false,
        }),
        left_stick_bottom_left: KeyAction::KeyHold(KeyCombination {
            name: "Rotate".to_owned(),
            key: Key::R,
            ctrl: false,
            alt: false,
            shift: false,
        }),
        left_stick_bottom_center: KeyAction::KeyHold(KeyCombination {
            name: "Grab".to_owned(),
            key: Key::Space,
            ctrl: false,
            alt: false,
            shift: false,
        }),
        left_stick_bottom_right: KeyAction::KeyHold(KeyCombination {
            name: "Zoom".to_owned(),
            key: Key::Z,
            ctrl: false,
            alt: false,
            shift: false,
        }),
        up: KeyAction::KeyHold(KeyCombination {
            name: "Alt".to_owned(),
            key: Key::LeftAlt,
            ctrl: false,
            alt: false,
            shift: false,
        }),
        down: KeyAction::NoOp,
        left: KeyAction::KeyClick(KeyCombination {
            name: "Smaller Brush".to_owned(),
            key: Key::Oem4OpenSquareOrCurlyBracket,
            ctrl: false,
            alt: false,
            shift: false,
        }),
        right: KeyAction::KeyClick(KeyCombination {
            name: "Larger Brush".to_owned(),
            key: Key::Oem6CloseSquareOrCurlyBracket,
            ctrl: false,
            alt: false,
            shift: false,
        }),
        capture: KeyAction::NoOp,
        left_sl: KeyAction::KeyClick(KeyCombination {
            name: "Undo".to_owned(),
            key: Key::Z,
            ctrl: true,
            alt: false,
            shift: false,
        }),
        left_sr: KeyAction::KeyClick(KeyCombination {
            name: "Redo".to_owned(),
            key: Key::Z,
            ctrl: true,
            alt: false,
            shift: true,
        }),
        zr: KeyAction::KeyHold(KeyCombination {
            name: "Eraser".to_owned(),
            key: Key::E,
            ctrl: false,
            alt: false,
            shift: false,
        }),
        r: KeyAction::KeyHold(KeyCombination {
            name: "Shift".to_owned(),
            key: Key::LeftShift,
            ctrl: false,
            alt: false,
            shift: false,
        }),
        plus: KeyAction::KeyClick(KeyCombination {
            name: "Save".to_owned(),
            key: Key::S,
            ctrl: true,
            alt: false,
            shift: false,
        }),
        right_stick: KeyAction::NoOp,
        right_stick_top_left: KeyAction::KeyClick(KeyCombination {
            name: "Finger".to_owned(),
            key: Key::N,
            ctrl: false,
            alt: false,
            shift: false,
        }),
        right_stick_top_center: KeyAction::KeyClick(KeyCombination {
            name: "Brush".to_owned(),
            key: Key::B,
            ctrl: false,
            alt: false,
            shift: false,
        }),
        right_stick_top_right: KeyAction::KeyClick(KeyCombination {
            name: "Dodge".to_owned(),
            key: Key::O,
            ctrl: false,
            alt: false,
            shift: false,
        }),
        right_stick_bottom_left: KeyAction::KeyHold(KeyCombination {
            name: "Rotate".to_owned(),
            key: Key::R,
            ctrl: false,
            alt: false,
            shift: false,
        }),
        right_stick_bottom_center: KeyAction::KeyHold(KeyCombination {
            name: "Grab".to_owned(),
            key: Key::Space,
            ctrl: false,
            alt: false,
            shift: false,
        }),
        right_stick_bottom_right: KeyAction::KeyHold(KeyCombination {
            name: "Zoom".to_owned(),
            key: Key::Z,
            ctrl: false,
            alt: false,
            shift: false,
        }),
        x: KeyAction::KeyHold(KeyCombination {
            name: "Alt".to_owned(),
            key: Key::LeftAlt,
            ctrl: false,
            alt: false,
            shift: false,
        }),
        b: KeyAction::NoOp,
        y: KeyAction::KeyClick(KeyCombination {
            name: "Smaller Brush".to_owned(),
            key: Key::Oem4OpenSquareOrCurlyBracket,
            ctrl: false,
            alt: false,
            shift: false,
        }),
        a: KeyAction::KeyClick(KeyCombination {
            name: "Larger Brush".to_owned(),
            key: Key::Oem6CloseSquareOrCurlyBracket,
            ctrl: false,
            alt: false,
            shift: false,
        }),
        home: KeyAction::NoOp,
        right_sl: KeyAction::KeyClick(KeyCombination {
            name: "Undo".to_owned(),
            key: Key::Z,
            ctrl: true,
            alt: false,
            shift: false,
        }),
        right_sr: KeyAction::KeyClick(KeyCombination {
            name: "Redo".to_owned(),
            key: Key::Z,
            ctrl: true,
            alt: false,
            shift: true,
        }),
    }
}

} // verus!
