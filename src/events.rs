//! The typed events that window messages decode to.
use crate::handles::{Context, TimerId};
use vstd::prelude::*;

verus! {

/// A key of a (US layout) keyboard, or a mouse button seen as a key.
#[derive(Debug, Clone, Copy, PartialEq, Eq, PartialOrd, Ord, Hash)]
pub enum Key {
    /// The A key
    A,
    /// The B key
    B,
    /// The C key
    C,
    /// The D key
    D,
    /// The E key
    E,
    /// The F key
    F,
    /// The G key
    G,
    /// The H key
    H,
    /// The I key
    I,
    /// The J key
    J,
    /// The K key
    K,
    /// The L key
    L,
    /// The M key
    M,
    /// The N key
    N,
    /// The O key
    O,
    /// The P key
    P,
    /// The Q key
    Q,
    /// The R key
    R,
    /// The S key
    S,
    /// The T key
    T,
    /// The U key
    U,
    /// The V key
    V,
    /// The W key
    W,
    /// The X key
    X,
    /// The Y key
    Y,
    /// The Z key
    Z,
    /// The 1 key
    Num1,
    /// The 2 key
    Num2,
    /// The 3 key
    Num3,
    /// The 4 key
    Num4,
    /// The 5 key
    Num5,
    /// The 6 key
    Num6,
    /// The 7 key
    Num7,
    /// The 8 key
    Num8,
    /// The 9 key
    Num9,
    /// The 0 key
    Num0,
    /// Numeric keypad 1
    NumPad1,
    /// Numeric keypad 2
    NumPad2,
    /// Numeric keypad 3
    NumPad3,
    /// Numeric keypad 4
    NumPad4,
    /// Numeric keypad 5
    NumPad5,
    /// Numeric keypad 6
    NumPad6,
    /// Numeric keypad 7
    NumPad7,
    /// Numeric keypad 8
    NumPad8,
    /// Numeric keypad 9
    NumPad9,
    /// Numeric keypad 0
    NumPad0,
    /// F1
    F1,
    /// F2
    F2,
    /// F3
    F3,
    /// F4
    F4,
    /// F5
    F5,
    /// F6
    F6,
    /// F7
    F7,
    /// F8
    F8,
    /// F9
    F9,
    /// F10
    F10,
    /// F11
    F11,
    /// F12
    F12,
    /// Shift
    Shift,
    /// Ctrl
    Ctrl,
    /// Alt
    Alt,
    /// The ` key
    Backtick,
    /// The , key
    Comma,
    /// The . key
    Dot,
    /// The / key
    Slash,
    /// The ; key
    Semicolon,
    /// The ' key
    Apostrophe,
    /// The [ key
    LeftBracket,
    /// The ] key
    RightBracket,
    /// The \\ key
    Backslash,
    /// The - key
    Minus,
    /// The = key
    Equals,
    /// Numeric keypad +
    NumAdd,
    /// Numeric keypad -
    NumSub,
    /// Numeric keypad *
    NumMul,
    /// Numeric keypad /
    NumDiv,
    /// Numeric keypad .
    NumDot,
    /// Tab
    Tab,
    /// Space
    Space,
    /// Enter
    Enter,
    /// Backspace
    Backspace,
    /// Esc
    Esc,
    /// CapsLock
    CapsLock,
    /// LeftCtrl
    LeftCtrl,
    /// LeftShift
    LeftShift,
    /// LeftAlt
    LeftAlt,
    /// RightCtrl
    RightCtrl,
    /// RightShift
    RightShift,
    /// RightAlt
    RightAlt,
    /// ScrollLock
    ScrollLock,
    /// NumLock
    NumLock,
    /// Delete
    Delete,
    /// Insert
    Insert,
    /// Home
    Home,
    /// End
    End,
    /// PageUp
    PageUp,
    /// PageDown
    PageDown,
    /// Clear
    Clear,
    /// Left mouse button
    LeftButton,
    /// Right mouse button
    RightButton,
    /// Middle mouse button
    MiddleButton,
    /// First extension mouse button
    X1Button,
    /// Second extension mouse button
    X2Button,
    /// Left arrow
    Left,
    /// Right arrow
    Right,
    /// Up arrow
    Up,
    /// Down arrow
    Down,
    /// A virtual-key code that has no variant of its own.
    Unknown(i32),
}

/// The key that a virtual-key code stands for.
pub open spec fn key_of_code(vk: i32) -> Key {
    match vk {
        0x01 => Key::LeftButton,
        0x02 => Key::RightButton,
        0x04 => Key::MiddleButton,
        0x05 => Key::X1Button,
        0x06 => Key::X2Button,
        0x08 => Key::Backspace,
        0x09 => Key::Tab,
        0x0C => Key::Clear,
        0x0D => Key::Enter,
        0x10 => Key::Shift,
        0x11 => Key::Ctrl,
        0x12 => Key::Alt,
        0x14 => Key::CapsLock,
        0x1B => Key::Esc,
        0x20 => Key::Space,
        0x21 => Key::PageUp,
        0x22 => Key::PageDown,
        0x23 => Key::End,
        0x24 => Key::Home,
        0x25 => Key::Left,
        0x26 => Key::Up,
        0x27 => Key::Right,
        0x28 => Key::Down,
        0x2D => Key::Insert,
        0x2E => Key::Delete,
        0x30 => Key::Num0,
        0x31 => Key::Num1,
        0x32 => Key::Num2,
        0x33 => Key::Num3,
        0x34 => Key::Num4,
        0x35 => Key::Num5,
        0x36 => Key::Num6,
        0x37 => Key::Num7,
        0x38 => Key::Num8,
        0x39 => Key::Num9,
        0x41 => Key::A,
        0x42 => Key::B,
        0x43 => Key::C,
        0x44 => Key::D,
        0x45 => Key::E,
        0x46 => Key::F,
        0x47 => Key::G,
        0x48 => Key::H,
        0x49 => Key::I,
        0x4A => Key::J,
        0x4B => Key::K,
        0x4C => Key::L,
        0x4D => Key::M,
        0x4E => Key::N,
        0x4F => Key::O,
        0x50 => Key::P,
        0x51 => Key::Q,
        0x52 => Key::R,
        0x53 => Key::S,
        0x54 => Key::T,
        0x55 => Key::U,
        0x56 => Key::V,
        0x57 => Key::W,
        0x58 => Key::X,
        0x59 => Key::Y,
        0x5A => Key::Z,
        0x60 => Key::NumPad0,
        0x61 => Key::NumPad1,
        0x62 => Key::NumPad2,
        0x63 => Key::NumPad3,
        0x64 => Key::NumPad4,
        0x65 => Key::NumPad5,
        0x66 => Key::NumPad6,
        0x67 => Key::NumPad7,
        0x68 => Key::NumPad8,
        0x69 => Key::NumPad9,
        0x6A => Key::NumMul,
        0x6B => Key::NumAdd,
        0x6D => Key::NumSub,
        0x6E => Key::NumDot,
        0x6F => Key::NumDiv,
        0x70 => Key::F1,
        0x71 => Key::F2,
        0x72 => Key::F3,
        0x73 => Key::F4,
        0x74 => Key::F5,
        0x75 => Key::F6,
        0x76 => Key::F7,
        0x77 => Key::F8,
        0x78 => Key::F9,
        0x79 => Key::F10,
        0x7A => Key::F11,
        0x7B => Key::F12,
        0x90 => Key::NumLock,
        0x91 => Key::ScrollLock,
        0xA0 => Key::LeftShift,
        0xA1 => Key::RightShift,
        0xA2 => Key::LeftCtrl,
        0xA3 => Key::RightCtrl,
        0xA4 => Key::LeftAlt,
        0xA5 => Key::RightAlt,
        0xBA => Key::Semicolon,
        0xBB => Key::Equals,
        0xBC => Key::Comma,
        0xBD => Key::Minus,
        0xBE => Key::Dot,
        0xBF => Key::Slash,
        0xC0 => Key::Backtick,
        0xDB => Key::LeftBracket,
        0xDC => Key::Backslash,
        0xDD => Key::RightBracket,
        0xDE => Key::Apostrophe,
        _ => Key::Unknown(vk),
    }
}

/// Whether typing `k` can produce the character `c`, with or without Shift.
pub open spec fn key_types(k: Key, c: char) -> bool {
    match k {
        Key::A => c == 'a' || c == 'A',
        Key::B => c == 'b' || c == 'B',
        Key::C => c == 'c' || c == 'C',
        Key::D => c == 'd' || c == 'D',
        Key::E => c == 'e' || c == 'E',
        Key::F => c == 'f' || c == 'F',
        Key::G => c == 'g' || c == 'G',
        Key::H => c == 'h' || c == 'H',
        Key::I => c == 'i' || c == 'I',
        Key::J => c == 'j' || c == 'J',
        Key::K => c == 'k' || c == 'K',
        Key::L => c == 'l' || c == 'L',
        Key::M => c == 'm' || c == 'M',
        Key::N => c == 'n' || c == 'N',
        Key::O => c == 'o' || c == 'O',
        Key::P => c == 'p' || c == 'P',
        Key::Q => c == 'q' || c == 'Q',
        Key::R => c == 'r' || c == 'R',
        Key::S => c == 's' || c == 'S',
        Key::T => c == 't' || c == 'T',
        Key::U => c == 'u' || c == 'U',
        Key::V => c == 'v' || c == 'V',
        Key::W => c == 'w' || c == 'W',
        Key::X => c == 'x' || c == 'X',
        Key::Y => c == 'y' || c == 'Y',
        Key::Z => c == 'z' || c == 'Z',
        Key::Num0 => c == '0' || c == ')',
        Key::Num1 => c == '1' || c == '!',
        Key::Num2 => c == '2' || c == '@',
        Key::Num3 => c == '3' || c == '#',
        Key::Num4 => c == '4' || c == '$',
        Key::Num5 => c == '5' || c == '%',
        Key::Num6 => c == '6' || c == '^',
        Key::Num7 => c == '7' || c == '&',
        Key::Num8 => c == '8' || c == '*',
        Key::Num9 => c == '9' || c == '(',
        Key::NumPad0 => c == '0',
        Key::NumPad1 => c == '1',
        Key::NumPad2 => c == '2',
        Key::NumPad3 => c == '3',
        Key::NumPad4 => c == '4',
        Key::NumPad5 => c == '5',
        Key::NumPad6 => c == '6',
        Key::NumPad7 => c == '7',
        Key::NumPad8 => c == '8',
        Key::NumPad9 => c == '9',
        Key::Backtick => c == '`' || c == '~',
        Key::Comma => c == ',' || c == '<',
        Key::Dot => c == '.' || c == '>',
        Key::Slash => c == '/' || c == '?',
        Key::Semicolon => c == ';' || c == ':',
        Key::Apostrophe => c == '\'' || c == '"',
        Key::LeftBracket => c == '[' || c == '{',
        Key::RightBracket => c == ']' || c == '}',
        Key::Backslash => c == '\\' || c == '|',
        Key::Minus => c == '-' || c == '_',
        Key::Equals => c == '=' || c == '+',
        Key::NumAdd => c == '+',
        Key::NumSub => c == '-',
        Key::NumMul => c == '*',
        Key::NumDiv => c == '/',
        Key::NumDot => c == '.',
        Key::Space => c == ' ',
        Key::Tab => c == '\t',
        Key::Backspace => c == '\x08',
        Key::Enter => c == '\n' || c == '\r',
        _ => false,
    }
}

/// The key that a virtual-key code stands for; a code with no variant of its
/// own gives `Key::Unknown` with the code.
pub fn vk_to_key(vk: i32) -> (r: Key)
    ensures
        r == key_of_code(vk),
{
    match vk {
        0x01 => Key::LeftButton,
        0x02 => Key::RightButton,
        0x04 => Key::MiddleButton,
        0x05 => Key::X1Button,
        0x06 => Key::X2Button,
        0x08 => Key::Backspace,
        0x09 => Key::Tab,
        0x0C => Key::Clear,
        0x0D => Key::Enter,
        0x10 => Key::Shift,
        0x11 => Key::Ctrl,
        0x12 => Key::Alt,
        0x14 => Key::CapsLock,
        0x1B => Key::Esc,
        0x20 => Key::Space,
        0x21 => Key::PageUp,
        0x22 => Key::PageDown,
        0x23 => Key::End,
        0x24 => Key::Home,
        0x25 => Key::Left,
        0x26 => Key::Up,
        0x27 => Key::Right,
        0x28 => Key::Down,
        0x2D => Key::Insert,
        0x2E => Key::Delete,
        0x30 => Key::Num0,
        0x31 => Key::Num1,
        0x32 => Key::Num2,
        0x33 => Key::Num3,
        0x34 => Key::Num4,
        0x35 => Key::Num5,
        0x36 => Key::Num6,
        0x37 => Key::Num7,
        0x38 => Key::Num8,
        0x39 => Key::Num9,
        0x41 => Key::A,
        0x42 => Key::B,
        0x43 => Key::C,
        0x44 => Key::D,
        0x45 => Key::E,
        0x46 => Key::F,
        0x47 => Key::G,
        0x48 => Key::H,
        0x49 => Key::I,
        0x4A => Key::J,
        0x4B => Key::K,
        0x4C => Key::L,
        0x4D => Key::M,
        0x4E => Key::N,
        0x4F => Key::O,
        0x50 => Key::P,
        0x51 => Key::Q,
        0x52 => Key::R,
        0x53 => Key::S,
        0x54 => Key::T,
        0x55 => Key::U,
        0x56 => Key::V,
        0x57 => Key::W,
        0x58 => Key::X,
        0x59 => Key::Y,
        0x5A => Key::Z,
        0x60 => Key::NumPad0,
        0x61 => Key::NumPad1,
        0x62 => Key::NumPad2,
        0x63 => Key::NumPad3,
        0x64 => Key::NumPad4,
        0x65 => Key::NumPad5,
        0x66 => Key::NumPad6,
        0x67 => Key::NumPad7,
        0x68 => Key::NumPad8,
        0x69 => Key::NumPad9,
        0x6A => Key::NumMul,
        0x6B => Key::NumAdd,
        0x6D => Key::NumSub,
        0x6E => Key::NumDot,
        0x6F => Key::NumDiv,
        0x70 => Key::F1,
        0x71 => Key::F2,
        0x72 => Key::F3,
        0x73 => Key::F4,
        0x74 => Key::F5,
        0x75 => Key::F6,
        0x76 => Key::F7,
        0x77 => Key::F8,
        0x78 => Key::F9,
        0x79 => Key::F10,
        0x7A => Key::F11,
        0x7B => Key::F12,
        0x90 => Key::NumLock,
        0x91 => Key::ScrollLock,
        0xA0 => Key::LeftShift,
        0xA1 => Key::RightShift,
        0xA2 => Key::LeftCtrl,
        0xA3 => Key::RightCtrl,
        0xA4 => Key::LeftAlt,
        0xA5 => Key::RightAlt,
        0xBA => Key::Semicolon,
        0xBB => Key::Equals,
        0xBC => Key::Comma,
        0xBD => Key::Minus,
        0xBE => Key::Dot,
        0xBF => Key::Slash,
        0xC0 => Key::Backtick,
        0xDB => Key::LeftBracket,
        0xDC => Key::Backslash,
        0xDD => Key::RightBracket,
        0xDE => Key::Apostrophe,
        _ => Key::Unknown(vk),
    }
}

impl Key {
    /// Whether typing this key can produce `c`, with or without Shift.
    pub fn types_char(&self, c: char) -> (r: bool)
        ensures
            r == key_types(*self, c),
    {
        match *self {
            Key::A => c == 'a' || c == 'A',
            Key::B => c == 'b' || c == 'B',
            Key::C => c == 'c' || c == 'C',
            Key::D => c == 'd' || c == 'D',
            Key::E => c == 'e' || c == 'E',
            Key::F => c == 'f' || c == 'F',
            Key::G => c == 'g' || c == 'G',
            Key::H => c == 'h' || c == 'H',
            Key::I => c == 'i' || c == 'I',
            Key::J => c == 'j' || c == 'J',
            Key::K => c == 'k' || c == 'K',
            Key::L => c == 'l' || c == 'L',
            Key::M => c == 'm' || c == 'M',
            Key::N => c == 'n' || c == 'N',
            Key::O => c == 'o' || c == 'O',
            Key::P => c == 'p' || c == 'P',
            Key::Q => c == 'q' || c == 'Q',
            Key::R => c == 'r' || c == 'R',
            Key::S => c == 's' || c == 'S',
            Key::T => c == 't' || c == 'T',
            Key::U => c == 'u' || c == 'U',
            Key::V => c == 'v' || c == 'V',
            Key::W => c == 'w' || c == 'W',
            Key::X => c == 'x' || c == 'X',
            Key::Y => c == 'y' || c == 'Y',
            Key::Z => c == 'z' || c == 'Z',
            Key::Num0 => c == '0' || c == ')',
            Key::Num1 => c == '1' || c == '!',
            Key::Num2 => c == '2' || c == '@',
            Key::Num3 => c == '3' || c == '#',
            Key::Num4 => c == '4' || c == '$',
            Key::Num5 => c == '5' || c == '%',
            Key::Num6 => c == '6' || c == '^',
            Key::Num7 => c == '7' || c == '&',
            Key::Num8 => c == '8' || c == '*',
            Key::Num9 => c == '9' || c == '(',
            Key::NumPad0 => c == '0',
            Key::NumPad1 => c == '1',
            Key::NumPad2 => c == '2',
            Key::NumPad3 => c == '3',
            Key::NumPad4 => c == '4',
            Key::NumPad5 => c == '5',
            Key::NumPad6 => c == '6',
            Key::NumPad7 => c == '7',
            Key::NumPad8 => c == '8',
            Key::NumPad9 => c == '9',
            Key::Backtick => c == '`' || c == '~',
            Key::Comma => c == ',' || c == '<',
            Key::Dot => c == '.' || c == '>',
            Key::Slash => c == '/' || c == '?',
            Key::Semicolon => c == ';' || c == ':',
            Key::Apostrophe => c == '\'' || c == '"',
            Key::LeftBracket => c == '[' || c == '{',
            Key::RightBracket => c == ']' || c == '}',
            Key::Backslash => c == '\\' || c == '|',
            Key::Minus => c == '-' || c == '_',
            Key::Equals => c == '=' || c == '+',
            Key::NumAdd => c == '+',
            Key::NumSub => c == '-',
            Key::NumMul => c == '*',
            Key::NumDiv => c == '/',
            Key::NumDot => c == '.',
            Key::Space => c == ' ',
            Key::Tab => c == '\t',
            Key::Backspace => c == '\x08',
            Key::Enter => c == '\n' || c == '\r',
            _ => false,
        }
    }
}

impl PartialEq<char> for Key {
    fn eq(&self, other: &char) -> (r: bool) {
        self.types_char(*other)
    }
}

impl vstd::std_specs::cmp::PartialEqSpecImpl<char> for Key {
    open spec fn obeys_eq_spec() -> bool {
        true
    }

    open spec fn eq_spec(&self, other: &char) -> bool {
        key_types(*self, *other)
    }
}

/// A mouse button.
#[derive(Debug, Clone, Copy, PartialEq, Eq, PartialOrd, Ord, Hash)]
pub enum Button {
    Left,
    Right,
    Middle,
    X1,
    X2,
}

/// The direction a mouse wheel turned.
#[derive(Debug, Clone, Copy, PartialEq, Eq, PartialOrd, Ord, Hash)]
pub enum Wheel {
    Up,
    Down,
}

/// A key or mouse button held down when a mouse message was sent.
#[derive(Debug, Clone, Copy, PartialEq, Eq, PartialOrd, Ord, Hash)]
pub enum ModifierKey {
    Shift,
    Ctrl,
    Alt,
    Win,
    Mouse(Button),
}

/// Why a window's size changed.
#[derive(Debug, Clone, Copy, PartialEq, Eq, PartialOrd, Ord, Hash)]
pub enum SizeChangeType {
    Resize,
    Minimize,
    Maximize,
    Restore,
    MaxHide,
    MaxShow,
    Unknown(usize),
}

/// The modifier keys of a hot key.
#[derive(Debug, Clone, Copy, PartialEq, Eq, PartialOrd, Ord, Hash)]
pub struct HotKeyFlags {
    pub alt: bool,
    pub ctrl: bool,
    pub shift: bool,
    pub win: bool,
}

/// What happened to a mouse button.
#[derive(Debug, Clone, Copy, PartialEq, Eq, PartialOrd, Ord, Hash)]
pub enum ButtonStatus {
    Down,
    Up,
    DoubleClick,
}

/// What happened to a key.
#[derive(Debug, Clone, Copy, PartialEq, Eq, PartialOrd, Ord, Hash)]
pub enum KeyStatus {
    Down,
    Up,
}

/// The edge or corner of a window that is being dragged.
#[derive(Debug, Clone, Copy, PartialEq, Eq, PartialOrd, Ord, Hash)]
pub enum SizingSide {
    Left,
    Right,
    Top,
    Bottom,
    TopLeft,
    TopRight,
    BottomLeft,
    BottomRight,
    MoveCauseExitMaximize,
    Unknown(usize),
}

/// The rectangle of a window being resized. The handler may change it; the
/// caller writes it back to the platform after the handler returns.
#[derive(Debug, Clone, Copy, PartialEq, Eq, PartialOrd, Ord, Hash)]
pub struct RefRect {
    pub left: i32,
    pub top: i32,
    pub right: i32,
    pub bottom: i32,
}

/// The size and position limits of a window. The handler may change them;
/// the caller writes them back to the platform after the handler returns.
#[derive(Debug, Clone, Copy, PartialEq, Eq, PartialOrd, Ord, Hash)]
pub struct MinMaxInfo {
    pub max_width: i32,
    pub max_height: i32,
    pub max_left: i32,
    pub max_top: i32,
    pub min_track_width: i32,
    pub min_track_height: i32,
    pub max_track_width: i32,
    pub max_track_height: i32,
}

/// The part of a window the cursor is over.
#[derive(Debug, Clone, Copy, PartialEq, Eq, PartialOrd, Ord, Hash)]
pub enum CursorAt {
    Border,
    Bottom,
    BottomLeft,
    BottomRight,
    Caption,
    Client,
    Close,
    Error,
    Help,
    HScroll,
    Left,
    Menu,
    MaxButton,
    MinButton,
    NoWhere,
    Object,
    Right,
    Size,
    Sysmenu,
    Top,
    TopLeft,
    TopRight,
    Transparent,
    VScroll,
}

/// A decoded window message.
#[derive(Debug, Clone, Copy, PartialEq, Eq, PartialOrd, Ord, Hash)]
pub enum Event {
    Key { key: Key, ex_key: bool, status: KeyStatus },
    Mouse {
        button: Button,
        pos: (i32, i32),
        status: ButtonStatus,
        modifier: Option<ModifierKey>,
    },
    Move { pos: (i32, i32), modifier: Option<ModifierKey> },
    Wheel { pos: (i32, i32), wheel: Wheel, modifier: Option<ModifierKey> },
    Input { ch: u16 },
    Paint { context: Context },
    Timer { id: TimerId },
    NoClient(NoClient),
    Window(WindowEvent),
    /// A message with no decoding of its own, with its raw parameters.
    Other { msg: u32, wparam: usize, lparam: isize },
}

/// A message about the window itself.
#[derive(Debug, Clone, Copy, PartialEq, Eq, PartialOrd, Ord, Hash)]
pub enum WindowEvent {
    Destroy,
    Create,
    Close,
    Move { pos: (i32, i32) },
    /// An application-defined message; `msg` counts from the first such code.
    UserDef { msg: u32, wparam: usize, lparam: isize },
    SizeRange(MinMaxInfo),
    SizeChanged { width: u32, height: u32, type_: SizeChangeType },
    SizeChanging { ref_rect: RefRect, type_: SizingSide },
}

/// A message about the non-client area (borders, caption, scroll bars).
#[derive(Debug, Clone, Copy, PartialEq, Eq, PartialOrd, Ord, Hash)]
pub enum NoClient {
    /// The handler should answer `Return::Default` so that the platform's
    /// hit testing runs.
    HitTest { x: i32, y: i32 },
    Mouse { button: Button, pos: (i16, i16), status: ButtonStatus, at: CursorAt },
    Move { pos: (i16, i16), at: CursorAt },
    Leave,
    Create,
}

/// What a message handler asks the window procedure to return.
#[derive(Debug, Clone, Copy, PartialEq, Eq, PartialOrd, Ord, Hash)]
pub enum Return {
    /// Handled; the window procedure returns 0.
    Finish,
    /// Not handled; the platform's default handling runs.
    Default,
    /// Handled; the window procedure returns the value.
    Data(isize),
}

} // verus!
