//! Decoding of raw window messages, and one pass of the window procedure over a message.
use crate::events::{
    vk_to_key, key_of_code, Button, ButtonStatus, CursorAt, Event, KeyStatus, MinMaxInfo,
    ModifierKey, NoClient, RefRect, Return, SizeChangeType, SizingSide, Wheel, WindowEvent,
};
use crate::handles::{Context, TimerId, WindowHandle};
use crate::the::The;
use crate::window_data::{
    cast_for_message, payload_after, type_id_of, TypeMismatch, WindowBindData,
};
use std::any::TypeId;
use vstd::prelude::*;

verus! {

pub const WM_CREATE: u32 = 0x0001;
pub const WM_DESTROY: u32 = 0x0002;
pub const WM_MOVE: u32 = 0x0003;
pub const WM_SIZE: u32 = 0x0005;
pub const WM_PAINT: u32 = 0x000F;
pub const WM_CLOSE: u32 = 0x0010;
pub const WM_GETMINMAXINFO: u32 = 0x0024;
pub const WM_NCCREATE: u32 = 0x0081;
pub const WM_NCDESTROY: u32 = 0x0082;
pub const WM_NCHITTEST: u32 = 0x0084;
pub const WM_NCMOUSEMOVE: u32 = 0x00A0;
pub const WM_NCLBUTTONDOWN: u32 = 0x00A1;
pub const WM_NCLBUTTONUP: u32 = 0x00A2;
pub const WM_NCLBUTTONDBLCLK: u32 = 0x00A3;
pub const WM_NCRBUTTONDOWN: u32 = 0x00A4;
pub const WM_NCRBUTTONUP: u32 = 0x00A5;
pub const WM_NCRBUTTONDBLCLK: u32 = 0x00A6;
pub const WM_NCMBUTTONDOWN: u32 = 0x00A7;
pub const WM_NCMBUTTONUP: u32 = 0x00A8;
pub const WM_NCMBUTTONDBLCLK: u32 = 0x00A9;
pub const WM_NCXBUTTONDOWN: u32 = 0x00AB;
pub const WM_NCXBUTTONUP: u32 = 0x00AC;
pub const WM_NCXBUTTONDBLCLK: u32 = 0x00AD;
pub const WM_KEYDOWN: u32 = 0x0100;
pub const WM_KEYUP: u32 = 0x0101;
pub const WM_CHAR: u32 = 0x0102;
pub const WM_TIMER: u32 = 0x0113;
pub const WM_MOUSEMOVE: u32 = 0x0200;
pub const WM_LBUTTONDOWN: u32 = 0x0201;
pub const WM_LBUTTONUP: u32 = 0x0202;
pub const WM_LBUTTONDBLCLK: u32 = 0x0203;
pub const WM_RBUTTONDOWN: u32 = 0x0204;
pub const WM_RBUTTONUP: u32 = 0x0205;
pub const WM_RBUTTONDBLCLK: u32 = 0x0206;
pub const WM_MBUTTONDOWN: u32 = 0x0207;
pub const WM_MBUTTONUP: u32 = 0x0208;
pub const WM_MBUTTONDBLCLK: u32 = 0x0209;
pub const WM_MOUSEWHEEL: u32 = 0x020A;
pub const WM_XBUTTONDOWN: u32 = 0x020B;
pub const WM_XBUTTONUP: u32 = 0x020C;
pub const WM_XBUTTONDBLCLK: u32 = 0x020D;
pub const WM_SIZING: u32 = 0x0214;
pub const WM_NCMOUSELEAVE: u32 = 0x02A2;
/// The first code of application-defined messages.
pub const WM_USER: u32 = 0x0400;

pub const MK_LBUTTON: usize = 0x0001;
pub const MK_RBUTTON: usize = 0x0002;
pub const MK_SHIFT: usize = 0x0004;
pub const MK_CONTROL: usize = 0x0008;
pub const MK_MBUTTON: usize = 0x0010;
pub const MK_XBUTTON1: usize = 0x0020;
pub const MK_XBUTTON2: usize = 0x0040;

pub const XBUTTON1: u16 = 0x0001;
pub const XBUTTON2: u16 = 0x0002;

/// Bit of a key message's long parameter that marks an extended key.
pub const KF_EXTENDED_BIT: isize = 0x0100_0000;

/// What the long parameter of a message points to, as read by the caller
/// from the platform's memory before decoding.
#[derive(Debug, Clone, Copy, PartialEq, Eq)]
pub enum Pointee {
    Nothing,
    MinMax(MinMaxInfo),
    Rect(RefRect),
}

/// The low 16 bits of a long parameter, read as unsigned.
pub open spec fn low_half(l: isize) -> i32 {
    (l & 0xffff) as i32
}

/// Bits 16 to 31 of a long parameter, read as unsigned.
pub open spec fn high_half(l: isize) -> i32 {
    ((l >> 16) & 0xffff) as i32
}

/// A position packed into the two 16-bit halves of a long parameter.
pub open spec fn pos_of(l: isize) -> (i32, i32) {
    (low_half(l), high_half(l))
}

/// A position packed as two signed 16-bit halves of a long parameter.
pub open spec fn points_of(l: isize) -> (i16, i16) {
    (((l & 0xffff) as u16) as i16, (((l >> 16) & 0xffff) as u16) as i16)
}

/// The low 16 bits of a word parameter.
pub open spec fn low_word(w: usize) -> u16 {
    (w & 0xffff) as u16
}

/// Bits 16 to 31 of a word parameter.
pub open spec fn high_word(w: usize) -> u16 {
    ((w >> 16) & 0xffff) as u16
}

/// The modifier that a key-state word names, when it names exactly one.
pub open spec fn modifier_of(w: usize) -> Option<ModifierKey> {
    match w {
        MK_LBUTTON => Some(ModifierKey::Mouse(Button::Left)),
        MK_RBUTTON => Some(ModifierKey::Mouse(Button::Right)),
        MK_MBUTTON => Some(ModifierKey::Mouse(Button::Middle)),
        MK_XBUTTON1 => Some(ModifierKey::Mouse(Button::X1)),
        MK_XBUTTON2 => Some(ModifierKey::Mouse(Button::X2)),
        MK_CONTROL => Some(ModifierKey::Ctrl),
        MK_SHIFT => Some(ModifierKey::Shift),
        _ => None,
    }
}

/// The extension button named by the high word of a word parameter.
pub open spec fn x_button_of(w: usize) -> Option<Button> {
    if high_word(w) == XBUTTON1 {
        Some(Button::X1)
    } else if high_word(w) == XBUTTON2 {
        Some(Button::X2)
    } else {
        None
    }
}

/// The cursor location named by a hit-test code.
pub open spec fn cursor_at_of(code: i16) -> Option<CursorAt> {
    match code {
        18 => Some(CursorAt::Border),
        15 => Some(CursorAt::Bottom),
        16 => Some(CursorAt::BottomLeft),
        17 => Some(CursorAt::BottomRight),
        2 => Some(CursorAt::Caption),
        1 => Some(CursorAt::Client),
        20 => Some(CursorAt::Close),
        -2 => Some(CursorAt::Error),
        21 => Some(CursorAt::Help),
        6 => Some(CursorAt::HScroll),
        10 => Some(CursorAt::Left),
        5 => Some(CursorAt::Menu),
        9 => Some(CursorAt::MaxButton),
        8 => Some(CursorAt::MinButton),
        0 => Some(CursorAt::NoWhere),
        19 => Some(CursorAt::Object),
        11 => Some(CursorAt::Right),
        4 => Some(CursorAt::Size),
        3 => Some(CursorAt::Sysmenu),
        12 => Some(CursorAt::Top),
        13 => Some(CursorAt::TopLeft),
        14 => Some(CursorAt::TopRight),
        -1 => Some(CursorAt::Transparent),
        7 => Some(CursorAt::VScroll),
        _ => None,
    }
}

/// The hit-test code in the low word of a word parameter, read as signed.
pub open spec fn hit_code(w: usize) -> i16 {
    low_word(w) as i16
}

/// Whether `msg` is a button message of the client area.
pub open spec fn is_client_button(msg: u32) -> bool {
    WM_LBUTTONDOWN <= msg <= WM_MBUTTONDBLCLK || WM_XBUTTONDOWN <= msg <= WM_XBUTTONDBLCLK
}

/// Whether `msg` is a button message of the non-client area.
pub open spec fn is_nc_button(msg: u32) -> bool {
    WM_NCLBUTTONDOWN <= msg <= WM_NCMBUTTONDBLCLK || WM_NCXBUTTONDOWN <= msg
        <= WM_NCXBUTTONDBLCLK
}

/// Whether `msg` names one of the extension buttons.
pub open spec fn is_x_button(msg: u32) -> bool {
    WM_XBUTTONDOWN <= msg <= WM_XBUTTONDBLCLK || WM_NCXBUTTONDOWN <= msg <= WM_NCXBUTTONDBLCLK
}

/// What the platform guarantees of the word parameter of a message: an
/// extension-button message names one of the two extension buttons, and a
/// non-client mouse message carries a known hit-test code.
pub open spec fn well_formed(msg: u32, wparam: usize) -> bool {
    &&& is_x_button(msg) ==> x_button_of(wparam) is Some
    &&& (is_nc_button(msg) || msg == WM_NCMOUSEMOVE) ==> cursor_at_of(hit_code(wparam)) is Some
}

/// The button of a client or non-client button message.
pub open spec fn button_of(msg: u32, wparam: usize) -> Button {
    if msg == WM_LBUTTONDOWN || msg == WM_LBUTTONUP || msg == WM_LBUTTONDBLCLK || msg
        == WM_NCLBUTTONDOWN || msg == WM_NCLBUTTONUP || msg == WM_NCLBUTTONDBLCLK {
        Button::Left
    } else if msg == WM_MBUTTONDOWN || msg == WM_MBUTTONUP || msg == WM_MBUTTONDBLCLK || msg
        == WM_NCMBUTTONDOWN || msg == WM_NCMBUTTONUP || msg == WM_NCMBUTTONDBLCLK {
        Button::Middle
    } else if msg == WM_RBUTTONDOWN || msg == WM_RBUTTONUP || msg == WM_RBUTTONDBLCLK || msg
        == WM_NCRBUTTONDOWN || msg == WM_NCRBUTTONUP || msg == WM_NCRBUTTONDBLCLK {
        Button::Right
    } else {
        x_button_of(wparam)->0
    }
}

/// Down, up or double click, for a client or non-client button message.
pub open spec fn status_of(msg: u32) -> ButtonStatus {
    if msg == WM_LBUTTONDOWN || msg == WM_MBUTTONDOWN || msg == WM_RBUTTONDOWN || msg
        == WM_XBUTTONDOWN || msg == WM_NCLBUTTONDOWN || msg == WM_NCMBUTTONDOWN || msg
        == WM_NCRBUTTONDOWN || msg == WM_NCXBUTTONDOWN {
        ButtonStatus::Down
    } else if msg == WM_LBUTTONUP || msg == WM_MBUTTONUP || msg == WM_RBUTTONUP || msg
        == WM_XBUTTONUP || msg == WM_NCLBUTTONUP || msg == WM_NCMBUTTONUP || msg
        == WM_NCRBUTTONUP || msg == WM_NCXBUTTONUP {
        ButtonStatus::Up
    } else {
        ButtonStatus::DoubleClick
    }
}

/// The dragged edge named by the word parameter of a sizing message.
pub open spec fn sizing_side_of(w: usize) -> SizingSide {
    match w {
        1 => SizingSide::Left,
        2 => SizingSide::Right,
        3 => SizingSide::Top,
        4 => SizingSide::TopLeft,
        5 => SizingSide::TopRight,
        6 => SizingSide::Bottom,
        7 => SizingSide::BottomLeft,
        8 => SizingSide::BottomRight,
        9 => SizingSide::MoveCauseExitMaximize,
        _ => SizingSide::Unknown(w),
    }
}

/// The kind of size change named by the word parameter of a size message.
pub open spec fn size_change_of(w: usize) -> SizeChangeType {
    match w {
        0 => SizeChangeType::Restore,
        1 => SizeChangeType::Minimize,
        2 => SizeChangeType::Maximize,
        3 => SizeChangeType::MaxShow,
        4 => SizeChangeType::MaxHide,
        _ => SizeChangeType::Unknown(w),
    }
}

/// The event that the raw message `(hwnd, msg, wparam, lparam)` stands for,
/// given what its long parameter points to.
pub open spec fn decode(
    hwnd: WindowHandle,
    msg: u32,
    wparam: usize,
    lparam: isize,
    pointee: Pointee,
) -> Event {
    if is_client_button(msg) {
        Event::Mouse {
            button: button_of(msg, wparam),
            pos: pos_of(lparam),
            status: status_of(msg),
            modifier: modifier_of(wparam),
        }
    } else if is_nc_button(msg) {
        Event::NoClient(
            NoClient::Mouse {
                button: button_of(msg, wparam),
                pos: points_of(lparam),
                status: status_of(msg),
                at: cursor_at_of(hit_code(wparam))->0,
            },
        )
    } else if msg == WM_KEYDOWN || msg == WM_KEYUP {
        Event::Key {
            key: key_of_code(wparam as i32),
            ex_key: lparam & KF_EXTENDED_BIT != 0,
            status: if msg == WM_KEYDOWN {
                KeyStatus::Down
            } else {
                KeyStatus::Up
            },
        }
    } else if msg == WM_MOUSEMOVE {
        Event::Move { pos: pos_of(lparam), modifier: modifier_of(wparam) }
    } else if msg == WM_MOUSEWHEEL {
        Event::Wheel {
            pos: pos_of(lparam),
            wheel: if (high_word(wparam) as i16) > 0 {
                Wheel::Up
            } else {
                Wheel::Down
            },
            modifier: modifier_of(wparam & 0xffff),
        }
    } else if msg == WM_CHAR {
        Event::Input { ch: wparam as u16 }
    } else if msg == WM_DESTROY {
        Event::Window(WindowEvent::Destroy)
    } else if msg == WM_CREATE {
        Event::Window(WindowEvent::Create)
    } else if msg == WM_NCMOUSELEAVE {
        Event::NoClient(NoClient::Leave)
    } else if msg == WM_NCCREATE {
        Event::NoClient(NoClient::Create)
    } else if msg == WM_CLOSE {
        Event::Window(WindowEvent::Close)
    } else if msg == WM_PAINT {
        Event::Paint { context: Context { hwnd: hwnd.handle } }
    } else if msg == WM_GETMINMAXINFO && pointee is MinMax {
        Event::Window(WindowEvent::SizeRange(pointee->MinMax_0))
    } else if msg == WM_SIZE {
        Event::Window(
            WindowEvent::SizeChanged {
                width: low_half(lparam) as u32,
                height: high_half(lparam) as u32,
                type_: size_change_of(wparam),
            },
        )
    } else if msg == WM_SIZING && pointee is Rect {
        Event::Window(
            WindowEvent::SizeChanging {
                ref_rect: pointee->Rect_0,
                type_: sizing_side_of(wparam),
            },
        )
    } else if msg == WM_MOVE {
        Event::Window(WindowEvent::Move { pos: pos_of(lparam) })
    } else if msg == WM_NCHITTEST {
        Event::NoClient(NoClient::HitTest { x: low_half(lparam), y: high_half(lparam) })
    } else if msg == WM_NCMOUSEMOVE {
        Event::NoClient(
            NoClient::Move { pos: points_of(lparam), at: cursor_at_of(hit_code(wparam))->0 },
        )
    } else if msg == WM_TIMER {
        Event::Timer { id: TimerId { uid: wparam } }
    } else if msg >= WM_USER {
        Event::Window(WindowEvent::UserDef { msg: (msg - WM_USER) as u32, wparam, lparam })
    } else {
        Event::Other { msg, wparam, lparam }
    }
}

fn l_param_to_pos(l: isize) -> (r: (i32, i32))
    ensures
        r == pos_of(l),
{
    ((l & 0xffff) as i32, ((l >> 16) & 0xffff) as i32)
}

fn lparam_to_points(l: isize) -> (r: (i16, i16))
    ensures
        r == points_of(l),
{
    (((l & 0xffff) as u16) as i16, (((l >> 16) & 0xffff) as u16) as i16)
}

fn w_param_to_mod_key(w: usize) -> (r: Option<ModifierKey>)
    ensures
        r == modifier_of(w),
{
    match w {
        MK_LBUTTON => Some(ModifierKey::Mouse(Button::Left)),
        MK_RBUTTON => Some(ModifierKey::Mouse(Button::Right)),
        MK_MBUTTON => Some(ModifierKey::Mouse(Button::Middle)),
        MK_XBUTTON1 => Some(ModifierKey::Mouse(Button::X1)),
        MK_XBUTTON2 => Some(ModifierKey::Mouse(Button::X2)),
        MK_CONTROL => Some(ModifierKey::Ctrl),
        MK_SHIFT => Some(ModifierKey::Shift),
        _ => None,
    }
}

fn hit_code_to_cursor_at(w: usize) -> (r: Option<CursorAt>)
    ensures
        r == cursor_at_of(hit_code(w)),
{
    let code = ((w & 0xffff) as u16) as i16;
    match code {
        18 => Some(CursorAt::Border),
        15 => Some(CursorAt::Bottom),
        16 => Some(CursorAt::BottomLeft),
        17 => Some(CursorAt::BottomRight),
        2 => Some(CursorAt::Caption),
        1 => Some(CursorAt::Client),
        20 => Some(CursorAt::Close),
        -2 => Some(CursorAt::Error),
        21 => Some(CursorAt::Help),
        6 => Some(CursorAt::HScroll),
        10 => Some(CursorAt::Left),
        5 => Some(CursorAt::Menu),
        9 => Some(CursorAt::MaxButton),
        8 => Some(CursorAt::MinButton),
        0 => Some(CursorAt::NoWhere),
        19 => Some(CursorAt::Object),
        11 => Some(CursorAt::Right),
        4 => Some(CursorAt::Size),
        3 => Some(CursorAt::Sysmenu),
        12 => Some(CursorAt::Top),
        13 => Some(CursorAt::TopLeft),
        14 => Some(CursorAt::TopRight),
        -1 => Some(CursorAt::Transparent),
        7 => Some(CursorAt::VScroll),
        _ => None,
    }
}

fn x_button(w: usize) -> (r: Option<Button>)
    ensures
        r == x_button_of(w),
{
    let word = ((w >> 16) & 0xffff) as u16;
    if word == XBUTTON1 {
        Some(Button::X1)
    } else if word == XBUTTON2 {
        Some(Button::X2)
    } else {
        None
    }
}

fn mouse_button(msg: u32, w: usize) -> (r: Button)
    requires
        is_client_button(msg) || is_nc_button(msg),
        well_formed(msg, w),
    ensures
        r == button_of(msg, w),
{
    match msg {
        WM_LBUTTONDOWN | WM_LBUTTONUP | WM_LBUTTONDBLCLK | WM_NCLBUTTONDOWN | WM_NCLBUTTONUP
        | WM_NCLBUTTONDBLCLK => Button::Left,
        WM_MBUTTONDOWN | WM_MBUTTONUP | WM_MBUTTONDBLCLK | WM_NCMBUTTONDOWN | WM_NCMBUTTONUP
        | WM_NCMBUTTONDBLCLK => Button::Middle,
        WM_RBUTTONDOWN | WM_RBUTTONUP | WM_RBUTTONDBLCLK | WM_NCRBUTTONDOWN | WM_NCRBUTTONUP
        | WM_NCRBUTTONDBLCLK => Button::Right,
        _ => match x_button(w) {
            Some(b) => b,
            None => Button::X1,
        },
    }
}

fn button_status(msg: u32) -> (r: ButtonStatus)
    ensures
        r == status_of(msg),
{
    match msg {
        WM_LBUTTONDOWN | WM_MBUTTONDOWN | WM_RBUTTONDOWN | WM_XBUTTONDOWN | WM_NCLBUTTONDOWN
        | WM_NCMBUTTONDOWN | WM_NCRBUTTONDOWN | WM_NCXBUTTONDOWN => ButtonStatus::Down,
        WM_LBUTTONUP | WM_MBUTTONUP | WM_RBUTTONUP | WM_XBUTTONUP | WM_NCLBUTTONUP
        | WM_NCMBUTTONUP | WM_NCRBUTTONUP | WM_NCXBUTTONUP => ButtonStatus::Up,
        _ => ButtonStatus::DoubleClick,
    }
}

fn translate_mouse_button(msg: u32, w_param: usize, l_param: isize) -> (r: Event)
    requires
        is_client_button(msg),
        well_formed(msg, w_param),
    ensures
        r == (Event::Mouse {
            button: button_of(msg, w_param),
            pos: pos_of(l_param),
            status: status_of(msg),
            modifier: modifier_of(w_param),
        }),
{
    let button = mouse_button(msg, w_param);
    let status = button_status(msg);
    let pos = l_param_to_pos(l_param);
    let modifier = w_param_to_mod_key(w_param);
    Event::Mouse { button, pos, status, modifier }
}

fn translate_nc_mouse_button(msg: u32, wparam: usize, lparam: isize) -> (r: Event)
    requires
        is_nc_button(msg),
        well_formed(msg, wparam),
    ensures
        r == Event::NoClient(
            NoClient::Mouse {
                button: button_of(msg, wparam),
                pos: points_of(lparam),
                status: status_of(msg),
                at: cursor_at_of(hit_code(wparam))->0,
            },
        ),
{
    let pos = lparam_to_points(lparam);
    let at = match hit_code_to_cursor_at(wparam) {
        Some(at) => at,
        None => CursorAt::NoWhere,
    };
    let button = mouse_button(msg, wparam);
    let status = button_status(msg);
    Event::NoClient(NoClient::Mouse { button, pos, status, at })
}

fn translate_nc_mouse_move_event(wparam: usize, lparam: isize) -> (r: Event)
    requires
        well_formed(WM_NCMOUSEMOVE, wparam),
    ensures
        r == Event::NoClient(
            NoClient::Move { pos: points_of(lparam), at: cursor_at_of(hit_code(wparam))->0 },
        ),
{
    let pos = lparam_to_points(lparam);
    let at = match hit_code_to_cursor_at(wparam) {
        Some(at) => at,
        None => CursorAt::NoWhere,
    };
    Event::NoClient(NoClient::Move { pos, at })
}

fn translate_key_event(msg: u32, w_param: usize, l_param: isize) -> (r: Event)
    ensures
        r == (Event::Key {
            key: key_of_code(w_param as i32),
            ex_key: l_param & KF_EXTENDED_BIT != 0,
            status: if msg == WM_KEYDOWN {
                KeyStatus::Down
            } else {
                KeyStatus::Up
            },
        }),
{
    let status = if msg == WM_KEYDOWN {
        KeyStatus::Down
    } else {
        KeyStatus::Up
    };
    let key = vk_to_key(w_param as i32);
    let ex_key = l_param & KF_EXTENDED_BIT != 0;
    Event::Key { key, ex_key, status }
}

fn translate_mouse_wheel_event(w_param: usize, l_param: isize) -> (r: Event)
    ensures
        r == (Event::Wheel {
            pos: pos_of(l_param),
            wheel: if (high_word(w_param) as i16) > 0 {
                Wheel::Up
            } else {
                Wheel::Down
            },
            modifier: modifier_of(w_param & 0xffff),
        }),
{
    let pos = l_param_to_pos(l_param);
    let modifier = w_param_to_mod_key(w_param & 0xffff);
    let wheel = if (((w_param >> 16) & 0xffff) as u16 as i16) > 0 {
        Wheel::Up
    } else {
        Wheel::Down
    };
    Event::Wheel { pos, wheel, modifier }
}

fn wparam_to_size_side(wparam: usize) -> (r: SizingSide)
    ensures
        r == sizing_side_of(wparam),
{
    match wparam {
        1 => SizingSide::Left,
        2 => SizingSide::Right,
        3 => SizingSide::Top,
        4 => SizingSide::TopLeft,
        5 => SizingSide::TopRight,
        6 => SizingSide::Bottom,
        7 => SizingSide::BottomLeft,
        8 => SizingSide::BottomRight,
        9 => SizingSide::MoveCauseExitMaximize,
        param => SizingSide::Unknown(param),
    }
}

fn translate_window_size(w_param: usize, l_param: isize) -> (r: Event)
    ensures
        r == Event::Window(
            WindowEvent::SizeChanged {
                width: low_half(l_param) as u32,
                height: high_half(l_param) as u32,
                type_: size_change_of(w_param),
            },
        ),
{
    let (width, height) = l_param_to_pos(l_param);
    let type_ = match w_param {
        0 => SizeChangeType::Restore,
        1 => SizeChangeType::Minimize,
        2 => SizeChangeType::Maximize,
        3 => SizeChangeType::MaxShow,
        4 => SizeChangeType::MaxHide,
        param => SizeChangeType::Unknown(param),
    };
    Event::Window(
        WindowEvent::SizeChanged { width: width as u32, height: height as u32, type_ },
    )
}

/// Decodes the raw message `(hwnd, msg, wparam, lparam)` into an event.
///
/// `pointee` is what the long parameter points to, read by the caller: the
/// limits of a min/max-info message and the rectangle of a sizing message.
/// Without it those two messages decode to `Event::Other`. Codes at or above
/// `WM_USER` decode to `WindowEvent::UserDef` counted from `WM_USER`; any
/// other code without a decoding of its own gives `Event::Other`.
pub fn translate(hwnd: &WindowHandle, msg: u32, wparam: usize, lparam: isize, pointee: Pointee) -> (r: Event)
    requires
        well_formed(msg, wparam),
    ensures
        r == decode(*hwnd, msg, wparam, lparam, pointee),
{
    match msg {
        WM_LBUTTONDOWN | WM_LBUTTONUP | WM_LBUTTONDBLCLK | WM_MBUTTONDOWN | WM_MBUTTONUP
        | WM_MBUTTONDBLCLK | WM_RBUTTONDOWN | WM_RBUTTONUP | WM_RBUTTONDBLCLK | WM_XBUTTONDOWN
        | WM_XBUTTONUP | WM_XBUTTONDBLCLK => translate_mouse_button(msg, wparam, lparam),
        WM_NCLBUTTONDOWN | WM_NCLBUTTONUP | WM_NCLBUTTONDBLCLK | WM_NCMBUTTONDOWN
        | WM_NCMBUTTONUP | WM_NCMBUTTONDBLCLK | WM_NCRBUTTONDOWN | WM_NCRBUTTONUP
        | WM_NCRBUTTONDBLCLK | WM_NCXBUTTONDOWN | WM_NCXBUTTONUP | WM_NCXBUTTONDBLCLK => {
            translate_nc_mouse_button(msg, wparam, lparam)
        },
        WM_KEYDOWN | WM_KEYUP => translate_key_event(msg, wparam, lparam),
        WM_MOUSEMOVE => {
            Event::Move { pos: l_param_to_pos(lparam), modifier: w_param_to_mod_key(wparam) }
        },
        WM_MOUSEWHEEL => translate_mouse_wheel_event(wparam, lparam),
        WM_CHAR => Event::Input { ch: wparam as u16 },
        WM_DESTROY => Event::Window(WindowEvent::Destroy),
        WM_CREATE => Event::Window(WindowEvent::Create),
        WM_NCMOUSELEAVE => Event::NoClient(NoClient::Leave),
        WM_NCCREATE => Event::NoClient(NoClient::Create),
        WM_CLOSE => Event::Window(WindowEvent::Close),
        WM_PAINT => Event::Paint { context: Context::from_raw(hwnd.handle) },
        WM_GETMINMAXINFO => match pointee {
            Pointee::MinMax(info) => Event::Window(WindowEvent::SizeRange(info)),
            _ => Event::Other { msg, wparam, lparam },
        },
        WM_SIZE => translate_window_size(wparam, lparam),
        WM_SIZING => match pointee {
            Pointee::Rect(ref_rect) => Event::Window(
                WindowEvent::SizeChanging { ref_rect, type_: wparam_to_size_side(wparam) },
            ),
            _ => Event::Other { msg, wparam, lparam },
        },
        WM_MOVE => Event::Window(WindowEvent::Move { pos: l_param_to_pos(lparam) }),
        WM_NCHITTEST => {
            let (x, y) = l_param_to_pos(lparam);
            Event::NoClient(NoClient::HitTest { x, y })
        },
        WM_NCMOUSEMOVE => translate_nc_mouse_move_event(wparam, lparam),
        WM_TIMER => Event::Timer { id: TimerId::new(wparam) },
        _ => {
            if msg >= WM_USER {
                Event::Window(WindowEvent::UserDef { msg: msg - WM_USER, wparam, lparam })
            } else {
                Event::Other { msg, wparam, lparam }
            }
        },
    }
}

/// Whether the platform's guarantees on the word parameter hold for this
/// message, so that `translate` may be called on it.
pub fn is_well_formed(msg: u32, wparam: usize) -> (r: bool)
    ensures
        r == well_formed(msg, wparam),
{
    let x_ok = if (WM_XBUTTONDOWN <= msg && msg <= WM_XBUTTONDBLCLK) || (WM_NCXBUTTONDOWN <= msg
        && msg <= WM_NCXBUTTONDBLCLK) {
        x_button(wparam).is_some()
    } else {
        true
    };
    let at_ok = if (WM_NCLBUTTONDOWN <= msg && msg <= WM_NCMBUTTONDBLCLK) || (WM_NCXBUTTONDOWN
        <= msg && msg <= WM_NCXBUTTONDBLCLK) || msg == WM_NCMOUSEMOVE {
        hit_code_to_cursor_at(wparam).is_some()
    } else {
        true
    };
    x_ok && at_ok
}

/// The place of a message in the life of a window's bound state.
#[derive(Debug, Clone, Copy, PartialEq, Eq, Structural)]
pub enum Lifecycle {
    /// The first message of a window: its bound state is attached.
    Create,
    /// The last message of a window: its bound state is freed.
    Destroy,
    /// Any other message.
    Other,
}

pub open spec fn lifecycle_of(msg: u32) -> Lifecycle {
    if msg == WM_NCCREATE {
        Lifecycle::Create
    } else if msg == WM_NCDESTROY {
        Lifecycle::Destroy
    } else {
        Lifecycle::Other
    }
}

/// Where `msg` stands in the life of the bound state.
pub fn lifecycle(msg: u32) -> (r: Lifecycle)
    ensures
        r == lifecycle_of(msg),
{
    if msg == WM_NCCREATE {
        Lifecycle::Create
    } else if msg == WM_NCDESTROY {
        Lifecycle::Destroy
    } else {
        Lifecycle::Other
    }
}

/// The value the window procedure returns for `result`: 0 for `Finish`, the
/// value of `Data`, and for `Default` the result of calling `fallback`, the
/// platform's default handling, once.
pub fn to_raw_return<F: FnOnce() -> isize>(result: Return, fallback: F) -> (r: isize)
    requires
        result is Default ==> fallback.requires(()),
    ensures
        result is Finish ==> r == 0,
        result is Data ==> r == result->Data_0,
        result is Default ==> fallback.ensures((), r),
{
    match result {
        Return::Finish => 0,
        Return::Default => fallback(),
        Return::Data(data) => data,
    }
}

/// Whether `answer` is what `handler` may give back when it is handed
/// `events` and an accessor showing `state`.
pub open spec fn handler_answered<'a, T: 'a, H: FnOnce(Events, The<'a, T>) -> (Event, Return)>(
    handler: H,
    events: Events,
    state: Option<T>,
    answer: (Event, Return),
) -> bool {
    exists|t: The<'a, T>| t.value() == state && #[trigger] handler.ensures((events, t), answer)
}

/// What a message handler receives: the window and the decoded message.
pub struct Events {
    pub window: WindowHandle,
    pub event: Event,
}

/// One pass of the window procedure over a raw message, for state of the
/// type whose identity is `requested`.
///
/// Fails with `TypeMismatch`, without calling `handler`, when `slot` (the
/// window's bound state, if any) was bound with another type. Otherwise
/// frees the bound value when `msg` is the window's last message, decodes the
/// message and hands it to `handler` with an accessor over the state as
/// `msg` leaves it. The handler answers with the event as it leaves it (its
/// changes to in/out fields included, for the caller to write back to the
/// platform) and its `Return`; that answer is returned unchanged.
pub fn dispatch_as<'a, T: 'static, H>(
    requested: TypeId,
    window: WindowHandle,
    msg: u32,
    wparam: usize,
    lparam: isize,
    pointee: Pointee,
    slot: Option<&'a mut WindowBindData<T>>,
    handler: H,
) -> (r: Result<(Event, Return), TypeMismatch>) where
    H: FnOnce(Events, The<'a, T>) -> (Event, Return),

    requires
        well_formed(msg, wparam),
        forall|e: Events, t: The<'a, T>| handler.requires((e, t)),
    ensures
        slot is None ==> r is Ok,
        slot is Some ==> (r is Ok <==> (*slot->0).tag() == requested),
        r is Err ==> r->Err_0 == (TypeMismatch { expected: requested, found: (*slot->0).tag() }),
        match slot {
            None => true,
            Some(s) => {
                &&& final(s).tag() == s.tag()
                &&& r is Err ==> final(s).payload() == s.payload()
                &&& r is Ok ==> (final(s).payload() is Some <==> payload_after(s.payload(), msg) is Some)
                &&& r is Ok && lifecycle_of(msg) == Lifecycle::Destroy ==> final(s).payload() is None
            },
        },
        r is Ok ==> handler_answered(
            handler,
            Events { window, event: decode(window, msg, wparam, lparam, pointee) },
            match slot {
                None => None,
                Some(s) => payload_after(s.payload(), msg),
            },
            r->Ok_0,
        ),
{
    let the = match cast_for_message(slot, requested, msg) {
        Ok(the) => the,
        Err(e) => return Err(e),
    };
    let ghost the_g = the;
    let events = Events { window, event: translate(&window, msg, wparam, lparam, pointee) };
    let answer = handler(events, the);
    proof {
        assert(the_g.value() == match slot {
            None => None,
            Some(s) => payload_after(s.payload(), msg),
        });
        assert(handler.ensures(
            (Events { window, event: decode(window, msg, wparam, lparam, pointee) }, the_g),
            answer,
        ));
    }
    Ok(answer)
}

/// One pass of the window procedure over a raw message, for state of type
/// `T`; see `dispatch_as`.
pub fn dispatch<'a, T: 'static, H>(
    window: WindowHandle,
    msg: u32,
    wparam: usize,
    lparam: isize,
    pointee: Pointee,
    slot: Option<&'a mut WindowBindData<T>>,
    handler: H,
) -> (r: Result<(Event, Return), TypeMismatch>) where
    H: FnOnce(Events, The<'a, T>) -> (Event, Return),

    requires
        well_formed(msg, wparam),
        forall|e: Events, t: The<'a, T>| handler.requires((e, t)),
    ensures
        slot is None ==> r is Ok,
        r is Err ==> slot is Some && r->Err_0.found == (*slot->0).tag(),
        match slot {
            None => true,
            Some(s) => {
                &&& final(s).tag() == s.tag()
                &&& r is Err ==> final(s).payload() == s.payload()
                &&& r is Ok ==> (final(s).payload() is Some <==> payload_after(s.payload(), msg) is Some)
                &&& r is Ok && lifecycle_of(msg) == Lifecycle::Destroy ==> final(s).payload() is None
            },
        },
        r is Ok ==> handler_answered(
            handler,
            Events { window, event: decode(window, msg, wparam, lparam, pointee) },
            match slot {
                None => None,
                Some(s) => payload_after(s.payload(), msg),
            },
            r->Ok_0,
        ),
{
    dispatch_as(type_id_of::<T>(), window, msg, wparam, lparam, pointee, slot, handler)
}

/// Whether `msg` has a decoding of its own, other than the
/// application-defined range.
pub open spec fn recognized(msg: u32) -> bool {
    is_client_button(msg) || is_nc_button(msg) || msg == WM_KEYDOWN || msg == WM_KEYUP || msg
        == WM_MOUSEMOVE || msg == WM_MOUSEWHEEL || msg == WM_CHAR || msg == WM_DESTROY || msg
        == WM_CREATE || msg == WM_NCMOUSELEAVE || msg == WM_NCCREATE || msg == WM_CLOSE || msg
        == WM_PAINT || msg == WM_GETMINMAXINFO || msg == WM_SIZE || msg == WM_SIZING || msg
        == WM_MOVE || msg == WM_NCHITTEST || msg == WM_NCMOUSEMOVE || msg == WM_TIMER
}

/// Every code of the platform's own range (below `WM_USER`) decodes to an
/// event: one of its own family when the code is recognized, and otherwise
/// `Event::Other` with the raw message unchanged. None is taken for an
/// application-defined message, and `translate` runs on each of them without
/// failing wherever the platform's guarantees on the word parameter hold.
pub proof fn lemma_system_codes_total(
    hwnd: WindowHandle,
    msg: u32,
    wparam: usize,
    lparam: isize,
    pointee: Pointee,
)
    requires
        msg < WM_USER,
    ensures
        !(decode(hwnd, msg, wparam, lparam, pointee) is Window && decode(
            hwnd,
            msg,
            wparam,
            lparam,
            pointee,
        )->Window_0 is UserDef),
        !recognized(msg) ==> decode(hwnd, msg, wparam, lparam, pointee) == (Event::Other {
            msg,
            wparam,
            lparam,
        }),
        decode(hwnd, msg, wparam, lparam, pointee) is Other ==> decode(
            hwnd,
            msg,
            wparam,
            lparam,
            pointee,
        ) == (Event::Other { msg, wparam, lparam }),
{
}

/// Codes at or above `WM_USER` decode to application-defined messages
/// counted from `WM_USER`, with the parameters unchanged.
pub proof fn lemma_user_codes(hwnd: WindowHandle, msg: u32, wparam: usize, lparam: isize, pointee: Pointee)
    requires
        msg >= WM_USER,
    ensures
        decode(hwnd, msg, wparam, lparam, pointee) == Event::Window(
            WindowEvent::UserDef { msg: (msg - WM_USER) as u32, wparam, lparam },
        ),
{
}


} // verus!
