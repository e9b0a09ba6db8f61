use ponsic_winsafe::safe_proc::{
    WM_CHAR, WM_GETMINMAXINFO, WM_KEYDOWN, WM_KEYUP, WM_LBUTTONDOWN, WM_MOUSEMOVE, WM_MOUSEWHEEL,
    WM_NCCREATE, WM_NCDESTROY, WM_NCHITTEST, WM_NCLBUTTONDOWN, WM_NCMOUSEMOVE, WM_PAINT, WM_SIZE,
    WM_SIZING, WM_TIMER, WM_USER, WM_XBUTTONUP,
};
use ponsic_winsafe::{
    is_well_formed, lifecycle, translate, vk_to_key, Button, ButtonStatus, Context, CursorAt, Event,
    Key, KeyStatus, Lifecycle, MinMaxInfo, ModifierKey, NoClient, Pointee, RefRect, SizeChangeType,
    SizingSide, TimerId, Wheel, WindowEvent, WindowHandle,
};

fn packed(x: u16, y: u16) -> isize {
    (x as isize) | ((y as isize) << 16)
}

fn h() -> WindowHandle {
    WindowHandle::from_raw(0x1234)
}

#[test]
fn primary_button_down_decodes_to_mouse_event() {
    let e = translate(&h(), WM_LBUTTONDOWN, 0, packed(10, 20), Pointee::Nothing);
    assert_eq!(
        e,
        Event::Mouse {
            button: Button::Left,
            pos: (10, 20),
            status: ButtonStatus::Down,
            modifier: None,
        }
    );
}

#[test]
fn user_code_counts_from_user_base() {
    let e = translate(&h(), WM_USER + 5, 7, -3, Pointee::Nothing);
    assert_eq!(e, Event::Window(WindowEvent::UserDef { msg: 5, wparam: 7, lparam: -3 }));
    let sys = translate(&h(), 5, 7, -3, Pointee::Nothing);
    assert!(matches!(sys, Event::Window(WindowEvent::SizeChanged { .. })));
    assert_ne!(e, sys);
}

#[test]
fn unknown_system_code_is_other() {
    let e = translate(&h(), 0x0006, 1, 2, Pointee::Nothing);
    assert_eq!(e, Event::Other { msg: 6, wparam: 1, lparam: 2 });
}

#[test]
fn translate_twice_gives_equal_events() {
    for msg in [WM_LBUTTONDOWN, WM_KEYDOWN, WM_SIZE, WM_USER + 1, 0x0006] {
        let a = translate(&h(), msg, 0x41, packed(3, 4), Pointee::Nothing);
        let b = translate(&h(), msg, 0x41, packed(3, 4), Pointee::Nothing);
        assert_eq!(a, b);
    }
}

#[test]
fn positions_are_unsigned_halves() {
    let e = translate(&h(), WM_MOUSEMOVE, 0x0008, packed(0xffff, 0x8000), Pointee::Nothing);
    assert_eq!(e, Event::Move { pos: (65535, 32768), modifier: Some(ModifierKey::Ctrl) });
}

#[test]
fn key_events() {
    let down = translate(&h(), WM_KEYDOWN, 0x41, 0x0100_0001, Pointee::Nothing);
    assert_eq!(down, Event::Key { key: Key::A, ex_key: true, status: KeyStatus::Down });
    let up = translate(&h(), WM_KEYUP, 0xFF, 1, Pointee::Nothing);
    assert_eq!(up, Event::Key { key: Key::Unknown(0xFF), ex_key: false, status: KeyStatus::Up });
}

#[test]
fn key_table_entries() {
    assert_eq!(vk_to_key(0x30), Key::Num0);
    assert_eq!(vk_to_key(0x5A), Key::Z);
    assert_eq!(vk_to_key(0x7B), Key::F12);
    assert_eq!(vk_to_key(0x69), Key::NumPad9);
    assert_eq!(vk_to_key(0xBA), Key::Semicolon);
    assert_eq!(vk_to_key(0x28), Key::Down);
    assert_eq!(vk_to_key(0x05), Key::X1Button);
    assert_eq!(vk_to_key(0x7C), Key::Unknown(0x7C));
}

#[test]
fn key_compares_with_typed_characters() {
    assert!(Key::A == 'a');
    assert!(Key::A == 'A');
    assert!(Key::Num2 == '@');
    assert!(Key::NumPad2 == '2');
    assert!(!(Key::NumPad2 == '@'));
    assert!(Key::Enter == '\r');
    assert!(Key::Backspace == '\x08');
    assert!(!(Key::Esc == '\x1b'));
}

#[test]
fn wheel_direction_is_sign_of_high_word() {
    let up = translate(&h(), WM_MOUSEWHEEL, (120 << 16) | 0x0004, packed(1, 2), Pointee::Nothing);
    assert_eq!(
        up,
        Event::Wheel { pos: (1, 2), wheel: Wheel::Up, modifier: Some(ModifierKey::Shift) }
    );
    let down = translate(&h(), WM_MOUSEWHEEL, 0xFF88 << 16, packed(1, 2), Pointee::Nothing);
    assert_eq!(down, Event::Wheel { pos: (1, 2), wheel: Wheel::Down, modifier: None });
}

#[test]
fn extension_buttons() {
    let e = translate(&h(), WM_XBUTTONUP, (2 << 16) | 0x0040, packed(5, 6), Pointee::Nothing);
    assert_eq!(
        e,
        Event::Mouse {
            button: Button::X2,
            pos: (5, 6),
            status: ButtonStatus::Up,
            modifier: None,
        }
    );
    let held = translate(&h(), WM_LBUTTONDOWN, 0x0001, packed(5, 6), Pointee::Nothing);
    assert!(matches!(held, Event::Mouse { modifier: Some(ModifierKey::Mouse(Button::Left)), .. }));
    assert!(!is_well_formed(WM_XBUTTONUP, 3 << 16));
    assert!(is_well_formed(WM_XBUTTONUP, 1 << 16));
}

#[test]
fn non_client_messages() {
    let e = translate(&h(), WM_NCLBUTTONDOWN, 2, packed(0xfffe, 7), Pointee::Nothing);
    assert_eq!(
        e,
        Event::NoClient(NoClient::Mouse {
            button: Button::Left,
            pos: (-2, 7),
            status: ButtonStatus::Down,
            at: CursorAt::Caption,
        })
    );
    let m = translate(&h(), WM_NCMOUSEMOVE, 0xfffe, packed(1, 1), Pointee::Nothing);
    assert_eq!(m, Event::NoClient(NoClient::Move { pos: (1, 1), at: CursorAt::Error }));
    assert!(!is_well_formed(WM_NCMOUSEMOVE, 22));
    let obj = translate(&h(), WM_NCMOUSEMOVE, 19, packed(1, 1), Pointee::Nothing);
    assert_eq!(obj, Event::NoClient(NoClient::Move { pos: (1, 1), at: CursorAt::Object }));
    let hit = translate(&h(), WM_NCHITTEST, 0, packed(300, 400), Pointee::Nothing);
    assert_eq!(hit, Event::NoClient(NoClient::HitTest { x: 300, y: 400 }));
    assert_eq!(
        translate(&h(), WM_NCCREATE, 0, 0, Pointee::Nothing),
        Event::NoClient(NoClient::Create)
    );
}

#[test]
fn window_messages() {
    let size = translate(&h(), WM_SIZE, 2, packed(800, 600), Pointee::Nothing);
    assert_eq!(
        size,
        Event::Window(WindowEvent::SizeChanged {
            width: 800,
            height: 600,
            type_: SizeChangeType::Maximize,
        })
    );
    let info = MinMaxInfo {
        max_width: 1,
        max_height: 2,
        max_left: 3,
        max_top: 4,
        min_track_width: 5,
        min_track_height: 6,
        max_track_width: 7,
        max_track_height: 8,
    };
    let range = translate(&h(), WM_GETMINMAXINFO, 0, 99, Pointee::MinMax(info));
    assert_eq!(range, Event::Window(WindowEvent::SizeRange(info)));
    let missing = translate(&h(), WM_GETMINMAXINFO, 0, 0, Pointee::Nothing);
    assert_eq!(missing, Event::Other { msg: WM_GETMINMAXINFO, wparam: 0, lparam: 0 });
    let rr = RefRect { left: 1, top: 2, right: 3, bottom: 4 };
    let sizing = translate(&h(), WM_SIZING, 8, 99, Pointee::Rect(rr));
    assert_eq!(
        sizing,
        Event::Window(WindowEvent::SizeChanging { ref_rect: rr, type_: SizingSide::BottomRight })
    );
}

#[test]
fn paint_timer_and_input() {
    assert_eq!(
        translate(&h(), WM_PAINT, 0, 0, Pointee::Nothing),
        Event::Paint { context: Context::from_raw(0x1234) }
    );
    assert_eq!(
        translate(&h(), WM_TIMER, 9, 0, Pointee::Nothing),
        Event::Timer { id: TimerId::new(9) }
    );
    assert_eq!(translate(&h(), WM_CHAR, 0x1_0041, 0, Pointee::Nothing), Event::Input { ch: 0x41 });
}

#[test]
fn lifecycle_codes() {
    assert_eq!(lifecycle(WM_NCCREATE), Lifecycle::Create);
    assert_eq!(lifecycle(WM_NCDESTROY), Lifecycle::Destroy);
    assert_eq!(lifecycle(WM_SIZE), Lifecycle::Other);
}

#[test]
fn every_system_code_decodes() {
    for msg in 0..WM_USER {
        for wparam in [0usize, 1 << 16, 2 << 16, 0x41, 0xfffe] {
            if !is_well_formed(msg, wparam) {
                continue;
            }
            let e = translate(&h(), msg, wparam, packed(1, 2), Pointee::Nothing);
            assert!(!matches!(e, Event::Window(WindowEvent::UserDef { .. })));
            if let Event::Other { msg: m, wparam: w, lparam: l } = e {
                assert_eq!((m, w, l), (msg, wparam, packed(1, 2)));
            }
        }
    }
}
