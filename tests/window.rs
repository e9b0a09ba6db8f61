use ponsic_winsafe::class::{ClassStyle, Cursor, PreDefineClass, Registrar};
use ponsic_winsafe::color::Color as PackedColor;
use ponsic_winsafe::dialog::{
    dialog_result, Button as DialogButton, DefaultButton, Dialog, DialogOption, DialogResult,
    DialogType, Modal,
};
use ponsic_winsafe::draw::{Color, GenBrush, HatchStyle, Point, Rect, Size};
use ponsic_winsafe::error::{check_code, SystemError};
use ponsic_winsafe::handles::Timer;
use ponsic_winsafe::window::{Builder, PosSize, Window, WindowStyle, USER_DEF_BASE};
use ponsic_winsafe::WindowId;

#[test]
fn builder_styles_split_into_style_and_extended_style() {
    let class = Registrar::new("Test").registered();
    let b = class
        .make_window(Rect::from_pos_size(Point::from_xy(100, 100), Size::from_wh(800, 600)))
        .set_title("Test")
        .set_style(&[WindowStyle::OverlappedWindow, WindowStyle::Border, WindowStyle::TopMost]);
    assert_eq!(b.style(), 0x00CF_0000 | 0x0080_0000);
    assert_eq!(b.extra_styles(), 0x8);
    assert_eq!(b.pos_size(), PosSize { x: 100, y: 100, width: 800, height: 600 });
    assert_eq!(b.title(), "Test");
    assert_eq!(b.class_name(), "Test");
    assert_eq!(b.parent(), None);
    assert_eq!(b.bind_address(), 0);
}

#[test]
fn builder_defaults_and_parent() {
    let b = Builder::new("Cls", PosSize { x: 1, y: 2, width: 3, height: 4 });
    assert_eq!(b.title(), "Window");
    assert_eq!((b.style(), b.extra_styles()), (0, 0));
    let b = b.set_parent(WindowId::from_raw(9)).set_style(&[]).set_bind_address(0x40);
    assert_eq!(b.parent(), Some(WindowId::from_raw(9)));
    assert_eq!((b.style(), b.extra_styles()), (0, 0));
    assert_eq!(b.bind_address(), 0x40);
    let c = b.set_style(&[WindowStyle::Child, WindowStyle::PopupWindow, WindowStyle::PaletteWindow]);
    assert_eq!(c.style(), 0x4000_0000 | 0x8088_0000);
    assert_eq!(c.extra_styles(), 0x188);
}

#[test]
fn registrar_styles_and_cursor() {
    let r = Registrar::new("Test")
        .set_style(&[ClassStyle::AcceptDoubleClicks, ClassStyle::HorizontalRedraw])
        .set_cursor(Cursor::Hand);
    assert_eq!(r.style(), 0x8 | 0x2);
    assert_eq!(r.cursor(), Some(32649));
    assert_eq!(r.name(), "Test");
    assert_eq!(Registrar::new("x").cursor(), None);
    assert_eq!(Cursor::Pin.resource_id(), 32671);
    assert_eq!(PreDefineClass::button().name(), "BUTTON");
    assert_eq!(PreDefineClass::static_widget().name(), "STATIC");
}

#[test]
fn window_identity() {
    let w = Window::new(0x55);
    assert_eq!(w.handle().handle, 0x55);
    assert_eq!(w.id(), WindowId::from_raw(0x55));
    assert_eq!(USER_DEF_BASE, 0x0400);
    let t = Timer::new(0x55, 3);
    assert_eq!(t.id().uid, 3);
    assert_eq!(t.hwnd(), 0x55);
}

#[test]
fn dialog_flags_accumulate() {
    let d = Dialog::new(DialogType::Warning)
        .title("T")
        .message("M")
        .buttons(DialogButton::YesNo)
        .default_button(DefaultButton::SecondButton)
        .modal(Modal::Task)
        .set(DialogOption::TopMost);
    assert_eq!(d.utype(), 0x30 | 0x4 | 0x100 | 0x2000 | 0x40000);
    assert_eq!(d.title_text(), "T");
    assert_eq!(d.message_text(), "M");
    assert_eq!(d.owner(), 0);
    assert_eq!(d.lang_id(), 0);
    assert_eq!(dialog_result(1), Some(DialogResult::OkClicked));
    assert_eq!(dialog_result(11), Some(DialogResult::Continue));
    assert_eq!(dialog_result(8), None);
}

#[test]
fn error_codes() {
    assert_eq!(check_code(0, "ok"), Ok(()));
    assert_eq!(check_code(5, "Access is denied."), Err(SystemError::new(5, "Access is denied.")));
    let e = SystemError::new(5, "Access is denied.");
    assert_eq!((e.code, e.message.as_str()), (5, "Access is denied."));
}

#[test]
fn draw_rect_helpers() {
    let r = Rect::from_ps(10, 20, 30, 40);
    assert_eq!(r, Rect { left: 10, top: 20, right: 40, bottom: 60 });
    assert_eq!((r.x(), r.y(), r.width(), r.height()), (10, 20, 30, 40));
    assert_eq!(r.pos(), Point { x: 10, y: 20 });
    assert_eq!(r.size(), Size { width: 30, height: 40 });
    assert!(r.contains(Point::from_xy(10, 20)));
    assert!(!r.contains(Point::from_xy(40, 30)));
    assert_eq!(r.to_polygon()[2], Point::from_xy(40, 60));
    let line = r.to_polyline();
    assert_eq!(line[0], line[4]);
    assert_eq!(Point::from((1, 2)), Point::from_xy(1, 2));
    assert_eq!(Size::from((3, 4)), Size::from_wh(3, 4));
}

#[test]
fn colors_and_brushes() {
    assert_eq!(Color::default(), Color::from_rgb(0, 0, 0));
    assert_eq!(Color::from_gray(7), Color { red: 7, green: 7, blue: 7, alpha: 255 });
    assert_eq!(Color::from_rgb(0x11, 0x22, 0x33).to_colorref(), 0x0033_2211);
    assert_eq!(HatchStyle::Cross.to_sys_enum(), 4);
    let b = GenBrush::Hatch(Color::from_rgb(1, 2, 3), HatchStyle::Vertical);
    assert_eq!(b.sys_params(), (0x0003_0201, Some(1)));
    assert_eq!(GenBrush::Solid(Color::from_gray(255)).sys_params(), (0x00ff_ffff, None));
}

#[test]
fn packed_color_round_trip() {
    let c = PackedColor::new(0x12, 0x34, 0x56);
    assert_eq!((c.red, c.green, c.blue), (0x12, 0x34, 0x56));
    let v: u32 = c.into();
    assert_eq!(v, 0x1234_5600);
    let back = PackedColor::from(0x00AB_CDEFu32);
    assert_eq!((back.red, back.green, back.blue), (0, 0xAB, 0xCD));
}
