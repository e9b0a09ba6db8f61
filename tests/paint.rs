use ponsic_winsafe::color::Color;
use ponsic_winsafe::paint::{
    text_format_of, BackMode, CapStyle, CharSet, DrawTextMode, FontFamily, FontWeight, GenFont,
    GenPen, JoinStyle, LineStyle, PenStyle, Pitch, Quality,
};

#[test]
fn pen_params_combine_styles() {
    let pen = GenPen::new()
        .set_cap_style(CapStyle::Square)
        .set_join_style(JoinStyle::Bevel)
        .set_line_style(LineStyle::Dash)
        .set_width(3)
        .set_color(Color::new(1, 2, 3));
    let p = pen.params();
    assert_eq!(p.style, 0x0001_0000 | 1 | 0x1000 | 0x100);
    assert_eq!(p.width, 3);
    assert_eq!(p.brush_style, 0);
    assert_eq!(p.color, 0x0102_0300);
    assert_eq!(p.pattern, None);
}

#[test]
fn default_pen_has_width_one_and_user_pattern_passes_through() {
    let p = GenPen::new().params();
    assert_eq!(p.style, 0x0001_0000 | 0x2000 | 0x200);
    assert_eq!(p.width, 1);
    let dashes = [4u32, 2];
    let q = GenPen::new().set_line_style(LineStyle::UserDef(&dashes)).set_pen_style(PenStyle::Hollow).params();
    assert_eq!(q.pattern, Some(&dashes[..]));
    assert_eq!(q.brush_style, 1);
}

#[test]
fn text_modes_are_or_ed() {
    let f = text_format_of(&[DrawTextMode::Center, DrawTextMode::VCenter, DrawTextMode::SingleLine]);
    assert_eq!(f, 0x1 | 0x4 | 0x20);
    assert_eq!(text_format_of(&[]), 0);
    assert_eq!(DrawTextMode::WordEllipsis.code(), 0x40000);
}

#[test]
fn font_defaults_and_codes() {
    let f = GenFont::new();
    assert_eq!(f.weight, FontWeight::Normal);
    assert_eq!(f.charset, CharSet::Default);
    assert_eq!(f.pitch_and_family(), 0);
    let g = f.set_weight(FontWeight::Bold).set_pitch(Pitch::Fixed).set_family(FontFamily::Swiss).set_italic(true);
    assert_eq!(g.weight.code(), 700);
    assert_eq!(g.pitch_and_family(), 0x21);
    assert!(g.italic);
    assert_eq!(Quality::Cleartype.code(), 5);
    assert_eq!(CharSet::Oem.code(), 255);
    assert_eq!(BackMode::Transparent.code(), 1);
    assert_eq!(FontWeight::default(), FontWeight::Normal);
}
