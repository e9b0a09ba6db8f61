//! Descriptions of pens, fonts and text layout, and the platform codes
//! they are created with.
use crate::color::{packed_color, Color};
use vstd::prelude::*;

verus! {

/// The dash pattern of a line.
#[derive(Debug, Copy, Clone, Ord, PartialOrd, Eq, PartialEq, Hash)]
pub enum LineStyle<'a> {
    Solid,
    Dash,
    Dot,
    DashDot,
    DashDotDot,
    Null,
    /// A pattern of alternating dash and gap lengths.
    UserDef(&'a [u32]),
}

/// The platform's code of a line style.
pub open spec fn line_code(v: LineStyle) -> u32 {
    match v {
        LineStyle::Solid => 0,
        LineStyle::Dash => 1,
        LineStyle::Dot => 2,
        LineStyle::DashDot => 3,
        LineStyle::DashDotDot => 4,
        LineStyle::Null => 5,
        LineStyle::UserDef(_) => 0,
    }
}

impl<'a> LineStyle<'a> {
    /// The platform's code of this line style.
    pub fn code(&self) -> (r: u32)
        ensures
            r == line_code(*self),
    {
        match self {
            LineStyle::Solid => 0,
            LineStyle::Dash => 1,
            LineStyle::Dot => 2,
            LineStyle::DashDot => 3,
            LineStyle::DashDotDot => 4,
            LineStyle::Null => 5,
            LineStyle::UserDef(_) => 0,
        }
    }
}

impl<'a> Default for LineStyle<'a> {
    fn default() -> (r: Self)
        ensures
            r == LineStyle::<'a>::Solid,
    {
        LineStyle::Solid
    }
}

/// How the segments of a wide line are joined.
#[derive(Debug, Clone, Copy, PartialEq, Eq, PartialOrd, Ord, Hash)]
pub enum JoinStyle {
    Bevel,
    Miter,
    Round,
}

/// The platform's code of a `JoinStyle`.
pub open spec fn join_code(v: JoinStyle) -> u32 {
    match v {
        JoinStyle::Bevel => 0x1000,
        JoinStyle::Miter => 0x2000,
        JoinStyle::Round => 0,
    }
}

impl JoinStyle {
    /// The platform's code of this value.
    pub fn code(self) -> (r: u32)
        ensures
            r == join_code(self),
    {
        match self {
            JoinStyle::Bevel => 0x1000,
            JoinStyle::Miter => 0x2000,
            JoinStyle::Round => 0,
        }
    }
}

impl Default for JoinStyle {
    fn default() -> (r: Self)
        ensures
            r == JoinStyle::Miter,
    {
        JoinStyle::Miter
    }
}

/// How the ends of a wide line are drawn.
#[derive(Debug, Clone, Copy, PartialEq, Eq, PartialOrd, Ord, Hash)]
pub enum CapStyle {
    Round,
    Square,
    Flat,
}

/// The platform's code of a `CapStyle`.
pub open spec fn cap_code(v: CapStyle) -> u32 {
    match v {
        CapStyle::Round => 0,
        CapStyle::Square => 0x100,
        CapStyle::Flat => 0x200,
    }
}

impl CapStyle {
    /// The platform's code of this value.
    pub fn code(self) -> (r: u32)
        ensures
            r == cap_code(self),
    {
        match self {
            CapStyle::Round => 0,
            CapStyle::Square => 0x100,
            CapStyle::Flat => 0x200,
        }
    }
}

impl Default for CapStyle {
    fn default() -> (r: Self)
        ensures
            r == CapStyle::Flat,
    {
        CapStyle::Flat
    }
}

/// The brush style a pen paints its line with.
#[derive(Debug, Clone, Copy, PartialEq, Eq, PartialOrd, Ord, Hash)]
pub enum PenStyle {
    Null,
    Solid,
    Hollow,
}

/// The platform's code of a `PenStyle`.
pub open spec fn pen_brush_code(v: PenStyle) -> u32 {
    match v {
        PenStyle::Null => 1,
        PenStyle::Solid => 0,
        PenStyle::Hollow => 1,
    }
}

impl PenStyle {
    /// The platform's code of this value.
    pub fn code(self) -> (r: u32)
        ensures
            r == pen_brush_code(self),
    {
        match self {
            PenStyle::Null => 1,
            PenStyle::Solid => 0,
            PenStyle::Hollow => 1,
        }
    }
}

impl Default for PenStyle {
    fn default() -> (r: Self)
        ensures
            r == PenStyle::Solid,
    {
        PenStyle::Solid
    }
}

/// A text layout flag.
#[derive(Debug, Clone, Copy, PartialEq, Eq, PartialOrd, Ord, Hash)]
pub enum DrawTextMode {
    Bottom,
    CalcRect,
    Center,
    EditControl,
    EndEllipsis,
    ExpandTabs,
    ExternalLeading,
    HidePrefix,
    Internal,
    Left,
    NoCilp,
    NoFullWidthCharBreak,
    NoPrefix,
    PathEllipsis,
    PrefixOnly,
    Right,
    RtlReading,
    SingleLine,
    TabStop,
    Top,
    VCenter,
    WordBreak,
    WordEllipsis,
}

/// The platform's code of a `DrawTextMode`.
pub open spec fn text_mode_code(v: DrawTextMode) -> u32 {
    match v {
        DrawTextMode::Bottom => 8,
        DrawTextMode::CalcRect => 0x400,
        DrawTextMode::Center => 1,
        DrawTextMode::EditControl => 0x2000,
        DrawTextMode::EndEllipsis => 0x8000,
        DrawTextMode::ExpandTabs => 0x40,
        DrawTextMode::ExternalLeading => 0x200,
        DrawTextMode::HidePrefix => 0x100000,
        DrawTextMode::Internal => 0x1000,
        DrawTextMode::Left => 0,
        DrawTextMode::NoCilp => 0x100,
        DrawTextMode::NoFullWidthCharBreak => 0x80000,
        DrawTextMode::NoPrefix => 0x800,
        DrawTextMode::PathEllipsis => 0x4000,
        DrawTextMode::PrefixOnly => 0x200000,
        DrawTextMode::Right => 2,
        DrawTextMode::RtlReading => 0x20000,
        DrawTextMode::SingleLine => 0x20,
        DrawTextMode::TabStop => 0x80,
        DrawTextMode::Top => 0,
        DrawTextMode::VCenter => 4,
        DrawTextMode::WordBreak => 0x10,
        DrawTextMode::WordEllipsis => 0x40000,
    }
}

impl DrawTextMode {
    /// The platform's code of this value.
    pub fn code(self) -> (r: u32)
        ensures
            r == text_mode_code(self),
    {
        match self {
            DrawTextMode::Bottom => 8,
            DrawTextMode::CalcRect => 0x400,
            DrawTextMode::Center => 1,
            DrawTextMode::EditControl => 0x2000,
            DrawTextMode::EndEllipsis => 0x8000,
            DrawTextMode::ExpandTabs => 0x40,
            DrawTextMode::ExternalLeading => 0x200,
            DrawTextMode::HidePrefix => 0x100000,
            DrawTextMode::Internal => 0x1000,
            DrawTextMode::Left => 0,
            DrawTextMode::NoCilp => 0x100,
            DrawTextMode::NoFullWidthCharBreak => 0x80000,
            DrawTextMode::NoPrefix => 0x800,
            DrawTextMode::PathEllipsis => 0x4000,
            DrawTextMode::PrefixOnly => 0x200000,
            DrawTextMode::Right => 2,
            DrawTextMode::RtlReading => 0x20000,
            DrawTextMode::SingleLine => 0x20,
            DrawTextMode::TabStop => 0x80,
            DrawTextMode::Top => 0,
            DrawTextMode::VCenter => 4,
            DrawTextMode::WordBreak => 0x10,
            DrawTextMode::WordEllipsis => 0x40000,
        }
    }
}

/// The weight of a font.
#[derive(Debug, Clone, Copy, PartialEq, Eq, PartialOrd, Ord, Hash)]
pub enum FontWeight {
    Dontcare,
    Thin,
    ExtraLight,
    Light,
    Normal,
    Medium,
    SemiBold,
    Bold,
    ExtraBold,
    Heavy,
}

/// The platform's code of a `FontWeight`.
pub open spec fn weight_code(v: FontWeight) -> u32 {
    match v {
        FontWeight::Dontcare => 0,
        FontWeight::Thin => 0x64,
        FontWeight::ExtraLight => 0xC8,
        FontWeight::Light => 0x12C,
        FontWeight::Normal => 0x190,
        FontWeight::Medium => 0x1F4,
        FontWeight::SemiBold => 0x258,
        FontWeight::Bold => 0x2BC,
        FontWeight::ExtraBold => 0x320,
        FontWeight::Heavy => 0x384,
    }
}

impl FontWeight {
    /// The platform's code of this value.
    pub fn code(self) -> (r: u32)
        ensures
            r == weight_code(self),
    {
        match self {
            FontWeight::Dontcare => 0,
            FontWeight::Thin => 0x64,
            FontWeight::ExtraLight => 0xC8,
            FontWeight::Light => 0x12C,
            FontWeight::Normal => 0x190,
            FontWeight::Medium => 0x1F4,
            FontWeight::SemiBold => 0x258,
            FontWeight::Bold => 0x2BC,
            FontWeight::ExtraBold => 0x320,
            FontWeight::Heavy => 0x384,
        }
    }
}

impl Default for FontWeight {
    fn default() -> (r: Self)
        ensures
            r == FontWeight::Normal,
    {
        FontWeight::Normal
    }
}

/// The character set of a font.
#[derive(Debug, Clone, Copy, PartialEq, Eq, PartialOrd, Ord, Hash)]
pub enum CharSet {
    Ansi,
    Baltic,
    ChineseBig5,
    Default,
    Easteurope,
    Gb2312,
    Greek,
    Hangul,
    Mac,
    Oem,
    Russian,
    Shiftjis,
    Symbol,
    Turkish,
    Vietnamese,
    Johab,
    Arabic,
    Hebrew,
    Thai,
}

/// The platform's code of a `CharSet`.
pub open spec fn charset_code(v: CharSet) -> u32 {
    match v {
        CharSet::Ansi => 0,
        CharSet::Baltic => 0xBA,
        CharSet::ChineseBig5 => 0x88,
        CharSet::Default => 1,
        CharSet::Easteurope => 0xEE,
        CharSet::Gb2312 => 0x86,
        CharSet::Greek => 0xA1,
        CharSet::Hangul => 0x81,
        CharSet::Mac => 0x4D,
        CharSet::Oem => 0xFF,
        CharSet::Russian => 0xCC,
        CharSet::Shiftjis => 0x80,
        CharSet::Symbol => 2,
        CharSet::Turkish => 0xA2,
        CharSet::Vietnamese => 0xA3,
        CharSet::Johab => 0x82,
        CharSet::Arabic => 0xB2,
        CharSet::Hebrew => 0xB1,
        CharSet::Thai => 0xDE,
    }
}

impl CharSet {
    /// The platform's code of this value.
    pub fn code(self) -> (r: u32)
        ensures
            r == charset_code(self),
    {
        match self {
            CharSet::Ansi => 0,
            CharSet::Baltic => 0xBA,
            CharSet::ChineseBig5 => 0x88,
            CharSet::Default => 1,
            CharSet::Easteurope => 0xEE,
            CharSet::Gb2312 => 0x86,
            CharSet::Greek => 0xA1,
            CharSet::Hangul => 0x81,
            CharSet::Mac => 0x4D,
            CharSet::Oem => 0xFF,
            CharSet::Russian => 0xCC,
            CharSet::Shiftjis => 0x80,
            CharSet::Symbol => 2,
            CharSet::Turkish => 0xA2,
            CharSet::Vietnamese => 0xA3,
            CharSet::Johab => 0x82,
            CharSet::Arabic => 0xB2,
            CharSet::Hebrew => 0xB1,
            CharSet::Thai => 0xDE,
        }
    }
}

impl Default for CharSet {
    fn default() -> (r: Self)
        ensures
            r == CharSet::Default,
    {
        CharSet::Default
    }
}

/// How closely the chosen font must match.
#[derive(Debug, Clone, Copy, PartialEq, Eq, PartialOrd, Ord, Hash)]
pub enum OutPrecision {
    Character,
    Default,
    Device,
    Outline,
    PostScriptOnly,
    Raster,
    String,
    Stroke,
    TrueTypeOnly,
    TrueType,
}

/// The platform's code of a `OutPrecision`.
pub open spec fn out_precision_code(v: OutPrecision) -> u32 {
    match v {
        OutPrecision::Character => 2,
        OutPrecision::Default => 0,
        OutPrecision::Device => 5,
        OutPrecision::Outline => 8,
        OutPrecision::PostScriptOnly => 0xA,
        OutPrecision::Raster => 6,
        OutPrecision::String => 1,
        OutPrecision::Stroke => 3,
        OutPrecision::TrueTypeOnly => 7,
        OutPrecision::TrueType => 4,
    }
}

impl OutPrecision {
    /// The platform's code of this value.
    pub fn code(self) -> (r: u32)
        ensures
            r == out_precision_code(self),
    {
        match self {
            OutPrecision::Character => 2,
            OutPrecision::Default => 0,
            OutPrecision::Device => 5,
            OutPrecision::Outline => 8,
            OutPrecision::PostScriptOnly => 0xA,
            OutPrecision::Raster => 6,
            OutPrecision::String => 1,
            OutPrecision::Stroke => 3,
            OutPrecision::TrueTypeOnly => 7,
            OutPrecision::TrueType => 4,
        }
    }
}

impl Default for OutPrecision {
    fn default() -> (r: Self)
        ensures
            r == OutPrecision::Default,
    {
        OutPrecision::Default
    }
}

/// How characters partly outside the clip region are clipped.
#[derive(Debug, Clone, Copy, PartialEq, Eq, PartialOrd, Ord, Hash)]
pub enum ClipPrecision {
    Character,
    Default,
    DfaDisable,
    Embedded,
    LhAngles,
    Mask,
    Stroke,
    TtAlways,
}

/// The platform's code of a `ClipPrecision`.
pub open spec fn clip_precision_code(v: ClipPrecision) -> u32 {
    match v {
        ClipPrecision::Character => 1,
        ClipPrecision::Default => 0,
        ClipPrecision::DfaDisable => 0x40,
        ClipPrecision::Embedded => 0x80,
        ClipPrecision::LhAngles => 0x10,
        ClipPrecision::Mask => 0xF,
        ClipPrecision::Stroke => 2,
        ClipPrecision::TtAlways => 0x20,
    }
}

impl ClipPrecision {
    /// The platform's code of this value.
    pub fn code(self) -> (r: u32)
        ensures
            r == clip_precision_code(self),
    {
        match self {
            ClipPrecision::Character => 1,
            ClipPrecision::Default => 0,
            ClipPrecision::DfaDisable => 0x40,
            ClipPrecision::Embedded => 0x80,
            ClipPrecision::LhAngles => 0x10,
            ClipPrecision::Mask => 0xF,
            ClipPrecision::Stroke => 2,
            ClipPrecision::TtAlways => 0x20,
        }
    }
}

impl Default for ClipPrecision {
    fn default() -> (r: Self)
        ensures
            r == ClipPrecision::Default,
    {
        ClipPrecision::Default
    }
}

/// The output quality of a font.
#[derive(Debug, Clone, Copy, PartialEq, Eq, PartialOrd, Ord, Hash)]
pub enum Quality {
    Antialiased,
    Cleartype,
    Default,
    Draft,
    NonAntialiased,
    Proof,
}

/// The platform's code of a `Quality`.
pub open spec fn quality_code(v: Quality) -> u32 {
    match v {
        Quality::Antialiased => 4,
        Quality::Cleartype => 5,
        Quality::Default => 0,
        Quality::Draft => 1,
        Quality::NonAntialiased => 3,
        Quality::Proof => 2,
    }
}

impl Quality {
    /// The platform's code of this value.
    pub fn code(self) -> (r: u32)
        ensures
            r == quality_code(self),
    {
        match self {
            Quality::Antialiased => 4,
            Quality::Cleartype => 5,
            Quality::Default => 0,
            Quality::Draft => 1,
            Quality::NonAntialiased => 3,
            Quality::Proof => 2,
        }
    }
}

impl Default for Quality {
    fn default() -> (r: Self)
        ensures
            r == Quality::Default,
    {
        Quality::Default
    }
}

/// The pitch of a font.
#[derive(Debug, Clone, Copy, PartialEq, Eq, PartialOrd, Ord, Hash)]
pub enum Pitch {
    Default,
    Fixed,
    Variable,
}

/// The platform's code of a `Pitch`.
pub open spec fn pitch_code(v: Pitch) -> u32 {
    match v {
        Pitch::Default => 0,
        Pitch::Fixed => 1,
        Pitch::Variable => 2,
    }
}

impl Pitch {
    /// The platform's code of this value.
    pub fn code(self) -> (r: u32)
        ensures
            r == pitch_code(self),
    {
        match self {
            Pitch::Default => 0,
            Pitch::Fixed => 1,
            Pitch::Variable => 2,
        }
    }
}

impl Default for Pitch {
    fn default() -> (r: Self)
        ensures
            r == Pitch::Default,
    {
        Pitch::Default
    }
}

/// The family of a font.
#[derive(Debug, Clone, Copy, PartialEq, Eq, PartialOrd, Ord, Hash)]
pub enum FontFamily {
    Decorative,
    Dontcare,
    Modern,
    Roman,
    Script,
    Swiss,
}

/// The platform's code of a `FontFamily`.
pub open spec fn family_code(v: FontFamily) -> u32 {
    match v {
        FontFamily::Decorative => 0x50,
        FontFamily::Dontcare => 0,
        FontFamily::Modern => 0x30,
        FontFamily::Roman => 0x10,
        FontFamily::Script => 0x40,
        FontFamily::Swiss => 0x20,
    }
}

impl FontFamily {
    /// The platform's code of this value.
    pub fn code(self) -> (r: u32)
        ensures
            r == family_code(self),
    {
        match self {
            FontFamily::Decorative => 0x50,
            FontFamily::Dontcare => 0,
            FontFamily::Modern => 0x30,
            FontFamily::Roman => 0x10,
            FontFamily::Script => 0x40,
            FontFamily::Swiss => 0x20,
        }
    }
}

impl Default for FontFamily {
    fn default() -> (r: Self)
        ensures
            r == FontFamily::Dontcare,
    {
        FontFamily::Dontcare
    }
}

/// Whether text and hatch backgrounds are filled.
#[derive(Debug, Clone, Copy, PartialEq, Eq, PartialOrd, Ord, Hash)]
pub enum BackMode {
    Transparent,
    Opaque,
}

/// The platform's code of a `BackMode`.
pub open spec fn back_mode_code(v: BackMode) -> u32 {
    match v {
        BackMode::Transparent => 1,
        BackMode::Opaque => 2,
    }
}

impl BackMode {
    /// The platform's code of this value.
    pub fn code(self) -> (r: u32)
        ensures
            r == back_mode_code(self),
    {
        match self {
            BackMode::Transparent => 1,
            BackMode::Opaque => 2,
        }
    }
}

/// The platform's flag for a geometric pen.
pub const PS_GEOMETRIC: u32 = 0x0001_0000;

/// What creating a pen passes to the platform.
#[derive(Debug, Clone, Copy, PartialEq, Eq)]
pub struct PenParams<'a> {
    /// Geometric flag, line style, join style and cap style together.
    pub style: u32,
    /// The width, at least 1.
    pub width: u32,
    /// The brush style the line is painted with.
    pub brush_style: u32,
    /// The packed color of the line.
    pub color: u32,
    /// The user-defined dash pattern, if any.
    pub pattern: Option<&'a [u32]>,
}

/// The description of a pen to create.
#[derive(Debug, Clone)]
pub struct GenPen<'a> {
    pub line_style: LineStyle<'a>,
    pub join_style: JoinStyle,
    pub cap_style: CapStyle,
    pub pen_style: PenStyle,
    pub width: usize,
    pub color: Color,
}

/// The pen width handed to the platform: at least 1, truncated to 32 bits.
pub open spec fn pen_width(width: usize) -> u32 {
    if width < 1 {
        1
    } else {
        width as u32
    }
}

impl<'a> GenPen<'a> {
    /// A solid, flat-capped, mitered black pen of width 0 (drawn as 1).
    pub fn new() -> (r: Self)
        ensures
            r.line_style == LineStyle::<'a>::Solid,
            r.join_style == JoinStyle::Miter,
            r.cap_style == CapStyle::Flat,
            r.pen_style == PenStyle::Solid,
            r.width == 0,
            r.color@ == Color::new_spec(0, 0, 0),
    {
        GenPen {
            line_style: LineStyle::Solid,
            join_style: JoinStyle::Miter,
            cap_style: CapStyle::Flat,
            pen_style: PenStyle::Solid,
            width: 0,
            color: Color::new(0, 0, 0),
        }
    }

    pub fn set_line_style(self, line_style: LineStyle<'a>) -> (r: Self)
        ensures
            r == (GenPen { line_style, ..self }),
    {
        GenPen { line_style, ..self }
    }

    pub fn set_cap_style(self, cap_style: CapStyle) -> (r: Self)
        ensures
            r == (GenPen { cap_style, ..self }),
    {
        GenPen { cap_style, ..self }
    }

    pub fn set_join_style(self, join_style: JoinStyle) -> (r: Self)
        ensures
            r == (GenPen { join_style, ..self }),
    {
        GenPen { join_style, ..self }
    }

    pub fn set_pen_style(self, pen_style: PenStyle) -> (r: Self)
        ensures
            r == (GenPen { pen_style, ..self }),
    {
        GenPen { pen_style, ..self }
    }

    pub fn set_width(self, width: usize) -> (r: Self)
        ensures
            r == (GenPen { width, ..self }),
    {
        GenPen { width, ..self }
    }

    pub fn set_color(self, color: Color) -> (r: Self)
        ensures
            r == (GenPen { color, ..self }),
    {
        GenPen { color, ..self }
    }

    /// What creating this pen passes to the platform.
    pub fn params(&self) -> (r: PenParams<'a>)
        ensures
            r.style == PS_GEOMETRIC | line_code(self.line_style) | join_code(self.join_style)
                | cap_code(self.cap_style),
            r.width == pen_width(self.width),
            r.brush_style == pen_brush_code(self.pen_style),
            r.color == packed_color(self.color@.reserved, self.color@.blue, self.color@.green, self.color@.red),
            r.pattern == match self.line_style {
                LineStyle::UserDef(p) => Some(p),
                _ => None::<&'a [u32]>,
            },
    {
        let pattern = match self.line_style {
            LineStyle::UserDef(p) => Some(p),
            _ => None,
        };
        PenParams {
            style: PS_GEOMETRIC | self.line_style.code() | self.join_style.code()
                | self.cap_style.code(),
            width: if self.width < 1 {
                1
            } else {
                self.width as u32
            },
            brush_style: self.pen_style.code(),
            color: self.color.to_u32(),
            pattern,
        }
    }
}

/// The layout flags of `modes` together.
pub open spec fn text_format(modes: Seq<DrawTextMode>) -> u32
    decreases modes.len(),
{
    if modes.len() == 0 {
        0
    } else {
        text_format(modes.drop_last()) | text_mode_code(modes.last())
    }
}

/// The layout flags of `modes` together, as drawing text passes them.
pub fn text_format_of(modes: &[DrawTextMode]) -> (r: u32)
    ensures
        r == text_format(modes@),
{
    let mut format: u32 = 0;
    let mut i: usize = 0;
    while i < modes.len()
        invariant
            0 <= i <= modes@.len(),
            format == text_format(modes@.take(i as int)),
        decreases modes.len() - i,
    {
        proof {
            assert(modes@.take(i + 1).drop_last() =~= modes@.take(i as int));
        }
        format = format | modes[i].code();
        i = i + 1;
    }
    proof {
        assert(modes@.take(i as int) =~= modes@);
    }
    format
}

/// The description of a font to create.
#[derive(Debug, Clone, PartialEq, Eq, PartialOrd, Ord, Hash)]
pub struct GenFont {
    pub height: i32,
    pub widht: i32,
    pub escapement: i32,
    pub orientation: i32,
    pub weight: FontWeight,
    pub italic: bool,
    pub underline: bool,
    pub strikeout: bool,
    pub charset: CharSet,
    pub outprecision: OutPrecision,
    pub clipprecision: ClipPrecision,
    pub quality: Quality,
    pub pitch: Pitch,
    pub family: FontFamily,
    pub name: String,
}

impl GenFont {
    /// A font of default size, weight, character set, precision, quality,
    /// pitch and family, upright and plain, with an empty face name.
    pub fn new() -> (r: Self)
        ensures
            r.height == 0 && r.widht == 0 && r.escapement == 0 && r.orientation == 0,
            r.weight == FontWeight::Normal,
            !r.italic && !r.underline && !r.strikeout,
            r.charset == CharSet::Default,
            r.outprecision == OutPrecision::Default,
            r.clipprecision == ClipPrecision::Default,
            r.quality == Quality::Default,
            r.pitch == Pitch::Default,
            r.family == FontFamily::Dontcare,
            r.name@ == Seq::<char>::empty(),
    {
        Self {
            height: 0,
            widht: 0,
            escapement: 0,
            orientation: 0,
            weight: FontWeight::Normal,
            italic: false,
            underline: false,
            strikeout: false,
            charset: CharSet::Default,
            outprecision: OutPrecision::Default,
            clipprecision: ClipPrecision::Default,
            quality: Quality::Default,
            pitch: Pitch::Default,
            family: FontFamily::Dontcare,
            name: String::new(),
        }
    }

    pub fn set_height(self, height: i32) -> (r: Self)
        ensures
            r == (GenFont { height: height, ..self }),
    {
        GenFont { height: height, ..self }
    }

    pub fn set_width(self, width: i32) -> (r: Self)
        ensures
            r == (GenFont { widht: width, ..self }),
    {
        GenFont { widht: width, ..self }
    }

    pub fn set_escapement(self, escapement: i32) -> (r: Self)
        ensures
            r == (GenFont { escapement: escapement, ..self }),
    {
        GenFont { escapement: escapement, ..self }
    }

    pub fn set_orientation(self, orientation: i32) -> (r: Self)
        ensures
            r == (GenFont { orientation: orientation, ..self }),
    {
        GenFont { orientation: orientation, ..self }
    }

    pub fn set_weight(self, weight: FontWeight) -> (r: Self)
        ensures
            r == (GenFont { weight: weight, ..self }),
    {
        GenFont { weight: weight, ..self }
    }

    pub fn set_italic(self, italic: bool) -> (r: Self)
        ensures
            r == (GenFont { italic: italic, ..self }),
    {
        GenFont { italic: italic, ..self }
    }

    pub fn set_underline(self, underline: bool) -> (r: Self)
        ensures
            r == (GenFont { underline: underline, ..self }),
    {
        GenFont { underline: underline, ..self }
    }

    pub fn set_strikeout(self, strikeout: bool) -> (r: Self)
        ensures
            r == (GenFont { strikeout: strikeout, ..self }),
    {
        GenFont { strikeout: strikeout, ..self }
    }

    pub fn set_charset(self, charset: CharSet) -> (r: Self)
        ensures
            r == (GenFont { charset: charset, ..self }),
    {
        GenFont { charset: charset, ..self }
    }

    pub fn set_outprecision(self, outprecision: OutPrecision) -> (r: Self)
        ensures
            r == (GenFont { outprecision: outprecision, ..self }),
    {
        GenFont { outprecision: outprecision, ..self }
    }

    pub fn set_clipprecision(self, clipprecision: ClipPrecision) -> (r: Self)
        ensures
            r == (GenFont { clipprecision: clipprecision, ..self }),
    {
        GenFont { clipprecision: clipprecision, ..self }
    }

    pub fn set_quality(self, quality: Quality) -> (r: Self)
        ensures
            r == (GenFont { quality: quality, ..self }),
    {
        GenFont { quality: quality, ..self }
    }

    pub fn set_pitch(self, pitch: Pitch) -> (r: Self)
        ensures
            r == (GenFont { pitch: pitch, ..self }),
    {
        GenFont { pitch: pitch, ..self }
    }

    pub fn set_family(self, family: FontFamily) -> (r: Self)
        ensures
            r == (GenFont { family: family, ..self }),
    {
        GenFont { family: family, ..self }
    }

    pub fn set_name(self, name: String) -> (r: Self)
        ensures
            r == (GenFont { name, ..self }),
    {
        GenFont { name, ..self }
    }

    /// The pitch and family of the font in one code, as creating it passes them.
    pub fn pitch_and_family(&self) -> (r: u32)
        ensures
            r == pitch_code(self.pitch) | family_code(self.family),
    {
        self.pitch.code() | self.family.code()
    }
}

} // verus!
