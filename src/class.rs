//! Window classes: class styles, cursors, and the class registrar.
use crate::draw::{extent_fits, Rect};
use crate::window::{Builder, PosSize};
use vstd::prelude::*;

verus! {

/// A window class style.
#[derive(Debug, Copy, Clone, Ord, PartialOrd, Eq, PartialEq, Hash)]
pub enum ClassStyle {
    ByteAlignClient,
    ByteAlignWindow,
    UnionClassDeviceContext,
    AcceptDoubleClicks,
    DropShadow,
    GlobalClass,
    HorizontalRedraw,
    NoClose,
    OwnerDeviceContext,
    ParentDeviceContext,
    SaveBits,
    VerticalRedraw,
}

/// The bits a class style sets.
pub open spec fn class_style_bits(s: ClassStyle) -> u32 {
    match s {
        ClassStyle::ByteAlignClient => 0x1000,
        ClassStyle::ByteAlignWindow => 0x2000,
        ClassStyle::UnionClassDeviceContext => 0x0040,
        ClassStyle::AcceptDoubleClicks => 0x0008,
        ClassStyle::DropShadow => 0x20000,
        ClassStyle::GlobalClass => 0x4000,
        ClassStyle::HorizontalRedraw => 0x0002,
        ClassStyle::NoClose => 0x0200,
        ClassStyle::OwnerDeviceContext => 0x0020,
        ClassStyle::ParentDeviceContext => 0x0080,
        ClassStyle::SaveBits => 0x0800,
        ClassStyle::VerticalRedraw => 0x0001,
    }
}

/// `style` with the bits of each of `styles` added in turn.
pub open spec fn with_class_styles(style: u32, styles: Seq<ClassStyle>) -> u32
    decreases styles.len(),
{
    if styles.len() == 0 {
        style
    } else {
        with_class_styles(style | class_style_bits(styles[0]), styles.drop_first())
    }
}

impl ClassStyle {
    /// The bits this style sets.
    pub fn bits(self) -> (r: u32)
        ensures
            r == class_style_bits(self),
    {
        match self {
            ClassStyle::ByteAlignClient => 0x1000,
            ClassStyle::ByteAlignWindow => 0x2000,
            ClassStyle::UnionClassDeviceContext => 0x0040,
            ClassStyle::AcceptDoubleClicks => 0x0008,
            ClassStyle::DropShadow => 0x20000,
            ClassStyle::GlobalClass => 0x4000,
            ClassStyle::HorizontalRedraw => 0x0002,
            ClassStyle::NoClose => 0x0200,
            ClassStyle::OwnerDeviceContext => 0x0020,
            ClassStyle::ParentDeviceContext => 0x0080,
            ClassStyle::SaveBits => 0x0800,
            ClassStyle::VerticalRedraw => 0x0001,
        }
    }
}

/// A predefined cursor.
#[derive(Debug, Copy, Clone, Ord, PartialOrd, Eq, PartialEq, Hash)]
pub enum Cursor {
    Arrow,
    TextSelect,
    Wait,
    Cross,
    UpArrow,
    SizeNorthWestSouthEast,
    SizeNorthEastSouthWest,
    SizeWestEast,
    SizeNorthSouth,
    SizeAll,
    No,
    Hand,
    AppStarting,
    Help,
    Pin,
    Person,
}

/// The platform's resource identifier of a predefined cursor.
pub open spec fn cursor_resource(c: Cursor) -> u16 {
    match c {
        Cursor::Arrow => 32512,
        Cursor::TextSelect => 32513,
        Cursor::Wait => 32514,
        Cursor::Cross => 32515,
        Cursor::UpArrow => 32516,
        Cursor::SizeNorthWestSouthEast => 32642,
        Cursor::SizeNorthEastSouthWest => 32643,
        Cursor::SizeWestEast => 32644,
        Cursor::SizeNorthSouth => 32645,
        Cursor::SizeAll => 32646,
        Cursor::No => 32648,
        Cursor::Hand => 32649,
        Cursor::AppStarting => 32650,
        Cursor::Help => 32651,
        Cursor::Pin => 32671,
        Cursor::Person => 32672,
    }
}

impl Cursor {
    /// The platform's resource identifier of the cursor.
    pub fn resource_id(self) -> (r: u16)
        ensures
            r == cursor_resource(self),
    {
        match self {
            Cursor::Arrow => 32512,
            Cursor::TextSelect => 32513,
            Cursor::Wait => 32514,
            Cursor::Cross => 32515,
            Cursor::UpArrow => 32516,
            Cursor::SizeNorthWestSouthEast => 32642,
            Cursor::SizeNorthEastSouthWest => 32643,
            Cursor::SizeWestEast => 32644,
            Cursor::SizeNorthSouth => 32645,
            Cursor::SizeAll => 32646,
            Cursor::No => 32648,
            Cursor::Hand => 32649,
            Cursor::AppStarting => 32650,
            Cursor::Help => 32651,
            Cursor::Pin => 32671,
            Cursor::Person => 32672,
        }
    }
}

/// An error of class registration.
#[derive(Debug, Clone)]
pub struct ClassError {
    pub message: String,
}

/// A registered window class.
#[derive(Debug, Clone, Ord, PartialOrd, Eq, PartialEq, Hash)]
pub struct Class {
    name: String,
}

impl Class {
    pub closed spec fn spec_name(&self) -> Seq<char> {
        self.name@
    }

    /// The class with the given name.
    pub fn new(name: &str) -> (r: Self)
        ensures
            r.spec_name() == name@,
    {
        Self { name: name.to_owned() }
    }

    /// The name of the class.
    pub fn name(&self) -> (r: &str)
        ensures
            r@ == self.spec_name(),
    {
        self.name.as_str()
    }

    /// A builder for a window of this class occupying `rect`.
    pub fn make_window(&self, rect: Rect) -> (r: Builder)
        requires
            extent_fits(rect),
        ensures
            r.spec_class_name() == self.spec_name(),
            r.spec_pos_size() == (PosSize {
                x: rect.left,
                y: rect.top,
                width: (rect.right - rect.left) as u32,
                height: (rect.bottom - rect.top) as u32,
            }),
            r.spec_style() == 0,
            r.spec_extra_styles() == 0,
            r.spec_title() == "Window"@,
            r.spec_parent() is None,
            r.spec_ptr() == 0,
    {
        Builder::new(
            self.name.as_str(),
            PosSize { x: rect.x(), y: rect.y(), width: rect.width(), height: rect.height() },
        )
    }
}

/// The classes the platform predefines for common controls.
pub struct PreDefineClass;

impl PreDefineClass {
    /// The predefined `BUTTON` class.
    pub fn button() -> (r: Class)
        ensures
            r.spec_name() == "BUTTON"@,
    {
        Class::new("BUTTON")
    }

    /// The predefined `COMBOBOX` class.
    pub fn combobox() -> (r: Class)
        ensures
            r.spec_name() == "COMBOBOX"@,
    {
        Class::new("COMBOBOX")
    }

    /// The predefined `EDIT` class.
    pub fn edit() -> (r: Class)
        ensures
            r.spec_name() == "EDIT"@,
    {
        Class::new("EDIT")
    }

    /// The predefined `LISTBOX` class.
    pub fn listbox() -> (r: Class)
        ensures
            r.spec_name() == "LISTBOX"@,
    {
        Class::new("LISTBOX")
    }

    /// The predefined `MDICLIENT` class.
    pub fn mdi_client() -> (r: Class)
        ensures
            r.spec_name() == "MDICLIENT"@,
    {
        Class::new("MDICLIENT")
    }

    /// The predefined `RichEdit` class.
    pub fn rich_edit() -> (r: Class)
        ensures
            r.spec_name() == "RichEdit"@,
    {
        Class::new("RichEdit")
    }

    /// The predefined `RICHEDIT_CLASS` class.
    pub fn rich_edit_class() -> (r: Class)
        ensures
            r.spec_name() == "RICHEDIT_CLASS"@,
    {
        Class::new("RICHEDIT_CLASS")
    }

    /// The predefined `SCROLLBAR` class.
    pub fn scrollbar() -> (r: Class)
        ensures
            r.spec_name() == "SCROLLBAR"@,
    {
        Class::new("SCROLLBAR")
    }

    /// The predefined `STATIC` class.
    pub fn static_widget() -> (r: Class)
        ensures
            r.spec_name() == "STATIC"@,
    {
        Class::new("STATIC")
    }
}

/// What a window class is registered with: its styles, name and cursor.
#[derive(Debug)]
pub struct Registrar {
    style: u32,
    name: String,
    cursor: Option<u16>,
}

impl Registrar {
    pub closed spec fn spec_style(&self) -> u32 {
        self.style
    }

    pub closed spec fn spec_name(&self) -> Seq<char> {
        self.name@
    }

    pub closed spec fn spec_cursor(&self) -> Option<u16> {
        self.cursor
    }

    /// A registrar for a class named `name`, with no style and no cursor.
    pub fn new(name: &str) -> (r: Self)
        ensures
            r.spec_style() == 0,
            r.spec_name() == name@,
            r.spec_cursor() is None,
    {
        Self { style: 0, name: name.to_owned(), cursor: None }
    }

    /// Adds each of `styles` to the class style.
    pub fn set_style(self, styles: &[ClassStyle]) -> (r: Self)
        ensures
            r.spec_style() == with_class_styles(self.spec_style(), styles@),
            r.spec_name() == self.spec_name(),
            r.spec_cursor() == self.spec_cursor(),
    {
        let ghost start = self;
        let mut b = self;
        let mut i: usize = 0;
        proof {
            assert(styles@.skip(0) =~= styles@);
        }
        while i < styles.len()
            invariant
                0 <= i <= styles@.len(),
                with_class_styles(b.style, styles@.skip(i as int)) == with_class_styles(
                    start.style,
                    styles@,
                ),
                b.name@ == start.name@,
                b.cursor == start.cursor,
            decreases styles.len() - i,
        {
            proof {
                assert(styles@.skip(i as int).drop_first() =~= styles@.skip(i + 1));
            }
            b.style = b.style | styles[i].bits();
            i = i + 1;
        }
        proof {
            assert(styles@.skip(i as int) =~= Seq::<ClassStyle>::empty());
        }
        b
    }

    /// Uses the predefined `cursor` for windows of the class.
    pub fn set_cursor(self, cursor: Cursor) -> (r: Self)
        ensures
            r.spec_cursor() == Some(cursor_resource(cursor)),
            r.spec_style() == self.spec_style(),
            r.spec_name() == self.spec_name(),
    {
        let mut b = self;
        b.cursor = Some(cursor.resource_id());
        b
    }

    pub fn style(&self) -> (r: u32)
        ensures
            r == self.spec_style(),
    {
        self.style
    }

    pub fn name(&self) -> (r: &str)
        ensures
            r@ == self.spec_name(),
    {
        self.name.as_str()
    }

    /// The resource identifier of the chosen cursor, if any.
    pub fn cursor(&self) -> (r: Option<u16>)
        ensures
            r == self.spec_cursor(),
    {
        self.cursor
    }

    /// The class that registering succeeded for.
    pub fn registered(&self) -> (r: Class)
        ensures
            r.spec_name() == self.spec_name(),
    {
        Class::new(self.name.as_str())
    }
}

} // verus!
