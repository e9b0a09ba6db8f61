//! Window construction: style flags, the window builder and windows.
use crate::draw::{extent_fits, Rect};
use crate::handles::{WindowHandle, WindowId};
use crate::safe_proc::{WM_USER};
use vstd::prelude::*;

verus! {

/// A window style or extended window style.
#[derive(Debug, Copy, Clone, Ord, PartialOrd, Eq, PartialEq, Hash)]
pub enum WindowStyle {
    AcceptFiles,
    AppWindow,
    ClientEdge,
    Composited,
    ContextHelp,
    ControlParent,
    DlgModalFrame,
    Layered,
    LayoutRtl,
    Left,
    LeftScrollBar,
    LtrReading,
    MdiChild,
    NoActivate,
    NoInheritLayout,
    NoParentNotify,
    NoRedirectionBitmap,
    ExOverlappedWindow,
    WindowEdge,
    PaletteWindow,
    ToolWindow,
    TopMost,
    Right,
    RightScrollBar,
    RtlReading,
    StaticEdge,
    Transparent,
    ChildWindow,
    ClipChildren,
    ClipSiblings,
    Disabled,
    DlgFrame,
    Group,
    HScroll,
    Maximize,
    Minimize,
    Iconic,
    Child,
    Popup,
    Border,
    PopupWindow,
    TabStop,
    SizeBox,
    Tiled,
    TiledWindow,
    Overlapped,
    Caption,
    SysMenu,
    ThickFrame,
    MinimizeBox,
    MaximizeBox,
    OverlappedWindow,
    Visible,
    VScroll,
}

/// Whether `s` is an extended style, and the bits it sets.
pub open spec fn style_flag(s: WindowStyle) -> (bool, u32) {
    match s {
        WindowStyle::AcceptFiles => (true, 0x00000010),
        WindowStyle::AppWindow => (true, 0x00040000),
        WindowStyle::ClientEdge => (true, 0x00000200),
        WindowStyle::Composited => (true, 0x02000000),
        WindowStyle::ContextHelp => (true, 0x00000400),
        WindowStyle::ControlParent => (true, 0x00010000),
        WindowStyle::DlgModalFrame => (true, 0x00000001),
        WindowStyle::Layered => (true, 0x00080000),
        WindowStyle::LayoutRtl => (true, 0x00400000),
        WindowStyle::Left => (true, 0x00000000),
        WindowStyle::LeftScrollBar => (true, 0x00004000),
        WindowStyle::LtrReading => (true, 0x00000000),
        WindowStyle::MdiChild => (true, 0x00000040),
        WindowStyle::NoActivate => (true, 0x08000000),
        WindowStyle::NoInheritLayout => (true, 0x00100000),
        WindowStyle::NoParentNotify => (true, 0x00000004),
        WindowStyle::NoRedirectionBitmap => (true, 0x00200000),
        WindowStyle::ExOverlappedWindow => (true, 0x00000300),
        WindowStyle::WindowEdge => (true, 0x00000100),
        WindowStyle::PaletteWindow => (true, 0x00000188),
        WindowStyle::ToolWindow => (true, 0x00000080),
        WindowStyle::TopMost => (true, 0x00000008),
        WindowStyle::Right => (true, 0x00001000),
        WindowStyle::RightScrollBar => (true, 0x00000000),
        WindowStyle::RtlReading => (true, 0x00002000),
        WindowStyle::StaticEdge => (true, 0x00020000),
        WindowStyle::Transparent => (true, 0x00000020),
        WindowStyle::ChildWindow => (false, 0x40000000),
        WindowStyle::ClipChildren => (false, 0x02000000),
        WindowStyle::ClipSiblings => (false, 0x04000000),
        WindowStyle::Disabled => (false, 0x08000000),
        WindowStyle::DlgFrame => (false, 0x00400000),
        WindowStyle::Group => (false, 0x00020000),
        WindowStyle::HScroll => (false, 0x00100000),
        WindowStyle::Maximize => (false, 0x01000000),
        WindowStyle::Minimize => (false, 0x20000000),
        WindowStyle::Iconic => (false, 0x20000000),
        WindowStyle::Child => (false, 0x40000000),
        WindowStyle::Popup => (false, 0x80000000),
        WindowStyle::Border => (false, 0x00800000),
        WindowStyle::PopupWindow => (false, 0x80880000),
        WindowStyle::TabStop => (false, 0x00010000),
        WindowStyle::SizeBox => (false, 0x00040000),
        WindowStyle::Tiled => (false, 0x00000000),
        WindowStyle::TiledWindow => (false, 0x00CF0000),
        WindowStyle::Overlapped => (false, 0x00000000),
        WindowStyle::Caption => (false, 0x00C00000),
        WindowStyle::SysMenu => (false, 0x00080000),
        WindowStyle::ThickFrame => (false, 0x00040000),
        WindowStyle::MinimizeBox => (false, 0x00020000),
        WindowStyle::MaximizeBox => (false, 0x00010000),
        WindowStyle::OverlappedWindow => (false, 0x00CF0000),
        WindowStyle::Visible => (false, 0x10000000),
        WindowStyle::VScroll => (false, 0x00200000),
    }
}

/// The style and extended style left after setting each of `styles` in
/// turn on top of `style` and `ex`.
pub open spec fn with_styles(style: u32, ex: u32, styles: Seq<WindowStyle>) -> (u32, u32)
    decreases styles.len(),
{
    if styles.len() == 0 {
        (style, ex)
    } else if style_flag(styles[0]).0 {
        with_styles(style, ex | style_flag(styles[0]).1, styles.drop_first())
    } else {
        with_styles(style | style_flag(styles[0]).1, ex, styles.drop_first())
    }
}

impl WindowStyle {
    /// Whether this is an extended style, and the bits it sets.
    pub fn flag(self) -> (r: (bool, u32))
        ensures
            r == style_flag(self),
    {
        match self {
            WindowStyle::AcceptFiles => (true, 0x00000010),
            WindowStyle::AppWindow => (true, 0x00040000),
            WindowStyle::ClientEdge => (true, 0x00000200),
            WindowStyle::Composited => (true, 0x02000000),
            WindowStyle::ContextHelp => (true, 0x00000400),
            WindowStyle::ControlParent => (true, 0x00010000),
            WindowStyle::DlgModalFrame => (true, 0x00000001),
            WindowStyle::Layered => (true, 0x00080000),
            WindowStyle::LayoutRtl => (true, 0x00400000),
            WindowStyle::Left => (true, 0x00000000),
            WindowStyle::LeftScrollBar => (true, 0x00004000),
            WindowStyle::LtrReading => (true, 0x00000000),
            WindowStyle::MdiChild => (true, 0x00000040),
            WindowStyle::NoActivate => (true, 0x08000000),
            WindowStyle::NoInheritLayout => (true, 0x00100000),
            WindowStyle::NoParentNotify => (true, 0x00000004),
            WindowStyle::NoRedirectionBitmap => (true, 0x00200000),
            WindowStyle::ExOverlappedWindow => (true, 0x00000300),
            WindowStyle::WindowEdge => (true, 0x00000100),
            WindowStyle::PaletteWindow => (true, 0x00000188),
            WindowStyle::ToolWindow => (true, 0x00000080),
            WindowStyle::TopMost => (true, 0x00000008),
            WindowStyle::Right => (true, 0x00001000),
            WindowStyle::RightScrollBar => (true, 0x00000000),
            WindowStyle::RtlReading => (true, 0x00002000),
            WindowStyle::StaticEdge => (true, 0x00020000),
            WindowStyle::Transparent => (true, 0x00000020),
            WindowStyle::ChildWindow => (false, 0x40000000),
            WindowStyle::ClipChildren => (false, 0x02000000),
            WindowStyle::ClipSiblings => (false, 0x04000000),
            WindowStyle::Disabled => (false, 0x08000000),
            WindowStyle::DlgFrame => (false, 0x00400000),
            WindowStyle::Group => (false, 0x00020000),
            WindowStyle::HScroll => (false, 0x00100000),
            WindowStyle::Maximize => (false, 0x01000000),
            WindowStyle::Minimize => (false, 0x20000000),
            WindowStyle::Iconic => (false, 0x20000000),
            WindowStyle::Child => (false, 0x40000000),
            WindowStyle::Popup => (false, 0x80000000),
            WindowStyle::Border => (false, 0x00800000),
            WindowStyle::PopupWindow => (false, 0x80880000),
            WindowStyle::TabStop => (false, 0x00010000),
            WindowStyle::SizeBox => (false, 0x00040000),
            WindowStyle::Tiled => (false, 0x00000000),
            WindowStyle::TiledWindow => (false, 0x00CF0000),
            WindowStyle::Overlapped => (false, 0x00000000),
            WindowStyle::Caption => (false, 0x00C00000),
            WindowStyle::SysMenu => (false, 0x00080000),
            WindowStyle::ThickFrame => (false, 0x00040000),
            WindowStyle::MinimizeBox => (false, 0x00020000),
            WindowStyle::MaximizeBox => (false, 0x00010000),
            WindowStyle::OverlappedWindow => (false, 0x00CF0000),
            WindowStyle::Visible => (false, 0x10000000),
            WindowStyle::VScroll => (false, 0x00200000),
        }
    }
}

/// The position and size of a window to create.
#[derive(Debug, Copy, Clone, PartialEq, Eq)]
pub struct PosSize {
    pub x: i32,
    pub y: i32,
    pub width: u32,
    pub height: u32,
}

/// What a window is created from: class, placement, styles, title, parent
/// and the address of the state to bind to it (0 for none).
#[derive(Debug)]
pub struct Builder {
    pos_size: PosSize,
    class_name: String,
    extra_styles: u32,
    style: u32,
    title: String,
    parent: Option<WindowId>,
    ptr: usize,
}

impl Builder {
    pub closed spec fn spec_pos_size(&self) -> PosSize {
        self.pos_size
    }

    pub closed spec fn spec_class_name(&self) -> Seq<char> {
        self.class_name@
    }

    pub closed spec fn spec_style(&self) -> u32 {
        self.style
    }

    pub closed spec fn spec_extra_styles(&self) -> u32 {
        self.extra_styles
    }

    pub closed spec fn spec_title(&self) -> Seq<char> {
        self.title@
    }

    pub closed spec fn spec_parent(&self) -> Option<WindowId> {
        self.parent
    }

    pub closed spec fn spec_ptr(&self) -> usize {
        self.ptr
    }

    /// A builder for a window of class `class_name` at `pos_size`, with no
    /// style, the title "Window", no parent and no bound state.
    pub fn new(class_name: &str, pos_size: PosSize) -> (r: Self)
        ensures
            r.spec_pos_size() == pos_size,
            r.spec_class_name() == class_name@,
            r.spec_style() == 0,
            r.spec_extra_styles() == 0,
            r.spec_title() == "Window"@,
            r.spec_parent() is None,
            r.spec_ptr() == 0,
    {
        Self {
            pos_size,
            class_name: class_name.to_owned(),
            extra_styles: 0,
            style: 0,
            title: "Window".to_owned(),
            parent: None,
            ptr: 0,
        }
    }

    /// Makes the window a child of `window`.
    pub fn set_parent(self, window: WindowId) -> (r: Self)
        ensures
            r.spec_parent() == Some(window),
            r.spec_pos_size() == self.spec_pos_size(),
            r.spec_class_name() == self.spec_class_name(),
            r.spec_style() == self.spec_style(),
            r.spec_extra_styles() == self.spec_extra_styles(),
            r.spec_title() == self.spec_title(),
            r.spec_ptr() == self.spec_ptr(),
    {
        let mut b = self;
        b.parent = Some(window);
        b
    }

    /// Adds each of `styles` to the window's style or extended style.
    pub fn set_style(self, styles: &[WindowStyle]) -> (r: Self)
        ensures
            (r.spec_style(), r.spec_extra_styles()) == with_styles(
                self.spec_style(),
                self.spec_extra_styles(),
                styles@,
            ),
            r.spec_pos_size() == self.spec_pos_size(),
            r.spec_class_name() == self.spec_class_name(),
            r.spec_title() == self.spec_title(),
            r.spec_parent() == self.spec_parent(),
            r.spec_ptr() == self.spec_ptr(),
    {
        let ghost start = self;
        let mut b = self;
        let mut i: usize = 0;
        proof {
            assert(styles@.skip(0) =~= styles@);
        }
        while i < styles.len()
            invariant
                0 <= i <= styles@.len(),
                with_styles(b.style, b.extra_styles, styles@.skip(i as int)) == with_styles(
                    start.style,
                    start.extra_styles,
                    styles@,
                ),
                b.pos_size == start.pos_size,
                b.class_name@ == start.class_name@,
                b.title@ == start.title@,
                b.parent == start.parent,
                b.ptr == start.ptr,
            decreases styles.len() - i,
        {
            proof {
                assert(styles@.skip(i as int).drop_first() =~= styles@.skip(i + 1));
            }
            let (extended, bits) = styles[i].flag();
            if extended {
                b.extra_styles = b.extra_styles | bits;
            } else {
                b.style = b.style | bits;
            }
            i = i + 1;
        }
        proof {
            assert(styles@.skip(i as int) =~= Seq::<WindowStyle>::empty());
        }
        b
    }

    /// Sets the window's title.
    pub fn set_title(self, title: &str) -> (r: Self)
        ensures
            r.spec_title() == title@,
            r.spec_pos_size() == self.spec_pos_size(),
            r.spec_class_name() == self.spec_class_name(),
            r.spec_style() == self.spec_style(),
            r.spec_extra_styles() == self.spec_extra_styles(),
            r.spec_parent() == self.spec_parent(),
            r.spec_ptr() == self.spec_ptr(),
    {
        let mut b = self;
        b.title = title.to_owned();
        b
    }

    /// Records the address of the state to bind to the window when it is
    /// created (0 for none).
    pub fn set_bind_address(self, ptr: usize) -> (r: Self)
        ensures
            r.spec_ptr() == ptr,
            r.spec_pos_size() == self.spec_pos_size(),
            r.spec_class_name() == self.spec_class_name(),
            r.spec_style() == self.spec_style(),
            r.spec_extra_styles() == self.spec_extra_styles(),
            r.spec_title() == self.spec_title(),
            r.spec_parent() == self.spec_parent(),
    {
        let mut b = self;
        b.ptr = ptr;
        b
    }

    pub fn pos_size(&self) -> (r: PosSize)
        ensures
            r == self.spec_pos_size(),
    {
        self.pos_size
    }

    pub fn class_name(&self) -> (r: &str)
        ensures
            r@ == self.spec_class_name(),
    {
        self.class_name.as_str()
    }

    pub fn style(&self) -> (r: u32)
        ensures
            r == self.spec_style(),
    {
        self.style
    }

    pub fn extra_styles(&self) -> (r: u32)
        ensures
            r == self.spec_extra_styles(),
    {
        self.extra_styles
    }

    pub fn title(&self) -> (r: &str)
        ensures
            r@ == self.spec_title(),
    {
        self.title.as_str()
    }

    pub fn parent(&self) -> (r: Option<WindowId>)
        ensures
            r == self.spec_parent(),
    {
        self.parent
    }

    pub fn bind_address(&self) -> (r: usize)
        ensures
            r == self.spec_ptr(),
    {
        self.ptr
    }
}

/// A created window.
#[derive(Debug, Clone, Eq, PartialEq)]
pub struct Window {
    handle: usize,
}

/// The first code of application-defined messages.
pub const USER_DEF_BASE: u32 = WM_USER;

/// The first code of messages private to an application.
pub const APP_DEF_BASE: u32 = 0x8000;

impl Window {
    pub closed spec fn spec_handle(&self) -> usize {
        self.handle
    }

    /// The window with the given native handle.
    pub fn new(handle: usize) -> (r: Self)
        ensures
            r.spec_handle() == handle,
    {
        Self { handle }
    }

    /// The handle of the window.
    pub fn handle(&self) -> (r: WindowHandle)
        ensures
            r.handle == self.spec_handle(),
    {
        WindowHandle { handle: self.handle }
    }

    /// The portable identity of the window.
    pub fn id(&self) -> (r: WindowId)
        ensures
            r.handle == self.spec_handle(),
    {
        WindowId { handle: self.handle }
    }
}

} // verus!
