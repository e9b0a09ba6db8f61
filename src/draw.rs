//! Value types shared with drawing code: integer points, sizes and
//! rectangles in the platform's layout, colors and brush descriptions.
use crate::geometry::fits_i32;
use vstd::prelude::*;

verus! {

/// A point with `i32` coordinates.
#[derive(Debug, Clone, Copy, PartialEq, Eq, PartialOrd, Ord, Hash)]
pub struct Point {
    pub x: i32,
    pub y: i32,
}

/// A size with `u32` dimensions.
#[derive(Debug, Clone, Copy, PartialEq, Eq, PartialOrd, Ord, Hash)]
pub struct Size {
    pub width: u32,
    pub height: u32,
}

/// A rectangle given by its edges; it spans `left..right` and `top..bottom`.
#[derive(Debug, Clone, Copy, PartialEq, Eq, PartialOrd, Ord, Hash)]
pub struct Rect {
    pub left: i32,
    pub top: i32,
    pub right: i32,
    pub bottom: i32,
}

impl Point {
    /// The point `(x, y)`.
    pub fn from_xy(x: i32, y: i32) -> (r: Self)
        ensures
            r == (Point { x, y }),
    {
        Self { x, y }
    }
}

impl Size {
    /// The size `width` by `height`.
    pub fn from_wh(width: u32, height: u32) -> (r: Self)
        ensures
            r == (Size { width, height }),
    {
        Self { width, height }
    }
}

impl From<(i32, i32)> for Point {
    fn from(value: (i32, i32)) -> (r: Self)
        ensures
            r == (Point { x: value.0, y: value.1 }),
    {
        Self { x: value.0, y: value.1 }
    }
}

impl vstd::std_specs::convert::FromSpecImpl<(i32, i32)> for Point {
    open spec fn obeys_from_spec() -> bool {
        true
    }

    open spec fn from_spec(value: (i32, i32)) -> Self {
        Point { x: value.0, y: value.1 }
    }
}

impl From<(u32, u32)> for Size {
    fn from(value: (u32, u32)) -> (r: Self)
        ensures
            r == (Size { width: value.0, height: value.1 }),
    {
        Self { width: value.0, height: value.1 }
    }
}

impl vstd::std_specs::convert::FromSpecImpl<(u32, u32)> for Size {
    open spec fn obeys_from_spec() -> bool {
        true
    }

    open spec fn from_spec(value: (u32, u32)) -> Self {
        Size { width: value.0, height: value.1 }
    }
}

/// Whether the width and height of `r` fit in an `i32`.
pub open spec fn extent_fits(r: Rect) -> bool {
    fits_i32(r.right - r.left) && fits_i32(r.bottom - r.top)
}

impl Rect {
    /// The top-left corner.
    pub fn pos(&self) -> (r: Point)
        ensures
            r == (Point { x: self.left, y: self.top }),
    {
        Point { x: self.left, y: self.top }
    }

    /// Width and height, each the difference of two edges read as `u32`.
    pub fn size(&self) -> (r: Size)
        requires
            extent_fits(*self),
        ensures
            r == (Size {
                width: (self.right - self.left) as u32,
                height: (self.bottom - self.top) as u32,
            }),
    {
        Size {
            width: (self.right - self.left) as u32,
            height: (self.bottom - self.top) as u32,
        }
    }

    /// The left edge.
    pub fn x(&self) -> (r: i32)
        ensures
            r == self.left,
    {
        self.left
    }

    /// The top edge.
    pub fn y(&self) -> (r: i32)
        ensures
            r == self.top,
    {
        self.top
    }

    /// Right minus left, read as `u32`.
    pub fn width(&self) -> (r: u32)
        requires
            extent_fits(*self),
        ensures
            r == (self.right - self.left) as u32,
    {
        self.size().width
    }

    /// Bottom minus top, read as `u32`.
    pub fn height(&self) -> (r: u32)
        requires
            extent_fits(*self),
        ensures
            r == (self.bottom - self.top) as u32,
    {
        self.size().height
    }

    /// Whether `point` lies in the rectangle: left and top edges included,
    /// right and bottom edges excluded.
    pub fn contains(&self, point: Point) -> (r: bool)
        ensures
            r == (self.left <= point.x < self.right && self.top <= point.y < self.bottom),
    {
        point.x >= self.left && point.x < self.right && point.y >= self.top && point.y
            < self.bottom
    }

    /// The rectangle with top-left corner `pos` and size `size`.
    pub fn from_pos_size(pos: Point, size: Size) -> (r: Self)
        requires
            fits_i32(pos.x + size.width as i32),
            fits_i32(pos.y + size.height as i32),
        ensures
            r == (Rect {
                left: pos.x,
                top: pos.y,
                right: (pos.x + size.width as i32) as i32,
                bottom: (pos.y + size.height as i32) as i32,
            }),
    {
        Self {
            left: pos.x,
            top: pos.y,
            right: pos.x + size.width as i32,
            bottom: pos.y + size.height as i32,
        }
    }

    /// The rectangle with top-left corner `(px, py)` and size `sw` by `sh`.
    pub fn from_ps(px: i32, py: i32, sw: u32, sh: u32) -> (r: Self)
        requires
            fits_i32(px + sw as i32),
            fits_i32(py + sh as i32),
        ensures
            r == (Rect {
                left: px,
                top: py,
                right: (px + sw as i32) as i32,
                bottom: (py + sh as i32) as i32,
            }),
    {
        Self { left: px, top: py, right: px + sw as i32, bottom: py + sh as i32 }
    }

    /// The four corners clockwise from the top-left, then the top-left again.
    pub fn to_polyline(&self) -> (r: [Point; 5])
        ensures
            r@ == seq![
                Point { x: self.left, y: self.top },
                Point { x: self.right, y: self.top },
                Point { x: self.right, y: self.bottom },
                Point { x: self.left, y: self.bottom },
                Point { x: self.left, y: self.top },
            ],
    {
        [
            Point::from_xy(self.left, self.top),
            Point::from_xy(self.right, self.top),
            Point::from_xy(self.right, self.bottom),
            Point::from_xy(self.left, self.bottom),
            Point::from_xy(self.left, self.top),
        ]
    }

    /// The four corners clockwise from the top-left.
    pub fn to_polygon(&self) -> (r: [Point; 4])
        ensures
            r@ == seq![
                Point { x: self.left, y: self.top },
                Point { x: self.right, y: self.top },
                Point { x: self.right, y: self.bottom },
                Point { x: self.left, y: self.bottom },
            ],
    {
        [
            Point::from_xy(self.left, self.top),
            Point::from_xy(self.right, self.top),
            Point::from_xy(self.right, self.bottom),
            Point::from_xy(self.left, self.bottom),
        ]
    }
}

/// A color with an alpha channel.
#[derive(Debug, Clone, Copy, PartialEq, Eq, PartialOrd, Ord, Hash)]
pub struct Color {
    pub red: u8,
    pub green: u8,
    pub blue: u8,
    pub alpha: u8,
}

impl Default for Color {
    /// Opaque black.
    fn default() -> (r: Self)
        ensures
            r == (Color { red: 0, green: 0, blue: 0, alpha: 255 }),
    {
        Self { red: 0, green: 0, blue: 0, alpha: 255 }
    }
}

/// The platform's packed color value: red in the low byte, then green, then blue.
pub open spec fn colorref(red: u8, green: u8, blue: u8) -> u32 {
    red as u32 | (green as u32) << 8u32 | (blue as u32) << 16u32
}

impl Color {
    /// The opaque color with the given channels.
    pub fn from_rgb(red: u8, green: u8, blue: u8) -> (r: Self)
        ensures
            r == (Color { red, green, blue, alpha: 255 }),
    {
        Self { red, green, blue, alpha: 255 }
    }

    /// The opaque gray with all three channels equal to `gray`.
    pub fn from_gray(gray: u8) -> (r: Self)
        ensures
            r == (Color { red: gray, green: gray, blue: gray, alpha: 255 }),
    {
        Self { red: gray, green: gray, blue: gray, alpha: 255 }
    }

    /// The packed platform color of the three color channels; alpha is dropped.
    pub fn to_colorref(self) -> (r: u32)
        ensures
            r == colorref(self.red, self.green, self.blue),
    {
        self.red as u32 | (self.green as u32) << 8u32 | (self.blue as u32) << 16u32
    }
}

/// A hatch pattern of a brush.
#[derive(Debug, Copy, Clone, Ord, PartialOrd, Eq, PartialEq, Hash)]
pub enum HatchStyle {
    BDiagonal,
    Cross,
    DiagCross,
    FDiagonal,
    Horizontal,
    Vertical,
}

pub open spec fn hatch_code(h: HatchStyle) -> u32 {
    match h {
        HatchStyle::Horizontal => 0,
        HatchStyle::Vertical => 1,
        HatchStyle::FDiagonal => 2,
        HatchStyle::BDiagonal => 3,
        HatchStyle::Cross => 4,
        HatchStyle::DiagCross => 5,
    }
}

impl HatchStyle {
    /// The platform's code of the pattern.
    pub fn to_sys_enum(self) -> (r: u32)
        ensures
            r == hatch_code(self),
    {
        match self {
            HatchStyle::BDiagonal => 3,
            HatchStyle::Cross => 4,
            HatchStyle::DiagCross => 5,
            HatchStyle::FDiagonal => 2,
            HatchStyle::Horizontal => 0,
            HatchStyle::Vertical => 1,
        }
    }
}

/// The description of a brush to create.
#[derive(Debug, Clone, PartialEq, Eq, PartialOrd, Ord, Hash)]
pub enum GenBrush {
    Solid(Color),
    Hatch(Color, HatchStyle),
}

impl GenBrush {
    /// The packed color and, for a hatched brush, the pattern code that
    /// creating the brush passes to the platform.
    pub fn sys_params(&self) -> (r: (u32, Option<u32>))
        ensures
            r == match *self {
                GenBrush::Solid(c) => (colorref(c.red, c.green, c.blue), None::<u32>),
                GenBrush::Hatch(c, h) => (colorref(c.red, c.green, c.blue), Some(hatch_code(h))),
            },
    {
        match self {
            GenBrush::Solid(c) => (c.to_colorref(), None),
            GenBrush::Hatch(c, h) => (c.to_colorref(), Some(h.to_sys_enum())),
        }
    }
}

} // verus!
