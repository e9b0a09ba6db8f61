//! Generic point, size and rectangle value types.
//!
//! The arithmetic is provided for `i32` coordinates. The binary operators
//! require that the exact result fits in an `i32`; the compound assignments
//! (`+=`, `-=`, `*=`) wrap around on overflow, and `/=` by zero leaves the
//! value unchanged.
use vstd::prelude::*;

verus! {

/// Whether `v` fits in an `i32`.
pub open spec fn fits_i32(v: int) -> bool {
    i32::MIN <= v <= i32::MAX
}

/// Whether `a / b` is defined on `i32` without overflow.
pub open spec fn div_ok(a: i32, b: i32) -> bool {
    b != 0 && !(a == i32::MIN && b == -1)
}

/// `a / b` rounded toward zero, as Rust's integer division does.
pub open spec fn div_trunc(a: int, b: int) -> int
    recommends
        b != 0,
{
    if a >= 0 {
        a / b
    } else {
        -((-a) / b)
    }
}

/// `a /= b` on one coordinate: wrapping, and no change for a zero divisor.
pub open spec fn div_assign_coord(a: i32, b: i32) -> i32 {
    if b == 0 {
        a
    } else if a == i32::MIN && b == -1 {
        i32::MIN
    } else {
        div_trunc(a as int, b as int) as i32
    }
}

fn div_assign_coord_exec(a: i32, b: i32) -> (r: i32)
    ensures
        r == div_assign_coord(a, b),
{
    if b == 0 {
        a
    } else if a == i32::MIN && b == -1 {
        i32::MIN
    } else {
        a / b
    }
}

/// A point in a two-dimensional coordinate system.
#[derive(Debug, Clone, Copy, PartialEq, Eq, Hash, Default)]
pub struct Point<T: Copy> {
    pub x: T,
    pub y: T,
}

impl<T: Copy> Point<T> {
    /// Creates a point from its coordinates.
    pub fn new(x: T, y: T) -> (r: Self)
        ensures
            r.x == x,
            r.y == y,
    {
        Self { x, y }
    }
}

impl<T: Copy> From<(T, T)> for Point<T> {
    fn from(v: (T, T)) -> (r: Self)
        ensures
            r.x == v.0,
            r.y == v.1,
    {
        Self { x: v.0, y: v.1 }
    }
}

impl<T: Copy> vstd::std_specs::convert::FromSpecImpl<(T, T)> for Point<T> {
    open spec fn obeys_from_spec() -> bool {
        true
    }

    open spec fn from_spec(v: (T, T)) -> Self {
        Point { x: v.0, y: v.1 }
    }
}

impl core::ops::Add for Point<i32> {
    type Output = Point<i32>;

    fn add(self, rhs: Self) -> (r: Self::Output)
        ensures
            r.x == self.x + rhs.x,
            r.y == self.y + rhs.y,
    {
        Point { x: self.x + rhs.x, y: self.y + rhs.y }
    }
}

impl vstd::std_specs::ops::AddSpecImpl for Point<i32> {
    open spec fn obeys_add_spec() -> bool {
        true
    }

    open spec fn add_req(self, rhs: Self) -> bool {
        fits_i32(self.x + rhs.x) && fits_i32(self.y + rhs.y)
    }

    open spec fn add_spec(self, rhs: Self) -> Self::Output {
        Point { x: (self.x + rhs.x) as i32, y: (self.y + rhs.y) as i32 }
    }
}

impl core::ops::Sub for Point<i32> {
    type Output = Point<i32>;

    fn sub(self, rhs: Self) -> (r: Self::Output)
        ensures
            r.x == self.x - rhs.x,
            r.y == self.y - rhs.y,
    {
        Point { x: self.x - rhs.x, y: self.y - rhs.y }
    }
}

impl vstd::std_specs::ops::SubSpecImpl for Point<i32> {
    open spec fn obeys_sub_spec() -> bool {
        true
    }

    open spec fn sub_req(self, rhs: Self) -> bool {
        fits_i32(self.x - rhs.x) && fits_i32(self.y - rhs.y)
    }

    open spec fn sub_spec(self, rhs: Self) -> Self::Output {
        Point { x: (self.x - rhs.x) as i32, y: (self.y - rhs.y) as i32 }
    }
}

impl core::ops::Mul<i32> for Point<i32> {
    type Output = Point<i32>;

    fn mul(self, rhs: i32) -> (r: Self::Output)
        ensures
            r.x == self.x * rhs,
            r.y == self.y * rhs,
    {
        Point { x: self.x * rhs, y: self.y * rhs }
    }
}

impl vstd::std_specs::ops::MulSpecImpl<i32> for Point<i32> {
    open spec fn obeys_mul_spec() -> bool {
        true
    }

    open spec fn mul_req(self, rhs: i32) -> bool {
        fits_i32(self.x * rhs) && fits_i32(self.y * rhs)
    }

    open spec fn mul_spec(self, rhs: i32) -> Self::Output {
        Point { x: (self.x * rhs) as i32, y: (self.y * rhs) as i32 }
    }
}

impl core::ops::Div<i32> for Point<i32> {
    type Output = Point<i32>;

    fn div(self, rhs: i32) -> (r: Self::Output)
        ensures
            r.x == div_trunc(self.x as int, rhs as int) as i32,
            r.y == div_trunc(self.y as int, rhs as int) as i32,
    {
        Point { x: self.x / rhs, y: self.y / rhs }
    }
}

impl vstd::std_specs::ops::DivSpecImpl<i32> for Point<i32> {
    open spec fn obeys_div_spec() -> bool {
        true
    }

    open spec fn div_req(self, rhs: i32) -> bool {
        div_ok(self.x, rhs) && div_ok(self.y, rhs)
    }

    open spec fn div_spec(self, rhs: i32) -> Self::Output {
        Point {
            x: div_trunc(self.x as int, rhs as int) as i32,
            y: div_trunc(self.y as int, rhs as int) as i32,
        }
    }
}

impl core::ops::Neg for Point<i32> {
    type Output = Point<i32>;

    fn neg(self) -> (r: Self::Output)
        ensures
            r.x == -self.x,
            r.y == -self.y,
    {
        Point { x: -self.x, y: -self.y }
    }
}

impl vstd::std_specs::ops::NegSpecImpl for Point<i32> {
    open spec fn obeys_neg_spec() -> bool {
        true
    }

    open spec fn neg_req(self) -> bool {
        self.x != i32::MIN && self.y != i32::MIN
    }

    open spec fn neg_spec(self) -> Self::Output {
        Point { x: (-self.x) as i32, y: (-self.y) as i32 }
    }
}

impl core::ops::AddAssign for Point<i32> {
    fn add_assign(&mut self, rhs: Self)
        ensures
            final(self).x == old(self).x.wrapping_add(rhs.x),
            final(self).y == old(self).y.wrapping_add(rhs.y),
    {
        self.x = self.x.wrapping_add(rhs.x);
        self.y = self.y.wrapping_add(rhs.y);
    }
}

impl core::ops::SubAssign for Point<i32> {
    fn sub_assign(&mut self, rhs: Self)
        ensures
            final(self).x == old(self).x.wrapping_sub(rhs.x),
            final(self).y == old(self).y.wrapping_sub(rhs.y),
    {
        self.x = self.x.wrapping_sub(rhs.x);
        self.y = self.y.wrapping_sub(rhs.y);
    }
}

impl core::ops::MulAssign<i32> for Point<i32> {
    fn mul_assign(&mut self, rhs: i32)
        ensures
            final(self).x == old(self).x.wrapping_mul(rhs),
            final(self).y == old(self).y.wrapping_mul(rhs),
    {
        self.x = self.x.wrapping_mul(rhs);
        self.y = self.y.wrapping_mul(rhs);
    }
}

impl core::ops::DivAssign<i32> for Point<i32> {
    fn div_assign(&mut self, rhs: i32)
        ensures
            final(self).x == div_assign_coord(old(self).x, rhs),
            final(self).y == div_assign_coord(old(self).y, rhs),
    {
        self.x = div_assign_coord_exec(self.x, rhs);
        self.y = div_assign_coord_exec(self.y, rhs);
    }
}

/// A width and a height.
#[derive(Debug, Clone, Copy, PartialEq, Eq, Hash, Default)]
pub struct Size<T: Copy> {
    pub width: T,
    pub height: T,
}

impl<T: Copy> Size<T> {
    /// Creates a size from its width and height.
    pub fn new(width: T, height: T) -> (r: Self)
        ensures
            r.width == width,
            r.height == height,
    {
        Self { width, height }
    }
}

impl<T: Copy> From<(T, T)> for Size<T> {
    fn from(v: (T, T)) -> (r: Self)
        ensures
            r.width == v.0,
            r.height == v.1,
    {
        Self { width: v.0, height: v.1 }
    }
}

impl<T: Copy> vstd::std_specs::convert::FromSpecImpl<(T, T)> for Size<T> {
    open spec fn obeys_from_spec() -> bool {
        true
    }

    open spec fn from_spec(v: (T, T)) -> Self {
        Size { width: v.0, height: v.1 }
    }
}

impl core::ops::Add for Size<i32> {
    type Output = Size<i32>;

    fn add(self, rhs: Self) -> (r: Self::Output)
        ensures
            r.width == self.width + rhs.width,
            r.height == self.height + rhs.height,
    {
        Size { width: self.width + rhs.width, height: self.height + rhs.height }
    }
}

impl vstd::std_specs::ops::AddSpecImpl for Size<i32> {
    open spec fn obeys_add_spec() -> bool {
        true
    }

    open spec fn add_req(self, rhs: Self) -> bool {
        fits_i32(self.width + rhs.width) && fits_i32(self.height + rhs.height)
    }

    open spec fn add_spec(self, rhs: Self) -> Self::Output {
        Size { width: (self.width + rhs.width) as i32, height: (self.height + rhs.height) as i32 }
    }
}

impl core::ops::Sub for Size<i32> {
    type Output = Size<i32>;

    fn sub(self, rhs: Self) -> (r: Self::Output)
        ensures
            r.width == self.width - rhs.width,
            r.height == self.height - rhs.height,
    {
        Size { width: self.width - rhs.width, height: self.height - rhs.height }
    }
}

impl vstd::std_specs::ops::SubSpecImpl for Size<i32> {
    open spec fn obeys_sub_spec() -> bool {
        true
    }

    open spec fn sub_req(self, rhs: Self) -> bool {
        fits_i32(self.width - rhs.width) && fits_i32(self.height - rhs.height)
    }

    open spec fn sub_spec(self, rhs: Self) -> Self::Output {
        Size { width: (self.width - rhs.width) as i32, height: (self.height - rhs.height) as i32 }
    }
}

impl core::ops::Mul<i32> for Size<i32> {
    type Output = Size<i32>;

    fn mul(self, rhs: i32) -> (r: Self::Output)
        ensures
            r.width == self.width * rhs,
            r.height == self.height * rhs,
    {
        Size { width: self.width * rhs, height: self.height * rhs }
    }
}

impl vstd::std_specs::ops::MulSpecImpl<i32> for Size<i32> {
    open spec fn obeys_mul_spec() -> bool {
        true
    }

    open spec fn mul_req(self, rhs: i32) -> bool {
        fits_i32(self.width * rhs) && fits_i32(self.height * rhs)
    }

    open spec fn mul_spec(self, rhs: i32) -> Self::Output {
        Size { width: (self.width * rhs) as i32, height: (self.height * rhs) as i32 }
    }
}

impl core::ops::Div<i32> for Size<i32> {
    type Output = Size<i32>;

    fn div(self, rhs: i32) -> (r: Self::Output)
        ensures
            r.width == div_trunc(self.width as int, rhs as int) as i32,
            r.height == div_trunc(self.height as int, rhs as int) as i32,
    {
        Size { width: self.width / rhs, height: self.height / rhs }
    }
}

impl vstd::std_specs::ops::DivSpecImpl<i32> for Size<i32> {
    open spec fn obeys_div_spec() -> bool {
        true
    }

    open spec fn div_req(self, rhs: i32) -> bool {
        div_ok(self.width, rhs) && div_ok(self.height, rhs)
    }

    open spec fn div_spec(self, rhs: i32) -> Self::Output {
        Size {
            width: div_trunc(self.width as int, rhs as int) as i32,
            height: div_trunc(self.height as int, rhs as int) as i32,
        }
    }
}

impl core::ops::Neg for Size<i32> {
    type Output = Size<i32>;

    fn neg(self) -> (r: Self::Output)
        ensures
            r.width == -self.width,
            r.height == -self.height,
    {
        Size { width: -self.width, height: -self.height }
    }
}

impl vstd::std_specs::ops::NegSpecImpl for Size<i32> {
    open spec fn obeys_neg_spec() -> bool {
        true
    }

    open spec fn neg_req(self) -> bool {
        self.width != i32::MIN && self.height != i32::MIN
    }

    open spec fn neg_spec(self) -> Self::Output {
        Size { width: (-self.width) as i32, height: (-self.height) as i32 }
    }
}

impl core::ops::AddAssign for Size<i32> {
    fn add_assign(&mut self, rhs: Self)
        ensures
            final(self).width == old(self).width.wrapping_add(rhs.width),
            final(self).height == old(self).height.wrapping_add(rhs.height),
    {
        self.width = self.width.wrapping_add(rhs.width);
        self.height = self.height.wrapping_add(rhs.height);
    }
}

impl core::ops::SubAssign for Size<i32> {
    fn sub_assign(&mut self, rhs: Self)
        ensures
            final(self).width == old(self).width.wrapping_sub(rhs.width),
            final(self).height == old(self).height.wrapping_sub(rhs.height),
    {
        self.width = self.width.wrapping_sub(rhs.width);
        self.height = self.height.wrapping_sub(rhs.height);
    }
}

impl core::ops::MulAssign<i32> for Size<i32> {
    fn mul_assign(&mut self, rhs: i32)
        ensures
            final(self).width == old(self).width.wrapping_mul(rhs),
            final(self).height == old(self).height.wrapping_mul(rhs),
    {
        self.width = self.width.wrapping_mul(rhs);
        self.height = self.height.wrapping_mul(rhs);
    }
}

impl core::ops::DivAssign<i32> for Size<i32> {
    fn div_assign(&mut self, rhs: i32)
        ensures
            final(self).width == div_assign_coord(old(self).width, rhs),
            final(self).height == div_assign_coord(old(self).height, rhs),
    {
        self.width = div_assign_coord_exec(self.width, rhs);
        self.height = div_assign_coord_exec(self.height, rhs);
    }
}

impl<T: Copy> Size<T> {
    /// Converts both dimensions with `Into`.
    pub fn convert<U: Copy>(self) -> (r: Size<U>)
        where
            T: Into<U>,
        ensures
            call_ensures(T::into, (self.width,), r.width),
            call_ensures(T::into, (self.height,), r.height),
    {
        Size { width: self.width.into(), height: self.height.into() }
    }
}

/// The four edges of a rectangle, as mathematical integers.
pub struct RectModel {
    pub left: int,
    pub top: int,
    pub right: int,
    pub bottom: int,
}

/// A rectangle given by its left, top, right and bottom edges.
///
/// The edges are kept as given: a rectangle is normalized (left not right of
/// right, top not below bottom) only when `normalize` is called.
#[derive(Debug, Clone, Copy, PartialEq, Eq, Hash, Default)]
pub struct Rect<T: Copy> {
    left: T,
    top: T,
    right: T,
    bottom: T,
}

impl View for Rect<i32> {
    type V = RectModel;

    closed spec fn view(&self) -> RectModel {
        RectModel {
            left: self.left as int,
            top: self.top as int,
            right: self.right as int,
            bottom: self.bottom as int,
        }
    }
}

/// The rectangle with the given edges.
pub open spec fn rect_model(left: int, top: int, right: int, bottom: int) -> RectModel {
    RectModel { left, top, right, bottom }
}

/// Whether every edge of `m` fits in an `i32`.
pub open spec fn model_fits(m: RectModel) -> bool {
    fits_i32(m.left) && fits_i32(m.top) && fits_i32(m.right) && fits_i32(m.bottom)
}

/// `m` with its edges swapped where needed so that left <= right and top <= bottom.
pub open spec fn normalized(m: RectModel) -> RectModel {
    RectModel {
        left: if m.left <= m.right { m.left } else { m.right },
        top: if m.top <= m.bottom { m.top } else { m.bottom },
        right: if m.left <= m.right { m.right } else { m.left },
        bottom: if m.top <= m.bottom { m.bottom } else { m.top },
    }
}

pub open spec fn is_normal(m: RectModel) -> bool {
    m.left <= m.right && m.top <= m.bottom
}

pub open spec fn min_int(a: int, b: int) -> int {
    if a <= b { a } else { b }
}

pub open spec fn max_int(a: int, b: int) -> int {
    if a >= b { a } else { b }
}

/// Whether two rectangles share at least one point, edges included.
pub open spec fn overlaps(a: RectModel, b: RectModel) -> bool {
    a.left <= b.right && a.top <= b.bottom && a.right >= b.left && a.bottom >= b.top
}

/// The common part of two rectangles.
pub open spec fn intersection(a: RectModel, b: RectModel) -> RectModel {
    RectModel {
        left: max_int(a.left, b.left),
        top: max_int(a.top, b.top),
        right: min_int(a.right, b.right),
        bottom: min_int(a.bottom, b.bottom),
    }
}

/// The smallest rectangle that holds both rectangles.
pub open spec fn union(a: RectModel, b: RectModel) -> RectModel {
    RectModel {
        left: min_int(a.left, b.left),
        top: min_int(a.top, b.top),
        right: max_int(a.right, b.right),
        bottom: max_int(a.bottom, b.bottom),
    }
}

fn min_i32(a: i32, b: i32) -> (r: i32)
    ensures
        r == min_int(a as int, b as int),
{
    if a <= b { a } else { b }
}

fn max_i32(a: i32, b: i32) -> (r: i32)
    ensures
        r == max_int(a as int, b as int),
{
    if a >= b { a } else { b }
}

impl Rect<i32> {
    /// Creates a rectangle from its edges, as given.
    pub fn new(left: i32, top: i32, right: i32, bottom: i32) -> (r: Self)
        ensures
            r@ == rect_model(left as int, top as int, right as int, bottom as int),
    {
        Self { left, top, right, bottom }
    }

    /// The left edge.
    pub fn left(&self) -> (r: i32)
        ensures
            r == self@.left,
    {
        self.left
    }

    /// The top edge.
    pub fn top(&self) -> (r: i32)
        ensures
            r == self@.top,
    {
        self.top
    }

    /// The right edge.
    pub fn right(&self) -> (r: i32)
        ensures
            r == self@.right,
    {
        self.right
    }

    /// The bottom edge.
    pub fn bottom(&self) -> (r: i32)
        ensures
            r == self@.bottom,
    {
        self.bottom
    }

    /// The corner at the left and top edges.
    pub fn left_top(&self) -> (r: Point<i32>)
        ensures
            r.x == self@.left,
            r.y == self@.top,
    {
        Point::new(self.left, self.top)
    }

    /// The corner at the right and top edges.
    pub fn right_top(&self) -> (r: Point<i32>)
        ensures
            r.x == self@.right,
            r.y == self@.top,
    {
        Point::new(self.right, self.top)
    }

    /// The corner at the left and bottom edges.
    pub fn left_bottom(&self) -> (r: Point<i32>)
        ensures
            r.x == self@.left,
            r.y == self@.bottom,
    {
        Point::new(self.left, self.bottom)
    }

    /// The corner at the right and bottom edges.
    pub fn right_bottom(&self) -> (r: Point<i32>)
        ensures
            r.x == self@.right,
            r.y == self@.bottom,
    {
        Point::new(self.right, self.bottom)
    }

    /// Sets the left edge.
    pub fn set_left(&mut self, left: i32)
        ensures
            final(self)@ == rect_model(left as int, old(self)@.top, old(self)@.right, old(self)@.bottom),
    {
        self.left = left;
    }

    /// Sets the top edge.
    pub fn set_top(&mut self, top: i32)
        ensures
            final(self)@ == rect_model(old(self)@.left, top as int, old(self)@.right, old(self)@.bottom),
    {
        self.top = top;
    }

    /// Sets the right edge.
    pub fn set_right(&mut self, right: i32)
        ensures
            final(self)@ == rect_model(old(self)@.left, old(self)@.top, right as int, old(self)@.bottom),
    {
        self.right = right;
    }

    /// Sets the bottom edge.
    pub fn set_bottom(&mut self, bottom: i32)
        ensures
            final(self)@ == rect_model(old(self)@.left, old(self)@.top, old(self)@.right, bottom as int),
    {
        self.bottom = bottom;
    }

    /// Sets the left and top edges.
    pub fn set_left_top(&mut self, left: i32, top: i32)
        ensures
            final(self)@ == rect_model(left as int, top as int, old(self)@.right, old(self)@.bottom),
    {
        self.left = left;
        self.top = top;
    }

    /// Sets the right and top edges.
    pub fn set_right_top(&mut self, right: i32, top: i32)
        ensures
            final(self)@ == rect_model(old(self)@.left, top as int, right as int, old(self)@.bottom),
    {
        self.right = right;
        self.top = top;
    }

    /// Sets the left and bottom edges.
    pub fn set_left_bottom(&mut self, left: i32, bottom: i32)
        ensures
            final(self)@ == rect_model(left as int, old(self)@.top, old(self)@.right, bottom as int),
    {
        self.left = left;
        self.bottom = bottom;
    }

    /// Sets the right and bottom edges.
    pub fn set_right_bottom(&mut self, right: i32, bottom: i32)
        ensures
            final(self)@ == rect_model(old(self)@.left, old(self)@.top, right as int, bottom as int),
    {
        self.right = right;
        self.bottom = bottom;
    }

    /// Right minus left; negative when the rectangle is not normalized.
    pub fn width(&self) -> (r: i32)
        requires
            fits_i32(self@.right - self@.left),
        ensures
            r == self@.right - self@.left,
    {
        self.right - self.left
    }

    /// Bottom minus top; negative when the rectangle is not normalized.
    pub fn height(&self) -> (r: i32)
        requires
            fits_i32(self@.bottom - self@.top),
        ensures
            r == self@.bottom - self@.top,
    {
        self.bottom - self.top
    }

    /// Width and height together.
    pub fn size(&self) -> (r: Size<i32>)
        requires
            fits_i32(self@.right - self@.left),
            fits_i32(self@.bottom - self@.top),
        ensures
            r.width == self@.right - self@.left,
            r.height == self@.bottom - self@.top,
    {
        Size::new(self.width(), self.height())
    }

    /// Whether left <= right and top <= bottom.
    pub fn is_normalized(&self) -> (r: bool)
        ensures
            r == is_normal(self@),
    {
        self.left <= self.right && self.top <= self.bottom
    }

    /// Swaps left with right and top with bottom where they are out of order.
    pub fn normalize(&mut self)
        ensures
            final(self)@ == normalized(old(self)@),
    {
        if self.is_normalized() {
            return;
        }
        if self.left > self.right {
            let l = self.left;
            self.left = self.right;
            self.right = l;
        }
        if self.top > self.bottom {
            let t = self.top;
            self.top = self.bottom;
            self.bottom = t;
        }
    }

    /// Whether `point` lies strictly inside the rectangle.
    pub fn contains(&self, point: Point<i32>) -> (r: bool)
        ensures
            r == (self@.left < point.x < self@.right && self@.top < point.y < self@.bottom),
    {
        point.x > self.left && point.x < self.right && point.y > self.top && point.y < self.bottom
    }

    /// Whether `point` lies inside the rectangle or on its edges.
    pub fn contains_with_bound(&self, point: Point<i32>) -> (r: bool)
        ensures
            r == (self@.left <= point.x <= self@.right && self@.top <= point.y <= self@.bottom),
    {
        point.x >= self.left && point.x <= self.right && point.y >= self.top && point.y
            <= self.bottom
    }

    /// Whether the two rectangles share at least one point, edges included.
    pub fn intersects(&self, other: &Rect<i32>) -> (r: bool)
        ensures
            r == overlaps(self@, other@),
    {
        self.left <= other.right && self.top <= other.bottom && self.right >= other.left
            && self.bottom >= other.top
    }

    /// The common part of the two rectangles, or `None` when they do not meet.
    pub fn intersected(&self, other: &Self) -> (r: Option<Self>)
        ensures
            r is Some <==> overlaps(self@, other@),
            r is Some ==> r->0@ == intersection(self@, other@),
    {
        if self.intersects(other) {
            Some(
                Self {
                    left: max_i32(self.left, other.left),
                    top: max_i32(self.top, other.top),
                    right: min_i32(self.right, other.right),
                    bottom: min_i32(self.bottom, other.bottom),
                },
            )
        } else {
            None
        }
    }

    /// The smallest rectangle that holds both rectangles.
    pub fn united(&self, other: &Rect<i32>) -> (r: Rect<i32>)
        ensures
            r@ == union(self@, other@),
    {
        Self {
            left: min_i32(self.left, other.left),
            top: min_i32(self.top, other.top),
            right: max_i32(self.right, other.right),
            bottom: max_i32(self.bottom, other.bottom),
        }
    }

    /// Moves each edge by the matching amount.
    pub fn adjust(&mut self, left: i32, top: i32, right: i32, bottom: i32)
        requires
            fits_i32(old(self)@.left + left),
            fits_i32(old(self)@.top + top),
            fits_i32(old(self)@.right + right),
            fits_i32(old(self)@.bottom + bottom),
        ensures
            final(self)@ == rect_model(
                old(self)@.left + left,
                old(self)@.top + top,
                old(self)@.right + right,
                old(self)@.bottom + bottom,
            ),
    {
        self.left = self.left + left;
        self.top = self.top + top;
        self.right = self.right + right;
        self.bottom = self.bottom + bottom;
    }

    /// The middle of the rectangle, each coordinate rounded toward zero.
    pub fn center(&self) -> (r: Point<i32>)
        requires
            fits_i32(self@.right + self@.left),
            fits_i32(self@.bottom + self@.top),
        ensures
            r.x == div_trunc(self@.right + self@.left, 2),
            r.y == div_trunc(self@.bottom + self@.top, 2),
    {
        Point::new((self.right + self.left) / 2, (self.bottom + self.top) / 2)
    }
}

impl From<(Point<i32>, Size<i32>)> for Rect<i32> {
    /// The rectangle at `pos` with the given size; an edge that leaves the
    /// `i32` range wraps around.
    fn from(v: (Point<i32>, Size<i32>)) -> (r: Self)
        ensures
            r@ == rect_model(
                v.0.x as int,
                v.0.y as int,
                v.0.x.wrapping_add(v.1.width) as int,
                v.0.y.wrapping_add(v.1.height) as int,
            ),
    {
        Self {
            left: v.0.x,
            top: v.0.y,
            right: v.0.x.wrapping_add(v.1.width),
            bottom: v.0.y.wrapping_add(v.1.height),
        }
    }
}

impl vstd::std_specs::convert::FromSpecImpl<(Point<i32>, Size<i32>)> for Rect<i32> {
    open spec fn obeys_from_spec() -> bool {
        true
    }

    closed spec fn from_spec(v: (Point<i32>, Size<i32>)) -> Self {
        Rect {
            left: v.0.x,
            top: v.0.y,
            right: v.0.x.wrapping_add(v.1.width),
            bottom: v.0.y.wrapping_add(v.1.height),
        }
    }
}

impl core::ops::BitAnd for Rect<i32> {
    type Output = Option<Rect<i32>>;

    /// Same as `intersected`.
    fn bitand(self, rhs: Self) -> (r: Option<Rect<i32>>)
        ensures
            r is Some <==> overlaps(self@, rhs@),
            r is Some ==> r->0@ == intersection(self@, rhs@),
    {
        self.intersected(&rhs)
    }
}

impl core::ops::BitOr for Rect<i32> {
    type Output = Rect<i32>;

    /// Same as `united`.
    fn bitor(self, rhs: Self) -> (r: Rect<i32>)
        ensures
            r@ == union(self@, rhs@),
    {
        self.united(&rhs)
    }
}

impl vstd::std_specs::ops::BitAndSpecImpl for Rect<i32> {
    open spec fn obeys_bitand_spec() -> bool {
        true
    }

    open spec fn bitand_req(self, rhs: Self) -> bool {
        true
    }

    closed spec fn bitand_spec(self, rhs: Self) -> Option<Rect<i32>> {
        if overlaps(self@, rhs@) {
            Some(
                Rect {
                    left: max_int(self.left as int, rhs.left as int) as i32,
                    top: max_int(self.top as int, rhs.top as int) as i32,
                    right: min_int(self.right as int, rhs.right as int) as i32,
                    bottom: min_int(self.bottom as int, rhs.bottom as int) as i32,
                },
            )
        } else {
            None
        }
    }
}

impl vstd::std_specs::ops::BitOrSpecImpl for Rect<i32> {
    open spec fn obeys_bitor_spec() -> bool {
        true
    }

    open spec fn bitor_req(self, rhs: Self) -> bool {
        true
    }

    closed spec fn bitor_spec(self, rhs: Self) -> Rect<i32> {
        Rect {
            left: min_int(self.left as int, rhs.left as int) as i32,
            top: min_int(self.top as int, rhs.top as int) as i32,
            right: max_int(self.right as int, rhs.right as int) as i32,
            bottom: max_int(self.bottom as int, rhs.bottom as int) as i32,
        }
    }
}

} // verus!
