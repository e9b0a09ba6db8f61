use ponsic_winsafe::{Point, Rect, Size};

#[test]
fn point_add_test() {
    let p1 = Point::new(1, 2);
    let p2 = Point::new(3, 4);
    let p3 = p1 + p2;
    assert_eq!(p3, Point::new(4, 6));
}

#[test]
fn point_sub_test() {
    let p1 = Point::new(1, 2);
    let p2 = Point::new(3, 4);
    let p3 = p1 - p2;
    assert_eq!(p3, Point::new(-2, -2));
}

#[test]
fn point_mul_test() {
    let p1 = Point::new(1, 2);
    let p2 = p1 * 3;
    assert_eq!(p2, Point::new(3, 6));
}

#[test]
fn point_div_test() {
    let p1 = Point::new(1, 2);
    let p2 = p1 / 2;
    assert_eq!(p2, Point::new(0, 1));
}

#[test]
fn point_neg_test() {
    let p1 = Point::new(1, 2);
    let p2 = -p1;
    assert_eq!(p2, Point::new(-1, -2));
}

#[test]
fn point_add_assign_test() {
    let mut p1 = Point::new(1, 2);
    let p2 = Point::new(3, 4);
    p1 += p2;
    assert_eq!(p1, Point::new(4, 6));
}

#[test]
fn point_sub_assign_test() {
    let mut p1 = Point::new(1, 2);
    let p2 = Point::new(3, 4);
    p1 -= p2;
    assert_eq!(p1, Point::new(-2, -2));
}

#[test]
fn point_mul_assign_test() {
    let mut p1 = Point::new(1, 2);
    p1 *= 3;
    assert_eq!(p1, Point::new(3, 6));
}

#[test]
fn point_div_assign_test() {
    let mut p1 = Point::new(1, 2);
    p1 /= 2;
    assert_eq!(p1, Point::new(0, 1));
}

#[test]
fn point_div_negative_rounds_toward_zero() {
    assert_eq!(Point::new(-7, 7) / 2, Point::new(-3, 3));
}

#[test]
fn point_assign_ops_wrap_and_zero_divisor() {
    let mut p = Point::new(i32::MAX, 5);
    p += Point::new(1, 0);
    assert_eq!(p, Point::new(i32::MIN, 5));
    let mut q = Point::new(8, -8);
    q /= 0;
    assert_eq!(q, Point::new(8, -8));
}

#[test]
fn point_from_tuple() {
    assert_eq!(Point::from((3, -4)), Point::new(3, -4));
}

#[test]
fn test_size_add() {
    let a = Size::new(1, 2);
    let b = Size::new(3, 4);
    let c = a + b;
    assert_eq!(c, Size::new(4, 6));
}

#[test]
fn test_size_sub() {
    let a = Size::new(1, 2);
    let b = Size::new(3, 4);
    let c = a - b;
    assert_eq!(c, Size::new(-2, -2));
}

#[test]
fn test_size_mul() {
    let a = Size::new(1, 2);
    let b = a * 3;
    assert_eq!(b, Size::new(3, 6));
}

#[test]
fn test_size_div() {
    let a = Size::new(1, 2);
    let b = a / 2;
    assert_eq!(b, Size::new(0, 1));
}

#[test]
fn test_size_neg() {
    let a = Size::new(1, 2);
    let b = -a;
    assert_eq!(b, Size::new(-1, -2));
}

#[test]
fn test_size_add_assign() {
    let mut a = Size::new(1, 2);
    let b = Size::new(3, 4);
    a += b;
    assert_eq!(a, Size::new(4, 6));
}

#[test]
fn test_size_sub_assign() {
    let mut a = Size::new(1, 2);
    let b = Size::new(3, 4);
    a -= b;
    assert_eq!(a, Size::new(-2, -2));
}

#[test]
fn test_size_mul_assign() {
    let mut a = Size::new(1, 2);
    a *= 3;
    assert_eq!(a, Size::new(3, 6));
}

#[test]
fn test_size_div_assign() {
    let mut a = Size::new(1, 2);
    a /= 2;
    assert_eq!(a, Size::new(0, 1));
}

#[test]
fn size_convert_widens() {
    let s: Size<u16> = Size::new(7, 9);
    let t: Size<u32> = s.convert();
    assert_eq!(t, Size::new(7u32, 9u32));
}

#[test]
fn is_normalized_test() {
    let rect = Rect::new(1, 2, 3, 4);
    assert!(rect.is_normalized());
    let rect = Rect::new(3, 2, 1, 4);
    assert!(!rect.is_normalized());
}

#[test]
fn normalize_test() {
    let mut rect = Rect::new(3, 2, 1, 4);
    rect.normalize();
    assert_eq!(rect, Rect::new(1, 2, 3, 4));
}

#[test]
fn contains_test() {
    let rect = Rect::new(1, 2, 3, 4);
    assert!(rect.contains(Point::new(2, 3)));
    assert!(!rect.contains(Point::new(0, 0)));
}

#[test]
fn contains_with_bound_test() {
    let rect = Rect::new(1, 2, 3, 4);
    assert!(rect.contains_with_bound(Point::new(2, 3)));
    assert!(rect.contains_with_bound(Point::new(1, 2)));
    assert!(!rect.contains_with_bound(Point::new(0, 0)));
}

#[test]
fn intersects_test() {
    let rect1 = Rect::new(1, 2, 3, 4);
    let rect2 = Rect::new(2, 3, 4, 5);
    assert!(rect1.intersects(&rect2));
    let rect3 = Rect::new(4, 5, 6, 7);
    assert!(!rect1.intersects(&rect3));
}

#[test]
fn intersected_test() {
    let rect1 = Rect::new(1, 2, 3, 4);
    let rect2 = Rect::new(2, 3, 4, 5);
    assert_eq!(rect1.intersected(&rect2), Some(Rect::new(2, 3, 3, 4)));
    let rect3 = Rect::new(4, 5, 6, 7);
    assert_eq!(rect1.intersected(&rect3), None);
}

#[test]
fn united_test() {
    let rect1 = Rect::new(1, 2, 3, 4);
    let rect2 = Rect::new(2, 3, 4, 5);
    assert_eq!(rect1.united(&rect2), Rect::new(1, 2, 4, 5));
}

#[test]
fn adjust_test() {
    let mut rect = Rect::new(1, 2, 3, 4);
    rect.adjust(1, 2, 3, 4);
    assert_eq!(rect, Rect::new(2, 4, 6, 8));
}

#[test]
fn center_test() {
    let rect = Rect::new(1, 2, 3, 4);
    assert_eq!(rect.center(), Point::new(2, 3));
}

#[test]
fn rect_operators_and_accessors() {
    let a = Rect::new(1, 2, 3, 4);
    let b = Rect::new(2, 3, 4, 5);
    assert_eq!(a & b, Some(Rect::new(2, 3, 3, 4)));
    assert_eq!(a | b, Rect::new(1, 2, 4, 5));
    assert_eq!(a & Rect::new(10, 10, 11, 11), None);
    assert_eq!((a.left(), a.top(), a.right(), a.bottom()), (1, 2, 3, 4));
    assert_eq!(a.right_bottom(), Point::new(3, 4));
    assert_eq!(a.size(), Size::new(2, 2));
    let r = Rect::from((Point::new(100, 100), Size::new(800, 600)));
    assert_eq!(r, Rect::new(100, 100, 900, 700));
}

#[test]
fn rect_setters_keep_edges_as_given() {
    let mut r = Rect::new(0, 0, 10, 10);
    r.set_left(20);
    assert_eq!(r, Rect::new(20, 0, 10, 10));
    assert!(!r.is_normalized());
    assert_eq!(r.width(), -10);
    r.set_right_bottom(30, 40);
    assert_eq!(r, Rect::new(20, 0, 30, 40));
}
