use console_hal::geometry::{Point, Rect, Size, Vector};

#[test]
fn centered_rect_in_even_difference() {
    let outer = Rect::new(Point::new(0, 0), Size::new(10, 10));
    let inner = outer.centered(Size::new(4, 4));
    assert_eq!(inner.origin, Point::new(3, 3));
    assert_eq!(inner.size, Size::new(4, 4));
}

#[test]
fn centered_rect_truncates_on_odd_difference() {
    // Difference 5: the midpoint arithmetic truncates, the new rectangle
    // sits toward the origin.
    let outer = Rect::new(Point::new(0, 0), Size::new(9, 9));
    let inner = outer.centered(Size::new(4, 4));
    assert_eq!(inner.origin, Point::new(2, 2));
}

#[test]
fn centered_rect_of_equal_size_keeps_the_origin() {
    let outer = Rect::new(Point::new(-7, 11), Size::new(10, 10));
    let inner = outer.centered(Size::new(10, 10));
    assert_eq!(inner, outer);
}

#[test]
fn centered_rect_respects_the_outer_origin() {
    let outer = Rect::new(Point::new(20, 30), Size::new(100, 50));
    let inner = outer.centered(Size::new(60, 20));
    assert_eq!(inner.origin, Point::new(40, 45));
}

#[test]
fn point_translated_by_vector() {
    let p = Point::new(3, -4);
    let q = p.translated(Vector::new(-5, 10));
    assert_eq!(q, Point::new(-2, 6));
}

#[test]
fn rect_translated_by_point() {
    let r = Rect::new(Point::new(1, 2), Size::new(8, 8));
    let moved = r.translated(Point::new(10, -2));
    assert_eq!(moved, Rect::new(Point::new(11, 0), Size::new(8, 8)));
}

#[test]
fn constructors_store_their_fields() {
    let s: Size<u32> = Size::new(7, 9);
    assert_eq!(s.width, 7);
    assert_eq!(s.height, 9);
    let v: Vector<i32> = Vector::new(-1, 2);
    assert_eq!(v.x, -1);
    assert_eq!(v.y, 2);
}
