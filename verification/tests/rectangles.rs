use guessing_game::rectangles;
use guessing_game::rectangles_improved::Rectangle;

#[test]
fn free_function_area() {
    let rect = rectangles::Rectangle { width: 30, height: 50 };
    assert_eq!(rectangles::area(&rect), 1500);
}

#[test]
fn method_area() {
    let rect1 = Rectangle { width: 30, height: 50 };
    assert_eq!(rect1.area(), 1500);
}

#[test]
fn width_is_nonzero_check() {
    assert!(Rectangle { width: 30, height: 50 }.width());
    assert!(!Rectangle { width: 0, height: 50 }.width());
}

#[test]
fn can_hold_needs_both_dimensions() {
    let rect1 = Rectangle { width: 30, height: 50 };
    let rect2 = Rectangle { width: 10, height: 40 };
    let rect3 = Rectangle { width: 60, height: 45 };
    assert!(rect1.can_hold(&rect2));
    assert!(!rect1.can_hold(&rect3));
    assert!(!rect2.can_hold(&rect1));
}

#[test]
fn square_has_equal_sides() {
    let sq = Rectangle::square(3);
    assert_eq!(sq.width, 3);
    assert_eq!(sq.height, 3);
    assert_eq!(sq.area(), 9);
}
