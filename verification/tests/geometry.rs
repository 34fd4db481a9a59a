use my_crate::geometry::Rectangle;

#[test]
fn larger_can_hold_smaller() {
    let larger = Rectangle { width: 8, height: 7 };
    let smaller = Rectangle { width: 5, height: 1 };
    assert!(larger.can_hold(&smaller));
}

#[test]
fn smaller_cannot_hold_larger() {
    let larger = Rectangle { width: 8, height: 7 };
    let smaller = Rectangle { width: 5, height: 1 };
    assert!(!smaller.can_hold(&larger));
}

#[test]
fn equal_rectangles_cannot_hold_each_other() {
    let a = Rectangle::new(4, 4);
    let b = Rectangle::new(4, 4);
    assert!(!a.can_hold(&b));
}

#[test]
fn area_multiplies_the_sides() {
    let rect = Rectangle::new(30, 50);
    assert_eq!(rect.area(), 1500);
    let thin = Rectangle::new(0, 7);
    assert_eq!(thin.area(), 0);
}

#[test]
fn resize_replaces_the_dimensions() {
    let mut rect = Rectangle::new(1, 2);
    rect.resize(10, 20);
    assert_eq!(rect.width, 10);
    assert_eq!(rect.height, 20);
}
