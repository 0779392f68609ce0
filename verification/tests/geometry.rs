//! Tests of the display geometry value type.

use captis::Display;

#[test]
fn constructor_stores_width_and_height() {
    let d = Display::new(-10, 20, 1920, 1080);
    assert_eq!(d.width(), 1920);
    assert_eq!(d.height(), 1080);
}

#[test]
fn degenerate_displays_can_be_described() {
    let d = Display::new(0, 0, 0, 0);
    assert_eq!(d.width(), 0);
    assert_eq!(d.height(), 0);
}

#[test]
fn displays_compare_by_all_fields() {
    let a = Display::new(1, 2, 3, 4);
    assert_eq!(a, Display::new(1, 2, 3, 4));
    assert_ne!(a, Display::new(0, 2, 3, 4));
    assert_ne!(a, Display::new(1, 0, 3, 4));
    assert_ne!(a, Display::new(1, 2, 5, 4));
    assert_ne!(a, Display::new(1, 2, 3, 5));
    let b = a;
    assert_eq!(a, b);
}
