use scene_pipeline::geometry::{Point, Rectangle, Size, Vector};
use scene_pipeline::mouse::{Cursor, Interaction};

fn bounds() -> Rectangle {
    Rectangle { x: 10, y: 20, width: 100, height: 50 }
}

fn at(x: i32, y: i32) -> Cursor {
    Cursor::Available(Point { x, y })
}

#[test]
fn a_rectangle_covers_its_near_edges_only() {
    let b = bounds();
    assert!(b.contains(Point { x: 10, y: 20 }));
    assert!(b.contains(Point { x: 109, y: 69 }));
    assert!(b.contains(Point { x: 60, y: 45 }));
    assert!(!b.contains(Point { x: 110, y: 45 }));
    assert!(!b.contains(Point { x: 60, y: 70 }));
    assert!(!b.contains(Point { x: 9, y: 45 }));
    assert!(!b.contains(Point { x: 60, y: 19 }));
}

#[test]
fn an_empty_rectangle_covers_nothing() {
    let flat = Rectangle { x: 10, y: 20, width: 0, height: 50 };
    assert!(!flat.contains(Point { x: 10, y: 20 }));
    let thin = Rectangle { x: 10, y: 20, width: 50, height: 0 };
    assert!(!thin.contains(Point { x: 10, y: 20 }));
}

#[test]
fn covering_at_the_ends_of_the_range() {
    let all = Rectangle { x: i32::MIN, y: i32::MIN, width: u32::MAX, height: u32::MAX };
    assert!(all.contains(Point { x: i32::MIN, y: i32::MIN }));
    assert!(all.contains(Point { x: i32::MAX - 1, y: 0 }));
    assert!(!all.contains(Point { x: i32::MAX, y: 0 }));
    let far = Rectangle { x: i32::MAX, y: i32::MAX, width: u32::MAX, height: 1 };
    assert!(far.contains(Point { x: i32::MAX, y: i32::MAX }));
    assert!(!far.contains(Point { x: i32::MAX - 1, y: i32::MAX }));
}

#[test]
fn rectangle_parts() {
    let b = Rectangle::new(Point::new(10, 20), Size::new(100, 50));
    assert_eq!(b, bounds());
    assert_eq!(b.position(), Point { x: 10, y: 20 });
    assert_eq!(b.size(), Size { width: 100, height: 50 });
    assert_eq!(Rectangle::with_size(Size::new(3, 4)), Rectangle { x: 0, y: 0, width: 3, height: 4 });
    assert_eq!(Point::origin(), Point { x: 0, y: 0 });
    assert_eq!(Size::zero(), Size { width: 0, height: 0 });
    assert_eq!(Point::new(i32::MAX, 0).minus(Point::new(i32::MIN, 1)), Vector { x: 4_294_967_295, y: -1 });
}

#[test]
fn a_cursor_is_over_what_covers_it() {
    assert!(at(10, 20).is_over(bounds()));
    assert!(at(109, 69).is_over(bounds()));
    assert!(!at(110, 69).is_over(bounds()));
    assert!(!at(0, 0).is_over(bounds()));
    assert!(!Cursor::Unavailable.is_over(bounds()));
}

#[test]
fn cursor_positions() {
    assert_eq!(at(40, 45).position(), Some(Point { x: 40, y: 45 }));
    assert_eq!(Cursor::Unavailable.position(), None);
    assert_eq!(at(40, 45).position_over(bounds()), Some(Point { x: 40, y: 45 }));
    assert_eq!(at(4, 45).position_over(bounds()), None);
    assert_eq!(Cursor::Unavailable.position_over(bounds()), None);
    assert_eq!(at(40, 45).position_in(bounds()), Some(Vector { x: 30, y: 25 }));
    assert_eq!(at(10, 20).position_in(bounds()), Some(Vector { x: 0, y: 0 }));
    assert_eq!(at(110, 20).position_in(bounds()), None);
    assert_eq!(Cursor::Unavailable.position_in(bounds()), None);
    assert_eq!(at(4, 45).position_from(Point { x: 10, y: 20 }), Some(Vector { x: -6, y: 25 }));
    assert_eq!(Cursor::Unavailable.position_from(Point { x: 10, y: 20 }), None);
}

#[test]
fn the_pointer_is_idle_by_default() {
    assert_eq!(Interaction::default(), Interaction::Idle);
}
