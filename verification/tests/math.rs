use geom3d::math::{center, distance, Point};

#[test]
fn it_works() {
    let p = Point {
        ..Default::default()
    };
    assert_eq!(p.x, 0);
    assert_eq!(p.y, 0);
    assert_eq!(p.z, 0);
}

#[test]
fn math_point_new_keeps_the_coordinates() {
    let p = Point::new(1, -2, 3);
    assert_eq!((p.x, p.y, p.z), (1, -2, 3));
}

#[test]
fn math_distance_is_the_truncated_root() {
    let o = Point::default();
    assert_eq!(distance(&o, &Point::new(1, 1, 1)), 1);
    assert_eq!(distance(&o, &Point::new(3, 4, 0)), 5);
    assert_eq!(distance(&o, &Point::new(2, 2, 2)), 3);
    assert_eq!(distance(&Point::new(-3, 7, 2), &Point::new(9, -2, 10)), 17);
    assert_eq!(distance(&o, &Point::new(46340, 0, 0)), 46340);
    assert_eq!(distance(&o, &Point::new(26754, 26754, 26754)), 46339);
}

#[test]
fn math_distance_is_symmetric_and_zero_on_one_point() {
    let a = Point::new(4, -9, 12);
    let b = Point::new(-6, 2, 5);
    assert_eq!(distance(&a, &b), 16);
    assert_eq!(distance(&b, &a), 16);
    assert_eq!(distance(&a, &a), 0);
}

#[test]
fn math_center_rounds_toward_zero() {
    let c = center(&Point::new(0, 0, 0), &Point::new(1, -1, 5));
    assert_eq!((c.x, c.y, c.z), (0, 0, 2));
    let d = center(&Point::new(-4, 10, -7), &Point::new(-1, -3, 5));
    assert_eq!((d.x, d.y, d.z), (-2, 3, -1));
    let e = center(&Point::new(i32::MIN, i32::MAX, 0), &Point::new(i32::MAX, 0, i32::MIN));
    assert_eq!((e.x, e.y, e.z), (0, 1073741823, -1073741824));
}

#[test]
fn math_center_is_symmetric_and_fixes_one_point() {
    let a = Point::new(4, -9, 12);
    let b = Point::new(-7, 2, 5);
    let ab = center(&a, &b);
    let ba = center(&b, &a);
    assert_eq!((ab.x, ab.y, ab.z), (-1, -3, 8));
    assert_eq!((ba.x, ba.y, ba.z), (-1, -3, 8));
    let aa = center(&a, &a);
    assert_eq!((aa.x, aa.y, aa.z), (4, -9, 12));
}
