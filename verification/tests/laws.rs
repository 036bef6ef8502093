use geom3d::geometry::{center, distance, Point, Vector};
use geom3d::root::isqrt;

#[test]
fn center_of_a_point_and_itself() {
    let p = Point::new(3i32, -5i32, 8i32);
    assert_eq!(center(&p, &p), Point::new(3, -5, 8));
    let q = Point::new(1073741823i32, -1073741824i32, -1i32);
    assert_eq!(center(&q, &q), Point::new(1073741823, -1073741824, -1));
}

#[test]
fn center_is_symmetric() {
    let a = Point::new(4i64, -9i64, 12i64);
    let b = Point::new(-7i64, 2i64, 5i64);
    assert_eq!(center(&a, &b), Point::new(-1, -3, 8));
    assert_eq!(center(&b, &a), Point::new(-1, -3, 8));
}

#[test]
fn distance_is_symmetric() {
    let a = Point::new(4i32, -9i32, 12i32);
    let b = Point::new(-6i32, 2i32, 5i32);
    assert_eq!(distance(&a, &b), 16);
    assert_eq!(distance(&b, &a), 16);
}

#[test]
fn distance_of_a_point_to_itself() {
    let p = Point::new(i32::MAX, i32::MIN, 17);
    assert_eq!(distance(&p, &p), 0);
    let q = Point::new(i128::MIN, i128::MAX, 0);
    assert_eq!(distance(&q, &q), 0);
}

#[test]
fn size_of_the_difference_is_the_distance() {
    let a = Point::new(-3i32, 7i32, 2i32);
    let b = Point::new(9i32, -2i32, 10i32);
    assert_eq!(Vector::from(&a, &b).size(), 17);
    assert_eq!(distance(&a, &b), 17);
    let c = Point::new(1i16, 1i16, 1i16);
    let d = Point::new(2i16, 3i16, 4i16);
    assert_eq!(Vector::from(&c, &d).size(), 3);
    assert_eq!(distance(&c, &d), 3);
}

#[test]
fn normalized_size_is_one_where_a_coordinate_spans_the_vector() {
    let n = Vector::new(2i32, 0i32, 0i32).normalize().unwrap();
    assert_eq!(n.size(), 1);
    let m = Vector::new(1i32, 1i32, 1i32).normalize().unwrap();
    assert_eq!(m.size(), 1);
    let k = Vector::new(-9i32, 4i32, 1i32).normalize().unwrap();
    assert_eq!(k, Vector::new(-1, 0, 0));
    assert_eq!(k.size(), 1);
}

#[test]
fn normalized_size_is_zero_where_no_coordinate_spans_the_vector() {
    let n = Vector::new(3i32, 4i32, 0i32).normalize().unwrap();
    assert_eq!(n, Vector::new(0, 0, 0));
    assert_eq!(n.size(), 0);
}

#[test]
fn isqrt_is_the_integer_part_of_the_root() {
    assert_eq!(isqrt(0), 0);
    assert_eq!(isqrt(1), 1);
    assert_eq!(isqrt(2), 1);
    assert_eq!(isqrt(3), 1);
    assert_eq!(isqrt(4), 2);
    assert_eq!(isqrt(24), 4);
    assert_eq!(isqrt(25), 5);
    assert_eq!(isqrt(26), 5);
    assert_eq!(isqrt(1_000_000), 1000);
    assert_eq!(isqrt(999_999), 999);
    assert_eq!(isqrt(18446744073709551615), 4294967295);
    assert_eq!(isqrt(18446744073709551616), 4294967296);
    assert_eq!(isqrt(u128::MAX), u64::MAX);
    assert_eq!(isqrt(340282366920938463426481119284349108225), u64::MAX);
    assert_eq!(isqrt(340282366920938463426481119284349108224), u64::MAX - 1);
}
