use linalg3d::point::Point;
use linalg3d::vector::Vector;

#[test]
fn test_point_new() {
    let p = Point::new(1, 2, 3);
    assert_eq!(p.x, 1);
    assert_eq!(p.y, 2);
    assert_eq!(p.z, 3);
}

#[test]
fn test_point_distance_sqr() {
    let a = Point::new(0, 0, 0);
    let b = Point::new(3, 4, 0);
    assert_eq!(b.distance_sqr(&a), 25);
}

#[test]
fn test_point_distance_sqr_symmetric() {
    let a = Point::new(1, -2, 3);
    let b = Point::new(-4, 5, -6);
    assert_eq!(a.distance_sqr(&b), b.distance_sqr(&a));
    assert_eq!(a.distance_sqr(&b), 25 + 49 + 81);
}

#[test]
fn test_point_subtract() {
    let v = Vector::new(-2, -4, -6);

    let p1 = Point::new(3, 2, 1);
    let p2 = Point::new(5, 6, 7);

    assert_eq!(p1.sub(&p2), v);
}

#[test]
fn test_point_add_vector() {
    let p = Point::new(1, 2, 3);
    let v = Vector::new(10, 20, 30);
    let q = p.add(&v);

    assert_eq!(q, Point::new(11, 22, 33));
    assert_eq!(q.sub(&p), v);
}
