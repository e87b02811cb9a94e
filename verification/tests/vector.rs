use linalg3d::axis::Axis;
use linalg3d::vector::Vector;

#[test]
fn test_vector_new() {
    let v = Vector::new(1, 2, 3);
    assert_eq!(v.x, 1);
    assert_eq!(v.y, 2);
    assert_eq!(v.z, 3);
}

#[test]
fn test_vector_broadcast() {
    let v = Vector::broadcast(7);
    assert_eq!(v, Vector::new(7, 7, 7));
}

#[test]
fn test_vector_len_sqr() {
    let v = Vector::new(1, 2, 3);
    assert_eq!(v.length_sqr(), 1 + 4 + 9);
}

#[test]
fn test_vector_index() {
    let mut v = Vector::new(1, 2, 3);

    assert!(v.index(0) == 1 && v.index(1) == 2 && v.index(2) == 3);
    let x = v.index_mut(1);
    *x = 5;

    assert_eq!(v.index(1), 5);
    assert_eq!(v.y, 5);
}

#[test]
fn test_vector_index_by_axis() {
    let v = Vector::new(10, 20, 30);
    assert_eq!(Axis::X.to_index(), 0);
    assert_eq!(Axis::Y.to_index(), 1);
    assert_eq!(Axis::Z.to_index(), 2);
    assert_eq!(v.index(Axis::X.to_index()), 10);
    assert_eq!(v.index(Axis::Y.to_index()), 20);
    assert_eq!(v.index(Axis::Z.to_index()), 30);
}

#[test]
fn test_vector_add() {
    let v1 = Vector::new(3, 2, 1);
    let v2 = Vector::new(5, 6, 7);
    let ans = Vector::new(8, 8, 8);

    assert_eq!(v1.add(&v2), ans);
    assert_eq!(v2.add(&v1), ans);
}

#[test]
fn test_vector_subtraction() {
    let v1 = Vector::new(3, 2, 1);
    let v2 = Vector::new(5, 6, 7);
    let ans = Vector::new(-2, -4, -6);

    assert_eq!(v1.sub(&v2), ans);
}

#[test]
fn test_vector_negate() {
    let v1 = Vector::new(3, 2, 1);
    let ans = Vector::new(-3, -2, -1);

    assert_eq!(v1.neg(), ans);
}

#[test]
fn test_vector_mult_scalar() {
    let v1 = Vector::new(3, 2, 1);
    let ans = Vector::new(6, 4, 2);

    assert_eq!(v1.mul(2), ans);
    assert_eq!(linalg3d::vector::scale(2, &v1), ans);
}

#[test]
fn test_vector_dot() {
    let a = Vector::new(3, 2, 1);
    let b = Vector::new(5, 6, 7);

    assert_eq!(a.dot(&b), 15 + 12 + 7);
    assert_eq!(b.dot(&a), a.dot(&b));
    assert_eq!(linalg3d::vector::dot(&a, &b), 34);
}

#[test]
fn test_vector_cross() {
    let a = Vector::new(3, 2, 1);
    let b = Vector::new(5, 6, 7);
    let ans = Vector::new(8, -16, 8);

    assert_eq!(a.cross(&b), ans);
    assert_eq!(b.cross(&a), ans.neg());
    assert_eq!(linalg3d::vector::cross(&a, &b), ans);
}

#[test]
fn test_vector_cross_basis() {
    let x = Vector::new(1, 0, 0);
    let y = Vector::new(0, 1, 0);
    let z = Vector::new(0, 0, 1);

    assert_eq!(x.cross(&y), z);
    assert_eq!(y.cross(&z), x);
    assert_eq!(z.cross(&x), y);
}

#[test]
fn test_vector_add_assign() {
    let mut v = Vector::new(1, 1, 1);
    v.add_assign(&Vector::new(3, 2, 1));
    assert_eq!(v, Vector::new(4, 3, 2));
}

#[test]
fn test_vector_sub_assign() {
    let mut v = Vector::new(4, 3, 2);
    v.sub_assign(&Vector::new(3, 2, 1));
    assert_eq!(v, Vector::new(1, 1, 1));
}

#[test]
fn test_vector_mul_assign() {
    let mut v = Vector::new(3, 2, 1);
    v.mul_assign(3);
    assert_eq!(v, Vector::new(9, 6, 3));
}

#[test]
fn test_vector_partial_order() {
    let a = Vector::new(1, 1, 1);
    let b = Vector::new(2, 2, 2);
    let mixed = Vector::new(0, 5, 0);

    assert!(a < b);
    assert!(b > a);
    assert_eq!(a.partial_cmp(&a), Some(std::cmp::Ordering::Equal));
    assert_eq!(a.partial_cmp(&mixed), None);
    assert!(!(a < mixed) && !(a > mixed) && a != mixed);
}

#[test]
fn test_vector_zero_length_sqr() {
    let v = Vector::broadcast(0);
    assert_eq!(v.length_sqr(), 0);
}

#[test]
fn test_vector_length_sqr_negate_invariant() {
    let v = Vector::new(3, -2, 1);
    assert_eq!(v.neg().length_sqr(), v.length_sqr());
}
