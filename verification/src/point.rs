//! A position in space with exact signed 64-bit coordinates.
//!
//! A `Point` differs from a [`Vector`](crate::vector::Vector) semantically,
//! not in representation: the difference of two points is a displacement
//! `Vector`, and a point translated by a `Vector` is a `Point`. Both share
//! the unbounded-integer model [`Vec3`](crate::vector::Vec3), a point's view
//! being its coordinate triple.

use vstd::prelude::*;

use crate::vector::Vec3;
use crate::vector::Vector;
use crate::vector::lemma_length_sqr_neg;
use crate::vector::lemma_sub_antisymmetric;

verus! {

/// A position in 3-dimensional space with exact `i64` coordinates.
#[derive(Debug, Clone, Copy, PartialEq, Eq, Structural)]
pub struct Point {
    pub x: i64,
    pub y: i64,
    pub z: i64,
}

impl View for Point {
    type V = Vec3;

    open spec fn view(&self) -> Vec3 {
        Vec3 { x: self.x as int, y: self.y as int, z: self.z as int }
    }
}

impl Point {
    /// Initialize the point and set values for x, y, z.
    pub fn new(x: i64, y: i64, z: i64) -> (p: Point)
        ensures
            p.x == x,
            p.y == y,
            p.z == z,
    {
        Point { x, y, z }
    }

    /// The displacement vector pointing from `b` to this point:
    /// component-wise difference of the coordinates.
    pub fn sub(&self, b: &Point) -> (r: Vector)
        requires
            self@.sub(b@).fits(),
        ensures
            r@ == self@.sub(b@),
    {
        Vector::new(self.x - b.x, self.y - b.y, self.z - b.z)
    }

    /// This point translated by the displacement `v`.
    pub fn add(&self, v: &Vector) -> (r: Point)
        requires
            self@.add(v@).fits(),
        ensures
            r@ == self@.add(v@),
    {
        Point::new(self.x + v.x, self.y + v.y, self.z + v.z)
    }

    /// The squared Euclidean distance between two points: the squared
    /// length of their difference.
    pub fn distance_sqr(&self, b: &Point) -> (r: i64)
        requires
            self@.sub(b@).fits(),
            self@.sub(b@).length_sqr() <= i64::MAX,
        ensures
            r == self@.sub(b@).length_sqr(),
    {
        let d = self.sub(b);
        d.length_sqr()
    }
}

/// The squared distance between two points is symmetric.
pub proof fn lemma_distance_sqr_symmetric(a: Vec3, b: Vec3)
    ensures
        a.sub(b).length_sqr() == b.sub(a).length_sqr(),
{
    lemma_sub_antisymmetric(a, b);
    lemma_length_sqr_neg(b.sub(a));
}

} // verus!
