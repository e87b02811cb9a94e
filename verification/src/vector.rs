//! A free three-component vector with exact signed 64-bit coordinates.
//!
//! Every operation carries a contract that pins the result down to the
//! component formula it computes, stated over the unbounded-integer model
//! [`Vec3`]. Preconditions hold exactly what the machine word forces: the
//! mathematical result of each intermediate step must fit in an `i64`.

use core::cmp::Ordering;
use vstd::pervasive::unreached;
use vstd::prelude::*;

verus! {

/// Mathematical model of a vector: a triple of unbounded integers.
pub ghost struct Vec3 {
    pub x: int,
    pub y: int,
    pub z: int,
}

/// Does `n` fit in a signed 64-bit word?
pub open spec fn fits_i64(n: int) -> bool {
    i64::MIN <= n <= i64::MAX
}

impl Vec3 {
    /// Component-wise sum.
    pub open spec fn add(self, b: Vec3) -> Vec3 {
        Vec3 { x: self.x + b.x, y: self.y + b.y, z: self.z + b.z }
    }

    /// Component-wise difference.
    pub open spec fn sub(self, b: Vec3) -> Vec3 {
        Vec3 { x: self.x - b.x, y: self.y - b.y, z: self.z - b.z }
    }

    /// Component-wise negation.
    pub open spec fn neg(self) -> Vec3 {
        Vec3 { x: -self.x, y: -self.y, z: -self.z }
    }

    /// Every component scaled by `s`.
    pub open spec fn scale(self, s: int) -> Vec3 {
        Vec3 { x: self.x * s, y: self.y * s, z: self.z * s }
    }

    /// The dot product.
    pub open spec fn dot(self, b: Vec3) -> int {
        self.x * b.x + self.y * b.y + self.z * b.z
    }

    /// The right-handed cross product.
    pub open spec fn cross(self, b: Vec3) -> Vec3 {
        Vec3 {
            x: self.y * b.z - self.z * b.y,
            y: self.z * b.x - self.x * b.z,
            z: self.x * b.y - self.y * b.x,
        }
    }

    /// The squared Euclidean length: the vector dotted with itself.
    pub open spec fn length_sqr(self) -> int {
        self.dot(self)
    }

    /// The component selected by index `i`: 0 is x, 1 is y, 2 is z.
    pub open spec fn axis(self, i: int) -> int {
        if i == 0 {
            self.x
        } else if i == 1 {
            self.y
        } else {
            self.z
        }
    }

    /// This triple with the component selected by `i` replaced by `v`.
    pub open spec fn with_axis(self, i: int, v: int) -> Vec3 {
        if i == 0 {
            Vec3 { x: v, ..self }
        } else if i == 1 {
            Vec3 { y: v, ..self }
        } else {
            Vec3 { z: v, ..self }
        }
    }

    /// Do all three components fit in a signed 64-bit word?
    pub open spec fn fits(self) -> bool {
        fits_i64(self.x) && fits_i64(self.y) && fits_i64(self.z)
    }

    /// Can a dot product be evaluated left to right in 64-bit words?
    /// Each product and each partial sum must fit.
    pub open spec fn dot_fits(self, b: Vec3) -> bool {
        &&& fits_i64(self.x * b.x)
        &&& fits_i64(self.y * b.y)
        &&& fits_i64(self.z * b.z)
        &&& fits_i64(self.x * b.x + self.y * b.y)
        &&& fits_i64(self.dot(b))
    }

    /// Can a cross product be evaluated in 64-bit words?
    /// Each of the six products and each difference must fit.
    pub open spec fn cross_fits(self, b: Vec3) -> bool {
        &&& fits_i64(self.y * b.z)
        &&& fits_i64(self.z * b.y)
        &&& fits_i64(self.z * b.x)
        &&& fits_i64(self.x * b.z)
        &&& fits_i64(self.x * b.y)
        &&& fits_i64(self.y * b.x)
        &&& self.cross(b).fits()
    }
}

/// A standard 3-component vector with exact `i64` coordinates.
#[derive(Debug, Clone, Copy, PartialEq, Eq, Structural)]
pub struct Vector {
    pub x: i64,
    pub y: i64,
    pub z: i64,
}

impl View for Vector {
    type V = Vec3;

    open spec fn view(&self) -> Vec3 {
        Vec3 { x: self.x as int, y: self.y as int, z: self.z as int }
    }
}

impl Vector {
    /// Initialize the vector and set values for x, y, z.
    pub fn new(x: i64, y: i64, z: i64) -> (v: Vector)
        ensures
            v.x == x,
            v.y == y,
            v.z == z,
    {
        Vector { x, y, z }
    }

    /// Initialize the vector with the same value for x, y, z.
    pub fn broadcast(x: i64) -> (v: Vector)
        ensures
            v.x == x,
            v.y == x,
            v.z == x,
    {
        Vector { x, y: x, z: x }
    }

    /// Compute the squared length of the vector: `x*x + y*y + z*z`.
    pub fn length_sqr(&self) -> (r: i64)
        requires
            self@.length_sqr() <= i64::MAX,
        ensures
            r == self@.length_sqr(),
    {
        proof {
            lemma_square_nonneg(self@.x);
            lemma_square_nonneg(self@.y);
            lemma_square_nonneg(self@.z);
        }
        self.x * self.x + self.y * self.y + self.z * self.z
    }

    /// The dot product of this vector with `b`.
    pub fn dot(&self, b: &Vector) -> (r: i64)
        requires
            self@.dot_fits(b@),
        ensures
            r == self@.dot(b@),
    {
        self.x * b.x + self.y * b.y + self.z * b.z
    }

    /// The right-handed cross product of this vector with `b`.
    pub fn cross(&self, b: &Vector) -> (r: Vector)
        requires
            self@.cross_fits(b@),
        ensures
            r@ == self@.cross(b@),
    {
        Vector::new(
            self.y * b.z - self.z * b.y,
            self.z * b.x - self.x * b.z,
            self.x * b.y - self.y * b.x,
        )
    }

    /// Component-wise vector sum.
    pub fn add(&self, b: &Vector) -> (r: Vector)
        requires
            self@.add(b@).fits(),
        ensures
            r@ == self@.add(b@),
    {
        Vector::new(self.x + b.x, self.y + b.y, self.z + b.z)
    }

    /// Component-wise vector difference.
    pub fn sub(&self, b: &Vector) -> (r: Vector)
        requires
            self@.sub(b@).fits(),
        ensures
            r@ == self@.sub(b@),
    {
        Vector::new(self.x - b.x, self.y - b.y, self.z - b.z)
    }

    /// Component-wise negation.
    pub fn neg(&self) -> (r: Vector)
        requires
            self@.neg().fits(),
        ensures
            r@ == self@.neg(),
    {
        Vector::new(-self.x, -self.y, -self.z)
    }

    /// Every component scaled by `s`; the canonical scaling routine.
    pub fn mul(&self, s: i64) -> (r: Vector)
        requires
            self@.scale(s as int).fits(),
        ensures
            r@ == self@.scale(s as int),
    {
        Vector::new(self.x * s, self.y * s, self.z * s)
    }

    /// Add `b` to this vector in place.
    pub fn add_assign(&mut self, b: &Vector)
        requires
            old(self)@.add(b@).fits(),
        ensures
            final(self)@ == old(self)@.add(b@),
    {
        self.x = self.x + b.x;
        self.y = self.y + b.y;
        self.z = self.z + b.z;
    }

    /// Subtract `b` from this vector in place.
    pub fn sub_assign(&mut self, b: &Vector)
        requires
            old(self)@.sub(b@).fits(),
        ensures
            final(self)@ == old(self)@.sub(b@),
    {
        self.x = self.x - b.x;
        self.y = self.y - b.y;
        self.z = self.z - b.z;
    }

    /// Scale this vector by `s` in place.
    pub fn mul_assign(&mut self, s: i64)
        requires
            old(self)@.scale(s as int).fits(),
        ensures
            final(self)@ == old(self)@.scale(s as int),
    {
        self.x = self.x * s;
        self.y = self.y * s;
        self.z = self.z * s;
    }

    /// Access the vector by index: 0 is x, 1 is y, 2 is z.
    ///
    /// An index outside that range is a caller defect, ruled out by the
    /// precondition; an unverified caller that passes one is stopped by a
    /// panic rather than handed a component.
    pub fn index(&self, i: usize) -> (r: i64)
        requires
            i < 3,
        ensures
            r == self@.axis(i as int),
    {
        match i {
            0 => self.x,
            1 => self.y,
            2 => self.z,
            _ => unreached(),
        }
    }

    /// Mutable access to the vector by index: 0 is x, 1 is y, 2 is z.
    ///
    /// The same range contract as [`Vector::index`]: an out-of-range index
    /// from an unverified caller panics.
    pub fn index_mut(&mut self, i: usize) -> (r: &mut i64)
        requires
            i < 3,
        ensures
            *r == old(self)@.axis(i as int),
            final(self)@ == old(self)@.with_axis(i as int, *final(r) as int),
    {
        match i {
            0 => &mut self.x,
            1 => &mut self.y,
            2 => &mut self.z,
            _ => unreached(),
        }
    }
}

impl PartialOrd for Vector {
    /// The component-wise partial ordering: one vector is below another
    /// only when every component is; vectors mixed across components are
    /// not comparable. Not a total order.
    fn partial_cmp(&self, b: &Vector) -> (r: Option<Ordering>) {
        if self.x == b.x && self.y == b.y && self.z == b.z {
            Some(Ordering::Equal)
        } else if self.x <= b.x && self.y <= b.y && self.z <= b.z {
            Some(Ordering::Less)
        } else if self.x >= b.x && self.y >= b.y && self.z >= b.z {
            Some(Ordering::Greater)
        } else {
            None
        }
    }
}

impl vstd::std_specs::cmp::PartialOrdSpecImpl for Vector {
    open spec fn obeys_partial_cmp_spec() -> bool {
        true
    }

    open spec fn partial_cmp_spec(&self, b: &Vector) -> Option<Ordering> {
        if self.x == b.x && self.y == b.y && self.z == b.z {
            Some(Ordering::Equal)
        } else if self.x <= b.x && self.y <= b.y && self.z <= b.z {
            Some(Ordering::Less)
        } else if self.x >= b.x && self.y >= b.y && self.z >= b.z {
            Some(Ordering::Greater)
        } else {
            None
        }
    }
}

/// Scale `v` by `s`: the scalar-first entry point of the commutative
/// scalar multiplication, delegating to [`Vector::mul`].
pub fn scale(s: i64, v: &Vector) -> (r: Vector)
    requires
        v@.scale(s as int).fits(),
    ensures
        r@ == v@.scale(s as int),
{
    v.mul(s)
}

/// The dot product as a free function, delegating to [`Vector::dot`].
pub fn dot(a: &Vector, b: &Vector) -> (r: i64)
    requires
        a@.dot_fits(b@),
    ensures
        r == a@.dot(b@),
{
    a.dot(b)
}

/// The cross product as a free function, delegating to [`Vector::cross`].
pub fn cross(a: &Vector, b: &Vector) -> (r: Vector)
    requires
        a@.cross_fits(b@),
    ensures
        r@ == a@.cross(b@),
{
    a.cross(b)
}

/// The square of an integer is never negative.
pub proof fn lemma_square_nonneg(x: int)
    by (nonlinear_arith)
    ensures
        x * x >= 0,
{
}

/// Vector addition is commutative: `a + b == b + a`.
pub proof fn lemma_add_commutative(a: Vec3, b: Vec3)
    ensures
        a.add(b) == b.add(a),
{
}

/// Vector addition is associative: `(a + b) + c == a + (b + c)`.
pub proof fn lemma_add_associative(a: Vec3, b: Vec3, c: Vec3)
    ensures
        a.add(b).add(c) == a.add(b.add(c)),
{
}

/// Subtraction is antisymmetric: `a - b == -(b - a)`.
pub proof fn lemma_sub_antisymmetric(a: Vec3, b: Vec3)
    ensures
        a.sub(b) == b.sub(a).neg(),
{
}

/// The squared length is never negative.
pub proof fn lemma_length_sqr_nonneg(v: Vec3)
    by (nonlinear_arith)
    ensures
        v.length_sqr() >= 0,
{
}

/// Negation keeps the squared length.
pub proof fn lemma_length_sqr_neg(v: Vec3)
    by (nonlinear_arith)
    ensures
        v.neg().length_sqr() == v.length_sqr(),
{
}

/// The dot product is commutative: `a . b == b . a`.
pub proof fn lemma_dot_commutative(a: Vec3, b: Vec3)
    by (nonlinear_arith)
    ensures
        a.dot(b) == b.dot(a),
{
}

/// The dot product is additive in its left argument.
pub proof fn lemma_dot_add_left(a: Vec3, b: Vec3, c: Vec3)
    by (nonlinear_arith)
    ensures
        a.add(b).dot(c) == a.dot(c) + b.dot(c),
{
}

/// The dot product is homogeneous in its left argument.
pub proof fn lemma_dot_scale_left(a: Vec3, c: Vec3, s: int)
    ensures
        a.scale(s).dot(c) == s * a.dot(c),
{
    assert((a.x * s) * c.x == s * (a.x * c.x)) by (nonlinear_arith);
    assert((a.y * s) * c.y == s * (a.y * c.y)) by (nonlinear_arith);
    assert((a.z * s) * c.z == s * (a.z * c.z)) by (nonlinear_arith);
    vstd::arithmetic::mul::lemma_mul_is_distributive_add(s, a.x * c.x, a.y * c.y);
    vstd::arithmetic::mul::lemma_mul_is_distributive_add(s, a.x * c.x + a.y * c.y, a.z * c.z);
}

/// The dot product is bilinear: linear in the left argument for every
/// right argument, and, by commutativity, the other way round.
pub proof fn lemma_dot_bilinear(a: Vec3, b: Vec3, c: Vec3, s: int, t: int)
    ensures
        a.scale(s).add(b.scale(t)).dot(c) == s * a.dot(c) + t * b.dot(c),
        c.dot(a.scale(s).add(b.scale(t))) == s * a.dot(c) + t * b.dot(c),
{
    lemma_dot_add_left(a.scale(s), b.scale(t), c);
    lemma_dot_scale_left(a, c, s);
    lemma_dot_scale_left(b, c, t);
    lemma_dot_commutative(a.scale(s).add(b.scale(t)), c);
}

/// The cross product is anticommutative: `a x b == -(b x a)`.
pub proof fn lemma_cross_anticommutative(a: Vec3, b: Vec3)
    by (nonlinear_arith)
    ensures
        a.cross(b) == b.cross(a).neg(),
{
}

} // verus!
