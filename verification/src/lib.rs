//! Exact three-dimensional linear algebra: free vectors, points, and named
//! axes over signed 64-bit coordinates, with verified component formulas and
//! algebraic laws.

pub mod axis;
pub mod point;
pub mod vector;
