//! A ray tracer over fixed-point arithmetic: shapes and their boolean
//! combinations, Phong shading with shadows, procedural patterns, and a
//! camera that renders a scene into a canvas in independent pixel batches.
use vstd::prelude::*;

pub mod fixed;
pub mod tuples;
pub mod transform;
pub mod ids;
pub mod patterns;
pub mod materials;
pub mod shapes;
pub mod intersections;
pub mod world;
pub mod camera;

pub use camera::{Camera, Canvas};
pub use fixed::{EPSILON, ONE};
pub use intersections::Computations;
pub use materials::{Material, PointLight};
pub use patterns::{Checkers, Gradient, Pattern, Solid, Stripes, TestPattern};
pub use shapes::{Csg, CsgOp, Cube, Intersection, Plane, Primitive, Shape, Sphere, Surface};
pub use transform::{Matrix, Transform};
pub use tuples::{Color, Point, Ray, Vector};
pub use world::World;

verus! {

} // verus!
