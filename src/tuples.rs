//! Points, vectors, colors and rays over fixed-point scalars.
use vstd::prelude::*;
use crate::fixed::{
    approx_eq, fadd, fdiv, fmul, fneg, fsqrt, fsub, near, sadd, sdiv, smul, sneg, ssqrt, ssub, ONE,
};

verus! {

/// A location in space.
#[derive(Clone, Copy, Debug, PartialEq, Eq, Structural)]
pub struct Point {
    pub x: i64,
    pub y: i64,
    pub z: i64,
}

/// A direction and length in space.
#[derive(Clone, Copy, Debug, PartialEq, Eq, Structural)]
pub struct Vector {
    pub x: i64,
    pub y: i64,
    pub z: i64,
}

/// A color as red, green and blue intensities.
#[derive(Clone, Copy, Debug, PartialEq, Eq, Structural)]
pub struct Color {
    pub red: i64,
    pub green: i64,
    pub blue: i64,
}

/// A half-line: an origin and a direction.
#[derive(Clone, Copy, Debug, PartialEq, Eq, Structural)]
pub struct Ray {
    pub origin: Point,
    pub direction: Vector,
}

pub open spec fn point_plus(p: Point, v: Vector) -> Point {
    Point {
        x: sadd(p.x as int, v.x as int) as i64,
        y: sadd(p.y as int, v.y as int) as i64,
        z: sadd(p.z as int, v.z as int) as i64,
    }
}

pub open spec fn point_minus(p: Point, q: Point) -> Vector {
    Vector {
        x: ssub(p.x as int, q.x as int) as i64,
        y: ssub(p.y as int, q.y as int) as i64,
        z: ssub(p.z as int, q.z as int) as i64,
    }
}

pub open spec fn vec_minus(v: Vector, w: Vector) -> Vector {
    Vector {
        x: ssub(v.x as int, w.x as int) as i64,
        y: ssub(v.y as int, w.y as int) as i64,
        z: ssub(v.z as int, w.z as int) as i64,
    }
}

pub open spec fn vec_scaled(v: Vector, s: int) -> Vector {
    Vector {
        x: smul(v.x as int, s) as i64,
        y: smul(v.y as int, s) as i64,
        z: smul(v.z as int, s) as i64,
    }
}

pub open spec fn vec_negated(v: Vector) -> Vector {
    Vector { x: sneg(v.x as int) as i64, y: sneg(v.y as int) as i64, z: sneg(v.z as int) as i64 }
}

pub open spec fn dot_of(v: Vector, w: Vector) -> int {
    sadd(sadd(smul(v.x as int, w.x as int), smul(v.y as int, w.y as int)), smul(v.z as int, w.z as int))
}

pub open spec fn cross_of(a: Vector, b: Vector) -> Vector {
    Vector {
        x: ssub(smul(a.y as int, b.z as int), smul(a.z as int, b.y as int)) as i64,
        y: ssub(smul(a.z as int, b.x as int), smul(a.x as int, b.z as int)) as i64,
        z: ssub(smul(a.x as int, b.y as int), smul(a.y as int, b.x as int)) as i64,
    }
}

pub open spec fn magnitude_of(v: Vector) -> int {
    ssqrt(dot_of(v, v))
}

/// `v` divided by its length; a zero-length vector stays as it is.
pub open spec fn normalized(v: Vector) -> Vector {
    let m = magnitude_of(v);
    if m == 0 {
        v
    } else {
        Vector { x: sdiv(v.x as int, m) as i64, y: sdiv(v.y as int, m) as i64, z: sdiv(v.z as int, m) as i64 }
    }
}

/// `v` mirrored about `n`: `v - n * 2 * (v . n)`.
pub open spec fn reflected(v: Vector, n: Vector) -> Vector {
    vec_minus(v, vec_scaled(n, smul(2 * ONE, dot_of(v, n))))
}

pub open spec fn color_plus(c: Color, d: Color) -> Color {
    Color {
        red: sadd(c.red as int, d.red as int) as i64,
        green: sadd(c.green as int, d.green as int) as i64,
        blue: sadd(c.blue as int, d.blue as int) as i64,
    }
}

pub open spec fn color_minus(c: Color, d: Color) -> Color {
    Color {
        red: ssub(c.red as int, d.red as int) as i64,
        green: ssub(c.green as int, d.green as int) as i64,
        blue: ssub(c.blue as int, d.blue as int) as i64,
    }
}

pub open spec fn color_scaled(c: Color, s: int) -> Color {
    Color {
        red: smul(c.red as int, s) as i64,
        green: smul(c.green as int, s) as i64,
        blue: smul(c.blue as int, s) as i64,
    }
}

/// Channel-by-channel product of two colors.
pub open spec fn color_blend(c: Color, d: Color) -> Color {
    Color {
        red: smul(c.red as int, d.red as int) as i64,
        green: smul(c.green as int, d.green as int) as i64,
        blue: smul(c.blue as int, d.blue as int) as i64,
    }
}

pub open spec fn black() -> Color {
    Color { red: 0, green: 0, blue: 0 }
}

/// The point at parameter `t` along `r`.
pub open spec fn position_of(r: Ray, t: int) -> Point {
    point_plus(r.origin, vec_scaled(r.direction, t))
}

impl Point {
    pub fn new(x: i64, y: i64, z: i64) -> (r: Point)
        ensures
            r == (Point { x, y, z }),
    {
        Point { x, y, z }
    }

    /// This point moved by `v`.
    pub fn plus(&self, v: Vector) -> (r: Point)
        ensures
            r == point_plus(*self, v),
    {
        Point { x: fadd(self.x, v.x), y: fadd(self.y, v.y), z: fadd(self.z, v.z) }
    }

    /// The vector from `q` to this point.
    pub fn minus(&self, q: Point) -> (r: Vector)
        ensures
            r == point_minus(*self, q),
    {
        Vector { x: fsub(self.x, q.x), y: fsub(self.y, q.y), z: fsub(self.z, q.z) }
    }
}

impl Vector {
    pub fn new(x: i64, y: i64, z: i64) -> (r: Vector)
        ensures
            r == (Vector { x, y, z }),
    {
        Vector { x, y, z }
    }

    pub fn minus(&self, w: Vector) -> (r: Vector)
        ensures
            r == vec_minus(*self, w),
    {
        Vector { x: fsub(self.x, w.x), y: fsub(self.y, w.y), z: fsub(self.z, w.z) }
    }

    pub fn scaled(&self, s: i64) -> (r: Vector)
        ensures
            r == vec_scaled(*self, s as int),
    {
        Vector { x: fmul(self.x, s), y: fmul(self.y, s), z: fmul(self.z, s) }
    }

    pub fn negated(&self) -> (r: Vector)
        ensures
            r == vec_negated(*self),
    {
        Vector { x: fneg(self.x), y: fneg(self.y), z: fneg(self.z) }
    }

    pub fn dot(&self, w: Vector) -> (r: i64)
        ensures
            r == dot_of(*self, w),
    {
        fadd(fadd(fmul(self.x, w.x), fmul(self.y, w.y)), fmul(self.z, w.z))
    }

    pub fn cross(&self, b: Vector) -> (r: Vector)
        ensures
            r == cross_of(*self, b),
    {
        Vector {
            x: fsub(fmul(self.y, b.z), fmul(self.z, b.y)),
            y: fsub(fmul(self.z, b.x), fmul(self.x, b.z)),
            z: fsub(fmul(self.x, b.y), fmul(self.y, b.x)),
        }
    }

    pub fn magnitude(&self) -> (r: i64)
        ensures
            r == magnitude_of(*self),
    {
        fsqrt(self.dot(*self))
    }

    pub fn normalize(&self) -> (r: Vector)
        ensures
            r == normalized(*self),
    {
        let m = self.magnitude();
        if m == 0 {
            *self
        } else {
            Vector { x: fdiv(self.x, m), y: fdiv(self.y, m), z: fdiv(self.z, m) }
        }
    }

    pub fn reflect(&self, n: Vector) -> (r: Vector)
        ensures
            r == reflected(*self, n),
    {
        let k = fmul(2 * ONE, self.dot(n));
        self.minus(n.scaled(k))
    }
}

impl Color {
    pub fn new(red: i64, green: i64, blue: i64) -> (r: Color)
        ensures
            r == (Color { red, green, blue }),
    {
        Color { red, green, blue }
    }

    pub fn black() -> (r: Color)
        ensures
            r == black(),
    {
        Color { red: 0, green: 0, blue: 0 }
    }

    pub fn plus(&self, d: Color) -> (r: Color)
        ensures
            r == color_plus(*self, d),
    {
        Color { red: fadd(self.red, d.red), green: fadd(self.green, d.green), blue: fadd(self.blue, d.blue) }
    }

    pub fn minus(&self, d: Color) -> (r: Color)
        ensures
            r == color_minus(*self, d),
    {
        Color { red: fsub(self.red, d.red), green: fsub(self.green, d.green), blue: fsub(self.blue, d.blue) }
    }

    pub fn scaled(&self, s: i64) -> (r: Color)
        ensures
            r == color_scaled(*self, s as int),
    {
        Color { red: fmul(self.red, s), green: fmul(self.green, s), blue: fmul(self.blue, s) }
    }

    pub fn blend(&self, d: Color) -> (r: Color)
        ensures
            r == color_blend(*self, d),
    {
        Color { red: fmul(self.red, d.red), green: fmul(self.green, d.green), blue: fmul(self.blue, d.blue) }
    }

    /// Each channel within `EPSILON` of the other color's.
    pub fn approx_eq(&self, d: Color) -> (r: bool)
        ensures
            r == (near(self.red as int, d.red as int) && near(self.green as int, d.green as int)
                && near(self.blue as int, d.blue as int)),
    {
        approx_eq(self.red, d.red) && approx_eq(self.green, d.green) && approx_eq(self.blue, d.blue)
    }
}

impl Ray {
    pub fn new(origin: Point, direction: Vector) -> (r: Ray)
        ensures
            r == (Ray { origin, direction }),
    {
        Ray { origin, direction }
    }

    /// The point at parameter `t` along the ray.
    pub fn position(&self, t: i64) -> (r: Point)
        ensures
            r == position_of(*self, t as int),
    {
        self.origin.plus(self.direction.scaled(t))
    }
}

} // verus!
