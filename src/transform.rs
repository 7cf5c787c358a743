//! Affine transforms, each kept together with its inverse.
use vstd::prelude::*;
use crate::fixed::{fadd, fdiv, fmul, sadd, sdiv, smul, ONE};
use crate::tuples::{cross_of, normalized, point_minus, vec_negated, Point, Ray, Vector};

verus! {

/// The upper three rows of a 4x4 affine matrix; the fourth row is `0 0 0 1`.
#[derive(Clone, Copy, Debug, PartialEq, Eq, Structural)]
pub struct Matrix {
    pub xx: i64,
    pub xy: i64,
    pub xz: i64,
    pub xw: i64,
    pub yx: i64,
    pub yy: i64,
    pub yz: i64,
    pub yw: i64,
    pub zx: i64,
    pub zy: i64,
    pub zz: i64,
    pub zw: i64,
}

/// One row of a matrix applied to `(x, y, z, w)`.
pub open spec fn row_image(a: i64, b: i64, c: i64, d: i64, x: i64, y: i64, z: i64, w: i64) -> int {
    sadd(sadd(sadd(smul(a as int, x as int), smul(b as int, y as int)), smul(c as int, z as int)), smul(d as int, w as int))
}

pub open spec fn point_image(m: Matrix, p: Point) -> Point {
    Point {
        x: row_image(m.xx, m.xy, m.xz, m.xw, p.x, p.y, p.z, ONE) as i64,
        y: row_image(m.yx, m.yy, m.yz, m.yw, p.x, p.y, p.z, ONE) as i64,
        z: row_image(m.zx, m.zy, m.zz, m.zw, p.x, p.y, p.z, ONE) as i64,
    }
}

pub open spec fn vector_image(m: Matrix, v: Vector) -> Vector {
    Vector {
        x: row_image(m.xx, m.xy, m.xz, m.xw, v.x, v.y, v.z, 0) as i64,
        y: row_image(m.yx, m.yy, m.yz, m.yw, v.x, v.y, v.z, 0) as i64,
        z: row_image(m.zx, m.zy, m.zz, m.zw, v.x, v.y, v.z, 0) as i64,
    }
}

/// `v` under the transpose of the linear part of `m`.
pub open spec fn transposed_image(m: Matrix, v: Vector) -> Vector {
    Vector {
        x: row_image(m.xx, m.yx, m.zx, 0, v.x, v.y, v.z, 0) as i64,
        y: row_image(m.xy, m.yy, m.zy, 0, v.x, v.y, v.z, 0) as i64,
        z: row_image(m.xz, m.yz, m.zz, 0, v.x, v.y, v.z, 0) as i64,
    }
}

/// The matrix product `a * b`: apply `b`, then `a`.
pub open spec fn product(a: Matrix, b: Matrix) -> Matrix {
    let c0 = vector_image(a, Vector { x: b.xx, y: b.yx, z: b.zx });
    let c1 = vector_image(a, Vector { x: b.xy, y: b.yy, z: b.zy });
    let c2 = vector_image(a, Vector { x: b.xz, y: b.yz, z: b.zz });
    let c3 = point_image(a, Point { x: b.xw, y: b.yw, z: b.zw });
    Matrix {
        xx: c0.x, xy: c1.x, xz: c2.x, xw: c3.x,
        yx: c0.y, yy: c1.y, yz: c2.y, yw: c3.y,
        zx: c0.z, zy: c1.z, zz: c2.z, zw: c3.z,
    }
}

pub open spec fn diagonal(x: i64, y: i64, z: i64) -> Matrix {
    Matrix { xx: x, xy: 0, xz: 0, xw: 0, yx: 0, yy: y, yz: 0, yw: 0, zx: 0, zy: 0, zz: z, zw: 0 }
}

pub open spec fn shift(x: i64, y: i64, z: i64) -> Matrix {
    Matrix { xx: ONE, xy: 0, xz: 0, xw: x, yx: 0, yy: ONE, yz: 0, yw: y, zx: 0, zy: 0, zz: ONE, zw: z }
}

fn row(a: i64, b: i64, c: i64, d: i64, x: i64, y: i64, z: i64, w: i64) -> (r: i64)
    ensures
        r == row_image(a, b, c, d, x, y, z, w),
{
    fadd(fadd(fadd(fmul(a, x), fmul(b, y)), fmul(c, z)), fmul(d, w))
}

impl Matrix {
    pub fn apply_point(&self, p: Point) -> (r: Point)
        ensures
            r == point_image(*self, p),
    {
        let m = self;
        Point {
            x: row(m.xx, m.xy, m.xz, m.xw, p.x, p.y, p.z, ONE),
            y: row(m.yx, m.yy, m.yz, m.yw, p.x, p.y, p.z, ONE),
            z: row(m.zx, m.zy, m.zz, m.zw, p.x, p.y, p.z, ONE),
        }
    }

    pub fn apply_vector(&self, v: Vector) -> (r: Vector)
        ensures
            r == vector_image(*self, v),
    {
        let m = self;
        Vector {
            x: row(m.xx, m.xy, m.xz, m.xw, v.x, v.y, v.z, 0),
            y: row(m.yx, m.yy, m.yz, m.yw, v.x, v.y, v.z, 0),
            z: row(m.zx, m.zy, m.zz, m.zw, v.x, v.y, v.z, 0),
        }
    }

    pub fn apply_transposed(&self, v: Vector) -> (r: Vector)
        ensures
            r == transposed_image(*self, v),
    {
        let m = self;
        Vector {
            x: row(m.xx, m.yx, m.zx, 0, v.x, v.y, v.z, 0),
            y: row(m.xy, m.yy, m.zy, 0, v.x, v.y, v.z, 0),
            z: row(m.xz, m.yz, m.zz, 0, v.x, v.y, v.z, 0),
        }
    }

    /// The product `self * b`: apply `b`, then `self`.
    pub fn times(&self, b: &Matrix) -> (r: Matrix)
        ensures
            r == product(*self, *b),
    {
        let c0 = self.apply_vector(Vector { x: b.xx, y: b.yx, z: b.zx });
        let c1 = self.apply_vector(Vector { x: b.xy, y: b.yy, z: b.zy });
        let c2 = self.apply_vector(Vector { x: b.xz, y: b.yz, z: b.zz });
        let c3 = self.apply_point(Point { x: b.xw, y: b.yw, z: b.zw });
        Matrix {
            xx: c0.x, xy: c1.x, xz: c2.x, xw: c3.x,
            yx: c0.y, yy: c1.y, yz: c2.y, yw: c3.y,
            zx: c0.z, zy: c1.z, zz: c2.z, zw: c3.z,
        }
    }
}

/// A transform from a local frame to its parent frame, with the inverse
/// mapping kept beside it.
#[derive(Clone, Copy, Debug, PartialEq, Eq, Structural)]
pub struct Transform {
    pub matrix: Matrix,
    pub inverse: Matrix,
}

pub open spec fn identity_transform() -> Transform {
    Transform { matrix: diagonal(ONE, ONE, ONE), inverse: diagonal(ONE, ONE, ONE) }
}

/// `t` followed by `u`.
pub open spec fn chained(t: Transform, u: Transform) -> Transform {
    Transform { matrix: product(u.matrix, t.matrix), inverse: product(t.inverse, u.inverse) }
}

/// A ray carried from the parent frame into the local frame of `t`.
pub open spec fn ray_into(t: Transform, r: Ray) -> Ray {
    Ray { origin: point_image(t.inverse, r.origin), direction: vector_image(t.inverse, r.direction) }
}

/// The rotation that turns world axes into a viewer's axes: `left`, `up` and
/// `back` as rows.
pub open spec fn orientation(left: Vector, up: Vector, back: Vector) -> Matrix {
    Matrix {
        xx: left.x, xy: left.y, xz: left.z, xw: 0,
        yx: up.x, yy: up.y, yz: up.z, yw: 0,
        zx: back.x, zy: back.y, zz: back.z, zw: 0,
    }
}

pub open spec fn transposed(m: Matrix) -> Matrix {
    Matrix {
        xx: m.xx, xy: m.yx, xz: m.zx, xw: 0,
        yx: m.xy, yy: m.yy, yz: m.zy, yw: 0,
        zx: m.xz, zy: m.yz, zz: m.zz, zw: 0,
    }
}

/// The view transform of an eye at `from` looking at `to`, with `up` roughly
/// upward; the inverse undoes the orthonormal orientation by its transpose.
pub open spec fn view_of(from: Point, to: Point, up: Vector) -> Transform {
    let forward = normalized(point_minus(to, from));
    let left = cross_of(forward, normalized(up));
    let true_up = cross_of(left, forward);
    let o = orientation(left, true_up, vec_negated(forward));
    let back = Vector { x: from.x, y: from.y, z: from.z };
    Transform {
        matrix: product(o, shift(vec_negated(back).x, vec_negated(back).y, vec_negated(back).z)),
        inverse: product(shift(from.x, from.y, from.z), transposed(o)),
    }
}

impl Transform {
    pub fn identity() -> (r: Transform)
        ensures
            r == identity_transform(),
    {
        Transform {
            matrix: Matrix { xx: ONE, xy: 0, xz: 0, xw: 0, yx: 0, yy: ONE, yz: 0, yw: 0, zx: 0, zy: 0, zz: ONE, zw: 0 },
            inverse: Matrix { xx: ONE, xy: 0, xz: 0, xw: 0, yx: 0, yy: ONE, yz: 0, yw: 0, zx: 0, zy: 0, zz: ONE, zw: 0 },
        }
    }

    /// A move by `(x, y, z)`; its inverse moves back by the negated offsets.
    pub fn translation(x: i64, y: i64, z: i64) -> (r: Transform)
        requires
            x > i64::MIN,
            y > i64::MIN,
            z > i64::MIN,
        ensures
            r == (Transform { matrix: shift(x, y, z), inverse: shift(-x as i64, -y as i64, -z as i64) }),
    {
        Transform {
            matrix: Matrix { xx: ONE, xy: 0, xz: 0, xw: x, yx: 0, yy: ONE, yz: 0, yw: y, zx: 0, zy: 0, zz: ONE, zw: z },
            inverse: Matrix { xx: ONE, xy: 0, xz: 0, xw: -x, yx: 0, yy: ONE, yz: 0, yw: -y, zx: 0, zy: 0, zz: ONE, zw: -z },
        }
    }

    /// A scaling by `(x, y, z)`; `None` when a factor is zero, which has no inverse.
    pub fn scaling(x: i64, y: i64, z: i64) -> (r: Option<Transform>)
        ensures
            r is None <==> (x == 0 || y == 0 || z == 0),
            r is Some ==> r->0 == (Transform {
                matrix: diagonal(x, y, z),
                inverse: diagonal(sdiv(ONE as int, x as int) as i64, sdiv(ONE as int, y as int) as i64, sdiv(ONE as int, z as int) as i64),
            }),
    {
        if x == 0 || y == 0 || z == 0 {
            return None;
        }
        let (ix, iy, iz) = (fdiv(ONE, x), fdiv(ONE, y), fdiv(ONE, z));
        Some(Transform {
            matrix: Matrix { xx: x, xy: 0, xz: 0, xw: 0, yx: 0, yy: y, yz: 0, yw: 0, zx: 0, zy: 0, zz: z, zw: 0 },
            inverse: Matrix { xx: ix, xy: 0, xz: 0, xw: 0, yx: 0, yy: iy, yz: 0, yw: 0, zx: 0, zy: 0, zz: iz, zw: 0 },
        })
    }

    /// A rotation about the x axis by the angle whose cosine and sine are
    /// `cos` and `sin`; its inverse is its transpose.
    pub fn rotation_x(cos: i64, sin: i64) -> (r: Transform)
        requires
            sin > i64::MIN,
        ensures
            r.matrix == (Matrix { xx: ONE, xy: 0, xz: 0, xw: 0, yx: 0, yy: cos, yz: -sin as i64, yw: 0, zx: 0, zy: sin, zz: cos, zw: 0 }),
            r.inverse == transposed(r.matrix),
    {
        Transform {
            matrix: Matrix { xx: ONE, xy: 0, xz: 0, xw: 0, yx: 0, yy: cos, yz: -sin, yw: 0, zx: 0, zy: sin, zz: cos, zw: 0 },
            inverse: Matrix { xx: ONE, xy: 0, xz: 0, xw: 0, yx: 0, yy: cos, yz: sin, yw: 0, zx: 0, zy: -sin, zz: cos, zw: 0 },
        }
    }

    /// A rotation about the y axis by the angle whose cosine and sine are
    /// `cos` and `sin`; its inverse is its transpose.
    pub fn rotation_y(cos: i64, sin: i64) -> (r: Transform)
        requires
            sin > i64::MIN,
        ensures
            r.matrix == (Matrix { xx: cos, xy: 0, xz: sin, xw: 0, yx: 0, yy: ONE, yz: 0, yw: 0, zx: -sin as i64, zy: 0, zz: cos, zw: 0 }),
            r.inverse == transposed(r.matrix),
    {
        Transform {
            matrix: Matrix { xx: cos, xy: 0, xz: sin, xw: 0, yx: 0, yy: ONE, yz: 0, yw: 0, zx: -sin, zy: 0, zz: cos, zw: 0 },
            inverse: Matrix { xx: cos, xy: 0, xz: -sin, xw: 0, yx: 0, yy: ONE, yz: 0, yw: 0, zx: sin, zy: 0, zz: cos, zw: 0 },
        }
    }

    /// A rotation about the z axis by the angle whose cosine and sine are
    /// `cos` and `sin`; its inverse is its transpose.
    pub fn rotation_z(cos: i64, sin: i64) -> (r: Transform)
        requires
            sin > i64::MIN,
        ensures
            r.matrix == (Matrix { xx: cos, xy: -sin as i64, xz: 0, xw: 0, yx: sin, yy: cos, yz: 0, yw: 0, zx: 0, zy: 0, zz: ONE, zw: 0 }),
            r.inverse == transposed(r.matrix),
    {
        Transform {
            matrix: Matrix { xx: cos, xy: -sin, xz: 0, xw: 0, yx: sin, yy: cos, yz: 0, yw: 0, zx: 0, zy: 0, zz: ONE, zw: 0 },
            inverse: Matrix { xx: cos, xy: sin, xz: 0, xw: 0, yx: -sin, yy: cos, yz: 0, yw: 0, zx: 0, zy: 0, zz: ONE, zw: 0 },
        }
    }

    /// This transform followed by `next`.
    pub fn followed_by(&self, next: &Transform) -> (r: Transform)
        ensures
            r == chained(*self, *next),
    {
        Transform { matrix: next.matrix.times(&self.matrix), inverse: self.inverse.times(&next.inverse) }
    }

    /// The view transform of an eye at `from` looking at `to`, `up` being
    /// roughly upward.
    pub fn view(from: Point, to: Point, up: Vector) -> (r: Transform)
        ensures
            r == view_of(from, to, up),
    {
        let forward = to.minus(from).normalize();
        let left = forward.cross(up.normalize());
        let true_up = left.cross(forward);
        let back = forward.negated();
        let o = Matrix {
            xx: left.x, xy: left.y, xz: left.z, xw: 0,
            yx: true_up.x, yy: true_up.y, yz: true_up.z, yw: 0,
            zx: back.x, zy: back.y, zz: back.z, zw: 0,
        };
        let ot = Matrix {
            xx: o.xx, xy: o.yx, xz: o.zx, xw: 0,
            yx: o.xy, yy: o.yy, yz: o.zy, yw: 0,
            zx: o.xz, zy: o.yz, zz: o.zz, zw: 0,
        };
        let away = Vector { x: from.x, y: from.y, z: from.z }.negated();
        let to_origin = Matrix { xx: ONE, xy: 0, xz: 0, xw: away.x, yx: 0, yy: ONE, yz: 0, yw: away.y, zx: 0, zy: 0, zz: ONE, zw: away.z };
        let back_out = Matrix { xx: ONE, xy: 0, xz: 0, xw: from.x, yx: 0, yy: ONE, yz: 0, yw: from.y, zx: 0, zy: 0, zz: ONE, zw: from.z };
        Transform { matrix: o.times(&to_origin), inverse: back_out.times(&ot) }
    }

    /// The ray carried into this transform's local frame.
    pub fn ray_to_local(&self, r: Ray) -> (l: Ray)
        ensures
            l == ray_into(*self, r),
    {
        Ray { origin: self.inverse.apply_point(r.origin), direction: self.inverse.apply_vector(r.direction) }
    }
}

} // verus!
