//! Shapes as a closed union, their ray intersections and surface normals,
//! and the constructive-solid-geometry combinator.
use vstd::prelude::*;
use crate::fixed::{fadd, fdiv, fmul, fneg, fsqrt, fsub, sadd, sdiv, smul, sneg, ssqrt, ssub, EPSILON, LIMIT, ONE};
use crate::ids::fresh_id;
use crate::intersections::ascending;
use crate::materials::{default_material, Material};
use crate::transform::{chained, identity_transform, point_image, ray_into, transposed_image, Transform};
use crate::tuples::{dot_of, normalized, Point, Ray, Vector};

verus! {

/// The geometry of a surface that is not a combination of others.
#[derive(Clone, Copy, Debug, PartialEq, Eq, Structural)]
pub enum Primitive {
    /// The unit sphere about the local origin.
    Sphere,
    /// The local xz-plane.
    Plane,
    /// The cube `[-1, 1]` on each local axis.
    Cube,
}

/// A primitive surface placed in world space: what shading needs of a hit.
#[derive(Clone, Copy, Debug, PartialEq, Eq, Structural)]
pub struct Surface {
    pub primitive: Primitive,
    pub transform: Transform,
    pub material: Material,
}

/// A candidate hit: the parameter `t` along the ray, the id of the shape that
/// reports it, and the primitive surface that was struck.
#[derive(Clone, Copy, Debug, PartialEq, Eq, Structural)]
pub struct Intersection {
    pub t: i64,
    pub object: u128,
    pub surface: Surface,
}

#[derive(Clone, Copy, Debug, PartialEq, Eq, Structural)]
pub struct Sphere {
    pub id: u128,
    pub transform: Transform,
    pub material: Material,
}

#[derive(Clone, Copy, Debug, PartialEq, Eq, Structural)]
pub struct Plane {
    pub id: u128,
    pub transform: Transform,
    pub material: Material,
}

#[derive(Clone, Copy, Debug, PartialEq, Eq, Structural)]
pub struct Cube {
    pub id: u128,
    pub transform: Transform,
    pub material: Material,
}

/// A boolean operation that combines two shapes.
#[derive(Clone, Copy, Debug, PartialEq, Eq, Structural)]
pub enum CsgOp {
    Union,
    Intersection,
    /// The left shape less the right one.
    Difference,
}

/// Two owned shapes combined by `op`, placed by a transform of its own.
#[derive(Debug)]
pub struct Csg {
    pub id: u128,
    pub transform: Transform,
    pub material: Material,
    pub op: CsgOp,
    pub left: Box<Shape>,
    pub right: Box<Shape>,
}

#[derive(Debug)]
pub enum Shape {
    Sphere(Sphere),
    Plane(Plane),
    Cube(Cube),
    Csg(Csg),
}

// ---------------------------------------------------------------- local hits

/// Parameters at which a local-frame ray meets the unit sphere, ascending.
pub open spec fn sphere_ts(r: Ray) -> Seq<i64> {
    let s = Vector { x: r.origin.x, y: r.origin.y, z: r.origin.z };
    let a = dot_of(r.direction, r.direction);
    let b = smul(2 * ONE, dot_of(r.direction, s));
    let c = ssub(dot_of(s, s), ONE as int);
    let disc = ssub(smul(b, b), smul(4 * ONE, smul(a, c)));
    if disc < 0 {
        seq![]
    } else {
        let root = ssqrt(disc);
        let t1 = sdiv(ssub(sneg(b), root), smul(2 * ONE, a));
        let t2 = sdiv(sadd(sneg(b), root), smul(2 * ONE, a));
        if t1 <= t2 {
            seq![t1 as i64, t2 as i64]
        } else {
            seq![t2 as i64, t1 as i64]
        }
    }
}

/// Parameter at which a local-frame ray meets the xz-plane; none when the
/// ray runs parallel to it (within `EPSILON`).
pub open spec fn plane_ts(r: Ray) -> Seq<i64> {
    if -EPSILON < r.direction.y < EPSILON {
        seq![]
    } else {
        seq![sdiv(sneg(r.origin.y as int), r.direction.y as int) as i64]
    }
}

/// The entry and exit parameters of one slab `[-1, 1]` along an axis.
pub open spec fn slab(origin: i64, direction: i64) -> (int, int) {
    let lo = ssub(-ONE, origin as int);
    let hi = ssub(ONE as int, origin as int);
    let (a, b) = if direction >= EPSILON || direction <= -EPSILON {
        (sdiv(lo, direction as int), sdiv(hi, direction as int))
    } else {
        (unbounded(lo), unbounded(hi))
    };
    if a > b { (b, a) } else { (a, b) }
}

/// The saturated product of `x` with an unbounded magnitude.
pub open spec fn unbounded(x: int) -> int {
    if x > 0 { LIMIT as int } else if x < 0 { -LIMIT } else { 0 }
}

pub open spec fn max3(a: int, b: int, c: int) -> int {
    let m = if a >= b { a } else { b };
    if m >= c { m } else { c }
}

pub open spec fn min3(a: int, b: int, c: int) -> int {
    let m = if a <= b { a } else { b };
    if m <= c { m } else { c }
}

/// Entry and exit parameters of a local-frame ray through the unit cube; none
/// when the slabs do not overlap or the cube lies wholly behind the ray.
pub open spec fn cube_ts(r: Ray) -> Seq<i64> {
    let (x0, x1) = slab(r.origin.x, r.direction.x);
    let (y0, y1) = slab(r.origin.y, r.direction.y);
    let (z0, z1) = slab(r.origin.z, r.direction.z);
    let tmin = max3(x0, y0, z0);
    let tmax = min3(x1, y1, z1);
    if tmin > tmax || tmax < 0 {
        seq![]
    } else {
        seq![tmin as i64, tmax as i64]
    }
}

/// A ray whose direction has no y-component, parallel to the plane or lying
/// in it, never meets the plane.
pub proof fn lemma_parallel_ray_misses_plane(r: Ray)
    requires
        r.direction.y == 0,
    ensures
        plane_ts(r).len() == 0,
{
}

// ---------------------------------------------------------------- CSG

/// Whether a hit survives the boolean operation `op`, given which side it is
/// on and whether the ray is currently inside each side.
pub open spec fn csg_allows(op: CsgOp, hit_is_left: bool, inside_left: bool, inside_right: bool) -> bool {
    match op {
        CsgOp::Union => (hit_is_left && !inside_right) || (!hit_is_left && !inside_left),
        CsgOp::Intersection => (hit_is_left && inside_right) || (!hit_is_left && inside_left),
        CsgOp::Difference => (hit_is_left && !inside_right) || (!hit_is_left && inside_left),
    }
}

/// Walks the two ascending hit lists in merged order (left first on equal
/// `t`), keeping each hit that `op` allows and then toggling the inside flag
/// of the side it belongs to.
pub open spec fn csg_walk(
    op: CsgOp,
    l: Seq<Intersection>,
    r: Seq<Intersection>,
    inside_left: bool,
    inside_right: bool,
) -> Seq<Intersection>
    decreases l.len() + r.len(),
{
    if l.len() == 0 && r.len() == 0 {
        seq![]
    } else if r.len() == 0 || (l.len() > 0 && l[0].t <= r[0].t) {
        let rest = csg_walk(op, l.drop_first(), r, !inside_left, inside_right);
        if csg_allows(op, true, inside_left, inside_right) {
            seq![l[0]].add(rest)
        } else {
            rest
        }
    } else {
        let rest = csg_walk(op, l, r.drop_first(), inside_left, !inside_right);
        if csg_allows(op, false, inside_left, inside_right) {
            seq![r[0]].add(rest)
        } else {
            rest
        }
    }
}

proof fn lemma_walk_ascending(
    op: CsgOp,
    l: Seq<Intersection>,
    r: Seq<Intersection>,
    inside_left: bool,
    inside_right: bool,
)
    requires
        ascending(l),
        ascending(r),
    ensures
        ascending(csg_walk(op, l, r, inside_left, inside_right)),
        forall|k: int|
            0 <= k < csg_walk(op, l, r, inside_left, inside_right).len() ==> {
                let x = #[trigger] csg_walk(op, l, r, inside_left, inside_right)[k];
                l.contains(x) || r.contains(x)
            },
    decreases l.len() + r.len(),
{
    let w = csg_walk(op, l, r, inside_left, inside_right);
    if l.len() == 0 && r.len() == 0 {
    } else if r.len() == 0 || (l.len() > 0 && l[0].t <= r[0].t) {
        let d = l.drop_first();
        assert forall|i: int, j: int| 0 <= i < j < d.len() implies #[trigger] d[i].t <= #[trigger] d[j].t by {
            assert(d[i] == l[i + 1] && d[j] == l[j + 1]);
        }
        lemma_walk_ascending(op, d, r, !inside_left, inside_right);
        let rest = csg_walk(op, d, r, !inside_left, inside_right);
        assert forall|k: int| 0 <= k < rest.len() implies l[0].t <= #[trigger] rest[k].t && (l.contains(rest[k]) || r.contains(rest[k])) by {
            let x = rest[k];
            if d.contains(x) {
                let q = choose|q: int| 0 <= q < d.len() && d[q] == x;
                assert(l[q + 1] == x);
            } else {
                let q = choose|q: int| 0 <= q < r.len() && r[q] == x;
                if q > 0 {
                    assert(r[0].t <= r[q].t);
                }
            }
        }
        assert(l.contains(l[0]));
        if csg_allows(op, true, inside_left, inside_right) {
            assert(w == seq![l[0]].add(rest));
            assert forall|k: int| 0 < k < w.len() implies w[k] == rest[k - 1] by {}
        }
    } else {
        let d = r.drop_first();
        assert forall|i: int, j: int| 0 <= i < j < d.len() implies #[trigger] d[i].t <= #[trigger] d[j].t by {
            assert(d[i] == r[i + 1] && d[j] == r[j + 1]);
        }
        lemma_walk_ascending(op, l, d, inside_left, !inside_right);
        let rest = csg_walk(op, l, d, inside_left, !inside_right);
        assert forall|k: int| 0 <= k < rest.len() implies r[0].t <= #[trigger] rest[k].t && (l.contains(rest[k]) || r.contains(rest[k])) by {
            let x = rest[k];
            if d.contains(x) {
                let q = choose|q: int| 0 <= q < d.len() && d[q] == x;
                assert(r[q + 1] == x);
            } else {
                let q = choose|q: int| 0 <= q < l.len() && l[q] == x;
                if q > 0 {
                    assert(l[0].t <= l[q].t);
                }
            }
        }
        assert(r.contains(r[0]));
        if csg_allows(op, false, inside_left, inside_right) {
            assert(w == seq![r[0]].add(rest));
            assert forall|k: int| 0 < k < w.len() implies w[k] == rest[k - 1] by {}
        }
    }
}

pub open spec fn nondecreasing(ts: Seq<i64>) -> bool {
    forall|i: int, j: int| 0 <= i < j < ts.len() ==> ts[i] <= ts[j]
}

proof fn lemma_tagged_ascending(ts: Seq<i64>, id: u128, s: Surface)
    requires
        nondecreasing(ts),
    ensures
        ascending(tagged(ts, id, s)),
{
    let xs = tagged(ts, id, s);
    assert forall|i: int, j: int| 0 <= i < j < xs.len() implies #[trigger] xs[i].t <= #[trigger] xs[j].t by {
        assert(xs[i].t == ts[i] && xs[j].t == ts[j]);
    }
}

proof fn lemma_primitive_ts_nondecreasing(r: Ray)
    ensures
        nondecreasing(sphere_ts(r)),
        nondecreasing(plane_ts(r)),
        nondecreasing(cube_ts(r)),
{
}

proof fn lemma_lifted_ascending(xs: Seq<Intersection>, id: u128, t: Transform)
    requires
        ascending(xs),
    ensures
        ascending(xs.map_values(|x: Intersection| lifted(x, id, t))),
{
    let ys = xs.map_values(|x: Intersection| lifted(x, id, t));
    assert forall|i: int, j: int| 0 <= i < j < ys.len() implies #[trigger] ys[i].t <= #[trigger] ys[j].t by {
        assert(ys[i].t == xs[i].t && ys[j].t == xs[j].t);
    }
}

/// Every shape reports its intersections in ascending order of `t`; for a
/// node, the walk over its children's lists is thus a walk in sorted order.
pub proof fn lemma_shape_xs_ascending(s: Shape, r: Ray)
    ensures
        ascending(shape_xs(s, r)),
    decreases s,
{
    match s {
        Shape::Sphere(p) => {
            let l = ray_into(p.transform, r);
            lemma_primitive_ts_nondecreasing(l);
            lemma_tagged_ascending(sphere_ts(l), p.id, Surface { primitive: Primitive::Sphere, transform: p.transform, material: p.material });
        },
        Shape::Plane(p) => {
            let l = ray_into(p.transform, r);
            lemma_primitive_ts_nondecreasing(l);
            lemma_tagged_ascending(plane_ts(l), p.id, Surface { primitive: Primitive::Plane, transform: p.transform, material: p.material });
        },
        Shape::Cube(p) => {
            let l = ray_into(p.transform, r);
            lemma_primitive_ts_nondecreasing(l);
            lemma_tagged_ascending(cube_ts(l), p.id, Surface { primitive: Primitive::Cube, transform: p.transform, material: p.material });
        },
        Shape::Csg(c) => {
            let local = ray_into(c.transform, r);
            lemma_shape_xs_ascending(*c.left, local);
            lemma_shape_xs_ascending(*c.right, local);
            let (lx, rx) = (shape_xs(*c.left, local), shape_xs(*c.right, local));
            lemma_walk_ascending(c.op, lx, rx, false, false);
            lemma_lifted_ascending(csg_walk(c.op, lx, rx, false, false), c.id, c.transform);
        },
    }
}

/// A hit reported by a child of a node, as the node reports it: tagged with
/// the node's id, its surface placed by the node's transform too.
pub open spec fn lifted(x: Intersection, id: u128, t: Transform) -> Intersection {
    Intersection {
        t: x.t,
        object: id,
        surface: Surface { primitive: x.surface.primitive, transform: chained(x.surface.transform, t), material: x.surface.material },
    }
}

pub open spec fn tagged(ts: Seq<i64>, id: u128, s: Surface) -> Seq<Intersection> {
    ts.map_values(|t: i64| Intersection { t, object: id, surface: s })
}

/// Every intersection of world-space ray `r` with shape `s`, ascending by `t`.
pub open spec fn shape_xs(s: Shape, r: Ray) -> Seq<Intersection>
    decreases s,
{
    match s {
        Shape::Sphere(p) => tagged(
            sphere_ts(ray_into(p.transform, r)),
            p.id,
            Surface { primitive: Primitive::Sphere, transform: p.transform, material: p.material },
        ),
        Shape::Plane(p) => tagged(
            plane_ts(ray_into(p.transform, r)),
            p.id,
            Surface { primitive: Primitive::Plane, transform: p.transform, material: p.material },
        ),
        Shape::Cube(p) => tagged(
            cube_ts(ray_into(p.transform, r)),
            p.id,
            Surface { primitive: Primitive::Cube, transform: p.transform, material: p.material },
        ),
        Shape::Csg(c) => {
            let local = ray_into(c.transform, r);
            csg_walk(c.op, shape_xs(*c.left, local), shape_xs(*c.right, local), false, false).map_values(
                |x: Intersection| lifted(x, c.id, c.transform),
            )
        },
    }
}

// ---------------------------------------------------------------- exec: local hits

fn sphere_hits(r: Ray) -> (ts: Vec<i64>)
    ensures
        ts@ == sphere_ts(r),
{
    let s = Vector { x: r.origin.x, y: r.origin.y, z: r.origin.z };
    let a = r.direction.dot(r.direction);
    let b = fmul(2 * ONE, r.direction.dot(s));
    let c = fsub(s.dot(s), ONE);
    let disc = fsub(fmul(b, b), fmul(4 * ONE, fmul(a, c)));
    if disc < 0 {
        return Vec::new();
    }
    let root = fsqrt(disc);
    let t1 = fdiv(fsub(fneg(b), root), fmul(2 * ONE, a));
    let t2 = fdiv(fadd(fneg(b), root), fmul(2 * ONE, a));
    let v = if t1 <= t2 { vec![t1, t2] } else { vec![t2, t1] };
    assert(v@ == sphere_ts(r));
    v
}

fn plane_hits(r: Ray) -> (ts: Vec<i64>)
    ensures
        ts@ == plane_ts(r),
{
    if -EPSILON < r.direction.y && r.direction.y < EPSILON {
        return Vec::new();
    }
    let v = vec![fdiv(fneg(r.origin.y), r.direction.y)];
    assert(v@ == plane_ts(r));
    v
}

fn slab_hits(origin: i64, direction: i64) -> (p: (i64, i64))
    ensures
        p.0 as int == slab(origin, direction).0,
        p.1 as int == slab(origin, direction).1,
{
    let lo = fsub(-ONE, origin);
    let hi = fsub(ONE, origin);
    let (a, b) = if direction >= EPSILON || direction <= -EPSILON {
        (fdiv(lo, direction), fdiv(hi, direction))
    } else {
        (unbounded_exec(lo), unbounded_exec(hi))
    };
    if a > b { (b, a) } else { (a, b) }
}

fn unbounded_exec(x: i64) -> (r: i64)
    ensures
        r == unbounded(x as int),
{
    if x > 0 { LIMIT } else if x < 0 { -LIMIT } else { 0 }
}

fn cube_hits(r: Ray) -> (ts: Vec<i64>)
    ensures
        ts@ == cube_ts(r),
{
    let (x0, x1) = slab_hits(r.origin.x, r.direction.x);
    let (y0, y1) = slab_hits(r.origin.y, r.direction.y);
    let (z0, z1) = slab_hits(r.origin.z, r.direction.z);
    let m = if x0 >= y0 { x0 } else { y0 };
    let tmin = if m >= z0 { m } else { z0 };
    let n = if x1 <= y1 { x1 } else { y1 };
    let tmax = if n <= z1 { n } else { z1 };
    if tmin > tmax || tmax < 0 {
        return Vec::new();
    }
    let v = vec![tmin, tmax];
    assert(v@ == cube_ts(r));
    v
}

fn tag_all(ts: Vec<i64>, id: u128, s: Surface) -> (xs: Vec<Intersection>)
    ensures
        xs@ == tagged(ts@, id, s),
{
    let mut xs: Vec<Intersection> = Vec::new();
    let mut i: usize = 0;
    while i < ts.len()
        invariant
            i <= ts.len(),
            xs@ == tagged(ts@.take(i as int), id, s),
        decreases ts.len() - i,
    {
        xs.push(Intersection { t: ts[i], object: id, surface: s });
        i += 1;
        assert(ts@.take(i as int) == ts@.take(i - 1).push(ts@[i - 1]));
    }
    assert(ts@.take(i as int) == ts@);
    xs
}

fn lift_all(xs: Vec<Intersection>, id: u128, t: &Transform) -> (out: Vec<Intersection>)
    ensures
        out@ == xs@.map_values(|x: Intersection| lifted(x, id, *t)),
{
    let mut out: Vec<Intersection> = Vec::new();
    let mut i: usize = 0;
    while i < xs.len()
        invariant
            i <= xs.len(),
            out@ == xs@.take(i as int).map_values(|x: Intersection| lifted(x, id, *t)),
        decreases xs.len() - i,
    {
        let x = xs[i];
        out.push(Intersection {
            t: x.t,
            object: id,
            surface: Surface { primitive: x.surface.primitive, transform: x.surface.transform.followed_by(t), material: x.surface.material },
        });
        i += 1;
        assert(xs@.take(i as int) == xs@.take(i - 1).push(xs@[i - 1]));
    }
    assert(xs@.take(i as int) == xs@);
    out
}

/// Whether a hit survives the boolean operation `op`: the truth table of a
/// constructive-solid-geometry node.
pub fn intersection_allowed(op: CsgOp, hit_is_left: bool, inside_left: bool, inside_right: bool) -> (r: bool)
    ensures
        r == csg_allows(op, hit_is_left, inside_left, inside_right),
{
    match op {
        CsgOp::Union => (hit_is_left && !inside_right) || (!hit_is_left && !inside_left),
        CsgOp::Intersection => (hit_is_left && inside_right) || (!hit_is_left && inside_left),
        CsgOp::Difference => (hit_is_left && !inside_right) || (!hit_is_left && inside_left),
    }
}

/// Merges two ascending hit lists and keeps the hits that `op` allows.
pub fn filter_intersections(op: CsgOp, l: &Vec<Intersection>, r: &Vec<Intersection>) -> (out: Vec<Intersection>)
    ensures
        out@ == csg_walk(op, l@, r@, false, false),
{
    let mut out: Vec<Intersection> = Vec::new();
    let mut i: usize = 0;
    let mut j: usize = 0;
    let mut in_l = false;
    let mut in_r = false;
    assert(l@.skip(0) == l@ && r@.skip(0) == r@);
    assert(out@ + csg_walk(op, l@, r@, false, false) == csg_walk(op, l@, r@, false, false));
    while i < l.len() || j < r.len()
        invariant
            i <= l.len(),
            j <= r.len(),
            out@ + csg_walk(op, l@.skip(i as int), r@.skip(j as int), in_l, in_r) == csg_walk(op, l@, r@, false, false),
        decreases l.len() + r.len() - i - j,
    {
        let ghost (ls, rs) = (l@.skip(i as int), r@.skip(j as int));
        if j >= r.len() || (i < l.len() && l[i].t <= r[j].t) {
            assert(ls.drop_first() == l@.skip(i + 1));
            if intersection_allowed(op, true, in_l, in_r) {
                out.push(l[i]);
                assert(out@ + csg_walk(op, l@.skip(i + 1), rs, !in_l, in_r) == csg_walk(op, l@, r@, false, false));
            }
            in_l = !in_l;
            i += 1;
        } else {
            assert(rs.drop_first() == r@.skip(j + 1));
            if intersection_allowed(op, false, in_l, in_r) {
                out.push(r[j]);
                assert(out@ + csg_walk(op, ls, r@.skip(j + 1), in_l, !in_r) == csg_walk(op, l@, r@, false, false));
            }
            in_r = !in_r;
            j += 1;
        }
    }
    assert(csg_walk(op, l@.skip(i as int), r@.skip(j as int), in_l, in_r) == Seq::<Intersection>::empty());
    assert(out@ + Seq::<Intersection>::empty() == out@);
    out
}

// ---------------------------------------------------------------- normals

pub open spec fn abs_of(x: i64) -> int {
    if x >= 0 { x as int } else { -(x as int) }
}

/// The outward normal of a primitive at a point of its local frame.
pub open spec fn local_normal(p: Primitive, at: Point) -> Vector {
    match p {
        Primitive::Sphere => Vector { x: at.x, y: at.y, z: at.z },
        Primitive::Plane => Vector { x: 0, y: ONE, z: 0 },
        Primitive::Cube => {
            let m = max3(abs_of(at.x), abs_of(at.y), abs_of(at.z));
            if m == abs_of(at.x) {
                Vector { x: at.x, y: 0, z: 0 }
            } else if m == abs_of(at.y) {
                Vector { x: 0, y: at.y, z: 0 }
            } else {
                Vector { x: 0, y: 0, z: at.z }
            }
        },
    }
}

/// The unit normal of surface `s` at world point `p`: the point goes into
/// the local frame, and the local normal comes back by the inverse transpose.
pub open spec fn world_normal(s: Surface, p: Point) -> Vector {
    let local = point_image(s.transform.inverse, p);
    normalized(transposed_image(s.transform.inverse, local_normal(s.primitive, local)))
}

fn abs_wide(x: i64) -> (r: i128)
    ensures
        r == abs_of(x),
{
    if x >= 0 { x as i128 } else { -(x as i128) }
}

fn primitive_normal(p: Primitive, at: Point) -> (n: Vector)
    ensures
        n == local_normal(p, at),
{
    match p {
        Primitive::Sphere => Vector { x: at.x, y: at.y, z: at.z },
        Primitive::Plane => Vector { x: 0, y: ONE, z: 0 },
        Primitive::Cube => {
            let (ax, ay, az) = (abs_wide(at.x), abs_wide(at.y), abs_wide(at.z));
            let m0 = if ax >= ay { ax } else { ay };
            let m = if m0 >= az { m0 } else { az };
            if m == ax {
                Vector { x: at.x, y: 0, z: 0 }
            } else if m == ay {
                Vector { x: 0, y: at.y, z: 0 }
            } else {
                Vector { x: 0, y: 0, z: at.z }
            }
        },
    }
}

impl Surface {
    /// The unit normal at world point `p`.
    pub fn normal_at(&self, p: Point) -> (n: Vector)
        ensures
            n == world_normal(*self, p),
    {
        let inv = &self.transform.inverse;
        let local = inv.apply_point(p);
        inv.apply_transposed(primitive_normal(self.primitive, local)).normalize()
    }
}

// ---------------------------------------------------------------- shapes

impl Sphere {
    /// The unit sphere: identity transform, default material, a fresh id.
    pub fn new() -> (s: Sphere)
        ensures
            s.transform == identity_transform(),
            s.material == default_material(),
    {
        Sphere { id: fresh_id(), transform: Transform::identity(), material: Material::new() }
    }

    /// Parameters at which a ray in the sphere's frame meets it, ascending;
    /// `None` when it misses.
    pub fn local_intersect(&self, r: Ray) -> (xs: Option<Vec<i64>>)
        ensures
            xs is None <==> sphere_ts(r).len() == 0,
            xs is Some ==> xs->0@ == sphere_ts(r),
    {
        let ts = sphere_hits(r);
        if ts.len() == 0 { None } else { Some(ts) }
    }

    pub fn local_normal_at(&self, p: Point) -> (n: Vector)
        ensures
            n == local_normal(Primitive::Sphere, p),
    {
        primitive_normal(Primitive::Sphere, p)
    }
}

impl Plane {
    /// The xz-plane: identity transform, default material, a fresh id.
    pub fn new() -> (s: Plane)
        ensures
            s.transform == identity_transform(),
            s.material == default_material(),
    {
        Plane { id: fresh_id(), transform: Transform::identity(), material: Material::new() }
    }

    /// The parameter at which a ray in the plane's frame meets it; `None`
    /// when the ray is parallel to the plane or lies in it.
    pub fn local_intersect(&self, r: Ray) -> (xs: Option<Vec<i64>>)
        ensures
            xs is None <==> (-EPSILON < r.direction.y < EPSILON),
            xs is Some ==> xs->0@ == seq![sdiv(sneg(r.origin.y as int), r.direction.y as int) as i64],
    {
        let ts = plane_hits(r);
        if ts.len() == 0 { None } else { Some(ts) }
    }

    /// The plane's normal, the same everywhere.
    pub fn local_normal_at(&self, p: Point) -> (n: Vector)
        ensures
            n == (Vector { x: 0, y: ONE, z: 0 }),
    {
        primitive_normal(Primitive::Plane, p)
    }
}

impl Cube {
    /// The cube `[-1, 1]^3`: identity transform, default material, a fresh id.
    pub fn new() -> (s: Cube)
        ensures
            s.transform == identity_transform(),
            s.material == default_material(),
    {
        Cube { id: fresh_id(), transform: Transform::identity(), material: Material::new() }
    }

    /// Entry and exit parameters of a ray in the cube's frame; `None` when it
    /// misses or the cube is wholly behind it.
    pub fn local_intersect(&self, r: Ray) -> (xs: Option<Vec<i64>>)
        ensures
            xs is None <==> cube_ts(r).len() == 0,
            xs is Some ==> xs->0@ == cube_ts(r),
    {
        let ts = cube_hits(r);
        if ts.len() == 0 { None } else { Some(ts) }
    }

    pub fn local_normal_at(&self, p: Point) -> (n: Vector)
        ensures
            n == local_normal(Primitive::Cube, p),
    {
        primitive_normal(Primitive::Cube, p)
    }
}

impl Csg {
    /// `left` and `right` combined by `op`, with the identity transform.
    pub fn new(op: CsgOp, left: Shape, right: Shape) -> (c: Csg)
        ensures
            c.op == op,
            *c.left == left,
            *c.right == right,
            c.transform == identity_transform(),
            c.material == default_material(),
    {
        Csg {
            id: fresh_id(),
            transform: Transform::identity(),
            material: Material::new(),
            op,
            left: Box::new(left),
            right: Box::new(right),
        }
    }
}

pub open spec fn shape_id(s: Shape) -> u128 {
    match s {
        Shape::Sphere(p) => p.id,
        Shape::Plane(p) => p.id,
        Shape::Cube(p) => p.id,
        Shape::Csg(c) => c.id,
    }
}

pub open spec fn shape_transform(s: Shape) -> Transform {
    match s {
        Shape::Sphere(p) => p.transform,
        Shape::Plane(p) => p.transform,
        Shape::Cube(p) => p.transform,
        Shape::Csg(c) => c.transform,
    }
}

pub open spec fn shape_material(s: Shape) -> Material {
    match s {
        Shape::Sphere(p) => p.material,
        Shape::Plane(p) => p.material,
        Shape::Cube(p) => p.material,
        Shape::Csg(c) => c.material,
    }
}

pub open spec fn surface_of(s: Shape) -> Option<Surface> {
    match s {
        Shape::Sphere(p) => Some(Surface { primitive: Primitive::Sphere, transform: p.transform, material: p.material }),
        Shape::Plane(p) => Some(Surface { primitive: Primitive::Plane, transform: p.transform, material: p.material }),
        Shape::Cube(p) => Some(Surface { primitive: Primitive::Cube, transform: p.transform, material: p.material }),
        Shape::Csg(_) => None,
    }
}

impl Shape {
    pub fn id(&self) -> (r: u128)
        ensures
            r == shape_id(*self),
    {
        match self {
            Shape::Sphere(p) => p.id,
            Shape::Plane(p) => p.id,
            Shape::Cube(p) => p.id,
            Shape::Csg(c) => c.id,
        }
    }

    pub fn transform(&self) -> (r: Transform)
        ensures
            r == shape_transform(*self),
    {
        match self {
            Shape::Sphere(p) => p.transform,
            Shape::Plane(p) => p.transform,
            Shape::Cube(p) => p.transform,
            Shape::Csg(c) => c.transform,
        }
    }

    pub fn material(&self) -> (r: &Material)
        ensures
            *r == shape_material(*self),
    {
        match self {
            Shape::Sphere(p) => &p.material,
            Shape::Plane(p) => &p.material,
            Shape::Cube(p) => &p.material,
            Shape::Csg(c) => &c.material,
        }
    }

    pub fn set_transform(&mut self, t: Transform)
        ensures
            *final(self) == match *old(self) {
                Shape::Sphere(p) => Shape::Sphere(Sphere { transform: t, ..p }),
                Shape::Plane(p) => Shape::Plane(Plane { transform: t, ..p }),
                Shape::Cube(p) => Shape::Cube(Cube { transform: t, ..p }),
                Shape::Csg(c) => Shape::Csg(Csg { transform: t, ..c }),
            },
    {
        match self {
            Shape::Sphere(p) => p.transform = t,
            Shape::Plane(p) => p.transform = t,
            Shape::Cube(p) => p.transform = t,
            Shape::Csg(c) => c.transform = t,
        }
    }

    /// The material, for changing in place.
    pub fn material_mut(&mut self) -> (r: &mut Material)
        ensures
            *r == shape_material(*old(self)),
            *final(self) == match *old(self) {
                Shape::Sphere(p) => Shape::Sphere(Sphere { material: *final(r), ..p }),
                Shape::Plane(p) => Shape::Plane(Plane { material: *final(r), ..p }),
                Shape::Cube(p) => Shape::Cube(Cube { material: *final(r), ..p }),
                Shape::Csg(c) => Shape::Csg(Csg { material: *final(r), ..c }),
            },
    {
        match self {
            Shape::Sphere(p) => &mut p.material,
            Shape::Plane(p) => &mut p.material,
            Shape::Cube(p) => &mut p.material,
            Shape::Csg(c) => &mut c.material,
        }
    }

    pub fn set_material(&mut self, m: Material)
        ensures
            *final(self) == match *old(self) {
                Shape::Sphere(p) => Shape::Sphere(Sphere { material: m, ..p }),
                Shape::Plane(p) => Shape::Plane(Plane { material: m, ..p }),
                Shape::Cube(p) => Shape::Cube(Cube { material: m, ..p }),
                Shape::Csg(c) => Shape::Csg(Csg { material: m, ..c }),
            },
    {
        match self {
            Shape::Sphere(p) => p.material = m,
            Shape::Plane(p) => p.material = m,
            Shape::Cube(p) => p.material = m,
            Shape::Csg(c) => c.material = m,
        }
    }

    /// The surface of a primitive shape; `None` for a combination of shapes.
    pub fn surface(&self) -> (r: Option<Surface>)
        ensures
            r == surface_of(*self),
    {
        match self {
            Shape::Sphere(p) => Some(Surface { primitive: Primitive::Sphere, transform: p.transform, material: p.material }),
            Shape::Plane(p) => Some(Surface { primitive: Primitive::Plane, transform: p.transform, material: p.material }),
            Shape::Cube(p) => Some(Surface { primitive: Primitive::Cube, transform: p.transform, material: p.material }),
            Shape::Csg(_) => None,
        }
    }

    /// Two shapes are the same shape when their ids agree.
    pub fn shape_eq(&self, other: &Shape) -> (r: bool)
        ensures
            r == (shape_id(*self) == shape_id(*other)),
    {
        self.id() == other.id()
    }

    /// Every intersection of a world-space ray with this shape, ascending for
    /// primitives; a node reports its children's hits that its operation keeps.
    pub fn intersect(&self, r: Ray) -> (xs: Vec<Intersection>)
        ensures
            xs@ == shape_xs(*self, r),
        decreases self,
    {
        match self {
            Shape::Sphere(p) => tag_all(
                sphere_hits(p.transform.ray_to_local(r)),
                p.id,
                Surface { primitive: Primitive::Sphere, transform: p.transform, material: p.material },
            ),
            Shape::Plane(p) => tag_all(
                plane_hits(p.transform.ray_to_local(r)),
                p.id,
                Surface { primitive: Primitive::Plane, transform: p.transform, material: p.material },
            ),
            Shape::Cube(p) => tag_all(
                cube_hits(p.transform.ray_to_local(r)),
                p.id,
                Surface { primitive: Primitive::Cube, transform: p.transform, material: p.material },
            ),
            Shape::Csg(c) => {
                let local = c.transform.ray_to_local(r);
                let lx = c.left.intersect(local);
                let rx = c.right.intersect(local);
                let kept = filter_intersections(c.op, &lx, &rx);
                lift_all(kept, c.id, &c.transform)
            },
        }
    }
}

} // verus!
