use rustic_ray::shapes::{filter_intersections, intersection_allowed};
use rustic_ray::{
    Csg, CsgOp, Cube, Intersection, Material, Point, Primitive, Ray, Shape, Sphere, Surface,
    Transform, Vector,
};

fn fx(v: f64) -> i64 {
    (v * 1e9).round() as i64
}

fn point(x: f64, y: f64, z: f64) -> Point {
    Point::new(fx(x), fx(y), fx(z))
}

fn vector(x: f64, y: f64, z: f64) -> Vector {
    Vector::new(fx(x), fx(y), fx(z))
}

fn expected(op: CsgOp, lhit: bool, inl: bool, inr: bool) -> bool {
    match op {
        CsgOp::Union => (lhit && !inr) || (!lhit && !inl),
        CsgOp::Intersection => (lhit && inr) || (!lhit && inl),
        CsgOp::Difference => (lhit && !inr) || (!lhit && inl),
    }
}

#[test]
fn csg_truth_table_all_cases() {
    let table: [(CsgOp, bool, bool, bool, bool); 24] = [
        (CsgOp::Union, true, true, true, false),
        (CsgOp::Union, true, true, false, true),
        (CsgOp::Union, true, false, true, false),
        (CsgOp::Union, true, false, false, true),
        (CsgOp::Union, false, true, true, false),
        (CsgOp::Union, false, true, false, false),
        (CsgOp::Union, false, false, true, true),
        (CsgOp::Union, false, false, false, true),
        (CsgOp::Intersection, true, true, true, true),
        (CsgOp::Intersection, true, true, false, false),
        (CsgOp::Intersection, true, false, true, true),
        (CsgOp::Intersection, true, false, false, false),
        (CsgOp::Intersection, false, true, true, true),
        (CsgOp::Intersection, false, true, false, true),
        (CsgOp::Intersection, false, false, true, false),
        (CsgOp::Intersection, false, false, false, false),
        (CsgOp::Difference, true, true, true, false),
        (CsgOp::Difference, true, true, false, true),
        (CsgOp::Difference, true, false, true, false),
        (CsgOp::Difference, true, false, false, true),
        (CsgOp::Difference, false, true, true, true),
        (CsgOp::Difference, false, true, false, true),
        (CsgOp::Difference, false, false, true, false),
        (CsgOp::Difference, false, false, false, false),
    ];
    for (op, lhit, inl, inr, want) in table {
        assert_eq!(intersection_allowed(op, lhit, inl, inr), want, "{:?} {} {} {}", op, lhit, inl, inr);
        assert_eq!(expected(op, lhit, inl, inr), want);
    }
}

fn surface() -> Surface {
    Surface { primitive: Primitive::Sphere, transform: Transform::identity(), material: Material::new() }
}

fn xs(ts: &[i64], object: u128) -> Vec<Intersection> {
    ts.iter().map(|t| Intersection::with_surface(fx(*t as f64), object, surface())).collect()
}

#[test]
fn filtering_a_list_of_intersections() {
    // Left hits at 1 and 3, right hits at 2 and 4.
    let l = xs(&[1, 3], 1);
    let r = xs(&[2, 4], 2);
    let cases = [
        (CsgOp::Union, vec![fx(1.0), fx(4.0)]),
        (CsgOp::Intersection, vec![fx(2.0), fx(3.0)]),
        (CsgOp::Difference, vec![fx(1.0), fx(2.0)]),
    ];
    for (op, want) in cases {
        let kept: Vec<i64> = filter_intersections(op, &l, &r).iter().map(|i| i.t).collect();
        assert_eq!(kept, want, "{:?}", op);
    }
}

#[test]
fn a_ray_misses_a_csg_object() {
    let c = Shape::Csg(Csg::new(CsgOp::Union, Shape::Sphere(Sphere::new()), Shape::Cube(Cube::new())));
    let r = Ray::new(point(0.0, 2.0, -5.0), vector(0.0, 0.0, 1.0));
    assert!(c.intersect(r).is_empty());
}

#[test]
fn a_ray_hits_a_csg_object() {
    let s1 = Sphere::new();
    let mut s2 = Sphere::new();
    s2.transform = Transform::translation(0, 0, fx(0.5));
    let c = Csg::new(CsgOp::Union, Shape::Sphere(s1), Shape::Sphere(s2));
    let shape = Shape::Csg(c);
    let r = Ray::new(point(0.0, 0.0, -5.0), vector(0.0, 0.0, 1.0));
    let hits = shape.intersect(r);

    assert_eq!(hits.len(), 2);
    assert_eq!(hits[0].t, fx(4.0));
    assert_eq!(hits[1].t, fx(6.5));
    assert!(hits.iter().all(|h| h.object == shape.id()));
    // The kept hits keep the surface of the child that reported them.
    assert_eq!(hits[0].surface.transform, Transform::identity());
    assert_eq!(hits[1].surface.transform, s2.transform);
}

#[test]
fn intersection_of_two_overlapping_spheres() {
    let s1 = Sphere::new();
    let mut s2 = Sphere::new();
    s2.transform = Transform::translation(0, 0, fx(0.5));
    let shape = Shape::Csg(Csg::new(CsgOp::Intersection, Shape::Sphere(s1), Shape::Sphere(s2)));
    let r = Ray::new(point(0.0, 0.0, -5.0), vector(0.0, 0.0, 1.0));
    let ts: Vec<i64> = shape.intersect(r).iter().map(|h| h.t).collect();
    assert_eq!(ts, vec![fx(4.5), fx(6.0)]);

    let shape = Shape::Csg(Csg::new(CsgOp::Difference, Shape::Sphere(Sphere::new()), Shape::Sphere(s2)));
    let ts: Vec<i64> = shape.intersect(r).iter().map(|h| h.t).collect();
    assert_eq!(ts, vec![fx(4.0), fx(4.5)]);
}

#[test]
fn a_ray_through_a_cube() {
    let c = Cube::new();
    let r = Ray::new(point(5.0, 0.5, 0.0), vector(-1.0, 0.0, 0.0));
    assert_eq!(c.local_intersect(r), Some(vec![fx(4.0), fx(6.0)]));
    let inside = Ray::new(point(0.0, 0.5, 0.0), vector(0.0, 0.0, 1.0));
    assert_eq!(c.local_intersect(inside), Some(vec![fx(-1.0), fx(1.0)]));
    let miss = Ray::new(point(-2.0, 0.0, 0.0), vector(0.2673, 0.5345, 0.8018));
    assert_eq!(c.local_intersect(miss), None);
    let behind = Ray::new(point(0.0, 0.0, 5.0), vector(0.0, 0.0, 1.0));
    assert_eq!(c.local_intersect(behind), None);
}

#[test]
fn the_normal_on_a_cube() {
    let c = Cube::new();
    assert_eq!(c.local_normal_at(point(1.0, 0.5, -0.8)), vector(1.0, 0.0, 0.0));
    assert_eq!(c.local_normal_at(point(-0.4, 0.4, -1.0)), vector(0.0, 0.0, -1.0));
    assert_eq!(c.local_normal_at(point(0.3, -1.0, -0.7)), vector(0.0, -1.0, 0.0));
}

#[test]
fn a_sphere_that_a_ray_misses_and_a_tangent_ray() {
    let s = Sphere::new();
    assert_eq!(s.local_intersect(Ray::new(point(0.0, 2.0, -5.0), vector(0.0, 0.0, 1.0))), None);
    assert_eq!(
        s.local_intersect(Ray::new(point(0.0, 1.0, -5.0), vector(0.0, 0.0, 1.0))),
        Some(vec![fx(5.0), fx(5.0)])
    );
}

#[test]
fn shapes_get_distinct_ids() {
    let a = Shape::Sphere(Sphere::new());
    let b = Shape::Sphere(Sphere::new());
    assert!(!a.shape_eq(&b));
    assert!(a.shape_eq(&a));
}
