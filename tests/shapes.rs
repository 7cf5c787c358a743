use rustic_ray::{Color, Gradient, Plane, Point, Ray, Shape, Vector};

fn fx(v: f64) -> i64 {
    (v * 1e9).round() as i64
}

fn point(x: f64, y: f64, z: f64) -> Point {
    Point::new(fx(x), fx(y), fx(z))
}

fn vector(x: f64, y: f64, z: f64) -> Vector {
    Vector::new(fx(x), fx(y), fx(z))
}

fn color(r: f64, g: f64, b: f64) -> Color {
    Color::new(fx(r), fx(g), fx(b))
}

#[test]
fn the_normal_of_a_plane_is_constant_everywhere() {
    let p = Plane::new();
    let n1 = p.local_normal_at(point(0.0, 0.0, 0.0));
    let n2 = p.local_normal_at(point(0.0, 0.0, 0.0));
    let n3 = p.local_normal_at(point(0.0, 0.0, 0.0));

    assert_eq!(n1, vector(0.0, 1.0, 0.0));
    assert_eq!(n2, vector(0.0, 1.0, 0.0));
    assert_eq!(n3, vector(0.0, 1.0, 0.0));
}

#[test]
fn intersect_with_a_ray_parallel_to_the_plane() {
    let p = Plane::new();
    let r = Ray::new(point(0.0, 10.0, 0.0), vector(0.0, 0.0, 1.0));
    let xs = p.local_intersect(r);

    assert_eq!(xs, None);
}

#[test]
fn intersect_with_a_coplanar_ray() {
    let p = Plane::new();
    let r = Ray::new(point(0.0, 0.0, 0.0), vector(0.0, 0.0, 1.0));
    let xs = p.local_intersect(r);

    assert_eq!(xs, None);
}

#[test]
fn a_ray_intersecting_a_plane_from_above() {
    let p = Plane::new();
    let r = Ray::new(point(0.0, 1.0, 0.0), vector(0.0, -1.0, 0.0));
    let xs = p.local_intersect(r).expect("No intersections");

    assert_eq!(xs.len(), 1);
    assert_eq!(xs[0], fx(1.0));
    let s = Shape::Plane(p);
    let tagged = s.intersect(r);
    assert!(tagged[0].object == s.id());
}

#[test]
fn a_ray_intersecting_a_plane_from_below() {
    let p = Plane::new();
    let r = Ray::new(point(0.0, -1.0, 0.0), vector(0.0, 1.0, 0.0));
    let xs = p.local_intersect(r).expect("No intersections");

    assert_eq!(xs.len(), 1);
    assert_eq!(xs[0], fx(1.0));
    let s = Shape::Plane(p);
    let tagged = s.intersect(r);
    assert!(tagged[0].object == s.id());
}

#[test]
fn a_gradient_linearly_interpolates_between_colors() {
    let white = color(1.0, 1.0, 1.0);
    let black = color(0.0, 0.0, 0.0);
    let pattern = Gradient::new(white, black);

    assert!(pattern.pattern_at(point(0.0, 0.0, 0.0)).approx_eq(white));
    assert!(pattern.pattern_at(point(0.25, 0.0, 0.0)).approx_eq(color(0.75, 0.75, 0.75)));
    assert!(pattern.pattern_at(point(0.5, 0.0, 0.0)).approx_eq(color(0.5, 0.5, 0.5)));
    assert!(pattern.pattern_at(point(0.75, 0.0, 0.0)).approx_eq(color(0.25, 0.25, 0.25)));
}

#[test]
fn changing_a_material_in_place() {
    let mut s = Shape::Plane(Plane::new());
    let id = s.id();
    s.material_mut().diffuse = fx(2.0);
    assert_eq!(s.material().diffuse, fx(2.0));
    assert_eq!(s.id(), id);
    let mut m = *s.material();
    m.ambient = fx(0.5);
    s.set_material(m);
    assert_eq!(*s.material(), m);
    let t = rustic_ray::Transform::translation(fx(1.0), 0, 0);
    s.set_transform(t);
    assert_eq!(s.transform(), t);
}

#[test]
fn the_test_pattern_reports_the_local_point() {
    let p: rustic_ray::TestPattern = Default::default();
    assert_eq!(p.pattern_at(point(0.5, -1.0, 2.0)), color(0.5, -1.0, 2.0));
    assert_eq!(p.transform, rustic_ray::Transform::identity());
}
