use rustic_ray::fixed::{fdiv, fmul, fpow, fsqrt, LIMIT};
use rustic_ray::patterns::{Checkers, Stripes};
use rustic_ray::{Camera, Color, Pattern, Point, Ray, Transform, Vector, World, ONE};

fn fx(v: f64) -> i64 {
    (v * 1e9).round() as i64
}

fn point(x: f64, y: f64, z: f64) -> Point {
    Point::new(fx(x), fx(y), fx(z))
}

fn vector(x: f64, y: f64, z: f64) -> Vector {
    Vector::new(fx(x), fx(y), fx(z))
}

fn color(r: f64, g: f64, b: f64) -> Color {
    Color::new(fx(r), fx(g), fx(b))
}

#[test]
fn scalar_arithmetic() {
    assert_eq!(fmul(fx(1.5), fx(2.0)), fx(3.0));
    assert_eq!(fmul(fx(-1.5), fx(2.0)), fx(-3.0));
    assert_eq!(fdiv(fx(1.0), fx(4.0)), fx(0.25));
    assert_eq!(fdiv(fx(-1.0), fx(3.0)), -333_333_333);
    assert_eq!(fdiv(fx(1.0), 0), 0);
    assert_eq!(fsqrt(fx(16.0)), fx(4.0));
    assert_eq!(fsqrt(fx(2.0)), 1_414_213_562);
    assert_eq!(fsqrt(fx(-4.0)), 0);
    assert_eq!(fpow(fx(0.5), 3), fx(0.125));
    assert_eq!(fpow(fx(3.0), 0), ONE);
    assert_eq!(fmul(LIMIT, LIMIT), LIMIT);
    assert_eq!(fmul(-LIMIT, LIMIT), -LIMIT);
}

#[test]
fn normalizing_and_reflecting_vectors() {
    let v = vector(4.0, 0.0, 0.0).normalize();
    assert_eq!(v, vector(1.0, 0.0, 0.0));
    assert_eq!(vector(1.0, 2.0, 2.0).magnitude(), fx(3.0));
    let r = vector(1.0, -1.0, 0.0).reflect(vector(0.0, 1.0, 0.0));
    assert_eq!(r, vector(1.0, 1.0, 0.0));
}

#[test]
fn transforms_move_and_scale_points() {
    let t = Transform::translation(fx(5.0), fx(-3.0), fx(2.0));
    assert_eq!(t.matrix.apply_point(point(-3.0, 4.0, 5.0)), point(2.0, 1.0, 7.0));
    assert_eq!(t.inverse.apply_point(point(-3.0, 4.0, 5.0)), point(-8.0, 7.0, 3.0));
    assert_eq!(t.matrix.apply_vector(vector(-3.0, 4.0, 5.0)), vector(-3.0, 4.0, 5.0));
    let s = Transform::scaling(fx(2.0), fx(4.0), fx(5.0)).unwrap();
    assert_eq!(s.matrix.apply_point(point(-4.0, 6.0, 8.0)), point(-8.0, 24.0, 40.0));
    assert_eq!(s.inverse.apply_vector(vector(-4.0, 8.0, 10.0)), vector(-2.0, 2.0, 2.0));
    assert!(Transform::scaling(0, ONE, ONE).is_none());
    let both = s.followed_by(&t);
    assert_eq!(both.matrix.apply_point(point(1.0, 1.0, 1.0)), point(7.0, 1.0, 7.0));
    assert_eq!(both.inverse.apply_point(point(7.0, 1.0, 7.0)), point(1.0, 1.0, 1.0));
}

#[test]
fn patterns_stripes_and_checkers() {
    let white = color(1.0, 1.0, 1.0);
    let black = color(0.0, 0.0, 0.0);
    let stripes = Pattern::Stripes(Stripes::new(white, black));
    assert_eq!(stripes.pattern_at(point(0.0, 0.0, 0.0)), white);
    assert_eq!(stripes.pattern_at(point(0.9, 0.0, 0.0)), white);
    assert_eq!(stripes.pattern_at(point(1.0, 0.0, 0.0)), black);
    assert_eq!(stripes.pattern_at(point(-0.1, 0.0, 0.0)), black);
    assert_eq!(stripes.pattern_at(point(-1.1, 0.0, 0.0)), white);
    let checkers = Pattern::Checkers(Checkers::new(white, black));
    assert_eq!(checkers.pattern_at(point(0.99, 0.0, 0.0)), white);
    assert_eq!(checkers.pattern_at(point(1.01, 0.0, 0.0)), black);
    assert_eq!(checkers.pattern_at(point(0.0, 0.0, 1.01)), black);
    assert_eq!(checkers.pattern_at(point(-0.5, -0.5, 0.0)), white);
}

#[test]
fn a_pattern_with_shape_and_pattern_transforms() {
    let mut p = Pattern::Test(rustic_ray::TestPattern::new());
    p.set_transform(Transform::translation(fx(0.5), fx(1.0), fx(1.5)));
    let shape_t = Transform::scaling(fx(2.0), fx(2.0), fx(2.0)).unwrap();
    let c = p.pattern_at_shape(&shape_t, point(2.5, 3.0, 3.5));
    assert_eq!(c, color(0.75, 0.5, 0.25));
}

#[test]
fn a_gradient_repeats_each_unit() {
    let white = color(1.0, 1.0, 1.0);
    let black = color(0.0, 0.0, 0.0);
    let g = rustic_ray::Gradient::new(white, black);
    assert_eq!(g.pattern_at(point(1.25, 0.0, 0.0)), color(0.75, 0.75, 0.75));
    assert_eq!(g.pattern_at(point(-0.25, 0.0, 0.0)), color(0.25, 0.25, 0.25));
}

fn camera(h: usize, v: usize) -> Camera {
    // tan(pi / 4) for a field of view of pi / 2.
    let mut c = Camera::new(h, v, ONE);
    c.transform = Transform::view(point(0.0, 0.0, -5.0), point(0.0, 0.0, 0.0), vector(0.0, 1.0, 0.0));
    c
}

#[test]
fn the_view_transform_looking_in_positive_z() {
    let t = Transform::view(point(0.0, 0.0, 0.0), point(0.0, 0.0, 1.0), vector(0.0, 1.0, 0.0));
    assert_eq!(t.matrix.apply_point(point(1.0, 2.0, 3.0)), point(-1.0, 2.0, -3.0));
    let t = Transform::view(point(0.0, 0.0, 8.0), point(0.0, 0.0, 0.0), vector(0.0, 1.0, 0.0));
    assert_eq!(t.matrix.apply_point(point(1.0, 2.0, 3.0)), point(1.0, 2.0, -5.0));
    assert_eq!(t.inverse.apply_point(point(1.0, 2.0, -5.0)), point(1.0, 2.0, 3.0));
}

#[test]
fn the_pixel_size_of_a_camera() {
    let c = Camera::new(200, 125, ONE);
    assert_eq!(c.pixel_size, fx(0.01));
    let c = Camera::new(125, 200, ONE);
    assert_eq!(c.pixel_size, fx(0.01));
}

#[test]
fn a_ray_through_the_center_of_the_canvas() {
    let c = Camera::new(201, 101, ONE);
    let r = c.ray_for_pixel(100, 50);
    assert_eq!(r.origin, point(0.0, 0.0, 0.0));
    let d = r.direction;
    assert!((d.x).abs() < 1000 && (d.y).abs() < 1000 && (d.z + ONE).abs() < 1000, "{:?}", d);
}

#[test]
fn a_ray_through_a_corner_of_the_canvas() {
    let c = Camera::new(201, 101, ONE);
    let r: Ray = c.ray_for_pixel(0, 0);
    let d = r.direction;
    assert!((d.x - fx(0.66519)).abs() < 100_000, "{:?}", d);
    assert!((d.y - fx(0.33259)).abs() < 100_000, "{:?}", d);
    assert!((d.z - fx(-0.66851)).abs() < 100_000, "{:?}", d);
}

#[test]
fn rendering_the_default_world_through_a_moved_camera() {
    let w = World::default();
    let c = camera(11, 11);
    let image = c.render(&w);
    assert_eq!(image.width, 11);
    assert_eq!(image.height, 11);
    assert!(image.pixel_at(5, 5).approx_eq(color(0.38066, 0.47583, 0.2855)), "{:?}", image.pixel_at(5, 5));
    assert_eq!(image.pixel_at(0, 0), color(0.0, 0.0, 0.0));
}

#[test]
fn batch_size_does_not_change_the_image() {
    let w = World::default();
    let c = camera(11, 7);
    let whole = c.render(&w);
    for batch in [1, 10, 11 * 7, 1000] {
        let image = c.render_parallel(&w, batch);
        assert_eq!(image.pixels, whole.pixels, "batch size {}", batch);
        assert_eq!((image.width, image.height), (whole.width, whole.height));
    }
}

#[test]
fn a_canvas_as_rgb_bytes() {
    let w = World::default();
    let c = camera(3, 2);
    let image = c.render(&w);
    let bytes = image.to_rgb_bytes();
    assert_eq!(bytes.len(), 3 * 2 * 3);
    let mut canvas = image;
    canvas.pixels[0] = color(1.5, 0.5, -0.5);
    let bytes = canvas.to_rgb_bytes();
    assert_eq!(&bytes[0..3], &[255, 128, 0]);
}

fn light_at(x: f64, y: f64, z: f64) -> rustic_ray::PointLight {
    rustic_ray::PointLight::new(point(x, y, z), color(1.0, 1.0, 1.0))
}

#[test]
fn lighting_with_the_eye_between_light_and_surface() {
    let m = rustic_ray::Material::new();
    let c = m.lighting(&Transform::identity(), light_at(0.0, 0.0, -10.0), point(0.0, 0.0, 0.0), vector(0.0, 0.0, -1.0), vector(0.0, 0.0, -1.0), false);
    assert!(c.approx_eq(color(1.9, 1.9, 1.9)), "{:?}", c);
}

#[test]
fn lighting_with_the_eye_in_the_path_of_the_reflection() {
    let m = rustic_ray::Material::new();
    let h = std::f64::consts::FRAC_1_SQRT_2;
    let c = m.lighting(&Transform::identity(), light_at(0.0, 10.0, -10.0), point(0.0, 0.0, 0.0), vector(0.0, -h, -h), vector(0.0, 0.0, -1.0), false);
    assert!(c.approx_eq(color(1.6364, 1.6364, 1.6364)), "{:?}", c);
    let c = m.lighting(&Transform::identity(), light_at(0.0, 10.0, -10.0), point(0.0, 0.0, 0.0), vector(0.0, 0.0, -1.0), vector(0.0, 0.0, -1.0), false);
    assert!(c.approx_eq(color(0.7364, 0.7364, 0.7364)), "{:?}", c);
}

#[test]
fn lighting_with_the_light_behind_the_surface_or_in_shadow() {
    let m = rustic_ray::Material::new();
    let c = m.lighting(&Transform::identity(), light_at(0.0, 0.0, 10.0), point(0.0, 0.0, 0.0), vector(0.0, 0.0, -1.0), vector(0.0, 0.0, -1.0), false);
    assert!(c.approx_eq(color(0.1, 0.1, 0.1)), "{:?}", c);
    let c = m.lighting(&Transform::identity(), light_at(0.0, 0.0, -10.0), point(0.0, 0.0, 0.0), vector(0.0, 0.0, -1.0), vector(0.0, 0.0, -1.0), true);
    assert!(c.approx_eq(color(0.1, 0.1, 0.1)), "{:?}", c);
}

#[test]
fn lighting_with_a_pattern_applied() {
    let mut m = rustic_ray::Material::new();
    m.pattern = Some(Pattern::Stripes(Stripes::new(color(1.0, 1.0, 1.0), color(0.0, 0.0, 0.0))));
    m.ambient = ONE;
    m.diffuse = 0;
    m.specular = 0;
    let t = Transform::identity();
    let c1 = m.lighting(&t, light_at(0.0, 0.0, -10.0), point(0.9, 0.0, 0.0), vector(0.0, 0.0, -1.0), vector(0.0, 0.0, -1.0), false);
    let c2 = m.lighting(&t, light_at(0.0, 0.0, -10.0), point(1.1, 0.0, 0.0), vector(0.0, 0.0, -1.0), vector(0.0, 0.0, -1.0), false);
    assert_eq!(c1, color(1.0, 1.0, 1.0));
    assert_eq!(c2, color(0.0, 0.0, 0.0));
}

#[test]
fn the_hit_is_the_lowest_non_negative_intersection() {
    let s = rustic_ray::Shape::Sphere(rustic_ray::Sphere::new());
    let at = |t: f64| rustic_ray::Intersection::new(fx(t), &s).unwrap();
    let xs = rustic_ray::Intersection::sort(&vec![at(5.0), at(7.0), at(-3.0), at(2.0)]);
    let ts: Vec<i64> = xs.iter().map(|i| i.t).collect();
    assert_eq!(ts, vec![fx(-3.0), fx(2.0), fx(5.0), fx(7.0)]);
    assert_eq!(rustic_ray::Intersection::hit(&xs).map(|i| i.t), Some(fx(2.0)));
    let behind = vec![at(-2.0), at(-1.0)];
    assert!(rustic_ray::Intersection::hit(&behind).is_none());
    assert!(rustic_ray::Intersection::hit(&Vec::new()).is_none());
}

#[test]
fn the_hit_should_offset_the_point() {
    let mut s = rustic_ray::Sphere::new();
    s.transform = Transform::translation(0, 0, fx(1.0));
    let shape = rustic_ray::Shape::Sphere(s);
    let r = Ray::new(point(0.0, 0.0, -5.0), vector(0.0, 0.0, 1.0));
    let comps = rustic_ray::Intersection::new(fx(5.0), &shape).unwrap().prepare_computations(r);
    assert!(comps.over_point.z < -rustic_ray::EPSILON / 2);
    assert!(comps.point.z > comps.over_point.z);
    assert!(!comps.inside);
}

#[test]
fn a_hit_from_the_inside_flips_the_normal() {
    let shape = rustic_ray::Shape::Sphere(rustic_ray::Sphere::new());
    let r = Ray::new(point(0.0, 0.0, 0.0), vector(0.0, 0.0, 1.0));
    let comps = rustic_ray::Intersection::new(fx(1.0), &shape).unwrap().prepare_computations(r);
    assert_eq!(comps.point, point(0.0, 0.0, 1.0));
    assert_eq!(comps.eyev, vector(0.0, 0.0, -1.0));
    assert!(comps.inside);
    assert_eq!(comps.normalv, vector(0.0, 0.0, -1.0));
}

#[test]
fn a_combination_has_no_single_surface() {
    let c = rustic_ray::Shape::Csg(rustic_ray::Csg::new(
        rustic_ray::CsgOp::Union,
        rustic_ray::Shape::Sphere(rustic_ray::Sphere::new()),
        rustic_ray::Shape::Cube(rustic_ray::Cube::new()),
    ));
    assert!(rustic_ray::Intersection::new(ONE, &c).is_none());
}

#[test]
fn rotations_turn_points_about_each_axis() {
    // A quarter turn: cosine 0, sine 1.
    let rx = Transform::rotation_x(0, ONE);
    assert_eq!(rx.matrix.apply_point(point(0.0, 1.0, 0.0)), point(0.0, 0.0, 1.0));
    assert_eq!(rx.inverse.apply_point(point(0.0, 0.0, 1.0)), point(0.0, 1.0, 0.0));
    let ry = Transform::rotation_y(0, ONE);
    assert_eq!(ry.matrix.apply_point(point(0.0, 0.0, 1.0)), point(1.0, 0.0, 0.0));
    let rz = Transform::rotation_z(0, ONE);
    assert_eq!(rz.matrix.apply_point(point(0.0, 1.0, 0.0)), point(-1.0, 0.0, 0.0));
    assert_eq!(rz.inverse.apply_point(point(-1.0, 0.0, 0.0)), point(0.0, 1.0, 0.0));
}
