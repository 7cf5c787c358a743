//! Surface materials, point lights and Phong shading.
use vstd::prelude::*;
use crate::fixed::{fpow, spow, ONE};
use crate::patterns::{color_on_shape, Pattern};
use crate::transform::Transform;
use crate::tuples::{
    black, color_blend, color_plus, color_scaled, dot_of, normalized, point_minus, reflected,
    vec_negated, Color, Point, Vector,
};

verus! {

/// A light with no size, at `position`, of color `intensity`.
#[derive(Clone, Copy, Debug, PartialEq, Eq, Structural)]
pub struct PointLight {
    pub position: Point,
    pub intensity: Color,
}

impl PointLight {
    pub fn new(position: Point, intensity: Color) -> (r: PointLight)
        ensures
            r == (PointLight { position, intensity }),
    {
        PointLight { position, intensity }
    }
}

/// How a surface reflects light. `shininess` is a whole exponent.
#[derive(Clone, Copy, Debug, PartialEq, Eq, Structural)]
pub struct Material {
    pub color: Color,
    pub ambient: i64,
    pub diffuse: i64,
    pub specular: i64,
    pub shininess: u32,
    pub reflective: i64,
    pub transparency: i64,
    pub refractive_index: i64,
    pub pattern: Option<Pattern>,
}

pub open spec fn default_material() -> Material {
    Material {
        color: Color { red: ONE, green: ONE, blue: ONE },
        ambient: 100_000_000,
        diffuse: 900_000_000,
        specular: 900_000_000,
        shininess: 200,
        reflective: 0,
        transparency: 0,
        refractive_index: ONE,
        pattern: None,
    }
}

/// The surface color at `point`: the pattern's where there is one.
pub open spec fn surface_color(m: Material, shape_transform: Transform, point: Point) -> Color {
    match m.pattern {
        Some(p) => color_on_shape(p, shape_transform, point),
        None => m.color,
    }
}

/// Phong shading: ambient, plus diffuse and specular terms unless the point is
/// in shadow or faces away from the light.
pub open spec fn phong(
    m: Material,
    shape_transform: Transform,
    light: PointLight,
    point: Point,
    eyev: Vector,
    normalv: Vector,
    in_shadow: bool,
) -> Color {
    let effective = color_blend(surface_color(m, shape_transform, point), light.intensity);
    let lightv = normalized(point_minus(light.position, point));
    let ambient = color_scaled(effective, m.ambient as int);
    let light_dot_normal = dot_of(lightv, normalv);
    if in_shadow || light_dot_normal < 0 {
        ambient
    } else {
        let diffuse = color_scaled(color_scaled(effective, m.diffuse as int), light_dot_normal);
        let reflect_dot_eye = dot_of(reflected(vec_negated(lightv), normalv), eyev);
        let specular = if reflect_dot_eye <= 0 {
            black()
        } else {
            color_scaled(
                color_scaled(light.intensity, m.specular as int),
                spow(reflect_dot_eye, m.shininess as nat),
            )
        };
        color_plus(color_plus(ambient, diffuse), specular)
    }
}

impl Material {
    /// White, ambient 0.1, diffuse 0.9, specular 0.9, shininess 200, no pattern.
    pub fn new() -> (r: Material)
        ensures
            r == default_material(),
    {
        Material {
            color: Color { red: ONE, green: ONE, blue: ONE },
            ambient: 100_000_000,
            diffuse: 900_000_000,
            specular: 900_000_000,
            shininess: 200,
            reflective: 0,
            transparency: 0,
            refractive_index: ONE,
            pattern: None,
        }
    }

    /// The color of this material at `point` of a shape placed by
    /// `shape_transform`, lit by `light` and seen along `eyev`.
    pub fn lighting(
        &self,
        shape_transform: &Transform,
        light: PointLight,
        point: Point,
        eyev: Vector,
        normalv: Vector,
        in_shadow: bool,
    ) -> (r: Color)
        ensures
            r == phong(*self, *shape_transform, light, point, eyev, normalv, in_shadow),
    {
        let base = match &self.pattern {
            Some(p) => p.pattern_at_shape(shape_transform, point),
            None => self.color,
        };
        let effective = base.blend(light.intensity);
        let lightv = light.position.minus(point).normalize();
        let ambient = effective.scaled(self.ambient);
        let light_dot_normal = lightv.dot(normalv);
        if in_shadow || light_dot_normal < 0 {
            return ambient;
        }
        let diffuse = effective.scaled(self.diffuse).scaled(light_dot_normal);
        let reflect_dot_eye = lightv.negated().reflect(normalv).dot(eyev);
        let specular = if reflect_dot_eye <= 0 {
            Color::black()
        } else {
            light.intensity.scaled(self.specular).scaled(fpow(reflect_dot_eye, self.shininess))
        };
        ambient.plus(diffuse).plus(specular)
    }
}

} // verus!
