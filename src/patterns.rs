//! Procedural textures, each evaluated in its own local frame.
use vstd::prelude::*;
use crate::fixed::{fadd, ONE};
use crate::ids::fresh_id;
use crate::transform::{identity_transform, point_image, Transform};
use crate::tuples::{color_minus, color_plus, color_scaled, Color, Point};

verus! {

/// Fractional part of a scalar, in `[0, ONE)`.
pub open spec fn frac_of(x: i64) -> int {
    if x >= 0 {
        x as int % ONE as int
    } else {
        let m = (-(x as int)) % ONE as int;
        if m == 0 {
            0
        } else {
            ONE - m
        }
    }
}

/// The whole part of a scalar, rounded toward minus infinity.
pub open spec fn floor_of(x: i64) -> int {
    if x >= 0 {
        x as int / ONE as int
    } else {
        -((-(x as int) - 1) / ONE as int) - 1
    }
}

/// A single color everywhere.
#[derive(Clone, Copy, Debug, PartialEq, Eq, Structural)]
pub struct Solid {
    pub id: u128,
    pub color: Color,
    pub transform: Transform,
}

/// Bands of `a` and `b` alternating along `x`, one unit wide.
#[derive(Clone, Copy, Debug, PartialEq, Eq, Structural)]
pub struct Stripes {
    pub id: u128,
    pub a: Color,
    pub b: Color,
    pub transform: Transform,
}

/// A blend from `a` to `b` as `x` goes through each unit interval.
#[derive(Clone, Copy, Debug, PartialEq, Eq, Structural)]
pub struct Gradient {
    pub id: u128,
    pub a: Color,
    pub b: Color,
    pub transform: Transform,
}

/// Unit cubes alternating between `a` and `b`.
#[derive(Clone, Copy, Debug, PartialEq, Eq, Structural)]
pub struct Checkers {
    pub id: u128,
    pub a: Color,
    pub b: Color,
    pub transform: Transform,
}

/// A pattern whose color is the local point itself; useful to observe the
/// point that reaches a pattern.
#[derive(Clone, Copy, Debug, PartialEq, Eq, Structural)]
pub struct TestPattern {
    pub id: u128,
    pub transform: Transform,
}

#[derive(Clone, Copy, Debug, PartialEq, Eq, Structural)]
pub enum Pattern {
    Solid(Solid),
    Stripes(Stripes),
    Gradient(Gradient),
    Checkers(Checkers),
    Test(TestPattern),
}

pub open spec fn gradient_color(a: Color, b: Color, p: Point) -> Color {
    color_plus(a, color_scaled(color_minus(b, a), frac_of(p.x)))
}

/// The color of pattern `pat` at a point of its local frame.
pub open spec fn local_color(pat: Pattern, p: Point) -> Color {
    match pat {
        Pattern::Solid(s) => s.color,
        Pattern::Stripes(s) => if floor_of(p.x) % 2 == 0 { s.a } else { s.b },
        Pattern::Gradient(g) => gradient_color(g.a, g.b, p),
        Pattern::Checkers(c) => if (floor_of(p.x) + floor_of(p.y) + floor_of(p.z)) % 2 == 0 {
            c.a
        } else {
            c.b
        },
        Pattern::Test(_) => Color { red: p.x, green: p.y, blue: p.z },
    }
}

pub open spec fn pattern_transform(pat: Pattern) -> Transform {
    match pat {
        Pattern::Solid(s) => s.transform,
        Pattern::Stripes(s) => s.transform,
        Pattern::Gradient(g) => g.transform,
        Pattern::Checkers(c) => c.transform,
        Pattern::Test(t) => t.transform,
    }
}

/// The color of `pat` at `world_point` on a shape placed by `shape_transform`:
/// the point goes into the shape's frame, then into the pattern's.
pub open spec fn color_on_shape(pat: Pattern, shape_transform: Transform, world_point: Point) -> Color {
    let object_point = point_image(shape_transform.inverse, world_point);
    let pattern_point = point_image(pattern_transform(pat).inverse, object_point);
    local_color(pat, pattern_point)
}

fn frac(x: i64) -> (r: i64)
    ensures
        r == frac_of(x),
{
    if x >= 0 {
        x % ONE
    } else {
        let m: i64 = ((-(x as i128)) % (ONE as i128)) as i64;
        if m == 0 {
            0
        } else {
            ONE - m
        }
    }
}

fn floor(x: i64) -> (r: i64)
    ensures
        r == floor_of(x),
{
    if x >= 0 {
        x / ONE
    } else {
        (-((-(x as i128) - 1) / (ONE as i128)) - 1) as i64
    }
}

fn is_even(n: i64) -> (r: bool)
    ensures
        r == (n as int % 2 == 0),
{
    if n >= 0 {
        n % 2 == 0
    } else {
        (-(n as i128)) % 2 == 0
    }
}

impl Gradient {
    /// A gradient from `a` to `b`, with the identity transform.
    pub fn new(a: Color, b: Color) -> (r: Gradient)
        ensures
            r.a == a,
            r.b == b,
            r.transform == identity_transform(),
    {
        Gradient { id: fresh_id(), a, b, transform: Transform::identity() }
    }

    pub fn pattern_at(&self, p: Point) -> (r: Color)
        ensures
            r == gradient_color(self.a, self.b, p),
    {
        self.a.plus(self.b.minus(self.a).scaled(frac(p.x)))
    }
}

impl TestPattern {
    pub fn new() -> (r: TestPattern)
        ensures
            r.transform == identity_transform(),
    {
        TestPattern { id: fresh_id(), transform: Transform::identity() }
    }

    pub fn pattern_at(&self, p: Point) -> (r: Color)
        ensures
            r == (Color { red: p.x, green: p.y, blue: p.z }),
    {
        Color::new(p.x, p.y, p.z)
    }
}

impl Default for TestPattern {
    fn default() -> (r: TestPattern)
        ensures
            r.transform == identity_transform(),
    {
        TestPattern::new()
    }
}

impl Solid {
    pub fn new(color: Color) -> (r: Solid)
        ensures
            r.color == color,
            r.transform == identity_transform(),
    {
        Solid { id: fresh_id(), color, transform: Transform::identity() }
    }
}

impl Stripes {
    pub fn new(a: Color, b: Color) -> (r: Stripes)
        ensures
            r.a == a,
            r.b == b,
            r.transform == identity_transform(),
    {
        Stripes { id: fresh_id(), a, b, transform: Transform::identity() }
    }
}

impl Checkers {
    pub fn new(a: Color, b: Color) -> (r: Checkers)
        ensures
            r.a == a,
            r.b == b,
            r.transform == identity_transform(),
    {
        Checkers { id: fresh_id(), a, b, transform: Transform::identity() }
    }
}

impl Pattern {
    pub fn id(&self) -> (r: u128)
        ensures
            r == match *self {
                Pattern::Solid(s) => s.id,
                Pattern::Stripes(s) => s.id,
                Pattern::Gradient(g) => g.id,
                Pattern::Checkers(c) => c.id,
                Pattern::Test(t) => t.id,
            },
    {
        match self {
            Pattern::Solid(s) => s.id,
            Pattern::Stripes(s) => s.id,
            Pattern::Gradient(g) => g.id,
            Pattern::Checkers(c) => c.id,
            Pattern::Test(t) => t.id,
        }
    }

    pub fn transform(&self) -> (r: Transform)
        ensures
            r == pattern_transform(*self),
    {
        match self {
            Pattern::Solid(s) => s.transform,
            Pattern::Stripes(s) => s.transform,
            Pattern::Gradient(g) => g.transform,
            Pattern::Checkers(c) => c.transform,
            Pattern::Test(t) => t.transform,
        }
    }

    pub fn set_transform(&mut self, t: Transform)
        ensures
            *final(self) == match *old(self) {
                Pattern::Solid(s) => Pattern::Solid(Solid { transform: t, ..s }),
                Pattern::Stripes(s) => Pattern::Stripes(Stripes { transform: t, ..s }),
                Pattern::Gradient(g) => Pattern::Gradient(Gradient { transform: t, ..g }),
                Pattern::Checkers(c) => Pattern::Checkers(Checkers { transform: t, ..c }),
                Pattern::Test(p) => Pattern::Test(TestPattern { transform: t, ..p }),
            },
    {
        match self {
            Pattern::Solid(s) => s.transform = t,
            Pattern::Stripes(s) => s.transform = t,
            Pattern::Gradient(g) => g.transform = t,
            Pattern::Checkers(c) => c.transform = t,
            Pattern::Test(p) => p.transform = t,
        }
    }

    /// The color at a point of the pattern's local frame.
    pub fn pattern_at(&self, p: Point) -> (r: Color)
        ensures
            r == local_color(*self, p),
    {
        match self {
            Pattern::Solid(s) => s.color,
            Pattern::Stripes(s) => if is_even(floor(p.x)) { s.a } else { s.b },
            Pattern::Gradient(g) => g.pattern_at(p),
            Pattern::Checkers(c) => {
                let sum = fadd(fadd(floor(p.x), floor(p.y)), floor(p.z));
                if is_even(sum) { c.a } else { c.b }
            },
            Pattern::Test(t) => t.pattern_at(p),
        }
    }

    /// The color at `world_point` on a shape placed by `shape_transform`.
    pub fn pattern_at_shape(&self, shape_transform: &Transform, world_point: Point) -> (r: Color)
        ensures
            r == color_on_shape(*self, *shape_transform, world_point),
    {
        let object_point = shape_transform.inverse.apply_point(world_point);
        let pattern_point = self.transform().inverse.apply_point(object_point);
        self.pattern_at(pattern_point)
    }
}

} // verus!
