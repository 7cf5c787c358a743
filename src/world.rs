//! A scene: shapes and an optional point light, with whole-scene ray
//! intersection, shadow tests and shading.
use vstd::prelude::*;
use crate::fixed::ONE;
use crate::intersections::{
    ascending, computations_of, first_nonneg, lemma_first_nonneg, lemma_sort_by_t, sort_by_t,
    Computations,
};
use crate::materials::{default_material, phong, surface_color, Material, PointLight};
use crate::shapes::{shape_material, shape_transform, shape_xs, Intersection, Shape, Sphere};
use crate::transform::{diagonal, identity_transform, Transform};
use crate::tuples::{
    black, color_blend, color_scaled, magnitude_of, normalized, point_minus, Color, Point, Ray,
};

verus! {

broadcast use vstd::seq_lib::group_to_multiset_ensures;

/// A collection of all objects in a scene, and its light.
#[derive(Debug)]
pub struct World {
    /// Light source of the world.
    pub light: Option<PointLight>,
    /// The objects of the scene, in the order they were added.
    pub objects: Vec<Shape>,
}

/// The intersections of `r` with each of `objs` in turn, concatenated.
pub open spec fn all_xs(objs: Seq<Shape>, r: Ray) -> Seq<Intersection>
    decreases objs.len(),
{
    if objs.len() == 0 {
        seq![]
    } else {
        all_xs(objs.drop_last(), r) + shape_xs(objs.last(), r)
    }
}

/// Every intersection of `r` with the scene, ascending by `t`.
pub open spec fn world_xs(w: World, r: Ray) -> Seq<Intersection> {
    sort_by_t(all_xs(w.objects(), r))
}

/// Whether an object lies between `p` and the light, strictly nearer than it.
pub open spec fn shadowed(w: World, p: Point) -> bool {
    let v = point_minus(w.light->0.position, p);
    let distance = magnitude_of(v);
    match first_nonneg(world_xs(w, Ray { origin: p, direction: normalized(v) })) {
        Some(h) => h.t < distance,
        None => false,
    }
}

/// Phong shading of a prepared hit, in shadow or not.
pub open spec fn shade_of(w: World, c: Computations) -> Color {
    phong(
        c.surface.material,
        c.surface.transform,
        w.light->0,
        c.over_point,
        c.eyev,
        c.normalv,
        shadowed(w, c.over_point),
    )
}

/// The color seen along `r`: black when nothing is hit.
pub open spec fn color_of(w: World, r: Ray) -> Color {
    match first_nonneg(world_xs(w, r)) {
        Some(h) => shade_of(w, computations_of(h, r)),
        None => black(),
    }
}

impl World {
    /// The objects of the scene, in the order they were added.
    pub open spec fn objects(self) -> Seq<Shape> {
        self.objects@
    }

    /// A world with no objects and no light.
    pub fn new() -> (w: World)
        ensures
            w.light is None,
            w.objects() == Seq::<Shape>::empty(),
    {
        World { light: None, objects: Vec::new() }
    }

    /// Adds `object` after the existing ones.
    pub fn add_object(&mut self, object: Shape)
        ensures
            final(self).objects() == old(self).objects().push(object),
            final(self).light == old(self).light,
    {
        self.objects.push(object);
    }

    pub fn object_count(&self) -> (n: usize)
        ensures
            n == self.objects().len(),
    {
        self.objects.len()
    }

    /// The object at `index`, or `None` past the end.
    pub fn get_object(&self, index: usize) -> (r: Option<&Shape>)
        ensures
            r is Some <==> index < self.objects().len(),
            r is Some ==> *r->0 == self.objects()[index as int],
    {
        if index < self.objects.len() {
            Some(&self.objects[index])
        } else {
            None
        }
    }

    /// The object at `index` for changing in place, or `None` past the end.
    pub fn get_object_mut(&mut self, index: usize) -> (r: Option<&mut Shape>)
        ensures
            r is Some <==> index < old(self).objects().len(),
            r is Some ==> *r->0 == old(self).objects()[index as int],
            r is Some ==> final(self).objects() == old(self).objects().update(index as int, *final(r->0)),
            r is None ==> *final(self) == *old(self),
            final(self).light == old(self).light,
    {
        if index < self.objects.len() {
            Some(&mut self.objects[index])
        } else {
            None
        }
    }

    /// Intersects `r` with every object; all the intersections in ascending
    /// order of `t` (equal `t` in the order of the objects), or `None` when
    /// there are none.
    pub fn intersect_world(&self, r: Ray) -> (xs: Option<Vec<Intersection>>)
        ensures
            xs is None <==> all_xs(self.objects(), r).len() == 0,
            xs is Some ==> xs->0@ == world_xs(*self, r),
            xs is Some ==> ascending(xs->0@),
            xs is Some ==> xs->0@.to_multiset() == all_xs(self.objects(), r).to_multiset(),
    {
        let mut all: Vec<Intersection> = Vec::new();
        let mut i: usize = 0;
        while i < self.objects.len()
            invariant
                i <= self.objects@.len(),
                all@ == all_xs(self.objects@.take(i as int), r),
            decreases self.objects@.len() - i,
        {
            let mut o_xs = self.objects[i].intersect(r);
            assert(self.objects@.take(i + 1).drop_last() == self.objects@.take(i as int));
            all.append(&mut o_xs);
            i += 1;
        }
        assert(self.objects@.take(i as int) == self.objects@);
        if all.len() == 0 {
            None
        } else {
            proof {
                lemma_sort_by_t(all@);
            }
            Some(Intersection::sort(&all))
        }
    }

    /// Whether an object lies between `point` and the light: casts a ray from
    /// `point` toward the light and compares the nearest hit with the light's
    /// distance.
    pub fn is_shadow(&self, point: Point) -> (r: bool)
        requires
            self.light is Some,
        ensures
            r == shadowed(*self, point),
    {
        let light = self.light.unwrap();
        let v = light.position.minus(point);
        let distance = v.magnitude();
        let ray = Ray::new(point, v.normalize());
        match self.intersect_world(ray) {
            Some(xs) => match Intersection::hit(&xs) {
                Some(h) => h.t < distance,
                None => false,
            },
            None => {
                assert(world_xs(*self, ray) == Seq::<Intersection>::empty()) by {
                    lemma_sort_by_t(all_xs(self.objects(), ray));
                }
                false
            },
        }
    }

    /// The color at a prepared hit, under the world's light, in shadow or not.
    pub fn shade_hit(&self, comps: &Computations) -> (c: Color)
        requires
            self.light is Some,
        ensures
            c == shade_of(*self, *comps),
    {
        let shadowed = self.is_shadow(comps.over_point);
        comps.surface.material.lighting(
            &comps.surface.transform,
            self.light.unwrap(),
            comps.over_point,
            comps.eyev,
            comps.normalv,
            shadowed,
        )
    }

    /// The color seen along `r`: the shaded nearest non-negative hit, or black.
    pub fn color_at(&self, r: Ray) -> (c: Color)
        requires
            self.light is Some,
        ensures
            c == color_of(*self, r),
    {
        match self.intersect_world(r) {
            Some(xs) => match Intersection::hit(&xs) {
                Some(i) => {
                    let comps = i.prepare_computations(r);
                    self.shade_hit(&comps)
                },
                None => Color::black(),
            },
            None => {
                assert(world_xs(*self, r) == Seq::<Intersection>::empty()) by {
                    lemma_sort_by_t(all_xs(self.objects(), r));
                }
                Color::black()
            },
        }
    }
}

/// A ray that meets no object at a non-negative `t` (in particular one that
/// meets no object at all) sees black.
pub proof fn lemma_miss_is_black(w: World, r: Ray)
    requires
        forall|i: int| 0 <= i < all_xs(w.objects(), r).len() ==> #[trigger] all_xs(w.objects(), r)[i].t < 0,
    ensures
        color_of(w, r) == black(),
{
    let all = all_xs(w.objects(), r);
    let s = world_xs(w, r);
    lemma_sort_by_t(all);
    lemma_first_nonneg(s);
    assert forall|k: int| 0 <= k < s.len() implies s[k].t < 0 by {
        assert(s.contains(s[k]));
        assert(s.to_multiset().count(s[k]) > 0);
        assert(all.contains(s[k]));
    }
}

/// A hit whose offset point is in shadow receives the ambient term alone.
pub proof fn lemma_shadow_leaves_ambient(w: World, c: Computations)
    requires
        w.light is Some,
        shadowed(w, c.over_point),
    ensures
        shade_of(w, c) == color_scaled(
            color_blend(surface_color(c.surface.material, c.surface.transform, c.over_point), w.light->0.intensity),
            c.surface.material.ambient as int,
        ),
{
}

/// The light of the canonical two-sphere scene.
pub open spec fn default_light() -> PointLight {
    PointLight {
        position: Point { x: -10_000_000_000i64, y: 10_000_000_000, z: -10_000_000_000i64 },
        intensity: Color { red: ONE, green: ONE, blue: ONE },
    }
}

/// The outer sphere's material in the canonical scene.
pub open spec fn default_outer_material() -> Material {
    Material {
        color: Color { red: 800_000_000, green: ONE, blue: 600_000_000 },
        diffuse: 700_000_000,
        specular: 200_000_000,
        ..default_material()
    }
}

/// The inner sphere's transform in the canonical scene: scaled by one half.
pub open spec fn default_inner_transform() -> Transform {
    Transform { matrix: diagonal(500_000_000, 500_000_000, 500_000_000),
        inverse: diagonal(2_000_000_000, 2_000_000_000, 2_000_000_000),
     }
}

impl Default for World {
    /// The canonical scene: a light at (-10, 10, -10), a unit sphere of color
    /// (0.8, 1.0, 0.6) with diffuse 0.7 and specular 0.2, and a default sphere
    /// scaled by one half inside it.
    fn default() -> (w: World)
        ensures
            w.light == Some(default_light()),
            w.objects().len() == 2,
            w.objects()[0] is Sphere,
            shape_transform(w.objects()[0]) == identity_transform(),
            shape_material(w.objects()[0]) == default_outer_material(),
            w.objects()[1] is Sphere,
            shape_transform(w.objects()[1]) == default_inner_transform(),
            shape_material(w.objects()[1]) == default_material(),
    {
        let mut w = World::new();
        w.light = Some(PointLight::new(Point::new(-10 * ONE, 10 * ONE, -10 * ONE), Color::new(ONE, ONE, ONE)));
        let mut s1 = Sphere::new();
        s1.material.color = Color::new(800_000_000, ONE, 600_000_000);
        s1.material.diffuse = 700_000_000;
        s1.material.specular = 200_000_000;
        w.add_object(Shape::Sphere(s1));
        let mut s2 = Sphere::new();
        s2.transform = Transform::scaling(ONE / 2, ONE / 2, ONE / 2).unwrap();
        w.add_object(Shape::Sphere(s2));
        w
    }
}

} // verus!
