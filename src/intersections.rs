//! Ordering of intersection lists, hit selection and the shading inputs
//! derived from a hit.
use vstd::prelude::*;
use crate::fixed::EPSILON;
use crate::shapes::{shape_id, surface_of, world_normal, Intersection, Shape, Surface};
use crate::tuples::{dot_of, point_plus, position_of, vec_negated, vec_scaled, Point, Ray, Vector};

verus! {

broadcast use vstd::seq_lib::group_to_multiset_ensures;

/// The list is in ascending order of `t`.
pub open spec fn ascending(s: Seq<Intersection>) -> bool {
    forall|i: int, j: int| 0 <= i < j < s.len() ==> #[trigger] s[i].t <= #[trigger] s[j].t
}

/// Length of the leading run of `s` whose `t` is at most `t`.
pub open spec fn count_le(s: Seq<Intersection>, t: i64) -> nat
    decreases s.len(),
{
    if s.len() == 0 {
        0
    } else if s[0].t > t {
        0
    } else {
        1 + count_le(s.drop_first(), t)
    }
}

/// `x` placed after every element of `s` whose `t` is at most its own.
pub open spec fn insert_sorted(s: Seq<Intersection>, x: Intersection) -> Seq<Intersection> {
    s.insert(count_le(s, x.t) as int, x)
}

/// `s` put in ascending order of `t`, stably: equal `t` keep their order.
pub open spec fn sort_by_t(s: Seq<Intersection>) -> Seq<Intersection>
    decreases s.len(),
{
    if s.len() == 0 {
        s
    } else {
        insert_sorted(sort_by_t(s.drop_last()), s.last())
    }
}

/// The first intersection with non-negative `t`.
pub open spec fn first_nonneg(s: Seq<Intersection>) -> Option<Intersection>
    decreases s.len(),
{
    if s.len() == 0 {
        None
    } else if s[0].t >= 0 {
        Some(s[0])
    } else {
        first_nonneg(s.drop_first())
    }
}

proof fn lemma_count_le(s: Seq<Intersection>, t: i64)
    ensures
        count_le(s, t) <= s.len(),
        forall|j: int| 0 <= j < count_le(s, t) ==> s[j].t <= t,
        count_le(s, t) < s.len() ==> s[count_le(s, t) as int].t > t,
    decreases s.len(),
{
    if s.len() > 0 && s[0].t <= t {
        lemma_count_le(s.drop_first(), t);
        assert forall|j: int| 0 <= j < count_le(s, t) implies s[j].t <= t by {
            if j > 0 {
                assert(s[j] == s.drop_first()[j - 1]);
            }
        }
    }
}

proof fn lemma_count_le_at(s: Seq<Intersection>, t: i64, p: int)
    requires
        0 <= p <= s.len(),
        forall|j: int| 0 <= j < p ==> s[j].t <= t,
        p < s.len() ==> s[p].t > t,
    ensures
        count_le(s, t) == p,
    decreases s.len(),
{
    if s.len() > 0 && p > 0 {
        lemma_count_le_at(s.drop_first(), t, p - 1);
    }
}

/// Sorting keeps the elements, with their multiplicities, and orders them.
pub proof fn lemma_sort_by_t(s: Seq<Intersection>)
    ensures
        ascending(sort_by_t(s)),
        sort_by_t(s).to_multiset() == s.to_multiset(),
        sort_by_t(s).len() == s.len(),
    decreases s.len(),
{
    if s.len() > 0 {
        let r = sort_by_t(s.drop_last());
        lemma_sort_by_t(s.drop_last());
        let x = s.last();
        let p = count_le(r, x.t) as int;
        lemma_count_le(r, x.t);
        let out = r.insert(p, x);
        assert forall|i: int, j: int| 0 <= i < j < out.len() implies #[trigger] out[i].t <= #[trigger] out[j].t by {
            if j < p {
            } else if j == p {
            } else if i < p {
                assert(out[j] == r[j - 1]);
            } else if i == p {
                assert(out[j] == r[j - 1]);
                assert(r[p].t <= r[j - 1].t);
            } else {
                assert(out[i] == r[i - 1]);
                assert(out[j] == r[j - 1]);
            }
        }
        assert(s == s.drop_last().push(x));
        vstd::seq_lib::to_multiset_insert(r, p, x);
    }
}

/// In an ascending list, the first non-negative intersection is the one of
/// least non-negative `t`, and there is none exactly when all `t` are negative.
pub proof fn lemma_first_nonneg(s: Seq<Intersection>)
    requires
        ascending(s),
    ensures
        first_nonneg(s) is None <==> (forall|i: int| 0 <= i < s.len() ==> s[i].t < 0),
        first_nonneg(s) is Some ==> {
            let h = first_nonneg(s)->0;
            &&& s.contains(h)
            &&& h.t >= 0
            &&& forall|i: int| 0 <= i < s.len() && s[i].t >= 0 ==> h.t <= s[i].t
        },
    decreases s.len(),
{
    if s.len() > 0 {
        if s[0].t < 0 {
            let d = s.drop_first();
            lemma_first_nonneg(d);
            assert forall|i: int| 0 <= i < s.len() && i > 0 implies s[i] == d[i - 1] by {}
            if first_nonneg(d) is Some {
                let h = first_nonneg(d)->0;
                let k = choose|k: int| 0 <= k < d.len() && d[k] == h;
                assert(s[k + 1] == h);
            }
        } else {
            assert(s[0] == s[0]);
            assert(s.contains(s[0]));
        }
    }
}

/// The shading inputs derived from a hit.
#[derive(Clone, Copy, Debug, PartialEq, Eq, Structural)]
pub struct Computations {
    pub t: i64,
    pub object: u128,
    pub surface: Surface,
    pub point: Point,
    pub eyev: Vector,
    pub normalv: Vector,
    pub inside: bool,
    /// The hit point nudged along the normal, so a shadow ray from it does
    /// not strike the surface it starts on.
    pub over_point: Point,
}

pub open spec fn computations_of(i: Intersection, r: Ray) -> Computations {
    let point = position_of(r, i.t as int);
    let eyev = vec_negated(r.direction);
    let n = world_normal(i.surface, point);
    let inside = dot_of(n, eyev) < 0;
    let normalv = if inside { vec_negated(n) } else { n };
    Computations {
        t: i.t,
        object: i.object,
        surface: i.surface,
        point,
        eyev,
        normalv,
        inside,
        over_point: point_plus(point, vec_scaled(normalv, EPSILON as int)),
    }
}

impl Intersection {
    /// An intersection at `t` with a primitive shape; `None` for a
    /// combination of shapes, whose hits name the child surface struck.
    pub fn new(t: i64, object: &Shape) -> (r: Option<Intersection>)
        ensures
            r is Some <==> surface_of(*object) is Some,
            r is Some ==> r->0 == (Intersection { t, object: shape_id(*object), surface: surface_of(*object)->0 }),
    {
        match object.surface() {
            Some(surface) => Some(Intersection { t, object: object.id(), surface }),
            None => None,
        }
    }

    /// An intersection at `t` with `surface`, reported by the shape of id `object`.
    pub fn with_surface(t: i64, object: u128, surface: Surface) -> (r: Intersection)
        ensures
            r == (Intersection { t, object, surface }),
    {
        Intersection { t, object, surface }
    }

    /// The shading inputs of this intersection of ray `r`.
    pub fn prepare_computations(&self, r: Ray) -> (c: Computations)
        ensures
            c == computations_of(*self, r),
    {
        let point = r.position(self.t);
        let eyev = r.direction.negated();
        let n = self.surface.normal_at(point);
        let inside = n.dot(eyev) < 0;
        let normalv = if inside { n.negated() } else { n };
        Computations {
            t: self.t,
            object: self.object,
            surface: self.surface,
            point,
            eyev,
            normalv,
            inside,
            over_point: point.plus(normalv.scaled(EPSILON)),
        }
    }

    /// The visible hit: the first intersection with non-negative `t`, which in
    /// an ascending list is the one of least non-negative `t`.
    pub fn hit(xs: &Vec<Intersection>) -> (r: Option<Intersection>)
        ensures
            r == first_nonneg(xs@),
    {
        let mut i: usize = 0;
        assert(xs@.skip(0) == xs@);
        while i < xs.len()
            invariant
                i <= xs.len(),
                first_nonneg(xs@.skip(i as int)) == first_nonneg(xs@),
            decreases xs.len() - i,
        {
            assert(xs@.skip(i as int).drop_first() == xs@.skip(i + 1));
            if xs[i].t >= 0 {
                return Some(xs[i]);
            }
            i += 1;
        }
        None
    }

    /// The intersections in ascending order of `t`; equal `t` keep their order.
    pub fn sort(xs: &Vec<Intersection>) -> (out: Vec<Intersection>)
        ensures
            out@ == sort_by_t(xs@),
    {
        let mut out: Vec<Intersection> = Vec::new();
        let mut i: usize = 0;
        while i < xs.len()
            invariant
                i <= xs.len(),
                out@ == sort_by_t(xs@.take(i as int)),
            decreases xs.len() - i,
        {
            let x = xs[i];
            let mut p: usize = 0;
            while p < out.len() && out[p].t <= x.t
                invariant
                    p <= out.len(),
                    forall|j: int| 0 <= j < p ==> out@[j].t <= x.t,
                decreases out.len() - p,
            {
                p += 1;
            }
            proof {
                lemma_count_le_at(out@, x.t, p as int);
                assert(xs@.take(i + 1).drop_last() == xs@.take(i as int));
            }
            out.insert(p, x);
            i += 1;
        }
        assert(xs@.take(i as int) == xs@);
        out
    }
}

} // verus!
