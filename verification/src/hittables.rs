//! The scene: an ordered set of surfaces, and the nearest hit among them.

use vstd::prelude::*;
use crate::scalar::Scalar;
use crate::sphere::{Roots, Sphere};

verus! {

/// The surfaces of a scene, in the order they were added.
pub struct Hittables {
    pub hittables: Vec<Sphere>,
}

/// The nearest hit of a ray: which surface, and at which ray parameter.
#[derive(Clone, Copy, Debug)]
pub struct Nearest {
    pub index: usize,
    pub t: Scalar,
}

impl View for Nearest {
    type V = (nat, Scalar);

    open spec fn view(&self) -> (nat, Scalar) {
        (self.index as nat, self.t)
    }
}

impl Hittables {
    /// The upper end of the interval that is left once `best` is known.
    pub open spec fn bound(best: Option<(nat, Scalar)>, t_max: Scalar) -> Scalar {
        match best {
            Some(nearest) => nearest.1,
            None => t_max,
        }
    }

    /// The nearest hit after a scan of the surfaces in order, as the index of
    /// the surface and the ray parameter.
    ///
    /// Each surface is asked for a hit below the nearest one found before it,
    /// so a later surface replaces an earlier one only with a strictly
    /// smaller parameter.
    pub open spec fn spec_hit(roots: Seq<Roots>, t_min: Scalar, t_max: Scalar) -> Option<
        (nat, Scalar),
    >
        decreases roots.len(),
    {
        if roots.len() == 0 {
            None
        } else {
            let before = Hittables::spec_hit(roots.drop_last(), t_min, t_max);
            match Sphere::spec_hit(roots.last(), t_min, Hittables::bound(before, t_max)) {
                Some(t) => Some(((roots.len() - 1) as nat, t)),
                None => before,
            }
        }
    }

    /// Whether the roots of every surface come in order.
    pub open spec fn all_ordered(roots: Seq<Roots>) -> bool {
        forall|i: int| 0 <= i < roots.len() ==> (#[trigger] roots[i]).ordered()
    }

    /// Whether the ray hits no surface inside the interval.
    pub open spec fn all_missed(roots: Seq<Roots>, t_min: Scalar, t_max: Scalar) -> bool {
        forall|i: int|
            0 <= i < roots.len() ==> (#[trigger] Sphere::spec_hit(roots[i], t_min, t_max)) is None
    }

    /// Whether surface `index` at parameter `t` is the globally nearest hit:
    /// it is the hit of that surface, no surface has a hit below it, and no
    /// earlier surface has one as near.
    pub open spec fn is_nearest(
        roots: Seq<Roots>,
        t_min: Scalar,
        t_max: Scalar,
        index: nat,
        t: Scalar,
    ) -> bool {
        &&& index < roots.len()
        &&& Sphere::spec_hit(roots[index as int], t_min, t_max) == Some(t)
        &&& forall|i: int|
            0 <= i < roots.len() ==> (#[trigger] Sphere::spec_hit(roots[i], t_min, t_max)
                matches Some(other) ==> !other.spec_lt(t) && (i < index ==> t.spec_lt(other)))
    }

    /// What is left of a hit under a tighter upper bound.
    pub open spec fn within(hit: Option<(nat, Scalar)>, tighter: Scalar) -> Option<(nat, Scalar)> {
        match hit {
            Some(nearest) => if nearest.1.spec_lt(tighter) {
                Some(nearest)
            } else {
                None
            },
            None => None,
        }
    }

    /// The model of what `hit` returns.
    pub open spec fn model(hit: Option<Nearest>) -> Option<(nat, Scalar)> {
        match hit {
            Some(nearest) => Some(nearest@),
            None => None,
        }
    }

    /// A scene without surfaces.
    pub fn new() -> (scene: Hittables)
        ensures
            scene.hittables@.len() == 0,
    {
        Hittables { hittables: Vec::new() }
    }

    /// Adds a surface behind those that are there.
    pub fn add(&mut self, hittable: Sphere)
        ensures
            final(self).hittables@ == old(self).hittables@.push(hittable),
    {
        self.hittables.push(hittable);
    }

    /// The nearest hit of a ray inside `(ray_tmin, ray_tmax)`, if any.
    ///
    /// `roots[i]` holds the roots of the ray against surface `i`.
    pub fn hit(&self, roots: &Vec<Roots>, ray_tmin: Scalar, ray_tmax: Scalar) -> (hit: Option<
        Nearest,
    >)
        requires
            roots@.len() == self.hittables@.len(),
        ensures
            Hittables::model(hit) == Hittables::spec_hit(roots@, ray_tmin, ray_tmax),
            hit matches Some(nearest) ==> nearest.index < self.hittables@.len()
                && ray_tmin.spec_lt(nearest.t) && nearest.t.spec_lt(ray_tmax),
            self.hittables@.len() == 0 ==> hit is None,
            Hittables::all_ordered(roots@) ==> match hit {
                Some(nearest) => Hittables::is_nearest(
                    roots@,
                    ray_tmin,
                    ray_tmax,
                    nearest.index as nat,
                    nearest.t,
                ),
                None => Hittables::all_missed(roots@, ray_tmin, ray_tmax),
            },
    {
        proof {
            Hittables::lemma_hit_in_interval(roots@, ray_tmin, ray_tmax);
            if Hittables::all_ordered(roots@) {
                Hittables::lemma_hit_is_nearest(roots@, ray_tmin, ray_tmax);
            }
        }
        let mut hit_record: Option<Nearest> = None;
        let mut closest_so_far = ray_tmax;
        let mut i: usize = 0;
        while i < roots.len()
            invariant
                i <= roots@.len(),
                roots@.len() == self.hittables@.len(),
                Hittables::model(hit_record) == Hittables::spec_hit(
                    roots@.take(i as int),
                    ray_tmin,
                    ray_tmax,
                ),
                closest_so_far == Hittables::bound(Hittables::model(hit_record), ray_tmax),
                hit_record matches Some(nearest) ==> nearest.index < i,
            decreases roots@.len() - i,
        {
            proof {
                assert(roots@.take(i + 1).drop_last() == roots@.take(i as int));
            }
            if let Some(t) = self.hittables[i].hit(&roots[i], ray_tmin, closest_so_far) {
                closest_so_far = t;
                hit_record = Some(Nearest { index: i, t });
            }
            i += 1;
        }
        proof {
            assert(roots@.take(i as int) == roots@);
        }
        hit_record
    }

    /// A scene without surfaces is never hit.
    pub proof fn lemma_empty_scene(t_min: Scalar, t_max: Scalar)
        ensures
            Hittables::spec_hit(Seq::<Roots>::empty(), t_min, t_max) is None,
    {
    }

    /// A reported hit lies strictly inside the interval that was asked for,
    /// and is a root of the surface it names.
    pub proof fn lemma_hit_in_interval(roots: Seq<Roots>, t_min: Scalar, t_max: Scalar)
        ensures
            Hittables::spec_hit(roots, t_min, t_max) matches Some((index, t)) ==> {
                &&& index < roots.len()
                &&& t_min.spec_lt(t)
                &&& t.spec_lt(t_max)
                &&& (t == roots[index as int].smaller || t == roots[index as int].larger)
            },
        decreases roots.len(),
    {
        if roots.len() > 0 {
            Hittables::lemma_hit_in_interval(roots.drop_last(), t_min, t_max);
        }
    }

    /// The scan finds the globally nearest hit, and none only where no
    /// surface is hit.
    pub proof fn lemma_hit_is_nearest(roots: Seq<Roots>, t_min: Scalar, t_max: Scalar)
        requires
            Hittables::all_ordered(roots),
        ensures
            match Hittables::spec_hit(roots, t_min, t_max) {
                Some((index, t)) => Hittables::is_nearest(roots, t_min, t_max, index, t),
                None => Hittables::all_missed(roots, t_min, t_max),
            },
        decreases roots.len(),
    {
        if roots.len() > 0 {
            let front = roots.drop_last();
            let last = roots.last();
            Hittables::lemma_hit_is_nearest(front, t_min, t_max);
            Hittables::lemma_hit_in_interval(front, t_min, t_max);
            let before = Hittables::spec_hit(front, t_min, t_max);
            if let Some((_, t)) = before {
                Sphere::lemma_hit_tighter_bound(last, t_min, t_max, t);
            }
            assert forall|i: int| 0 <= i < front.len() implies front[i] == roots[i] by {}
        }
    }

    /// Asking again with a tighter upper bound gives the same hit where it
    /// lies below the new bound, and none where it does not: tightening never
    /// brings a farther hit, nor another one.
    pub proof fn lemma_tighter_bound(
        roots: Seq<Roots>,
        t_min: Scalar,
        t_max: Scalar,
        tighter: Scalar,
    )
        requires
            Hittables::all_ordered(roots),
            tighter.spec_le(t_max),
        ensures
            Hittables::spec_hit(roots, t_min, tighter) == Hittables::within(
                Hittables::spec_hit(roots, t_min, t_max),
                tighter,
            ),
            Hittables::spec_hit(roots, t_min, tighter) matches Some((index, t)) ==> t.spec_lt(
                tighter,
            ),
        decreases roots.len(),
    {
        if roots.len() > 0 {
            let front = roots.drop_last();
            let last = roots.last();
            Hittables::lemma_tighter_bound(front, t_min, t_max, tighter);
            Hittables::lemma_hit_in_interval(front, t_min, t_max);
            let wide = Hittables::spec_hit(front, t_min, t_max);
            let narrow = Hittables::spec_hit(front, t_min, tighter);
            if narrow is None {
                let bound = Hittables::bound(wide, t_max);
                Sphere::lemma_hit_tighter_bound(last, t_min, bound, tighter);
            }
        }
    }

    /// The order of the surfaces does not matter to how far the nearest hit
    /// lies: two scenes of the same surfaces are both missed, or both hit at
    /// the same distance.
    pub proof fn lemma_order_is_irrelevant(
        first: Seq<Roots>,
        second: Seq<Roots>,
        t_min: Scalar,
        t_max: Scalar,
    )
        requires
            Hittables::all_ordered(first),
            forall|i: int| 0 <= i < first.len() ==> second.contains(#[trigger] first[i]),
            forall|j: int| 0 <= j < second.len() ==> first.contains(#[trigger] second[j]),
        ensures
            Hittables::spec_hit(first, t_min, t_max) is Some <==> Hittables::spec_hit(
                second,
                t_min,
                t_max,
            ) is Some,
            Hittables::spec_hit(first, t_min, t_max) matches Some((_, here)) ==> Hittables::spec_hit(
                second,
                t_min,
                t_max,
            ) matches Some((_, there)) && here.rank() == there.rank(),
    {
        assert forall|j: int| 0 <= j < second.len() implies (#[trigger] second[j]).ordered() by {
            let i = choose|i: int| 0 <= i < first.len() && first[i] == second[j];
            assert(first[i].ordered());
        }
        Hittables::lemma_hit_is_nearest(first, t_min, t_max);
        Hittables::lemma_hit_is_nearest(second, t_min, t_max);
        Hittables::lemma_hit_in_interval(first, t_min, t_max);
        Hittables::lemma_hit_in_interval(second, t_min, t_max);
        if let Some((i, here)) = Hittables::spec_hit(first, t_min, t_max) {
            assert(second.contains(first[i as int]));
            let j = choose|j: int| 0 <= j < second.len() && second[j] == first[i as int];
            assert(Sphere::spec_hit(second[j], t_min, t_max) == Some(here));
        }
        if let Some((j, there)) = Hittables::spec_hit(second, t_min, t_max) {
            assert(first.contains(second[j as int]));
            let i = choose|i: int| 0 <= i < first.len() && first[i] == second[j as int];
            assert(Sphere::spec_hit(first[i], t_min, t_max) == Some(there));
        }
    }
}

} // verus!
