//! The scene: an ordered collection of spheres, and nearest-hit resolution.

use vstd::prelude::*;

use crate::hit::HitRecord;
use crate::interval::Interval;
use crate::ray::Ray;
use crate::sphere::{lemma_sphere_hit_in_interval, lemma_sphere_hit_narrow, Sphere};

verus! {

/// An ordered, flat collection of primitives, scanned linearly per ray.
/// The world exclusively owns its primitives.
pub struct World {
    items: Vec<Sphere>,
}

impl View for World {
    type V = Seq<Sphere>;

    closed spec fn view(&self) -> Seq<Sphere> {
        self.items@
    }
}

/// What scanning the collection left to right returns: each primitive is
/// tested against the interval narrowed to the closest hit so far, so a
/// later hit replaces the running one exactly when it is strictly nearer.
pub open spec fn spec_world_hit(items: Seq<Sphere>, ray: Ray, interval: Interval) -> Option<
    HitRecord,
>
    decreases items.len(),
{
    if items.len() == 0 {
        None::<HitRecord>
    } else {
        let prefix = spec_world_hit(items.drop_last(), ray, interval);
        match prefix {
            None => items.last().spec_hit(ray, interval),
            Some(closest) => match items.last().spec_hit(
                ray,
                Interval { min: interval.min, max: closest.t },
            ) {
                None => Some(closest),
                Some(h) => Some(h),
            },
        }
    }
}

/// The minimum-parameter hit across every primitive's individual test
/// against the full interval, earlier primitives winning ties.
pub open spec fn spec_nearest_hit(items: Seq<Sphere>, ray: Ray, interval: Interval) -> Option<
    HitRecord,
>
    decreases items.len(),
{
    if items.len() == 0 {
        None::<HitRecord>
    } else {
        let rest = spec_nearest_hit(items.drop_last(), ray, interval);
        let last = items.last().spec_hit(ray, interval);
        match rest {
            None => last,
            Some(c) => match last {
                None => Some(c),
                Some(h) => if h.t.raw < c.t.raw {
                    Some(h)
                } else {
                    Some(c)
                },
            },
        }
    }
}

/// A hit reported by the scan lies strictly inside the interval.
pub proof fn lemma_world_hit_in_interval(items: Seq<Sphere>, ray: Ray, interval: Interval)
    ensures
        spec_world_hit(items, ray, interval) matches Some(c) ==> interval.spec_surrounds(c.t),
    decreases items.len(),
{
    if items.len() > 0 {
        lemma_world_hit_in_interval(items.drop_last(), ray, interval);
        lemma_sphere_hit_in_interval(items.last(), ray, interval);
        match spec_world_hit(items.drop_last(), ray, interval) {
            Some(closest) => {
                lemma_sphere_hit_in_interval(
                    items.last(),
                    ray,
                    Interval { min: interval.min, max: closest.t },
                );
            },
            None => {},
        }
    }
}

/// The linear scan with interval narrowing returns exactly the minimum-`t`
/// hit that testing every primitive individually against the full interval
/// would give, for any interval.
pub proof fn lemma_world_hit_nearest(items: Seq<Sphere>, ray: Ray, interval: Interval)
    ensures
        spec_world_hit(items, ray, interval) == spec_nearest_hit(items, ray, interval),
    decreases items.len(),
{
    if items.len() > 0 {
        lemma_world_hit_nearest(items.drop_last(), ray, interval);
        lemma_world_hit_in_interval(items.drop_last(), ray, interval);
        match spec_world_hit(items.drop_last(), ray, interval) {
            Some(closest) => {
                lemma_sphere_hit_narrow(items.last(), ray, interval, closest.t);
            },
            None => {},
        }
    }
}

/// The minimum-parameter fold deserves its name: a `None` means no
/// primitive hits at all, and a `Some` is one primitive's own hit on the
/// full interval, with no primitive hitting strictly nearer.
#[verifier::rlimit(60)]
pub proof fn lemma_nearest_hit_characterization(items: Seq<Sphere>, ray: Ray, interval: Interval)
    ensures
        spec_nearest_hit(items, ray, interval) is None ==> forall|idx: int|
            0 <= idx < items.len() ==> #[trigger] items[idx].spec_hit(ray, interval) is None,
        spec_nearest_hit(items, ray, interval) matches Some(c) ==> {
            &&& exists|idx: int|
                0 <= idx < items.len() && #[trigger] items[idx].spec_hit(ray, interval) == Some(c)
            &&& forall|idx: int|
                0 <= idx < items.len() ==> (#[trigger] items[idx].spec_hit(ray, interval) matches
                    Some(h) ==> c.t.raw <= h.t.raw)
        },
    decreases items.len(),
{
    if items.len() > 0 {
        lemma_nearest_hit_characterization(items.drop_last(), ray, interval);
        assert(forall|idx: int|
            0 <= idx < items.len() - 1 ==> items.drop_last()[idx] == items[idx]);
        match spec_nearest_hit(items.drop_last(), ray, interval) {
            Some(c) => {
                let idx0 = choose|idx: int|
                    0 <= idx < items.drop_last().len() && #[trigger] items.drop_last()[idx].spec_hit(
                        ray,
                        interval,
                    ) == Some(c);
                assert(items[idx0].spec_hit(ray, interval) == Some(c));
                match spec_nearest_hit(items, ray, interval) {
                    Some(w) => {
                        if w == c {
                            assert(items[idx0].spec_hit(ray, interval) == Some(w));
                        } else {
                            assert(items[items.len() - 1].spec_hit(ray, interval) == Some(w));
                        }
                    },
                    None => {},
                }
            },
            None => {
                match spec_nearest_hit(items, ray, interval) {
                    Some(w) => {
                        assert(items[items.len() - 1].spec_hit(ray, interval) == Some(w));
                    },
                    None => {},
                }
            },
        }
    }
}

impl World {
    /// A world from its primitives.
    pub fn new(items: Vec<Sphere>) -> (r: World)
        ensures
            r@ == items@,
    {
        World { items }
    }

    /// Append a primitive to the collection.
    pub fn add(&mut self, item: Sphere)
        ensures
            final(self)@ == old(self)@.push(item),
    {
        self.items.push(item);
    }

    /// Resolve the nearest hit among all primitives within `interval`:
    /// each primitive is tested only against the interval up to the closest
    /// accepted hit so far, which prunes farther hits cheaply.
    #[verifier::loop_isolation(false)]
    pub fn hit(&self, ray: &Ray, interval: &Interval) -> (r: Option<HitRecord>)
        ensures
            r == spec_world_hit(self@, *ray, *interval),
    {
        let mut closest: Option<HitRecord> = None;
        let n = self.items.len();
        let mut i: usize = 0;
        while i < n
            invariant
                0 <= i <= n,
                closest == spec_world_hit(self@.take(i as int), *ray, *interval),
            decreases n - i,
        {
            let next = match closest {
                None => self.items[i].hit(ray, interval),
                Some(c) => {
                    let narrowed = Interval::new(interval.min, c.t);
                    match self.items[i].hit(ray, &narrowed) {
                        None => Some(c),
                        Some(h) => Some(h),
                    }
                },
            };
            proof {
                assert(self@.take(i + 1 as int).drop_last() =~= self@.take(i as int));
                assert(self@.take(i + 1 as int).last() == self@[i as int]);
            }
            closest = next;
            i = i + 1;
        }
        proof {
            assert(self@.take(n as int) =~= self@);
        }
        closest
    }
}

} // verus!
