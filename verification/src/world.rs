//! The scene: an ordered collection of primitives, appended to during
//! setup and only read while rendering. Its intersection test scans all
//! primitives, narrowing the parameter window to each accepted hit, so that
//! later primitives can only replace the result with a strictly nearer one.

use vstd::prelude::*;

verus! {

use crate::hittable::{
    Object, HitRecord, HitRecV, Hittable, object_hit_spec, opt_hit_view,
    lemma_object_hit_none_narrow, lemma_object_hit_narrow_below,
};
use crate::ray::Ray;
use crate::vec3::v3_dot;

pub struct World {
    objects: Vec<Object>,
}

impl View for World {
    type V = Seq<Object>;

    closed spec fn view(&self) -> Seq<Object> {
        self.objects@
    }
}

/// Mirror of the scene's scan: primitives are queried left to right, each
/// with the window narrowed to the best parameter found so far.
pub open spec fn world_hit_spec(objs: Seq<Object>, ray: Ray, t_min: int, t_max: int) -> Option<
    HitRecV,
>
    decreases objs.len(),
{
    if objs.len() == 0 {
        None
    } else {
        let prev = world_hit_spec(objs.drop_last(), ray, t_min, t_max);
        let window = match prev {
            Some(h) => h.t,
            None => t_max,
        };
        match object_hit_spec(objs.last(), ray, t_min, window) {
            Some(h) => Some(h),
            None => prev,
        }
    }
}

impl World {
    pub fn new() -> (w: World)
        ensures
            w@ == Seq::<Object>::empty(),
    {
        World { objects: Vec::new() }
    }

    pub fn add(&mut self, obj: Object)
        ensures
            final(self)@ == old(self)@.push(obj),
    {
        self.objects.push(obj)
    }

    /// The nearest valid hit across all primitives, exactly the mirror
    /// `world_hit_spec`; any record handed back lies strictly inside the
    /// window and its normal opposes the ray.
    pub fn hit(&self, ray: &Ray, t_min: i64, t_max: i64) -> (res: Option<HitRecord>)
        ensures
            opt_hit_view(res) == world_hit_spec(self@, *ray, t_min as int, t_max as int),
            res matches Some(h) ==> {
                &&& v3_dot(ray.direction@, h@.normal) <= 0
                &&& t_min < h.t < t_max
            },
    {
        let mut closest: i64 = t_max;
        let mut best: Option<HitRecord> = None;
        let n: usize = self.objects.len();
        let mut i: usize = 0;
        while i < n
            invariant
                n == self.objects.len(),
                i <= n,
                opt_hit_view(best) == world_hit_spec(
                    self.objects@.take(i as int),
                    *ray,
                    t_min as int,
                    t_max as int,
                ),
                match best {
                    Some(h) => {
                        &&& closest == h.t
                        &&& t_min < h.t < t_max
                        &&& v3_dot(ray.direction@, h@.normal) <= 0
                    },
                    None => closest == t_max,
                },
            decreases n - i,
        {
            let obj = &self.objects[i];
            let r = obj.hit(ray, t_min, closest);
            proof {
                assert(self.objects@.take(i + 1 as int).drop_last() =~= self.objects@.take(
                    i as int,
                ));
                assert(self.objects@.take(i + 1 as int).last() == self.objects@[i as int]);
            }
            match r {
                Some(h) => {
                    closest = h.t;
                    best = Some(h);
                },
                None => {},
            }
            i = i + 1;
        }
        proof {
            assert(self.objects@.take(n as int) =~= self.objects@);
        }
        best
    }
}

impl Hittable for World {
    fn hit(&self, ray: &Ray, t_min: i64, t_max: i64) -> Option<HitRecord> {
        World::hit(self, ray, t_min, t_max)
    }
}

/// What the scene's scan guarantees. When a record comes back, it belongs
/// to one of the primitives, its parameter lies strictly inside the queried
/// window, and no primitive hits strictly nearer: re-querying any of them
/// with the window closed down to the record's parameter finds nothing.
/// When nothing comes back, no primitive hits anywhere in the window. The
/// nearest-hit statement is independent of the primitives' order.
#[verifier::rlimit(60)]
pub proof fn lemma_world_hit_nearest(objs: Seq<Object>, ray: Ray, t_min: int, t_max: int)
    ensures
        match world_hit_spec(objs, ray, t_min, t_max) {
            Some(rec) => {
                &&& t_min < rec.t < t_max
                &&& forall|i: int|
                    0 <= i < objs.len() ==> object_hit_spec(objs[i], ray, t_min, rec.t) is None
                &&& exists|i: int, w: int|
                    0 <= i < objs.len() && rec.t < w <= t_max && object_hit_spec(
                        objs[i],
                        ray,
                        t_min,
                        w,
                    ) == Some(rec)
            },
            None => forall|i: int|
                0 <= i < objs.len() ==> object_hit_spec(objs[i], ray, t_min, t_max) is None,
        },
    decreases objs.len(),
{
    if objs.len() == 0 {
    } else {
        let head = objs.drop_last();
        let last = objs.last();
        lemma_world_hit_nearest(head, ray, t_min, t_max);
        let prev = world_hit_spec(head, ray, t_min, t_max);
        let window = match prev {
            Some(h) => h.t,
            None => t_max,
        };
        assert(forall|i: int| 0 <= i < head.len() ==> objs[i] == head[i]);
        match object_hit_spec(last, ray, t_min, window) {
            Some(h) => {
                assert(world_hit_spec(objs, ray, t_min, t_max) == Some(h));
                assert forall|i: int| 0 <= i < objs.len() implies object_hit_spec(
                    objs[i],
                    ray,
                    t_min,
                    h.t,
                ) is None by {
                    if i < objs.len() - 1 {
                        match prev {
                            Some(p) => {
                                lemma_object_hit_none_narrow(objs[i], ray, t_min, p.t, h.t);
                            },
                            None => {
                                lemma_object_hit_none_narrow(objs[i], ray, t_min, t_max, h.t);
                            },
                        }
                    } else {
                        lemma_object_hit_narrow_below(last, ray, t_min, window, h.t);
                    }
                }
                assert(0 <= objs.len() - 1 < objs.len() && h.t < window <= t_max
                    && object_hit_spec(objs[objs.len() - 1], ray, t_min, window) == Some(h));
            },
            None => {
                match prev {
                    Some(p) => {
                        assert(world_hit_spec(objs, ray, t_min, t_max) == Some(p));
                        assert(object_hit_spec(objs[objs.len() - 1], ray, t_min, p.t) is None);
                    },
                    None => {},
                }
            },
        }
    }
}

} // verus!
