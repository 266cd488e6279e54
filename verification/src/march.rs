//! The march along one ray.

use vstd::prelude::*;
use crate::contain::{containment_is_unique, contains, is_contained};
use crate::ray::{
    direction_is_unique,
    is_sample_point,
    sample_point,
    sample_point_is_unique,
    RayGenerator,
};
use crate::scalar::{is_deterministic, Scalar};
use crate::scene::Triangle;
use crate::vector::Vec3f;

verus! {

/// Number of sample steps taken along a ray before it counts as a miss.
pub const STEP_BUDGET: u8 = 100;

/// `p` lies in no triangle of `scene`.
pub open spec fn point_clear<T: Scalar>(scene: Seq<Triangle<T>>, p: Vec3f<T>) -> bool {
    forall|k: int| 0 <= k < scene.len() ==> is_contained(#[trigger] scene[k], p, false)
}

/// `p` lies in some triangle of `scene`.
pub open spec fn point_struck<T: Scalar>(scene: Seq<Triangle<T>>, p: Vec3f<T>) -> bool {
    exists|k: int| 0 <= k < scene.len() && is_contained(#[trigger] scene[k], p, true)
}

/// The sample point of step `step` along `dir` lies in no triangle of
/// `scene`.
pub open spec fn step_clear<T: Scalar>(scene: Seq<Triangle<T>>, dir: Vec3f<T>, step: u8) -> bool {
    exists|p: Vec3f<T>| #[trigger] is_sample_point(dir, step, p) && point_clear(scene, p)
}

/// The sample point of step `step` along `dir` lies in a triangle of
/// `scene`.
pub open spec fn step_struck<T: Scalar>(scene: Seq<Triangle<T>>, dir: Vec3f<T>, step: u8) -> bool {
    exists|p: Vec3f<T>| #[trigger] is_sample_point(dir, step, p) && point_struck(scene, p)
}

/// `depth` is the first step along `dir` whose sample point lies in a
/// triangle of `scene`, or `budget` when no step below `budget` has one.
pub open spec fn is_ray_depth<T: Scalar>(
    scene: Seq<Triangle<T>>,
    dir: Vec3f<T>,
    budget: u8,
    depth: u8,
) -> bool {
    &&& depth <= budget
    &&& forall|i: u8| i < depth ==> #[trigger] step_clear(scene, dir, i)
    &&& depth < budget ==> step_struck(scene, dir, depth)
}

/// `depth` is the depth of pixel `(x, y)`: the depth of the ray that
/// `rays` gives for it.
pub open spec fn is_pixel_depth<T: Scalar>(
    scene: Seq<Triangle<T>>,
    rays: RayGenerator<T>,
    x: u32,
    y: u32,
    budget: u8,
    depth: u8,
) -> bool {
    exists|dir: Vec3f<T>| #[trigger]
        rays.is_direction(x, y, dir) && is_ray_depth(scene, dir, budget, depth)
}

/// The two scenes hold the same triangles, each as often as the other,
/// in whatever order.
pub open spec fn same_triangles<T>(a: Seq<Triangle<T>>, b: Seq<Triangle<T>>) -> bool {
    a.to_multiset() == b.to_multiset()
}

/// Marches along `dir`: at step 0, 1, ... takes the sample point and
/// tests it against the triangles of `scene` in order. The first hit ends
/// the march with the step's index; a march that uses up its budget ends
/// with `budget`.
pub fn march_ray<T: Scalar>(scene: &Vec<Triangle<T>>, dir: Vec3f<T>, budget: u8) -> (depth: u8)
    ensures
        is_ray_depth(scene@, dir, budget, depth),
        scene@.len() == 0 ==> depth == budget,
{
    let mut step: u8 = 0;
    while step < budget
        invariant
            step <= budget,
            forall|i: u8| i < step ==> #[trigger] step_clear(scene@, dir, i),
        decreases budget - step,
    {
        let p = sample_point(dir, step);
        let mut k: usize = 0;
        while k < scene.len()
            invariant
                k <= scene.len(),
                step < budget,
                is_sample_point(dir, step, p),
                forall|i: u8| i < step ==> #[trigger] step_clear(scene@, dir, i),
                forall|j: int| 0 <= j < k ==> is_contained(#[trigger] scene@[j], p, false),
            decreases scene.len() - k,
        {
            if contains(&scene[k], p) {
                return step;
            }
            k += 1;
        }
        step += 1;
    }
    budget
}

/// The depth of pixel `(x, y)`: the march along the ray that `rays` gives
/// for it.
pub fn march_pixel<T: Scalar>(
    scene: &Vec<Triangle<T>>,
    rays: &RayGenerator<T>,
    x: u32,
    y: u32,
    budget: u8,
) -> (depth: u8)
    ensures
        is_pixel_depth(scene@, *rays, x, y, budget, depth),
        scene@.len() == 0 ==> depth == budget,
{
    let dir = rays.direction(x, y);
    march_ray(scene, dir, budget)
}

/// A step that is struck in one scene is not clear in a reordering of it.
proof fn struck_excludes_clear<T: Scalar>(
    struck_in: Seq<Triangle<T>>,
    clear_in: Seq<Triangle<T>>,
    dir: Vec3f<T>,
    step: u8,
)
    requires
        is_deterministic::<T>(),
        same_triangles(struck_in, clear_in),
        step_struck(struck_in, dir, step),
    ensures
        !step_clear(clear_in, dir, step),
{
    if step_clear(clear_in, dir, step) {
        let p = choose|p: Vec3f<T>| #[trigger]
            is_sample_point(dir, step, p) && point_struck(struck_in, p);
        let q = choose|q: Vec3f<T>| #[trigger]
            is_sample_point(dir, step, q) && point_clear(clear_in, q);
        sample_point_is_unique(dir, step, p, q);
        let k = choose|k: int|
            0 <= k < struck_in.len() && is_contained(#[trigger] struck_in[k], p, true);
        let t = struck_in[k];
        struck_in.to_multiset_ensures();
        clear_in.to_multiset_ensures();
        assert(clear_in.to_multiset().count(t) > 0);
        containment_is_unique(t, p, true, false);
    }
}

/// First-hit policy: the depth of a ray is the earliest step that strikes
/// any triangle, so it does not depend on the order of the scene. With
/// deterministic scalars, the depths of a ray in a scene and in a
/// reordering of it are the same.
pub proof fn scene_order_is_irrelevant<T: Scalar>(
    scene_a: Seq<Triangle<T>>,
    scene_b: Seq<Triangle<T>>,
    dir: Vec3f<T>,
    budget: u8,
    depth_a: u8,
    depth_b: u8,
)
    requires
        is_deterministic::<T>(),
        same_triangles(scene_a, scene_b),
        is_ray_depth(scene_a, dir, budget, depth_a),
        is_ray_depth(scene_b, dir, budget, depth_b),
    ensures
        depth_a == depth_b,
{
    if depth_a < depth_b {
        struck_excludes_clear(scene_a, scene_b, dir, depth_a);
    } else if depth_b < depth_a {
        struck_excludes_clear(scene_b, scene_a, dir, depth_b);
    }
}

/// Earliest hit: a depth below the budget is a step that strikes the
/// scene, and no step before it does. With deterministic scalars a struck
/// step is never also clear, so the depth is the least struck step.
pub proof fn depth_is_earliest_hit<T: Scalar>(
    scene: Seq<Triangle<T>>,
    dir: Vec3f<T>,
    budget: u8,
    depth: u8,
    step: u8,
)
    requires
        is_deterministic::<T>(),
        is_ray_depth(scene, dir, budget, depth),
        step < budget,
        step_struck(scene, dir, step),
    ensures
        depth <= step,
        step_struck(scene, dir, depth),
{
    if step < depth {
        struck_excludes_clear(scene, scene, dir, step);
    }
}

/// Determinism of one march: with deterministic scalars a ray has exactly
/// one depth.
pub proof fn ray_depth_is_unique<T: Scalar>(
    scene: Seq<Triangle<T>>,
    dir: Vec3f<T>,
    budget: u8,
    first: u8,
    second: u8,
)
    requires
        is_deterministic::<T>(),
        is_ray_depth(scene, dir, budget, first),
        is_ray_depth(scene, dir, budget, second),
    ensures
        first == second,
{
    scene_order_is_irrelevant(scene, scene, dir, budget, first, second);
}

/// Determinism of one pixel: with deterministic scalars a pixel has
/// exactly one depth.
pub proof fn pixel_depth_is_unique<T: Scalar>(
    scene: Seq<Triangle<T>>,
    rays: RayGenerator<T>,
    x: u32,
    y: u32,
    budget: u8,
    first: u8,
    second: u8,
)
    requires
        is_deterministic::<T>(),
        is_pixel_depth(scene, rays, x, y, budget, first),
        is_pixel_depth(scene, rays, x, y, budget, second),
    ensures
        first == second,
{
    let d1 = choose|dir: Vec3f<T>| #[trigger]
        rays.is_direction(x, y, dir) && is_ray_depth(scene, dir, budget, first);
    let d2 = choose|dir: Vec3f<T>| #[trigger]
        rays.is_direction(x, y, dir) && is_ray_depth(scene, dir, budget, second);
    direction_is_unique(rays, x, y, d1, d2);
    ray_depth_is_unique(scene, d1, budget, first, second);
}

/// Miss sentinel: in an empty scene every ray runs out of steps, whatever
/// its direction.
pub proof fn empty_scene_misses<T: Scalar>(
    scene: Seq<Triangle<T>>,
    dir: Vec3f<T>,
    budget: u8,
    depth: u8,
)
    requires
        scene.len() == 0,
        is_ray_depth(scene, dir, budget, depth),
    ensures
        depth == budget,
{
}

} // verus!
