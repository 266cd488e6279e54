//! The two ways of computing a depth frame: pixel after pixel in
//! row-major order, or one independent worker per linear index.

use vstd::prelude::*;
use crate::frame::{
    column_of,
    frame_len,
    index_splits,
    pixel_at,
    pixel_count,
    pixel_joins,
    row_major,
    row_of,
    DepthFrame,
};
use crate::march::{
    is_pixel_depth,
    is_ray_depth,
    march_pixel,
    pixel_depth_is_unique,
    STEP_BUDGET,
};
use crate::ray::RayGenerator;
use crate::scalar::{is_deterministic, Scalar};
use crate::scene::{camera_space_is_unique, is_camera_space, origin_to_camera, Camera, Triangle};
use crate::vector::Vec3f;

verus! {

/// The execution strategy of a renderer, chosen when it is built.
#[derive(Clone, Copy, Debug, PartialEq, Eq)]
pub enum Backend {
    /// One thread walks the pixels row after row.
    Sequential,
    /// One worker per pixel, all dispatched as a single batch.
    Parallel,
}

/// Settings of the algorithm.
pub struct RenderConfig<T> {
    /// Steps taken along a ray before it counts as a miss.
    pub step_budget: u8,
    /// Length of one step along a ray.
    pub step_scale: T,
    /// Whether the camera transform rotates the scene after moving it.
    pub rotate: bool,
}

impl<T> RenderConfig<T> {
    /// Settings with the full budget of [`STEP_BUDGET`] steps.
    pub fn new(step_scale: T, rotate: bool) -> (config: Self)
        ensures
            config == (RenderConfig { step_budget: STEP_BUDGET, step_scale, rotate }),
    {
        RenderConfig { step_budget: STEP_BUDGET, step_scale, rotate }
    }
}

/// What the sequential backend computes: for every column `x` and row
/// `y`, the byte at `y * width + x` is a depth of pixel `(x, y)`.
pub open spec fn is_row_major_frame<T: Scalar>(
    scene: Seq<Triangle<T>>,
    rays: RayGenerator<T>,
    width: u32,
    budget: u8,
    frame: Seq<u8>,
) -> bool {
    &&& frame.len() == pixel_count(width, rays.height)
    &&& forall|x: u32, y: u32|
        x < width && y < rays.height ==> is_pixel_depth(
            scene,
            rays,
            x,
            y,
            budget,
            #[trigger] frame[row_major(x, y, width)],
        )
}

/// What the parallel backend computes: for every linear index `idx`, the
/// byte at `idx` is a depth of pixel `(idx % width, idx / width)`.
pub open spec fn is_dispatch_frame<T: Scalar>(
    scene: Seq<Triangle<T>>,
    rays: RayGenerator<T>,
    width: u32,
    budget: u8,
    frame: Seq<u8>,
) -> bool {
    &&& frame.len() == pixel_count(width, rays.height)
    &&& forall|idx: int|
        0 <= idx < frame.len() ==> is_pixel_depth(
            scene,
            rays,
            column_of(idx, width),
            row_of(idx, width),
            budget,
            #[trigger] frame[idx],
        )
}

/// The ray generator of a frame: the surface height, the camera's field
/// of view, the animation offset and the configured step length.
pub open spec fn rays_of<T>(camera: Camera<T>, height: u32, ticks: T, config: RenderConfig<T>)
    -> RayGenerator<T> {
    RayGenerator { height, fov: camera.fov, ticks, step_scale: config.step_scale }
}

/// `frame` is a depth frame of `geometry` seen from `camera` on a surface
/// of `width` by `height` pixels: the frame of a camera-space form of the
/// scene under the rays of the camera.
pub open spec fn is_depth_frame_of<T: Scalar>(
    geometry: Seq<Triangle<T>>,
    camera: Camera<T>,
    width: u32,
    height: u32,
    ticks: T,
    config: RenderConfig<T>,
    frame: Seq<u8>,
) -> bool {
    exists|seen: Seq<Triangle<T>>| #[trigger]
        is_camera_space(camera, config.rotate, geometry, seen) && is_dispatch_frame(
            seen,
            rays_of(camera, height, ticks, config),
            width,
            config.step_budget,
            frame,
        )
}

/// The two descriptions of a frame say the same: a buffer is what the
/// sequential backend computes exactly when it is what the parallel
/// backend computes.
pub proof fn row_major_is_dispatch<T: Scalar>(
    scene: Seq<Triangle<T>>,
    rays: RayGenerator<T>,
    width: u32,
    budget: u8,
    frame: Seq<u8>,
)
    ensures
        is_row_major_frame(scene, rays, width, budget, frame) <==> is_dispatch_frame(
            scene,
            rays,
            width,
            budget,
            frame,
        ),
{
    let height = rays.height;
    if frame.len() == pixel_count(width, height) {
        if is_row_major_frame(scene, rays, width, budget, frame) {
            assert forall|idx: int| 0 <= idx < frame.len() implies is_pixel_depth(
                scene,
                rays,
                column_of(idx, width),
                row_of(idx, width),
                budget,
                #[trigger] frame[idx],
            ) by {
                if width == 0 {
                    assert(pixel_count(width, height) == 0) by (nonlinear_arith)
                        requires
                            pixel_count(width, height) == (width as nat) * (height as nat),
                            width == 0,
                    ;
                }
                index_splits(idx, width as int, height as int);
                let x = column_of(idx, width);
                let y = row_of(idx, width);
                assert(row_major(x, y, width) == idx);
            }
        }
        if is_dispatch_frame(scene, rays, width, budget, frame) {
            assert forall|x: u32, y: u32| x < width && y < height implies is_pixel_depth(
                scene,
                rays,
                x,
                y,
                budget,
                #[trigger] frame[row_major(x, y, width)],
            ) by {
                pixel_joins(x as int, y as int, width as int, height as int);
            }
        }
    }
}

/// Determinism of a frame: with deterministic scalars, a camera-space
/// scene, the rays, the surface width and the budget admit one depth
/// frame.
pub proof fn frame_is_unique<T: Scalar>(
    scene: Seq<Triangle<T>>,
    rays: RayGenerator<T>,
    width: u32,
    budget: u8,
    first: Seq<u8>,
    second: Seq<u8>,
)
    requires
        is_deterministic::<T>(),
        is_dispatch_frame(scene, rays, width, budget, first),
        is_dispatch_frame(scene, rays, width, budget, second),
    ensures
        first == second,
{
    assert forall|idx: int| 0 <= idx < first.len() implies first[idx] == second[idx] by {
        pixel_depth_is_unique(
            scene,
            rays,
            column_of(idx, width),
            row_of(idx, width),
            budget,
            first[idx],
            second[idx],
        );
    }
}

/// Cross-backend equivalence: with deterministic scalars, the buffer of
/// the sequential backend and the buffer of the parallel backend for the
/// same scene, rays, surface width and budget are identical.
pub proof fn backends_agree<T: Scalar>(
    scene: Seq<Triangle<T>>,
    rays: RayGenerator<T>,
    width: u32,
    budget: u8,
    sequential: Seq<u8>,
    parallel: Seq<u8>,
)
    requires
        is_deterministic::<T>(),
        is_row_major_frame(scene, rays, width, budget, sequential),
        is_dispatch_frame(scene, rays, width, budget, parallel),
    ensures
        sequential == parallel,
{
    row_major_is_dispatch(scene, rays, width, budget, sequential);
    frame_is_unique(scene, rays, width, budget, sequential, parallel);
}

/// Determinism of a render: with deterministic scalars, identical scene,
/// camera, ticks, surface size and settings give identical depth frames,
/// whichever backend computed each.
pub proof fn depth_frame_is_unique<T: Scalar>(
    geometry: Seq<Triangle<T>>,
    camera: Camera<T>,
    width: u32,
    height: u32,
    ticks: T,
    config: RenderConfig<T>,
    first: Seq<u8>,
    second: Seq<u8>,
)
    requires
        is_deterministic::<T>(),
        is_depth_frame_of(geometry, camera, width, height, ticks, config, first),
        is_depth_frame_of(geometry, camera, width, height, ticks, config, second),
    ensures
        first == second,
{
    let rays = rays_of(camera, height, ticks, config);
    let seen1 = choose|seen: Seq<Triangle<T>>| #[trigger]
        is_camera_space(camera, config.rotate, geometry, seen) && is_dispatch_frame(
            seen,
            rays,
            width,
            config.step_budget,
            first,
        );
    let seen2 = choose|seen: Seq<Triangle<T>>| #[trigger]
        is_camera_space(camera, config.rotate, geometry, seen) && is_dispatch_frame(
            seen,
            rays,
            width,
            config.step_budget,
            second,
        );
    camera_space_is_unique(camera, config.rotate, geometry, seen1, seen2);
    frame_is_unique(seen1, rays, width, config.step_budget, first, second);
}

/// Aspect handling: the rays are normalised by the surface height alone,
/// so a wider surface of the same height shows the same depth at every
/// pixel that the narrower one has, and samples a wider view with the
/// columns it adds. With deterministic scalars, the frames of two widths
/// agree on the columns of the narrower.
pub proof fn wider_surface_keeps_columns<T: Scalar>(
    scene: Seq<Triangle<T>>,
    rays: RayGenerator<T>,
    narrow_width: u32,
    wide_width: u32,
    budget: u8,
    narrow: Seq<u8>,
    wide: Seq<u8>,
)
    requires
        is_deterministic::<T>(),
        narrow_width <= wide_width,
        is_row_major_frame(scene, rays, narrow_width, budget, narrow),
        is_row_major_frame(scene, rays, wide_width, budget, wide),
    ensures
        forall|x: u32, y: u32|
            x < narrow_width && y < rays.height ==> #[trigger] narrow[row_major(
                x,
                y,
                narrow_width,
            )] == wide[row_major(x, y, wide_width)],
{
    assert forall|x: u32, y: u32| x < narrow_width && y < rays.height implies #[trigger] narrow[row_major(
        x,
        y,
        narrow_width,
    )] == wide[row_major(x, y, wide_width)] by {
        let a = narrow[row_major(x, y, narrow_width)];
        let b = wide[row_major(x, y, wide_width)];
        pixel_depth_is_unique(scene, rays, x, y, budget, a, b);
    }
}

/// Miss sentinel: the frame of an empty scene holds the step budget at
/// every pixel, whatever the rays are.
pub proof fn empty_scene_frame_misses<T: Scalar>(
    scene: Seq<Triangle<T>>,
    rays: RayGenerator<T>,
    width: u32,
    budget: u8,
    frame: Seq<u8>,
)
    requires
        scene.len() == 0,
        is_dispatch_frame(scene, rays, width, budget, frame),
    ensures
        forall|idx: int| 0 <= idx < frame.len() ==> #[trigger] frame[idx] == budget,
{
    assert forall|idx: int| 0 <= idx < frame.len() implies #[trigger] frame[idx] == budget by {
    }
}

/// A depth of a pixel never exceeds the budget.
proof fn pixel_depth_within_budget<T: Scalar>(
    scene: Seq<Triangle<T>>,
    rays: RayGenerator<T>,
    x: u32,
    y: u32,
    budget: u8,
    depth: u8,
)
    requires
        is_pixel_depth(scene, rays, x, y, budget, depth),
    ensures
        depth <= budget,
{
}

/// The sequential backend: walks the rows from the top and each row from
/// the left, marches the ray of each pixel and appends its depth. The
/// surface is `width` pixels wide and `rays.height` pixels high. `None`
/// when it has more pixels than a `usize` can count.
pub fn sequential_frame<T: Scalar>(
    scene: &Vec<Triangle<T>>,
    rays: &RayGenerator<T>,
    width: u32,
    budget: u8,
) -> (frame: Option<DepthFrame>)
    ensures
        frame.is_some() <==> pixel_count(width, rays.height) <= usize::MAX,
        frame matches Some(f) ==> {
            &&& f.width() == width
            &&& f.height() == rays.height
            &&& f.budget() == budget
            &&& is_row_major_frame(scene@, *rays, width, budget, f@)
            &&& scene@.len() == 0 ==> forall|idx: int|
                0 <= idx < f@.len() ==> #[trigger] f@[idx] == budget
        },
{
    let height = rays.height;
    if frame_len(width, height).is_none() {
        return None;
    }
    let mut depths: Vec<u8> = Vec::new();
    let mut y: u32 = 0;
    while y < height
        invariant
            y <= height,
            height == rays.height,
            pixel_count(width, height) <= usize::MAX,
            depths@.len() == y * width,
            forall|idx: int|
                0 <= idx < depths@.len() ==> is_pixel_depth(
                    scene@,
                    *rays,
                    column_of(idx, width),
                    row_of(idx, width),
                    budget,
                    #[trigger] depths@[idx],
                ),
            scene@.len() == 0 ==> forall|idx: int|
                0 <= idx < depths@.len() ==> #[trigger] depths@[idx] == budget,
        decreases height - y,
    {
        let mut x: u32 = 0;
        while x < width
            invariant
                x <= width,
                y < height,
                height == rays.height,
                pixel_count(width, height) <= usize::MAX,
                depths@.len() == y * width + x,
                forall|idx: int|
                    0 <= idx < depths@.len() ==> is_pixel_depth(
                        scene@,
                        *rays,
                        column_of(idx, width),
                        row_of(idx, width),
                        budget,
                        #[trigger] depths@[idx],
                    ),
                scene@.len() == 0 ==> forall|idx: int|
                    0 <= idx < depths@.len() ==> #[trigger] depths@[idx] == budget,
            decreases width - x,
        {
            let depth = march_pixel(scene, rays, x, y, budget);
            proof {
                pixel_joins(x as int, y as int, width as int, height as int);
            }
            depths.push(depth);
            x += 1;
        }
        assert((y + 1) * width == y * width + width) by (nonlinear_arith);
        y += 1;
    }
    proof {
        assert(depths@.len() == pixel_count(width, height)) by (nonlinear_arith)
            requires
                depths@.len() == height * width,
                pixel_count(width, height) == (width as nat) * (height as nat),
        ;
        assert forall|i: int| 0 <= i < depths@.len() implies #[trigger] depths@[i] <= budget by {
            pixel_depth_within_budget(
                scene@,
                *rays,
                column_of(i, width),
                row_of(i, width),
                budget,
                depths@[i],
            );
        }
        row_major_is_dispatch(scene@, *rays, width, budget, depths@);
    }
    Some(DepthFrame::from_depths(width, height, budget, depths))
}

/// One work item of the parallel backend: from its linear index alone it
/// derives its pixel, column `idx % width` and row `idx / width`, and
/// marches that pixel's ray. `None` for an index outside the dispatch of
/// `width * rays.height` items.
pub fn worker_depth<T: Scalar>(
    scene: &Vec<Triangle<T>>,
    rays: &RayGenerator<T>,
    width: u32,
    budget: u8,
    idx: usize,
) -> (depth: Option<u8>)
    ensures
        depth.is_some() <==> idx < pixel_count(width, rays.height),
        depth matches Some(d) ==> {
            &&& is_pixel_depth(
                scene@,
                *rays,
                column_of(idx as int, width),
                row_of(idx as int, width),
                budget,
                d,
            )
            &&& scene@.len() == 0 ==> d == budget
        },
{
    match pixel_at(idx, width, rays.height) {
        Some((x, y)) => Some(march_pixel(scene, rays, x, y, budget)),
        None => None,
    }
}

/// The parallel backend as one batch: a dispatch of exactly
/// `width * rays.height` work items, each writing the one byte at its own
/// index. `None` when the surface has more pixels than a `usize` can
/// count.
pub fn parallel_frame<T: Scalar>(
    scene: &Vec<Triangle<T>>,
    rays: &RayGenerator<T>,
    width: u32,
    budget: u8,
) -> (frame: Option<DepthFrame>)
    ensures
        frame.is_some() <==> pixel_count(width, rays.height) <= usize::MAX,
        frame matches Some(f) ==> {
            &&& f.width() == width
            &&& f.height() == rays.height
            &&& f.budget() == budget
            &&& is_dispatch_frame(scene@, *rays, width, budget, f@)
            &&& scene@.len() == 0 ==> forall|idx: int|
                0 <= idx < f@.len() ==> #[trigger] f@[idx] == budget
        },
{
    let n = match frame_len(width, rays.height) {
        Some(n) => n,
        None => {
            return None;
        },
    };
    let mut depths: Vec<u8> = Vec::new();
    let mut idx: usize = 0;
    while idx < n
        invariant
            idx <= n,
            n == pixel_count(width, rays.height),
            depths@.len() == idx,
            forall|i: int|
                0 <= i < depths@.len() ==> is_pixel_depth(
                    scene@,
                    *rays,
                    column_of(i, width),
                    row_of(i, width),
                    budget,
                    #[trigger] depths@[i],
                ),
            scene@.len() == 0 ==> forall|i: int|
                0 <= i < depths@.len() ==> #[trigger] depths@[i] == budget,
        decreases n - idx,
    {
        let depth = worker_depth(scene, rays, width, budget, idx).unwrap();
        depths.push(depth);
        idx += 1;
    }
    proof {
        assert forall|i: int| 0 <= i < depths@.len() implies #[trigger] depths@[i] <= budget by {
            pixel_depth_within_budget(
                scene@,
                *rays,
                column_of(i, width),
                row_of(i, width),
                budget,
                depths@[i],
            );
        }
    }
    Some(DepthFrame::from_depths(width, rays.height, budget, depths))
}

/// Computes the depth frame of a scene as seen from a camera: transforms
/// the scene into camera space and marches one ray per pixel with the
/// chosen backend. `None` when the surface has more pixels than a `usize`
/// can count.
pub fn compute_depth_frame<T: Scalar>(
    backend: Backend,
    geometry: &Vec<Triangle<T>>,
    camera: &Camera<T>,
    width: u32,
    height: u32,
    ticks: T,
    config: &RenderConfig<T>,
) -> (frame: Option<DepthFrame>)
    ensures
        frame.is_some() <==> pixel_count(width, height) <= usize::MAX,
        frame matches Some(f) ==> {
            &&& f.width() == width
            &&& f.height() == height
            &&& f.budget() == config.step_budget
            &&& is_depth_frame_of(geometry@, *camera, width, height, ticks, *config, f@)
            &&& geometry@.len() == 0 ==> forall|idx: int|
                0 <= idx < f@.len() ==> #[trigger] f@[idx] == config.step_budget
        },
{
    let seen = origin_to_camera(geometry, camera, config.rotate);
    let rays = RayGenerator { height, fov: camera.fov, ticks, step_scale: config.step_scale };
    let frame = match backend {
        Backend::Sequential => sequential_frame(&seen, &rays, width, config.step_budget),
        Backend::Parallel => parallel_frame(&seen, &rays, width, config.step_budget),
    };
    proof {
        if frame.is_some() {
            row_major_is_dispatch(seen@, rays, width, config.step_budget, frame.unwrap()@);
        }
    }
    frame
}

} // verus!
