//! The boundary of the parallel backend: what one batched dispatch of the
//! compute kernel is given.

use vstd::prelude::*;
use crate::backend::RenderConfig;
use crate::frame::{frame_len, pixel_count};
use crate::scalar::Scalar;
use crate::scene::{
    flat_layout,
    geometry_to_points,
    is_camera_space,
    origin_to_camera,
    Camera,
    Triangle,
};

verus! {

/// The arguments of one dispatch of the compute kernel.
pub struct KernelArgs<T> {
    /// The camera-space scene, flattened: nine scalars per triangle.
    pub points: Vec<T>,
    /// Full angular width of the view, in degrees.
    pub fov: T,
    /// Width of the surface in pixels.
    pub width: u32,
    /// Height of the surface in pixels.
    pub height: u32,
    /// Number of triangles in `points`.
    pub triangle_count: u32,
    /// Animation offset of the yaw, in degrees.
    pub ticks: T,
    /// Number of work items: one per pixel.
    pub work_items: usize,
}

/// A dispatch for a surface of `width` by `height` pixels and a scene of
/// `triangles` triangles fits buffers of `point_capacity` scalars and
/// `byte_capacity` bytes.
pub open spec fn fits_device(
    width: u32,
    height: u32,
    triangles: nat,
    point_capacity: usize,
    byte_capacity: usize,
) -> bool {
    &&& pixel_count(width, height) <= byte_capacity
    &&& 9 * triangles <= point_capacity
    &&& triangles <= u32::MAX
}

/// Prepares one frame for the compute device: the scene in camera space,
/// flattened, with the settings that a work item reads and the size of the
/// dispatch. `None` when the frame does not fit the device buffers.
pub fn kernel_args<T: Scalar>(
    geometry: &Vec<Triangle<T>>,
    camera: &Camera<T>,
    width: u32,
    height: u32,
    ticks: T,
    config: &RenderConfig<T>,
    point_capacity: usize,
    byte_capacity: usize,
) -> (args: Option<KernelArgs<T>>)
    ensures
        args.is_some() <==> fits_device(
            width,
            height,
            geometry@.len(),
            point_capacity,
            byte_capacity,
        ),
        args matches Some(a) ==> {
            &&& exists|seen: Seq<Triangle<T>>| #[trigger]
                is_camera_space(*camera, config.rotate, geometry@, seen) && a.points@
                    == flat_layout(seen)
            &&& a.fov == camera.fov
            &&& a.width == width
            &&& a.height == height
            &&& a.triangle_count == geometry@.len()
            &&& a.ticks == ticks
            &&& a.work_items == pixel_count(width, height)
        },
{
    let work_items = match frame_len(width, height) {
        Some(n) => n,
        None => {
            return None;
        },
    };
    let triangles = geometry.len();
    if work_items > byte_capacity || triangles > point_capacity / 9 || triangles > u32::MAX as usize {
        return None;
    }
    let seen = origin_to_camera(geometry, camera, config.rotate);
    let points = geometry_to_points(&seen);
    Some(
        KernelArgs {
            points,
            fov: camera.fov,
            width,
            height,
            triangle_count: triangles as u32,
            ticks,
            work_items,
        },
    )
}

} // verus!
