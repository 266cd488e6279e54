//! Scene model: triangles, the camera, the camera-space transform and the
//! flat vertex layout.

use vstd::prelude::*;
use crate::rotation::{rotated_is_unique, rotation_is_unique, RotationMatrix};
use crate::scalar::{is_deterministic, is_difference, Scalar};
use crate::vector::{is_vector_difference, Vec3f};

verus! {

/// Three vertices, in world space or, after the camera transform, in
/// camera space.
#[derive(Clone, Copy, Debug)]
pub struct Triangle<T> {
    pub v1: Vec3f<T>,
    pub v2: Vec3f<T>,
    pub v3: Vec3f<T>,
}

/// Camera pose: position, rotation (pitch, roll, yaw in degrees) and the
/// full angular width of the view in degrees.
pub struct Camera<T> {
    pub pos: Vec3f<T>,
    pub rot: Vec3f<T>,
    pub fov: T,
}

impl<T> Triangle<T> {
    /// The triangle with the given vertices.
    pub fn from_points(v1: Vec3f<T>, v2: Vec3f<T>, v3: Vec3f<T>) -> (t: Self)
        ensures
            t == (Triangle { v1, v2, v3 }),
    {
        Triangle { v1, v2, v3 }
    }
}

/// Coordinate `j` of a triangle in the flat layout: `v1`, `v2`, `v3` in
/// turn, each as `x`, `y`, `z`.
pub open spec fn coordinate<T>(t: Triangle<T>, j: int) -> T {
    if j == 0 {
        t.v1.x
    } else if j == 1 {
        t.v1.y
    } else if j == 2 {
        t.v1.z
    } else if j == 3 {
        t.v2.x
    } else if j == 4 {
        t.v2.y
    } else if j == 5 {
        t.v2.z
    } else if j == 6 {
        t.v3.x
    } else if j == 7 {
        t.v3.y
    } else {
        t.v3.z
    }
}

/// The flat vertex buffer of a scene: nine consecutive scalars per
/// triangle, the triangles in scene order.
pub open spec fn flat_layout<T>(scene: Seq<Triangle<T>>) -> Seq<T> {
    Seq::new(9 * scene.len(), |i: int| coordinate(scene[i / 9], i % 9))
}

/// Where a work item finds a triangle: the scalars of triangle `t` start
/// at `9 * t`, its vertices follow each other at a stride of three, and
/// each vertex lies as `x`, `y`, `z`.
pub proof fn layout_holds_vertices<T>(scene: Seq<Triangle<T>>, t: int)
    requires
        0 <= t < scene.len(),
    ensures
        flat_layout(scene).len() == 9 * scene.len(),
        flat_layout(scene).subrange(9 * t, 9 * t + 3) == seq![
            scene[t].v1.x,
            scene[t].v1.y,
            scene[t].v1.z,
        ],
        flat_layout(scene).subrange(9 * t + 3, 9 * t + 6) == seq![
            scene[t].v2.x,
            scene[t].v2.y,
            scene[t].v2.z,
        ],
        flat_layout(scene).subrange(9 * t + 6, 9 * t + 9) == seq![
            scene[t].v3.x,
            scene[t].v3.y,
            scene[t].v3.z,
        ],
{
    let flat = flat_layout(scene);
    assert forall|j: int| 0 <= j < 9 implies #[trigger] flat[9 * t + j] == coordinate(
        scene[t],
        j,
    ) by {
    }
}

/// Flattens a scene into the vertex buffer that a compute kernel reads.
pub fn geometry_to_points<T: Copy>(geometry: &Vec<Triangle<T>>) -> (points: Vec<T>)
    ensures
        points@ == flat_layout(geometry@),
{
    let mut points: Vec<T> = Vec::new();
    let mut i: usize = 0;
    while i < geometry.len()
        invariant
            i <= geometry.len(),
            points@.len() == 9 * i,
            forall|j: int|
                0 <= j < points@.len() ==> #[trigger] points@[j] == coordinate(
                    geometry@[j / 9],
                    j % 9,
                ),
        decreases geometry.len() - i,
    {
        let t = &geometry[i];
        points.push(t.v1.x);
        points.push(t.v1.y);
        points.push(t.v1.z);
        points.push(t.v2.x);
        points.push(t.v2.y);
        points.push(t.v2.z);
        points.push(t.v3.x);
        points.push(t.v3.y);
        points.push(t.v3.z);
        i += 1;
    }
    points
}

/// `out` is `v` as seen from a camera at `origin`: `v - origin`, and where
/// `rotation` holds a matrix, that difference rotated by it.
pub open spec fn is_camera_vertex<T: Scalar>(
    origin: Vec3f<T>,
    rotation: Option<RotationMatrix<T>>,
    v: Vec3f<T>,
    out: Vec3f<T>,
) -> bool {
    match rotation {
        Some(m) => exists|moved: Vec3f<T>| #[trigger]
            is_vector_difference(v, origin, moved) && m.is_rotated(moved, out),
        None => is_vector_difference(v, origin, out),
    }
}

/// `out` is the triangle `t` as seen from the camera, vertex by vertex.
pub open spec fn is_camera_triangle<T: Scalar>(
    origin: Vec3f<T>,
    rotation: Option<RotationMatrix<T>>,
    t: Triangle<T>,
    out: Triangle<T>,
) -> bool {
    &&& is_camera_vertex(origin, rotation, t.v1, out.v1)
    &&& is_camera_vertex(origin, rotation, t.v2, out.v2)
    &&& is_camera_vertex(origin, rotation, t.v3, out.v3)
}

/// `out` is the scene `geometry` as seen from the camera: as many
/// triangles, in the same order, each transformed with the one `rotation`.
pub open spec fn is_camera_scene<T: Scalar>(
    origin: Vec3f<T>,
    rotation: Option<RotationMatrix<T>>,
    geometry: Seq<Triangle<T>>,
    out: Seq<Triangle<T>>,
) -> bool {
    &&& out.len() == geometry.len()
    &&& forall|i: int|
        0 <= i < geometry.len() ==> is_camera_triangle(
            origin,
            rotation,
            #[trigger] geometry[i],
            out[i],
        )
}

/// `out` is a camera-space form of `geometry`: with `rotate` off, every
/// vertex minus the camera position; with `rotate` on, that difference
/// rotated by the rotation for the camera's angles.
pub open spec fn is_camera_space<T: Scalar>(
    camera: Camera<T>,
    rotate: bool,
    geometry: Seq<Triangle<T>>,
    out: Seq<Triangle<T>>,
) -> bool {
    if rotate {
        exists|m: RotationMatrix<T>| #[trigger]
            m.is_rotation_for(camera.rot) && is_camera_scene(camera.pos, Some(m), geometry, out)
    } else {
        is_camera_scene(camera.pos, None, geometry, out)
    }
}

/// One vertex as seen from the camera.
fn vertex_to_camera<T: Scalar>(
    origin: Vec3f<T>,
    rotation: &Option<RotationMatrix<T>>,
    v: Vec3f<T>,
) -> (out: Vec3f<T>)
    ensures
        is_camera_vertex(origin, *rotation, v, out),
{
    let moved = v.sub(origin);
    match rotation {
        Some(m) => m.rotate_vector(moved),
        None => moved,
    }
}

/// The scene with one rotation, or none, applied after the shift.
fn scene_to_camera<T: Scalar>(
    origin: Vec3f<T>,
    rotation: &Option<RotationMatrix<T>>,
    geometry: &Vec<Triangle<T>>,
) -> (out: Vec<Triangle<T>>)
    ensures
        is_camera_scene(origin, *rotation, geometry@, out@),
{
    let mut out: Vec<Triangle<T>> = Vec::new();
    let mut i: usize = 0;
    while i < geometry.len()
        invariant
            i <= geometry.len(),
            out@.len() == i,
            forall|j: int|
                0 <= j < i ==> is_camera_triangle(
                    origin,
                    *rotation,
                    #[trigger] geometry@[j],
                    out@[j],
                ),
        decreases geometry.len() - i,
    {
        let t = &geometry[i];
        let v1 = vertex_to_camera(origin, rotation, t.v1);
        let v2 = vertex_to_camera(origin, rotation, t.v2);
        let v3 = vertex_to_camera(origin, rotation, t.v3);
        out.push(Triangle { v1, v2, v3 });
        i += 1;
    }
    out
}

/// The camera-space transform: a new scene whose vertices are those of
/// `geometry` relative to the camera position and, with `rotate` on,
/// turned by the camera's rotation. `geometry` itself is left as it is.
pub fn origin_to_camera<T: Scalar>(
    geometry: &Vec<Triangle<T>>,
    camera: &Camera<T>,
    rotate: bool,
) -> (out: Vec<Triangle<T>>)
    ensures
        is_camera_space(*camera, rotate, geometry@, out@),
{
    if rotate {
        let rotation = Some(RotationMatrix::from_euler(camera.rot));
        scene_to_camera(camera.pos, &rotation, geometry)
    } else {
        scene_to_camera(camera.pos, &None, geometry)
    }
}

/// Round trip of the shift: where subtracting the coordinates of
/// the camera position changes no scalar, as subtracting zero does, the
/// camera-space shift leaves every vertex of the scene unchanged.
pub proof fn still_camera_keeps_scene<T: Scalar>(
    camera: Camera<T>,
    geometry: Seq<Triangle<T>>,
    out: Seq<Triangle<T>>,
)
    requires
        forall|a: T, r: T| #[trigger] is_difference(a, camera.pos.x, r) ==> r == a,
        forall|a: T, r: T| #[trigger] is_difference(a, camera.pos.y, r) ==> r == a,
        forall|a: T, r: T| #[trigger] is_difference(a, camera.pos.z, r) ==> r == a,
        is_camera_space(camera, false, geometry, out),
    ensures
        out == geometry,
{
    assert forall|i: int| 0 <= i < geometry.len() implies out[i] == geometry[i] by {
    }
}

/// With deterministic scalars a vertex has one camera-space form.
proof fn camera_vertex_is_unique<T: Scalar>(
    origin: Vec3f<T>,
    rotation: Option<RotationMatrix<T>>,
    v: Vec3f<T>,
    first: Vec3f<T>,
    second: Vec3f<T>,
)
    requires
        is_deterministic::<T>(),
        is_camera_vertex(origin, rotation, v, first),
        is_camera_vertex(origin, rotation, v, second),
    ensures
        first == second,
{
    match rotation {
        Some(m) => {
            let m1 = choose|moved: Vec3f<T>| #[trigger]
                is_vector_difference(v, origin, moved) && m.is_rotated(moved, first);
            rotated_is_unique(m, m1, first, second);
        },
        None => {},
    }
}

/// With deterministic scalars a scene has one form under a given rotation.
proof fn camera_scene_is_unique<T: Scalar>(
    origin: Vec3f<T>,
    rotation: Option<RotationMatrix<T>>,
    geometry: Seq<Triangle<T>>,
    first: Seq<Triangle<T>>,
    second: Seq<Triangle<T>>,
)
    requires
        is_deterministic::<T>(),
        is_camera_scene(origin, rotation, geometry, first),
        is_camera_scene(origin, rotation, geometry, second),
    ensures
        first == second,
{
    assert forall|i: int| 0 <= i < geometry.len() implies first[i] == second[i] by {
        let t = geometry[i];
        camera_vertex_is_unique(origin, rotation, t.v1, first[i].v1, second[i].v1);
        camera_vertex_is_unique(origin, rotation, t.v2, first[i].v2, second[i].v2);
        camera_vertex_is_unique(origin, rotation, t.v3, first[i].v3, second[i].v3);
    }
}

/// With deterministic scalars a scene and a camera have one camera-space
/// form.
pub proof fn camera_space_is_unique<T: Scalar>(
    camera: Camera<T>,
    rotate: bool,
    geometry: Seq<Triangle<T>>,
    first: Seq<Triangle<T>>,
    second: Seq<Triangle<T>>,
)
    requires
        is_deterministic::<T>(),
        is_camera_space(camera, rotate, geometry, first),
        is_camera_space(camera, rotate, geometry, second),
    ensures
        first == second,
{
    if rotate {
        let m1 = choose|m: RotationMatrix<T>| #[trigger]
            m.is_rotation_for(camera.rot) && is_camera_scene(camera.pos, Some(m), geometry, first);
        let m2 = choose|m: RotationMatrix<T>| #[trigger]
            m.is_rotation_for(camera.rot) && is_camera_scene(
                camera.pos,
                Some(m),
                geometry,
                second,
            );
        rotation_is_unique(camera.rot, m1, m2);
        camera_scene_is_unique(camera.pos, Some(m1), geometry, first, second);
    } else {
        camera_scene_is_unique(camera.pos, None, geometry, first, second);
    }
}

} // verus!
