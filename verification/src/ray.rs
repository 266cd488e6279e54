//! The ray generator: from a pixel to the direction of its ray, and from
//! a direction to the sample points along it.

use vstd::prelude::*;
use crate::scalar::{
    is_cosine,
    is_count,
    is_deterministic,
    is_difference,
    is_product,
    is_quotient,
    is_radians,
    is_sine,
    is_sum,
    Scalar,
};
use crate::vector::{is_scaled, scaled_is_unique, Vec3f};

verus! {

/// What the rays of one frame depend on besides the pixel.
pub struct RayGenerator<T> {
    /// Height of the surface in pixels. Both pixel coordinates are
    /// normalised by it.
    pub height: u32,
    /// Full angular width of the view, in degrees.
    pub fov: T,
    /// Animation offset of the yaw, in degrees.
    pub ticks: T,
    /// Length of one step along a ray.
    pub step_scale: T,
}

/// `h` is one half: the count 1 divided by the count 2.
pub open spec fn is_half<T: Scalar>(h: T) -> bool {
    exists|one: T, two: T|
        #![trigger is_count(1u32, one), is_count(2u32, two)]
        is_count(1u32, one) && is_count(2u32, two) && is_quotient(one, two, h)
}

/// `angle` is `(n / height - 1/2) * fov`: the angle, in degrees, at which
/// pixel coordinate `n` is seen off the middle of the view.
pub open spec fn is_view_angle<T: Scalar>(n: u32, height: u32, fov: T, angle: T) -> bool {
    exists|c: T, h: T, q: T, half: T, d: T|
        #![trigger is_count(n, c), is_count(height, h), is_half(half), is_difference(q, half, d)]
        is_count(n, c) && is_count(height, h) && is_quotient(c, h, q) && is_half(half)
            && is_difference(q, half, d) && is_product(d, fov, angle)
}

/// `pitch` is the pitch of row `y`, in radians.
pub open spec fn is_pitch<T: Scalar>(y: u32, height: u32, fov: T, pitch: T) -> bool {
    exists|angle: T| #[trigger] is_view_angle(y, height, fov, angle) && is_radians(angle, pitch)
}

/// `yaw` is the yaw of column `x`, in radians: its view angle plus `ticks`
/// plus a half turn of 180 degrees. The column is normalised by the
/// surface height, as the row is.
pub open spec fn is_yaw<T: Scalar>(x: u32, height: u32, fov: T, ticks: T, yaw: T) -> bool {
    exists|angle: T, offset: T, turn: T, degrees: T|
        #![trigger is_view_angle(x, height, fov, angle), is_sum(angle, ticks, offset), is_count(180u32, turn), is_sum(offset, turn, degrees)]
        is_view_angle(x, height, fov, angle) && is_sum(angle, ticks, offset) && is_count(
            180u32,
            turn,
        ) && is_sum(offset, turn, degrees) && is_radians(degrees, yaw)
}

/// `unit` is `(cos(yaw) * cos(pitch), sin(yaw) * cos(pitch), sin(pitch))`.
pub open spec fn is_heading<T: Scalar>(yaw: T, pitch: T, unit: Vec3f<T>) -> bool {
    exists|yaw_cos: T, yaw_sin: T, pitch_cos: T|
        #![trigger is_cosine(yaw, yaw_cos), is_sine(yaw, yaw_sin), is_cosine(pitch, pitch_cos)]
        is_cosine(yaw, yaw_cos) && is_sine(yaw, yaw_sin) && is_cosine(pitch, pitch_cos)
            && is_product(yaw_cos, pitch_cos, unit.x) && is_product(yaw_sin, pitch_cos, unit.y)
            && is_sine(pitch, unit.z)
}

/// `point` is the sample point of step `step` along `dir`: `dir` times
/// the step index.
pub open spec fn is_sample_point<T: Scalar>(dir: Vec3f<T>, step: u8, point: Vec3f<T>) -> bool {
    exists|k: T| #[trigger] is_count(step as u32, k) && is_scaled(dir, k, point)
}

/// One half.
fn half<T: Scalar>() -> (h: T)
    ensures
        is_half(h),
{
    let one = T::from_count(1);
    let two = T::from_count(2);
    let h = one.over(two);
    assert(is_count(1u32, one) && is_count(2u32, two));
    h
}

/// `(n / height - 1/2) * fov`.
fn view_angle<T: Scalar>(n: u32, height: u32, fov: T) -> (angle: T)
    ensures
        is_view_angle(n, height, fov, angle),
{
    let c = T::from_count(n);
    let h = T::from_count(height);
    let q = c.over(h);
    let hf = half::<T>();
    let d = q.minus(hf);
    let angle = d.times(fov);
    assert(is_count(n, c) && is_count(height, h) && is_half(hf) && is_difference(q, hf, d));
    angle
}

impl<T: Scalar> RayGenerator<T> {
    /// `dir` is the direction of the ray through pixel `(x, y)`: the
    /// heading of its yaw and pitch, scaled to the length of one step.
    pub open spec fn is_direction(self, x: u32, y: u32, dir: Vec3f<T>) -> bool {
        exists|pitch: T, yaw: T, unit: Vec3f<T>|
            #![trigger is_pitch(y, self.height, self.fov, pitch), is_yaw(x, self.height, self.fov, self.ticks, yaw), is_heading(yaw, pitch, unit)]
            is_pitch(y, self.height, self.fov, pitch) && is_yaw(
                x,
                self.height,
                self.fov,
                self.ticks,
                yaw,
            ) && is_heading(yaw, pitch, unit) && is_scaled(unit, self.step_scale, dir)
    }

    /// The direction of the ray through pixel `(x, y)`, one step long.
    pub fn direction(&self, x: u32, y: u32) -> (dir: Vec3f<T>)
        ensures
            self.is_direction(x, y, dir),
    {
        let pitch_degrees = view_angle(y, self.height, self.fov);
        let pitch = pitch_degrees.to_radians();
        assert(is_pitch(y, self.height, self.fov, pitch));

        let angle = view_angle(x, self.height, self.fov);
        let offset = angle.plus(self.ticks);
        let turn = T::from_count(180);
        let degrees = offset.plus(turn);
        let yaw = degrees.to_radians();
        assert(is_view_angle(x, self.height, self.fov, angle) && is_sum(angle, self.ticks, offset)
            && is_count(180u32, turn) && is_sum(offset, turn, degrees));
        assert(is_yaw(x, self.height, self.fov, self.ticks, yaw));

        let yaw_cos = yaw.cos();
        let yaw_sin = yaw.sin();
        let pitch_cos = pitch.cos();
        let unit = Vec3f {
            x: yaw_cos.times(pitch_cos),
            y: yaw_sin.times(pitch_cos),
            z: pitch.sin(),
        };
        assert(is_cosine(yaw, yaw_cos) && is_sine(yaw, yaw_sin) && is_cosine(pitch, pitch_cos));
        assert(is_heading(yaw, pitch, unit));
        unit.mul(self.step_scale)
    }
}

/// The sample point of step `step` along `dir`.
pub fn sample_point<T: Scalar>(dir: Vec3f<T>, step: u8) -> (point: Vec3f<T>)
    ensures
        is_sample_point(dir, step, point),
{
    let k = T::from_count(step as u32);
    let point = dir.mul(k);
    assert(is_count(step as u32, k) && is_scaled(dir, k, point));
    point
}

proof fn half_is_unique<T: Scalar>(first: T, second: T)
    requires
        is_deterministic::<T>(),
        is_half(first),
        is_half(second),
    ensures
        first == second,
{
}

proof fn view_angle_is_unique<T: Scalar>(n: u32, height: u32, fov: T, first: T, second: T)
    requires
        is_deterministic::<T>(),
        is_view_angle(n, height, fov, first),
        is_view_angle(n, height, fov, second),
    ensures
        first == second,
{
    let (c1, h1, q1, f1, d1) = choose|c: T, h: T, q: T, half: T, d: T|
        #![trigger is_count(n, c), is_count(height, h), is_half(half), is_difference(q, half, d)]
        is_count(n, c) && is_count(height, h) && is_quotient(c, h, q) && is_half(half)
            && is_difference(q, half, d) && is_product(d, fov, first);
    let (c2, h2, q2, f2, d2) = choose|c: T, h: T, q: T, half: T, d: T|
        #![trigger is_count(n, c), is_count(height, h), is_half(half), is_difference(q, half, d)]
        is_count(n, c) && is_count(height, h) && is_quotient(c, h, q) && is_half(half)
            && is_difference(q, half, d) && is_product(d, fov, second);
    half_is_unique(f1, f2);
}

proof fn pitch_is_unique<T: Scalar>(y: u32, height: u32, fov: T, first: T, second: T)
    requires
        is_deterministic::<T>(),
        is_pitch(y, height, fov, first),
        is_pitch(y, height, fov, second),
    ensures
        first == second,
{
    let a1 = choose|angle: T| #[trigger]
        is_view_angle(y, height, fov, angle) && is_radians(angle, first);
    let a2 = choose|angle: T| #[trigger]
        is_view_angle(y, height, fov, angle) && is_radians(angle, second);
    view_angle_is_unique(y, height, fov, a1, a2);
}

proof fn yaw_is_unique<T: Scalar>(x: u32, height: u32, fov: T, ticks: T, first: T, second: T)
    requires
        is_deterministic::<T>(),
        is_yaw(x, height, fov, ticks, first),
        is_yaw(x, height, fov, ticks, second),
    ensures
        first == second,
{
    let (a1, o1, t1, d1) = choose|angle: T, offset: T, turn: T, degrees: T|
        #![trigger is_view_angle(x, height, fov, angle), is_sum(angle, ticks, offset), is_count(180u32, turn), is_sum(offset, turn, degrees)]
        is_view_angle(x, height, fov, angle) && is_sum(angle, ticks, offset) && is_count(
            180u32,
            turn,
        ) && is_sum(offset, turn, degrees) && is_radians(degrees, first);
    let (a2, o2, t2, d2) = choose|angle: T, offset: T, turn: T, degrees: T|
        #![trigger is_view_angle(x, height, fov, angle), is_sum(angle, ticks, offset), is_count(180u32, turn), is_sum(offset, turn, degrees)]
        is_view_angle(x, height, fov, angle) && is_sum(angle, ticks, offset) && is_count(
            180u32,
            turn,
        ) && is_sum(offset, turn, degrees) && is_radians(degrees, second);
    view_angle_is_unique(x, height, fov, a1, a2);
}

proof fn heading_is_unique<T: Scalar>(yaw: T, pitch: T, first: Vec3f<T>, second: Vec3f<T>)
    requires
        is_deterministic::<T>(),
        is_heading(yaw, pitch, first),
        is_heading(yaw, pitch, second),
    ensures
        first == second,
{
}

/// With deterministic scalars a pixel has one ray direction.
pub proof fn direction_is_unique<T: Scalar>(
    rays: RayGenerator<T>,
    x: u32,
    y: u32,
    first: Vec3f<T>,
    second: Vec3f<T>,
)
    requires
        is_deterministic::<T>(),
        rays.is_direction(x, y, first),
        rays.is_direction(x, y, second),
    ensures
        first == second,
{
    let (p_first, y1, u1) = choose|pitch: T, yaw: T, unit: Vec3f<T>|
        #![trigger is_pitch(y, rays.height, rays.fov, pitch), is_yaw(x, rays.height, rays.fov, rays.ticks, yaw), is_heading(yaw, pitch, unit)]
        is_pitch(y, rays.height, rays.fov, pitch) && is_yaw(
            x,
            rays.height,
            rays.fov,
            rays.ticks,
            yaw,
        ) && is_heading(yaw, pitch, unit) && is_scaled(unit, rays.step_scale, first);
    let (p_second, y2, u2) = choose|pitch: T, yaw: T, unit: Vec3f<T>|
        #![trigger is_pitch(y, rays.height, rays.fov, pitch), is_yaw(x, rays.height, rays.fov, rays.ticks, yaw), is_heading(yaw, pitch, unit)]
        is_pitch(y, rays.height, rays.fov, pitch) && is_yaw(
            x,
            rays.height,
            rays.fov,
            rays.ticks,
            yaw,
        ) && is_heading(yaw, pitch, unit) && is_scaled(unit, rays.step_scale, second);
    pitch_is_unique(y, rays.height, rays.fov, p_first, p_second);
    yaw_is_unique(x, rays.height, rays.fov, rays.ticks, y1, y2);
    heading_is_unique(y1, p_first, u1, u2);
    scaled_is_unique(u1, rays.step_scale, first, second);
}

/// With deterministic scalars a step along a direction has one sample
/// point.
pub proof fn sample_point_is_unique<T: Scalar>(
    dir: Vec3f<T>,
    step: u8,
    first: Vec3f<T>,
    second: Vec3f<T>,
)
    requires
        is_deterministic::<T>(),
        is_sample_point(dir, step, first),
        is_sample_point(dir, step, second),
    ensures
        first == second,
{
}

} // verus!
