use rustyrender::backend::RenderConfig;
use rustyrender::dispatch::kernel_args;
use rustyrender::scalar::Scalar;
use rustyrender::scene::{Camera, Triangle};
use rustyrender::vector::Vec3f;

#[derive(Clone, Copy, Debug, PartialEq)]
struct Real(f32);

impl Scalar for Real {
    fn plus(self, rhs: Self) -> Self {
        Real(self.0 + rhs.0)
    }
    fn minus(self, rhs: Self) -> Self {
        Real(self.0 - rhs.0)
    }
    fn times(self, rhs: Self) -> Self {
        Real(self.0 * rhs.0)
    }
    fn over(self, rhs: Self) -> Self {
        Real(self.0 / rhs.0)
    }
    fn negated(self) -> Self {
        Real(-self.0)
    }
    fn sin(self) -> Self {
        Real(self.0.sin())
    }
    fn cos(self) -> Self {
        Real(self.0.cos())
    }
    fn to_radians(self) -> Self {
        Real(self.0.to_radians())
    }
    fn from_count(count: u32) -> Self {
        Real(count as f32)
    }
    fn is_negative(self) -> bool {
        self.0 < 0.0
    }
}

fn vec3(x: f32, y: f32, z: f32) -> Vec3f<Real> {
    Vec3f::new(Real(x), Real(y), Real(z))
}

fn sample_scene() -> Vec<Triangle<Real>> {
    vec![
        Triangle::from_points(vec3(0.0, 0.0, 1.0), vec3(1.0, 0.0, 1.0), vec3(0.0, 1.0, 1.0)),
        Triangle::from_points(vec3(1.0, 0.0, 1.0), vec3(0.0, 1.0, 1.0), vec3(1.0, 1.0, 1.0)),
    ]
}

fn camera() -> Camera<Real> {
    Camera { pos: vec3(0.0, 0.0, 5.0), rot: vec3(0.0, 0.0, 0.0), fov: Real(50.0) }
}

fn floats(points: &Vec<Real>) -> Vec<f32> {
    points.iter().map(|r| r.0).collect()
}

#[test]
fn kernel_args_hold_the_camera_space_scene_flattened() {
    let config = RenderConfig::new(Real(0.1), false);
    let args =
        kernel_args(&sample_scene(), &camera(), 500, 500, Real(0.0), &config, 1 << 18, 1 << 18)
            .unwrap();
    assert_eq!(
        floats(&args.points),
        vec![
            0.0, 0.0, -4.0, 1.0, 0.0, -4.0, 0.0, 1.0, -4.0, //
            1.0, 0.0, -4.0, 0.0, 1.0, -4.0, 1.0, 1.0, -4.0,
        ]
    );
    assert_eq!(args.triangle_count, 2);
}

#[test]
fn kernel_args_hold_the_settings_of_the_frame() {
    let config = RenderConfig::new(Real(0.1), false);
    let args =
        kernel_args(&sample_scene(), &camera(), 640, 400, Real(7.5), &config, 1 << 18, 1 << 18)
            .unwrap();
    assert_eq!(args.fov, Real(50.0));
    assert_eq!(args.width, 640);
    assert_eq!(args.height, 400);
    assert_eq!(args.ticks, Real(7.5));
    assert_eq!(args.work_items, 256_000);
}

#[test]
fn kernel_args_rotate_on_request() {
    let mut cam = camera();
    cam.pos = vec3(0.0, 0.0, 0.0);
    cam.rot = vec3(0.0, 0.0, 180.0);
    let scene = vec![Triangle::from_points(
        vec3(1.0, 0.0, 0.0),
        vec3(0.0, 2.0, 0.0),
        vec3(0.0, 0.0, 3.0),
    )];
    let plain = kernel_args(&scene, &cam, 4, 4, Real(0.0), &RenderConfig::new(Real(0.1), false), 9, 16)
        .unwrap();
    assert_eq!(floats(&plain.points), vec![1.0, 0.0, 0.0, 0.0, 2.0, 0.0, 0.0, 0.0, 3.0]);
    let turned = kernel_args(&scene, &cam, 4, 4, Real(0.0), &RenderConfig::new(Real(0.1), true), 9, 16)
        .unwrap();
    let expected = [-1.0, 0.0, 0.0, 0.0, -2.0, 0.0, 0.0, 0.0, 3.0];
    for (got, want) in floats(&turned.points).iter().zip(expected.iter()) {
        assert!((got - want).abs() < 1e-5);
    }
}

#[test]
fn kernel_args_of_an_empty_scene() {
    let config = RenderConfig::new(Real(0.1), true);
    let scene: Vec<Triangle<Real>> = Vec::new();
    let args = kernel_args(&scene, &camera(), 3, 2, Real(0.0), &config, 0, 6).unwrap();
    assert!(args.points.is_empty());
    assert_eq!(args.triangle_count, 0);
    assert_eq!(args.work_items, 6);
}

#[test]
fn kernel_args_fit_exactly() {
    let config = RenderConfig::new(Real(0.1), false);
    assert!(kernel_args(&sample_scene(), &camera(), 512, 512, Real(0.0), &config, 18, 1 << 18)
        .is_some());
}

#[test]
fn surface_larger_than_the_byte_buffer_is_refused() {
    let config = RenderConfig::new(Real(0.1), false);
    assert!(kernel_args(&sample_scene(), &camera(), 513, 512, Real(0.0), &config, 18, 1 << 18)
        .is_none());
    assert!(kernel_args(&sample_scene(), &camera(), 1, 1, Real(0.0), &config, 18, 0).is_none());
}

#[test]
fn scene_larger_than_the_point_buffer_is_refused() {
    let config = RenderConfig::new(Real(0.1), false);
    assert!(kernel_args(&sample_scene(), &camera(), 4, 4, Real(0.0), &config, 17, 16).is_none());
    assert!(kernel_args(&sample_scene(), &camera(), 4, 4, Real(0.0), &config, 0, 16).is_none());
}
