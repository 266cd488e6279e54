use rustyrender::ray::{sample_point, RayGenerator};
use rustyrender::scalar::Scalar;
use rustyrender::vector::Vec3f;

#[derive(Clone, Copy, Debug, PartialEq)]
struct Real(f32);

impl Scalar for Real {
    fn plus(self, rhs: Self) -> Self {
        Real(self.0 + rhs.0)
    }
    fn minus(self, rhs: Self) -> Self {
        Real(self.0 - rhs.0)
    }
    fn times(self, rhs: Self) -> Self {
        Real(self.0 * rhs.0)
    }
    fn over(self, rhs: Self) -> Self {
        Real(self.0 / rhs.0)
    }
    fn negated(self) -> Self {
        Real(-self.0)
    }
    fn sin(self) -> Self {
        Real(self.0.sin())
    }
    fn cos(self) -> Self {
        Real(self.0.cos())
    }
    fn to_radians(self) -> Self {
        Real(self.0.to_radians())
    }
    fn from_count(count: u32) -> Self {
        Real(count as f32)
    }
    fn is_negative(self) -> bool {
        self.0 < 0.0
    }
}

fn vec3(x: f32, y: f32, z: f32) -> Vec3f<Real> {
    Vec3f::new(Real(x), Real(y), Real(z))
}

fn rays(height: u32, fov: f32, ticks: f32, step_scale: f32) -> RayGenerator<Real> {
    RayGenerator { height, fov: Real(fov), ticks: Real(ticks), step_scale: Real(step_scale) }
}

fn assert_close(v: Vec3f<Real>, x: f32, y: f32, z: f32) {
    assert!((v.x.0 - x).abs() < 1e-5, "x of {:?} is not {}", v, x);
    assert!((v.y.0 - y).abs() < 1e-5, "y of {:?} is not {}", v, y);
    assert!((v.z.0 - z).abs() < 1e-5, "z of {:?} is not {}", v, z);
}

// The heading of a yaw and a pitch in degrees, in double precision.
fn heading(yaw: f64, pitch: f64, scale: f64) -> (f32, f32, f32) {
    let (yaw, pitch) = (yaw.to_radians(), pitch.to_radians());
    (
        (yaw.cos() * pitch.cos() * scale) as f32,
        (yaw.sin() * pitch.cos() * scale) as f32,
        (pitch.sin() * scale) as f32,
    )
}

#[test]
fn middle_pixel_looks_along_negative_x() {
    // x / height = y / height = 1/2: pitch 0, yaw 180 degrees.
    let dir = rays(2, 50.0, 0.0, 1.0).direction(1, 1);
    assert_eq!(dir.x, Real(-1.0));
    assert!(dir.y.0.abs() < 1e-6);
    assert_eq!(dir.z, Real(0.0));
}

#[test]
fn direction_is_scaled_to_the_step_length() {
    let dir = rays(2, 50.0, 0.0, 0.25).direction(1, 1);
    assert_eq!(dir.x, Real(-0.25));
    assert!(dir.y.0.abs() < 1e-6);
    assert_eq!(dir.z, Real(0.0));
    let dir = rays(2, 50.0, 0.0, 0.1).direction(1, 1);
    assert_eq!(dir.x, Real(-0.1));
}

#[test]
fn first_pixel_looks_half_a_view_off_the_middle() {
    // x = y = 0: pitch = -fov / 2, yaw = 180 - fov / 2.
    let dir = rays(100, 50.0, 0.0, 1.0).direction(0, 0);
    let (x, y, z) = heading(155.0, -25.0, 1.0);
    assert_close(dir, x, y, z);
}

#[test]
fn pitch_grows_with_the_row() {
    // y / height = 3/4: pitch = fov / 4; x / height = 1/2: yaw = 180.
    let dir = rays(100, 60.0, 0.0, 1.0).direction(50, 75);
    let (x, y, z) = heading(180.0, 15.0, 1.0);
    assert_close(dir, x, y, z);
}

#[test]
fn yaw_grows_with_the_column() {
    // x / height = 3/4: yaw = 180 + fov / 4; y / height = 1/2: pitch = 0.
    let dir = rays(100, 60.0, 0.0, 1.0).direction(75, 50);
    let (x, y, z) = heading(195.0, 0.0, 1.0);
    assert_close(dir, x, y, z);
}

#[test]
fn ticks_are_added_to_the_yaw() {
    let dir = rays(100, 60.0, 30.0, 1.0).direction(50, 50);
    let (x, y, z) = heading(210.0, 0.0, 1.0);
    assert_close(dir, x, y, z);
    let dir = rays(100, 60.0, -180.0, 1.0).direction(50, 50);
    assert_close(dir, 1.0, 0.0, 0.0);
}

#[test]
fn column_is_normalised_by_the_height() {
    // On a surface 100 high, column 150 lies a whole view beyond the
    // middle: yaw = 180 + (150/100 - 1/2) * 50 = 230 degrees.
    let dir = rays(100, 50.0, 0.0, 1.0).direction(150, 50);
    let (x, y, z) = heading(230.0, 0.0, 1.0);
    assert_close(dir, x, y, z);
}

#[test]
fn wider_surface_sees_a_wider_view() {
    // With the height fixed at 100 and a view of 50 degrees, the last
    // column of a surface 100 wide is 24.5 degrees off the middle; the
    // last column of a surface 200 wide is 74.5 degrees off.
    let generator = rays(100, 50.0, 0.0, 1.0);
    let narrow = generator.direction(99, 50);
    let wide = generator.direction(199, 50);
    let (x, y, z) = heading(204.5, 0.0, 1.0);
    assert_close(narrow, x, y, z);
    let (x, y, z) = heading(254.5, 0.0, 1.0);
    assert_close(wide, x, y, z);
}

#[test]
fn surface_without_height_gives_no_number() {
    // Both coordinates are divided by a height of zero.
    let dir = rays(0, 50.0, 0.0, 1.0).direction(3, 0);
    assert!(dir.x.0.is_nan());
    assert!(dir.y.0.is_nan());
    assert!(dir.z.0.is_nan());
}

#[test]
fn direction_has_the_length_of_one_step() {
    let dir = rays(480, 50.0, 12.0, 0.25).direction(17, 333);
    let length = (dir.x.0 * dir.x.0 + dir.y.0 * dir.y.0 + dir.z.0 * dir.z.0).sqrt();
    assert!((length - 0.25).abs() < 1e-6);
}

#[test]
fn sample_point_is_the_direction_times_the_step() {
    let dir = vec3(-0.25, 0.5, 1.0);
    assert_eq!(sample_point(dir, 0), vec3(-0.0, 0.0, 0.0));
    assert_eq!(sample_point(dir, 1), dir);
    assert_eq!(sample_point(dir, 3), vec3(-0.75, 1.5, 3.0));
    assert_eq!(sample_point(dir, 99), vec3(-24.75, 49.5, 99.0));
    assert_eq!(sample_point(dir, 255), vec3(-63.75, 127.5, 255.0));
}
