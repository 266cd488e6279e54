use rustyrender::rotation::RotationMatrix;
use rustyrender::scalar::Scalar;
use rustyrender::vector::Vec3f;

#[derive(Clone, Copy, Debug, PartialEq)]
struct Real(f32);

impl Scalar for Real {
    fn plus(self, rhs: Self) -> Self {
        Real(self.0 + rhs.0)
    }
    fn minus(self, rhs: Self) -> Self {
        Real(self.0 - rhs.0)
    }
    fn times(self, rhs: Self) -> Self {
        Real(self.0 * rhs.0)
    }
    fn over(self, rhs: Self) -> Self {
        Real(self.0 / rhs.0)
    }
    fn negated(self) -> Self {
        Real(-self.0)
    }
    fn sin(self) -> Self {
        Real(self.0.sin())
    }
    fn cos(self) -> Self {
        Real(self.0.cos())
    }
    fn to_radians(self) -> Self {
        Real(self.0.to_radians())
    }
    fn from_count(count: u32) -> Self {
        Real(count as f32)
    }
    fn is_negative(self) -> bool {
        self.0 < 0.0
    }
}

fn vec3(x: f32, y: f32, z: f32) -> Vec3f<Real> {
    Vec3f::new(Real(x), Real(y), Real(z))
}

fn assert_close(v: Vec3f<Real>, x: f32, y: f32, z: f32) {
    assert!((v.x.0 - x).abs() < 1e-5, "x of {:?} is not {}", v, x);
    assert!((v.y.0 - y).abs() < 1e-5, "y of {:?} is not {}", v, y);
    assert!((v.z.0 - z).abs() < 1e-5, "z of {:?} is not {}", v, z);
}

#[test]
fn rotation_by_zero_angles_is_the_identity() {
    let m = RotationMatrix::from_euler(vec3(0.0, 0.0, 0.0));
    assert_eq!(m.rotate_vector(vec3(1.0, 2.0, 3.0)), vec3(1.0, 2.0, 3.0));
    assert_eq!(m.rotate_vector(vec3(-4.0, 0.5, 0.0)), vec3(-4.0, 0.5, 0.0));
}

#[test]
fn yaw_turns_the_world_opposite_to_the_camera() {
    // The third angle turns about z; a camera turned by +90 degrees sees
    // the world turned by -90 degrees.
    let m = RotationMatrix::from_euler(vec3(0.0, 0.0, 90.0));
    assert_close(m.rotate_vector(vec3(1.0, 0.0, 0.0)), 0.0, -1.0, 0.0);
    assert_close(m.rotate_vector(vec3(0.0, 1.0, 0.0)), 1.0, 0.0, 0.0);
    assert_close(m.rotate_vector(vec3(0.0, 0.0, 1.0)), 0.0, 0.0, 1.0);
}

#[test]
fn pitch_turns_about_x() {
    let m = RotationMatrix::from_euler(vec3(90.0, 0.0, 0.0));
    assert_close(m.rotate_vector(vec3(1.0, 0.0, 0.0)), 1.0, 0.0, 0.0);
    assert_close(m.rotate_vector(vec3(0.0, 1.0, 0.0)), 0.0, 0.0, -1.0);
    assert_close(m.rotate_vector(vec3(0.0, 0.0, 1.0)), 0.0, 1.0, 0.0);
}

#[test]
fn roll_turns_about_y() {
    let m = RotationMatrix::from_euler(vec3(0.0, 90.0, 0.0));
    assert_close(m.rotate_vector(vec3(1.0, 0.0, 0.0)), 0.0, 0.0, 1.0);
    assert_close(m.rotate_vector(vec3(0.0, 1.0, 0.0)), 0.0, 1.0, 0.0);
    assert_close(m.rotate_vector(vec3(0.0, 0.0, 1.0)), -1.0, 0.0, 0.0);
}

#[test]
fn half_turn_of_yaw_flips_x_and_y() {
    let m = RotationMatrix::from_euler(vec3(0.0, 0.0, 180.0));
    assert_close(m.rotate_vector(vec3(1.0, 2.0, 3.0)), -1.0, -2.0, 3.0);
}

#[test]
fn rotation_keeps_the_length() {
    let m = RotationMatrix::from_euler(vec3(30.0, -45.0, 110.0));
    let r = m.rotate_vector(vec3(1.0, 2.0, 2.0));
    let length = (r.x.0 * r.x.0 + r.y.0 * r.y.0 + r.z.0 * r.z.0).sqrt();
    assert!((length - 3.0).abs() < 1e-5);
}

#[test]
fn combined_angles_compose_in_the_fixed_order() {
    // Pitch 90 and yaw 90: with the sines and cosines of the negated
    // angles, xs = -1, xc = 0, ys = 0, yc = 1, zs = -1, zc = 0, the rows
    // are (0, 0, 1), (-1, 0, 0), (0, -1, 0).
    let m = RotationMatrix::from_euler(vec3(90.0, 0.0, 90.0));
    assert_close(m.rotate_vector(vec3(1.0, 0.0, 0.0)), 0.0, -1.0, 0.0);
    assert_close(m.rotate_vector(vec3(0.0, 1.0, 0.0)), 0.0, 0.0, -1.0);
    assert_close(m.rotate_vector(vec3(0.0, 0.0, 1.0)), 1.0, 0.0, 0.0);
}

// Whole numbers with exact trigonometry at the quarter turns: an angle in
// "radians" is a count of quarter turns, so 90 degrees are one.
#[derive(Clone, Copy, Debug, PartialEq)]
struct Whole(i64);

impl Scalar for Whole {
    fn plus(self, rhs: Self) -> Self {
        Whole(self.0 + rhs.0)
    }
    fn minus(self, rhs: Self) -> Self {
        Whole(self.0 - rhs.0)
    }
    fn times(self, rhs: Self) -> Self {
        Whole(self.0 * rhs.0)
    }
    fn over(self, rhs: Self) -> Self {
        Whole(self.0.checked_div(rhs.0).unwrap_or(0))
    }
    fn negated(self) -> Self {
        Whole(-self.0)
    }
    fn sin(self) -> Self {
        Whole([0, 1, 0, -1][self.0.rem_euclid(4) as usize])
    }
    fn cos(self) -> Self {
        Whole([1, 0, -1, 0][self.0.rem_euclid(4) as usize])
    }
    fn to_radians(self) -> Self {
        Whole(self.0.div_euclid(90))
    }
    fn from_count(count: u32) -> Self {
        Whole(count as i64)
    }
    fn is_negative(self) -> bool {
        self.0 < 0
    }
}

fn whole(x: i64, y: i64, z: i64) -> Vec3f<Whole> {
    Vec3f::new(Whole(x), Whole(y), Whole(z))
}

#[test]
fn matrix_of_zero_angles_is_exactly_the_identity() {
    let m = RotationMatrix::from_euler(whole(0, 0, 0));
    assert_eq!(m.rotate_vector(whole(1, 2, 3)), whole(1, 2, 3));
}

#[test]
fn matrix_of_a_quarter_pitch_is_exact() {
    // xs = -1, xc = 0: rows (1, 0, 0), (0, 0, 1), (0, -1, 0).
    let m = RotationMatrix::from_euler(whole(90, 0, 0));
    assert_eq!(m.rotate_vector(whole(1, 2, 3)), whole(1, 3, -2));
}

#[test]
fn matrix_of_a_quarter_roll_is_exact() {
    // ys = -1, yc = 0: rows (0, 0, -1), (0, 1, 0), (1, 0, 0).
    let m = RotationMatrix::from_euler(whole(0, 90, 0));
    assert_eq!(m.rotate_vector(whole(1, 2, 3)), whole(-3, 2, 1));
}

#[test]
fn matrix_of_a_quarter_yaw_is_exact() {
    // zs = -1, zc = 0: rows (0, 1, 0), (-1, 0, 0), (0, 0, 1).
    let m = RotationMatrix::from_euler(whole(0, 0, 90));
    assert_eq!(m.rotate_vector(whole(1, 2, 3)), whole(2, -1, 3));
}

#[test]
fn matrix_of_three_quarter_turns_is_exact() {
    // xs = ys = zs = -1, all cosines 0:
    //   aa = 0            ab = -1*-1*0 - -1*0 = 0    ac = -1*0*0 + -1*-1 = 1
    //   ba = 0            bb = -1*-1*-1 + 0*0 = -1   bc = -1*-1*0 - -1*0 = 0
    //   ca = 1            cb = 0                     cc = 0
    let m = RotationMatrix::from_euler(whole(90, 90, 90));
    assert_eq!(m.rotate_vector(whole(1, 2, 3)), whole(3, -2, 1));
}

#[test]
fn matrix_of_pitch_and_yaw_is_exact() {
    // xs = -1, xc = 0, ys = 0, yc = 1, zs = -1, zc = 0:
    // rows (0, 0, 1), (-1, 0, 0), (0, -1, 0).
    let m = RotationMatrix::from_euler(whole(90, 0, 90));
    assert_eq!(m.rotate_vector(whole(1, 2, 3)), whole(3, -1, -2));
}

#[test]
fn matrix_of_a_half_yaw_is_exact() {
    // zs = 0, zc = -1: rows (-1, 0, 0), (0, -1, 0), (0, 0, 1).
    let m = RotationMatrix::from_euler(whole(0, 0, 180));
    assert_eq!(m.rotate_vector(whole(1, 2, 3)), whole(-1, -2, 3));
}
