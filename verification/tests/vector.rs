use rustyrender::scalar::Scalar;
use rustyrender::vector::Vec3f;

#[derive(Clone, Copy, Debug, PartialEq)]
struct Real(f32);

impl Scalar for Real {
    fn plus(self, rhs: Self) -> Self {
        Real(self.0 + rhs.0)
    }
    fn minus(self, rhs: Self) -> Self {
        Real(self.0 - rhs.0)
    }
    fn times(self, rhs: Self) -> Self {
        Real(self.0 * rhs.0)
    }
    fn over(self, rhs: Self) -> Self {
        Real(self.0 / rhs.0)
    }
    fn negated(self) -> Self {
        Real(-self.0)
    }
    fn sin(self) -> Self {
        Real(self.0.sin())
    }
    fn cos(self) -> Self {
        Real(self.0.cos())
    }
    fn to_radians(self) -> Self {
        Real(self.0.to_radians())
    }
    fn from_count(count: u32) -> Self {
        Real(count as f32)
    }
    fn is_negative(self) -> bool {
        self.0 < 0.0
    }
}

fn vec3(x: f32, y: f32, z: f32) -> Vec3f<Real> {
    Vec3f::new(Real(x), Real(y), Real(z))
}

#[test]
fn vector_keeps_its_coordinates() {
    let v = Vec3f::new(1.5f32, -2.0, 0.25);
    assert_eq!(v.x(), 1.5);
    assert_eq!(v.y(), -2.0);
    assert_eq!(v.z(), 0.25);
    assert_eq!(v, Vec3f { x: 1.5, y: -2.0, z: 0.25 });
}

#[test]
fn vectors_add_coordinate_by_coordinate() {
    assert_eq!(vec3(1.0, 2.0, 3.0).add(vec3(10.0, 20.0, 30.0)), vec3(11.0, 22.0, 33.0));
    assert_eq!(vec3(1.0, -2.0, 0.5).add(vec3(0.0, 0.0, 0.0)), vec3(1.0, -2.0, 0.5));
}

#[test]
fn vectors_subtract_coordinate_by_coordinate() {
    assert_eq!(vec3(1.0, 2.0, 3.0).sub(vec3(10.0, 20.0, 30.0)), vec3(-9.0, -18.0, -27.0));
    assert_eq!(vec3(0.0, 0.0, 2.0).sub(vec3(0.0, 0.0, 0.0)), vec3(0.0, 0.0, 2.0));
}

#[test]
fn subtraction_is_not_symmetric() {
    let a = vec3(5.0, 0.0, 0.0);
    let b = vec3(2.0, 0.0, 0.0);
    assert_eq!(a.sub(b), vec3(3.0, 0.0, 0.0));
    assert_eq!(b.sub(a), vec3(-3.0, 0.0, 0.0));
}

#[test]
fn vector_scales_by_a_scalar() {
    assert_eq!(vec3(1.0, -2.0, 0.5).mul(Real(4.0)), vec3(4.0, -8.0, 2.0));
    assert_eq!(vec3(1.0, -2.0, 0.5).mul(Real(0.0)), vec3(0.0, -0.0, 0.0));
}

#[test]
fn vector_divides_by_a_scalar() {
    assert_eq!(vec3(1.0, -2.0, 0.5).div(Real(4.0)), vec3(0.25, -0.5, 0.125));
}

#[test]
fn division_by_zero_follows_the_scalar() {
    let v = vec3(1.0, -2.0, 0.0).div(Real(0.0));
    assert_eq!(v.x, Real(f32::INFINITY));
    assert_eq!(v.y, Real(f32::NEG_INFINITY));
    assert!(v.z.0.is_nan());
}

#[test]
fn dot_product_sums_the_products() {
    assert_eq!(vec3(1.0, 2.0, 3.0).dot(vec3(4.0, -5.0, 6.0)), Real(12.0));
    assert_eq!(vec3(1.0, 0.0, 0.0).dot(vec3(0.0, 1.0, 0.0)), Real(0.0));
}

#[test]
fn cross_product_of_the_axes() {
    let x = vec3(1.0, 0.0, 0.0);
    let y = vec3(0.0, 1.0, 0.0);
    let z = vec3(0.0, 0.0, 1.0);
    assert_eq!(x.cross(y), z);
    assert_eq!(y.cross(z), x);
    assert_eq!(z.cross(x), y);
    assert_eq!(y.cross(x), vec3(0.0, 0.0, -1.0));
}

#[test]
fn cross_product_of_general_vectors() {
    assert_eq!(vec3(1.0, 2.0, 3.0).cross(vec3(4.0, 5.0, 6.0)), vec3(-3.0, 6.0, -3.0));
}

#[test]
fn cross_product_of_parallel_vectors_is_zero() {
    assert_eq!(vec3(1.0, 2.0, 3.0).cross(vec3(2.0, 4.0, 6.0)), vec3(0.0, 0.0, 0.0));
}

#[test]
fn edge_normal_of_the_reference_triangle() {
    let v1 = vec3(0.0, 0.0, 0.0);
    let v2 = vec3(0.0, 0.0, 2.0);
    let v3 = vec3(2.0, 0.0, 0.0);
    let normal = v2.sub(v1).cross(v3.sub(v1));
    assert_eq!(normal, vec3(0.0, 4.0, 0.0));
}
