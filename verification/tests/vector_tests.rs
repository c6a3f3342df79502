use raytrace::fixed::Fixed;
use raytrace::vector::{Ray, Vector3};

fn v(x: i64, y: i64, z: i64) -> Vector3 {
    Vector3 { x: Fixed::from_bits(x), y: Fixed::from_bits(y), z: Fixed::from_bits(z) }
}

fn vi(x: i64, y: i64, z: i64) -> Vector3 {
    Vector3 { x: Fixed::from_int(x), y: Fixed::from_int(y), z: Fixed::from_int(z) }
}

#[test]
fn componentwise_arithmetic() {
    let a = vi(1, 2, 3);
    let b = vi(4, -5, 6);
    assert_eq!(a.plus(b), vi(5, -3, 9));
    assert_eq!(a.minus(b), vi(-3, 7, -3));
    assert_eq!(a.neg(), vi(-1, -2, -3));
    assert_eq!(a.scale(Fixed::from_int(2)), vi(2, 4, 6));
    assert_eq!(vi(6, -4, 2).divide_scalar(Fixed::from_int(2)), vi(3, -2, 1));
}

#[test]
fn dot_products() {
    assert_eq!(vi(1, 2, 3).dot(vi(4, 5, 6)), Fixed::from_int(32));
    assert_eq!(vi(1, 0, 0).dot(vi(0, 1, 0)), Fixed::zero());
    assert_eq!(vi(1, -2, 2).dot(vi(3, 1, -1)), Fixed::from_int(-1));
}

#[test]
fn magnitudes() {
    assert_eq!(vi(3, 4, 0).magnitude(), Fixed::from_int(5));
    assert_eq!(vi(0, 0, 0).magnitude(), Fixed::zero());
    // |(1,1,1)| = sqrt(3), rounded down at the sixteenth fractional bit.
    assert_eq!(vi(1, 1, 1).magnitude().bits, 113511);
}

#[test]
fn normalization() {
    assert_eq!(vi(0, 0, -7).normalized(), v(0, 0, -65536));
    assert_eq!(vi(3, 4, 0).normalized(), v(39321, 52428, 0));
    assert_eq!(vi(0, 0, 0).normalized(), vi(0, 0, 0));
    assert_eq!(vi(1, 1, 1).normalized(), v(37837, 37837, 37837));
}

#[test]
fn normalized_vectors_are_unit_length() {
    let samples = [
        vi(1, 1, 1),
        vi(3, 4, 0),
        vi(-2, 7, -5),
        v(-32768, 32768, -65536),
        vi(100, -250, 997),
    ];
    let one_squared: i128 = 65536 * 65536;
    for sample in samples {
        let n = sample.normalized();
        let norm_squared = (n.x.bits as i128) * (n.x.bits as i128)
            + (n.y.bits as i128) * (n.y.bits as i128)
            + (n.z.bits as i128) * (n.z.bits as i128);
        assert!((norm_squared - one_squared).abs() < (1i128 << 18));
    }
}

#[test]
fn rays_carry_origin_and_direction() {
    let ray = Ray { origin: vi(1, 2, 3), direction: v(0, 0, -65536) };
    assert_eq!(ray.origin, vi(1, 2, 3));
    assert_eq!(ray.direction.z.bits, -65536);
}
