use raytrace::camera::{Camera, Transform};
use raytrace::fixed::Fixed;
use raytrace::vector::Vector3;

fn v(x: i64, y: i64, z: i64) -> Vector3 {
    Vector3 { x: Fixed::from_bits(x), y: Fixed::from_bits(y), z: Fixed::from_bits(z) }
}

/// A 2x2 camera with a 90 degree vertical field of view (half-angle tangent
/// one) and the identity eye transform.
fn test_camera() -> Camera {
    Camera::new(
        Fixed::from_bits(0),
        Fixed::from_int(100),
        Fixed::one(),
        (2, 2),
        Transform::identity(),
    )
}

#[test]
fn test_eye() {
    let mut camera = test_camera();
    assert_eq!(camera.world_eye(), v(0, 0, 0));
    camera.eye = Transform::from_translation(v(-65536, 65536, 65536));
    assert_eq!(camera.world_eye(), v(-65536, 65536, 65536));
}

#[test]
fn test_aspect() {
    let camera = test_camera();
    assert_eq!(camera.aspect(), Fixed::one());
}

#[test]
fn test_image_size() {
    let camera = test_camera();
    let (width, height) = camera.image_size();
    assert_eq!(width, Fixed::from_int(2));
    assert_eq!(height, Fixed::from_int(2));
}

#[test]
fn test_pixel_to_world() {
    let mut camera = test_camera();
    assert_eq!(camera.pixel_to_world(0, 0), v(-32768, 32768, -65536));
    assert_eq!(camera.pixel_to_world(1, 0), v(32768, 32768, -65536));
    assert_eq!(camera.pixel_to_world(0, 1), v(-32768, -32768, -65536));
    assert_eq!(camera.pixel_to_world(1, 1), v(32768, -32768, -65536));
    camera.eye = Transform::from_translation(v(65536, 65536, 65536));
    assert_eq!(camera.pixel_to_world(0, 0), v(32768, 98304, 0));
    assert_eq!(camera.pixel_to_world(1, 0), v(98304, 98304, 0));
    assert_eq!(camera.pixel_to_world(0, 1), v(32768, 32768, 0));
    assert_eq!(camera.pixel_to_world(1, 1), v(98304, 32768, 0));
}

#[test]
fn test_pixel_ray() {
    let camera = test_camera();
    let ray = camera.pixel_ray(0, 0);
    assert_eq!(ray.origin, v(0, 0, 0));
    // The direction through the pixel center (-0.5, 0.5, -1.0), rescaled to
    // unit length.
    assert_eq!(ray.direction, v(-26755, 26755, -53510));
}

#[test]
fn pixel_ray_direction_is_unit_length() {
    let camera = test_camera();
    for y in 0..2 {
        for x in 0..2 {
            let dir = camera.pixel_ray(x, y).direction;
            let xx = (dir.x.bits as i128) * (dir.x.bits as i128);
            let yy = (dir.y.bits as i128) * (dir.y.bits as i128);
            let zz = (dir.z.bits as i128) * (dir.z.bits as i128);
            let norm_squared = xx + yy + zz;
            let one_squared: i128 = 65536 * 65536;
            assert!((norm_squared - one_squared).abs() < (1i128 << 18));
        }
    }
}

#[test]
fn pixel_ray_points_away_from_eye() {
    let camera = test_camera();
    for y in 0..2 {
        for x in 0..2 {
            let eye = camera.world_eye();
            let offset = camera.pixel_to_world(x, y).minus(eye);
            let dir = camera.pixel_ray(x, y).direction;
            assert_eq!(dir.x.bits >= 0, offset.x.bits >= 0);
            assert_eq!(dir.y.bits >= 0, offset.y.bits >= 0);
            assert_eq!(dir.z.bits >= 0, offset.z.bits >= 0);
        }
    }
}

#[test]
fn default_camera_resolution() {
    let camera = Camera::default();
    assert_eq!(camera.image_resolution, (640, 480));
    assert_eq!(camera.eye, Transform::identity());
}
