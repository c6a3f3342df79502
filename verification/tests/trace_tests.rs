use raytrace::fixed::Fixed;
use raytrace::material::Material;
use raytrace::trace::{Plane, SimpleObject, Solid, Sphere};
use raytrace::vector::{Ray, Vector3};

fn v(x: i64, y: i64, z: i64) -> Vector3 {
    Vector3 { x: Fixed::from_bits(x), y: Fixed::from_bits(y), z: Fixed::from_bits(z) }
}

fn vi(x: i64, y: i64, z: i64) -> Vector3 {
    Vector3 { x: Fixed::from_int(x), y: Fixed::from_int(y), z: Fixed::from_int(z) }
}

fn unit_sphere() -> Sphere {
    Sphere { center: vi(0, 0, 0), radius: Fixed::one() }
}

#[test]
fn sphere_hit_straight_on() {
    let ray = Ray { origin: vi(0, 0, 5), direction: v(0, 0, -65536) };
    let hit = unit_sphere().trace(&ray).expect("the ray points at the sphere");
    assert_eq!(hit.point, vi(0, 0, 1));
    assert_eq!(hit.normal, v(0, 0, 65536));
}

#[test]
fn sphere_miss_behind_origin() {
    // Pointing away from the sphere: both roots are negative.
    let ray = Ray { origin: vi(0, 0, 5), direction: v(0, 0, 65536) };
    assert!(unit_sphere().trace(&ray).is_none());
}

#[test]
fn sphere_miss_to_the_side() {
    let ray = Ray { origin: vi(5, 5, 5), direction: v(0, 0, -65536) };
    assert!(unit_sphere().trace(&ray).is_none());
}

#[test]
fn sphere_hit_from_inside() {
    // From the center, the first positive root is the surface ahead.
    let ray = Ray { origin: vi(0, 0, 0), direction: v(0, 0, -65536) };
    let hit = unit_sphere().trace(&ray).expect("the surface lies ahead");
    assert_eq!(hit.point, vi(0, 0, -1));
    assert_eq!(hit.normal, v(0, 0, -65536));
}

#[test]
fn sphere_normals_are_unit_length() {
    let rays = [
        Ray { origin: vi(0, 0, 5), direction: v(0, 0, -65536) },
        Ray { origin: vi(3, 2, 5), direction: v(-26755, -13377, -53510) },
        Ray { origin: vi(-4, 1, 3), direction: v(39321, -9830, -39321) },
    ];
    let one_squared: i128 = 65536 * 65536;
    for ray in rays {
        if let Some(hit) = unit_sphere().trace(&ray) {
            let n = hit.normal;
            let norm_squared = (n.x.bits as i128) * (n.x.bits as i128)
                + (n.y.bits as i128) * (n.y.bits as i128)
                + (n.z.bits as i128) * (n.z.bits as i128);
            assert!((norm_squared - one_squared).abs() < (1i128 << 18));
        }
    }
}

#[test]
fn plane_hit_straight_on() {
    let plane = Plane { normal: v(0, 65536, 0), offset: Fixed::from_int(2) };
    let ray = Ray { origin: vi(0, 5, 0), direction: v(0, -65536, 0) };
    let hit = plane.trace(&ray).expect("the ray crosses the plane");
    assert_eq!(hit.point, vi(0, 2, 0));
    assert_eq!(hit.normal, v(0, 65536, 0));
}

#[test]
fn plane_parallel_ray_misses() {
    let plane = Plane { normal: v(0, 65536, 0), offset: Fixed::from_int(2) };
    let ray = Ray { origin: vi(0, 5, 0), direction: v(65536, 0, 0) };
    assert!(plane.trace(&ray).is_none());
}

#[test]
fn plane_behind_the_origin_misses() {
    let plane = Plane { normal: v(0, 65536, 0), offset: Fixed::from_int(2) };
    let ray = Ray { origin: vi(0, 5, 0), direction: v(0, 65536, 0) };
    assert!(plane.trace(&ray).is_none());
}

#[test]
fn solids_dispatch_to_their_variant() {
    let ray = Ray { origin: vi(0, 0, 5), direction: v(0, 0, -65536) };
    let sphere = Solid::Sphere(unit_sphere());
    assert_eq!(sphere.trace(&ray).expect("sphere hit").point, vi(0, 0, 1));
    let plane = Solid::Plane(Plane { normal: v(0, 0, 65536), offset: Fixed::from_int(-1) });
    assert_eq!(plane.trace(&ray).expect("plane hit").point, vi(0, 0, -1));
}

#[test]
fn objects_carry_their_material_into_hits() {
    let object = SimpleObject { solid: Solid::Sphere(unit_sphere()), material: Material::new() };
    let ray = Ray { origin: vi(0, 0, 5), direction: v(0, 0, -65536) };
    let hit = object.trace(&ray).expect("the ray points at the sphere");
    assert_eq!(hit.solid.point, vi(0, 0, 1));
    assert_eq!(hit.material, Material::new());
    let miss = Ray { origin: vi(0, 0, 5), direction: v(0, 0, 65536) };
    assert!(object.trace(&miss).is_none());
}
