use raytrace::camera::{Camera, Transform};
use raytrace::color::Color;
use raytrace::draw::{cast_ray, draw, scene_renderable, RenderOptions, RenderScene};
use raytrace::fixed::Fixed;
use raytrace::light::{Light, Lighting, LightType};
use raytrace::material::Material;
use raytrace::trace::{Plane, SimpleObject, Solid, Sphere};
use raytrace::vector::Vector3;

fn v(x: i64, y: i64, z: i64) -> Vector3 {
    Vector3 { x: Fixed::from_bits(x), y: Fixed::from_bits(y), z: Fixed::from_bits(z) }
}

fn vi(x: i64, y: i64, z: i64) -> Vector3 {
    Vector3 { x: Fixed::from_int(x), y: Fixed::from_int(y), z: Fixed::from_int(z) }
}

fn c(a: i64, r: i64, g: i64, b: i64) -> Color {
    Color {
        a: Fixed::from_bits(a),
        r: Fixed::from_bits(r),
        g: Fixed::from_bits(g),
        b: Fixed::from_bits(b),
    }
}

fn unit_sphere_object() -> SimpleObject {
    SimpleObject {
        solid: Solid::Sphere(Sphere { center: vi(0, 0, 0), radius: Fixed::one() }),
        material: Material::new(),
    }
}

/// A 3x3 camera with a 90 degree vertical field of view five units in front
/// of the origin, looking along negative z: its center pixel ray points at
/// the origin.
fn test_camera() -> Camera {
    Camera::new(
        Fixed::from_bits(0),
        Fixed::from_int(100),
        Fixed::one(),
        (3, 3),
        Transform::from_translation(vi(0, 0, 5)),
    )
}

fn lit_sphere_scene() -> RenderScene {
    RenderScene {
        objects: vec![unit_sphere_object()],
        camera: test_camera(),
        lighting: Lighting {
            lights: vec![Light::point_light(vi(5, 5, 5), c(65536, 52428800, 52428800, 52428800))],
            ambient: c(0, 655, 655, 655),
        },
        background: Color::from_argb_u8s(255, 10, 20, 30),
    }
}

fn options() -> RenderOptions {
    RenderOptions::default()
}

#[test]
fn default_options() {
    let opts = RenderOptions::default();
    assert_eq!(opts.shadow_bias.bits, 7);
    assert_eq!(opts.max_ray_depth, 0);
}

#[test]
fn default_material_is_white_diffuse() {
    let material = Material::new();
    match material.shading {
        raytrace::material::Shading::Diffuse(s) => {
            assert_eq!(s.diffuse_color, c(65536, 65536, 65536, 65536));
            assert_eq!(s.albedo.bits, 11796);
        },
        _ => panic!("expected the diffuse model"),
    }
}

#[test]
fn point_lights_carry_position_and_intensity() {
    let light = Light::point_light(vi(1, 2, 3), c(65536, 7, 8, 9));
    match light.light_type {
        LightType::Point(pl) => assert_eq!(pl.position, vi(1, 2, 3)),
        _ => panic!("expected a point light"),
    }
    assert_eq!(light.intensity, c(65536, 7, 8, 9));
}

#[test]
fn directional_lights_normalize_their_direction() {
    let light = Light::directional_light(vi(0, 0, -7));
    match light.light_type {
        LightType::Directional(dl) => assert_eq!(dl.direction, v(0, 0, -65536)),
        _ => panic!("expected a directional light"),
    }
    assert_eq!(light.intensity, c(65536, 65536, 65536, 65536));
}

#[test]
fn renderable_scenes_are_accepted() {
    assert!(scene_renderable(&lit_sphere_scene()));
}

#[test]
fn directional_lights_are_rejected() {
    let mut scene = lit_sphere_scene();
    scene.lighting.lights.push(Light::directional_light(vi(0, -1, 0)));
    assert!(!scene_renderable(&scene));
}

#[test]
fn degenerate_resolutions_are_rejected() {
    let mut scene = lit_sphere_scene();
    scene.camera.image_resolution = (0, 3);
    assert!(!scene_renderable(&scene));
}

#[test]
fn missing_rays_return_no_color() {
    let scene = lit_sphere_scene();
    // The corner pixel rays of the wide-angle camera pass the unit sphere.
    let ray = scene.camera.pixel_ray(0, 0);
    assert_eq!(cast_ray(&scene, &options(), &ray, 0), None);
}

#[test]
fn hitting_rays_return_shadow_tested_direct_light() {
    let scene = lit_sphere_scene();
    let ray = scene.camera.pixel_ray(1, 1);
    // Diffuse shading from the (5, 5, 5) light plus the ambient term: a
    // color driven by the light's intensity, not the background.
    assert_eq!(cast_ray(&scene, &options(), &ray, 0), Some(c(2, 2437, 2437, 2437)));
}

#[test]
fn draw_fills_misses_with_background() {
    let scene = lit_sphere_scene();
    let frame = draw(&scene, &options());
    assert_eq!(frame.width(), 3);
    assert_eq!(frame.height(), 3);
    let background = Color::from_argb_u8s(255, 10, 20, 30);
    for y in 0..3 {
        for x in 0..3 {
            if (x, y) == (1, 1) {
                assert_eq!(frame.at(x, y), Some(c(2, 2437, 2437, 2437)));
            } else {
                assert_eq!(frame.at(x, y), Some(background));
            }
        }
    }
}

#[test]
fn an_opaque_plane_fully_shadows_the_sphere() {
    let light = Light::point_light(vi(0, 4, 4), c(65536, 52428800, 52428800, 52428800));
    let ambient = c(0, 655, 655, 655);
    let unshadowed = RenderScene {
        objects: vec![unit_sphere_object()],
        camera: test_camera(),
        lighting: Lighting { lights: vec![light], ambient },
        background: Color::from_argb_u8s(255, 10, 20, 30),
    };
    let ray = unshadowed.camera.pixel_ray(1, 1);
    // Without the plane the sphere is lit ...
    assert_eq!(cast_ray(&unshadowed, &options(), &ray, 0), Some(c(7, 6390, 6390, 6390)));
    // ... and with a plane between sphere and light, the light's
    // contribution is exactly zero: only the ambient term remains.
    let mut shadowed = unshadowed;
    shadowed.objects.push(SimpleObject {
        solid: Solid::Plane(Plane { normal: v(0, 65536, 0), offset: Fixed::from_int(2) }),
        material: Material::new(),
    });
    assert_eq!(cast_ray(&shadowed, &options(), &ray, 0), Some(c(65536, 655, 655, 655)));
}

#[test]
fn no_reflection_at_depth_zero_and_one_bounce_above_it() {
    let scene = lit_sphere_scene();
    let ray = scene.camera.pixel_ray(1, 1);
    // With the default depth ceiling of zero the hit shades directly.
    assert_eq!(cast_ray(&scene, &options(), &ray, 0), Some(c(2, 2437, 2437, 2437)));
    // With a ceiling of one, the hit's color is the mirror reflection's
    // alone, and the reflected ray escapes the scene.
    let deeper = RenderOptions { shadow_bias: Fixed::from_bits(7), max_ray_depth: 1 };
    assert_eq!(cast_ray(&scene, &deeper, &ray, 0), None);
    // Drawing with that ceiling leaves the pixel at the background.
    let mut scene_deeper = lit_sphere_scene();
    scene_deeper.camera = test_camera();
    let frame = draw(&scene_deeper, &deeper);
    assert_eq!(frame.at(1, 1), Some(Color::from_argb_u8s(255, 10, 20, 30)));
}

#[test]
fn diffuse_brdf_follows_the_cosine_law() {
    let shading = raytrace::material::Shading::Diffuse(
        raytrace::material::SimpleDiffuseShading {
            diffuse_color: c(65536, 65536, 32768, 16384),
            albedo: Fixed::from_bits(11796),
        },
    );
    let ray = v(0, 0, -65536);
    let light = v(39322, 0, 52429);
    let intensity = c(65536, 52428800, 52428800, 52428800);
    let normal = v(0, 0, 65536);
    assert_eq!(
        shading.brdf(&ray.neg(), &light, &intensity, &normal),
        c(3003, 2402400, 1201200, 600600),
    );
    // Light under the surface horizon contributes zero, never negative
    // energy.
    let below = v(0, 0, -65536);
    assert_eq!(shading.brdf(&ray.neg(), &below, &intensity, &normal), c(0, 0, 0, 0));
}

#[test]
fn phong_brdf_adds_a_specular_term() {
    let shading = raytrace::material::Shading::Phong(raytrace::material::PhongShading {
        diffuse_color: c(65536, 65536, 32768, 16384),
        specular_color: c(65536, 3277, 3277, 3277),
        specular_exponent: 2,
    });
    let ray = v(0, 0, -65536);
    let light = v(39322, 0, 52429);
    let intensity = c(65536, 52428800, 52428800, 52428800);
    let normal = v(0, 0, 65536);
    assert_eq!(
        shading.brdf(&ray, &light, &intensity, &normal),
        c(58631, 15028000, 8352800, 5015200),
    );
}
