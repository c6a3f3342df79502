//! The renderer: camera rays, nearest-hit resolution, shadow-tested direct
//! lighting, and bounded recursive reflection.

use vstd::prelude::*;
use vstd::pervasive::unreached;
use crate::camera::Camera;
use crate::color::Color;
use crate::fixed::Fixed;
use crate::frame::{lemma_row_major_in_bounds, lemma_row_major_injective, Frame};
use crate::light::{Light, LightType, Lighting};
use crate::material::{pi, spec_pi};
use crate::trace::{SceneObjectHit, SimpleObject, SolidHit};
use crate::vector::{Ray, Vector3};

verus! {

/// A scene ready to render: its visible objects, the camera, the lighting
/// set, and the background color for pixels whose ray hits nothing.
pub struct RenderScene {
    pub objects: Vec<SimpleObject>,
    pub camera: Camera,
    pub lighting: Lighting,
    pub background: Color,
}

/// Rendering knobs.
pub struct RenderOptions {
    /// Before shadow and reflection rays leave a surface, the hit point is
    /// pushed this far along the surface normal, so that the surface does not
    /// occlude itself through rounding.
    pub shadow_bias: Fixed,
    /// How many reflection bounces `cast_ray` may follow; zero means no
    /// reflection at all.
    pub max_ray_depth: usize,
}

impl Default for RenderOptions {
    /// A shadow bias of about one part in ten thousand, and no reflection.
    fn default() -> (r: RenderOptions)
        ensures
            r.shadow_bias.bits == 7,
            r.max_ray_depth == 0,
    {
        RenderOptions { shadow_bias: Fixed::from_bits(7), max_ray_depth: 0 }
    }
}

/// A scene the renderer accepts: a usable camera resolution whose pixel count
/// fits the address space, and only light variants that the light evaluation
/// implements (point lights).
pub open spec fn spec_scene_wf(scene: RenderScene) -> bool {
    &&& scene.camera.wf()
    &&& scene.camera.image_resolution.0 * scene.camera.image_resolution.1 <= usize::MAX
    &&& forall|i: int|
        0 <= i < scene.lighting.lights@.len() ==> (
        #[trigger] scene.lighting.lights@[i].light_type) is Point
}

/// Whether the renderer accepts this scene; collaborators that assemble
/// scenes outside verified code should check before calling [`draw`].
pub fn scene_renderable(scene: &RenderScene) -> (r: bool)
    ensures
        r == spec_scene_wf(*scene),
{
    let width = scene.camera.image_resolution.0;
    let height = scene.camera.image_resolution.1;
    if width < 1 || height < 1 {
        return false;
    }
    if width as u64 > i64::MAX as u64 || height as u64 > i64::MAX as u64 {
        return false;
    }
    if usize::MAX / width < height {
        proof {
            assert(width * height > usize::MAX) by (nonlinear_arith)
                requires
                    width >= 1,
                    usize::MAX / width < height,
                    usize::MAX / width >= 0,
            ;
        }
        return false;
    }
    proof {
        assert(width * height <= usize::MAX) by (nonlinear_arith)
            requires
                width >= 1,
                usize::MAX / width >= height,
            ;
    }
    let mut i: usize = 0;
    while i < scene.lighting.lights.len()
        invariant
            i <= scene.lighting.lights@.len(),
            forall|j: int|
                0 <= j < i ==> (#[trigger] scene.lighting.lights@[j].light_type) is Point,
        decreases scene.lighting.lights@.len() - i,
    {
        match scene.lighting.lights[i].light_type {
            LightType::Point(_) => {},
            LightType::Directional(_) => {
                return false;
            },
        }
        i = i + 1;
    }
    true
}

/// The nearest hit among the first `n` objects, with its distance from the
/// ray origin: each object is traced in turn, and a new hit replaces the
/// current one only when strictly closer, so the first-seen hit wins ties.
pub open spec fn spec_nearest_hit_prefix(
    objects: Seq<SimpleObject>,
    ray: Ray,
    n: int,
) -> Option<(SceneObjectHit, Fixed)>
    decreases n,
{
    if n <= 0 {
        None
    } else {
        let prev = spec_nearest_hit_prefix(objects, ray, n - 1);
        match objects[n - 1].spec_trace(ray) {
            Some(hit) => {
                let dist = hit.solid.point.spec_minus(ray.origin).spec_magnitude();
                match prev {
                    Some(pair) => if dist.bits < pair.1.bits {
                        Some((hit, dist))
                    } else {
                        Some(pair)
                    },
                    None => Some((hit, dist)),
                }
            },
            None => prev,
        }
    }
}

/// A hit with its point pushed `bias` along its normal, to escape the
/// originating surface before secondary rays are cast.
pub open spec fn spec_offset_hit(hit: SceneObjectHit, bias: Fixed) -> SceneObjectHit {
    SceneObjectHit {
        solid: SolidHit {
            point: hit.solid.point.spec_plus(hit.solid.normal.spec_scale(bias)),
            normal: hit.solid.normal,
        },
        material: hit.material,
    }
}

/// The nearest hit across the whole scene, bias-adjusted; no hit if every
/// object misses.
pub open spec fn spec_compute_scene_hit(
    scene: RenderScene,
    options: RenderOptions,
    ray: Ray,
) -> Option<SceneObjectHit> {
    match spec_nearest_hit_prefix(scene.objects@, ray, scene.objects@.len() as int) {
        Some(pair) => Some(spec_offset_hit(pair.0, options.shadow_bias)),
        None => None,
    }
}

/// Casts `ray` at every scene object and keeps the first-seen minimum
/// distance hit, then offsets its point by the shadow bias.
fn compute_scene_hit(scene: &RenderScene, options: &RenderOptions, ray: &Ray) -> (r: Option<
    SceneObjectHit,
>)
    ensures
        r == spec_compute_scene_hit(*scene, *options, *ray),
{
    let mut current: Option<(SceneObjectHit, Fixed)> = None;
    let mut i: usize = 0;
    while i < scene.objects.len()
        invariant
            i <= scene.objects@.len(),
            current == spec_nearest_hit_prefix(scene.objects@, *ray, i as int),
        decreases scene.objects@.len() - i,
    {
        match scene.objects[i].trace(ray) {
            Some(hit) => {
                let dist = hit.solid.point.minus(ray.origin).magnitude();
                current = match current {
                    Some(pair) => if dist.bits < pair.1.bits {
                        Some((hit, dist))
                    } else {
                        Some(pair)
                    },
                    None => Some((hit, dist)),
                };
            },
            None => {},
        }
        i = i + 1;
    }
    match current {
        Some(pair) => Some(
            SceneObjectHit {
                solid: SolidHit {
                    point: pair.0.solid.point.plus(pair.0.solid.normal.scale(options.shadow_bias)),
                    normal: pair.0.solid.normal,
                },
                material: pair.0.material,
            },
        ),
        None => None,
    }
}

/// Whether this object blocks the segment from `start` toward the shadow
/// ray's target: it reports a hit strictly closer than `dist`.
pub open spec fn spec_obstructs(
    object: SimpleObject,
    sray: Ray,
    start: Vector3,
    dist: Fixed,
) -> bool {
    match object.spec_trace(sray) {
        Some(h) => h.solid.point.spec_minus(start).spec_magnitude().bits < dist.bits,
        None => false,
    }
}

/// Whether `point` is visible from `start`: no scene object intersects the
/// ray from `start` toward `point` strictly closer than `point` itself. A
/// zero-length segment is trivially visible.
pub open spec fn spec_hit_visible(start: Vector3, point: Vector3, scene: RenderScene) -> bool {
    let unnormalized = point.spec_minus(start);
    let dist = unnormalized.spec_magnitude();
    if dist.bits == 0 {
        true
    } else {
        let sray = Ray { origin: start, direction: unnormalized.spec_divide_scalar(dist) };
        forall|i: int|
            0 <= i < scene.objects@.len() ==> !(#[trigger] spec_obstructs(
                scene.objects@[i],
                sray,
                start,
                dist,
            ))
    }
}

/// Walks the scene objects along the shadow ray and reports whether none of
/// them stands strictly between `start` and `point`.
#[verifier::rlimit(50)]
fn hit_visible(start: Vector3, point: Vector3, scene: &RenderScene) -> (r: bool)
    ensures
        r == spec_hit_visible(start, point, *scene),
{
    let unnormalized = point.minus(start);
    let dist = unnormalized.magnitude();
    if dist.bits == 0 {
        return true;
    }
    let sray = Ray { origin: start, direction: unnormalized.divide_scalar(dist) };
    let mut i: usize = 0;
    while i < scene.objects.len()
        invariant
            i <= scene.objects@.len(),
            dist == point.spec_minus(start).spec_magnitude(),
            dist.bits != 0,
            sray == (Ray {
                origin: start,
                direction: point.spec_minus(start).spec_divide_scalar(dist),
            }),
            forall|j: int|
                0 <= j < i ==> !(#[trigger] spec_obstructs(scene.objects@[j], sray, start, dist)),
        decreases scene.objects@.len() - i,
    {
        match scene.objects[i].trace(&sray) {
            Some(intersection) => {
                let distance_to_object = intersection.solid.point.minus(start).magnitude();
                if distance_to_object.bits < dist.bits {
                    proof {
                        assert(spec_obstructs(scene.objects@[i as int], sray, start, dist));
                    }
                    return false;
                }
            },
            None => {},
        }
        proof {
            assert(!spec_obstructs(scene.objects@[i as int], sray, start, dist));
        }
        i = i + 1;
    }
    true
}

/// The opaque black that an occluded or degenerate light contributes.
pub open spec fn spec_black() -> Color {
    Color {
        a: Fixed::spec_one(),
        r: Fixed::spec_zero(),
        g: Fixed::spec_zero(),
        b: Fixed::spec_zero(),
    }
}

/// One point light's contribution at a hit: nothing if the light is occluded
/// (or degenerately close, nearer than the fixed-point resolution can
/// attenuate); otherwise the material's reflectance toward the light, divided
/// by the spherical falloff `4 * pi * distance^2`.
pub open spec fn spec_compute_light(
    light: Light,
    scene: RenderScene,
    options: RenderOptions,
    ray: Ray,
    hit: SceneObjectHit,
) -> Color {
    let pl = light.light_type->Point_0;
    if !spec_hit_visible(hit.solid.point, pl.position, scene) {
        spec_black()
    } else {
        let light_direction = pl.position.spec_minus(hit.solid.point);
        let light_distance = light_direction.spec_magnitude();
        if light_distance.bits == 0 {
            spec_black()
        } else {
            let normalized_light_direction = light_direction.spec_divide_scalar(light_distance);
            let m = hit.material.shading.spec_brdf(
                ray.direction.spec_neg(),
                normalized_light_direction,
                light.intensity,
                hit.solid.normal,
            );
            let denom = Fixed::spec_from_int(4).spec_times(spec_pi()).spec_times(
                light_distance,
            ).spec_times(light_distance);
            if denom.bits == 0 {
                spec_black()
            } else {
                m.spec_divide_scalar(denom)
            }
        }
    }
}

/// Shadow-tests one light and evaluates the material's reflectance; only
/// point lights are implemented, so a directional light must not reach this
/// evaluation.
fn compute_light(
    light: &Light,
    scene: &RenderScene,
    options: &RenderOptions,
    ray: &Ray,
    hit: &SceneObjectHit,
) -> (c: Color)
    requires
        light.light_type is Point,
    ensures
        c == spec_compute_light(*light, *scene, *options, *ray, *hit),
{
    match light.light_type {
        LightType::Point(pl) => {
            if !hit_visible(hit.solid.point, pl.position, scene) {
                return black();
            }
            let light_direction = pl.position.minus(hit.solid.point);
            let light_distance = light_direction.magnitude();
            if light_distance.bits == 0 {
                return black();
            }
            let normalized_light_direction = light_direction.divide_scalar(light_distance);
            let m = hit.material.shading.brdf(
                &ray.direction.neg(),
                &normalized_light_direction,
                &light.intensity,
                &hit.solid.normal,
            );
            let denom = Fixed::from_int(4).times(pi()).times(light_distance).times(light_distance);
            if denom.bits == 0 {
                return black();
            }
            m.divide_scalar(denom)
        },
        LightType::Directional(_) => unreached(),
    }
}

fn black() -> (c: Color)
    ensures
        c == spec_black(),
{
    Color::from_rgb(Fixed::zero(), Fixed::zero(), Fixed::zero())
}

/// The sum of the contributions of the first `n` lights, folded left from
/// transparent black.
pub open spec fn spec_direct_light_prefix(
    scene: RenderScene,
    options: RenderOptions,
    ray: Ray,
    hit: SceneObjectHit,
    n: int,
) -> Color
    decreases n,
{
    if n <= 0 {
        Color {
            a: Fixed::spec_zero(),
            r: Fixed::spec_zero(),
            g: Fixed::spec_zero(),
            b: Fixed::spec_zero(),
        }
    } else {
        spec_direct_light_prefix(scene, options, ray, hit, n - 1).spec_plus(
            spec_compute_light(scene.lighting.lights@[n - 1], scene, options, ray, hit),
        )
    }
}

/// The mirror reflection of `ray` at the hit: the direction keeps its
/// component orthogonal to the normal and flips the normal-aligned one, and
/// the new origin is the (bias-adjusted) hit point.
pub open spec fn spec_compute_reflected_ray(ray: Ray, hit: SceneObjectHit) -> Ray {
    let par_component = hit.solid.normal.spec_scale(ray.direction.spec_dot(hit.solid.normal));
    let perp_component = ray.direction.spec_minus(par_component);
    Ray { origin: hit.solid.point, direction: perp_component.spec_minus(par_component) }
}

fn compute_reflected_ray(ray: &Ray, hit: &SceneObjectHit) -> (r: Ray)
    ensures
        r == spec_compute_reflected_ray(*ray, *hit),
{
    let par_component = hit.solid.normal.scale(ray.direction.dot(hit.solid.normal));
    let perp_component = ray.direction.minus(par_component);
    Ray { origin: hit.solid.point, direction: perp_component.minus(par_component) }
}

/// The color that `cast_ray` computes: the nearest hit's shading, or nothing
/// when the ray escapes the scene.
pub open spec fn spec_cast_ray(
    scene: RenderScene,
    options: RenderOptions,
    ray: Ray,
    ray_depth: int,
) -> Option<Color>
    decreases options.max_ray_depth - ray_depth, 1int,
{
    match spec_compute_scene_hit(scene, options, ray) {
        Some(hit) => spec_draw_hit(scene, options, ray, hit, ray_depth),
        None => None,
    }
}

/// The color at a hit: below the depth ceiling, only the recursively traced
/// mirror reflection; at the ceiling, the shadow-tested direct light of every
/// light source plus the scene's ambient term.
pub open spec fn spec_draw_hit(
    scene: RenderScene,
    options: RenderOptions,
    ray: Ray,
    hit: SceneObjectHit,
    ray_depth: int,
) -> Option<Color>
    decreases options.max_ray_depth - ray_depth, 0int,
{
    if ray_depth < options.max_ray_depth {
        spec_cast_ray(scene, options, spec_compute_reflected_ray(ray, hit), ray_depth + 1)
    } else {
        Some(
            spec_direct_light_prefix(
                scene,
                options,
                ray,
                hit,
                scene.lighting.lights@.len() as int,
            ).spec_plus(scene.lighting.ambient),
        )
    }
}

/// Casts `ray` into the scene and returns the computed color, or nothing if
/// the ray hits no object.
pub fn cast_ray(scene: &RenderScene, options: &RenderOptions, ray: &Ray, ray_depth: usize) -> (r:
    Option<Color>)
    requires
        spec_scene_wf(*scene),
    ensures
        r == spec_cast_ray(*scene, *options, *ray, ray_depth as int),
    decreases options.max_ray_depth - ray_depth, 1int,
{
    match compute_scene_hit(scene, options, ray) {
        Some(hit) => draw_hit(scene, options, ray, &hit, ray_depth),
        None => None,
    }
}

/// Sums the lights' shadow-tested contributions at `hit`, then either
/// follows the mirror reflection (below the depth ceiling) or returns the
/// direct light plus the ambient term.
fn draw_hit(
    scene: &RenderScene,
    options: &RenderOptions,
    ray: &Ray,
    hit: &SceneObjectHit,
    ray_depth: usize,
) -> (r: Option<Color>)
    requires
        spec_scene_wf(*scene),
    ensures
        r == spec_draw_hit(*scene, *options, *ray, *hit, ray_depth as int),
    decreases options.max_ray_depth - ray_depth, 0int,
{
    let mut light_color = Color::from_argb(
        Fixed::zero(),
        Fixed::zero(),
        Fixed::zero(),
        Fixed::zero(),
    );
    let mut i: usize = 0;
    while i < scene.lighting.lights.len()
        invariant
            spec_scene_wf(*scene),
            i <= scene.lighting.lights@.len(),
            light_color == spec_direct_light_prefix(*scene, *options, *ray, *hit, i as int),
        decreases scene.lighting.lights@.len() - i,
    {
        let contribution = compute_light(&scene.lighting.lights[i], scene, options, ray, hit);
        light_color = light_color.plus(contribution);
        i = i + 1;
    }
    let reflected_ray = compute_reflected_ray(ray, hit);
    if ray_depth < options.max_ray_depth {
        cast_ray(scene, options, &reflected_ray, ray_depth + 1)
    } else {
        Some(light_color.plus(scene.lighting.ambient))
    }
}

/// What the frame holds for pixel `(x, y)` after a draw: the clamped color of
/// its camera ray, or the scene's background where the ray hits nothing.
pub open spec fn spec_pixel_color(
    scene: RenderScene,
    options: RenderOptions,
    x: int,
    y: int,
) -> Color {
    match spec_cast_ray(scene, options, scene.camera.spec_pixel_ray(x, y), 0) {
        Some(c) => c.spec_clamped(),
        None => scene.background,
    }
}

/// Renders the scene: a frame at the camera's resolution where every pixel
/// holds its ray's clamped color, and pixels whose ray escapes keep the
/// background fill.
pub fn draw(scene: &RenderScene, options: &RenderOptions) -> (frame: Frame<Color>)
    requires
        spec_scene_wf(*scene),
    ensures
        frame.wf(),
        frame.width == scene.camera.image_resolution.0,
        frame.height == scene.camera.image_resolution.1,
        forall|x: int, y: int|
            0 <= x < frame.width && 0 <= y < frame.height ==> #[trigger] frame.spec_at(x, y)
                == Some(spec_pixel_color(*scene, *options, x, y)),
{
    let width = scene.camera.image_resolution.0;
    let height = scene.camera.image_resolution.1;
    let mut frame: Frame<Color> = Frame::new(width, height, scene.background);
    proof {
        assert forall|xx: int, yy: int| 0 <= xx < width && 0 <= yy < height implies #[trigger]
        frame.cells@[yy * width + xx] == scene.background by {
            lemma_row_major_in_bounds(xx, yy, width as int, height as int);
        }
    }
    let mut y: usize = 0;
    while y < height
        invariant
            spec_scene_wf(*scene),
            width == scene.camera.image_resolution.0,
            height == scene.camera.image_resolution.1,
            frame.wf(),
            frame.width == width,
            frame.height == height,
            y <= height,
            forall|xx: int, yy: int|
                0 <= xx < width && 0 <= yy < height ==> #[trigger] frame.cells@[yy * width + xx]
                    == (if yy < y {
                    spec_pixel_color(*scene, *options, xx, yy)
                } else {
                    scene.background
                }),
        decreases height - y,
    {
        let mut x: usize = 0;
        while x < width
            invariant
                spec_scene_wf(*scene),
                width == scene.camera.image_resolution.0,
                height == scene.camera.image_resolution.1,
                frame.wf(),
                frame.width == width,
                frame.height == height,
                y < height,
                x <= width,
                forall|xx: int, yy: int|
                    0 <= xx < width && 0 <= yy < height ==> #[trigger] frame.cells@[yy * width
                        + xx] == (if yy < y || (yy == y && xx < x) {
                        spec_pixel_color(*scene, *options, xx, yy)
                    } else {
                        scene.background
                    }),
            decreases width - x,
        {
            let ghost prior = frame.cells@;
            let ray = scene.camera.pixel_ray(x, y);
            match cast_ray(scene, options, &ray, 0) {
                Some(color) => {
                    let clamped = color.clamped();
                    frame.set(x, y, clamped);
                    proof {
                        lemma_row_major_in_bounds(x as int, y as int, width as int, height as int);
                        assert forall|xx: int, yy: int|
                            0 <= xx < width && 0 <= yy < height implies #[trigger] frame.cells@[yy
                            * width + xx] == (if yy < y || (yy == y && xx < x + 1) {
                            spec_pixel_color(*scene, *options, xx, yy)
                        } else {
                            scene.background
                        }) by {
                            lemma_row_major_in_bounds(xx, yy, width as int, height as int);
                            if yy * width + xx == y * width + x {
                                lemma_row_major_injective(
                                    xx,
                                    yy,
                                    x as int,
                                    y as int,
                                    width as int,
                                );
                            }
                        }
                    }
                },
                None => {
                    proof {
                        assert forall|xx: int, yy: int|
                            0 <= xx < width && 0 <= yy < height implies #[trigger] frame.cells@[yy
                            * width + xx] == (if yy < y || (yy == y && xx < x + 1) {
                            spec_pixel_color(*scene, *options, xx, yy)
                        } else {
                            scene.background
                        }) by {
                        }
                    }
                },
            }
            x = x + 1;
        }
        y = y + 1;
    }
    frame
}

/// A prefix of the objects yields no hit exactly when each object in it
/// misses the ray.
proof fn lemma_nearest_hit_prefix_none(objects: Seq<SimpleObject>, ray: Ray, n: int)
    ensures
        (spec_nearest_hit_prefix(objects, ray, n) is None) <==> (forall|i: int|
            0 <= i < n ==> (#[trigger] objects[i].spec_trace(ray)) is None),
    decreases n,
{
    if n > 0 {
        lemma_nearest_hit_prefix_none(objects, ray, n - 1);
    }
}

/// At or past the depth ceiling, a ray yields no color exactly when every
/// scene object misses it; the drawn pixel then keeps the background fill.
pub proof fn lemma_cast_ray_none_iff_all_miss(
    scene: RenderScene,
    options: RenderOptions,
    ray: Ray,
    ray_depth: int,
)
    requires
        ray_depth >= options.max_ray_depth,
    ensures
        (spec_cast_ray(scene, options, ray, ray_depth) is None) <==> (forall|i: int|
            0 <= i < scene.objects@.len() ==> (#[trigger] scene.objects@[i].spec_trace(ray))
                is None),
{
    lemma_nearest_hit_prefix_none(scene.objects@, ray, scene.objects@.len() as int);
    lemma_no_reflection_at_max_depth(scene, options, ray, ray_depth);
}

/// An occluded point light contributes exactly opaque black: one object
/// whose hit along the shadow ray stands strictly nearer than the light
/// forces the contribution to zero, not merely to a dimmer value.
pub proof fn lemma_occluded_light_contributes_black(
    light: Light,
    scene: RenderScene,
    options: RenderOptions,
    ray: Ray,
    hit: SceneObjectHit,
    witness: int,
)
    requires
        light.light_type is Point,
        ({
            let pl = light.light_type->Point_0;
            let unnormalized = pl.position.spec_minus(hit.solid.point);
            let dist = unnormalized.spec_magnitude();
            &&& dist.bits != 0
            &&& 0 <= witness < scene.objects@.len()
            &&& spec_obstructs(
                scene.objects@[witness],
                (Ray { origin: hit.solid.point, direction: unnormalized.spec_divide_scalar(dist) }),
                hit.solid.point,
                dist,
            )
        }),
    ensures
        spec_compute_light(light, scene, options, ray, hit) == spec_black(),
{
}

/// With a single visible point light and no reflection left to follow, the
/// ray's color is exactly the material's reflectance toward the light,
/// attenuated by the spherical falloff, plus the ambient term: the light's
/// intensity drives the pixel, not the background.
pub proof fn lemma_single_visible_light_shading(
    scene: RenderScene,
    options: RenderOptions,
    ray: Ray,
    ray_depth: int,
)
    requires
        ray_depth >= options.max_ray_depth,
        scene.lighting.lights@.len() == 1,
        spec_compute_scene_hit(scene, options, ray) is Some,
        ({
            let hit = spec_compute_scene_hit(scene, options, ray)->Some_0;
            let light = scene.lighting.lights@[0];
            &&& light.light_type is Point
            &&& spec_hit_visible(hit.solid.point, light.light_type->Point_0.position, scene)
            &&& light.light_type->Point_0.position.spec_minus(
                hit.solid.point,
            ).spec_magnitude().bits != 0
            &&& Fixed::spec_from_int(4).spec_times(spec_pi()).spec_times(
                light.light_type->Point_0.position.spec_minus(hit.solid.point).spec_magnitude(),
            ).spec_times(
                light.light_type->Point_0.position.spec_minus(hit.solid.point).spec_magnitude(),
            ).bits != 0
        }),
    ensures
        ({
            let hit = spec_compute_scene_hit(scene, options, ray)->Some_0;
            let light = scene.lighting.lights@[0];
            let pl = light.light_type->Point_0;
            let light_direction = pl.position.spec_minus(hit.solid.point);
            let light_distance = light_direction.spec_magnitude();
            let reflectance = hit.material.shading.spec_brdf(
                ray.direction.spec_neg(),
                light_direction.spec_divide_scalar(light_distance),
                light.intensity,
                hit.solid.normal,
            );
            let falloff = Fixed::spec_from_int(4).spec_times(spec_pi()).spec_times(
                light_distance,
            ).spec_times(light_distance);
            spec_cast_ray(scene, options, ray, ray_depth) == Some(
                reflectance.spec_divide_scalar(falloff).spec_plus(scene.lighting.ambient),
            )
        }),
{
    lemma_no_reflection_at_max_depth(scene, options, ray, ray_depth);
    let hit = spec_compute_scene_hit(scene, options, ray)->Some_0;
    let light = scene.lighting.lights@[0];
    let contribution = spec_compute_light(light, scene, options, ray, hit);
    let empty_sum = spec_direct_light_prefix(scene, options, ray, hit, 0);
    assert(spec_direct_light_prefix(scene, options, ray, hit, 1) == empty_sum.spec_plus(
        contribution,
    ));
    assert(empty_sum.spec_plus(contribution).a =~= contribution.a);
    assert(empty_sum.spec_plus(contribution).r =~= contribution.r);
    assert(empty_sum.spec_plus(contribution).g =~= contribution.g);
    assert(empty_sum.spec_plus(contribution).b =~= contribution.b);
    assert(empty_sum.spec_plus(contribution) =~= contribution);
}

/// At or past the depth ceiling, no reflection ray is followed: the ray's
/// color is exactly the direct light at its nearest hit plus the ambient
/// term, whatever the ceiling is — with a ceiling of zero, every primary ray
/// already stands at it.
pub proof fn lemma_no_reflection_at_max_depth(
    scene: RenderScene,
    options: RenderOptions,
    ray: Ray,
    ray_depth: int,
)
    requires
        ray_depth >= options.max_ray_depth,
    ensures
        spec_cast_ray(scene, options, ray, ray_depth) == match spec_compute_scene_hit(
            scene,
            options,
            ray,
        ) {
            Some(hit) => Some(
                spec_direct_light_prefix(
                    scene,
                    options,
                    ray,
                    hit,
                    scene.lighting.lights@.len() as int,
                ).spec_plus(scene.lighting.ambient),
            ),
            None => None,
        },
{
}

} // verus!
