//! The camera: maps pixel coordinates to world-space rays.

use vstd::prelude::*;
use crate::fixed::Fixed;
use crate::vector::{Ray, Vector3};

verus! {

/// A rigid transform from view space to world space: the images of the three
/// view-space axes, plus a translation. It should consist of rotation and
/// translation only; scale or shear would break the unit-length reasoning of
/// the consumers downstream.
#[derive(Clone, Copy, Debug, PartialEq, Eq, Structural)]
pub struct Transform {
    pub basis_x: Vector3,
    pub basis_y: Vector3,
    pub basis_z: Vector3,
    pub translation: Vector3,
}

impl Transform {
    /// The image of a point: the basis combination plus the translation.
    pub open spec fn spec_apply_point(self, p: Vector3) -> Vector3 {
        self.basis_x.spec_scale(p.x).spec_plus(self.basis_y.spec_scale(p.y)).spec_plus(
            self.basis_z.spec_scale(p.z),
        ).spec_plus(self.translation)
    }

    pub fn apply_point(&self, p: Vector3) -> (r: Vector3)
        ensures
            r == self.spec_apply_point(p),
    {
        self.basis_x.scale(p.x).plus(self.basis_y.scale(p.y)).plus(
            self.basis_z.scale(p.z),
        ).plus(self.translation)
    }

    pub open spec fn spec_identity() -> Transform {
        Transform {
            basis_x: Vector3 { x: Fixed::spec_one(), y: Fixed::spec_zero(), z: Fixed::spec_zero() },
            basis_y: Vector3 { x: Fixed::spec_zero(), y: Fixed::spec_one(), z: Fixed::spec_zero() },
            basis_z: Vector3 { x: Fixed::spec_zero(), y: Fixed::spec_zero(), z: Fixed::spec_one() },
            translation: Vector3::spec_zero(),
        }
    }

    /// The transform that maps every point to itself.
    pub fn identity() -> (r: Transform)
        ensures
            r == Transform::spec_identity(),
    {
        Transform {
            basis_x: Vector3 { x: Fixed::one(), y: Fixed::zero(), z: Fixed::zero() },
            basis_y: Vector3 { x: Fixed::zero(), y: Fixed::one(), z: Fixed::zero() },
            basis_z: Vector3 { x: Fixed::zero(), y: Fixed::zero(), z: Fixed::one() },
            translation: Vector3::zero(),
        }
    }

    pub open spec fn spec_from_translation(t: Vector3) -> Transform {
        Transform {
            basis_x: Vector3 { x: Fixed::spec_one(), y: Fixed::spec_zero(), z: Fixed::spec_zero() },
            basis_y: Vector3 { x: Fixed::spec_zero(), y: Fixed::spec_one(), z: Fixed::spec_zero() },
            basis_z: Vector3 { x: Fixed::spec_zero(), y: Fixed::spec_zero(), z: Fixed::spec_one() },
            translation: t,
        }
    }

    /// The rigid transform that only translates, by `t`.
    pub fn from_translation(t: Vector3) -> (r: Transform)
        ensures
            r == Transform::spec_from_translation(t),
    {
        Transform {
            basis_x: Vector3 { x: Fixed::one(), y: Fixed::zero(), z: Fixed::zero() },
            basis_y: Vector3 { x: Fixed::zero(), y: Fixed::one(), z: Fixed::zero() },
            basis_z: Vector3 { x: Fixed::zero(), y: Fixed::zero(), z: Fixed::one() },
            translation: t,
        }
    }
}

/// A pinhole camera.
///
/// `half_fov_tan` holds the tangent of half the *vertical* field-of-view
/// angle; the collaborator that assembles a scene converts an angle to this
/// form once, at the boundary. `near` and `far` declare clip distances but no
/// clipping logic consumes them here.
#[derive(Clone, Copy, Debug)]
pub struct Camera {
    /// The distance from the eye to the near clipping plane.
    pub near: Fixed,
    /// The distance from the eye to the far clipping plane.
    pub far: Fixed,
    /// The tangent of half the vertical field-of-view angle.
    pub half_fov_tan: Fixed,
    /// The pixel resolution of the image, which also fixes the aspect ratio.
    pub image_resolution: (usize, usize),
    /// The view-space-to-world-space transform; the origin maps to the eye.
    pub eye: Transform,
}

impl Camera {
    pub fn new(
        near: Fixed,
        far: Fixed,
        half_fov_tan: Fixed,
        image_resolution: (usize, usize),
        eye: Transform,
    ) -> (r: Camera)
        ensures
            r.near == near,
            r.far == far,
            r.half_fov_tan == half_fov_tan,
            r.image_resolution == image_resolution,
            r.eye == eye,
    {
        Camera { near, far, half_fov_tan, image_resolution, eye }
    }

    /// A usable resolution: at least one pixel each way, and small enough
    /// that a pixel index fits the fixed-point range.
    pub open spec fn wf(self) -> bool {
        &&& 1 <= self.image_resolution.0 <= i64::MAX
        &&& 1 <= self.image_resolution.1 <= i64::MAX
    }

    /// The aspect ratio: image width over image height.
    pub open spec fn spec_aspect(self) -> Fixed {
        Fixed::spec_from_int(self.image_resolution.0 as int).spec_divide(
            Fixed::spec_from_int(self.image_resolution.1 as int),
        )
    }

    pub fn aspect(&self) -> (r: Fixed)
        requires
            self.wf(),
        ensures
            r == self.spec_aspect(),
    {
        Fixed::from_int(self.image_resolution.0 as i64).divide(
            Fixed::from_int(self.image_resolution.1 as i64),
        )
    }

    /// The size of the image plane in view space at unit distance:
    /// height `2 * half_fov_tan`, width `height * aspect`.
    pub open spec fn spec_image_size(self) -> (Fixed, Fixed) {
        let height = Fixed::spec_from_int(2).spec_times(self.half_fov_tan);
        let width = height.spec_times(self.spec_aspect());
        (width, height)
    }

    pub fn image_size(&self) -> (r: (Fixed, Fixed))
        requires
            self.wf(),
        ensures
            r == self.spec_image_size(),
    {
        let height = Fixed::from_int(2).times(self.half_fov_tan);
        let width = height.times(self.aspect());
        (width, height)
    }

    /// The world-space position of the eye: the transform applied to the
    /// origin, which is exactly the transform's translation.
    pub fn world_eye(&self) -> (r: Vector3)
        ensures
            r == self.eye.spec_apply_point(Vector3::spec_zero()),
            r == self.eye.translation,
    {
        let r = self.eye.apply_point(Vector3::zero());
        proof {
            assert(r.x =~= self.eye.translation.x);
            assert(r.y =~= self.eye.translation.y);
            assert(r.z =~= self.eye.translation.z);
            assert(r =~= self.eye.translation);
        }
        r
    }

    /// The world-space point at the center of pixel `(x, y)`: pixel center to
    /// normalized device coordinates, scaled onto the view-space image plane
    /// at depth minus one, then carried to world space by the eye transform.
    /// The half-pixel nudge that centers the sample uses the vertical pixel
    /// size on both axes, so with a non-square resolution the horizontal
    /// nudge is not half a horizontal pixel.
    pub open spec fn spec_pixel_to_world(self, x: int, y: int) -> Vector3 {
        let pixel_size = Fixed::spec_one().spec_divide(
            Fixed::spec_from_int(self.image_resolution.1 as int),
        );
        let half_pixel = pixel_size.spec_divide(Fixed::spec_from_int(2));
        let screen_x = Fixed::spec_from_int(x).spec_divide(
            Fixed::spec_from_int(self.image_resolution.0 as int),
        ).spec_plus(half_pixel);
        let screen_y = Fixed::spec_from_int(y).spec_divide(
            Fixed::spec_from_int(self.image_resolution.1 as int),
        ).spec_plus(half_pixel);
        let ndc_x = screen_x.spec_times(Fixed::spec_from_int(2)).spec_minus(Fixed::spec_one());
        let ndc_y = Fixed::spec_one().spec_minus(
            Fixed::spec_from_int(2).spec_times(screen_y),
        );
        let size = self.spec_image_size();
        let view_x = ndc_x.spec_times(size.0.spec_divide(Fixed::spec_from_int(2)));
        let view_y = ndc_y.spec_times(size.1.spec_divide(Fixed::spec_from_int(2)));
        let view_z = Fixed::spec_one().spec_neg();
        self.eye.spec_apply_point(Vector3 { x: view_x, y: view_y, z: view_z })
    }

    pub fn pixel_to_world(&self, x: usize, y: usize) -> (r: Vector3)
        requires
            self.wf(),
            x <= i64::MAX,
            y <= i64::MAX,
        ensures
            r == self.spec_pixel_to_world(x as int, y as int),
    {
        let pixel_size = Fixed::one().divide(
            Fixed::from_int(self.image_resolution.1 as i64),
        );
        let half_pixel = pixel_size.divide(Fixed::from_int(2));
        let screen_x = Fixed::from_int(x as i64).divide(
            Fixed::from_int(self.image_resolution.0 as i64),
        ).plus(half_pixel);
        let screen_y = Fixed::from_int(y as i64).divide(
            Fixed::from_int(self.image_resolution.1 as i64),
        ).plus(half_pixel);
        let ndc_x = screen_x.times(Fixed::from_int(2)).minus(Fixed::one());
        let ndc_y = Fixed::one().minus(Fixed::from_int(2).times(screen_y));
        let size = self.image_size();
        let view_x = ndc_x.times(size.0.divide(Fixed::from_int(2)));
        let view_y = ndc_y.times(size.1.divide(Fixed::from_int(2)));
        let view_z = Fixed::one().neg();
        self.eye.apply_point(Vector3 { x: view_x, y: view_y, z: view_z })
    }

    /// The direction of the ray for pixel `(x, y)`: from the eye through the
    /// pixel's world-space center, rescaled to unit length (the zero vector,
    /// if the pixel center coincides with the eye).
    pub open spec fn spec_pixel_ray(self, x: int, y: int) -> Ray {
        let eye_pos = self.eye.spec_apply_point(Vector3::spec_zero());
        let dir = self.spec_pixel_to_world(x, y).spec_minus(eye_pos);
        Ray { origin: eye_pos, direction: dir.spec_normalized() }
    }

    pub fn pixel_ray(&self, x: usize, y: usize) -> (r: Ray)
        requires
            self.wf(),
            x <= i64::MAX,
            y <= i64::MAX,
        ensures
            r == self.spec_pixel_ray(x as int, y as int),
    {
        let eye_pos = self.world_eye();
        let dir = self.pixel_to_world(x, y).minus(eye_pos);
        Ray { origin: eye_pos, direction: dir.normalized() }
    }
}

/// A pixel ray starts at the eye, and its direction never opposes the offset
/// from the eye to the pixel's world-space center: componentwise, the
/// normalized direction is zero or keeps that offset's sign.
pub proof fn lemma_pixel_ray_points_away(camera: Camera, x: int, y: int)
    ensures
        camera.spec_pixel_ray(x, y).origin == camera.eye.spec_apply_point(Vector3::spec_zero()),
        ({
            let eye_pos = camera.eye.spec_apply_point(Vector3::spec_zero());
            let offset = camera.spec_pixel_to_world(x, y).spec_minus(eye_pos);
            let dir = camera.spec_pixel_ray(x, y).direction;
            &&& dir == offset.spec_normalized()
            &&& (offset.x.bits >= 0 ==> dir.x.bits >= 0)
            &&& (offset.x.bits <= 0 ==> dir.x.bits <= 0)
            &&& (offset.y.bits >= 0 ==> dir.y.bits >= 0)
            &&& (offset.y.bits <= 0 ==> dir.y.bits <= 0)
            &&& (offset.z.bits >= 0 ==> dir.z.bits >= 0)
            &&& (offset.z.bits <= 0 ==> dir.z.bits <= 0)
        }),
{
    let eye_pos = camera.eye.spec_apply_point(Vector3::spec_zero());
    let offset = camera.spec_pixel_to_world(x, y).spec_minus(eye_pos);
    crate::vector::lemma_normalized_preserves_signs(offset);
}

/// For a pixel whose world-space center stands at least one unit from the
/// eye, within the bulk of the coordinate range, the pixel ray's direction is
/// unit length up to component truncation: its squared bit-norm differs from
/// one squared by at most `2^19`.
pub proof fn lemma_pixel_ray_unit_length(camera: Camera, x: int, y: int)
    requires
        ({
            let eye_pos = camera.eye.spec_apply_point(Vector3::spec_zero());
            let offset = camera.spec_pixel_to_world(x, y).spec_minus(eye_pos);
            &&& crate::fixed::abs_int(offset.x.bits as int) <= 0x2000_0000_0000_0000
            &&& crate::fixed::abs_int(offset.y.bits as int) <= 0x2000_0000_0000_0000
            &&& crate::fixed::abs_int(offset.z.bits as int) <= 0x2000_0000_0000_0000
            &&& offset.spec_magnitude().bits >= crate::fixed::SCALE
        }),
    ensures
        crate::fixed::abs_int(
            camera.spec_pixel_ray(x, y).direction.spec_norm_squared_bits() - crate::fixed::SCALE
                * crate::fixed::SCALE,
        ) <= 0x8_0000,
{
    let eye_pos = camera.eye.spec_apply_point(Vector3::spec_zero());
    let offset = camera.spec_pixel_to_world(x, y).spec_minus(eye_pos);
    crate::vector::lemma_normalized_unit_length(offset);
}

impl Default for Camera {
    /// A near plane of about a tenth, a far plane of a thousand, a vertical
    /// field of view of seventy degrees (as the tangent of its half), and a
    /// 640 by 480 image, looking along the view axes unchanged.
    fn default() -> (r: Camera)
        ensures
            r.near.bits == 6554,
            r.far == Fixed::spec_from_int(1000),
            r.half_fov_tan.bits == 45889,
            r.image_resolution == (640usize, 480usize),
            r.eye == Transform::spec_identity(),
            r.wf(),
    {
        Camera {
            near: Fixed::from_bits(6554),
            far: Fixed::from_int(1000),
            half_fov_tan: Fixed::from_bits(45889),
            image_resolution: (640, 480),
            eye: Transform::identity(),
        }
    }
}

} // verus!
