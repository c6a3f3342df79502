//! Reflectance models: how a surface turns incoming light into color.

use vstd::prelude::*;
use crate::color::Color;
use crate::fixed::Fixed;
use crate::vector::Vector3;

verus! {

/// The fixed-point value closest to pi from below.
pub open spec fn spec_pi() -> Fixed {
    Fixed { bits: 205887 }
}

pub fn pi() -> (r: Fixed)
    ensures
        r == spec_pi(),
{
    Fixed { bits: 205887 }
}

/// Lambertian diffuse reflectance: a matte surface color and an albedo.
#[derive(Clone, Copy, Debug, PartialEq, Eq, Structural)]
pub struct SimpleDiffuseShading {
    pub diffuse_color: Color,
    pub albedo: Fixed,
}

/// Phong reflectance: a diffuse term plus a specular highlight with the given
/// color and exponent.
#[derive(Clone, Copy, Debug, PartialEq, Eq, Structural)]
pub struct PhongShading {
    pub diffuse_color: Color,
    pub specular_color: Color,
    pub specular_exponent: u32,
}

/// A reflectance model: one closed variant per built-in shading strategy. A
/// new model means a new variant and a new arm in [`Shading::brdf`]; the
/// renderer itself needs no change.
#[derive(Clone, Copy, Debug, PartialEq, Eq, Structural)]
pub enum Shading {
    Diffuse(SimpleDiffuseShading),
    Phong(PhongShading),
}

impl SimpleDiffuseShading {
    /// The light's intensity masked by the surface color and scaled by
    /// `albedo / pi * cos`, where `cos` is the light-normal cosine clamped to
    /// zero from below: light under the horizon adds nothing, never negative
    /// energy.
    pub open spec fn spec_brdf(
        self,
        ray: Vector3,
        light: Vector3,
        intensity: Color,
        normal: Vector3,
    ) -> Color {
        let cos = light.spec_dot(normal);
        let clamped_cos = if cos.bits < 0 {
            Fixed::spec_zero()
        } else {
            cos
        };
        intensity.spec_times(self.diffuse_color).spec_scale(
            self.albedo.spec_divide(spec_pi()).spec_times(clamped_cos),
        )
    }
}

impl PhongShading {
    /// A diffuse term as in the simple model (without an albedo), plus the
    /// specular term `specular_color * (view . reflect) ^ exponent` with
    /// `reflect = 2 * (normal . light) * normal - light` and the view
    /// direction the negated ray. The specular base is deliberately left
    /// unclamped: an even exponent can add energy on the surface's dark side.
    pub open spec fn spec_brdf(
        self,
        ray: Vector3,
        light: Vector3,
        intensity: Color,
        normal: Vector3,
    ) -> Color {
        let cos = light.spec_dot(normal);
        let clamped_cos = if cos.bits < 0 {
            Fixed::spec_zero()
        } else {
            cos
        };
        let diffuse = self.diffuse_color.spec_scale(clamped_cos.spec_divide(spec_pi()));
        let view = ray.spec_neg();
        let reflect = normal.spec_scale(
            Fixed::spec_from_int(2).spec_times(normal.spec_dot(light)),
        ).spec_minus(light);
        let specular = self.specular_color.spec_scale(
            view.spec_dot(reflect).spec_powi(self.specular_exponent as nat),
        );
        intensity.spec_times(diffuse.spec_plus(specular))
    }
}

impl Shading {
    pub open spec fn spec_brdf(
        self,
        ray: Vector3,
        light: Vector3,
        intensity: Color,
        normal: Vector3,
    ) -> Color {
        match self {
            Shading::Diffuse(s) => s.spec_brdf(ray, light, intensity, normal),
            Shading::Phong(s) => s.spec_brdf(ray, light, intensity, normal),
        }
    }

    /// The reflected color contribution at a surface point, given the
    /// outgoing (camera-facing) direction, the incoming light direction, the
    /// light's intensity, and the surface normal.
    pub fn brdf(
        &self,
        ray: &Vector3,
        light: &Vector3,
        intensity: &Color,
        normal: &Vector3,
    ) -> (c: Color)
        ensures
            c == self.spec_brdf(*ray, *light, *intensity, *normal),
    {
        match self {
            Shading::Diffuse(s) => {
                let cos = light.dot(*normal);
                let clamped_cos = if cos.bits < 0 {
                    Fixed::zero()
                } else {
                    cos
                };
                intensity.times(s.diffuse_color).scale(
                    s.albedo.divide(pi()).times(clamped_cos),
                )
            },
            Shading::Phong(s) => {
                let cos = light.dot(*normal);
                let clamped_cos = if cos.bits < 0 {
                    Fixed::zero()
                } else {
                    cos
                };
                let diffuse = s.diffuse_color.scale(clamped_cos.divide(pi()));
                let view = ray.neg();
                let reflect = normal.scale(
                    Fixed::from_int(2).times(normal.dot(*light)),
                ).minus(*light);
                let specular = s.specular_color.scale(
                    view.dot(reflect).powi(s.specular_exponent),
                );
                intensity.times(diffuse.plus(specular))
            },
        }
    }
}

/// A reflectance strategy, immutable and freely shared by cloning; any number
/// of scene objects may carry the same material value.
#[derive(Clone, Copy, Debug, PartialEq, Eq, Structural)]
pub struct Material {
    pub shading: Shading,
}

impl Material {
    /// The default material: white Lambertian diffuse with an albedo close
    /// to 0.18.
    pub fn new() -> (r: Material)
        ensures
            r.shading is Diffuse,
            r.shading->Diffuse_0.diffuse_color.a == Fixed::spec_one(),
            r.shading->Diffuse_0.diffuse_color.r == Fixed::spec_one(),
            r.shading->Diffuse_0.diffuse_color.g == Fixed::spec_one(),
            r.shading->Diffuse_0.diffuse_color.b == Fixed::spec_one(),
            r.shading->Diffuse_0.albedo.bits == 11796,
    {
        let one = Fixed::one();
        Material {
            shading: Shading::Diffuse(SimpleDiffuseShading {
                diffuse_color: Color::from_rgb(one, one, one),
                albedo: Fixed::from_bits(11796),
            }),
        }
    }
}

} // verus!
