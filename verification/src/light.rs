//! Light sources and the per-scene lighting set.

use vstd::prelude::*;
use crate::color::Color;
use crate::fixed::Fixed;
use crate::vector::Vector3;

verus! {

/// A light positioned at a world-space point, radiating in all directions.
#[derive(Clone, Copy, Debug, PartialEq, Eq, Structural)]
pub struct PointLight {
    pub position: Vector3,
}

/// A light shining along one fixed unit direction from infinitely far away.
/// The variant is declared for scene building, but the light evaluation
/// does not handle it yet: a scene holding one is rejected as malformed.
#[derive(Clone, Copy, Debug, PartialEq, Eq, Structural)]
pub struct DirectionalLight {
    pub direction: Vector3,
}

/// The kind of a light source.
#[derive(Clone, Copy, Debug, PartialEq, Eq, Structural)]
pub enum LightType {
    Point(PointLight),
    Directional(DirectionalLight),
}

/// A light source: its kind plus its radiant intensity.
#[derive(Clone, Copy, Debug, PartialEq, Eq, Structural)]
pub struct Light {
    pub light_type: LightType,
    pub intensity: Color,
}

/// The lights of a scene plus one ambient color, added unconditionally to
/// every visible point regardless of occlusion.
pub struct Lighting {
    pub lights: Vec<Light>,
    pub ambient: Color,
}

impl Light {
    /// A point light at `pos` with the given intensity.
    pub fn point_light(pos: Vector3, intensity: Color) -> (r: Light)
        ensures
            r.light_type == (LightType::Point(PointLight { position: pos })),
            r.intensity == intensity,
    {
        Light { light_type: LightType::Point(PointLight { position: pos }), intensity }
    }

    /// A white directional light along `dir`, rescaled to unit length.
    pub fn directional_light(dir: Vector3) -> (r: Light)
        ensures
            r.light_type == (LightType::Directional(DirectionalLight {
                direction: dir.spec_normalized(),
            })),
            r.intensity.a == Fixed::spec_one(),
            r.intensity.r == Fixed::spec_one(),
            r.intensity.g == Fixed::spec_one(),
            r.intensity.b == Fixed::spec_one(),
    {
        let one = Fixed::one();
        Light {
            light_type: LightType::Directional(DirectionalLight {
                direction: dir.normalized(),
            }),
            intensity: Color::from_rgb(one, one, one),
        }
    }
}

} // verus!
