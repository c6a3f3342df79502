//! Geometric solids and ray intersection.

use vstd::prelude::*;
use crate::fixed::Fixed;
use crate::material::Material;
use crate::vector::{Ray, Vector3};

verus! {

/// A sphere: a world-space center and a radius.
#[derive(Clone, Copy, Debug, PartialEq, Eq, Structural)]
pub struct Sphere {
    pub center: Vector3,
    pub radius: Fixed,
}

/// A plane with unit normal `normal` and signed offset `offset`: the points
/// `p` with `normal . p == offset`.
#[derive(Clone, Copy, Debug, PartialEq, Eq, Structural)]
pub struct Plane {
    pub normal: Vector3,
    pub offset: Fixed,
}

/// A geometric primitive: one closed variant per solid kind. A new primitive
/// means a new variant and a new arm in [`Solid::trace`]; nothing else in the
/// renderer changes.
#[derive(Clone, Copy, Debug, PartialEq, Eq, Structural)]
pub enum Solid {
    Sphere(Sphere),
    Plane(Plane),
}

/// The intersection of a ray and a solid's surface: the world-space hit point
/// and the surface's outward normal there.
#[derive(Clone, Copy, Debug, PartialEq, Eq, Structural)]
pub struct SolidHit {
    /// The point of intersection.
    pub point: Vector3,
    /// The normal of the solid's surface at the point of intersection.
    pub normal: Vector3,
}

impl Sphere {
    /// The nearest positive-parameter intersection, by the standard quadratic
    /// solve: with `oc` from center to origin, the parameters `t` with
    /// `|origin + t * direction - center| == radius` are the roots of
    /// `(d.d) t^2 + (2 oc.d) t + (oc.oc - r^2)`. The smaller positive root
    /// wins; a negative discriminant, a degenerate direction, or two
    /// non-positive roots mean no hit. The normal is the hit point's offset
    /// from the center, rescaled to unit length.
    pub open spec fn spec_trace(self, ray: Ray) -> Option<SolidHit> {
        let oc = ray.origin.spec_minus(self.center);
        let a = ray.direction.spec_dot(ray.direction);
        let b = Fixed::spec_from_int(2).spec_times(oc.spec_dot(ray.direction));
        let c = oc.spec_dot(oc).spec_minus(self.radius.spec_times(self.radius));
        let disc = b.spec_times(b).spec_minus(
            Fixed::spec_from_int(4).spec_times(a.spec_times(c)),
        );
        if disc.bits < 0 {
            None
        } else {
            let sq = disc.spec_sqrt();
            let denom = Fixed::spec_from_int(2).spec_times(a);
            if denom.bits == 0 {
                None
            } else {
                let t1 = b.spec_neg().spec_minus(sq).spec_divide(denom);
                let t2 = b.spec_neg().spec_plus(sq).spec_divide(denom);
                if t1.bits > 0 {
                    Some(self.spec_hit_at(ray, t1))
                } else if t2.bits > 0 {
                    Some(self.spec_hit_at(ray, t2))
                } else {
                    None
                }
            }
        }
    }

    /// The hit at parameter `t` along `ray`.
    pub open spec fn spec_hit_at(self, ray: Ray, t: Fixed) -> SolidHit {
        let point = ray.origin.spec_plus(ray.direction.spec_scale(t));
        SolidHit { point, normal: point.spec_minus(self.center).spec_normalized() }
    }

    pub fn trace(&self, ray: &Ray) -> (r: Option<SolidHit>)
        ensures
            r == self.spec_trace(*ray),
    {
        let oc = ray.origin.minus(self.center);
        let a = ray.direction.dot(ray.direction);
        let b = Fixed::from_int(2).times(oc.dot(ray.direction));
        let c = oc.dot(oc).minus(self.radius.times(self.radius));
        let disc = b.times(b).minus(Fixed::from_int(4).times(a.times(c)));
        if disc.bits < 0 {
            return None;
        }
        let sq = disc.sqrt();
        let denom = Fixed::from_int(2).times(a);
        if denom.bits == 0 {
            return None;
        }
        let t1 = b.neg().minus(sq).divide(denom);
        let t2 = b.neg().plus(sq).divide(denom);
        if t1.bits > 0 {
            Some(self.hit_at(ray, t1))
        } else if t2.bits > 0 {
            Some(self.hit_at(ray, t2))
        } else {
            None
        }
    }

    fn hit_at(&self, ray: &Ray, t: Fixed) -> (r: SolidHit)
        ensures
            r == self.spec_hit_at(*ray, t),
    {
        let point = ray.origin.plus(ray.direction.scale(t));
        SolidHit { point, normal: point.minus(self.center).normalized() }
    }
}

impl Plane {
    /// The positive-parameter intersection with the plane, if the ray is not
    /// parallel to it: `t = (offset - normal . origin) / (normal . direction)`.
    /// The returned normal is the plane's own constant normal.
    pub open spec fn spec_trace(self, ray: Ray) -> Option<SolidHit> {
        let denom = self.normal.spec_dot(ray.direction);
        if denom.bits == 0 {
            None
        } else {
            let t = self.offset.spec_minus(self.normal.spec_dot(ray.origin)).spec_divide(denom);
            if t.bits <= 0 {
                None
            } else {
                Some(SolidHit {
                    point: ray.origin.spec_plus(ray.direction.spec_scale(t)),
                    normal: self.normal,
                })
            }
        }
    }

    pub fn trace(&self, ray: &Ray) -> (r: Option<SolidHit>)
        ensures
            r == self.spec_trace(*ray),
    {
        let denom = self.normal.dot(ray.direction);
        if denom.bits == 0 {
            return None;
        }
        let t = self.offset.minus(self.normal.dot(ray.origin)).divide(denom);
        if t.bits <= 0 {
            return None;
        }
        Some(SolidHit {
            point: ray.origin.plus(ray.direction.scale(t)),
            normal: self.normal,
        })
    }
}

impl Solid {
    pub open spec fn spec_trace(self, ray: Ray) -> Option<SolidHit> {
        match self {
            Solid::Sphere(s) => s.spec_trace(ray),
            Solid::Plane(p) => p.spec_trace(ray),
        }
    }

    /// The nearest positive-parameter intersection of `ray` with this solid,
    /// or no hit.
    pub fn trace(&self, ray: &Ray) -> (r: Option<SolidHit>)
        ensures
            r == self.spec_trace(*ray),
    {
        match self {
            Solid::Sphere(s) => s.trace(ray),
            Solid::Plane(p) => p.trace(ray),
        }
    }
}

/// A solid's intersection together with the material of the object that was
/// hit.
#[derive(Clone, Copy, Debug, PartialEq, Eq, Structural)]
pub struct SceneObjectHit {
    pub solid: SolidHit,
    pub material: Material,
}

/// One thing visible in a scene: a solid paired with the material that shades
/// it.
#[derive(Clone, Copy, Debug, PartialEq, Eq, Structural)]
pub struct SimpleObject {
    pub solid: Solid,
    pub material: Material,
}

impl SimpleObject {
    pub open spec fn spec_trace(self, ray: Ray) -> Option<SceneObjectHit> {
        match self.solid.spec_trace(ray) {
            Some(hit) => Some(SceneObjectHit { solid: hit, material: self.material }),
            None => None,
        }
    }

    /// The solid's intersection, carrying this object's material along.
    pub fn trace(&self, ray: &Ray) -> (r: Option<SceneObjectHit>)
        ensures
            r == self.spec_trace(*ray),
    {
        match self.solid.trace(ray) {
            Some(hit) => Some(SceneObjectHit { solid: hit, material: self.material }),
            None => None,
        }
    }
}

/// A sphere hit always lies at a positive parameter along the ray:
/// intersections behind the origin are excluded.
pub proof fn lemma_sphere_trace_positive_parameter(s: Sphere, ray: Ray)
    ensures
        s.spec_trace(ray) matches Some(h) ==> exists|t: Fixed|
            t.bits > 0 && h.point == ray.origin.spec_plus(ray.direction.spec_scale(t)),
{
    if s.spec_trace(ray) is Some {
        let oc = ray.origin.spec_minus(s.center);
        let a = ray.direction.spec_dot(ray.direction);
        let b = Fixed::spec_from_int(2).spec_times(oc.spec_dot(ray.direction));
        let c = oc.spec_dot(oc).spec_minus(s.radius.spec_times(s.radius));
        let disc = b.spec_times(b).spec_minus(
            Fixed::spec_from_int(4).spec_times(a.spec_times(c)),
        );
        let sq = disc.spec_sqrt();
        let denom = Fixed::spec_from_int(2).spec_times(a);
        let t1 = b.spec_neg().spec_minus(sq).spec_divide(denom);
        let t2 = b.spec_neg().spec_plus(sq).spec_divide(denom);
        if t1.bits > 0 {
            assert(t1.bits > 0 && s.spec_trace(ray)->Some_0.point == ray.origin.spec_plus(
                ray.direction.spec_scale(t1),
            ));
        } else {
            assert(t2.bits > 0 && s.spec_trace(ray)->Some_0.point == ray.origin.spec_plus(
                ray.direction.spec_scale(t2),
            ));
        }
    }
}

/// A plane hit always lies at a positive parameter along the ray:
/// intersections behind the origin are excluded.
pub proof fn lemma_plane_trace_positive_parameter(p: Plane, ray: Ray)
    ensures
        p.spec_trace(ray) matches Some(h) ==> exists|t: Fixed|
            t.bits > 0 && h.point == ray.origin.spec_plus(ray.direction.spec_scale(t)),
{
    if p.spec_trace(ray) is Some {
        let denom = p.normal.spec_dot(ray.direction);
        let t = p.offset.spec_minus(p.normal.spec_dot(ray.origin)).spec_divide(denom);
        assert(t.bits > 0 && p.spec_trace(ray)->Some_0.point == ray.origin.spec_plus(
            ray.direction.spec_scale(t),
        ));
    }
}

/// A hit from a plane carries the plane's own normal, unchanged.
pub proof fn lemma_plane_trace_normal(p: Plane, ray: Ray)
    ensures
        p.spec_trace(ray) matches Some(h) ==> h.normal == p.normal,
{
}

/// A hit from a sphere carries the normal pointing from the center to the
/// hit point, rescaled to unit length.
pub proof fn lemma_sphere_trace_normal(s: Sphere, ray: Ray)
    ensures
        s.spec_trace(ray) matches Some(h) ==> h.normal == (
        h.point.spec_minus(s.center)).spec_normalized(),
{
}

/// A sphere intersection's normal is unit length up to component truncation,
/// whenever the hit point stands at least one unit from the center and
/// within the bulk of the coordinate range: the normal's squared bit-norm
/// differs from one squared by at most `2^19`.
pub proof fn lemma_sphere_hit_normal_unit_length(s: Sphere, ray: Ray, h: SolidHit)
    requires
        s.spec_trace(ray) == Some(h),
        ({
            let offset = h.point.spec_minus(s.center);
            &&& crate::fixed::abs_int(offset.x.bits as int) <= 0x2000_0000_0000_0000
            &&& crate::fixed::abs_int(offset.y.bits as int) <= 0x2000_0000_0000_0000
            &&& crate::fixed::abs_int(offset.z.bits as int) <= 0x2000_0000_0000_0000
            &&& offset.spec_magnitude().bits >= crate::fixed::SCALE
        }),
    ensures
        crate::fixed::abs_int(
            h.normal.spec_norm_squared_bits() - crate::fixed::SCALE * crate::fixed::SCALE,
        ) <= 0x8_0000,
{
    let offset = h.point.spec_minus(s.center);
    crate::vector::lemma_normalized_unit_length(offset);
}

} // verus!
