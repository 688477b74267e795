//! Lights: a kind, a placement, an unbounded (HDR) color and a power. A
//! point light shines from its transform's translation; a directional light
//! shines along its transform's orientation.

use vstd::prelude::*;
use crate::math::Vector3;
use crate::transform::Transform;

verus! {

#[derive(Debug, Clone, Copy, PartialEq, Eq, Structural)]
pub enum LightType {
    PointLight,
    DirectionalLight,
}

/// One light of the scene. The color is not clamped to the displayable
/// range; tone mapping handles that at the end of the frame.
#[derive(Debug, Clone, Copy)]
pub struct Light<S> {
    pub light_type: LightType,
    pub transform: Transform<S>,
    pub color: Vector3<S>,
    pub power: S,
}

impl<S: Copy> Light<S> {
    pub fn new_point_light(transform: Transform<S>, color: Vector3<S>, power: S) -> (r: Self)
        ensures
            r == (Light { light_type: LightType::PointLight, transform, color, power }),
    {
        Light { light_type: LightType::PointLight, transform, color, power }
    }

    pub fn new_directional_light(transform: Transform<S>, color: Vector3<S>, power: S) -> (r: Self)
        ensures
            r == (Light { light_type: LightType::DirectionalLight, transform, color, power }),
    {
        Light { light_type: LightType::DirectionalLight, transform, color, power }
    }

    pub fn get_position(&self) -> (r: &Vector3<S>)
        ensures
            *r == self.transform.translation,
    {
        &self.transform.translation
    }

    pub fn get_color(&self) -> (r: &Vector3<S>)
        ensures
            *r == self.color,
    {
        &self.color
    }
}

} // verus!
