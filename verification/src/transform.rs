//! Placement of an object or camera: translation, Euler rotation (radians,
//! composed z then y then x) and non-uniform scale. The model matrix is
//! translate, then rotate, then scale applied right to left; its inverse —
//! the view matrix when the transform is a camera pose — exists only when no
//! scale component is zero, and is reciprocal scale, reversed rotations,
//! negated translation. The backend evaluates those matrices; which cells
//! they fill is pinned in `math`, and their exact-arithmetic algebra is
//! proved in `algebra`.

use vstd::prelude::*;
use crate::command::MatrixSource;
use crate::math::Vector3;

verus! {

/// Translation, rotation and scale of one object or camera.
#[derive(Debug, Clone, Copy)]
pub struct Transform<S> {
    pub translation: Vector3<S>,
    pub rotation: Vector3<S>,
    pub scale: Vector3<S>,
}

impl<S: Copy> Transform<S> {
    /// The transform that moves nothing: zero translation and rotation,
    /// unit scale.
    pub fn identity(zero: S, one: S) -> (r: Self)
        ensures
            r.translation == (Vector3 { x: zero, y: zero, z: zero }),
            r.rotation == (Vector3 { x: zero, y: zero, z: zero }),
            r.scale == (Vector3 { x: one, y: one, z: one }),
    {
        Transform {
            translation: Vector3 { x: zero, y: zero, z: zero },
            rotation: Vector3 { x: zero, y: zero, z: zero },
            scale: Vector3 { x: one, y: one, z: one },
        }
    }

    /// The object-to-world matrix to upload.
    pub fn model_mat(&self) -> (r: MatrixSource<S>)
        ensures
            r == MatrixSource::Model(*self),
    {
        MatrixSource::Model(*self)
    }

    /// The rotation-only object-to-world matrix to upload.
    pub fn model_rot(&self) -> (r: MatrixSource<S>)
        ensures
            r == MatrixSource::ModelRotation(*self),
    {
        MatrixSource::ModelRotation(*self)
    }

    /// The world-to-object matrix to upload: the view matrix when this
    /// transform is a camera pose.
    pub fn inverse_mat(&self) -> (r: MatrixSource<S>)
        ensures
            r == MatrixSource::View(*self),
    {
        MatrixSource::View(*self)
    }
}

} // verus!
