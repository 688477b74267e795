//! Camera: a transform (the pose) plus a projection, either perspective or
//! orthographic. The projection parameters are fixed at construction; the
//! view matrix is the inverse of the pose's transform and is derived per
//! frame, as is the rotation-only view matrix used for directions.

use vstd::prelude::*;
use crate::command::MatrixSource;
use crate::transform::Transform;

verus! {

/// Which projection the camera applies.
#[derive(Debug, Clone, Copy)]
pub enum CameraType<S> {
    PerspectiveCamera { fov: S, aspect_ratio: S, near: S, far: S },
    OrthographicCamera { left: S, right: S, bottom: S, top: S, near: S, far: S },
}

/// A pose and a projection.
#[derive(Debug, Clone, Copy)]
pub struct Camera<S> {
    pub transform: Transform<S>,
    pub camera_type: CameraType<S>,
}

impl<S: Copy> Camera<S> {
    pub open spec fn spec_camera_type(&self) -> CameraType<S> {
        self.camera_type
    }

    /// The projection matrix this camera uploads.
    pub open spec fn spec_proj_source(&self) -> MatrixSource<S> {
        match self.spec_camera_type() {
            CameraType::PerspectiveCamera { fov, aspect_ratio, near, far } => {
                MatrixSource::Perspective { fov, aspect_ratio, near, far }
            },
            CameraType::OrthographicCamera { left, right, bottom, top, near, far } => {
                MatrixSource::Orthographic { left, right, bottom, top, near, far }
            },
        }
    }

    /// A perspective camera at the identity pose. `zero` and `one` are the
    /// scalar constants of the identity transform.
    pub fn new_perspective_camera(zero: S, one: S, fov: S, aspect_ratio: S, near: S, far: S) -> (r: Self)
        ensures
            r.transform.translation == (crate::math::Vector3 { x: zero, y: zero, z: zero }),
            r.transform.rotation == (crate::math::Vector3 { x: zero, y: zero, z: zero }),
            r.transform.scale == (crate::math::Vector3 { x: one, y: one, z: one }),
            r.spec_camera_type() == (CameraType::PerspectiveCamera { fov, aspect_ratio, near, far }),
    {
        Camera {
            transform: Transform::identity(zero, one),
            camera_type: CameraType::PerspectiveCamera { fov, aspect_ratio, near, far },
        }
    }

    /// An orthographic camera at the identity pose.
    pub fn new_orthographic_camera(
        zero: S,
        one: S,
        left: S,
        right: S,
        bottom: S,
        top: S,
        near: S,
        far: S,
    ) -> (r: Self)
        ensures
            r.transform.translation == (crate::math::Vector3 { x: zero, y: zero, z: zero }),
            r.transform.rotation == (crate::math::Vector3 { x: zero, y: zero, z: zero }),
            r.transform.scale == (crate::math::Vector3 { x: one, y: one, z: one }),
            r.spec_camera_type() == (CameraType::OrthographicCamera {
                left,
                right,
                bottom,
                top,
                near,
                far,
            }),
    {
        Camera {
            transform: Transform::identity(zero, one),
            camera_type: CameraType::OrthographicCamera { left, right, bottom, top, near, far },
        }
    }

    /// The projection matrix to upload.
    pub fn proj_mat(&self) -> (r: MatrixSource<S>)
        ensures
            r == self.spec_proj_source(),
    {
        match self.camera_type {
            CameraType::PerspectiveCamera { fov, aspect_ratio, near, far } => {
                MatrixSource::Perspective { fov, aspect_ratio, near, far }
            },
            CameraType::OrthographicCamera { left, right, bottom, top, near, far } => {
                MatrixSource::Orthographic { left, right, bottom, top, near, far }
            },
        }
    }

    /// The view matrix to upload: the inverse of the pose's transform.
    pub fn view_mat(&self) -> (r: MatrixSource<S>)
        ensures
            r == MatrixSource::View(self.transform),
    {
        MatrixSource::View(self.transform)
    }

    /// The rotation-only view matrix to upload.
    pub fn view_rot(&self) -> (r: MatrixSource<S>)
        ensures
            r == MatrixSource::ViewRotation(self.transform),
    {
        MatrixSource::ViewRotation(self.transform)
    }
}

} // verus!
