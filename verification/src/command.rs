//! The command language between the pipeline and the graphics backend. A
//! frame is planned as a sequence of these commands; the backend executes
//! them in order against the live graphics API. Commands carry plain data
//! only — resource keys, scalars, transforms — so the plan can be checked
//! without a graphics context.

use vstd::prelude::*;
use crate::framebuffer::AttachmentPoint;
use crate::math::{Vector2, Vector3};
use crate::resources::ResourceKey;
use crate::transform::Transform;

verus! {

/// Failures of frame planning, and the shape in which the backend reports
/// its own errors.
#[derive(Debug, Clone, Copy, PartialEq, Eq, Structural)]
pub enum RenderError {
    /// A referenced resource key or name is not registered.
    ResourceNotFound,
    /// The scene holds more lights than the lighting shader's fixed
    /// capacity.
    TooManyLights,
    /// A material channel is configured in a mode the binder does not
    /// handle.
    UnsupportedMaterialMode,
    /// An error code reported by the graphics backend while it executed a
    /// plan; the pipeline itself never raises this.
    GraphicsBackendError(u32),
}

/// The passes of a frame, in the order the pipeline runs them. The first
/// three are the core protocol; the overlay is an optional extra after them.
#[derive(Debug, Clone, Copy, PartialEq, Eq, Structural)]
pub enum PassKind {
    Geometry,
    Lighting,
    Tonemap,
    Overlay,
}

/// Shader inputs the pipeline uploads. The backend maps each to the uniform
/// name declared by the shader source; a name absent from a linked program
/// is skipped there without error, so shaders may omit inputs they do not
/// use.
#[derive(Debug, Clone, Copy, PartialEq, Eq, Structural)]
pub enum UniformName {
    /// Projection matrix.
    Proj,
    /// View (world-to-camera) matrix.
    View,
    /// Model (object-to-world) matrix.
    Model,
    /// Rotation-only model matrix, for normals and directions.
    ModelRot,
    /// Rotation-only view matrix.
    ViewRot,
    /// Albedo: a constant color or a sampler unit.
    Albedo,
    /// Normal map sampler unit.
    NormalMap,
    /// Metallic: a constant scalar or a sampler unit.
    Metallic,
    /// Roughness: a constant scalar or a sampler unit.
    Roughness,
    /// Ambient occlusion: a constant scalar or a sampler unit.
    Ao,
    /// Geometry-buffer position sampler.
    GPosition,
    /// Geometry-buffer normal sampler.
    GNormal,
    /// Geometry-buffer albedo sampler.
    GAlbedo,
    /// Geometry-buffer metallic sampler.
    GMetallic,
    /// Geometry-buffer roughness sampler.
    GRoughness,
    /// Geometry-buffer ambient-occlusion sampler.
    GAo,
    /// Camera world position.
    CamPos,
    /// World position of the light at this index.
    LightPosition(u32),
    /// Color of the light at this index.
    LightColor(u32),
    /// Flat fill color of a light-marker draw.
    FlatColor,
    /// Tone-mapping input: the lit HDR image sampler.
    HdrTexture,
    /// Tone-mapping exposure bias.
    ExposureBias,
    /// Tone-mapping white point.
    WhitePoint,
    /// Viewport size, for overlay shaders.
    Resolution,
}

/// Which matrix a `SetMat4` uploads. The backend evaluates it from the
/// carried parameters with its floating-point arithmetic.
#[derive(Debug, Clone, Copy)]
pub enum MatrixSource<S> {
    /// Perspective projection from field of view (degrees), aspect ratio
    /// and the near and far plane distances.
    Perspective { fov: S, aspect_ratio: S, near: S, far: S },
    /// Orthographic projection from the box to remap.
    Orthographic { left: S, right: S, bottom: S, top: S, near: S, far: S },
    /// World-to-camera: the inverse of the camera transform.
    View(Transform<S>),
    /// Rotation-only world-to-camera.
    ViewRotation(Transform<S>),
    /// Object-to-world.
    Model(Transform<S>),
    /// Rotation-only object-to-world.
    ModelRotation(Transform<S>),
}

/// One backend step of a frame.
#[derive(Debug, Clone, Copy)]
pub enum Cmd<S> {
    /// Marks the transition into a pass.
    BeginPass(PassKind),
    SetViewport { width: u32, height: u32 },
    /// Binds the geometry buffer with all six color attachments as
    /// simultaneous draw targets.
    BindGBuffer,
    /// Binds the single-attachment HDR target the lighting pass fills.
    BindHdrTarget,
    /// Binds the window's own framebuffer.
    BindDefaultFramebuffer,
    /// Clears the bound target's color to opaque black and its depth.
    ClearColorAndDepth,
    EnableDepthTest,
    DisableDepthTest,
    UseProgram(ResourceKey),
    SetMat4(UniformName, MatrixSource<S>),
    SetVec2(UniformName, Vector2<S>),
    SetVec3(UniformName, Vector3<S>),
    SetFloat(UniformName, S),
    SetInt(UniformName, i32),
    /// Binds a registered texture to a texture unit.
    BindTexture { unit: u32, texture: ResourceKey },
    /// Binds a geometry-buffer attachment to a texture unit.
    BindGBufferTexture { unit: u32, attachment: AttachmentPoint },
    /// Binds the HDR target's color attachment to a texture unit.
    BindHdrTexture { unit: u32 },
    /// Draws a registered mesh with the bound program.
    DrawMesh(ResourceKey),
    /// Draws the full-screen quad with the bound program.
    DrawScreenQuad,
}

/// Whether a command marks a pass transition.
pub open spec fn is_begin_pass<S>(c: Cmd<S>) -> bool {
    c matches Cmd::BeginPass(_)
}

/// The pass transitions of a command sequence, in order.
pub open spec fn pass_marks<S>(cmds: Seq<Cmd<S>>) -> Seq<PassKind>
    decreases cmds.len(),
{
    if cmds.len() == 0 {
        Seq::empty()
    } else {
        pass_marks(cmds.drop_last()) + match cmds.last() {
            Cmd::BeginPass(p) => seq![p],
            _ => Seq::<PassKind>::empty(),
        }
    }
}

/// Pass transitions of back-to-back command runs concatenate.
pub proof fn lemma_pass_marks_concat<S>(a: Seq<Cmd<S>>, b: Seq<Cmd<S>>)
    ensures
        pass_marks(a + b) == pass_marks(a) + pass_marks(b),
    decreases b.len(),
{
    if b.len() == 0 {
        assert(a + b =~= a);
        assert(pass_marks(a) + Seq::<PassKind>::empty() =~= pass_marks(a));
    } else {
        lemma_pass_marks_concat(a, b.drop_last());
        assert((a + b).drop_last() =~= a + b.drop_last());
        assert((a + b).last() == b.last());
        assert(pass_marks(a) + pass_marks(b.drop_last()) + match b.last() {
            Cmd::BeginPass(p) => seq![p],
            _ => Seq::<PassKind>::empty(),
        } =~= pass_marks(a) + pass_marks(b));
    }
}

/// Whether a command run makes no pass transition.
pub open spec fn no_pass_cmds<S>(s: Seq<Cmd<S>>) -> bool {
    forall|i: int| 0 <= i < s.len() ==> !is_begin_pass(#[trigger] s[i])
}

/// Runs without pass transitions concatenate to one.
pub proof fn lemma_no_pass_concat<S>(a: Seq<Cmd<S>>, b: Seq<Cmd<S>>)
    requires
        no_pass_cmds(a),
        no_pass_cmds(b),
    ensures
        no_pass_cmds(a + b),
{
    assert forall|i: int| 0 <= i < (a + b).len() implies !is_begin_pass(#[trigger] (a + b)[i]) by {
        if i < a.len() {
            assert((a + b)[i] == a[i]);
        } else {
            assert((a + b)[i] == b[i - a.len()]);
        }
    }
}

/// Commands that begin no pass add no pass transitions.
pub proof fn lemma_pass_marks_none<S>(cmds: Seq<Cmd<S>>)
    requires
        no_pass_cmds(cmds),
    ensures
        pass_marks(cmds) == Seq::<PassKind>::empty(),
    decreases cmds.len(),
{
    if cmds.len() > 0 {
        lemma_pass_marks_none(cmds.drop_last());
        assert(!is_begin_pass(cmds.last()));
        assert(pass_marks(cmds) =~= Seq::<PassKind>::empty());
    }
}

} // verus!
