//! Materials: five shading channels — albedo, normal, metallic, roughness,
//! ambient occlusion — each independently sourced from a per-vertex
//! attribute, a constant, or a texture lookup. Binding a material plans the
//! uniform uploads and texture binds for one draw: a constant channel
//! uploads its value, a texture channel binds its texture to the channel's
//! fixed unit and uploads that unit's index, a per-vertex channel uploads
//! nothing. A constant normal is the one configuration the binder does not
//! handle, and it is reported, never defaulted.

use vstd::prelude::*;
use crate::camera::Camera;
use crate::command::{Cmd, MatrixSource, RenderError, UniformName};
use crate::math::Vector3;
use crate::resources::{ResourceKey, Resources};
use crate::transform::Transform;

verus! {

/// Where one shading channel gets its value.
#[derive(Debug, Clone, Copy)]
pub enum MaterialPropertyType<T> {
    /// Supplied by mesh vertex attributes; nothing to upload.
    PerVertex,
    /// A literal value, uploaded as a uniform.
    Constant(T),
    /// Sampled from the texture registered under this key.
    FromTexture(ResourceKey),
}

#[derive(Debug, Clone, Copy)]
pub struct Albedo<S>(pub MaterialPropertyType<Vector3<S>>);

#[derive(Debug, Clone, Copy)]
pub struct Normal<S>(pub MaterialPropertyType<Vector3<S>>);

#[derive(Debug, Clone, Copy)]
pub struct Metallic<S>(pub MaterialPropertyType<S>);

#[derive(Debug, Clone, Copy)]
pub struct Roughness<S>(pub MaterialPropertyType<S>);

#[derive(Debug, Clone, Copy)]
pub struct AO<S>(pub MaterialPropertyType<S>);

/// The five shading channels of one surface.
#[derive(Debug, Clone, Copy)]
pub struct Material<S> {
    pub albedo: Albedo<S>,
    pub normal: Normal<S>,
    pub metallic: Metallic<S>,
    pub roughness: Roughness<S>,
    pub ao: AO<S>,
}

/// Fixed texture unit of each channel, in channel order.
pub const ALBEDO_UNIT: u32 = 0;

pub const NORMAL_UNIT: u32 = 1;

pub const METALLIC_UNIT: u32 = 2;

pub const ROUGHNESS_UNIT: u32 = 3;

pub const AO_UNIT: u32 = 4;

/// The commands that resolve a color-valued channel.
pub open spec fn color_channel_cmds<S>(
    name: UniformName,
    unit: u32,
    prop: MaterialPropertyType<Vector3<S>>,
) -> Seq<Cmd<S>> {
    match prop {
        MaterialPropertyType::PerVertex => Seq::empty(),
        MaterialPropertyType::Constant(v) => seq![Cmd::SetVec3(name, v)],
        MaterialPropertyType::FromTexture(k) => seq![
            Cmd::BindTexture { unit, texture: k },
            Cmd::SetInt(name, unit as i32),
        ],
    }
}

/// The commands that resolve a scalar-valued channel.
pub open spec fn scalar_channel_cmds<S>(
    name: UniformName,
    unit: u32,
    prop: MaterialPropertyType<S>,
) -> Seq<Cmd<S>> {
    match prop {
        MaterialPropertyType::PerVertex => Seq::empty(),
        MaterialPropertyType::Constant(v) => seq![Cmd::SetFloat(name, v)],
        MaterialPropertyType::FromTexture(k) => seq![
            Cmd::BindTexture { unit, texture: k },
            Cmd::SetInt(name, unit as i32),
        ],
    }
}

/// The commands that resolve the normal channel: per-vertex normals need
/// nothing, a normal map is bound and sampled. A constant is not handled;
/// no commands are defined for it.
pub open spec fn normal_channel_cmds<S>(prop: MaterialPropertyType<Vector3<S>>) -> Seq<Cmd<S>> {
    match prop {
        MaterialPropertyType::PerVertex => Seq::empty(),
        MaterialPropertyType::Constant(_) => Seq::empty(),
        MaterialPropertyType::FromTexture(k) => seq![
            Cmd::BindTexture { unit: NORMAL_UNIT, texture: k },
            Cmd::SetInt(UniformName::NormalMap, NORMAL_UNIT as i32),
        ],
    }
}

/// Whether a channel's texture reference, if it has one, is registered.
pub open spec fn channel_key_ok<T, S>(prop: MaterialPropertyType<T>, res: Resources<S>) -> bool {
    match prop {
        MaterialPropertyType::FromTexture(k) => k < res.spec_textures().resources().len(),
        _ => true,
    }
}

/// Whether every channel is in a mode the binder handles: everything but a
/// constant normal.
pub open spec fn material_mode_ok<S>(m: Material<S>) -> bool {
    !(m.normal.0 matches MaterialPropertyType::Constant(_))
}

/// Whether every texture a material references is registered.
pub open spec fn material_keys_ok<S>(m: Material<S>, res: Resources<S>) -> bool {
    &&& channel_key_ok(m.albedo.0, res)
    &&& channel_key_ok(m.normal.0, res)
    &&& channel_key_ok(m.metallic.0, res)
    &&& channel_key_ok(m.roughness.0, res)
    &&& channel_key_ok(m.ao.0, res)
}

/// The channel-resolution commands of a whole material, in channel order.
pub open spec fn material_cmds<S>(m: Material<S>) -> Seq<Cmd<S>> {
    color_channel_cmds(UniformName::Albedo, ALBEDO_UNIT, m.albedo.0) + normal_channel_cmds(
        m.normal.0,
    ) + scalar_channel_cmds(UniformName::Metallic, METALLIC_UNIT, m.metallic.0)
        + scalar_channel_cmds(UniformName::Roughness, ROUGHNESS_UNIT, m.roughness.0)
        + scalar_channel_cmds(UniformName::Ao, AO_UNIT, m.ao.0)
}

/// The program activation and matrix uploads that precede channel
/// resolution: projection, view, model, and the rotation-only model and
/// view matrices for directions.
pub open spec fn matrix_upload_cmds<S: Copy>(
    program_key: ResourceKey,
    transform: Transform<S>,
    camera: Camera<S>,
) -> Seq<Cmd<S>> {
    seq![
        Cmd::UseProgram(program_key),
        Cmd::SetMat4(UniformName::Proj, camera.spec_proj_source()),
        Cmd::SetMat4(UniformName::View, MatrixSource::View(camera.transform)),
        Cmd::SetMat4(UniformName::Model, MatrixSource::Model(transform)),
        Cmd::SetMat4(UniformName::ModelRot, MatrixSource::ModelRotation(transform)),
        Cmd::SetMat4(UniformName::ViewRot, MatrixSource::ViewRotation(camera.transform)),
    ]
}

/// Everything binding a material plans for one draw.
pub open spec fn bind_cmds<S: Copy>(
    m: Material<S>,
    program_key: ResourceKey,
    transform: Transform<S>,
    camera: Camera<S>,
) -> Seq<Cmd<S>> {
    matrix_upload_cmds(program_key, transform, camera) + material_cmds(m)
}

/// Which error binding reports, when it fails: a missing program or texture
/// before an unhandled mode, checking channels in channel order.
pub open spec fn spec_bind_error<S>(
    m: Material<S>,
    program_key: ResourceKey,
    res: Resources<S>,
) -> RenderError {
    if program_key >= res.spec_programs().resources().len() {
        RenderError::ResourceNotFound
    } else if !channel_key_ok(m.albedo.0, res) {
        RenderError::ResourceNotFound
    } else if m.normal.0 matches MaterialPropertyType::Constant(_) {
        RenderError::UnsupportedMaterialMode
    } else {
        RenderError::ResourceNotFound
    }
}

/// Binding a material makes no pass transition.
pub proof fn lemma_bind_cmds_no_pass<S: Copy>(
    m: Material<S>,
    program_key: ResourceKey,
    transform: Transform<S>,
    camera: Camera<S>,
)
    ensures
        crate::command::no_pass_cmds(bind_cmds(m, program_key, transform, camera)),
{
    let mu = matrix_upload_cmds(program_key, transform, camera);
    assert(crate::command::no_pass_cmds(mu));
    let a = color_channel_cmds(UniformName::Albedo, ALBEDO_UNIT, m.albedo.0);
    let n = normal_channel_cmds(m.normal.0);
    let me = scalar_channel_cmds(UniformName::Metallic, METALLIC_UNIT, m.metallic.0);
    let ro = scalar_channel_cmds(UniformName::Roughness, ROUGHNESS_UNIT, m.roughness.0);
    let ao = scalar_channel_cmds(UniformName::Ao, AO_UNIT, m.ao.0);
    assert(crate::command::no_pass_cmds(a));
    assert(crate::command::no_pass_cmds(n));
    assert(crate::command::no_pass_cmds(me));
    assert(crate::command::no_pass_cmds(ro));
    assert(crate::command::no_pass_cmds(ao));
    crate::command::lemma_no_pass_concat(a, n);
    crate::command::lemma_no_pass_concat(a + n, me);
    crate::command::lemma_no_pass_concat(a + n + me, ro);
    crate::command::lemma_no_pass_concat(a + n + me + ro, ao);
    assert(material_cmds(m) == a + n + me + ro + ao);
    crate::command::lemma_no_pass_concat(mu, material_cmds(m));
}

/// Resolves a color-valued channel, or reports its missing texture.
fn color_channel<S: Copy>(
    res: &Resources<S>,
    name: UniformName,
    unit: u32,
    prop: &MaterialPropertyType<Vector3<S>>,
) -> (r: Result<Vec<Cmd<S>>, RenderError>)
    requires
        unit <= 7,
    ensures
        r is Ok <==> channel_key_ok(*prop, *res),
        r matches Ok(cmds) ==> cmds@ == color_channel_cmds(name, unit, *prop),
        r is Err ==> r == Result::<Vec<Cmd<S>>, RenderError>::Err(RenderError::ResourceNotFound),
{
    let mut cmds: Vec<Cmd<S>> = Vec::new();
    match prop {
        MaterialPropertyType::PerVertex => {},
        MaterialPropertyType::Constant(v) => {
            cmds.push(Cmd::SetVec3(name, *v));
        },
        MaterialPropertyType::FromTexture(k) => {
            if res.get_texture(*k).is_err() {
                return Err(RenderError::ResourceNotFound);
            }
            cmds.push(Cmd::BindTexture { unit, texture: *k });
            cmds.push(Cmd::SetInt(name, unit as i32));
        },
    }
    proof {
        assert(cmds@ =~= color_channel_cmds(name, unit, *prop));
    }
    Ok(cmds)
}

/// Resolves a scalar-valued channel, or reports its missing texture.
fn scalar_channel<S: Copy>(
    res: &Resources<S>,
    name: UniformName,
    unit: u32,
    prop: &MaterialPropertyType<S>,
) -> (r: Result<Vec<Cmd<S>>, RenderError>)
    requires
        unit <= 7,
    ensures
        r is Ok <==> channel_key_ok(*prop, *res),
        r matches Ok(cmds) ==> cmds@ == scalar_channel_cmds(name, unit, *prop),
        r is Err ==> r == Result::<Vec<Cmd<S>>, RenderError>::Err(RenderError::ResourceNotFound),
{
    let mut cmds: Vec<Cmd<S>> = Vec::new();
    match prop {
        MaterialPropertyType::PerVertex => {},
        MaterialPropertyType::Constant(v) => {
            cmds.push(Cmd::SetFloat(name, *v));
        },
        MaterialPropertyType::FromTexture(k) => {
            if res.get_texture(*k).is_err() {
                return Err(RenderError::ResourceNotFound);
            }
            cmds.push(Cmd::BindTexture { unit, texture: *k });
            cmds.push(Cmd::SetInt(name, unit as i32));
        },
    }
    proof {
        assert(cmds@ =~= scalar_channel_cmds(name, unit, *prop));
    }
    Ok(cmds)
}

/// Resolves the normal channel, or reports the unhandled constant mode or a
/// missing normal map.
fn normal_channel<S: Copy>(res: &Resources<S>, prop: &MaterialPropertyType<Vector3<S>>) -> (r:
    Result<Vec<Cmd<S>>, RenderError>)
    ensures
        r is Ok <==> !(*prop matches MaterialPropertyType::Constant(_)) && channel_key_ok(
            *prop,
            *res,
        ),
        r matches Ok(cmds) ==> cmds@ == normal_channel_cmds(*prop),
        *prop matches MaterialPropertyType::Constant(_) ==> r == Result::<
            Vec<Cmd<S>>,
            RenderError,
        >::Err(RenderError::UnsupportedMaterialMode),
        r is Err && !(*prop matches MaterialPropertyType::Constant(_)) ==> r == Result::<
            Vec<Cmd<S>>,
            RenderError,
        >::Err(RenderError::ResourceNotFound),
{
    let mut cmds: Vec<Cmd<S>> = Vec::new();
    match prop {
        MaterialPropertyType::PerVertex => {},
        MaterialPropertyType::Constant(_) => {
            return Err(RenderError::UnsupportedMaterialMode);
        },
        MaterialPropertyType::FromTexture(k) => {
            if res.get_texture(*k).is_err() {
                return Err(RenderError::ResourceNotFound);
            }
            cmds.push(Cmd::BindTexture { unit: NORMAL_UNIT, texture: *k });
            cmds.push(Cmd::SetInt(UniformName::NormalMap, 1));
        },
    }
    proof {
        assert(cmds@ =~= normal_channel_cmds(*prop));
    }
    Ok(cmds)
}

impl<S: Copy> Material<S> {
    /// A material with a constant albedo, metallic, roughness and ambient
    /// occlusion, and per-vertex normals.
    pub fn make_basic_material(albedo: Vector3<S>, metallic: S, roughness: S, ao: S) -> (r: Self)
        ensures
            r.albedo.0 == MaterialPropertyType::Constant(albedo),
            r.normal.0 == MaterialPropertyType::<Vector3<S>>::PerVertex,
            r.metallic.0 == MaterialPropertyType::Constant(metallic),
            r.roughness.0 == MaterialPropertyType::Constant(roughness),
            r.ao.0 == MaterialPropertyType::Constant(ao),
    {
        Material {
            albedo: Albedo(MaterialPropertyType::Constant(albedo)),
            normal: Normal(MaterialPropertyType::PerVertex),
            metallic: Metallic(MaterialPropertyType::Constant(metallic)),
            roughness: Roughness(MaterialPropertyType::Constant(roughness)),
            ao: AO(MaterialPropertyType::Constant(ao)),
        }
    }

    /// Plans one draw's shader state: activates the program, uploads the
    /// five matrices, then resolves each channel in channel order. Fails,
    /// planning nothing, if the program or a referenced texture is not
    /// registered or the normal channel holds a constant.
    pub fn bind(
        &self,
        res: &Resources<S>,
        program_key: ResourceKey,
        transform: &Transform<S>,
        camera: &Camera<S>,
    ) -> (r: Result<Vec<Cmd<S>>, RenderError>)
        ensures
            r is Ok <==> program_key < res.spec_programs().resources().len() && material_mode_ok(
                *self,
            ) && material_keys_ok(*self, *res),
            r matches Ok(cmds) ==> cmds@ == bind_cmds(*self, program_key, *transform, *camera),
            r matches Err(e) ==> e == spec_bind_error(*self, program_key, *res),
    {
        if res.get_program(program_key).is_err() {
            return Err(RenderError::ResourceNotFound);
        }
        let mut cmds: Vec<Cmd<S>> = Vec::new();
        cmds.push(Cmd::UseProgram(program_key));
        cmds.push(Cmd::SetMat4(UniformName::Proj, camera.proj_mat()));
        cmds.push(Cmd::SetMat4(UniformName::View, camera.view_mat()));
        cmds.push(Cmd::SetMat4(UniformName::Model, MatrixSource::Model(*transform)));
        cmds.push(Cmd::SetMat4(UniformName::ModelRot, MatrixSource::ModelRotation(*transform)));
        cmds.push(Cmd::SetMat4(UniformName::ViewRot, camera.view_rot()));
        proof {
            assert(cmds@ =~= matrix_upload_cmds(program_key, *transform, *camera));
        }
        let mut albedo_cmds = match color_channel(res, UniformName::Albedo, ALBEDO_UNIT, &self.albedo.0) {
            Ok(c) => c,
            Err(e) => {
                return Err(e);
            },
        };
        cmds.append(&mut albedo_cmds);
        let mut normal_cmds = match normal_channel(res, &self.normal.0) {
            Ok(c) => c,
            Err(e) => {
                return Err(e);
            },
        };
        cmds.append(&mut normal_cmds);
        let mut metallic_cmds = match scalar_channel(
            res,
            UniformName::Metallic,
            METALLIC_UNIT,
            &self.metallic.0,
        ) {
            Ok(c) => c,
            Err(e) => {
                return Err(e);
            },
        };
        cmds.append(&mut metallic_cmds);
        let mut roughness_cmds = match scalar_channel(
            res,
            UniformName::Roughness,
            ROUGHNESS_UNIT,
            &self.roughness.0,
        ) {
            Ok(c) => c,
            Err(e) => {
                return Err(e);
            },
        };
        cmds.append(&mut roughness_cmds);
        let mut ao_cmds = match scalar_channel(res, UniformName::Ao, AO_UNIT, &self.ao.0) {
            Ok(c) => c,
            Err(e) => {
                return Err(e);
            },
        };
        cmds.append(&mut ao_cmds);
        proof {
            assert(cmds@ =~= bind_cmds(*self, program_key, *transform, *camera));
        }
        Ok(cmds)
    }
}

} // verus!
