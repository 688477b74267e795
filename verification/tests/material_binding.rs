use deferred::camera::Camera;
use deferred::command::{Cmd, MatrixSource, RenderError, UniformName};
use deferred::framebuffer::TexelFormat;
use deferred::material::{Albedo, Material, MaterialPropertyType, Metallic, Normal, Roughness, AO};
use deferred::math::Vector3;
use deferred::resources::Resources;
use deferred::shader::Program;
use deferred::texture::Texture;
use deferred::transform::Transform;

fn setup() -> (Resources<f32>, usize) {
    let mut res: Resources<f32> = Resources::new();
    let program_key = res.add_program(Program::new(1));
    (res, program_key)
}

fn camera() -> Camera<f32> {
    Camera::new_perspective_camera(0.0, 1.0, 80.0, 1.5, 0.1, 100.0)
}

#[test]
fn constant_roughness_uploads_exactly_its_value() {
    let (res, program_key) = setup();
    let material = Material::make_basic_material(Vector3::new(1.0, 0.0, 0.0), 0.9, 0.5, 1.0);
    let cmds = material
        .bind(&res, program_key, &Transform::identity(0.0, 1.0), &camera())
        .unwrap();
    let uploads: Vec<f32> = cmds
        .iter()
        .filter_map(|c| match c {
            Cmd::SetFloat(UniformName::Roughness, v) => Some(*v),
            _ => None,
        })
        .collect();
    assert_eq!(uploads, vec![0.5]);
}

#[test]
fn texture_albedo_binds_unit_zero() {
    let (mut res, program_key) = setup();
    let tex_key = res.add_texture(Texture::create_with_data(
        9,
        TexelFormat::Rgba8,
        (2, 2),
        vec![255; 16],
    ));
    let material = Material {
        albedo: Albedo(MaterialPropertyType::FromTexture(tex_key)),
        normal: Normal(MaterialPropertyType::PerVertex),
        metallic: Metallic(MaterialPropertyType::Constant(1.0)),
        roughness: Roughness(MaterialPropertyType::Constant(0.2)),
        ao: AO(MaterialPropertyType::Constant(1.0)),
    };
    let cmds = material
        .bind(&res, program_key, &Transform::identity(0.0, 1.0), &camera())
        .unwrap();
    assert!(cmds.iter().any(|c| matches!(
        c,
        Cmd::BindTexture { unit: 0, texture } if *texture == tex_key
    )));
    assert!(cmds.iter().any(|c| matches!(c, Cmd::SetInt(UniformName::Albedo, 0))));
}

#[test]
fn basic_material_plans_program_matrices_then_channels() {
    let (res, program_key) = setup();
    let albedo = Vector3::new(0.8, 0.7, 0.6);
    let material = Material::make_basic_material(albedo, 0.9, 0.1, 1.0);
    let transform = Transform::identity(0.0, 1.0);
    let cam = camera();
    let cmds = material.bind(&res, program_key, &transform, &cam).unwrap();
    assert_eq!(cmds.len(), 10);
    assert!(matches!(cmds[0], Cmd::UseProgram(k) if k == program_key));
    assert!(matches!(
        cmds[1],
        Cmd::SetMat4(UniformName::Proj, MatrixSource::Perspective { .. })
    ));
    assert!(matches!(cmds[2], Cmd::SetMat4(UniformName::View, MatrixSource::View(_))));
    assert!(matches!(cmds[3], Cmd::SetMat4(UniformName::Model, MatrixSource::Model(_))));
    assert!(matches!(
        cmds[4],
        Cmd::SetMat4(UniformName::ModelRot, MatrixSource::ModelRotation(_))
    ));
    assert!(matches!(
        cmds[5],
        Cmd::SetMat4(UniformName::ViewRot, MatrixSource::ViewRotation(_))
    ));
    assert!(matches!(cmds[6], Cmd::SetVec3(UniformName::Albedo, v) if v.x == 0.8));
    // the per-vertex normal channel plans nothing
    assert!(matches!(cmds[7], Cmd::SetFloat(UniformName::Metallic, v) if v == 0.9));
    assert!(matches!(cmds[8], Cmd::SetFloat(UniformName::Roughness, v) if v == 0.1));
    assert!(matches!(cmds[9], Cmd::SetFloat(UniformName::Ao, v) if v == 1.0));
}

#[test]
fn constant_normal_is_an_unsupported_mode() {
    let (res, program_key) = setup();
    let material = Material {
        albedo: Albedo(MaterialPropertyType::Constant(Vector3::new(1.0, 1.0, 1.0))),
        normal: Normal(MaterialPropertyType::Constant(Vector3::new(0.0, 1.0, 0.0))),
        metallic: Metallic(MaterialPropertyType::Constant(1.0)),
        roughness: Roughness(MaterialPropertyType::Constant(0.2)),
        ao: AO(MaterialPropertyType::Constant(1.0)),
    };
    let r = material.bind(&res, program_key, &Transform::identity(0.0, 1.0), &camera());
    assert_eq!(r.err(), Some(RenderError::UnsupportedMaterialMode));
}

#[test]
fn missing_channel_texture_is_reported() {
    let (res, program_key) = setup();
    let material = Material {
        albedo: Albedo(MaterialPropertyType::FromTexture(0)),
        normal: Normal(MaterialPropertyType::PerVertex),
        metallic: Metallic(MaterialPropertyType::Constant(1.0)),
        roughness: Roughness(MaterialPropertyType::Constant(0.2)),
        ao: AO(MaterialPropertyType::Constant(1.0)),
    };
    let r = material.bind(&res, program_key, &Transform::identity(0.0, 1.0), &camera());
    assert_eq!(r.err(), Some(RenderError::ResourceNotFound));
}

#[test]
fn missing_program_is_reported() {
    let res: Resources<f32> = Resources::new();
    let material = Material::make_basic_material(Vector3::new(1.0, 1.0, 1.0), 0.5, 0.5, 1.0);
    let r = material.bind(&res, 0, &Transform::identity(0.0, 1.0), &camera());
    assert_eq!(r.err(), Some(RenderError::ResourceNotFound));
}
