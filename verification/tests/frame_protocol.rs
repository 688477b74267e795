use deferred::camera::Camera;
use deferred::command::{Cmd, PassKind, RenderError, UniformName};
use deferred::light::Light;
use deferred::material::Material;
use deferred::math::{Vector2, Vector3};
use deferred::mesh::Mesh;
use deferred::render_object::RenderObject;
use deferred::renderer::{Renderer, MAX_LIGHTS};
use deferred::resources::Resources;
use deferred::scene::Scene;
use deferred::shader::Program;
use deferred::transform::Transform;
use deferred::vertex::{AttributeType, Vertex, VertexLayout};

fn unit_cube() -> Mesh<f32> {
    let layout = VertexLayout::new(vec![AttributeType::Position3D]);
    let h = 0.5f32;
    let vertices = vec![
        -h, -h, -h, h, -h, -h, h, h, -h, -h, h, -h, // back face corners
        -h, -h, h, h, -h, h, h, h, h, -h, h, h, // front face corners
    ];
    let indices = vec![
        0, 1, 2, 2, 3, 0, 4, 6, 5, 6, 4, 7, 0, 4, 1, 1, 4, 5, 2, 6, 3, 3, 6, 7, 0, 3, 4, 3, 7, 4,
        1, 5, 2, 2, 5, 6,
    ];
    Mesh::new(Vertex::new(vertices, indices, layout))
}

fn scene_with_one_cube() -> (Resources<f32>, Scene<f32>, Camera<f32>, Renderer<f32>) {
    let mut res: Resources<f32> = Resources::new();
    res.add_mesh_by_name("cube", unit_cube()).unwrap();
    res.add_program_by_name("g_program", Program::new(1)).unwrap();
    res.add_program_by_name("lightpass_program", Program::new(2)).unwrap();
    res.add_program_by_name("tone_map_program", Program::new(3)).unwrap();

    let mut scene: Scene<f32> = Scene::new();
    let material = Material::make_basic_material(Vector3::new(1.0, 0.0, 0.0), 0.5, 0.5, 1.0);
    let cube = RenderObject::new(
        &res,
        Transform::identity(0.0, 1.0),
        "g_program",
        "cube",
        material,
    )
    .unwrap();
    scene.add_object(cube);
    let mut light_transform = Transform::identity(0.0, 1.0);
    light_transform.translation = Vector3::new(0.0, 0.0, 5.0);
    scene.add_light(Light::new_point_light(
        light_transform,
        Vector3::new(1.0, 1.0, 1.0),
        1.0,
    ));

    let mut camera = Camera::new_perspective_camera(0.0, 1.0, 80.0, 1.5, 0.1, 1000.0);
    camera.transform.translation = Vector3::new(0.0, 0.0, 10.0);

    let renderer = Renderer::new(1200, 900, 8.0, Vector3::new(0.9, 0.9, 0.9));
    (res, scene, camera, renderer)
}

fn pass_transitions(cmds: &[Cmd<f32>]) -> Vec<PassKind> {
    cmds.iter()
        .filter_map(|c| match c {
            Cmd::BeginPass(p) => Some(*p),
            _ => None,
        })
        .collect()
}

// One cube, one point light, a camera looking at it: the frame plans
// exactly three pass transitions, geometry then lighting then tone mapping,
// and is far from empty.
#[test]
fn single_cube_frame_runs_three_passes_in_order() {
    let (res, scene, camera, renderer) = scene_with_one_cube();
    let cmds = renderer.render(&res, &scene, &camera).unwrap();
    assert!(!cmds.is_empty());
    assert_eq!(
        pass_transitions(&cmds),
        vec![PassKind::Geometry, PassKind::Lighting, PassKind::Tonemap]
    );
    // the cube is drawn in the geometry pass
    let cube_key = res.get_mesh_id_by_name("cube").unwrap();
    assert!(cmds.iter().any(|c| matches!(c, Cmd::DrawMesh(k) if *k == cube_key)));
    // the lighting and tone-mapping passes each draw one full-screen quad
    let quads = cmds.iter().filter(|c| matches!(c, Cmd::DrawScreenQuad)).count();
    assert_eq!(quads, 2);
}

#[test]
fn light_slots_carry_position_and_color() {
    let (res, scene, camera, renderer) = scene_with_one_cube();
    let cmds = renderer.render(&res, &scene, &camera).unwrap();
    let mut found_position = false;
    let mut found_color = false;
    for c in &cmds {
        match c {
            Cmd::SetVec3(UniformName::LightPosition(0), v) => {
                assert_eq!((v.x, v.y, v.z), (0.0, 0.0, 5.0));
                found_position = true;
            },
            Cmd::SetVec3(UniformName::LightColor(0), v) => {
                assert_eq!((v.x, v.y, v.z), (1.0, 1.0, 1.0));
                found_color = true;
            },
            _ => {},
        }
    }
    assert!(found_position && found_color);
}

#[test]
fn camera_position_reaches_the_lighting_pass() {
    let (res, scene, camera, renderer) = scene_with_one_cube();
    let cmds = renderer.render(&res, &scene, &camera).unwrap();
    assert!(cmds.iter().any(|c| matches!(
        c,
        Cmd::SetVec3(UniformName::CamPos, v) if (v.x, v.y, v.z) == (0.0, 0.0, 10.0)
    )));
}

#[test]
fn tonemap_parameters_reach_their_pass() {
    let (res, scene, camera, renderer) = scene_with_one_cube();
    let cmds = renderer.render(&res, &scene, &camera).unwrap();
    assert!(cmds.iter().any(|c| matches!(c, Cmd::SetFloat(UniformName::ExposureBias, v) if *v == 8.0)));
    assert!(cmds.iter().any(|c| matches!(
        c,
        Cmd::SetVec3(UniformName::WhitePoint, v) if (v.x, v.y, v.z) == (0.9, 0.9, 0.9)
    )));
}

#[test]
fn light_markers_appear_once_their_assets_exist() {
    let (mut res, mut scene, camera, renderer) = scene_with_one_cube();
    // without the flat program, no markers are planned
    let plain = renderer.render(&res, &scene, &camera).unwrap();
    res.add_program_by_name("flat_program", Program::new(9)).unwrap();
    res.add_mesh_by_name("sphere", unit_cube()).unwrap();
    scene.add_light(Light::new_point_light(
        Transform::identity(0.0, 1.0),
        Vector3::new(0.5, 0.5, 0.5),
        1.0,
    ));
    let cmds = renderer.render(&res, &scene, &camera).unwrap();
    // still exactly three pass transitions
    assert_eq!(
        pass_transitions(&cmds),
        vec![PassKind::Geometry, PassKind::Lighting, PassKind::Tonemap]
    );
    let sphere_key = res.get_mesh_id_by_name("sphere").unwrap();
    let marker_draws = cmds
        .iter()
        .filter(|c| matches!(c, Cmd::DrawMesh(k) if *k == sphere_key))
        .count();
    // one marker per light
    assert_eq!(marker_draws, 2);
    let plain_marker_draws = plain
        .iter()
        .filter(|c| matches!(c, Cmd::SetVec3(UniformName::FlatColor, _)))
        .count();
    assert_eq!(plain_marker_draws, 0);
}

#[test]
fn a_fifth_light_is_too_many() {
    let (res, mut scene, camera, renderer) = scene_with_one_cube();
    assert_eq!(MAX_LIGHTS, 4);
    for _ in 0..4 {
        scene.add_light(Light::new_point_light(
            Transform::identity(0.0, 1.0),
            Vector3::new(1.0, 1.0, 1.0),
            1.0,
        ));
    }
    let r = renderer.render(&res, &scene, &camera);
    assert_eq!(r.err(), Some(RenderError::TooManyLights));
}

#[test]
fn four_lights_are_allowed() {
    let (res, mut scene, camera, renderer) = scene_with_one_cube();
    for _ in 0..3 {
        scene.add_light(Light::new_point_light(
            Transform::identity(0.0, 1.0),
            Vector3::new(1.0, 1.0, 1.0),
            1.0,
        ));
    }
    assert!(renderer.render(&res, &scene, &camera).is_ok());
}

#[test]
fn missing_lighting_program_fails_the_frame() {
    let mut res: Resources<f32> = Resources::new();
    res.add_program_by_name("tone_map_program", Program::new(3)).unwrap();
    let scene: Scene<f32> = Scene::new();
    let camera = Camera::new_perspective_camera(0.0f32, 1.0, 80.0, 1.5, 0.1, 100.0);
    let renderer = Renderer::new(640, 480, 8.0, Vector3::new(0.9, 0.9, 0.9));
    let r = renderer.render(&res, &scene, &camera);
    assert_eq!(r.err(), Some(RenderError::ResourceNotFound));
}

#[test]
fn overlay_draws_after_its_own_transition() {
    let (mut res, _scene, _camera, renderer) = scene_with_one_cube();
    res.add_program_by_name("hud_program", Program::new(4)).unwrap();
    let cmds = renderer
        .overlay_commands(&res, Vector2::new(1200.0, 900.0))
        .unwrap();
    assert_eq!(pass_transitions(&cmds), vec![PassKind::Overlay]);
    assert!(matches!(cmds[0], Cmd::BeginPass(PassKind::Overlay)));
    assert!(matches!(cmds[cmds.len() - 1], Cmd::DrawScreenQuad));
}

#[test]
fn overlay_without_its_program_is_not_found() {
    let (res, _scene, _camera, renderer) = scene_with_one_cube();
    let r = renderer.overlay_commands(&res, Vector2::new(1.0, 1.0));
    assert_eq!(r.err(), Some(RenderError::ResourceNotFound));
}

#[test]
fn object_with_unregistered_program_name_fails_construction() {
    let (res, _scene, _camera, _renderer) = scene_with_one_cube();
    let material = Material::make_basic_material(Vector3::new(1.0, 0.0, 0.0), 0.5, 0.5, 1.0);
    let r = RenderObject::new(
        &res,
        Transform::identity(0.0, 1.0),
        "missing_program",
        "cube",
        material,
    );
    assert_eq!(r.err(), Some(deferred::resources::Error::ResourceNotFound));
}
