//! The frame protocol. A frame is three passes in strict order, planned as
//! one command sequence: the geometry pass rasterizes every object's
//! position, normal and material data into the geometry buffer; the lighting
//! pass samples those six attachments and the light list and accumulates lit
//! color into an HDR target with a full-screen draw, then marks each light
//! with a small flat-colored sphere; the tone-mapping pass
//! maps the HDR image to the window with an exposure bias and a white point.
//! An overlay pass may be planned separately and run after them.

use vstd::prelude::*;
use crate::camera::Camera;
use crate::command::{
    lemma_no_pass_concat,
    MatrixSource,
    lemma_pass_marks_concat,
    lemma_pass_marks_none,
    no_pass_cmds,
    pass_marks,
    Cmd,
    PassKind,
    RenderError,
    UniformName,
};
use crate::framebuffer::{AttachmentPoint, GBuffer};
use crate::light::Light;
use crate::math::{Vector2, Vector3};
use crate::render_object::RenderObject;
use crate::resources::{ResourceKey, Resources};
use crate::scene::Scene;

verus! {

/// Most lights one frame may hold: the lighting shader declares this many
/// indexed light slots. More is a configuration error, reported rather than
/// truncated.
pub const MAX_LIGHTS: usize = 4;

/// Plans frames for one window size; owns the geometry buffer and the
/// tone-mapping parameters.
#[derive(Debug)]
pub struct Renderer<S> {
    pub window_width: u32,
    pub window_height: u32,
    pub gbuffer: GBuffer,
    pub exposure_bias: S,
    pub white_point: Vector3<S>,
}

/// How the geometry pass opens: full viewport, the geometry buffer bound,
/// cleared, with depth testing on.
pub open spec fn geometry_prefix_cmds<S>(width: u32, height: u32) -> Seq<Cmd<S>> {
    seq![
        Cmd::BeginPass(PassKind::Geometry),
        Cmd::SetViewport { width, height },
        Cmd::BindGBuffer,
        Cmd::ClearColorAndDepth,
        Cmd::EnableDepthTest,
    ]
}

/// Every object's draw, in scene order.
pub open spec fn objects_cmds<S: Copy>(objs: Seq<RenderObject<S>>, camera: Camera<S>) -> Seq<
    Cmd<S>,
>
    decreases objs.len(),
{
    if objs.len() == 0 {
        Seq::empty()
    } else {
        objects_cmds(objs.drop_last(), camera) + objs.last().draw_cmds(camera)
    }
}

/// Whether every object of the scene can be drawn against `res`.
pub open spec fn objects_ok<S: Copy>(objs: Seq<RenderObject<S>>, res: Resources<S>) -> bool {
    forall|i: int| 0 <= i < objs.len() ==> (#[trigger] objs[i]).draw_ok(res)
}

/// The error of the first object whose draw cannot be planned.
pub open spec fn first_object_error<S: Copy>(
    objs: Seq<RenderObject<S>>,
    res: Resources<S>,
) -> RenderError
    decreases objs.len(),
{
    if objs.len() == 0 {
        RenderError::ResourceNotFound
    } else if !objs.first().draw_ok(res) {
        objs.first().draw_error(res)
    } else {
        first_object_error(objs.drop_first(), res)
    }
}

/// The lighting pass binds the six geometry-buffer attachments to texture
/// units zero through five and tells the shader which unit samples which.
pub open spec fn gbuffer_bind_cmds<S>() -> Seq<Cmd<S>> {
    seq![
        Cmd::BindGBufferTexture { unit: 0, attachment: AttachmentPoint::Color(0) },
        Cmd::SetInt(UniformName::GPosition, 0),
        Cmd::BindGBufferTexture { unit: 1, attachment: AttachmentPoint::Color(1) },
        Cmd::SetInt(UniformName::GNormal, 1),
        Cmd::BindGBufferTexture { unit: 2, attachment: AttachmentPoint::Color(2) },
        Cmd::SetInt(UniformName::GAlbedo, 2),
        Cmd::BindGBufferTexture { unit: 3, attachment: AttachmentPoint::Color(3) },
        Cmd::SetInt(UniformName::GMetallic, 3),
        Cmd::BindGBufferTexture { unit: 4, attachment: AttachmentPoint::Color(4) },
        Cmd::SetInt(UniformName::GRoughness, 4),
        Cmd::BindGBufferTexture { unit: 5, attachment: AttachmentPoint::Color(5) },
        Cmd::SetInt(UniformName::GAo, 5),
    ]
}

/// Each light's position and color, uploaded to its indexed slot in scene
/// order.
pub open spec fn lights_cmds<S: Copy>(lights: Seq<Light<S>>) -> Seq<Cmd<S>>
    decreases lights.len(),
{
    if lights.len() == 0 {
        Seq::empty()
    } else {
        lights_cmds(lights.drop_last()) + seq![
            Cmd::SetVec3(
                UniformName::LightPosition((lights.len() - 1) as u32),
                lights.last().transform.translation,
            ),
            Cmd::SetVec3(UniformName::LightColor((lights.len() - 1) as u32), lights.last().color),
        ]
    }
}

/// The whole lighting pass: the HDR target bound with depth testing off,
/// the lighting program fed the geometry buffer, the camera position and
/// the light list, then one full-screen draw.
pub open spec fn lighting_cmds<S: Copy>(
    lightpass_key: ResourceKey,
    camera: Camera<S>,
    lights: Seq<Light<S>>,
) -> Seq<Cmd<S>> {
    seq![
        Cmd::BeginPass(PassKind::Lighting),
        Cmd::BindHdrTarget,
        Cmd::DisableDepthTest,
        Cmd::UseProgram(lightpass_key),
    ] + gbuffer_bind_cmds() + seq![Cmd::SetVec3(UniformName::CamPos, camera.transform.translation)]
        + lights_cmds(lights) + seq![Cmd::DrawScreenQuad]
}

/// One marker draw per light: a small flat-colored sphere at the light's
/// own transform, drawn into the HDR target so tone mapping carries it to
/// the screen.
pub open spec fn marker_cmds_for<S: Copy>(
    flat_key: ResourceKey,
    sphere_key: ResourceKey,
    camera: Camera<S>,
    lights: Seq<Light<S>>,
) -> Seq<Cmd<S>>
    decreases lights.len(),
{
    if lights.len() == 0 {
        Seq::empty()
    } else {
        marker_cmds_for(flat_key, sphere_key, camera, lights.drop_last()) + seq![
            Cmd::UseProgram(flat_key),
            Cmd::SetMat4(UniformName::Proj, camera.spec_proj_source()),
            Cmd::SetMat4(UniformName::View, MatrixSource::View(camera.transform)),
            Cmd::SetMat4(UniformName::Model, MatrixSource::Model(lights.last().transform)),
            Cmd::SetVec3(UniformName::FlatColor, lights.last().color),
            Cmd::DrawMesh(sphere_key),
        ]
    }
}

/// The light markers of a frame. They are an optional flourish: they are
/// planned only when the flat program and the sphere mesh are registered,
/// and are skipped silently otherwise.
pub open spec fn light_markers_cmds<S: Copy>(
    res: Resources<S>,
    camera: Camera<S>,
    lights: Seq<Light<S>>,
) -> Seq<Cmd<S>> {
    if res.spec_programs().has_name("flat_program"@) && res.spec_meshes().has_name("sphere"@) {
        marker_cmds_for(
            res.spec_programs().id_of("flat_program"@),
            res.spec_meshes().id_of("sphere"@),
            camera,
            lights,
        )
    } else {
        Seq::empty()
    }
}

/// The whole tone-mapping pass: the window's framebuffer bound, the HDR
/// image sampled at unit zero, the two operator parameters uploaded, one
/// full-screen draw.
pub open spec fn tonemap_cmds<S: Copy>(
    tonemap_key: ResourceKey,
    exposure_bias: S,
    white_point: Vector3<S>,
) -> Seq<Cmd<S>> {
    seq![
        Cmd::BeginPass(PassKind::Tonemap),
        Cmd::BindDefaultFramebuffer,
        Cmd::UseProgram(tonemap_key),
        Cmd::BindHdrTexture { unit: 0 },
        Cmd::SetInt(UniformName::HdrTexture, 0),
        Cmd::SetFloat(UniformName::ExposureBias, exposure_bias),
        Cmd::SetVec3(UniformName::WhitePoint, white_point),
        Cmd::DrawScreenQuad,
    ]
}

/// A whole frame: geometry, then lighting (with its optional light
/// markers), then tone mapping.
pub open spec fn frame_cmds<S: Copy>(
    renderer: Renderer<S>,
    res: Resources<S>,
    scene: Scene<S>,
    camera: Camera<S>,
) -> Seq<Cmd<S>> {
    geometry_prefix_cmds(renderer.window_width, renderer.window_height) + objects_cmds(
        scene.objects@,
        camera,
    ) + lighting_cmds(res.spec_programs().id_of("lightpass_program"@), camera, scene.lights@)
        + light_markers_cmds(res, camera, scene.lights@) + tonemap_cmds(
        res.spec_programs().id_of("tone_map_program"@),
        renderer.exposure_bias,
        renderer.white_point,
    )
}

/// When a frame can be planned: every object drawable, the light list
/// within capacity, and the lighting and tone-mapping programs registered.
pub open spec fn render_ok<S: Copy>(res: Resources<S>, scene: Scene<S>) -> bool {
    &&& objects_ok(scene.objects@, res)
    &&& scene.lights@.len() <= MAX_LIGHTS
    &&& res.spec_programs().has_name("lightpass_program"@)
    &&& res.spec_programs().has_name("tone_map_program"@)
}

/// Which error a failed frame plan reports, in the order planning runs:
/// objects in scene order, then the light count, then the two programs.
pub open spec fn spec_render_error<S: Copy>(res: Resources<S>, scene: Scene<S>) -> RenderError {
    if !objects_ok(scene.objects@, res) {
        first_object_error(scene.objects@, res)
    } else if scene.lights@.len() > MAX_LIGHTS {
        RenderError::TooManyLights
    } else {
        RenderError::ResourceNotFound
    }
}

/// The overlay pass: the overlay program told the viewport size, one
/// full-screen draw over the tone-mapped image.
pub open spec fn overlay_cmds<S: Copy>(hud_key: ResourceKey, resolution: Vector2<S>) -> Seq<
    Cmd<S>,
> {
    seq![
        Cmd::BeginPass(PassKind::Overlay),
        Cmd::UseProgram(hud_key),
        Cmd::SetVec2(UniformName::Resolution, resolution),
        Cmd::DrawScreenQuad,
    ]
}

/// Failing objects make the first failure the frame's error.
proof fn lemma_first_object_error<S: Copy>(objs: Seq<RenderObject<S>>, res: Resources<S>, i: int)
    requires
        0 <= i < objs.len(),
        forall|j: int| 0 <= j < i ==> (#[trigger] objs[j]).draw_ok(res),
        !objs[i].draw_ok(res),
    ensures
        first_object_error(objs, res) == objs[i].draw_error(res),
        !objects_ok(objs, res),
    decreases i,
{
    if i == 0 {
        assert(objs.first() == objs[0]);
    } else {
        assert(objs.first().draw_ok(res));
        assert forall|j: int| 0 <= j < i - 1 implies (#[trigger] objs.drop_first()[j]).draw_ok(
            res,
        ) by {
            assert(objs.drop_first()[j] == objs[j + 1]);
        }
        assert(objs.drop_first()[i - 1] == objs[i]);
        lemma_first_object_error(objs.drop_first(), res, i - 1);
    }
}

/// No object draw command begins a pass.
proof fn lemma_objects_cmds_no_pass<S: Copy>(objs: Seq<RenderObject<S>>, camera: Camera<S>)
    ensures
        no_pass_cmds(objects_cmds(objs, camera)),
    decreases objs.len(),
{
    if objs.len() == 0 {
        assert(objects_cmds(objs, camera) == Seq::<Cmd<S>>::empty());
    } else {
        lemma_objects_cmds_no_pass(objs.drop_last(), camera);
        let o = objs.last();
        let b = crate::material::bind_cmds(o.material, o.program_key, o.transform, camera);
        crate::material::lemma_bind_cmds_no_pass(o.material, o.program_key, o.transform, camera);
        let dm = seq![Cmd::<S>::DrawMesh(o.mesh_key)];
        assert(no_pass_cmds(dm));
        lemma_no_pass_concat(b, dm);
        assert(o.draw_cmds(camera) == b + dm);
        lemma_no_pass_concat(objects_cmds(objs.drop_last(), camera), o.draw_cmds(camera));
    }
}

/// No light upload begins a pass.
proof fn lemma_lights_cmds_no_pass<S: Copy>(lights: Seq<Light<S>>)
    ensures
        no_pass_cmds(lights_cmds(lights)),
    decreases lights.len(),
{
    if lights.len() == 0 {
    } else {
        lemma_lights_cmds_no_pass(lights.drop_last());
        let rest = lights_cmds(lights.drop_last());
        let pair = seq![
            Cmd::<S>::SetVec3(
                UniformName::LightPosition((lights.len() - 1) as u32),
                lights.last().transform.translation,
            ),
            Cmd::<S>::SetVec3(UniformName::LightColor((lights.len() - 1) as u32), lights.last().color),
        ];
        assert(no_pass_cmds(pair));
        lemma_no_pass_concat(rest, pair);
    }
}

/// No marker draw begins a pass.
proof fn lemma_marker_cmds_no_pass<S: Copy>(
    flat_key: ResourceKey,
    sphere_key: ResourceKey,
    camera: Camera<S>,
    lights: Seq<Light<S>>,
)
    ensures
        no_pass_cmds(marker_cmds_for(flat_key, sphere_key, camera, lights)),
    decreases lights.len(),
{
    if lights.len() == 0 {
    } else {
        lemma_marker_cmds_no_pass(flat_key, sphere_key, camera, lights.drop_last());
        let rest = marker_cmds_for(flat_key, sphere_key, camera, lights.drop_last());
        let six = seq![
            Cmd::<S>::UseProgram(flat_key),
            Cmd::SetMat4(UniformName::Proj, camera.spec_proj_source()),
            Cmd::SetMat4(UniformName::View, MatrixSource::View(camera.transform)),
            Cmd::SetMat4(UniformName::Model, MatrixSource::Model(lights.last().transform)),
            Cmd::SetVec3(UniformName::FlatColor, lights.last().color),
            Cmd::DrawMesh(sphere_key),
        ];
        assert(no_pass_cmds(six));
        lemma_no_pass_concat(rest, six);
    }
}

/// The frame protocol: a planned frame makes exactly three pass
/// transitions, geometry then lighting then tone mapping.
pub proof fn lemma_frame_pass_protocol<S: Copy>(
    renderer: Renderer<S>,
    res: Resources<S>,
    scene: Scene<S>,
    camera: Camera<S>,
)
    ensures
        pass_marks(frame_cmds(renderer, res, scene, camera)) == seq![
            PassKind::Geometry,
            PassKind::Lighting,
            PassKind::Tonemap,
        ],
{
    let g = geometry_prefix_cmds::<S>(renderer.window_width, renderer.window_height);
    let o = objects_cmds(scene.objects@, camera);
    let l = lighting_cmds(
        res.spec_programs().id_of("lightpass_program"@),
        camera,
        scene.lights@,
    );
    let mk = light_markers_cmds(res, camera, scene.lights@);
    let t = tonemap_cmds(
        res.spec_programs().id_of("tone_map_program"@),
        renderer.exposure_bias,
        renderer.white_point,
    );
    assert(pass_marks(g) =~= seq![PassKind::Geometry]) by {
        reveal_with_fuel(pass_marks, 6);
    }
    lemma_objects_cmds_no_pass(scene.objects@, camera);
    lemma_pass_marks_none(objects_cmds(scene.objects@, camera));
    let lk = res.spec_programs().id_of("lightpass_program"@);
    let head = seq![
        Cmd::<S>::BeginPass(PassKind::Lighting),
        Cmd::BindHdrTarget,
        Cmd::DisableDepthTest,
        Cmd::UseProgram(lk),
    ];
    let mid = gbuffer_bind_cmds::<S>() + seq![
        Cmd::<S>::SetVec3(UniformName::CamPos, camera.transform.translation),
    ] + lights_cmds(scene.lights@) + seq![Cmd::<S>::DrawScreenQuad];
    assert(l =~= head + mid);
    assert(pass_marks(head) =~= seq![PassKind::Lighting]) by {
        reveal_with_fuel(pass_marks, 5);
    }
    assert(no_pass_cmds(mid)) by {
        lemma_lights_cmds_no_pass(scene.lights@);
        let gb = gbuffer_bind_cmds::<S>();
        let cam = seq![Cmd::<S>::SetVec3(UniformName::CamPos, camera.transform.translation)];
        let quad = seq![Cmd::<S>::DrawScreenQuad];
        assert(no_pass_cmds(gb));
        assert(no_pass_cmds(cam));
        assert(no_pass_cmds(quad));
        lemma_no_pass_concat(gb, cam);
        lemma_no_pass_concat(gb + cam, lights_cmds(scene.lights@));
        lemma_no_pass_concat(gb + cam + lights_cmds(scene.lights@), quad);
    }
    lemma_pass_marks_none(mid);
    lemma_pass_marks_concat(head, mid);
    assert(pass_marks(l) =~= seq![PassKind::Lighting]);
    assert(pass_marks(t) =~= seq![PassKind::Tonemap]) by {
        reveal_with_fuel(pass_marks, 9);
    }
    assert(no_pass_cmds(mk)) by {
        if res.spec_programs().has_name("flat_program"@) && res.spec_meshes().has_name(
            "sphere"@,
        ) {
            lemma_marker_cmds_no_pass(
                res.spec_programs().id_of("flat_program"@),
                res.spec_meshes().id_of("sphere"@),
                camera,
                scene.lights@,
            );
        }
    }
    lemma_pass_marks_none(mk);
    lemma_pass_marks_concat(g, o);
    lemma_pass_marks_concat(g + o, l);
    lemma_pass_marks_concat(g + o + l, mk);
    lemma_pass_marks_concat(g + o + l + mk, t);
    assert(pass_marks(frame_cmds(renderer, res, scene, camera)) =~= seq![
        PassKind::Geometry,
        PassKind::Lighting,
        PassKind::Tonemap,
    ]);
}


/// Appends the geometry pass opening.
fn push_geometry_prefix<S: Copy>(cmds: &mut Vec<Cmd<S>>, width: u32, height: u32)
    ensures
        final(cmds)@ == old(cmds)@ + geometry_prefix_cmds::<S>(width, height),
{
    cmds.push(Cmd::BeginPass(PassKind::Geometry));
    cmds.push(Cmd::SetViewport { width, height });
    cmds.push(Cmd::BindGBuffer);
    cmds.push(Cmd::ClearColorAndDepth);
    cmds.push(Cmd::EnableDepthTest);
    proof {
        assert(cmds@ =~= old(cmds)@ + geometry_prefix_cmds::<S>(width, height));
    }
}

/// Appends the whole lighting pass.
fn push_lighting<S: Copy>(
    cmds: &mut Vec<Cmd<S>>,
    lightpass_key: ResourceKey,
    camera: &Camera<S>,
    lights: &Vec<Light<S>>,
)
    requires
        lights@.len() <= MAX_LIGHTS,
    ensures
        final(cmds)@ == old(cmds)@ + lighting_cmds(lightpass_key, *camera, lights@),
{
    cmds.push(Cmd::BeginPass(PassKind::Lighting));
    cmds.push(Cmd::BindHdrTarget);
    cmds.push(Cmd::DisableDepthTest);
    cmds.push(Cmd::UseProgram(lightpass_key));
    cmds.push(Cmd::BindGBufferTexture { unit: 0, attachment: AttachmentPoint::Color(0) });
    cmds.push(Cmd::SetInt(UniformName::GPosition, 0));
    cmds.push(Cmd::BindGBufferTexture { unit: 1, attachment: AttachmentPoint::Color(1) });
    cmds.push(Cmd::SetInt(UniformName::GNormal, 1));
    cmds.push(Cmd::BindGBufferTexture { unit: 2, attachment: AttachmentPoint::Color(2) });
    cmds.push(Cmd::SetInt(UniformName::GAlbedo, 2));
    cmds.push(Cmd::BindGBufferTexture { unit: 3, attachment: AttachmentPoint::Color(3) });
    cmds.push(Cmd::SetInt(UniformName::GMetallic, 3));
    cmds.push(Cmd::BindGBufferTexture { unit: 4, attachment: AttachmentPoint::Color(4) });
    cmds.push(Cmd::SetInt(UniformName::GRoughness, 4));
    cmds.push(Cmd::BindGBufferTexture { unit: 5, attachment: AttachmentPoint::Color(5) });
    cmds.push(Cmd::SetInt(UniformName::GAo, 5));
    cmds.push(Cmd::SetVec3(UniformName::CamPos, camera.transform.translation));
    let ghost g_pre_lights = cmds@;
    proof {
        assert(g_pre_lights =~= old(cmds)@ + seq![
            Cmd::<S>::BeginPass(PassKind::Lighting),
            Cmd::BindHdrTarget,
            Cmd::DisableDepthTest,
            Cmd::UseProgram(lightpass_key),
        ] + gbuffer_bind_cmds() + seq![
            Cmd::<S>::SetVec3(UniformName::CamPos, camera.transform.translation),
        ]);
    }

    let ln = lights.len();
    let mut li: usize = 0;
    while li < ln
        invariant
            ln == lights@.len(),
            ln <= MAX_LIGHTS,
            li <= ln,
            cmds@ == g_pre_lights + lights_cmds(lights@.take(li as int)),
        decreases ln - li,
    {
        let light = &lights[li];
        proof {
            assert(lights@.take(li + 1).drop_last() =~= lights@.take(li as int));
            assert(lights@.take(li + 1).last() == lights@[li as int]);
        }
        cmds.push(Cmd::SetVec3(UniformName::LightPosition(li as u32), light.transform.translation));
        cmds.push(Cmd::SetVec3(UniformName::LightColor(li as u32), light.color));
        proof {
            assert(cmds@ =~= g_pre_lights + lights_cmds(lights@.take(li + 1)));
        }
        li = li + 1;
    }
    proof {
        assert(lights@.take(ln as int) =~= lights@);
    }
    cmds.push(Cmd::DrawScreenQuad);
    proof {
        assert(cmds@ =~= old(cmds)@ + lighting_cmds(lightpass_key, *camera, lights@));
    }
}

/// Appends the whole tone-mapping pass.
fn push_tonemap<S: Copy>(
    cmds: &mut Vec<Cmd<S>>,
    tonemap_key: ResourceKey,
    exposure_bias: S,
    white_point: Vector3<S>,
)
    ensures
        final(cmds)@ == old(cmds)@ + tonemap_cmds(tonemap_key, exposure_bias, white_point),
{
    cmds.push(Cmd::BeginPass(PassKind::Tonemap));
    cmds.push(Cmd::BindDefaultFramebuffer);
    cmds.push(Cmd::UseProgram(tonemap_key));
    cmds.push(Cmd::BindHdrTexture { unit: 0 });
    cmds.push(Cmd::SetInt(UniformName::HdrTexture, 0));
    cmds.push(Cmd::SetFloat(UniformName::ExposureBias, exposure_bias));
    cmds.push(Cmd::SetVec3(UniformName::WhitePoint, white_point));
    cmds.push(Cmd::DrawScreenQuad);
    proof {
        assert(cmds@ =~= old(cmds)@ + tonemap_cmds(tonemap_key, exposure_bias, white_point));
    }
}

/// Appends the light markers, when their program and mesh are registered.
fn push_light_markers<S: Copy>(
    cmds: &mut Vec<Cmd<S>>,
    res: &Resources<S>,
    camera: &Camera<S>,
    lights: &Vec<Light<S>>,
)
    requires
        res.wf(),
    ensures
        final(cmds)@ == old(cmds)@ + light_markers_cmds(*res, *camera, lights@),
{
    let flat_key = match res.get_program_id_by_name("flat_program") {
        Ok(k) => k,
        Err(_) => {
            proof {
                assert(cmds@ =~= old(cmds)@ + light_markers_cmds(*res, *camera, lights@));
            }
            return ;
        },
    };
    let sphere_key = match res.get_mesh_id_by_name("sphere") {
        Ok(k) => k,
        Err(_) => {
            proof {
                assert(cmds@ =~= old(cmds)@ + light_markers_cmds(*res, *camera, lights@));
            }
            return ;
        },
    };
    let ghost base = cmds@;
    let ln = lights.len();
    let mut li: usize = 0;
    proof {
        assert(lights@.take(0) =~= Seq::<Light<S>>::empty());
    }
    while li < ln
        invariant
            ln == lights@.len(),
            li <= ln,
            cmds@ == base + marker_cmds_for(flat_key, sphere_key, *camera, lights@.take(li as int)),
        decreases ln - li,
    {
        let light = &lights[li];
        proof {
            assert(lights@.take(li + 1).drop_last() =~= lights@.take(li as int));
            assert(lights@.take(li + 1).last() == lights@[li as int]);
        }
        cmds.push(Cmd::UseProgram(flat_key));
        cmds.push(Cmd::SetMat4(UniformName::Proj, camera.proj_mat()));
        cmds.push(Cmd::SetMat4(UniformName::View, camera.view_mat()));
        cmds.push(Cmd::SetMat4(UniformName::Model, MatrixSource::Model(light.transform)));
        cmds.push(Cmd::SetVec3(UniformName::FlatColor, light.color));
        cmds.push(Cmd::DrawMesh(sphere_key));
        proof {
            assert(cmds@ =~= base + marker_cmds_for(
                flat_key,
                sphere_key,
                *camera,
                lights@.take(li + 1),
            ));
        }
        li = li + 1;
    }
    proof {
        assert(lights@.take(ln as int) =~= lights@);
    }
}

impl<S: Copy> Renderer<S> {
    /// A renderer for one window size, with its geometry buffer sized to
    /// match and the tone-mapping operator's two parameters fixed.
    pub fn new(window_width: u32, window_height: u32, exposure_bias: S, white_point: Vector3<S>)
        -> (r: Self)
        ensures
            r.window_width == window_width,
            r.window_height == window_height,
            r.gbuffer.wf(),
            r.gbuffer.fb_view().spec_width() == window_width,
            r.gbuffer.fb_view().spec_height() == window_height,
            r.exposure_bias == exposure_bias,
            r.white_point == white_point,
    {
        Renderer {
            window_width,
            window_height,
            gbuffer: GBuffer::new((window_width, window_height)),
            exposure_bias,
            white_point,
        }
    }

    /// Sizes the planner and its geometry buffer to a new window size.
    pub fn resize(&mut self, window_width: u32, window_height: u32)
        requires
            old(self).gbuffer.wf(),
        ensures
            final(self).window_width == window_width,
            final(self).window_height == window_height,
            final(self).gbuffer.wf(),
            final(self).gbuffer.fb_view().spec_width() == window_width,
            final(self).gbuffer.fb_view().spec_height() == window_height,
            final(self).exposure_bias == old(self).exposure_bias,
            final(self).white_point == old(self).white_point,
    {
        self.window_width = window_width;
        self.window_height = window_height;
        self.gbuffer.resize((window_width, window_height));
    }

    /// Plans one frame: geometry, lighting and tone-mapping passes in that
    /// order, as `frame_cmds` lays them out. Fails, planning nothing, on
    /// the first object that cannot be drawn, a light list over capacity,
    /// or a missing lighting or tone-mapping program.
    pub fn render(&self, res: &Resources<S>, scene: &Scene<S>, camera: &Camera<S>) -> (r: Result<
        Vec<Cmd<S>>,
        RenderError,
    >)
        requires
            res.wf(),
        ensures
            r is Ok <==> render_ok(*res, *scene),
            r matches Ok(cmds) ==> cmds@ == frame_cmds(*self, *res, *scene, *camera),
            r matches Ok(cmds) ==> pass_marks(cmds@) == seq![
                PassKind::Geometry,
                PassKind::Lighting,
                PassKind::Tonemap,
            ],
            r matches Err(e) ==> e == spec_render_error(*res, *scene),
    {
        let ghost g_prefix = geometry_prefix_cmds::<S>(self.window_width, self.window_height);
        let mut cmds: Vec<Cmd<S>> = Vec::new();
        push_geometry_prefix(&mut cmds, self.window_width, self.window_height);
        proof {
            assert(cmds@ =~= g_prefix);
        }

        let n = scene.objects.len();
        let mut i: usize = 0;
        while i < n
            invariant
                res.wf(),
                n == scene.objects@.len(),
                i <= n,
                forall|j: int| 0 <= j < i ==> (#[trigger] scene.objects@[j]).draw_ok(*res),
                cmds@ == g_prefix + objects_cmds(scene.objects@.take(i as int), *camera),
                g_prefix == geometry_prefix_cmds::<S>(self.window_width, self.window_height),
            decreases n - i,
        {
            match scene.objects[i].draw_commands(res, camera) {
                Ok(mut oc) => {
                    proof {
                        assert(scene.objects@.take(i + 1).drop_last() =~= scene.objects@.take(
                            i as int,
                        ));
                        assert(scene.objects@.take(i + 1).last() == scene.objects@[i as int]);
                    }
                    cmds.append(&mut oc);
                    proof {
                        assert(cmds@ =~= g_prefix + objects_cmds(
                            scene.objects@.take(i + 1),
                            *camera,
                        ));
                    }
                },
                Err(e) => {
                    proof {
                        lemma_first_object_error(scene.objects@, *res, i as int);
                    }
                    return Err(e);
                },
            }
            i = i + 1;
        }
        proof {
            assert(scene.objects@.take(n as int) =~= scene.objects@);
        }

        if scene.lights.len() > MAX_LIGHTS {
            return Err(RenderError::TooManyLights);
        }
        let lightpass_key = match res.get_program_id_by_name("lightpass_program") {
            Ok(k) => k,
            Err(_) => {
                return Err(RenderError::ResourceNotFound);
            },
        };
        let tonemap_key = match res.get_program_id_by_name("tone_map_program") {
            Ok(k) => k,
            Err(_) => {
                return Err(RenderError::ResourceNotFound);
            },
        };

        push_lighting(&mut cmds, lightpass_key, camera, &scene.lights);
        push_light_markers(&mut cmds, res, camera, &scene.lights);
        push_tonemap(&mut cmds, tonemap_key, self.exposure_bias, self.white_point);
        proof {
            assert(cmds@ == frame_cmds(*self, *res, *scene, *camera));
            lemma_frame_pass_protocol(*self, *res, *scene, *camera);
        }
        Ok(cmds)
    }

    /// Plans the optional overlay after a frame. Fails if the overlay
    /// program is not registered.
    pub fn overlay_commands(&self, res: &Resources<S>, resolution: Vector2<S>) -> (r: Result<
        Vec<Cmd<S>>,
        RenderError,
    >)
        requires
            res.wf(),
        ensures
            r is Ok <==> res.spec_programs().has_name("hud_program"@),
            r matches Ok(cmds) ==> cmds@ == overlay_cmds(
                res.spec_programs().id_of("hud_program"@),
                resolution,
            ),
            r matches Err(e) ==> e == RenderError::ResourceNotFound,
    {
        let hud_key = match res.get_program_id_by_name("hud_program") {
            Ok(k) => k,
            Err(_) => {
                return Err(RenderError::ResourceNotFound);
            },
        };
        let mut cmds: Vec<Cmd<S>> = Vec::new();
        cmds.push(Cmd::BeginPass(PassKind::Overlay));
        cmds.push(Cmd::UseProgram(hud_key));
        cmds.push(Cmd::SetVec2(UniformName::Resolution, resolution));
        cmds.push(Cmd::DrawScreenQuad);
        proof {
            assert(cmds@ =~= overlay_cmds(hud_key, resolution));
        }
        Ok(cmds)
    }
}

} // verus!
