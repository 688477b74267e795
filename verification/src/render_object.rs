//! One drawable of the scene: a placement, a shader program, a mesh and a
//! material, the latter two held by resource key. Drawing it plans the
//! program's shader state followed by the mesh's draw.

use vstd::prelude::*;
use crate::camera::Camera;
use crate::command::{Cmd, RenderError};
use crate::material::{
    bind_cmds,
    material_keys_ok,
    material_mode_ok,
    spec_bind_error,
    Material,
};
use crate::resources::{Error, ResourceKey, Resources};
use crate::transform::Transform;

verus! {

#[derive(Debug, Clone, Copy)]
pub struct RenderObject<S> {
    pub transform: Transform<S>,
    pub program_key: ResourceKey,
    pub mesh_key: ResourceKey,
    pub material: Material<S>,
}

impl<S: Copy> RenderObject<S> {
    /// Whether one draw of this object can be planned against `res`: its
    /// program, mesh and material textures are registered and its material
    /// modes are handled.
    pub open spec fn draw_ok(self, res: Resources<S>) -> bool {
        &&& self.program_key < res.spec_programs().resources().len()
        &&& material_mode_ok(self.material)
        &&& material_keys_ok(self.material, res)
        &&& self.mesh_key < res.spec_meshes().resources().len()
    }

    /// The commands of one draw: the material's shader state, then the
    /// mesh draw.
    pub open spec fn draw_cmds(self, camera: Camera<S>) -> Seq<Cmd<S>> {
        bind_cmds(self.material, self.program_key, self.transform, camera) + seq![
            Cmd::DrawMesh(self.mesh_key),
        ]
    }

    /// Which error a failed draw plan reports: the material binder's error,
    /// or a missing mesh found after binding.
    pub open spec fn draw_error(self, res: Resources<S>) -> RenderError {
        if !(self.program_key < res.spec_programs().resources().len() && material_mode_ok(
            self.material,
        ) && material_keys_ok(self.material, res)) {
            spec_bind_error(self.material, self.program_key, res)
        } else {
            RenderError::ResourceNotFound
        }
    }

    /// Builds an object from program and mesh names; fails if either name
    /// is unregistered.
    pub fn new(
        res: &Resources<S>,
        transform: Transform<S>,
        program_name: &str,
        mesh_name: &str,
        material: Material<S>,
    ) -> (r: Result<Self, Error>)
        requires
            res.wf(),
        ensures
            r is Ok <==> res.spec_programs().has_name(program_name@) && res.spec_meshes().has_name(
                mesh_name@,
            ),
            r matches Ok(obj) ==> {
                &&& obj.transform == transform
                &&& obj.program_key == res.spec_programs().id_of(program_name@)
                &&& obj.mesh_key == res.spec_meshes().id_of(mesh_name@)
                &&& obj.material == material
                &&& obj.program_key < res.spec_programs().resources().len()
                &&& obj.mesh_key < res.spec_meshes().resources().len()
            },
            r is Err ==> r == Result::<Self, Error>::Err(Error::ResourceNotFound),
    {
        let program_key = match res.get_program_id_by_name(program_name) {
            Ok(k) => k,
            Err(e) => {
                return Err(e);
            },
        };
        let mesh_key = match res.get_mesh_id_by_name(mesh_name) {
            Ok(k) => k,
            Err(e) => {
                return Err(e);
            },
        };
        Ok(RenderObject { transform, program_key, mesh_key, material })
    }

    /// Plans one draw of this object. Fails, planning nothing, if the
    /// program, mesh or a material texture is unregistered or a material
    /// mode is unhandled.
    pub fn draw_commands(&self, res: &Resources<S>, camera: &Camera<S>) -> (r: Result<
        Vec<Cmd<S>>,
        RenderError,
    >)
        ensures
            r is Ok <==> self.draw_ok(*res),
            r matches Ok(cmds) ==> cmds@ == self.draw_cmds(*camera),
            r matches Err(e) ==> e == self.draw_error(*res),
    {
        let mut cmds = match self.material.bind(res, self.program_key, &self.transform, camera) {
            Ok(c) => c,
            Err(e) => {
                return Err(e);
            },
        };
        if res.get_mesh(self.mesh_key).is_err() {
            return Err(RenderError::ResourceNotFound);
        }
        cmds.push(Cmd::DrawMesh(self.mesh_key));
        proof {
            assert(cmds@ =~= self.draw_cmds(*camera));
        }
        Ok(cmds)
    }
}

} // verus!
