//! Name-keyed resource table: each resource class stores its values in
//! registration order and keeps a name index on the side. Keys handed out at
//! registration stay valid for the life of the table (entries are never
//! removed), names are unique per class, and re-registering a name is a
//! reported error rather than an overwrite.

use vstd::prelude::*;
use crate::mesh::Mesh;
use crate::shader::Program;
use crate::texture::Texture;

verus! {

/// Failures of resource registration and lookup.
#[derive(Debug, Clone, Copy, PartialEq, Eq, Structural)]
pub enum Error {
    /// The key or name is not registered.
    ResourceNotFound,
    /// The name is already bound to a resource of this class.
    DuplicateResourceName,
}

/// Handle to a registered resource: its position in registration order.
pub type ResourceKey = usize;

/// One class of resources: the values in registration order, plus the
/// name-to-key bindings.
pub struct ResourceEntries<T> {
    entries: Vec<T>,
    name_map: Vec<(String, ResourceKey)>,
}

/// True when `a` and `b` hold the same characters.
fn str_eq(a: &String, b: &str) -> (r: bool)
    ensures
        r == (a@ == b@),
{
    *a == b.to_owned()
}

impl<T> ResourceEntries<T> {
    /// Names are bound at most once, and every binding points at an entry.
    pub closed spec fn wf(&self) -> bool {
        &&& forall|i: int, j: int|
            0 <= i < j < self.name_map@.len() ==> self.name_map@[i].0@ != self.name_map@[j].0@
        &&& forall|i: int| 0 <= i < self.name_map@.len() ==> self.name_map@[i].1 < self.entries@.len()
    }

    /// The stored resources, in registration order.
    pub closed spec fn resources(&self) -> Seq<T> {
        self.entries@
    }

    /// Whether some resource is registered under `name`.
    pub closed spec fn has_name(&self, name: Seq<char>) -> bool {
        exists|i: int| 0 <= i < self.name_map@.len() && self.name_map@[i].0@ == name
    }

    /// Position of `name`'s binding in the name index.
    pub closed spec fn name_index(&self, name: Seq<char>) -> int {
        choose|i: int| 0 <= i < self.name_map@.len() && self.name_map@[i].0@ == name
    }

    /// The key bound to `name`.
    pub closed spec fn id_of(&self, name: Seq<char>) -> ResourceKey {
        self.name_map@[self.name_index(name)].1
    }

    /// The name-to-key bindings, in registration order.
    pub closed spec fn name_bindings(&self) -> Seq<(String, ResourceKey)> {
        self.name_map@
    }

    pub fn new() -> (r: Self)
        ensures
            r.wf(),
            r.resources() == Seq::<T>::empty(),
            forall|name: Seq<char>| !r.has_name(name),
    {
        ResourceEntries { entries: Vec::new(), name_map: Vec::new() }
    }

    /// Registers a resource without a name; its key is returned.
    pub fn add_resource(&mut self, r: T) -> (k: ResourceKey)
        requires
            old(self).wf(),
        ensures
            final(self).wf(),
            final(self).resources() == old(self).resources().push(r),
            k == old(self).resources().len(),
            final(self).name_bindings() == old(self).name_bindings(),
            forall|name: Seq<char>| final(self).has_name(name) == old(self).has_name(name),
            forall|name: Seq<char>|
                old(self).has_name(name) ==> final(self).id_of(name) == old(self).id_of(name),
    {
        let k = self.entries.len();
        self.entries.push(r);
        k
    }

    /// Finds the key bound to `name`, if any.
    fn lookup(&self, name: &str) -> (r: Option<ResourceKey>)
        requires
            self.wf(),
        ensures
            r is Some <==> self.has_name(name@),
            r is Some ==> r->0 == self.id_of(name@) && r->0 < self.resources().len(),
    {
        let n = self.name_map.len();
        let mut i: usize = 0;
        while i < n
            invariant
                self.wf(),
                n == self.name_map@.len(),
                i <= n,
                forall|j: int| 0 <= j < i ==> self.name_map@[j].0@ != name@,
            decreases n - i,
        {
            if str_eq(&self.name_map[i].0, name) {
                proof {
                    assert(self.has_name(name@));
                    let j = self.name_index(name@);
                    assert(0 <= j < self.name_map@.len() && self.name_map@[j].0@ == name@);
                    assert(j == i);
                }
                return Some(self.name_map[i].1);
            }
            i = i + 1;
        }
        None
    }

    /// Registers a resource under `name`; fails if the name is taken,
    /// leaving the table unchanged.
    pub fn add_resource_by_name(&mut self, name: &str, res: T) -> (r: Result<ResourceKey, Error>)
        requires
            old(self).wf(),
        ensures
            final(self).wf(),
            old(self).has_name(name@) ==> r == Result::<ResourceKey, Error>::Err(
                Error::DuplicateResourceName,
            ) && *final(self) == *old(self),
            !old(self).has_name(name@) ==> {
                &&& r == Result::<ResourceKey, Error>::Ok(old(self).resources().len() as ResourceKey)
                &&& final(self).resources() == old(self).resources().push(res)
                &&& final(self).has_name(name@)
                &&& final(self).id_of(name@) == old(self).resources().len()
            },
            forall|other: Seq<char>|
                other != name@ ==> final(self).has_name(other) == old(self).has_name(other),
            forall|other: Seq<char>|
                other != name@ && old(self).has_name(other) ==> final(self).id_of(other) == old(
                    self,
                ).id_of(other),
    {
        if self.lookup(name).is_some() {
            return Err(Error::DuplicateResourceName);
        }
        let id = self.add_resource(res);
        self.name_map.push((name.to_owned(), id));
        proof {
            assert(self.name_map@.last().0@ == name@);
            assert(self.has_name(name@));
            assert forall|i: int, j: int|
                0 <= i < j < self.name_map@.len() implies self.name_map@[i].0@
                != self.name_map@[j].0@ by {
                if j == self.name_map@.len() - 1 {
                    assert(old(self).name_map@[i].0@ != name@);
                }
            }
            let k = self.name_index(name@);
            assert(0 <= k < self.name_map@.len() && self.name_map@[k].0@ == name@);
            assert(k == self.name_map@.len() - 1);
            assert forall|other: Seq<char>|
                other != name@ implies self.has_name(other) == old(self).has_name(other) by {
                if old(self).has_name(other) {
                    let w = old(self).name_index(other);
                    assert(self.name_map@[w].0@ == other);
                }
                if self.has_name(other) {
                    let w = self.name_index(other);
                    assert(self.name_map@[w].0@ == other);
                    assert(w < self.name_map@.len() - 1);
                    assert(old(self).name_map@[w].0@ == other);
                }
            }
            assert forall|other: Seq<char>|
                other != name@ && old(self).has_name(other) implies self.id_of(other) == old(
                self,
            ).id_of(other) by {
                let w_old = old(self).name_index(other);
                assert(old(self).name_map@[w_old].0@ == other);
                assert(self.name_map@[w_old].0@ == other);
                assert(self.has_name(other));
                let w_new = self.name_index(other);
                assert(self.name_map@[w_new].0@ == other);
                assert(w_new < self.name_map@.len() - 1);
                assert(w_new == w_old);
            }
        }
        Ok(id)
    }

    /// The resource registered under key `k`; fails if no resource has
    /// this key.
    pub fn get_resource(&self, k: ResourceKey) -> (r: Result<&T, Error>)
        ensures
            r is Ok <==> k < self.resources().len(),
            k < self.resources().len() ==> r == Result::<&T, Error>::Ok(&self.resources()[k as int]),
            r is Err ==> r == Result::<&T, Error>::Err(Error::ResourceNotFound),
    {
        match self.entries.get(k) {
            Some(t) => Ok(t),
            None => Err(Error::ResourceNotFound),
        }
    }

    /// The resource registered under `name`; fails if the name is unbound.
    pub fn get_resource_by_name(&self, name: &str) -> (r: Result<&T, Error>)
        requires
            self.wf(),
        ensures
            r is Ok <==> self.has_name(name@),
            self.has_name(name@) ==> r == Result::<&T, Error>::Ok(
                &self.resources()[self.id_of(name@) as int],
            ),
            r is Err ==> r == Result::<&T, Error>::Err(Error::ResourceNotFound),
    {
        match self.lookup(name) {
            Some(id) => Ok(&self.entries[id]),
            None => Err(Error::ResourceNotFound),
        }
    }

    /// The key bound to `name`; fails if the name is unbound.
    pub fn get_resource_id_by_name(&self, name: &str) -> (r: Result<ResourceKey, Error>)
        requires
            self.wf(),
        ensures
            r is Ok <==> self.has_name(name@),
            self.has_name(name@) ==> r == Result::<ResourceKey, Error>::Ok(self.id_of(name@))
                && self.id_of(name@) < self.resources().len(),
            r is Err ==> r == Result::<ResourceKey, Error>::Err(Error::ResourceNotFound),
    {
        match self.lookup(name) {
            Some(id) => Ok(id),
            None => Err(Error::ResourceNotFound),
        }
    }
}

/// What registering `res` under `name` leaves behind: on a fresh name the
/// next key and a table grown by one binding, on a taken name the duplicate
/// error and an unchanged table; other names keep their bindings either way.
pub open spec fn add_by_name_post<T>(
    pre: ResourceEntries<T>,
    post: ResourceEntries<T>,
    name: Seq<char>,
    res: T,
    r: Result<ResourceKey, Error>,
) -> bool {
    &&& post.wf()
    &&& (pre.has_name(name) ==> r == Result::<ResourceKey, Error>::Err(
        Error::DuplicateResourceName,
    ) && post == pre)
    &&& (!pre.has_name(name) ==> {
        &&& r == Result::<ResourceKey, Error>::Ok(pre.resources().len() as ResourceKey)
        &&& post.resources() == pre.resources().push(res)
        &&& post.has_name(name)
        &&& post.id_of(name) == pre.resources().len()
    })
    &&& forall|other: Seq<char>| other != name ==> post.has_name(other) == pre.has_name(other)
    &&& forall|other: Seq<char>|
        other != name && pre.has_name(other) ==> post.id_of(other) == pre.id_of(other)
}

/// Registering a resource under a fresh name succeeds, and looking that
/// name up afterwards returns exactly the resource that was registered.
pub proof fn lemma_register_then_lookup<T>(
    pre: ResourceEntries<T>,
    post: ResourceEntries<T>,
    name: Seq<char>,
    res: T,
    r: Result<ResourceKey, Error>,
)
    requires
        !pre.has_name(name),
        add_by_name_post(pre, post, name, res, r),
    ensures
        r == Result::<ResourceKey, Error>::Ok(pre.resources().len() as ResourceKey),
        post.has_name(name),
        post.resources()[post.id_of(name) as int] == res,
{
}

/// The resource tables of one scene: meshes, textures and shader programs,
/// each name-keyed within its own class.
pub struct Resources<S> {
    meshes: ResourceEntries<Mesh<S>>,
    textures: ResourceEntries<Texture>,
    programs: ResourceEntries<Program>,
}

impl<S> Resources<S> {
    pub closed spec fn spec_meshes(&self) -> ResourceEntries<Mesh<S>> {
        self.meshes
    }

    pub closed spec fn spec_textures(&self) -> ResourceEntries<Texture> {
        self.textures
    }

    pub closed spec fn spec_programs(&self) -> ResourceEntries<Program> {
        self.programs
    }

    pub open spec fn wf(&self) -> bool {
        self.spec_meshes().wf() && self.spec_textures().wf() && self.spec_programs().wf()
    }

    pub fn new() -> (r: Self)
        ensures
            r.wf(),
            r.spec_meshes().resources() == Seq::<Mesh<S>>::empty(),
            r.spec_textures().resources() == Seq::<Texture>::empty(),
            r.spec_programs().resources() == Seq::<Program>::empty(),
            forall|name: Seq<char>| !r.spec_meshes().has_name(name),
            forall|name: Seq<char>| !r.spec_textures().has_name(name),
            forall|name: Seq<char>| !r.spec_programs().has_name(name),
    {
        Resources {
            meshes: ResourceEntries::new(),
            textures: ResourceEntries::new(),
            programs: ResourceEntries::new(),
        }
    }

    pub fn add_mesh(&mut self, mesh: Mesh<S>) -> (k: ResourceKey)
        requires
            old(self).wf(),
        ensures
            final(self).wf(),
            final(self).spec_textures() == old(self).spec_textures(),
            final(self).spec_programs() == old(self).spec_programs(),
            final(self).spec_meshes().resources() == old(self).spec_meshes().resources().push(mesh),
            k == old(self).spec_meshes().resources().len(),
            final(self).spec_meshes().name_bindings() == old(self).spec_meshes().name_bindings(),
            forall|name: Seq<char>|
                final(self).spec_meshes().has_name(name) == old(self).spec_meshes().has_name(name),
            forall|name: Seq<char>|
                old(self).spec_meshes().has_name(name) ==> final(self).spec_meshes().id_of(name)
                    == old(self).spec_meshes().id_of(name),
    {
        self.meshes.add_resource(mesh)
    }

    pub fn add_mesh_by_name(&mut self, name: &str, mesh: Mesh<S>) -> (r: Result<ResourceKey, Error>)
        requires
            old(self).wf(),
        ensures
            final(self).wf(),
            final(self).spec_textures() == old(self).spec_textures(),
            final(self).spec_programs() == old(self).spec_programs(),
            add_by_name_post(old(self).spec_meshes(), final(self).spec_meshes(), name@, mesh, r),
    {
        self.meshes.add_resource_by_name(name, mesh)
    }

    pub fn get_mesh(&self, id: ResourceKey) -> (r: Result<&Mesh<S>, Error>)
        ensures
            r is Ok <==> id < self.spec_meshes().resources().len(),
            id < self.spec_meshes().resources().len() ==> r == Result::<&Mesh<S>, Error>::Ok(
                &self.spec_meshes().resources()[id as int],
            ),
            r is Err ==> r == Result::<&Mesh<S>, Error>::Err(Error::ResourceNotFound),
    {
        self.meshes.get_resource(id)
    }

    pub fn get_mesh_by_name(&self, name: &str) -> (r: Result<&Mesh<S>, Error>)
        requires
            self.wf(),
        ensures
            r is Ok <==> self.spec_meshes().has_name(name@),
            self.spec_meshes().has_name(name@) ==> r == Result::<&Mesh<S>, Error>::Ok(
                &self.spec_meshes().resources()[self.spec_meshes().id_of(name@) as int],
            ),
            r is Err ==> r == Result::<&Mesh<S>, Error>::Err(Error::ResourceNotFound),
    {
        self.meshes.get_resource_by_name(name)
    }

    pub fn get_mesh_id_by_name(&self, name: &str) -> (r: Result<ResourceKey, Error>)
        requires
            self.wf(),
        ensures
            r is Ok <==> self.spec_meshes().has_name(name@),
            self.spec_meshes().has_name(name@) ==> r == Result::<ResourceKey, Error>::Ok(
                self.spec_meshes().id_of(name@),
            ) && self.spec_meshes().id_of(name@) < self.spec_meshes().resources().len(),
            r is Err ==> r == Result::<ResourceKey, Error>::Err(Error::ResourceNotFound),
    {
        self.meshes.get_resource_id_by_name(name)
    }

    pub fn add_texture(&mut self, texture: Texture) -> (k: ResourceKey)
        requires
            old(self).wf(),
        ensures
            final(self).wf(),
            final(self).spec_meshes() == old(self).spec_meshes(),
            final(self).spec_programs() == old(self).spec_programs(),
            final(self).spec_textures().resources() == old(self).spec_textures().resources().push(
                texture,
            ),
            k == old(self).spec_textures().resources().len(),
            final(self).spec_textures().name_bindings() == old(self).spec_textures().name_bindings(),
            forall|name: Seq<char>|
                final(self).spec_textures().has_name(name) == old(self).spec_textures().has_name(
                    name,
                ),
            forall|name: Seq<char>|
                old(self).spec_textures().has_name(name) ==> final(self).spec_textures().id_of(name)
                    == old(self).spec_textures().id_of(name),
    {
        self.textures.add_resource(texture)
    }

    pub fn add_texture_by_name(&mut self, name: &str, texture: Texture) -> (r: Result<
        ResourceKey,
        Error,
    >)
        requires
            old(self).wf(),
        ensures
            final(self).wf(),
            final(self).spec_meshes() == old(self).spec_meshes(),
            final(self).spec_programs() == old(self).spec_programs(),
            add_by_name_post(
                old(self).spec_textures(),
                final(self).spec_textures(),
                name@,
                texture,
                r,
            ),
    {
        self.textures.add_resource_by_name(name, texture)
    }

    pub fn get_texture(&self, id: ResourceKey) -> (r: Result<&Texture, Error>)
        ensures
            r is Ok <==> id < self.spec_textures().resources().len(),
            id < self.spec_textures().resources().len() ==> r == Result::<&Texture, Error>::Ok(
                &self.spec_textures().resources()[id as int],
            ),
            r is Err ==> r == Result::<&Texture, Error>::Err(Error::ResourceNotFound),
    {
        self.textures.get_resource(id)
    }

    pub fn get_texture_by_name(&self, name: &str) -> (r: Result<&Texture, Error>)
        requires
            self.wf(),
        ensures
            r is Ok <==> self.spec_textures().has_name(name@),
            self.spec_textures().has_name(name@) ==> r == Result::<&Texture, Error>::Ok(
                &self.spec_textures().resources()[self.spec_textures().id_of(name@) as int],
            ),
            r is Err ==> r == Result::<&Texture, Error>::Err(Error::ResourceNotFound),
    {
        self.textures.get_resource_by_name(name)
    }

    pub fn get_texture_id_by_name(&self, name: &str) -> (r: Result<ResourceKey, Error>)
        requires
            self.wf(),
        ensures
            r is Ok <==> self.spec_textures().has_name(name@),
            self.spec_textures().has_name(name@) ==> r == Result::<ResourceKey, Error>::Ok(
                self.spec_textures().id_of(name@),
            ) && self.spec_textures().id_of(name@) < self.spec_textures().resources().len(),
            r is Err ==> r == Result::<ResourceKey, Error>::Err(Error::ResourceNotFound),
    {
        self.textures.get_resource_id_by_name(name)
    }

    pub fn add_program(&mut self, program: Program) -> (k: ResourceKey)
        requires
            old(self).wf(),
        ensures
            final(self).wf(),
            final(self).spec_meshes() == old(self).spec_meshes(),
            final(self).spec_textures() == old(self).spec_textures(),
            final(self).spec_programs().resources() == old(self).spec_programs().resources().push(
                program,
            ),
            k == old(self).spec_programs().resources().len(),
            final(self).spec_programs().name_bindings() == old(self).spec_programs().name_bindings(),
            forall|name: Seq<char>|
                final(self).spec_programs().has_name(name) == old(self).spec_programs().has_name(
                    name,
                ),
            forall|name: Seq<char>|
                old(self).spec_programs().has_name(name) ==> final(self).spec_programs().id_of(name)
                    == old(self).spec_programs().id_of(name),
    {
        self.programs.add_resource(program)
    }

    pub fn add_program_by_name(&mut self, name: &str, program: Program) -> (r: Result<
        ResourceKey,
        Error,
    >)
        requires
            old(self).wf(),
        ensures
            final(self).wf(),
            final(self).spec_meshes() == old(self).spec_meshes(),
            final(self).spec_textures() == old(self).spec_textures(),
            add_by_name_post(
                old(self).spec_programs(),
                final(self).spec_programs(),
                name@,
                program,
                r,
            ),
    {
        self.programs.add_resource_by_name(name, program)
    }

    pub fn get_program(&self, id: ResourceKey) -> (r: Result<&Program, Error>)
        ensures
            r is Ok <==> id < self.spec_programs().resources().len(),
            id < self.spec_programs().resources().len() ==> r == Result::<&Program, Error>::Ok(
                &self.spec_programs().resources()[id as int],
            ),
            r is Err ==> r == Result::<&Program, Error>::Err(Error::ResourceNotFound),
    {
        self.programs.get_resource(id)
    }

    pub fn get_program_by_name(&self, name: &str) -> (r: Result<&Program, Error>)
        requires
            self.wf(),
        ensures
            r is Ok <==> self.spec_programs().has_name(name@),
            self.spec_programs().has_name(name@) ==> r == Result::<&Program, Error>::Ok(
                &self.spec_programs().resources()[self.spec_programs().id_of(name@) as int],
            ),
            r is Err ==> r == Result::<&Program, Error>::Err(Error::ResourceNotFound),
    {
        self.programs.get_resource_by_name(name)
    }

    pub fn get_program_id_by_name(&self, name: &str) -> (r: Result<ResourceKey, Error>)
        requires
            self.wf(),
        ensures
            r is Ok <==> self.spec_programs().has_name(name@),
            self.spec_programs().has_name(name@) ==> r == Result::<ResourceKey, Error>::Ok(
                self.spec_programs().id_of(name@),
            ) && self.spec_programs().id_of(name@) < self.spec_programs().resources().len(),
            r is Err ==> r == Result::<ResourceKey, Error>::Err(Error::ResourceNotFound),
    {
        self.programs.get_resource_id_by_name(name)
    }
}

} // verus!
