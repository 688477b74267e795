use deferred::mesh::Mesh;
use deferred::resources::{Error, ResourceEntries, Resources};
use deferred::shader::Program;
use deferred::texture::Texture;
use deferred::framebuffer::TexelFormat;
use deferred::vertex::{AttributeType, Vertex, VertexLayout};

fn mesh_with_sentinel(sentinel: f32) -> Mesh<f32> {
    let layout = VertexLayout::new(vec![AttributeType::Position3D]);
    Mesh::new(Vertex::new(vec![sentinel, 0.0, 0.0], vec![0], layout))
}

#[test]
fn registered_mesh_comes_back_exactly() {
    let mut res: Resources<f32> = Resources::new();
    let key = res
        .add_mesh_by_name("cube", mesh_with_sentinel(42.5))
        .unwrap();
    let by_key = res.get_mesh(key).unwrap();
    assert_eq!(by_key.vertex.vertices[0], 42.5);
    let by_name = res.get_mesh_by_name("cube").unwrap();
    assert_eq!(by_name.vertex.vertices[0], 42.5);
    assert_eq!(res.get_mesh_id_by_name("cube").unwrap(), key);
}

#[test]
fn duplicate_mesh_name_is_rejected() {
    let mut res: Resources<f32> = Resources::new();
    res.add_mesh_by_name("cube", mesh_with_sentinel(1.0)).unwrap();
    let second = res.add_mesh_by_name("cube", mesh_with_sentinel(2.0));
    assert_eq!(second, Err(Error::DuplicateResourceName));
    // the first registration is untouched
    assert_eq!(res.get_mesh_by_name("cube").unwrap().vertex.vertices[0], 1.0);
}

#[test]
fn unregistered_name_is_not_found() {
    let res: Resources<f32> = Resources::new();
    assert_eq!(res.get_mesh_by_name("missing").err(), Some(Error::ResourceNotFound));
    assert_eq!(res.get_texture_by_name("missing").err(), Some(Error::ResourceNotFound));
    assert_eq!(res.get_program_by_name("missing").err(), Some(Error::ResourceNotFound));
    assert_eq!(res.get_program_id_by_name("missing").err(), Some(Error::ResourceNotFound));
}

#[test]
fn unregistered_key_is_not_found() {
    let mut res: Resources<f32> = Resources::new();
    assert_eq!(res.get_program(0).err(), Some(Error::ResourceNotFound));
    res.add_program(Program::new(7));
    assert!(res.get_program(0).is_ok());
    assert_eq!(res.get_program(1).err(), Some(Error::ResourceNotFound));
}

#[test]
fn keys_follow_registration_order() {
    let mut entries: ResourceEntries<u32> = ResourceEntries::new();
    let a = entries.add_resource(10);
    let b = entries.add_resource_by_name("second", 20).unwrap();
    let c = entries.add_resource(30);
    assert_eq!((a, b, c), (0, 1, 2));
    assert_eq!(*entries.get_resource(0).unwrap(), 10);
    assert_eq!(*entries.get_resource_by_name("second").unwrap(), 20);
    assert_eq!(entries.get_resource_id_by_name("second").unwrap(), 1);
    assert_eq!(*entries.get_resource(2).unwrap(), 30);
}

#[test]
fn classes_are_independent() {
    let mut res: Resources<f32> = Resources::new();
    res.add_program_by_name("shared_name", Program::new(1)).unwrap();
    let t = Texture::create_with_data(3, TexelFormat::Rgba8, (2, 2), vec![0; 16]);
    // the same name is free in another class
    assert!(res.add_texture_by_name("shared_name", t).is_ok());
    assert_eq!(res.get_texture_by_name("shared_name").unwrap().handle, 3);
}
