use deferred::vertex::{
    get_attribute_type_num_components,
    get_attribute_type_size,
    AttributeType,
    Vertex,
    VertexLayout,
};

#[test]
fn attribute_sizes_and_components() {
    assert_eq!(get_attribute_type_size(&AttributeType::Position2D), 8);
    assert_eq!(get_attribute_type_size(&AttributeType::Position3D), 12);
    assert_eq!(get_attribute_type_size(&AttributeType::Color), 12);
    assert_eq!(get_attribute_type_size(&AttributeType::Normal3D), 12);
    assert_eq!(get_attribute_type_size(&AttributeType::ST), 8);
    assert_eq!(get_attribute_type_num_components(&AttributeType::Position2D), 2);
    assert_eq!(get_attribute_type_num_components(&AttributeType::Position3D), 3);
    assert_eq!(get_attribute_type_num_components(&AttributeType::Color), 3);
    assert_eq!(get_attribute_type_num_components(&AttributeType::Normal3D), 3);
    assert_eq!(get_attribute_type_num_components(&AttributeType::ST), 2);
}

#[test]
fn standard_layout_totals() {
    let layout = VertexLayout::new(vec![
        AttributeType::Position3D,
        AttributeType::Normal3D,
        AttributeType::ST,
    ]);
    assert_eq!(layout.get_num_components(), 8);
    assert_eq!(layout.get_stride(), 32);
    assert_eq!(layout.get_width(), 32);
}

#[test]
fn offsets_accumulate_in_order() {
    let layout = VertexLayout::new(vec![
        AttributeType::Position3D,
        AttributeType::Normal3D,
        AttributeType::ST,
    ]);
    assert_eq!(layout.get_offset(0), 0);
    assert_eq!(layout.get_offset(1), 12);
    assert_eq!(layout.get_offset(2), 24);
}

#[test]
fn attrib_pointers_describe_every_slot() {
    let layout = VertexLayout::new(vec![AttributeType::Position2D, AttributeType::ST]);
    let ptrs = layout.attrib_pointers();
    assert_eq!(ptrs.len(), 2);
    assert_eq!((ptrs[0].index, ptrs[0].num_components, ptrs[0].stride, ptrs[0].offset), (0, 2, 16, 0));
    assert_eq!((ptrs[1].index, ptrs[1].num_components, ptrs[1].stride, ptrs[1].offset), (1, 2, 16, 8));
}

#[test]
fn vertex_count_divides_by_components() {
    let layout = VertexLayout::new(vec![AttributeType::Position2D, AttributeType::ST]);
    let data: Vec<f32> = vec![0.0; 16];
    let v = Vertex::new(data, vec![0, 1, 2, 2, 3, 1], layout);
    assert_eq!(v.get_num_vertices(), 4);
}

#[test]
fn empty_layout_is_all_zero() {
    let layout = VertexLayout::new(Vec::new());
    assert_eq!(layout.get_num_components(), 0);
    assert_eq!(layout.get_stride(), 0);
    assert_eq!(layout.get_width(), 0);
    assert_eq!(layout.attrib_pointers().len(), 0);
}
