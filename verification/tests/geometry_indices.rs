use deferred::framebuffer::{AttachmentPoint, Framebuffer, GBuffer, TexelFormat};
use deferred::geo::{gen_grid_indices, gen_lathe_indices};

#[test]
fn one_cell_grid_is_two_triangles() {
    assert_eq!(gen_grid_indices(1, 1), vec![0, 1, 2, 2, 3, 1]);
}

#[test]
fn two_by_one_grid_shares_its_middle_column() {
    assert_eq!(
        gen_grid_indices(2, 1),
        vec![0, 1, 3, 3, 4, 1, 1, 2, 4, 4, 5, 2]
    );
}

#[test]
fn grid_indices_stay_inside_the_vertex_grid() {
    let w = 7usize;
    let h = 5usize;
    let indices = gen_grid_indices(w, h);
    assert_eq!(indices.len(), 6 * w * h);
    let vertex_count = ((w + 1) * (h + 1)) as i32;
    assert!(indices.iter().all(|&i| 0 <= i && i < vertex_count));
}

#[test]
fn lathe_seam_wraps_to_the_first_column() {
    assert_eq!(
        gen_lathe_indices(3, 1),
        vec![0, 1, 3, 3, 4, 1, 1, 2, 4, 4, 5, 2, 2, 0, 5, 5, 3, 0]
    );
}

#[test]
fn lathe_indices_stay_inside_the_vertex_rings() {
    let segments = 12usize;
    let rings = 6usize;
    let indices = gen_lathe_indices(segments, rings);
    assert_eq!(indices.len(), 6 * segments * rings);
    let vertex_count = (segments * (rings + 1)) as i32;
    assert!(indices.iter().all(|&i| 0 <= i && i < vertex_count));
}

#[test]
fn gbuffer_holds_six_color_attachments_and_depth() {
    let g = GBuffer::new((640, 480));
    assert_eq!(g.get_position(), AttachmentPoint::Color(0));
    assert_eq!(g.get_normal(), AttachmentPoint::Color(1));
    assert_eq!(g.get_albedo(), AttachmentPoint::Color(2));
    assert_eq!(g.get_metallic(), AttachmentPoint::Color(3));
    assert_eq!(g.get_roughness(), AttachmentPoint::Color(4));
    assert_eq!(g.get_ao(), AttachmentPoint::Color(5));
    assert_eq!(g.get_depth(), AttachmentPoint::Depth);
}

#[test]
fn gbuffer_resize_changes_its_dimensions() {
    let mut g = GBuffer::new((640, 480));
    assert_eq!(g.dimensions(), (640, 480));
    g.resize((1920, 1080));
    assert_eq!(g.dimensions(), (1920, 1080));
}

#[test]
fn framebuffer_reports_attachment_formats() {
    let fb = Framebuffer::create_with_attachments(
        vec![
            (AttachmentPoint::Color(0), TexelFormat::RgbaF32),
            (AttachmentPoint::Depth, TexelFormat::DepthComponent),
        ],
        (320, 200),
    );
    assert_eq!(fb.get_attachment(AttachmentPoint::Color(0)), Some(TexelFormat::RgbaF32));
    assert_eq!(fb.get_attachment(AttachmentPoint::Depth), Some(TexelFormat::DepthComponent));
    assert_eq!(fb.get_attachment(AttachmentPoint::Color(1)), None);
}
