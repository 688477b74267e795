//! Offscreen render targets, modelled as data: which attachment points carry
//! which texel formats, and the fixed geometry-buffer arrangement the
//! deferred pipeline writes.

use vstd::prelude::*;

verus! {

/// Where a texture hangs on a framebuffer.
#[derive(Debug, Clone, Copy, PartialEq, Eq, Hash, Structural)]
pub enum AttachmentPoint {
    Color(u32),
    Depth,
}

/// Per-texel storage of an attachment or texture.
#[derive(Debug, Clone, Copy, PartialEq, Eq, Structural)]
pub enum TexelFormat {
    /// Four-channel 32-bit float: an unbounded (HDR) color target.
    RgbaF32,
    /// One 32-bit float channel.
    RedF32,
    /// Depth storage.
    DepthComponent,
    /// Four 8-bit channels, for loaded image data.
    Rgba8,
    /// Three 16-bit channels, for loaded image data.
    Rgb16,
}

/// A render target: its attachments and their formats, and its size.
#[derive(Debug)]
pub struct Framebuffer {
    attachments: Vec<(AttachmentPoint, TexelFormat)>,
    width: u32,
    height: u32,
}

impl Framebuffer {
    /// The attachments, in creation order.
    pub closed spec fn attachments_view(&self) -> Seq<(AttachmentPoint, TexelFormat)> {
        self.attachments@
    }

    pub closed spec fn spec_width(&self) -> u32 {
        self.width
    }

    pub closed spec fn spec_height(&self) -> u32 {
        self.height
    }

    /// Whether some attachment hangs at `p`.
    pub open spec fn has_attachment(&self, p: AttachmentPoint) -> bool {
        exists|i: int| 0 <= i < self.attachments_view().len() && self.attachments_view()[i].0 == p
    }

    /// The format of the first attachment at `p`.
    pub open spec fn attachment_format(&self, p: AttachmentPoint) -> TexelFormat {
        self.attachments_view()[self.first_attachment_index(p)].1
    }

    /// Position of the first attachment at `p`.
    pub open spec fn first_attachment_index(&self, p: AttachmentPoint) -> int {
        choose|i: int|
            0 <= i < self.attachments_view().len() && self.attachments_view()[i].0 == p && forall|
                j: int,
            | 0 <= j < i ==> self.attachments_view()[j].0 != p
    }

    pub fn create_with_attachments(
        attachments: Vec<(AttachmentPoint, TexelFormat)>,
        dimensions: (u32, u32),
    ) -> (r: Self)
        ensures
            r.attachments_view() == attachments@,
            r.spec_width() == dimensions.0,
            r.spec_height() == dimensions.1,
    {
        Framebuffer { attachments, width: dimensions.0, height: dimensions.1 }
    }

    /// The format at attachment point `p`, if anything hangs there.
    pub fn get_attachment(&self, p: AttachmentPoint) -> (r: Option<TexelFormat>)
        ensures
            r is Some <==> self.has_attachment(p),
            self.has_attachment(p) ==> r == Some(self.attachment_format(p)),
    {
        let n = self.attachments.len();
        let mut i: usize = 0;
        while i < n
            invariant
                n == self.attachments@.len(),
                i <= n,
                forall|j: int| 0 <= j < i ==> self.attachments@[j].0 != p,
            decreases n - i,
        {
            if self.attachments[i].0 == p {
                proof {
                    assert(self.has_attachment(p));
                    assert(0 <= i < self.attachments@.len() && self.attachments@[i as int].0 == p
                        && forall|j: int| 0 <= j < i ==> self.attachments@[j].0 != p);
                    let k = self.first_attachment_index(p);
                    assert(0 <= k < self.attachments@.len() && self.attachments@[k].0 == p
                        && forall|j: int| 0 <= j < k ==> self.attachments@[j].0 != p);
                    assert(k == i);
                }
                return Some(self.attachments[i].1);
            }
            i = i + 1;
        }
        None
    }

    pub fn resize(&mut self, dimensions: (u32, u32))
        ensures
            final(self).attachments_view() == old(self).attachments_view(),
            final(self).spec_width() == dimensions.0,
            final(self).spec_height() == dimensions.1,
    {
        self.width = dimensions.0;
        self.height = dimensions.1;
    }

    pub fn dimensions(&self) -> (r: (u32, u32))
        ensures
            r.0 == self.spec_width(),
            r.1 == self.spec_height(),
    {
        (self.width, self.height)
    }
}

/// The geometry buffer: six color attachments — per-pixel position, normal
/// and albedo as HDR float targets, then metallic, roughness and ambient
/// occlusion as single-float targets — plus depth.
#[derive(Debug)]
pub struct GBuffer {
    fb: Framebuffer,
}

/// The fixed attachment arrangement of the geometry buffer.
pub open spec fn gbuffer_attachments() -> Seq<(AttachmentPoint, TexelFormat)> {
    seq![
        (AttachmentPoint::Color(0), TexelFormat::RgbaF32),
        (AttachmentPoint::Color(1), TexelFormat::RgbaF32),
        (AttachmentPoint::Color(2), TexelFormat::RgbaF32),
        (AttachmentPoint::Color(3), TexelFormat::RedF32),
        (AttachmentPoint::Color(4), TexelFormat::RedF32),
        (AttachmentPoint::Color(5), TexelFormat::RedF32),
        (AttachmentPoint::Depth, TexelFormat::DepthComponent),
    ]
}

impl GBuffer {
    pub closed spec fn fb_view(&self) -> Framebuffer {
        self.fb
    }

    pub open spec fn wf(&self) -> bool {
        self.fb_view().attachments_view() == gbuffer_attachments()
    }

    pub fn new(dimensions: (u32, u32)) -> (r: Self)
        ensures
            r.wf(),
            r.fb_view().spec_width() == dimensions.0,
            r.fb_view().spec_height() == dimensions.1,
    {
        let attachments: Vec<(AttachmentPoint, TexelFormat)> = vec![
            (AttachmentPoint::Color(0), TexelFormat::RgbaF32),
            (AttachmentPoint::Color(1), TexelFormat::RgbaF32),
            (AttachmentPoint::Color(2), TexelFormat::RgbaF32),
            (AttachmentPoint::Color(3), TexelFormat::RedF32),
            (AttachmentPoint::Color(4), TexelFormat::RedF32),
            (AttachmentPoint::Color(5), TexelFormat::RedF32),
            (AttachmentPoint::Depth, TexelFormat::DepthComponent),
        ];
        proof {
            assert(attachments@ =~= gbuffer_attachments());
        }
        GBuffer { fb: Framebuffer::create_with_attachments(attachments, dimensions) }
    }

    pub fn resize(&mut self, dimensions: (u32, u32))
        requires
            old(self).wf(),
        ensures
            final(self).wf(),
            final(self).fb_view().spec_width() == dimensions.0,
            final(self).fb_view().spec_height() == dimensions.1,
    {
        self.fb.resize(dimensions);
    }

    pub fn dimensions(&self) -> (r: (u32, u32))
        ensures
            r.0 == self.fb_view().spec_width(),
            r.1 == self.fb_view().spec_height(),
    {
        self.fb.dimensions()
    }

    /// The attachment sampled for per-pixel world position.
    pub fn get_position(&self) -> (r: AttachmentPoint)
        ensures
            r == AttachmentPoint::Color(0),
    {
        AttachmentPoint::Color(0)
    }

    /// The attachment sampled for per-pixel normals.
    pub fn get_normal(&self) -> (r: AttachmentPoint)
        ensures
            r == AttachmentPoint::Color(1),
    {
        AttachmentPoint::Color(1)
    }

    /// The attachment sampled for per-pixel albedo.
    pub fn get_albedo(&self) -> (r: AttachmentPoint)
        ensures
            r == AttachmentPoint::Color(2),
    {
        AttachmentPoint::Color(2)
    }

    /// The attachment sampled for per-pixel metallic.
    pub fn get_metallic(&self) -> (r: AttachmentPoint)
        ensures
            r == AttachmentPoint::Color(3),
    {
        AttachmentPoint::Color(3)
    }

    /// The attachment sampled for per-pixel roughness.
    pub fn get_roughness(&self) -> (r: AttachmentPoint)
        ensures
            r == AttachmentPoint::Color(4),
    {
        AttachmentPoint::Color(4)
    }

    /// The attachment sampled for per-pixel ambient occlusion.
    pub fn get_ao(&self) -> (r: AttachmentPoint)
        ensures
            r == AttachmentPoint::Color(5),
    {
        AttachmentPoint::Color(5)
    }

    /// The depth attachment.
    pub fn get_depth(&self) -> (r: AttachmentPoint)
        ensures
            r == AttachmentPoint::Depth,
    {
        AttachmentPoint::Depth
    }
}

} // verus!
