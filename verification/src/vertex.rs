//! Vertex attribute layouts: the attribute kinds a mesh interleaves per
//! vertex, and the derived component counts, byte strides and byte offsets
//! that the backend needs when it points a vertex buffer at a shader.

use vstd::prelude::*;

verus! {

/// Bytes of one 32-bit vertex scalar.
pub const SCALAR_BYTES: usize = 4;

/// One interleaved per-vertex attribute.
#[derive(Debug, Clone, Copy, PartialEq, Eq, Structural)]
pub enum AttributeType {
    Position2D,
    Position3D,
    Color,
    Normal3D,
    ST,
}

/// Scalar components of one attribute.
pub open spec fn spec_num_components(v: AttributeType) -> nat {
    match v {
        AttributeType::Position2D => 2,
        AttributeType::Position3D => 3,
        AttributeType::Color => 3,
        AttributeType::Normal3D => 3,
        AttributeType::ST => 2,
    }
}

/// Bytes of one attribute.
pub open spec fn spec_attribute_size(v: AttributeType) -> nat {
    spec_num_components(v) * (SCALAR_BYTES as nat)
}

/// Total scalar components of a run of attributes.
pub open spec fn components_sum(ts: Seq<AttributeType>) -> nat
    decreases ts.len(),
{
    if ts.len() == 0 {
        0
    } else {
        components_sum(ts.drop_last()) + spec_num_components(ts.last())
    }
}

/// Total bytes of a run of attributes.
pub open spec fn bytes_sum(ts: Seq<AttributeType>) -> nat
    decreases ts.len(),
{
    if ts.len() == 0 {
        0
    } else {
        bytes_sum(ts.drop_last()) + spec_attribute_size(ts.last())
    }
}

/// One more attribute adds its size to the prefix total.
proof fn lemma_bytes_sum_take_step(ts: Seq<AttributeType>, i: int)
    requires
        0 <= i < ts.len(),
    ensures
        bytes_sum(ts.take(i + 1)) == bytes_sum(ts.take(i)) + spec_attribute_size(ts[i]),
{
    assert(ts.take(i + 1).drop_last() =~= ts.take(i));
    assert(ts.take(i + 1).last() == ts[i]);
}

proof fn lemma_components_sum_take_step(ts: Seq<AttributeType>, i: int)
    requires
        0 <= i < ts.len(),
    ensures
        components_sum(ts.take(i + 1)) == components_sum(ts.take(i)) + spec_num_components(ts[i]),
{
    assert(ts.take(i + 1).drop_last() =~= ts.take(i));
    assert(ts.take(i + 1).last() == ts[i]);
}

/// A prefix never holds more bytes than the whole run.
proof fn lemma_bytes_sum_prefix(ts: Seq<AttributeType>, i: int)
    requires
        0 <= i <= ts.len(),
    ensures
        bytes_sum(ts.take(i)) <= bytes_sum(ts),
    decreases ts.len() - i,
{
    if i == ts.len() {
        assert(ts.take(i) =~= ts);
    } else {
        lemma_bytes_sum_prefix(ts, i + 1);
        lemma_bytes_sum_take_step(ts, i);
    }
}

/// A vertex's bytes are its components times the scalar width.
proof fn lemma_bytes_sum_components(ts: Seq<AttributeType>)
    ensures
        bytes_sum(ts) == components_sum(ts) * (SCALAR_BYTES as nat),
    decreases ts.len(),
{
    if ts.len() > 0 {
        lemma_bytes_sum_components(ts.drop_last());
    }
}

proof fn lemma_components_sum_prefix(ts: Seq<AttributeType>, i: int)
    requires
        0 <= i <= ts.len(),
    ensures
        components_sum(ts.take(i)) <= components_sum(ts),
    decreases ts.len() - i,
{
    if i == ts.len() {
        assert(ts.take(i) =~= ts);
    } else {
        lemma_components_sum_prefix(ts, i + 1);
        lemma_components_sum_take_step(ts, i);
    }
}

pub fn get_attribute_type_num_components(v: &AttributeType) -> (n: usize)
    ensures
        n == spec_num_components(*v),
{
    match v {
        AttributeType::Position2D => 2,
        AttributeType::Position3D => 3,
        AttributeType::Color => 3,
        AttributeType::Normal3D => 3,
        AttributeType::ST => 2,
    }
}

pub fn get_attribute_type_size(v: &AttributeType) -> (n: usize)
    ensures
        n == spec_attribute_size(*v),
{
    match v {
        AttributeType::Position2D => 2 * SCALAR_BYTES,
        AttributeType::Position3D => 3 * SCALAR_BYTES,
        AttributeType::Color => 3 * SCALAR_BYTES,
        AttributeType::Normal3D => 3 * SCALAR_BYTES,
        AttributeType::ST => 2 * SCALAR_BYTES,
    }
}

/// What the backend needs to point one attribute of an interleaved vertex
/// buffer at a shader input.
#[derive(Debug, Clone, Copy, PartialEq, Eq, Structural)]
pub struct AttribPointer {
    /// Shader input slot; attributes are numbered in layout order.
    pub index: usize,
    /// Scalar components of this attribute.
    pub num_components: usize,
    /// Bytes from one vertex to the next.
    pub stride: usize,
    /// Bytes from the start of a vertex to this attribute.
    pub offset: usize,
}

/// The ordered attributes of one vertex.
#[derive(Debug)]
pub struct VertexLayout {
    types: Vec<AttributeType>,
}

impl VertexLayout {
    /// The attributes, in buffer order.
    pub closed spec fn types_view(&self) -> Seq<AttributeType> {
        self.types@
    }

    /// The byte width of a vertex fits the machine.
    pub open spec fn wf(&self) -> bool {
        bytes_sum(self.types_view()) <= usize::MAX
    }

    pub fn new(vl: Vec<AttributeType>) -> (r: Self)
        requires
            bytes_sum(vl@) <= usize::MAX,
        ensures
            r.wf(),
            r.types_view() == vl@,
    {
        VertexLayout { types: vl }
    }

    /// Total scalar components of one vertex.
    pub fn get_num_components(&self) -> (n: usize)
        requires
            self.wf(),
        ensures
            n == components_sum(self.types_view()),
    {
        let mut components: usize = 0;
        let count = self.types.len();
        let mut i: usize = 0;
        proof {
            assert(self.types@.take(0) =~= Seq::<AttributeType>::empty());
        }
        while i < count
            invariant
                self.wf(),
                count == self.types@.len(),
                i <= count,
                components == components_sum(self.types@.take(i as int)),
            decreases count - i,
        {
            proof {
                lemma_components_sum_take_step(self.types@, i as int);
                lemma_components_sum_prefix(self.types@, i + 1);
                lemma_bytes_sum_components(self.types@);
            }
            components = components + get_attribute_type_num_components(&self.types[i]);
            i = i + 1;
        }
        proof {
            assert(self.types@.take(count as int) =~= self.types@);
        }
        components
    }

    /// Bytes from one vertex to the next in an interleaved buffer.
    pub fn get_stride(&self) -> (n: usize)
        requires
            self.wf(),
        ensures
            n == bytes_sum(self.types_view()),
    {
        let n = self.sum_bytes_up_to(self.types.len());
        proof {
            assert(self.types@.take(self.types@.len() as int) =~= self.types@);
        }
        n
    }

    /// Total bytes of one vertex.
    pub fn get_width(&self) -> (n: usize)
        requires
            self.wf(),
        ensures
            n == bytes_sum(self.types_view()),
    {
        let n = self.sum_bytes_up_to(self.types.len());
        proof {
            assert(self.types@.take(self.types@.len() as int) =~= self.types@);
        }
        n
    }

    /// Bytes from the start of a vertex to its `index`th attribute.
    pub fn get_offset(&self, index: usize) -> (n: usize)
        requires
            self.wf(),
            index < self.types_view().len(),
        ensures
            n == bytes_sum(self.types_view().take(index as int)),
    {
        self.sum_bytes_up_to(index)
    }

    /// Bytes of the first `count` attributes.
    fn sum_bytes_up_to(&self, count: usize) -> (n: usize)
        requires
            self.wf(),
            count <= self.types_view().len(),
        ensures
            n == bytes_sum(self.types_view().take(count as int)),
    {
        let mut bytes: usize = 0;
        let mut i: usize = 0;
        proof {
            assert(self.types@.take(0) =~= Seq::<AttributeType>::empty());
        }
        while i < count
            invariant
                self.wf(),
                count <= self.types@.len(),
                i <= count,
                bytes == bytes_sum(self.types@.take(i as int)),
            decreases count - i,
        {
            proof {
                lemma_bytes_sum_take_step(self.types@, i as int);
                lemma_bytes_sum_prefix(self.types@, i + 1);
            }
            bytes = bytes + get_attribute_type_size(&self.types[i]);
            i = i + 1;
        }
        bytes
    }

    /// One descriptor per attribute, in layout order.
    pub fn attrib_pointers(&self) -> (r: Vec<AttribPointer>)
        requires
            self.wf(),
        ensures
            r@.len() == self.types_view().len(),
            forall|i: int|
                0 <= i < r@.len() ==> r@[i] == (AttribPointer {
                    index: i as usize,
                    num_components: spec_num_components(self.types_view()[i]) as usize,
                    stride: bytes_sum(self.types_view()) as usize,
                    offset: bytes_sum(self.types_view().take(i)) as usize,
                }),
    {
        let stride = self.get_stride();
        let count = self.types.len();
        let mut r: Vec<AttribPointer> = Vec::new();
        let mut i: usize = 0;
        let mut offset: usize = 0;
        proof {
            assert(self.types@.take(0) =~= Seq::<AttributeType>::empty());
        }
        while i < count
            invariant
                self.wf(),
                count == self.types@.len(),
                stride == bytes_sum(self.types@),
                i <= count,
                offset == bytes_sum(self.types@.take(i as int)),
                r@.len() == i,
                forall|j: int|
                    0 <= j < i ==> r@[j] == (AttribPointer {
                        index: j as usize,
                        num_components: spec_num_components(self.types@[j]) as usize,
                        stride: bytes_sum(self.types@) as usize,
                        offset: bytes_sum(self.types@.take(j)) as usize,
                    }),
            decreases count - i,
        {
            proof {
                lemma_bytes_sum_take_step(self.types@, i as int);
                lemma_bytes_sum_prefix(self.types@, i + 1);
            }
            let num_components = get_attribute_type_num_components(&self.types[i]);
            r.push(AttribPointer { index: i, num_components, stride, offset });
            offset = offset + get_attribute_type_size(&self.types[i]);
            i = i + 1;
        }
        r
    }
}

/// The vertex and index data of one mesh, with its attribute layout.
#[derive(Debug)]
pub struct Vertex<S> {
    pub vertices: Vec<S>,
    pub indices: Vec<i32>,
    pub vertex_layout: VertexLayout,
}

impl<S> Vertex<S> {
    pub fn new(vertices: Vec<S>, indices: Vec<i32>, vertex_layout: VertexLayout) -> (r: Self)
        ensures
            r.vertices@ == vertices@,
            r.indices@ == indices@,
            r.vertex_layout == vertex_layout,
    {
        Vertex { vertices, indices, vertex_layout }
    }

    /// How many whole vertices the scalar buffer holds.
    pub fn get_num_vertices(&self) -> (n: usize)
        requires
            self.vertex_layout.wf(),
            components_sum(self.vertex_layout.types_view()) > 0,
        ensures
            n == self.vertices@.len() / components_sum(self.vertex_layout.types_view()),
    {
        let c = self.vertex_layout.get_num_components();
        self.vertices.len() / c
    }
}

} // verus!
