//! The vertex record and its layout in a vertex buffer.
use vstd::prelude::*;

verus! {

/// Bytes in one 32-bit word.
pub const WORD_BYTES: u32 = 4;

/// Words in one vertex record: two of position, three of colour.
pub const VERTEX_WORDS: usize = 5;

/// Bytes in one vertex record.
pub const VERTEX_STRIDE: u32 = 20;

/// `VK_FORMAT_R32G32_SFLOAT`.
pub const FORMAT_R32G32_SFLOAT: i32 = 103;

/// `VK_FORMAT_R32G32B32_SFLOAT`.
pub const FORMAT_R32G32B32_SFLOAT: i32 = 106;

/// `VK_VERTEX_INPUT_RATE_VERTEX`.
pub const INPUT_RATE_VERTEX: i32 = 0;

/// The bit pattern of the 32-bit float 0.0.
pub const F32_ZERO: u32 = 0;

/// The bit pattern of the 32-bit float 1.0.
pub const F32_ONE: u32 = 0x3F80_0000;

/// The bit pattern of the 32-bit float 0.5.
pub const F32_HALF: u32 = 0x3F00_0000;

/// The bit pattern of the 32-bit float -0.5.
pub const F32_MINUS_HALF: u32 = 0xBF00_0000;

/// One vertex. Each component is the bit pattern of a 32-bit float.
#[derive(Clone, Copy, Debug, PartialEq, Eq)]
pub struct Vertex {
    pub pos: [u32; 2],
    pub color: [u32; 3],
}

/// How a vertex buffer binding is stepped through.
#[derive(Clone, Copy, Debug, PartialEq, Eq, Structural)]
pub struct VertexInputBindingDescription {
    pub binding: u32,
    pub stride: u32,
    pub input_rate: i32,
}

/// Where one shader input is found inside a vertex record.
#[derive(Clone, Copy, Debug, PartialEq, Eq, Structural)]
pub struct VertexInputAttributeDescription {
    pub location: u32,
    pub binding: u32,
    pub format: i32,
    pub offset: u32,
}

impl Vertex {
    /// The record as it lies in memory: position, then colour.
    pub open spec fn words(&self) -> Seq<u32> {
        seq![self.pos@[0], self.pos@[1], self.color@[0], self.color@[1], self.color@[2]]
    }

    /// The single binding: tightly packed records, one per vertex.
    pub open spec fn binding_descriptions() -> Seq<VertexInputBindingDescription> {
        seq![
            VertexInputBindingDescription {
                binding: 0,
                stride: VERTEX_STRIDE,
                input_rate: INPUT_RATE_VERTEX,
            },
        ]
    }

    /// Position at byte 0 as two floats, colour at byte 8 as three.
    pub open spec fn attribute_descriptions() -> Seq<VertexInputAttributeDescription> {
        seq![
            VertexInputAttributeDescription {
                location: 0,
                binding: 0,
                format: FORMAT_R32G32_SFLOAT,
                offset: 0,
            },
            VertexInputAttributeDescription {
                location: 1,
                binding: 0,
                format: FORMAT_R32G32B32_SFLOAT,
                offset: 8,
            },
        ]
    }

    /// The binding descriptions of the vertex buffer.
    pub fn get_binding_descriptions() -> (bindings: [VertexInputBindingDescription; 1])
        ensures
            bindings@ == Self::binding_descriptions(),
    {
        let bindings = [
            VertexInputBindingDescription {
                binding: 0,
                stride: VERTEX_STRIDE,
                input_rate: INPUT_RATE_VERTEX,
            },
        ];
        assert(bindings@ =~= Self::binding_descriptions());
        bindings
    }

    /// The attribute descriptions of position and colour.
    pub fn get_attribute_descriptions() -> (attributes: [VertexInputAttributeDescription; 2])
        ensures
            attributes@ == Self::attribute_descriptions(),
    {
        let attributes = [
            VertexInputAttributeDescription {
                location: 0,
                binding: 0,
                format: FORMAT_R32G32_SFLOAT,
                offset: 0,
            },
            VertexInputAttributeDescription {
                location: 1,
                binding: 0,
                format: FORMAT_R32G32B32_SFLOAT,
                offset: 8,
            },
        ];
        assert(attributes@ =~= Self::attribute_descriptions());
        attributes
    }
}

/// How many 32-bit floats a vertex attribute of the given format holds.
pub open spec fn format_words(format: i32) -> int {
    if format == FORMAT_R32G32_SFLOAT {
        2
    } else if format == FORMAT_R32G32B32_SFLOAT {
        3
    } else {
        0
    }
}

/// The words of a vertex record that an attribute reads.
pub open spec fn attribute_words(vertex: Vertex, attribute: VertexInputAttributeDescription) -> Seq<u32> {
    let first = attribute.offset as int / WORD_BYTES as int;
    vertex.words().subrange(first, first + format_words(attribute.format))
}

/// The layout handed to the pipeline is the layout of the records: the
/// stride is the size of a record, the first attribute reads exactly the
/// position, the second exactly the colour, and together they cover the
/// record without overlap.
pub proof fn lemma_vertex_layout(vertex: Vertex)
    ensures
        Vertex::binding_descriptions()[0].stride == WORD_BYTES * VERTEX_WORDS,
        vertex.words().len() == VERTEX_WORDS,
        attribute_words(vertex, Vertex::attribute_descriptions()[0]) == vertex.pos@,
        attribute_words(vertex, Vertex::attribute_descriptions()[1]) == vertex.color@,
        attribute_words(vertex, Vertex::attribute_descriptions()[0]) + attribute_words(
            vertex,
            Vertex::attribute_descriptions()[1],
        ) == vertex.words(),
{
    let position = attribute_words(vertex, Vertex::attribute_descriptions()[0]);
    let colour = attribute_words(vertex, Vertex::attribute_descriptions()[1]);
    assert(position =~= vertex.pos@);
    assert(colour =~= vertex.color@);
    assert(position + colour =~= vertex.words());
}

/// The corners of the square the renderer starts with: white, red, green,
/// green, from the corner at (-0.5, -0.5) round by (0.5, -0.5).
pub open spec fn square_corners() -> Seq<Vertex> {
    seq![
        Vertex { pos: [F32_MINUS_HALF, F32_MINUS_HALF], color: [F32_ONE, F32_ONE, F32_ONE] },
        Vertex { pos: [F32_HALF, F32_MINUS_HALF], color: [F32_ONE, F32_ZERO, F32_ZERO] },
        Vertex { pos: [F32_HALF, F32_HALF], color: [F32_ZERO, F32_ONE, F32_ZERO] },
        Vertex { pos: [F32_MINUS_HALF, F32_HALF], color: [F32_ZERO, F32_ONE, F32_ZERO] },
    ]
}

/// The two triangles of the square, by corner.
pub open spec fn square_indices() -> Seq<u32> {
    seq![0, 1, 2, 2, 3, 0]
}

/// The square the renderer starts with.
pub fn square() -> (geometry: (Vec<Vertex>, Vec<u32>))
    ensures
        geometry.0@ == square_corners(),
        geometry.1@ == square_indices(),
{
    let mut vertices: Vec<Vertex> = Vec::new();
    vertices.push(
        Vertex { pos: [F32_MINUS_HALF, F32_MINUS_HALF], color: [F32_ONE, F32_ONE, F32_ONE] },
    );
    vertices.push(Vertex { pos: [F32_HALF, F32_MINUS_HALF], color: [F32_ONE, F32_ZERO, F32_ZERO] });
    vertices.push(Vertex { pos: [F32_HALF, F32_HALF], color: [F32_ZERO, F32_ONE, F32_ZERO] });
    vertices.push(Vertex { pos: [F32_MINUS_HALF, F32_HALF], color: [F32_ZERO, F32_ONE, F32_ZERO] });
    let mut indices: Vec<u32> = Vec::new();
    indices.push(0);
    indices.push(1);
    indices.push(2);
    indices.push(2);
    indices.push(3);
    indices.push(0);
    assert(vertices@ =~= square_corners());
    assert(indices@ =~= square_indices());
    (vertices, indices)
}

/// The words of a vertex list, record after record.
pub open spec fn vertex_words(vertices: Seq<Vertex>) -> Seq<u32>
    decreases vertices.len(),
{
    if vertices.len() == 0 {
        seq![]
    } else {
        vertex_words(vertices.drop_last()) + vertices.last().words()
    }
}

/// The list holds five words for each vertex.
pub proof fn lemma_vertex_words_len(vertices: Seq<Vertex>)
    ensures
        vertex_words(vertices).len() == VERTEX_WORDS * vertices.len(),
    decreases vertices.len(),
{
    if vertices.len() > 0 {
        lemma_vertex_words_len(vertices.drop_last());
    }
}

/// Word `k` of vertex `i` lies at word `5 * i + k` of the list.
pub proof fn lemma_vertex_words_index(vertices: Seq<Vertex>, i: int, k: int)
    requires
        0 <= i < vertices.len(),
        0 <= k < VERTEX_WORDS,
    ensures
        VERTEX_WORDS * i + k < vertex_words(vertices).len(),
        vertex_words(vertices)[VERTEX_WORDS * i + k] == vertices[i].words()[k],
    decreases vertices.len(),
{
    lemma_vertex_words_len(vertices);
    lemma_vertex_words_len(vertices.drop_last());
    if i < vertices.len() - 1 {
        lemma_vertex_words_index(vertices.drop_last(), i, k);
    }
}

/// Lays the vertices out as the words of a vertex buffer.
pub fn encode_vertices(vertices: &Vec<Vertex>) -> (words: Vec<u32>)
    ensures
        words@ == vertex_words(vertices@),
        words@.len() == VERTEX_WORDS * vertices@.len(),
{
    let mut words: Vec<u32> = Vec::new();
    let mut i: usize = 0;
    while i < vertices.len()
        invariant
            i <= vertices@.len(),
            words@ == vertex_words(vertices@.take(i as int)),
        decreases vertices@.len() - i,
    {
        let vertex = &vertices[i];
        let ghost before = words@;
        words.push(vertex.pos[0]);
        words.push(vertex.pos[1]);
        words.push(vertex.color[0]);
        words.push(vertex.color[1]);
        words.push(vertex.color[2]);
        proof {
            assert(vertices@.take(i + 1).drop_last() =~= vertices@.take(i as int));
            assert(vertices@.take(i + 1).last() == vertices@[i as int]);
            assert(words@ =~= before + vertices@[i as int].words());
        }
        i += 1;
    }
    proof {
        assert(vertices@.take(vertices@.len() as int) =~= vertices@);
        lemma_vertex_words_len(vertices@);
    }
    words
}

} // verus!
