//! The quad that the fractal is drawn on, and the format of its vertices.

use crate::scalar::Scalar;
use crate::wire::{half_bytes, le_image, widened, word_bytes};
use vstd::prelude::*;

verus! {

/// Bytes that one vertex takes in the vertex buffer.
pub const VERTEX_STRIDE: u64 = 24;

/// Words that one vertex takes in the vertex buffer.
pub const VERTEX_WORDS: usize = 6;

/// Pattern of 1.
pub const ONE: u32 = 0x3f80_0000;

/// Pattern of -1.
pub const MINUS_ONE: u32 = 0xbf80_0000;

/// Pattern of the single-precision number nearest to 0.3.
pub const THREE_TENTHS: u32 = 0x3e99_999a;

/// Pattern of the single-precision number nearest to 0.4.
pub const FOUR_TENTHS: u32 = 0x3ecc_cccd;

/// A vertex: a position in normalized device coordinates and a colour.
#[derive(Clone, Copy, Debug, PartialEq, Eq, Structural)]
pub struct Vertex {
    pub x: Scalar,
    pub y: Scalar,
    pub z: Scalar,
    pub red: Scalar,
    pub green: Scalar,
    pub blue: Scalar,
}

/// The format of a vertex attribute.
#[derive(Clone, Copy, Debug, PartialEq, Eq, Structural)]
pub enum VertexFormat {
    /// Three single-precision numbers.
    Float32x3,
}

/// How the vertex buffer is stepped through.
#[derive(Clone, Copy, Debug, PartialEq, Eq, Structural)]
pub enum StepMode {
    /// One entry for each vertex.
    Vertex,
}

/// One attribute of a vertex: its format, its offset within the vertex and
/// the location at which the shader receives it.
#[derive(Clone, Copy, Debug, PartialEq, Eq, Structural)]
pub struct VertexAttribute {
    pub format: VertexFormat,
    pub offset: u64,
    pub shader_location: u32,
}

/// The layout of the vertex buffer.
#[derive(Debug, PartialEq, Eq)]
pub struct VertexBufferLayout {
    pub array_stride: u64,
    pub step_mode: StepMode,
    pub attributes: Vec<VertexAttribute>,
}

impl VertexFormat {
    /// Bytes that an attribute of this format takes.
    pub open spec fn size(self) -> u64 {
        12
    }

    pub fn byte_size(&self) -> (r: u64)
        ensures
            r == self.size(),
    {
        12
    }
}

/// A vertex from the six patterns of its position and colour.
pub open spec fn vertex(x: u32, y: u32, z: u32, red: u32, green: u32, blue: u32) -> Vertex {
    Vertex {
        x: Scalar { bits: x },
        y: Scalar { bits: y },
        z: Scalar { bits: z },
        red: Scalar { bits: red },
        green: Scalar { bits: green },
        blue: Scalar { bits: blue },
    }
}

/// The four corners of the display area: top left, bottom left, bottom
/// right, top right, coloured red, green, blue and grey.
pub open spec fn quad() -> Seq<Vertex> {
    seq![
        vertex(0xbf80_0000, 0x3f80_0000, 0, 0x3f80_0000, 0, 0),
        vertex(0xbf80_0000, 0xbf80_0000, 0, 0, 0x3f80_0000, 0),
        vertex(0x3f80_0000, 0xbf80_0000, 0, 0, 0, 0x3f80_0000),
        vertex(0x3f80_0000, 0x3f80_0000, 0, 0x3e99_999a, 0x3ecc_cccd, 0x3e99_999a),
    ]
}

/// The two triangles of the quad, as indices into its corners.
pub open spec fn quad_triangles() -> Seq<u16> {
    seq![0u16, 1u16, 3u16, 1u16, 2u16, 3u16]
}

/// The words of a run of vertices, six for each.
pub open spec fn vertex_words(vertices: Seq<Vertex>) -> Seq<u32> {
    Seq::new(
        vertices.len() * VERTEX_WORDS as nat,
        |i: int| vertices[i / VERTEX_WORDS as int].words()[i % VERTEX_WORDS as int],
    )
}

impl Vertex {
    /// The six words of the vertex: position, then colour.
    pub open spec fn words(self) -> Seq<u32> {
        seq![
            self.x.bits,
            self.y.bits,
            self.z.bits,
            self.red.bits,
            self.green.bits,
            self.blue.bits,
        ]
    }

    /// The layout of a buffer of vertices: 24 bytes each, the position at
    /// offset 0 for location 0, the colour at offset 12 for location 1.
    pub open spec fn layout() -> (u64, StepMode, Seq<VertexAttribute>) {
        (
            VERTEX_STRIDE,
            StepMode::Vertex,
            seq![
                VertexAttribute { format: VertexFormat::Float32x3, offset: 0, shader_location: 0 },
                VertexAttribute { format: VertexFormat::Float32x3, offset: 12, shader_location: 1 },
            ],
        )
    }

    /// The layout of a buffer of vertices.
    pub fn desc() -> (r: VertexBufferLayout)
        ensures
            (r.array_stride, r.step_mode, r.attributes@) == Vertex::layout(),
            r.array_stride == r.attributes@[0].format.size() + r.attributes@[1].format.size(),
            r.attributes@[1].offset == r.attributes@[0].offset + r.attributes@[0].format.size(),
    {
        let position = VertexFormat::Float32x3;
        let colour = VertexFormat::Float32x3;
        let mut attributes: Vec<VertexAttribute> = Vec::new();
        attributes.push(VertexAttribute { format: position, offset: 0, shader_location: 0 });
        attributes.push(
            VertexAttribute { format: colour, offset: position.byte_size(), shader_location: 1 },
        );
        let r = VertexBufferLayout {
            array_stride: position.byte_size() + colour.byte_size(),
            step_mode: StepMode::Vertex,
            attributes,
        };
        assert(r.attributes@ =~= Vertex::layout().2);
        r
    }
}

fn corner(x: u32, y: u32, red: u32, green: u32, blue: u32) -> (r: Vertex)
    ensures
        r == vertex(x, y, 0, red, green, blue),
{
    Vertex {
        x: Scalar { bits: x },
        y: Scalar { bits: y },
        z: Scalar { bits: 0 },
        red: Scalar { bits: red },
        green: Scalar { bits: green },
        blue: Scalar { bits: blue },
    }
}

/// The four corners of the quad.
pub fn vertices() -> (r: Vec<Vertex>)
    ensures
        r@ == quad(),
{
    let mut r: Vec<Vertex> = Vec::new();
    r.push(corner(MINUS_ONE, ONE, ONE, 0, 0));
    r.push(corner(MINUS_ONE, MINUS_ONE, 0, ONE, 0));
    r.push(corner(ONE, MINUS_ONE, 0, 0, ONE));
    r.push(corner(ONE, ONE, THREE_TENTHS, FOUR_TENTHS, THREE_TENTHS));
    assert(r@ =~= quad());
    r
}

/// The six indices of the quad's two triangles.
pub fn indices() -> (r: Vec<u16>)
    ensures
        r@ == quad_triangles(),
{
    let mut r: Vec<u16> = Vec::new();
    r.push(0);
    r.push(1);
    r.push(3);
    r.push(1);
    r.push(2);
    r.push(3);
    assert(r@ =~= quad_triangles());
    r
}

/// The contents of a vertex buffer: every vertex in turn, 24 bytes each.
pub fn vertex_bytes(vertices: &Vec<Vertex>) -> (bytes: Vec<u8>)
    requires
        vertices@.len() * VERTEX_WORDS <= usize::MAX,
    ensures
        bytes@ == le_image(vertex_words(vertices@), 4),
        bytes@.len() == vertices@.len() * VERTEX_STRIDE,
{
    let mut words: Vec<u32> = Vec::new();
    let mut i: usize = 0;
    while i < vertices.len()
        invariant
            i <= vertices@.len(),
            words@.len() == i * 6,
            forall|p: int| 0 <= p < i * 6 ==> words@[p] == vertex_words(vertices@)[p],
        decreases vertices@.len() - i,
    {
        let v = vertices[i];
        let ghost before = words@;
        words.push(v.x.bits);
        words.push(v.y.bits);
        words.push(v.z.bits);
        words.push(v.red.bits);
        words.push(v.green.bits);
        words.push(v.blue.bits);
        proof {
            assert forall|p: int| 0 <= p < (i + 1) * 6 implies words@[p] == vertex_words(
                vertices@,
            )[p] by {
                if p >= i * 6 {
                    let j = p - i * 6;
                    assert(p / 6 == i && p % 6 == j);
                    assert(words@[p] == v.words()[j]);
                } else {
                    assert(words@[p] == before[p]);
                }
            }
        }
        i = i + 1;
    }
    assert(words@ =~= vertex_words(vertices@));
    word_bytes(&words)
}

/// The contents of an index buffer: every index in turn, two bytes each.
pub fn index_bytes(indices: &Vec<u16>) -> (bytes: Vec<u8>)
    ensures
        bytes@ == le_image(widened(indices@), 2),
        bytes@.len() == indices@.len() * 2,
{
    half_bytes(indices)
}

/// Every index of the quad names one of its four corners, and the two
/// triangles share the edge between the second and the fourth corner.
pub proof fn lemma_quad_indices()
    ensures
        quad().len() == 4,
        quad_triangles().len() == 6,
        forall|i: int| 0 <= i < 6 ==> 0 <= #[trigger] quad_triangles()[i] < 4,
        quad_triangles()[1] == quad_triangles()[3],
        quad_triangles()[2] == quad_triangles()[5],
{
}

} // verus!
