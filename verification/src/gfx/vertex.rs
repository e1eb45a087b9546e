//! Vertices with a position, a normal and a texture coordinate.

use vstd::prelude::*;

use crate::bytes::{machine_image, words_as_bytes};
use crate::layout::{VertexAttribute, VertexBufferLayout, VertexFormat, VertexStepMode, describes};

verus! {

/// A vertex as it is stored in the vertex buffer. Each component is the
/// IEEE-754 bit pattern of a 32-bit float; the library moves the values
/// without computing on them.
pub struct Vertex {
    pub position: [u32; 3],
    pub normal: [u32; 3],
    pub uv: [u32; 2],
}

impl Vertex {
    /// The vertex's words in buffer order: position, normal, uv.
    pub open spec fn words(self) -> Seq<u32> {
        self.position@ + self.normal@ + self.uv@
    }

    /// Number of words in each field, in buffer order.
    pub open spec fn fields() -> Seq<nat> {
        seq![3nat, 3nat, 2nat]
    }

    /// A vertex from its three attributes.
    pub fn new(position: [u32; 3], normal: [u32; 3], uv: [u32; 2]) -> (v: Self)
        ensures
            v.position == position,
            v.normal == normal,
            v.uv == uv,
    {
        Self { position, normal, uv }
    }

    /// The layout of a buffer of these vertices: position at location 0,
    /// normal at 1, uv at 2, one vertex per step.
    pub fn desc() -> (layout: VertexBufferLayout)
        ensures
            describes(layout, Self::fields()),
            layout.array_stride == 32,
            layout.attributes@.len() == 3,
            layout.attributes@[0].offset == 0,
            layout.attributes@[0].format is Float32x3,
            layout.attributes@[1].offset == 12,
            layout.attributes@[1].format is Float32x3,
            layout.attributes@[2].offset == 24,
            layout.attributes@[2].format is Float32x2,
    {
        let mut attributes: Vec<VertexAttribute> = Vec::new();
        attributes.push(VertexAttribute { offset: 0, shader_location: 0, format: VertexFormat::Float32x3 });
        attributes.push(VertexAttribute { offset: 12, shader_location: 1, format: VertexFormat::Float32x3 });
        attributes.push(VertexAttribute { offset: 24, shader_location: 2, format: VertexFormat::Float32x2 });
        let layout = VertexBufferLayout {
            array_stride: 32,
            step_mode: VertexStepMode::Vertex,
            attributes,
        };
        proof {
            let f = Self::fields();
            reveal_with_fuel(crate::layout::words_before, 4);
            assert(crate::layout::words_before(f, 3) == 8);
        }
        layout
    }
}

/// The words of a run of vertices, one vertex after another.
pub open spec fn stream_words(vs: Seq<Vertex>) -> Seq<u32>
    decreases vs.len(),
{
    if vs.len() == 0 {
        Seq::empty()
    } else {
        stream_words(vs.drop_last()) + vs.last().words()
    }
}

/// Eight words per vertex.
pub proof fn lemma_stream_len(vs: Seq<Vertex>)
    ensures
        stream_words(vs).len() == 8 * vs.len(),
    decreases vs.len(),
{
    if vs.len() > 0 {
        lemma_stream_len(vs.drop_last());
    }
}

/// `words` holds the vertices `vs` one after another, eight words each:
/// the three position words, then the three normal words, then the two uv
/// words, which is where the layout of `Vertex::desc` makes the GPU read them.
pub open spec fn lays_out(words: Seq<u32>, vs: Seq<Vertex>) -> bool {
    &&& words.len() == 8 * vs.len()
    &&& forall|j: int, m: int|
        0 <= j < vs.len() && 0 <= m < 3 ==> words[8 * j + m] == #[trigger] vs[j].position@[m]
    &&& forall|j: int, m: int|
        0 <= j < vs.len() && 0 <= m < 3 ==> words[8 * j + 3 + m] == #[trigger] vs[j].normal@[m]
    &&& forall|j: int, m: int|
        0 <= j < vs.len() && 0 <= m < 2 ==> words[8 * j + 6 + m] == #[trigger] vs[j].uv@[m]
}

/// The position, normal and uv words of vertex `j` stand at indices
/// `8 * j` to `8 * j + 7` of the stream.
pub proof fn lemma_stream_index(vs: Seq<Vertex>, j: int, m: int)
    requires
        0 <= j < vs.len(),
        0 <= m < 8,
    ensures
        stream_words(vs).len() == 8 * vs.len(),
        m < 3 ==> stream_words(vs)[8 * j + m] == vs[j].position@[m],
        3 <= m < 6 ==> stream_words(vs)[8 * j + m] == vs[j].normal@[m - 3],
        6 <= m ==> stream_words(vs)[8 * j + m] == vs[j].uv@[m - 6],
    decreases vs.len(),
{
    lemma_stream_len(vs);
    lemma_stream_len(vs.drop_last());
    if j < vs.len() - 1 {
        lemma_stream_index(vs.drop_last(), j, m);
    }
}

/// The stream of a run of vertices lays them out field by field.
pub proof fn lemma_stream_lays_out(vs: Seq<Vertex>)
    ensures
        lays_out(stream_words(vs), vs),
{
    lemma_stream_len(vs);
    assert forall|j: int, m: int| 0 <= j < vs.len() && 0 <= m < 3 implies stream_words(vs)[8 * j + m]
        == #[trigger] vs[j].position@[m] by {
        lemma_stream_index(vs, j, m);
    }
    assert forall|j: int, m: int| 0 <= j < vs.len() && 0 <= m < 3 implies stream_words(vs)[8 * j + 3
        + m] == #[trigger] vs[j].normal@[m] by {
        lemma_stream_index(vs, j, m + 3);
    }
    assert forall|j: int, m: int| 0 <= j < vs.len() && 0 <= m < 2 implies stream_words(vs)[8 * j + 6
        + m] == #[trigger] vs[j].uv@[m] by {
        lemma_stream_index(vs, j, m + 6);
    }
}

/// The words of `vertices` in buffer order.
pub fn vertex_words(vertices: &[Vertex]) -> (words: Vec<u32>)
    ensures
        words@ == stream_words(vertices@),
        lays_out(words@, vertices@),
{
    proof {
        lemma_stream_lays_out(vertices@);
    }
    let mut words: Vec<u32> = Vec::new();
    let n = vertices.len();
    for i in 0..n
        invariant
            n == vertices@.len(),
            words@ == stream_words(vertices@.take(i as int)),
    {
        let v = &vertices[i];
        assert(vertices@.take(i + 1).drop_last() =~= vertices@.take(i as int));
        words.push(v.position[0]);
        words.push(v.position[1]);
        words.push(v.position[2]);
        words.push(v.normal[0]);
        words.push(v.normal[1]);
        words.push(v.normal[2]);
        words.push(v.uv[0]);
        words.push(v.uv[1]);
        assert(words@ =~= stream_words(vertices@.take(i + 1)));
    }
    assert(vertices@.take(n as int) =~= vertices@);
    words
}

/// The bytes of the vertex buffer holding `vertices`.
pub fn vertex_bytes(vertices: &[Vertex]) -> (bytes: Vec<u8>)
    ensures
        bytes@ == machine_image(stream_words(vertices@)),
        lays_out(stream_words(vertices@), vertices@),
{
    let words = vertex_words(vertices);
    words_as_bytes(words.as_slice())
}

} // verus!
