//! Vertices with a position and a colour.

use vstd::prelude::*;

use crate::bytes::{machine_image, words_as_bytes};
use crate::layout::{VertexAttribute, VertexBufferLayout, VertexFormat, VertexStepMode, describes};

verus! {

/// A coloured vertex as stored in the vertex buffer. Each component is the
/// IEEE-754 bit pattern of a 32-bit float.
pub struct Vertex {
    pub position: [u32; 3],
    pub color: [u32; 3],
}

impl Vertex {
    /// The vertex's words in buffer order: position, colour.
    pub open spec fn words(self) -> Seq<u32> {
        self.position@ + self.color@
    }

    /// Number of words in each field, in buffer order.
    pub open spec fn fields() -> Seq<nat> {
        seq![3nat, 3nat]
    }

    /// A vertex at `(x, y, z)` with colour `(r, g, b)`.
    pub fn new(x: u32, y: u32, z: u32, r: u32, g: u32, b: u32) -> (v: Self)
        ensures
            v.position@ == seq![x, y, z],
            v.color@ == seq![r, g, b],
    {
        let v = Self { position: [x, y, z], color: [r, g, b] };
        assert(v.position@ =~= seq![x, y, z]);
        assert(v.color@ =~= seq![r, g, b]);
        v
    }

    /// The layout of a buffer of these vertices: position at location 0,
    /// colour at 1, one vertex per step.
    pub fn desc() -> (layout: VertexBufferLayout)
        ensures
            describes(layout, Self::fields()),
            layout.array_stride == 24,
            layout.attributes@.len() == 2,
            layout.attributes@[0].offset == 0,
            layout.attributes@[0].format is Float32x3,
            layout.attributes@[1].offset == 12,
            layout.attributes@[1].format is Float32x3,
    {
        let mut attributes: Vec<VertexAttribute> = Vec::new();
        attributes.push(VertexAttribute { offset: 0, shader_location: 0, format: VertexFormat::Float32x3 });
        attributes.push(VertexAttribute { offset: 12, shader_location: 1, format: VertexFormat::Float32x3 });
        let layout = VertexBufferLayout {
            array_stride: 24,
            step_mode: VertexStepMode::Vertex,
            attributes,
        };
        proof {
            reveal_with_fuel(crate::layout::words_before, 3);
            assert(crate::layout::words_before(Self::fields(), 2) == 6);
        }
        layout
    }
}

/// The words of a run of coloured vertices, one vertex after another.
pub open spec fn stream_words(vs: Seq<Vertex>) -> Seq<u32>
    decreases vs.len(),
{
    if vs.len() == 0 {
        Seq::empty()
    } else {
        stream_words(vs.drop_last()) + vs.last().words()
    }
}

/// Six words per vertex.
pub proof fn lemma_stream_len(vs: Seq<Vertex>)
    ensures
        stream_words(vs).len() == 6 * vs.len(),
    decreases vs.len(),
{
    if vs.len() > 0 {
        lemma_stream_len(vs.drop_last());
    }
}

/// `words` holds the coloured vertices `vs` one after another, six words
/// each: the three position words, then the three colour words, which is
/// where the layout of `Vertex::desc` makes the GPU read them.
pub open spec fn lays_out(words: Seq<u32>, vs: Seq<Vertex>) -> bool {
    &&& words.len() == 6 * vs.len()
    &&& forall|j: int, m: int|
        0 <= j < vs.len() && 0 <= m < 3 ==> words[6 * j + m] == #[trigger] vs[j].position@[m]
    &&& forall|j: int, m: int|
        0 <= j < vs.len() && 0 <= m < 3 ==> words[6 * j + 3 + m] == #[trigger] vs[j].color@[m]
}

/// The position and colour words of vertex `j` stand at indices `6 * j` to
/// `6 * j + 5` of the stream.
pub proof fn lemma_stream_index(vs: Seq<Vertex>, j: int, m: int)
    requires
        0 <= j < vs.len(),
        0 <= m < 6,
    ensures
        stream_words(vs).len() == 6 * vs.len(),
        m < 3 ==> stream_words(vs)[6 * j + m] == vs[j].position@[m],
        3 <= m ==> stream_words(vs)[6 * j + m] == vs[j].color@[m - 3],
    decreases vs.len(),
{
    lemma_stream_len(vs);
    lemma_stream_len(vs.drop_last());
    if j < vs.len() - 1 {
        lemma_stream_index(vs.drop_last(), j, m);
    }
}

/// The stream of a run of coloured vertices lays them out field by field.
pub proof fn lemma_stream_lays_out(vs: Seq<Vertex>)
    ensures
        lays_out(stream_words(vs), vs),
{
    lemma_stream_len(vs);
    assert forall|j: int, m: int| 0 <= j < vs.len() && 0 <= m < 3 implies stream_words(vs)[6 * j + m]
        == #[trigger] vs[j].position@[m] by {
        lemma_stream_index(vs, j, m);
    }
    assert forall|j: int, m: int| 0 <= j < vs.len() && 0 <= m < 3 implies stream_words(vs)[6 * j + 3
        + m] == #[trigger] vs[j].color@[m] by {
        lemma_stream_index(vs, j, m + 3);
    }
}

/// The words of `vertices` in buffer order.
pub fn vertex_words(vertices: &[Vertex]) -> (words: Vec<u32>)
    ensures
        words@ == stream_words(vertices@),
        lays_out(words@, vertices@),
{
    proof {
        lemma_stream_lays_out(vertices@);
    }
    let mut words: Vec<u32> = Vec::new();
    let n = vertices.len();
    for i in 0..n
        invariant
            n == vertices@.len(),
            words@ == stream_words(vertices@.take(i as int)),
    {
        let v = &vertices[i];
        assert(vertices@.take(i + 1).drop_last() =~= vertices@.take(i as int));
        words.push(v.position[0]);
        words.push(v.position[1]);
        words.push(v.position[2]);
        words.push(v.color[0]);
        words.push(v.color[1]);
        words.push(v.color[2]);
        assert(words@ =~= stream_words(vertices@.take(i + 1)));
    }
    assert(vertices@.take(n as int) =~= vertices@);
    words
}

/// The bytes of the vertex buffer holding `vertices`.
pub fn vertex_bytes(vertices: &[Vertex]) -> (bytes: Vec<u8>)
    ensures
        bytes@ == machine_image(stream_words(vertices@)),
        lays_out(stream_words(vertices@), vertices@),
{
    let words = vertex_words(vertices);
    words_as_bytes(words.as_slice())
}

} // verus!
