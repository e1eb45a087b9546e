//! Descriptions of how vertex words are laid out in a GPU vertex buffer.

use vstd::prelude::*;

verus! {

/// Format of one vertex attribute.
pub enum VertexFormat {
    /// Two 32-bit floats.
    Float32x2,
    /// Three 32-bit floats.
    Float32x3,
}

impl VertexFormat {
    /// Number of 32-bit words the format occupies.
    pub open spec fn words(self) -> nat {
        match self {
            VertexFormat::Float32x2 => 2,
            VertexFormat::Float32x3 => 3,
        }
    }

    /// Size of the format in bytes.
    pub fn size(&self) -> (s: u64)
        ensures
            s == 4 * self.words(),
    {
        match self {
            VertexFormat::Float32x2 => 8,
            VertexFormat::Float32x3 => 12,
        }
    }
}

/// Whether the buffer advances per vertex or per instance.
pub enum VertexStepMode {
    Vertex,
    Instance,
}

/// One attribute of a vertex: where it starts, where the shader reads it,
/// and its format.
pub struct VertexAttribute {
    pub offset: u64,
    pub shader_location: u32,
    pub format: VertexFormat,
}

/// Layout of one vertex buffer.
pub struct VertexBufferLayout {
    pub array_stride: u64,
    pub step_mode: VertexStepMode,
    pub attributes: Vec<VertexAttribute>,
}

/// Sum of the first `k` entries of `fields`.
pub open spec fn words_before(fields: Seq<nat>, k: int) -> nat
    decreases k,
{
    if k <= 0 {
        0
    } else {
        words_before(fields, k - 1) + fields[k - 1]
    }
}

/// `layout` describes a vertex made of consecutive fields of
/// `fields[k]` words each: attribute `k` is read at location `k`, starts at
/// the byte where field `k` starts and spans that field; the stride is the
/// whole vertex.
pub open spec fn describes(layout: VertexBufferLayout, fields: Seq<nat>) -> bool {
    &&& layout.step_mode is Vertex
    &&& layout.attributes@.len() == fields.len()
    &&& layout.array_stride == 4 * words_before(fields, fields.len() as int)
    &&& forall|k: int|
        0 <= k < fields.len() ==> {
            &&& (#[trigger] layout.attributes@[k]).offset == 4 * words_before(fields, k)
            &&& layout.attributes@[k].shader_location == k
            &&& layout.attributes@[k].format.words() == fields[k]
        }
}

proof fn lemma_words_before_mono(fields: Seq<nat>, i: int, j: int)
    requires
        0 <= i <= j <= fields.len(),
    ensures
        words_before(fields, i) <= words_before(fields, j),
    decreases j - i,
{
    if i < j {
        lemma_words_before_mono(fields, i, j - 1);
    }
}

/// A layout that describes a field list keeps every attribute inside the
/// stride, puts them in increasing order without overlap, and gives each a
/// shader location of its own.
pub proof fn lemma_described_layout_is_sound(layout: VertexBufferLayout, fields: Seq<nat>)
    requires
        describes(layout, fields),
    ensures
        forall|k: int|
            0 <= k < layout.attributes@.len() ==> (#[trigger] layout.attributes@[k]).offset + 4
                * layout.attributes@[k].format.words() <= layout.array_stride,
        forall|i: int, j: int|
            0 <= i < j < layout.attributes@.len() ==> (#[trigger] layout.attributes@[i]).offset + 4
                * layout.attributes@[i].format.words() <= (#[trigger] layout.attributes@[j]).offset,
        forall|i: int, j: int|
            0 <= i < j < layout.attributes@.len() ==> (#[trigger] layout.attributes@[i]).shader_location
                != (#[trigger] layout.attributes@[j]).shader_location,
{
    assert forall|k: int| 0 <= k < layout.attributes@.len() implies (
    #[trigger] layout.attributes@[k]).offset + 4 * layout.attributes@[k].format.words()
        <= layout.array_stride by {
        lemma_words_before_mono(fields, k + 1, fields.len() as int);
    }
    assert forall|i: int, j: int| 0 <= i < j < layout.attributes@.len() implies (
    #[trigger] layout.attributes@[i]).offset + 4 * layout.attributes@[i].format.words() <= (
    #[trigger] layout.attributes@[j]).offset by {
        lemma_words_before_mono(fields, i + 1, j);
    }
}

} // verus!
