//! A GPU mesh and the vertex data read from the first model of an OBJ file.

use vstd::prelude::*;

use crate::bytes::{machine_image, words_as_bytes};

verus! {

/// `wgpu::Buffer`, a handle to GPU memory carried through the library.
#[verifier::external_type_specification]
#[verifier::external_body]
pub struct ExBuffer(wgpu::Buffer);

/// An uploaded mesh: its vertex and index buffers and how many indices to draw.
pub struct Mesh {
    pub vertex_buffer: wgpu::Buffer,
    pub index_buffer: wgpu::Buffer,
    pub index_count: u32,
}

impl Mesh {
    /// The mesh drawn from `vertex_buffer` with the indices `indices`, which
    /// `index_buffer` holds. The count is the number of indices as a `u32`.
    pub fn new(vertex_buffer: wgpu::Buffer, index_buffer: wgpu::Buffer, indices: &[u32]) -> (m: Self)
        ensures
            m.vertex_buffer == vertex_buffer,
            m.index_buffer == index_buffer,
            m.index_count == indices@.len() as u32,
    {
        Self { vertex_buffer, index_buffer, index_count: indices.len() as u32 }
    }
}

/// What an indexed mesh upload needs: the bytes of the vertex buffer, the
/// bytes of the index buffer, and how many indices to draw.
pub struct MeshUpload {
    pub vertex_bytes: Vec<u8>,
    pub index_bytes: Vec<u8>,
    pub index_count: u32,
}

impl Mesh {
    /// The mesh drawn from buffers created from `upload`'s bytes; it draws
    /// `upload.index_count` indices.
    pub fn from_upload(vertex_buffer: wgpu::Buffer, index_buffer: wgpu::Buffer, upload: &MeshUpload) -> (m: Self)
        ensures
            m.vertex_buffer == vertex_buffer,
            m.index_buffer == index_buffer,
            m.index_count == upload.index_count,
    {
        Self { vertex_buffer, index_buffer, index_count: upload.index_count }
    }
}

/// The upload of a mesh of coloured vertices drawn with `indices`.
pub fn color_mesh_upload(vertices: &[crate::vertex::Vertex], indices: &[u32]) -> (u: MeshUpload)
    ensures
        u.vertex_bytes@ == machine_image(crate::vertex::stream_words(vertices@)),
        crate::vertex::lays_out(crate::vertex::stream_words(vertices@), vertices@),
        u.index_bytes@ == machine_image(indices@),
        u.index_count == indices@.len() as u32,
{
    MeshUpload {
        vertex_bytes: crate::vertex::vertex_bytes(vertices),
        index_bytes: index_bytes(indices),
        index_count: indices.len() as u32,
    }
}

/// A vertex with a position and a texture coordinate, as IEEE-754 bit
/// patterns of 32-bit floats.
pub struct ObjVertex {
    pub position: [u32; 3],
    pub uv: [u32; 2],
}

impl ObjVertex {
    /// The vertex's words in buffer order: position, uv.
    pub open spec fn words(self) -> Seq<u32> {
        self.position@ + self.uv@
    }
}

/// The positions form whole vertices and each has a texture coordinate.
pub open spec fn obj_input_ok(positions: Seq<u32>, texcoords: Seq<u32>) -> bool {
    &&& positions.len() % 3 == 0
    &&& texcoords.len() >= 2 * (positions.len() / 3)
}

/// `v` is vertex `i`: the `i`-th triple of positions and pair of texture
/// coordinates.
pub open spec fn is_obj_vertex(v: ObjVertex, positions: Seq<u32>, texcoords: Seq<u32>, i: int) -> bool {
    &&& v.position@ == seq![positions[3 * i], positions[3 * i + 1], positions[3 * i + 2]]
    &&& v.uv@ == seq![texcoords[2 * i], texcoords[2 * i + 1]]
}

/// One vertex per triple of positions, with the texture coordinate of the
/// same number.
pub fn obj_vertices(positions: &[u32], texcoords: &[u32]) -> (vs: Vec<ObjVertex>)
    requires
        obj_input_ok(positions@, texcoords@),
    ensures
        vs@.len() == positions@.len() / 3,
        forall|i: int|
            0 <= i < vs@.len() ==> #[trigger] is_obj_vertex(vs@[i], positions@, texcoords@, i),
        forall|i: int|
            0 <= i < vs@.len() ==> {
                &&& (#[trigger] vs@[i]).position@ == seq![positions@[3 * i], positions@[3 * i + 1], positions@[3 * i + 2]]
                &&& vs@[i].uv@ == seq![texcoords@[2 * i], texcoords@[2 * i + 1]]
            },
{
    let mut vs: Vec<ObjVertex> = Vec::new();
    let n = positions.len() / 3;
    for i in 0..n
        invariant
            n == positions@.len() / 3,
            obj_input_ok(positions@, texcoords@),
            vs@.len() == i,
            forall|j: int|
                0 <= j < i ==> #[trigger] is_obj_vertex(vs@[j], positions@, texcoords@, j),
    {
        assert(i * 3 + 2 < positions@.len() && i * 2 + 1 < texcoords@.len()) by (nonlinear_arith)
            requires
                i < n,
                n == positions@.len() / 3,
                texcoords@.len() >= 2 * n,
        ;
        assert(positions@.len() == positions.len());
        let x = positions[i * 3];
        let y = positions[i * 3 + 1];
        let z = positions[i * 3 + 2];
        let u = texcoords[i * 2];
        let v = texcoords[i * 2 + 1];
        let vert = ObjVertex { position: [x, y, z], uv: [u, v] };
        assert(vert.position@ =~= seq![x, y, z]);
        assert(vert.uv@ =~= seq![u, v]);
        vs.push(vert);
    }
    assert forall|i: int| 0 <= i < vs@.len() implies {
        &&& (#[trigger] vs@[i]).position@ == seq![positions@[3 * i], positions@[3 * i + 1], positions@[3 * i + 2]]
        &&& vs@[i].uv@ == seq![texcoords@[2 * i], texcoords@[2 * i + 1]]
    } by {
        assert(is_obj_vertex(vs@[i], positions@, texcoords@, i));
    }
    vs
}

/// The words of a run of OBJ vertices, one vertex after another.
pub open spec fn obj_stream_words(vs: Seq<ObjVertex>) -> Seq<u32>
    decreases vs.len(),
{
    if vs.len() == 0 {
        Seq::empty()
    } else {
        obj_stream_words(vs.drop_last()) + vs.last().words()
    }
}

/// Five words per OBJ vertex.
pub proof fn lemma_obj_stream_len(vs: Seq<ObjVertex>)
    ensures
        obj_stream_words(vs).len() == 5 * vs.len(),
    decreases vs.len(),
{
    if vs.len() > 0 {
        lemma_obj_stream_len(vs.drop_last());
    }
}

/// `words` holds the vertices `vs` one after another, five words each: the
/// three position words, then u, then v.
pub open spec fn obj_lays_out(words: Seq<u32>, vs: Seq<ObjVertex>) -> bool {
    &&& words.len() == 5 * vs.len()
    &&& forall|j: int, m: int|
        0 <= j < vs.len() && 0 <= m < 3 ==> words[5 * j + m] == #[trigger] vs[j].position@[m]
    &&& forall|j: int, m: int|
        0 <= j < vs.len() && 0 <= m < 2 ==> words[5 * j + 3 + m] == #[trigger] vs[j].uv@[m]
}

/// The position and uv words of vertex `j` stand at indices `5 * j` to
/// `5 * j + 4` of the stream.
pub proof fn lemma_obj_stream_index(vs: Seq<ObjVertex>, j: int, m: int)
    requires
        0 <= j < vs.len(),
        0 <= m < 5,
    ensures
        obj_stream_words(vs).len() == 5 * vs.len(),
        m < 3 ==> obj_stream_words(vs)[5 * j + m] == vs[j].position@[m],
        3 <= m ==> obj_stream_words(vs)[5 * j + m] == vs[j].uv@[m - 3],
    decreases vs.len(),
{
    lemma_obj_stream_len(vs);
    lemma_obj_stream_len(vs.drop_last());
    if j < vs.len() - 1 {
        lemma_obj_stream_index(vs.drop_last(), j, m);
    }
}

/// The stream of a run of OBJ vertices lays them out field by field.
pub proof fn lemma_obj_stream_lays_out(vs: Seq<ObjVertex>)
    ensures
        obj_lays_out(obj_stream_words(vs), vs),
{
    lemma_obj_stream_len(vs);
    assert forall|j: int, m: int| 0 <= j < vs.len() && 0 <= m < 3 implies obj_stream_words(vs)[5 * j
        + m] == #[trigger] vs[j].position@[m] by {
        lemma_obj_stream_index(vs, j, m);
    }
    assert forall|j: int, m: int| 0 <= j < vs.len() && 0 <= m < 2 implies obj_stream_words(vs)[5 * j
        + 3 + m] == #[trigger] vs[j].uv@[m] by {
        lemma_obj_stream_index(vs, j, m + 3);
    }
}

/// Vertex `i` of the laid-out stream holds position triple `i` and texture
/// coordinate pair `i` of the OBJ arrays: word `5 * i + m` is
/// `positions[3 * i + m]` for `m < 3`, and words `5 * i + 3` and
/// `5 * i + 4` are `texcoords[2 * i]` and `texcoords[2 * i + 1]`.
pub proof fn lemma_obj_words_from_arrays(
    words: Seq<u32>,
    vs: Seq<ObjVertex>,
    positions: Seq<u32>,
    texcoords: Seq<u32>,
    i: int,
)
    requires
        obj_lays_out(words, vs),
        forall|k: int| 0 <= k < vs.len() ==> #[trigger] is_obj_vertex(vs[k], positions, texcoords, k),
        0 <= i < vs.len(),
    ensures
        words[5 * i] == positions[3 * i],
        words[5 * i + 1] == positions[3 * i + 1],
        words[5 * i + 2] == positions[3 * i + 2],
        words[5 * i + 3] == texcoords[2 * i],
        words[5 * i + 4] == texcoords[2 * i + 1],
{
    assert(is_obj_vertex(vs[i], positions, texcoords, i));
    assert(words[5 * i + 0] == vs[i].position@[0]);
    assert(words[5 * i + 1] == vs[i].position@[1]);
    assert(words[5 * i + 2] == vs[i].position@[2]);
    assert(words[5 * i + 3 + 0] == vs[i].uv@[0]);
    assert(words[5 * i + 3 + 1] == vs[i].uv@[1]);
}

/// The bytes of the vertex buffer holding `vertices`.
pub fn obj_vertex_bytes(vertices: &[ObjVertex]) -> (bytes: Vec<u8>)
    ensures
        bytes@ == machine_image(obj_stream_words(vertices@)),
        obj_lays_out(obj_stream_words(vertices@), vertices@),
{
    proof {
        lemma_obj_stream_lays_out(vertices@);
    }
    let mut words: Vec<u32> = Vec::new();
    let n = vertices.len();
    for i in 0..n
        invariant
            n == vertices@.len(),
            words@ == obj_stream_words(vertices@.take(i as int)),
    {
        let v = &vertices[i];
        assert(vertices@.take(i + 1).drop_last() =~= vertices@.take(i as int));
        words.push(v.position[0]);
        words.push(v.position[1]);
        words.push(v.position[2]);
        words.push(v.uv[0]);
        words.push(v.uv[1]);
        assert(words@ =~= obj_stream_words(vertices@.take(i + 1)));
    }
    assert(vertices@.take(n as int) =~= vertices@);
    words_as_bytes(words.as_slice())
}

/// The bytes of an index buffer holding `indices`.
pub fn index_bytes(indices: &[u32]) -> (bytes: Vec<u8>)
    ensures
        bytes@ == machine_image(indices@),
{
    words_as_bytes(indices)
}

/// The upload of the first model of an OBJ file: one vertex per triple of
/// positions with its texture coordinate, and the model's own indices.
pub fn obj_mesh_upload(positions: &[u32], texcoords: &[u32], indices: &[u32]) -> (u: MeshUpload)
    requires
        obj_input_ok(positions@, texcoords@),
    ensures
        exists|vs: Seq<ObjVertex>|
            {
                &&& vs.len() == positions@.len() / 3
                &&& forall|i: int|
                    0 <= i < vs.len() ==> #[trigger] is_obj_vertex(vs[i], positions@, texcoords@, i)
                &&& u.vertex_bytes@ == machine_image(#[trigger] obj_stream_words(vs))
                &&& obj_lays_out(obj_stream_words(vs), vs)
            },
        u.index_bytes@ == machine_image(indices@),
        u.index_count == indices@.len() as u32,
{
    let vertices = obj_vertices(positions, texcoords);
    let vertex_bytes = obj_vertex_bytes(vertices.as_slice());
    assert(vertices@.len() == positions@.len() / 3);
    MeshUpload { vertex_bytes, index_bytes: index_bytes(indices), index_count: indices.len() as u32 }
}

} // verus!
