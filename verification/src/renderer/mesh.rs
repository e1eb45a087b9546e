//! Assembling one indexed mesh out of the models of an OBJ file.

use vstd::prelude::*;

use crate::bytes::machine_image;
use crate::gfx::vertex::{Vertex, lays_out, stream_words, vertex_bytes};
use crate::mesh::{MeshUpload, index_bytes};

verus! {

/// One model's mesh as an OBJ loader hands it over: flat position, normal
/// and texture-coordinate arrays (IEEE-754 bit patterns of 32-bit floats)
/// and triangle indices local to the model.
pub struct ObjMesh {
    pub positions: Vec<u32>,
    pub normals: Vec<u32>,
    pub texcoords: Vec<u32>,
    pub indices: Vec<u32>,
}

/// A mesh ready for upload: its vertices and its triangle indices.
pub struct MeshData {
    pub vertices: Vec<Vertex>,
    pub indices: Vec<u32>,
}

/// Number of whole vertices in a model: one per three position values.
pub open spec fn vertex_count(m: ObjMesh) -> nat {
    m.positions@.len() / 3
}

/// The model has a normal and a texture coordinate for every vertex.
pub open spec fn well_sized(m: ObjMesh) -> bool {
    &&& m.normals@.len() >= 3 * vertex_count(m)
    &&& m.texcoords@.len() >= 2 * vertex_count(m)
}

/// `v` is vertex `i` of model `m`.
pub open spec fn is_obj_vertex(v: Vertex, m: ObjMesh, i: int) -> bool {
    &&& v.position@ == seq![m.positions@[3 * i], m.positions@[3 * i + 1], m.positions@[3 * i + 2]]
    &&& v.normal@ == seq![m.normals@[3 * i], m.normals@[3 * i + 1], m.normals@[3 * i + 2]]
    &&& v.uv@ == seq![m.texcoords@[2 * i], m.texcoords@[2 * i + 1]]
}

/// Number of vertices in all of `ms`.
pub open spec fn total_vertices(ms: Seq<ObjMesh>) -> nat
    decreases ms.len(),
{
    if ms.len() == 0 {
        0
    } else {
        total_vertices(ms.drop_last()) + vertex_count(ms.last())
    }
}

/// Index of the first vertex of model `k` in the merged mesh.
pub open spec fn base_vertex(ms: Seq<ObjMesh>, k: int) -> nat {
    total_vertices(ms.take(k))
}

/// `vs` holds the vertices of every model of `ms`, model after model.
pub open spec fn vertices_match(vs: Seq<Vertex>, ms: Seq<ObjMesh>) -> bool
    decreases ms.len(),
{
    &&& vs.len() == total_vertices(ms)
    &&& ms.len() > 0 ==> {
        let prev = total_vertices(ms.drop_last());
        &&& vertices_match(vs.take(prev as int), ms.drop_last())
        &&& forall|i: int|
            0 <= i < vertex_count(ms.last()) ==> #[trigger] is_obj_vertex(vs[prev + i], ms.last(), i)
    }
}

/// The merged index list: each model's indices moved up by the number of
/// vertices before it (taken modulo 2^32, as a `u32` count).
pub open spec fn merged_indices(ms: Seq<ObjMesh>) -> Seq<u32>
    decreases ms.len(),
{
    if ms.len() == 0 {
        Seq::empty()
    } else {
        let base = total_vertices(ms.drop_last()) as u32;
        merged_indices(ms.drop_last()) + ms.last().indices@.map_values(|x: u32| (base + x) as u32)
    }
}

/// Moving model `k`'s indices up by its base vertex never passes `u32::MAX`.
pub open spec fn indices_fit(ms: Seq<ObjMesh>) -> bool {
    forall|k: int, j: int|
        0 <= k < ms.len() && 0 <= j < ms[k].indices@.len() ==> (base_vertex(ms, k) as u32)
            + #[trigger] ms[k].indices@[j] <= u32::MAX
}

/// Every model has a normal and a texture coordinate for each vertex.
pub open spec fn all_well_sized(ms: Seq<ObjMesh>) -> bool {
    forall|k: int| 0 <= k < ms.len() ==> #[trigger] well_sized(ms[k])
}

/// Number of indices in the first `k` models.
pub open spec fn indices_before(ms: Seq<ObjMesh>, k: int) -> nat
    decreases k,
{
    if k <= 0 {
        0
    } else {
        indices_before(ms, k - 1) + ms[k - 1].indices@.len()
    }
}

proof fn lemma_indices_before_prefix(ms: Seq<ObjMesh>, k: int)
    requires
        ms.len() > 0,
        0 <= k < ms.len(),
    ensures
        indices_before(ms, k) == indices_before(ms.drop_last(), k),
    decreases k,
{
    if k > 0 {
        lemma_indices_before_prefix(ms, k - 1);
        assert(ms[k - 1] == ms.drop_last()[k - 1]);
    }
}

proof fn lemma_indices_before_mono(ms: Seq<ObjMesh>, i: int, k: int)
    requires
        0 <= i <= k,
    ensures
        indices_before(ms, i) <= indices_before(ms, k),
    decreases k - i,
{
    if i < k {
        lemma_indices_before_mono(ms, i, k - 1);
    }
}

proof fn lemma_total_take_step(ms: Seq<ObjMesh>, k: int)
    requires
        0 <= k < ms.len(),
    ensures
        total_vertices(ms.take(k + 1)) == total_vertices(ms.take(k)) + vertex_count(ms[k]),
{
    assert(ms.take(k + 1).drop_last() =~= ms.take(k));
    assert(ms.take(k + 1).last() == ms[k]);
}

proof fn lemma_total_take_le(ms: Seq<ObjMesh>, k: int)
    requires
        0 <= k <= ms.len(),
    ensures
        total_vertices(ms.take(k)) <= total_vertices(ms),
    decreases ms.len(),
{
    if k == ms.len() {
        assert(ms.take(k) =~= ms);
    } else {
        let p = ms.drop_last();
        assert(ms.take(k) =~= p.take(k));
        lemma_total_take_le(p, k);
    }
}

/// Index `j` of model `k` lands at position `indices_before(ms, k) + j` of
/// the merged list, moved up by the number of vertices of all models before
/// model `k` (as a `u32` count); the merged list holds the indices of every
/// model and nothing else.
pub proof fn lemma_merged_index_at(ms: Seq<ObjMesh>)
    ensures
        merged_indices(ms).len() == indices_before(ms, ms.len() as int),
        forall|k: int, j: int|
            0 <= k < ms.len() && 0 <= j < ms[k].indices@.len() ==> merged_indices(ms)[indices_before(
                ms,
                k,
            ) + j] == (((base_vertex(ms, k) as u32) + #[trigger] ms[k].indices@[j]) as u32),
    decreases ms.len(),
{
    if ms.len() > 0 {
        let p = ms.drop_last();
        lemma_merged_index_at(p);
        let n = ms.len() - 1;
        lemma_indices_before_prefix(ms, n);
        let base = total_vertices(p) as u32;
        let tail = ms.last().indices@.map_values(|x: u32| (base + x) as u32);
        assert(merged_indices(ms) == merged_indices(p) + tail);
        assert forall|k: int, j: int|
            0 <= k < ms.len() && 0 <= j < ms[k].indices@.len() implies merged_indices(ms)[indices_before(
            ms,
            k,
        ) + j] == (((base_vertex(ms, k) as u32) + #[trigger] ms[k].indices@[j]) as u32) by {
            if k < n {
                lemma_indices_before_prefix(ms, k);
                lemma_indices_before_mono(p, k + 1, n);
                assert(ms[k] == p[k]);
                assert(ms.take(k) =~= p.take(k));
                assert(p[k].indices@[j] == ms[k].indices@[j]);
            } else {
                assert(ms.take(n) =~= p);
                assert(ms[k] == ms.last());
                assert(tail[j] == ((base + ms.last().indices@[j]) as u32));
            }
        }
    }
}

/// `vs` holding the merged vertices, vertex `i` of model `k` stands at
/// position `base_vertex(ms, k) + i`.
pub proof fn lemma_merged_vertex_at(ms: Seq<ObjMesh>, vs: Seq<Vertex>)
    requires
        vertices_match(vs, ms),
    ensures
        vs.len() == total_vertices(ms),
        forall|k: int, i: int|
            0 <= k < ms.len() && 0 <= i < vertex_count(ms[k]) ==> #[trigger] is_obj_vertex(
                vs[base_vertex(ms, k) + i],
                ms[k],
                i,
            ),
    decreases ms.len(),
{
    if ms.len() > 0 {
        let p = ms.drop_last();
        let prev = total_vertices(p);
        let head = vs.take(prev as int);
        lemma_merged_vertex_at(p, head);
        assert forall|k: int, i: int|
            0 <= k < ms.len() && 0 <= i < vertex_count(ms[k]) implies #[trigger] is_obj_vertex(
            vs[base_vertex(ms, k) + i],
            ms[k],
            i,
        ) by {
            if k < ms.len() - 1 {
                assert(ms[k] == p[k]);
                assert(ms.take(k) =~= p.take(k));
                lemma_total_take_step(p, k);
                lemma_total_take_le(p, k + 1);
                assert(is_obj_vertex(head[base_vertex(p, k) + i], p[k], i));
            } else {
                assert(ms.take(k) =~= p);
                assert(ms[k] == ms.last());
                assert(is_obj_vertex(vs[prev + i], ms.last(), i));
            }
        }
    }
}

/// With all vertices countable in a `u32`, index `j` of model `k` in the
/// merged list names exactly the merged vertex that is vertex
/// `ms[k].indices[j]` of model `k`.
pub proof fn lemma_merged_index_names_vertex(ms: Seq<ObjMesh>, vs: Seq<Vertex>, k: int, j: int)
    requires
        vertices_match(vs, ms),
        total_vertices(ms) <= u32::MAX,
        0 <= k < ms.len(),
        0 <= j < ms[k].indices@.len(),
        ms[k].indices@[j] < vertex_count(ms[k]),
    ensures
        merged_indices(ms)[indices_before(ms, k) + j] == base_vertex(ms, k) + ms[k].indices@[j],
        merged_indices(ms)[indices_before(ms, k) + j] < vs.len(),
        is_obj_vertex(
            vs[merged_indices(ms)[indices_before(ms, k) + j] as int],
            ms[k],
            ms[k].indices@[j] as int,
        ),
{
    lemma_merged_index_at(ms);
    lemma_merged_vertex_at(ms, vs);
    lemma_total_take_step(ms, k);
    lemma_total_take_le(ms, k + 1);
    let idx = ms[k].indices@[j];
    assert(merged_indices(ms)[indices_before(ms, k) + j] == (((base_vertex(ms, k) as u32) + idx) as u32));
    assert(is_obj_vertex(vs[base_vertex(ms, k) + idx], ms[k], idx as int));
}

/// The vertices of one model, in order.
fn model_vertices(m: &ObjMesh) -> (local: Vec<Vertex>)
    requires
        well_sized(*m),
    ensures
        local@.len() == vertex_count(*m),
        forall|i: int| 0 <= i < local@.len() ==> #[trigger] is_obj_vertex(local@[i], *m, i),
{
    let mut local: Vec<Vertex> = Vec::new();
    let n = m.positions.len() / 3;
    for i in 0..n
        invariant
            n == vertex_count(*m),
            well_sized(*m),
            local@.len() == i,
            forall|j: int| 0 <= j < i ==> #[trigger] is_obj_vertex(local@[j], *m, j),
    {
        assert(i * 3 + 2 < m.positions@.len()) by (nonlinear_arith)
            requires
                i < n,
                n == m.positions@.len() / 3,
        ;
        assert(i * 3 + 2 < m.normals@.len() && i * 2 + 1 < m.texcoords@.len()) by (nonlinear_arith)
            requires
                i < n,
                m.normals@.len() >= 3 * n,
                m.texcoords@.len() >= 2 * n,
        ;
        assert(m.positions@.len() == m.positions.len());
        assert(i * 3 + 2 <= usize::MAX);
        let px = m.positions[i * 3];
        let py = m.positions[i * 3 + 1];
        let pz = m.positions[i * 3 + 2];
        let nx = m.normals[i * 3];
        let ny = m.normals[i * 3 + 1];
        let nz = m.normals[i * 3 + 2];
        let u = m.texcoords[i * 2];
        let v = m.texcoords[i * 2 + 1];
        let vert = Vertex::new([px, py, pz], [nx, ny, nz], [u, v]);
        assert(vert.position@ =~= seq![px, py, pz]);
        assert(vert.normal@ =~= seq![nx, ny, nz]);
        assert(vert.uv@ =~= seq![u, v]);
        local.push(vert);
    }
    local
}

/// Merges the models of an OBJ file into one mesh: the vertices of each
/// model follow those of the models before it, and each model's indices are
/// moved up by the number of vertices already placed.
pub fn merge_models(models: &Vec<ObjMesh>) -> (data: MeshData)
    requires
        all_well_sized(models@),
        indices_fit(models@),
    ensures
        vertices_match(data.vertices@, models@),
        data.indices@ == merged_indices(models@),
        data.vertices@.len() == total_vertices(models@),
        forall|k: int, i: int|
            0 <= k < models@.len() && 0 <= i < vertex_count(models@[k]) ==> {
                let v = #[trigger] data.vertices@[base_vertex(models@, k) + i];
                let m = models@[k];
                &&& v.position@ == seq![m.positions@[3 * i], m.positions@[3 * i + 1], m.positions@[3 * i + 2]]
                &&& v.normal@ == seq![m.normals@[3 * i], m.normals@[3 * i + 1], m.normals@[3 * i + 2]]
                &&& v.uv@ == seq![m.texcoords@[2 * i], m.texcoords@[2 * i + 1]]
            },
        data.indices@.len() == indices_before(models@, models@.len() as int),
        forall|k: int, j: int|
            0 <= k < models@.len() && 0 <= j < models@[k].indices@.len() ==> data.indices@[indices_before(
                models@,
                k,
            ) + j] == (((base_vertex(models@, k) as u32) + #[trigger] models@[k].indices@[j]) as u32),
{
    let mut vertices: Vec<Vertex> = Vec::new();
    let mut indices: Vec<u32> = Vec::new();
    let count = models.len();
    for k in 0..count
        invariant
            count == models@.len(),
            all_well_sized(models@),
            indices_fit(models@),
            vertices_match(vertices@, models@.take(k as int)),
            indices@ == merged_indices(models@.take(k as int)),
    {
        let m = &models[k];
        let ghost done = models@.take(k as int);
        let ghost next = models@.take(k + 1);
        assert(next.drop_last() =~= done);
        assert(next.last() == models@[k as int]);
        assert(well_sized(models@[k as int]));
        let base = vertices.len() as u32;
        let ghost old_vertices = vertices@;
        let mut local = model_vertices(m);
        vertices.append(&mut local);
        assert(vertices@.take(old_vertices.len() as int) =~= old_vertices);
        assert(vertices_match(vertices@, next));
        let ghost old_indices = indices@;
        let n = m.indices.len();
        for j in 0..n
            invariant
                n == models@[k as int].indices@.len(),
                k < count,
                count == models@.len(),
                *m == models@[k as int],
                indices_fit(models@),
                base == total_vertices(models@.take(k as int)) as u32,
                indices@ == old_indices + models@[k as int].indices@.take(j as int).map_values(
                    |x: u32| (base + x) as u32,
                ),
        {
            let idx = m.indices[j];
            assert((base_vertex(models@, k as int) as u32) + models@[k as int].indices@[j as int] <= u32::MAX);
            indices.push(base + idx);
            assert(models@[k as int].indices@.take(j + 1) =~= models@[k as int].indices@.take(
                j as int,
            ).push(idx));
            assert(indices@ =~= old_indices + models@[k as int].indices@.take(j + 1).map_values(
                |x: u32| (base + x) as u32,
            ));
        }
        assert(models@[k as int].indices@.take(n as int) =~= models@[k as int].indices@);
        assert(indices@ =~= merged_indices(next));
    }
    assert(models@.take(count as int) =~= models@);
    proof {
        lemma_merged_index_at(models@);
        lemma_merged_vertex_at(models@, vertices@);
        assert forall|k: int, i: int|
            0 <= k < models@.len() && 0 <= i < vertex_count(models@[k]) implies {
            let v = #[trigger] vertices@[base_vertex(models@, k) + i];
            let m = models@[k];
            &&& v.position@ == seq![m.positions@[3 * i], m.positions@[3 * i + 1], m.positions@[3 * i + 2]]
            &&& v.normal@ == seq![m.normals@[3 * i], m.normals@[3 * i + 1], m.normals@[3 * i + 2]]
            &&& v.uv@ == seq![m.texcoords@[2 * i], m.texcoords@[2 * i + 1]]
        } by {
            assert(is_obj_vertex(vertices@[base_vertex(models@, k) + i], models@[k], i));
        }
    }
    MeshData { vertices, indices }
}

proof fn lemma_u32_cast_le(t: nat)
    requires
        t <= usize::MAX,
    ensures
        (t as u32) <= t,
{
    let u: usize = t as usize;
    assert((u as u32) <= u) by (bit_vector);
}

proof fn lemma_indices_fit_prefix(ms: Seq<ObjMesh>)
    requires
        ms.len() > 0,
        indices_fit(ms),
    ensures
        indices_fit(ms.drop_last()),
        forall|j: int|
            0 <= j < ms.last().indices@.len() ==> (total_vertices(ms.drop_last()) as u32)
                + #[trigger] ms.last().indices@[j] <= u32::MAX,
{
    let p = ms.drop_last();
    assert forall|k: int, j: int|
        0 <= k < p.len() && 0 <= j < p[k].indices@.len() implies (base_vertex(p, k) as u32)
        + #[trigger] p[k].indices@[j] <= u32::MAX by {
        assert(p.take(k) =~= ms.take(k));
        assert(ms[k] == p[k]);
    }
    assert(ms.take(ms.len() - 1) =~= p);
    assert forall|j: int|
        0 <= j < ms.last().indices@.len() implies (total_vertices(ms.drop_last()) as u32)
        + #[trigger] ms.last().indices@[j] <= u32::MAX by {
        assert(ms.last() == ms[ms.len() - 1]);
        assert(base_vertex(ms, ms.len() - 1) == total_vertices(p));
    }
}

/// Each model's indices naming its own vertices, every index of the merged
/// mesh names one of the merged vertices.
pub proof fn lemma_merged_indices_in_range(ms: Seq<ObjMesh>)
    requires
        forall|k: int, j: int|
            0 <= k < ms.len() && 0 <= j < ms[k].indices@.len() ==> #[trigger] ms[k].indices@[j]
                < vertex_count(ms[k]),
        indices_fit(ms),
        total_vertices(ms) <= usize::MAX,
    ensures
        forall|t: int|
            0 <= t < merged_indices(ms).len() ==> #[trigger] merged_indices(ms)[t] < total_vertices(
                ms,
            ),
    decreases ms.len(),
{
    if ms.len() > 0 {
        let p = ms.drop_last();
        lemma_indices_fit_prefix(ms);
        assert forall|k: int, j: int|
            0 <= k < p.len() && 0 <= j < p[k].indices@.len() implies #[trigger] p[k].indices@[j]
            < vertex_count(p[k]) by {
            assert(p[k] == ms[k]);
        }
        lemma_merged_indices_in_range(p);
        let base = total_vertices(p);
        lemma_u32_cast_le(base);
        let last = ms.last();
        assert(last == ms[ms.len() - 1]);
        let tail = last.indices@.map_values(|x: u32| ((base as u32) + x) as u32);
        assert(merged_indices(ms) == merged_indices(p) + tail);
        assert forall|t: int| 0 <= t < merged_indices(ms).len() implies #[trigger] merged_indices(
            ms,
        )[t] < total_vertices(ms) by {
            if t >= merged_indices(p).len() {
                let j = t - merged_indices(p).len();
                assert(last.indices@[j] < vertex_count(last));
                assert((base as u32) + last.indices@[j] <= u32::MAX);
                assert(merged_indices(ms)[t] == tail[j]);
            }
        }
    }
}

/// The upload of all models of an OBJ file merged into one mesh.
pub fn merged_mesh_upload(models: &Vec<ObjMesh>) -> (u: MeshUpload)
    requires
        all_well_sized(models@),
        indices_fit(models@),
    ensures
        exists|vs: Seq<Vertex>|
            #[trigger] vertices_match(vs, models@) && u.vertex_bytes@ == machine_image(stream_words(vs)),
        u.index_bytes@ == machine_image(merged_indices(models@)),
        u.index_count == merged_indices(models@).len() as u32,
        merged_indices(models@).len() == indices_before(models@, models@.len() as int),
        forall|k: int, j: int|
            0 <= k < models@.len() && 0 <= j < models@[k].indices@.len() ==> merged_indices(
                models@,
            )[indices_before(models@, k) + j] == (((base_vertex(models@, k) as u32)
                + #[trigger] models@[k].indices@[j]) as u32),
        exists|vs: Seq<Vertex>|
            #[trigger] vertices_match(vs, models@) && lays_out(stream_words(vs), vs),
{
    let data = merge_models(models);
    let vb = vertex_bytes(data.vertices.as_slice());
    let ib = index_bytes(data.indices.as_slice());
    assert(vertices_match(data.vertices@, models@));
    proof {
        lemma_merged_index_at(models@);
        crate::gfx::vertex::lemma_stream_lays_out(data.vertices@);
    }
    MeshUpload { vertex_bytes: vb, index_bytes: ib, index_count: data.indices.len() as u32 }
}

/// A file of one model merges to that model's own indices, so loading its
/// first model alone and merging all its models give the same index count
/// and the same index bytes.
pub proof fn lemma_single_model_keeps_indices(m: ObjMesh)
    ensures
        merged_indices(seq![m]) == m.indices@,
        merged_indices(seq![m]).len() as u32 == m.indices@.len() as u32,
        machine_image(merged_indices(seq![m])) == machine_image(m.indices@),
{
    let ms = seq![m];
    assert(ms.drop_last() =~= Seq::<ObjMesh>::empty());
    assert(ms.last() == m);
    assert(total_vertices(ms.drop_last()) == 0);
    assert(merged_indices(ms.drop_last()) =~= Seq::<u32>::empty());
    assert(m.indices@.map_values(|x: u32| (0u32 + x) as u32) =~= m.indices@);
    assert(merged_indices(ms) =~= m.indices@);
}

/// A file of one model merges to that model's own vertices.
pub proof fn lemma_single_model_keeps_vertices(m: ObjMesh, vs: Seq<Vertex>)
    requires
        vertices_match(vs, seq![m]),
    ensures
        vs.len() == vertex_count(m),
        forall|i: int| 0 <= i < vs.len() ==> #[trigger] is_obj_vertex(vs[i], m, i),
{
    let ms = seq![m];
    assert(ms.drop_last() =~= Seq::<ObjMesh>::empty());
    assert(ms.last() == m);
    assert(total_vertices(ms.drop_last()) == 0);
    assert forall|i: int| 0 <= i < vs.len() implies #[trigger] is_obj_vertex(vs[i], m, i) by {
        assert(is_obj_vertex(vs[0 + i], ms.last(), i));
    }
}

} // verus!
