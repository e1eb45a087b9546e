use wgpu_test::layout::VertexFormat;
use wgpu_test::mesh::{color_mesh_upload, index_bytes, obj_mesh_upload, obj_vertex_bytes, obj_vertices};
use wgpu_test::renderer::mesh::{merge_models, merged_mesh_upload, ObjMesh};
use wgpu_test::gfx::vertex as gv;
use wgpu_test::vertex as cv;

fn bits(v: &[f32]) -> Vec<u32> {
    v.iter().map(|f| f.to_bits()).collect()
}

fn triangle(offset: f32) -> ObjMesh {
    ObjMesh {
        positions: bits(&[offset, 0.0, 0.0, offset + 1.0, 0.0, 0.0, offset, 1.0, 0.0]),
        normals: bits(&[0.0, 0.0, 1.0, 0.0, 0.0, 1.0, 0.0, 0.0, 1.0]),
        texcoords: bits(&[0.0, 0.0, 1.0, 0.0, 0.0, 1.0]),
        indices: vec![0, 1, 2],
    }
}

#[test]
fn merge_offsets_later_indices() {
    let data = merge_models(&vec![triangle(0.0), triangle(5.0)]);
    assert_eq!(data.vertices.len(), 6);
    assert_eq!(data.indices, vec![0, 1, 2, 3, 4, 5]);
    assert_eq!(f32::from_bits(data.vertices[3].position[0]), 5.0);
    assert_eq!(f32::from_bits(data.vertices[4].position[0]), 6.0);
    assert_eq!(f32::from_bits(data.vertices[2].uv[1]), 1.0);
    assert_eq!(f32::from_bits(data.vertices[5].normal[2]), 1.0);
}

#[test]
fn merge_of_nothing_is_empty() {
    let data = merge_models(&vec![]);
    assert!(data.vertices.is_empty());
    assert!(data.indices.is_empty());
}

#[test]
fn merge_ignores_trailing_positions() {
    let mut m = triangle(0.0);
    m.positions.push(9.0f32.to_bits());
    m.positions.push(9.0f32.to_bits());
    let data = merge_models(&vec![m, triangle(1.0)]);
    assert_eq!(data.vertices.len(), 6);
    assert_eq!(data.indices[3], 3);
}

#[test]
fn merge_keeps_index_order_within_a_model() {
    let mut m = triangle(0.0);
    m.indices = vec![2, 0, 1, 1];
    let data = merge_models(&vec![triangle(0.0), m]);
    assert_eq!(data.indices, vec![0, 1, 2, 5, 3, 4, 4]);
}

#[test]
fn obj_vertices_pairs_positions_with_texcoords() {
    let vs = obj_vertices(&bits(&[1.0, 2.0, 3.0, 4.0, 5.0, 6.0]), &bits(&[0.5, 0.25, 0.75, 1.0]));
    assert_eq!(vs.len(), 2);
    assert_eq!(f32::from_bits(vs[1].position[0]), 4.0);
    assert_eq!(f32::from_bits(vs[1].uv[0]), 0.75);
    assert_eq!(f32::from_bits(vs[0].uv[1]), 0.25);
    let bytes = obj_vertex_bytes(&vs);
    assert_eq!(bytes.len(), 40);
    assert_eq!(&bytes[0..4], &1.0f32.to_ne_bytes());
    assert_eq!(&bytes[36..40], &1.0f32.to_ne_bytes());
}

#[test]
fn bytes_are_native_words() {
    let b = index_bytes(&[0x0102_0304, 0xA0B0_C0D0]);
    assert_eq!(b.len(), 8);
    assert_eq!(&b[0..4], &0x0102_0304u32.to_ne_bytes());
    assert_eq!(&b[4..8], &0xA0B0_C0D0u32.to_ne_bytes());
    assert_eq!(index_bytes(&[7]), 7u32.to_ne_bytes().to_vec());
    assert!(index_bytes(&[]).is_empty());
}

#[test]
fn gfx_vertex_layout_and_bytes() {
    let layout = gv::Vertex::desc();
    assert_eq!(layout.array_stride, 32);
    let offsets: Vec<u64> = layout.attributes.iter().map(|a| a.offset).collect();
    assert_eq!(offsets, vec![0, 12, 24]);
    let locations: Vec<u32> = layout.attributes.iter().map(|a| a.shader_location).collect();
    assert_eq!(locations, vec![0, 1, 2]);
    assert!(matches!(layout.attributes[2].format, VertexFormat::Float32x2));
    assert_eq!(layout.attributes[0].format.size(), 12);
    let v = gv::Vertex::new([1, 2, 3], [4, 5, 6], [7, 8]);
    assert_eq!(gv::vertex_words(&[v]), vec![1, 2, 3, 4, 5, 6, 7, 8]);
    let v2 = gv::Vertex::new([1, 2, 3], [4, 5, 6], [7, 8]);
    let b = gv::vertex_bytes(&[v2]);
    assert_eq!(b.len(), 32);
    assert_eq!(&b[24..28], &7u32.to_ne_bytes());
}

#[test]
fn color_vertex_layout_and_bytes() {
    let layout = cv::Vertex::desc();
    assert_eq!(layout.array_stride, 24);
    assert_eq!(layout.attributes.len(), 2);
    assert_eq!(layout.attributes[1].offset, 12);
    assert_eq!(layout.attributes[1].shader_location, 1);
    assert_eq!(layout.attributes[1].format.size(), 12);
    let v = cv::Vertex::new(1, 2, 3, 4, 5, 6);
    assert_eq!(v.color, [4, 5, 6]);
    assert_eq!(cv::vertex_words(&[v]), vec![1, 2, 3, 4, 5, 6]);
    assert_eq!(cv::vertex_bytes(&[cv::Vertex::new(1, 2, 3, 4, 5, 6)]).len(), 24);
}

#[test]
fn single_model_loads_agree_on_indices() {
    let mut m = triangle(2.0);
    m.indices = vec![2, 1, 0, 0];
    let first = obj_mesh_upload(&m.positions, &m.texcoords, &m.indices);
    let merged = merged_mesh_upload(&vec![m]);
    assert_eq!(first.index_count, 4);
    assert_eq!(merged.index_count, 4);
    assert_eq!(first.index_bytes, merged.index_bytes);
    assert_eq!(first.vertex_bytes.len(), 3 * 20);
    assert_eq!(merged.vertex_bytes.len(), 3 * 32);
}

#[test]
fn merged_upload_matches_merge() {
    let u = merged_mesh_upload(&vec![triangle(0.0), triangle(5.0)]);
    assert_eq!(u.index_count, 6);
    let words: Vec<u32> = vec![0, 1, 2, 3, 4, 5];
    assert_eq!(u.index_bytes, index_bytes(&words));
    assert_eq!(&u.vertex_bytes[96..100], &5.0f32.to_ne_bytes());
}

#[test]
fn color_upload_counts_and_bytes() {
    let vs = vec![cv::Vertex::new(1, 2, 3, 4, 5, 6), cv::Vertex::new(7, 8, 9, 10, 11, 12)];
    let u = color_mesh_upload(&vs, &[0, 1, 1]);
    assert_eq!(u.index_count, 3);
    assert_eq!(u.index_bytes, index_bytes(&[0, 1, 1]));
    assert_eq!(u.vertex_bytes.len(), 48);
    assert_eq!(&u.vertex_bytes[24..28], &7u32.to_ne_bytes());
}

#[test]
fn same_words_same_bytes() {
    let w = [0xDEAD_BEEFu32, 1, 2];
    assert_eq!(index_bytes(&w), index_bytes(&w));
}
