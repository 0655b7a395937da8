use ozy::collision::{get_terrain_triangle, Terrain, TerrainError, Vec3Bits};

fn push_u32(out: &mut Vec<u8>, v: u32) {
    out.extend_from_slice(&v.to_le_bytes());
}

fn push_vec3(out: &mut Vec<u8>, v: [f32; 3]) {
    for c in v {
        out.extend_from_slice(&c.to_le_bytes());
    }
}

fn ozt_file(vertices: &[[f32; 3]], indices: &[u16], normals: &[[f32; 3]]) -> Vec<u8> {
    let mut out = Vec::new();
    push_u32(&mut out, (vertices.len() * 12) as u32);
    for v in vertices {
        push_vec3(&mut out, *v);
    }
    push_u32(&mut out, (indices.len() * 2) as u32);
    for i in indices {
        out.extend_from_slice(&i.to_le_bytes());
    }
    push_u32(&mut out, (normals.len() * 12) as u32);
    for n in normals {
        push_vec3(&mut out, *n);
    }
    out
}

fn bits(v: [f32; 3]) -> Vec3Bits {
    Vec3Bits { x: v[0].to_bits(), y: v[1].to_bits(), z: v[2].to_bits() }
}

fn quad_terrain() -> Terrain<[f32; 3]> {
    let vertices = vec![[0.0, 0.0, 0.0], [1.0, 0.0, 0.0], [0.0, 1.0, 0.0], [1.0, 1.0, 0.5]];
    let indices = vec![0, 1, 2, 1, 3, 2];
    let normals = vec![[0.0, 0.0, 1.0], [-0.3, -0.3, 0.9]];
    Terrain::new(vertices, indices, normals).unwrap()
}

#[test]
fn triangle_normal_is_stored_face_normal() {
    let t = quad_terrain();
    for i in (0..t.indices.len()).step_by(3) {
        let tri = get_terrain_triangle(&t, i);
        assert_eq!(tri.normal, t.face_normals[i / 3]);
    }
}

#[test]
fn triangle_corners_follow_indices() {
    let t = quad_terrain();
    let tri = get_terrain_triangle(&t, 3);
    assert_eq!(tri.a, [1.0, 0.0, 0.0]);
    assert_eq!(tri.b, [1.0, 1.0, 0.5]);
    assert_eq!(tri.c, [0.0, 1.0, 0.0]);
    assert_eq!(tri.normal, [-0.3, -0.3, 0.9]);
    assert_eq!(t.triangle_count(), 2);
}

#[test]
fn terrain_new_refuses_broken_meshes() {
    let v = vec![[0.0f32; 3]; 3];
    let n = vec![[0.0f32, 0.0, 1.0]];
    assert_eq!(Terrain::new(v.clone(), vec![0, 1], n.clone()).unwrap_err(), TerrainError::IncompleteTriangle);
    assert_eq!(Terrain::new(v.clone(), vec![0, 1, 2], vec![]).unwrap_err(), TerrainError::FaceCountMismatch);
    assert_eq!(Terrain::new(v.clone(), vec![0, 1, 3], n.clone()).unwrap_err(), TerrainError::IndexOutOfRange);
    assert!(Terrain::new(v, vec![2, 1, 0], n).is_ok());
}

#[test]
fn reads_terrain_file() {
    let vertices = [[0.0, 0.0, 0.0], [2.0, 0.0, 0.0], [0.0, 2.0, 1.5]];
    let normals = [[0.0, 0.0, 1.0]];
    let mut bytes = ozt_file(&vertices, &[0, 1, 2], &normals);
    bytes.push(0xaa);
    let t = Terrain::from_ozt_bytes(&bytes).unwrap();
    assert_eq!(t.vertices, vertices.iter().map(|v| bits(*v)).collect::<Vec<_>>());
    assert_eq!(t.indices, vec![0, 1, 2]);
    assert_eq!(t.face_normals, vec![bits([0.0, 0.0, 1.0])]);
    assert_eq!(f32::from_bits(t.vertices[2].z), 1.5);
    let tri = get_terrain_triangle(&t, 0);
    assert_eq!(tri.normal, t.face_normals[0]);
}

#[test]
fn odd_index_byte_count_rounds_down() {
    let vertices = [[0.0, 0.0, 0.0], [1.0, 0.0, 0.0], [0.0, 1.0, 0.0]];
    let mut bytes = Vec::new();
    push_u32(&mut bytes, 36);
    for v in &vertices {
        push_vec3(&mut bytes, *v);
    }
    push_u32(&mut bytes, 7);
    for i in [0u16, 1, 2] {
        bytes.extend_from_slice(&i.to_le_bytes());
    }
    push_u32(&mut bytes, 12);
    push_vec3(&mut bytes, [0.0, 0.0, 1.0]);
    let t = Terrain::from_ozt_bytes(&bytes).unwrap();
    assert_eq!(t.indices, vec![0, 1, 2]);
    assert_eq!(t.face_normals.len(), 1);
}

#[test]
fn empty_terrain_file() {
    let bytes = ozt_file(&[], &[], &[]);
    let t = Terrain::from_ozt_bytes(&bytes).unwrap();
    assert_eq!(t.triangle_count(), 0);
}

#[test]
fn truncated_terrain_file() {
    let bytes = ozt_file(&[[0.0; 3], [1.0; 3], [2.0; 3]], &[0, 1, 2], &[[0.0, 0.0, 1.0]]);
    for cut in [0, 3, 20, 40, 45, bytes.len() - 1] {
        assert_eq!(Terrain::from_ozt_bytes(&bytes[..cut]).unwrap_err(), TerrainError::Truncated);
    }
}

#[test]
fn misaligned_terrain_file() {
    let mut bytes = Vec::new();
    push_u32(&mut bytes, 8);
    bytes.extend_from_slice(&[0u8; 8]);
    push_u32(&mut bytes, 0);
    push_u32(&mut bytes, 0);
    assert_eq!(Terrain::from_ozt_bytes(&bytes).unwrap_err(), TerrainError::Misaligned);
}

#[test]
fn terrain_file_with_bad_index() {
    let bytes = ozt_file(&[[0.0; 3], [1.0; 3], [2.0; 3]], &[0, 1, 9], &[[0.0, 0.0, 1.0]]);
    assert_eq!(Terrain::from_ozt_bytes(&bytes).unwrap_err(), TerrainError::IndexOutOfRange);
    let bytes = ozt_file(&[[0.0; 3], [1.0; 3], [2.0; 3]], &[0, 1, 2], &[]);
    assert_eq!(Terrain::from_ozt_bytes(&bytes).unwrap_err(), TerrainError::FaceCountMismatch);
}

#[test]
fn check_reports_mesh_errors() {
    let mut t = quad_terrain();
    assert_eq!(t.check(), None);
    t.indices[4] = 4;
    assert_eq!(t.check(), Some(TerrainError::IndexOutOfRange));
    t.face_normals.pop();
    assert_eq!(t.check(), Some(TerrainError::FaceCountMismatch));
    t.indices.pop();
    assert_eq!(t.check(), Some(TerrainError::IncompleteTriangle));
}
