use ozy::io::IndexType;
use ozy::mesh::{MeshError, OzyMesh, OzyMeshOBSOLETE};

fn w(out: &mut Vec<u8>, v: u32) {
    out.extend_from_slice(&v.to_le_bytes());
}

fn f(out: &mut Vec<u8>, v: f32) {
    out.extend_from_slice(&v.to_le_bytes());
}

fn mesh_bytes(mip_count: u32) -> Vec<u8> {
    let mut b = Vec::new();
    w(&mut b, 1);
    w(&mut b, 1);
    w(&mut b, 1);
    // material
    for c in [1.0f32, 0.5, 0.25, 1.0, 0.0, 0.0, 0.1, 0.8] {
        f(&mut b, c);
    }
    w(&mut b, 2);
    w(&mut b, 0xffff_ffff);
    w(&mut b, 0);
    w(&mut b, 0xffff_ffff);
    // primitive
    w(&mut b, 0);
    w(&mut b, 3);
    for i in [0u32, 1, 2] {
        w(&mut b, i);
    }
    w(&mut b, 2);
    f(&mut b, 1.5);
    f(&mut b, -2.0);
    for _ in 0..3 {
        w(&mut b, 0);
    }
    // texture: 4x4, one level of one block
    w(&mut b, 4);
    w(&mut b, 4);
    w(&mut b, mip_count);
    b.extend((0..16u8).collect::<Vec<_>>());
    b
}

#[test]
fn reads_mesh_records() {
    let m = OzyMesh::from_bytes(String::from("rock"), &mesh_bytes(1)).unwrap();
    assert_eq!(m.name, "rock");
    assert_eq!(m.materials.len(), 1);
    let mat = &m.materials[0];
    assert_eq!(f32::from_bits(mat.base_color[1]), 0.5);
    assert_eq!(f32::from_bits(mat.base_roughness), 0.8);
    assert_eq!(mat.color_bc7_idx, Some(2));
    assert_eq!(mat.normal_bc7_idx, None);
    assert_eq!(mat.arm_bc7_idx, Some(0));
    assert_eq!(mat.emissive_bc7_idx, None);
    let p = &m.primitives[0];
    assert_eq!(p.material_idx, 0);
    assert_eq!(p.indices, vec![0, 1, 2]);
    assert_eq!(p.vertex_positions, vec![1.5f32.to_bits(), (-2.0f32).to_bits()]);
    assert!(p.vertex_uvs.is_empty());
    let t = &m.textures[0];
    assert_eq!((t.width, t.height, t.mipmap_count), (4, 4, 1));
    assert_eq!(t.bc7_bytes, (0..16u8).collect::<Vec<_>>());
}

#[test]
fn mesh_errors() {
    let b = mesh_bytes(1);
    assert_eq!(OzyMesh::from_bytes(String::new(), &b[..b.len() - 1]).err(), Some(MeshError::Truncated));
    assert_eq!(OzyMesh::from_bytes(String::new(), &b[..10]).err(), Some(MeshError::Truncated));
    assert_eq!(OzyMesh::from_bytes(String::new(), &mesh_bytes(33)).err(), Some(MeshError::TextureTooLarge));
    // two levels want 32 bytes of blocks where 16 are given
    assert_eq!(OzyMesh::from_bytes(String::new(), &mesh_bytes(2)).err(), Some(MeshError::Truncated));
}

fn legacy_bytes(colors: u8, vertex_bytes: u32, index_bytes: u32, wide: bool) -> Vec<u8> {
    let mut b = vec![colors];
    if colors == 0 {
        w(&mut b, 4);
        b.extend_from_slice(b"rock");
    } else {
        for k in 0..(4 * colors as u32) {
            f(&mut b, k as f32);
        }
    }
    b.push(1);
    f(&mut b, 0.5);
    f(&mut b, -0.5);
    w(&mut b, vertex_bytes);
    for k in 0..(vertex_bytes / 4) {
        f(&mut b, k as f32 + 0.25);
    }
    w(&mut b, index_bytes);
    for k in 0..(index_bytes / 2) {
        if wide {
            w(&mut b, k + 7);
        } else {
            b.extend_from_slice(&(k as u16 + 7).to_le_bytes());
        }
    }
    b
}

#[test]
fn reads_legacy_mesh() {
    let m = OzyMeshOBSOLETE::from_bytes(&legacy_bytes(0, 8, 6, false), IndexType::U16).unwrap();
    assert_eq!(m.texture_name, b"rock".to_vec());
    assert!(m.colors.is_empty());
    assert!(m.is_transparent);
    assert_eq!(m.uv_velocity, [0.5f32.to_bits(), (-0.5f32).to_bits()]);
    assert_eq!(m.vertices, vec![0.25f32.to_bits(), 1.25f32.to_bits()]);
    assert_eq!(m.indices, vec![7, 8, 9]);
}

#[test]
fn reads_legacy_mesh_with_colors_and_wide_indices() {
    let m = OzyMeshOBSOLETE::from_bytes(&legacy_bytes(1, 4, 4, true), IndexType::U32).unwrap();
    assert!(m.texture_name.is_empty());
    assert_eq!(m.colors, vec![0.0f32.to_bits(), 1.0f32.to_bits(), 2.0f32.to_bits(), 3.0f32.to_bits()]);
    assert_eq!(m.indices, vec![7, 8]);
}

#[test]
fn legacy_mesh_refusals() {
    assert!(OzyMeshOBSOLETE::from_bytes(&[], IndexType::U16).is_none());
    let b = legacy_bytes(0, 8, 6, false);
    assert!(OzyMeshOBSOLETE::from_bytes(&b[..b.len() - 1], IndexType::U16).is_none());
    assert!(OzyMeshOBSOLETE::from_bytes(&b, IndexType::U32).is_none());
    let mut odd = legacy_bytes(0, 8, 6, false);
    // vertex byte count of 8 becomes 6: not a whole number of words
    let at = 1 + 4 + 4 + 1 + 8;
    odd[at..at + 4].copy_from_slice(&6u32.to_le_bytes());
    assert!(OzyMeshOBSOLETE::from_bytes(&odd, IndexType::U16).is_none());
}
