use crate::io::le_u32;
use vstd::prelude::*;

verus! {

/// A point or direction in 3D space held as the IEEE-754 single-precision bit patterns of
/// its coordinates, as a terrain file stores them.
#[derive(Debug, Clone, Copy, PartialEq, Eq, Structural)]
pub struct Vec3Bits {
    pub x: u32,
    pub y: u32,
    pub z: u32,
}

/// One face of a mesh: its three corners and the normal stored for it.
#[derive(Debug, Clone, Copy)]
pub struct Triangle<V> {
    pub a: V,
    pub b: V,
    pub c: V,
    pub normal: V,
}

/// A static collision mesh: vertex positions, three vertex indices per face, one normal per face.
#[derive(Debug, Clone)]
pub struct Terrain<V> {
    pub vertices: Vec<V>,
    pub indices: Vec<u16>,
    pub face_normals: Vec<V>,
}

/// Why a mesh or a terrain file was refused.
#[derive(Debug, Clone, Copy, PartialEq, Eq, Structural)]
pub enum TerrainError {
    /// The bytes end inside a length field or inside the section that it announces.
    Truncated,
    /// A vertex or normal section is not a whole number of 12-byte vectors.
    Misaligned,
    /// The number of indices is not a multiple of three.
    IncompleteTriangle,
    /// The number of face normals differs from the number of faces.
    FaceCountMismatch,
    /// An index names no vertex.
    IndexOutOfRange,
}

/// What is wrong with a mesh of `vertex_count` vertices, these indices and `normal_count`
/// face normals, checked in this order; `None` for a well-formed mesh.
pub open spec fn mesh_error(vertex_count: nat, indices: Seq<u16>, normal_count: nat) -> Option<
    TerrainError,
> {
    if indices.len() % 3 != 0 {
        Some(TerrainError::IncompleteTriangle)
    } else if normal_count != indices.len() / 3 {
        Some(TerrainError::FaceCountMismatch)
    } else if exists|k: int| 0 <= k < indices.len() && indices[k] >= vertex_count {
        Some(TerrainError::IndexOutOfRange)
    } else {
        None
    }
}

impl<V> Terrain<V> {
    /// Three indices per face, one normal per face, and every index names a vertex.
    pub open spec fn well_formed(&self) -> bool {
        mesh_error(self.vertices@.len(), self.indices@, self.face_normals@.len()) is None
    }

    /// What is wrong with the mesh, `None` where it is well-formed.
    pub fn check(&self) -> (r: Option<TerrainError>)
        ensures
            r == mesh_error(self.vertices@.len(), self.indices@, self.face_normals@.len()),
            r is None <==> self.well_formed(),
    {
        if self.indices.len() % 3 != 0 {
            return Some(TerrainError::IncompleteTriangle);
        }
        if self.face_normals.len() != self.indices.len() / 3 {
            return Some(TerrainError::FaceCountMismatch);
        }
        let mut k: usize = 0;
        while k < self.indices.len()
            invariant
                0 <= k <= self.indices@.len(),
                self.indices@.len() % 3 == 0,
                self.face_normals@.len() == self.indices@.len() / 3,
                forall|j: int| 0 <= j < k ==> self.indices@[j] < self.vertices@.len(),
            decreases self.indices@.len() - k,
        {
            if self.indices[k] as usize >= self.vertices.len() {
                assert(self.indices@[k as int] >= self.vertices@.len());
                return Some(TerrainError::IndexOutOfRange);
            }
            k = k + 1;
        }
        None
    }

    /// Builds a mesh from its three arrays, refusing one that is not well-formed.
    pub fn new(vertices: Vec<V>, indices: Vec<u16>, face_normals: Vec<V>) -> (r: Result<
        Self,
        TerrainError,
    >)
        ensures
            match r {
                Ok(t) => {
                    &&& t.vertices@ == vertices@
                    &&& t.indices@ == indices@
                    &&& t.face_normals@ == face_normals@
                    &&& t.well_formed()
                },
                Err(e) => mesh_error(vertices@.len(), indices@, face_normals@.len()) == Some(e),
            },
    {
        let t = Terrain { vertices, indices, face_normals };
        match t.check() {
            Some(e) => Err(e),
            None => Ok(t),
        }
    }

    /// Number of faces of the mesh.
    pub fn triangle_count(&self) -> (r: usize)
        ensures
            r == self.indices@.len() / 3,
    {
        self.indices.len() / 3
    }
}

/// The face whose indices start at `triangle_index`: the vertices that the three indices
/// name, and the normal stored for face `triangle_index / 3`, as it is stored.
pub open spec fn terrain_triangle<V>(terrain: Terrain<V>, triangle_index: int) -> Triangle<V> {
    Triangle {
        a: terrain.vertices@[terrain.indices@[triangle_index] as int],
        b: terrain.vertices@[terrain.indices@[triangle_index + 1] as int],
        c: terrain.vertices@[terrain.indices@[triangle_index + 2] as int],
        normal: terrain.face_normals@[triangle_index / 3],
    }
}

/// Copies out the face whose indices start at `triangle_index`.
pub fn get_terrain_triangle<V: Copy>(terrain: &Terrain<V>, triangle_index: usize) -> (r: Triangle<V>)
    requires
        terrain.well_formed(),
        triangle_index + 2 < terrain.indices@.len(),
    ensures
        r == terrain_triangle(*terrain, triangle_index as int),
        r.normal == terrain.face_normals@[triangle_index as int / 3],
{
    let n = terrain.indices.len();
    let ia = terrain.indices[triangle_index] as usize;
    let ib = terrain.indices[triangle_index + 1] as usize;
    let ic = terrain.indices[triangle_index + 2] as usize;
    let a = terrain.vertices[ia];
    let b = terrain.vertices[ib];
    let c = terrain.vertices[ic];
    let normal = terrain.face_normals[triangle_index / 3];
    Triangle { a, b, c, normal }
}

/// The unsigned integer whose little-endian encoding is `bytes[at..at + 2]`.
pub open spec fn le_u16(bytes: Seq<u8>, at: int) -> nat {
    bytes[at] as nat + 256 * bytes[at + 1] as nat
}

/// The vector stored as three little-endian words at `at`.
pub open spec fn vec3_at(bytes: Seq<u8>, at: int) -> Vec3Bits {
    Vec3Bits {
        x: le_u32(bytes, at) as u32,
        y: le_u32(bytes, at + 4) as u32,
        z: le_u32(bytes, at + 8) as u32,
    }
}

/// The `count` vectors stored one after another from `start`.
pub open spec fn vec3_run(bytes: Seq<u8>, start: int, count: nat) -> Seq<Vec3Bits> {
    Seq::new(count, |k: int| vec3_at(bytes, start + 12 * k))
}

/// The `count` little-endian `u16` values stored one after another from `start`.
pub open spec fn u16_run(bytes: Seq<u8>, start: int, count: nat) -> Seq<u16> {
    Seq::new(count, |k: int| le_u16(bytes, start + 2 * k) as u16)
}

/// The three arrays of a terrain file, or why its layout is broken. The file holds three
/// sections, each a little-endian `u32` byte count followed by that many bytes: the vertex
/// positions and the face normals at 12 bytes a vector, and between them the `u16` indices,
/// of which there are half the byte count, rounded down. Bytes after the normals are ignored.
pub open spec fn ozt_sections(bytes: Seq<u8>) -> Result<
    (Seq<Vec3Bits>, Seq<u16>, Seq<Vec3Bits>),
    TerrainError,
> {
    let n = bytes.len() as int;
    let vertex_len = le_u32(bytes, 0) as int;
    let index_at = 4 + vertex_len;
    let index_count = le_u32(bytes, index_at) as int / 2;
    let normal_at = index_at + 4 + 2 * index_count;
    let normal_len = le_u32(bytes, normal_at) as int;
    if n < 4 || n - 4 < vertex_len {
        Err(TerrainError::Truncated)
    } else if vertex_len % 12 != 0 {
        Err(TerrainError::Misaligned)
    } else if n - index_at < 4 || n - (index_at + 4) < 2 * index_count || n - normal_at < 4 || n
        - (normal_at + 4) < normal_len {
        Err(TerrainError::Truncated)
    } else if normal_len % 12 != 0 {
        Err(TerrainError::Misaligned)
    } else {
        Ok(
            (
                vec3_run(bytes, 4, (vertex_len / 12) as nat),
                u16_run(bytes, index_at + 4, index_count as nat),
                vec3_run(bytes, normal_at + 4, (normal_len / 12) as nat),
            ),
        )
    }
}

/// What reading a terrain file gives: the error of its layout, else the error of the mesh
/// it holds, else that mesh.
pub open spec fn ozt_result(bytes: Seq<u8>) -> Result<
    (Seq<Vec3Bits>, Seq<u16>, Seq<Vec3Bits>),
    TerrainError,
> {
    match ozt_sections(bytes) {
        Err(e) => Err(e),
        Ok((v, i, f)) => match mesh_error(v.len(), i, f.len()) {
            Some(e) => Err(e),
            None => Ok((v, i, f)),
        },
    }
}

fn read_vec3_run(bytes: &[u8], start: usize, count: usize) -> (r: Vec<Vec3Bits>)
    requires
        start + 12 * count <= bytes@.len(),
    ensures
        r@ == vec3_run(bytes@, start as int, count as nat),
{
    let n: usize = bytes.len();
    let mut r: Vec<Vec3Bits> = Vec::new();
    let mut k: usize = 0;
    let mut at: usize = start;
    while k < count
        invariant
            start + 12 * count <= bytes@.len() == n,
            0 <= k <= count,
            at == start + 12 * k,
            r@ == vec3_run(bytes@, start as int, k as nat),
        decreases count - k,
    {
        let x = crate::io::read_u32_from_le_bytes(bytes, at);
        let y = crate::io::read_u32_from_le_bytes(bytes, at + 4);
        let z = crate::io::read_u32_from_le_bytes(bytes, at + 8);
        r.push(Vec3Bits { x, y, z });
        k = k + 1;
        at = at + 12;
        assert(r@ =~= vec3_run(bytes@, start as int, k as nat));
    }
    r
}

fn read_u16_run(bytes: &[u8], start: usize, count: usize) -> (r: Vec<u16>)
    requires
        start + 2 * count <= bytes@.len(),
    ensures
        r@ == u16_run(bytes@, start as int, count as nat),
{
    let n: usize = bytes.len();
    let mut r: Vec<u16> = Vec::new();
    let mut k: usize = 0;
    let mut at: usize = start;
    while k < count
        invariant
            start + 2 * count <= bytes@.len() == n,
            0 <= k <= count,
            at == start + 2 * k,
            r@ == u16_run(bytes@, start as int, k as nat),
        decreases count - k,
    {
        let v: u16 = bytes[at] as u16 + 256 * (bytes[at + 1] as u16);
        r.push(v);
        k = k + 1;
        at = at + 2;
        assert(r@ =~= u16_run(bytes@, start as int, k as nat));
    }
    r
}

impl Terrain<Vec3Bits> {
    /// Reads a terrain file held in `bytes`, refusing a broken layout or an ill-formed mesh.
    pub fn from_ozt_bytes(bytes: &[u8]) -> (r: Result<Self, TerrainError>)
        ensures
            match (r, ozt_result(bytes@)) {
                (Ok(t), Ok((v, i, f))) => t.vertices@ == v && t.indices@ == i && t.face_normals@ == f
                    && t.well_formed(),
                (Err(e), Err(e2)) => e == e2,
                _ => false,
            },
    {
        let n: usize = bytes.len();
        if n < 4 {
            return Err(TerrainError::Truncated);
        }
        let vertex_len = crate::io::read_u32_from_le_bytes(bytes, 0) as usize;
        if n - 4 < vertex_len {
            return Err(TerrainError::Truncated);
        }
        if vertex_len % 12 != 0 {
            return Err(TerrainError::Misaligned);
        }
        let index_at: usize = 4 + vertex_len;
        if n - index_at < 4 {
            return Err(TerrainError::Truncated);
        }
        let index_count = (crate::io::read_u32_from_le_bytes(bytes, index_at) / 2) as usize;
        if (n - (index_at + 4)) / 2 < index_count {
            return Err(TerrainError::Truncated);
        }
        let normal_at: usize = index_at + 4 + 2 * index_count;
        if n - normal_at < 4 {
            return Err(TerrainError::Truncated);
        }
        let normal_len = crate::io::read_u32_from_le_bytes(bytes, normal_at) as usize;
        if n - (normal_at + 4) < normal_len {
            return Err(TerrainError::Truncated);
        }
        if normal_len % 12 != 0 {
            return Err(TerrainError::Misaligned);
        }
        let vertices = read_vec3_run(bytes, 4, vertex_len / 12);
        let indices = read_u16_run(bytes, index_at + 4, index_count);
        let face_normals = read_vec3_run(bytes, normal_at + 4, normal_len / 12);
        Terrain::new(vertices, indices, face_normals)
    }
}

} // verus!
