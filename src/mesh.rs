use crate::io::{
    bc7_chain_bytes, bc7_chain_countable, bc7_mip_chain_size_checked, le_u32,
    read_u32_from_le_bytes, texture_index, IndexType, OzyImage, NO_TEXTURE,
};
use vstd::prelude::*;

verus! {

/// Why the bytes of a mesh file were refused.
#[derive(Debug, Clone, Copy, PartialEq, Eq, Structural)]
pub enum MeshError {
    /// The bytes end inside a field or inside a run of values that a count announces.
    Truncated,
    /// A texture's BC7 size cannot be counted (see `bc7_chain_countable`).
    TextureTooLarge,
}

/// The `n` little-endian words from `pos`, and the position after them.
pub open spec fn words_at(b: Seq<u8>, pos: int, n: nat) -> Result<(Seq<u32>, int), MeshError> {
    if 0 <= pos && pos + 4 * n <= b.len() {
        Ok((Seq::new(n, |k: int| le_u32(b, pos + 4 * k) as u32), pos + 4 * n))
    } else {
        Err(MeshError::Truncated)
    }
}

/// A word count at `pos` followed by that many words.
pub open spec fn word_array_at(b: Seq<u8>, pos: int) -> Result<(Seq<u32>, int), MeshError> {
    match words_at(b, pos, 1) {
        Ok((n, p)) => words_at(b, p, n[0] as nat),
        Err(e) => Err(e),
    }
}

/// The words of a material record: four of base color, three of emissive factor, one of
/// roughness, then the color, normal, ambient-roughness-metallic and emissive texture indices.
pub open spec fn material_words_at(b: Seq<u8>, pos: int) -> Result<(Seq<u32>, int), MeshError> {
    words_at(b, pos, 12)
}

/// The fields of a primitive record: its material index, then five word arrays: the
/// indices, and the bits of the positions, normals, tangents and texture coordinates.
pub open spec fn primitive_at(b: Seq<u8>, pos: int) -> Result<(Seq<Seq<u32>>, int), MeshError> {
    match words_at(b, pos, 1) {
        Err(e) => Err(e),
        Ok((m, p0)) => match word_array_at(b, p0) {
            Err(e) => Err(e),
            Ok((i, p1)) => match word_array_at(b, p1) {
                Err(e) => Err(e),
                Ok((v, p2)) => match word_array_at(b, p2) {
                    Err(e) => Err(e),
                    Ok((n, p3)) => match word_array_at(b, p3) {
                        Err(e) => Err(e),
                        Ok((t, p4)) => match word_array_at(b, p4) {
                            Err(e) => Err(e),
                            Ok((u, p5)) => Ok((seq![m, i, v, n, t, u], p5)),
                        },
                    },
                },
            },
        },
    }
}

/// A texture record: width, height and mip count, then the BC7 blocks of all its levels.
pub open spec fn texture_at(b: Seq<u8>, pos: int) -> Result<((Seq<u32>, Seq<u8>), int), MeshError> {
    match words_at(b, pos, 3) {
        Err(e) => Err(e),
        Ok((h, p)) => if !bc7_chain_countable(h[0], h[1], h[2]) {
            Err(MeshError::TextureTooLarge)
        } else if p + bc7_chain_bytes(h[0], h[1], h[2] as nat) <= b.len() {
            let q = p + bc7_chain_bytes(h[0], h[1], h[2] as nat);
            Ok(((h, b.subrange(p, q)), q))
        } else {
            Err(MeshError::Truncated)
        },
    }
}

/// `n` material records one after another from `pos`.
pub open spec fn materials_at(b: Seq<u8>, pos: int, n: nat) -> Result<(Seq<Seq<u32>>, int), MeshError>
    decreases n,
{
    if n == 0 {
        Ok((Seq::empty(), pos))
    } else {
        match materials_at(b, pos, (n - 1) as nat) {
            Err(e) => Err(e),
            Ok((s, p)) => match material_words_at(b, p) {
                Err(e) => Err(e),
                Ok((m, q)) => Ok((s.push(m), q)),
            },
        }
    }
}

/// `n` primitive records one after another from `pos`.
pub open spec fn primitives_at(b: Seq<u8>, pos: int, n: nat) -> Result<(Seq<Seq<Seq<u32>>>, int), MeshError>
    decreases n,
{
    if n == 0 {
        Ok((Seq::empty(), pos))
    } else {
        match primitives_at(b, pos, (n - 1) as nat) {
            Err(e) => Err(e),
            Ok((s, p)) => match primitive_at(b, p) {
                Err(e) => Err(e),
                Ok((m, q)) => Ok((s.push(m), q)),
            },
        }
    }
}

/// `n` texture records one after another from `pos`.
pub open spec fn textures_at(b: Seq<u8>, pos: int, n: nat) -> Result<(Seq<(Seq<u32>, Seq<u8>)>, int), MeshError>
    decreases n,
{
    if n == 0 {
        Ok((Seq::empty(), pos))
    } else {
        match textures_at(b, pos, (n - 1) as nat) {
            Err(e) => Err(e),
            Ok((s, p)) => match texture_at(b, p) {
                Err(e) => Err(e),
                Ok((m, q)) => Ok((s.push(m), q)),
            },
        }
    }
}

/// The records of a mesh file: a header of three words giving the number of materials,
/// primitives and textures, then the materials, the primitives and the textures in turn.
/// Bytes after the last texture are ignored.
pub open spec fn mesh_records(b: Seq<u8>) -> Result<
    (Seq<Seq<u32>>, Seq<Seq<Seq<u32>>>, Seq<(Seq<u32>, Seq<u8>)>),
    MeshError,
> {
    match words_at(b, 0, 3) {
        Err(e) => Err(e),
        Ok((h, p0)) => match materials_at(b, p0, h[0] as nat) {
            Err(e) => Err(e),
            Ok((m, p1)) => match primitives_at(b, p1, h[1] as nat) {
                Err(e) => Err(e),
                Ok((p, p2)) => match textures_at(b, p2, h[2] as nat) {
                    Err(e) => Err(e),
                    Ok((t, p3)) => Ok((m, p, t)),
                },
            },
        },
    }
}

/// A material of the mesh format. Colors and roughness are held as the bits of their
/// single-precision values; a texture index is `None` where the material has no such map.
#[derive(Debug, Clone, Copy)]
pub struct OzyMaterial {
    pub base_color: [u32; 4],
    pub emissive_factor: [u32; 3],
    pub base_roughness: u32,
    pub color_bc7_idx: Option<u32>,
    pub normal_bc7_idx: Option<u32>,
    pub arm_bc7_idx: Option<u32>,
    pub emissive_bc7_idx: Option<u32>,
}

/// The texture index that a stored word stands for.
pub open spec fn index_of_word(w: u32) -> Option<u32> {
    if w == NO_TEXTURE {
        None
    } else {
        Some(w)
    }
}

/// `m` is the material whose record holds the twelve words `w`.
pub open spec fn material_of_words(m: OzyMaterial, w: Seq<u32>) -> bool {
    &&& m.base_color@ == w.subrange(0, 4)
    &&& m.emissive_factor@ == w.subrange(4, 7)
    &&& m.base_roughness == w[7]
    &&& m.color_bc7_idx == index_of_word(w[8])
    &&& m.normal_bc7_idx == index_of_word(w[9])
    &&& m.arm_bc7_idx == index_of_word(w[10])
    &&& m.emissive_bc7_idx == index_of_word(w[11])
}

/// A primitive of the mesh format; vertex attributes are held as the bits of their
/// single-precision values.
#[derive(Debug, Clone)]
pub struct OzyPrimitive {
    pub indices: Vec<u32>,
    pub vertex_positions: Vec<u32>,
    pub vertex_normals: Vec<u32>,
    pub vertex_tangents: Vec<u32>,
    pub vertex_uvs: Vec<u32>,
    pub material_idx: u32,
}

/// `p` is the primitive whose record holds the fields `f` (see `primitive_at`).
pub open spec fn primitive_of_fields(p: OzyPrimitive, f: Seq<Seq<u32>>) -> bool {
    &&& f.len() == 6
    &&& f[0].len() == 1
    &&& p.material_idx == f[0][0]
    &&& p.indices@ == f[1]
    &&& p.vertex_positions@ == f[2]
    &&& p.vertex_normals@ == f[3]
    &&& p.vertex_tangents@ == f[4]
    &&& p.vertex_uvs@ == f[5]
}

/// `t` is the texture whose record holds the header words and BC7 bytes of `r`.
pub open spec fn texture_of_record(t: OzyImage, r: (Seq<u32>, Seq<u8>)) -> bool {
    &&& t.width == r.0[0]
    &&& t.height == r.0[1]
    &&& t.mipmap_count == r.0[2]
    &&& t.bc7_bytes@ == r.1
}

/// A mesh: its name, its textures, materials and primitives.
pub struct OzyMesh {
    pub name: String,
    pub textures: Vec<OzyImage>,
    pub materials: Vec<OzyMaterial>,
    pub primitives: Vec<OzyPrimitive>,
}

fn read_words(b: &[u8], pos: usize, n: usize) -> (r: Result<(Vec<u32>, usize), MeshError>)
    ensures
        r is Ok <==> words_at(b@, pos as int, n as nat) is Ok,
        r matches Ok((v, p)) ==> words_at(b@, pos as int, n as nat) == Ok::<_, MeshError>((v@, p as int)),
        r matches Err(e) ==> words_at(b@, pos as int, n as nat) == Err::<(Seq<u32>, int), _>(e),
{
    let len: usize = b.len();
    if pos > len || (len - pos) / 4 < n {
        return Err(MeshError::Truncated);
    }
    let mut v: Vec<u32> = Vec::new();
    let mut k: usize = 0;
    let mut at: usize = pos;
    while k < n
        invariant
            len == b@.len(),
            pos + 4 * n <= len,
            0 <= k <= n,
            at == pos + 4 * k,
            v@ == Seq::new(k as nat, |j: int| le_u32(b@, pos + 4 * j) as u32),
        decreases n - k,
    {
        v.push(read_u32_from_le_bytes(b, at));
        k = k + 1;
        at = at + 4;
        assert(v@ =~= Seq::new(k as nat, |j: int| le_u32(b@, pos + 4 * j) as u32));
    }
    Ok((v, at))
}

fn read_word_array(b: &[u8], pos: usize) -> (r: Result<(Vec<u32>, usize), MeshError>)
    ensures
        r is Ok <==> word_array_at(b@, pos as int) is Ok,
        r matches Ok((v, p)) ==> word_array_at(b@, pos as int) == Ok::<_, MeshError>((v@, p as int)),
        r matches Err(e) ==> word_array_at(b@, pos as int) == Err::<(Seq<u32>, int), _>(e),
{
    let (count, p) = read_words(b, pos, 1)?;
    read_words(b, p, count[0] as usize)
}

fn read_material(b: &[u8], pos: usize) -> (r: Result<(OzyMaterial, usize), MeshError>)
    ensures
        r is Ok <==> material_words_at(b@, pos as int) is Ok,
        r matches Ok((m, p)) ==> (material_words_at(b@, pos as int) matches Ok((w, q)) && q == p
            && material_of_words(m, w)),
        r matches Err(e) ==> material_words_at(b@, pos as int) == Err::<(Seq<u32>, int), _>(e),
{
    let (w, p) = read_words(b, pos, 12)?;
    let m = OzyMaterial {
        base_color: [w[0], w[1], w[2], w[3]],
        emissive_factor: [w[4], w[5], w[6]],
        base_roughness: w[7],
        color_bc7_idx: texture_index(w[8]),
        normal_bc7_idx: texture_index(w[9]),
        arm_bc7_idx: texture_index(w[10]),
        emissive_bc7_idx: texture_index(w[11]),
    };
    assert(m.base_color@ =~= w@.subrange(0, 4));
    assert(m.emissive_factor@ =~= w@.subrange(4, 7));
    Ok((m, p))
}

fn read_primitive(b: &[u8], pos: usize) -> (r: Result<(OzyPrimitive, usize), MeshError>)
    ensures
        r is Ok <==> primitive_at(b@, pos as int) is Ok,
        r matches Ok((m, p)) ==> (primitive_at(b@, pos as int) matches Ok((f, q)) && q == p
            && primitive_of_fields(m, f)),
        r matches Err(e) ==> primitive_at(b@, pos as int) == Err::<(Seq<Seq<u32>>, int), _>(e),
{
    let (m, p0) = read_words(b, pos, 1)?;
    let (indices, p1) = read_word_array(b, p0)?;
    let (vertex_positions, p2) = read_word_array(b, p1)?;
    let (vertex_normals, p3) = read_word_array(b, p2)?;
    let (vertex_tangents, p4) = read_word_array(b, p3)?;
    let (vertex_uvs, p5) = read_word_array(b, p4)?;
    let prim = OzyPrimitive {
        indices,
        vertex_positions,
        vertex_normals,
        vertex_tangents,
        vertex_uvs,
        material_idx: m[0],
    };
    Ok((prim, p5))
}

fn read_texture(b: &[u8], pos: usize) -> (r: Result<(OzyImage, usize), MeshError>)
    ensures
        r is Ok <==> texture_at(b@, pos as int) is Ok,
        r matches Ok((t, p)) ==> (texture_at(b@, pos as int) matches Ok((x, q)) && q == p
            && texture_of_record(t, x)),
        r matches Err(e) ==> texture_at(b@, pos as int) == Err::<((Seq<u32>, Seq<u8>), int), _>(e),
{
    let (h, p) = read_words(b, pos, 3)?;
    let n = match bc7_mip_chain_size_checked(h[0], h[1], h[2]) {
        Some(n) => n,
        None => {
            return Err(MeshError::TextureTooLarge);
        },
    };
    let len: usize = b.len();
    if len - p < n {
        return Err(MeshError::Truncated);
    }
    let mut bytes: Vec<u8> = Vec::new();
    let mut k: usize = 0;
    while k < n
        invariant
            len == b@.len(),
            p + n <= len,
            0 <= k <= n,
            bytes@ == b@.subrange(p as int, p + k),
        decreases n - k,
    {
        bytes.push(b[p + k]);
        k = k + 1;
        assert(bytes@ =~= b@.subrange(p as int, p + k));
    }
    let t = OzyImage { width: h[0], height: h[1], mipmap_count: h[2], bc7_bytes: bytes };
    Ok((t, p + n))
}

proof fn lemma_materials_err(b: Seq<u8>, pos: int, k: nat, n: nat, e: MeshError)
    requires
        k <= n,
        materials_at(b, pos, k) == Err::<(Seq<Seq<u32>>, int), _>(e),
    ensures
        materials_at(b, pos, n) == Err::<(Seq<Seq<u32>>, int), _>(e),
    decreases n - k,
{
    if k < n {
        lemma_materials_err(b, pos, k, (n - 1) as nat, e);
    }
}

fn read_materials(b: &[u8], pos: usize, n: usize) -> (r: Result<(Vec<OzyMaterial>, usize), MeshError>)
    ensures
        r is Ok <==> materials_at(b@, pos as int, n as nat) is Ok,
        r matches Ok((v, p)) ==> (materials_at(b@, pos as int, n as nat) matches Ok((s, q)) && q == p
            && v@.len() == s.len() && forall|i: int| 0 <= i < s.len() ==> #[trigger] material_of_words(v@[i], s[i])),
        r matches Err(e) ==> materials_at(b@, pos as int, n as nat) == Err::<(Seq<Seq<u32>>, int), _>(e),
{
    let mut v: Vec<OzyMaterial> = Vec::new();
    let mut at: usize = pos;
    let mut k: usize = 0;
    let ghost mut s: Seq<Seq<u32>> = Seq::empty();
    while k < n
        invariant
            0 <= k <= n,
            materials_at(b@, pos as int, k as nat) == Ok::<_, MeshError>((s, at as int)),
            v@.len() == s.len(),
            forall|i: int| 0 <= i < s.len() ==> #[trigger] material_of_words(v@[i], s[i]),
        decreases n - k,
    {
        match read_material(b, at) {
            Err(e) => {
                proof {
                    lemma_materials_err(b@, pos as int, (k + 1) as nat, n as nat, e);
                }
                return Err(e);
            },
            Ok((x, q)) => {
                proof {
                    let ghost next = materials_at(b@, pos as int, (k + 1) as nat);
                    s = next->Ok_0.0;
                }
                v.push(x);
                at = q;
                k = k + 1;
            },
        }
    }
    Ok((v, at))
}

proof fn lemma_primitives_err(b: Seq<u8>, pos: int, k: nat, n: nat, e: MeshError)
    requires
        k <= n,
        primitives_at(b, pos, k) == Err::<(Seq<Seq<Seq<u32>>>, int), _>(e),
    ensures
        primitives_at(b, pos, n) == Err::<(Seq<Seq<Seq<u32>>>, int), _>(e),
    decreases n - k,
{
    if k < n {
        lemma_primitives_err(b, pos, k, (n - 1) as nat, e);
    }
}

fn read_primitives(b: &[u8], pos: usize, n: usize) -> (r: Result<(Vec<OzyPrimitive>, usize), MeshError>)
    ensures
        r is Ok <==> primitives_at(b@, pos as int, n as nat) is Ok,
        r matches Ok((v, p)) ==> (primitives_at(b@, pos as int, n as nat) matches Ok((s, q)) && q == p
            && v@.len() == s.len() && forall|i: int| 0 <= i < s.len() ==> #[trigger] primitive_of_fields(v@[i], s[i])),
        r matches Err(e) ==> primitives_at(b@, pos as int, n as nat) == Err::<(Seq<Seq<Seq<u32>>>, int), _>(e),
{
    let mut v: Vec<OzyPrimitive> = Vec::new();
    let mut at: usize = pos;
    let mut k: usize = 0;
    let ghost mut s: Seq<Seq<Seq<u32>>> = Seq::empty();
    while k < n
        invariant
            0 <= k <= n,
            primitives_at(b@, pos as int, k as nat) == Ok::<_, MeshError>((s, at as int)),
            v@.len() == s.len(),
            forall|i: int| 0 <= i < s.len() ==> #[trigger] primitive_of_fields(v@[i], s[i]),
        decreases n - k,
    {
        match read_primitive(b, at) {
            Err(e) => {
                proof {
                    lemma_primitives_err(b@, pos as int, (k + 1) as nat, n as nat, e);
                }
                return Err(e);
            },
            Ok((x, q)) => {
                proof {
                    let ghost next = primitives_at(b@, pos as int, (k + 1) as nat);
                    s = next->Ok_0.0;
                }
                v.push(x);
                at = q;
                k = k + 1;
            },
        }
    }
    Ok((v, at))
}

proof fn lemma_textures_err(b: Seq<u8>, pos: int, k: nat, n: nat, e: MeshError)
    requires
        k <= n,
        textures_at(b, pos, k) == Err::<(Seq<(Seq<u32>, Seq<u8>)>, int), _>(e),
    ensures
        textures_at(b, pos, n) == Err::<(Seq<(Seq<u32>, Seq<u8>)>, int), _>(e),
    decreases n - k,
{
    if k < n {
        lemma_textures_err(b, pos, k, (n - 1) as nat, e);
    }
}

fn read_textures(b: &[u8], pos: usize, n: usize) -> (r: Result<(Vec<OzyImage>, usize), MeshError>)
    ensures
        r is Ok <==> textures_at(b@, pos as int, n as nat) is Ok,
        r matches Ok((v, p)) ==> (textures_at(b@, pos as int, n as nat) matches Ok((s, q)) && q == p
            && v@.len() == s.len() && forall|i: int| 0 <= i < s.len() ==> #[trigger] texture_of_record(v@[i], s[i])),
        r matches Err(e) ==> textures_at(b@, pos as int, n as nat) == Err::<(Seq<(Seq<u32>, Seq<u8>)>, int), _>(e),
{
    let mut v: Vec<OzyImage> = Vec::new();
    let mut at: usize = pos;
    let mut k: usize = 0;
    let ghost mut s: Seq<(Seq<u32>, Seq<u8>)> = Seq::empty();
    while k < n
        invariant
            0 <= k <= n,
            textures_at(b@, pos as int, k as nat) == Ok::<_, MeshError>((s, at as int)),
            v@.len() == s.len(),
            forall|i: int| 0 <= i < s.len() ==> #[trigger] texture_of_record(v@[i], s[i]),
        decreases n - k,
    {
        match read_texture(b, at) {
            Err(e) => {
                proof {
                    lemma_textures_err(b@, pos as int, (k + 1) as nat, n as nat, e);
                }
                return Err(e);
            },
            Ok((x, q)) => {
                proof {
                    let ghost next = textures_at(b@, pos as int, (k + 1) as nat);
                    s = next->Ok_0.0;
                }
                v.push(x);
                at = q;
                k = k + 1;
            },
        }
    }
    Ok((v, at))
}

impl OzyMesh {
    /// Reads the mesh file held in `bytes`, giving the mesh the name `name`.
    pub fn from_bytes(name: String, bytes: &[u8]) -> (r: Result<Self, MeshError>)
        ensures
            r is Ok <==> mesh_records(bytes@) is Ok,
            r matches Err(e) ==> mesh_records(bytes@) == Err::<(Seq<Seq<u32>>, Seq<Seq<Seq<u32>>>, Seq<(Seq<u32>, Seq<u8>)>), _>(e),
            r matches Ok(mesh) ==> (mesh_records(bytes@) matches Ok((m, p, t)) && mesh.name@ == name@
                && mesh.materials@.len() == m.len() && (forall|i: int|
                0 <= i < m.len() ==> #[trigger] material_of_words(mesh.materials@[i], m[i]))
                && mesh.primitives@.len() == p.len() && (forall|i: int|
                0 <= i < p.len() ==> #[trigger] primitive_of_fields(mesh.primitives@[i], p[i]))
                && mesh.textures@.len() == t.len() && (forall|i: int|
                0 <= i < t.len() ==> #[trigger] texture_of_record(mesh.textures@[i], t[i]))),
    {
        let (header, p0) = read_words(bytes, 0, 3)?;
        let (materials, p1) = read_materials(bytes, p0, header[0] as usize)?;
        let (primitives, p2) = read_primitives(bytes, p1, header[1] as usize)?;
        let (textures, p3) = read_textures(bytes, p2, header[2] as usize)?;
        Ok(OzyMesh { name, textures, materials, primitives })
    }
}

/// The `count` little-endian `u16` values from `pos`, widened to `u32`.
pub open spec fn halfwords_at(b: Seq<u8>, pos: int, count: nat) -> Seq<u32> {
    Seq::new(count, |k: int| (b[pos + 2 * k] as nat + 256 * b[pos + 2 * k + 1] as nat) as u32)
}

/// The contents of an older mesh file, if the bytes hold one whole:
/// - a color count byte; where it is zero, a texture name as a word length and that many
///   bytes, else four words of color for each count;
/// - a transparency byte, nonzero for a transparent mesh;
/// - two words of texture-coordinate velocity;
/// - a word byte-count of vertex data and that many bytes, a whole number of words;
/// - a word byte-count of index data, half of which, rounded down, is the number of indices,
///   each of them a `u16` or a `u32` as `index_type` says.
/// The result holds the name bytes, colors, transparency, velocity, vertex words and indices.
pub open spec fn legacy_mesh(b: Seq<u8>, index_type: IndexType) -> Option<
    (Seq<u8>, Seq<u32>, bool, Seq<u32>, Seq<u32>, Seq<u32>),
> {
    if b.len() < 1 {
        None
    } else {
        let head: Option<(Seq<u8>, Seq<u32>, int)> = if b[0] == 0 {
            match words_at(b, 1, 1) {
                Ok((l, p)) => if p + l[0] <= b.len() {
                    Some((b.subrange(p, p + l[0]), Seq::empty(), p + l[0]))
                } else {
                    None
                },
                Err(_) => None,
            }
        } else {
            match words_at(b, 1, 4 * b[0] as nat) {
                Ok((c, p)) => Some((Seq::empty(), c, p)),
                Err(_) => None,
            }
        };
        match head {
            None => None,
            Some((name, colors, p1)) => if p1 + 1 > b.len() {
                None
            } else {
                match words_at(b, p1 + 1, 2) {
                    Err(_) => None,
                    Ok((uv, p2)) => match words_at(b, p2, 1) {
                        Err(_) => None,
                        Ok((vs, p3)) => if vs[0] % 4 != 0 {
                            None
                        } else {
                            match words_at(b, p3, vs[0] as nat / 4) {
                                Err(_) => None,
                                Ok((v, p4)) => match words_at(b, p4, 1) {
                                    Err(_) => None,
                                    Ok((is, p5)) => {
                                        let count = is[0] as nat / 2;
                                        match index_type {
                                            IndexType::U16 => if p5 + 2 * count <= b.len() {
                                                Some((name, colors, b[p1] != 0, uv, v, halfwords_at(b, p5, count)))
                                            } else {
                                                None
                                            },
                                            IndexType::U32 => match words_at(b, p5, count) {
                                                Ok((i, _)) => Some((name, colors, b[p1] != 0, uv, v, i)),
                                                Err(_) => None,
                                            },
                                        }
                                    },
                                },
                            }
                        },
                    },
                }
            },
        }
    }
}

/// A mesh of the older file layout. Colors, velocity and vertex data are held as the bits
/// of their single-precision values, the texture name as its UTF-8 bytes.
#[derive(Debug, Clone)]
pub struct OzyMeshOBSOLETE {
    pub vertices: Vec<u32>,
    pub indices: Vec<u32>,
    pub texture_name: Vec<u8>,
    pub uv_velocity: [u32; 2],
    pub colors: Vec<u32>,
    pub is_transparent: bool,
}

fn read_halfwords(b: &[u8], pos: usize, count: usize) -> (r: Vec<u32>)
    requires
        pos + 2 * count <= b@.len(),
    ensures
        r@ == halfwords_at(b@, pos as int, count as nat),
{
    let len: usize = b.len();
    let mut r: Vec<u32> = Vec::new();
    let mut k: usize = 0;
    while k < count
        invariant
            len == b@.len(),
            pos + 2 * count <= len,
            0 <= k <= count,
            r@ == halfwords_at(b@, pos as int, k as nat),
        decreases count - k,
    {
        let at: usize = pos + 2 * k;
        r.push(b[at] as u32 + 256 * (b[at + 1] as u32));
        k = k + 1;
        assert(r@ =~= halfwords_at(b@, pos as int, k as nat));
    }
    r
}

fn read_byte_run(b: &[u8], pos: usize, n: usize) -> (r: Vec<u8>)
    requires
        pos + n <= b@.len(),
    ensures
        r@ == b@.subrange(pos as int, pos + n),
{
    let len: usize = b.len();
    let mut r: Vec<u8> = Vec::new();
    let mut k: usize = 0;
    while k < n
        invariant
            len == b@.len(),
            pos + n <= len,
            0 <= k <= n,
            r@ == b@.subrange(pos as int, pos + k),
        decreases n - k,
    {
        r.push(b[pos + k]);
        k = k + 1;
        assert(r@ =~= b@.subrange(pos as int, pos + k));
    }
    r
}

impl OzyMeshOBSOLETE {
    /// Reads a mesh of the older layout from `bytes`, with indices of the given width.
    /// `None` where the bytes end early or the vertex data is not a whole number of words.
    pub fn from_bytes(bytes: &[u8], index_type: IndexType) -> (r: Option<Self>)
        ensures
            r is Some <==> legacy_mesh(bytes@, index_type) is Some,
            r matches Some(m) ==> (legacy_mesh(bytes@, index_type) matches Some((n, c, t, uv, v, i))
                && m.texture_name@ == n && m.colors@ == c && m.is_transparent == t
                && m.uv_velocity@ == uv && m.vertices@ == v && m.indices@ == i),
    {
        let len: usize = bytes.len();
        if len < 1 {
            return None;
        }
        let color_count: u8 = bytes[0];
        let mut texture_name: Vec<u8> = Vec::new();
        let mut colors: Vec<u32> = Vec::new();
        let mut p1: usize = 1;
        if color_count == 0 {
            let (l, p) = match read_words(bytes, 1, 1) {
                Ok(x) => x,
                Err(_) => {
                    return None;
                },
            };
            if len - p < l[0] as usize {
                return None;
            }
            texture_name = read_byte_run(bytes, p, l[0] as usize);
            p1 = p + l[0] as usize;
        } else {
            let (c, p) = match read_words(bytes, 1, 4 * color_count as usize) {
                Ok(x) => x,
                Err(_) => {
                    return None;
                },
            };
            colors = c;
            p1 = p;
        }
        if p1 >= len {
            return None;
        }
        let is_transparent: bool = bytes[p1] != 0;
        let (uv, p2) = match read_words(bytes, p1 + 1, 2) {
            Ok(x) => x,
            Err(_) => {
                return None;
            },
        };
        let (vs, p3) = match read_words(bytes, p2, 1) {
            Ok(x) => x,
            Err(_) => {
                return None;
            },
        };
        if vs[0] % 4 != 0 {
            return None;
        }
        let (vertices, p4) = match read_words(bytes, p3, (vs[0] / 4) as usize) {
            Ok(x) => x,
            Err(_) => {
                return None;
            },
        };
        let (is, p5) = match read_words(bytes, p4, 1) {
            Ok(x) => x,
            Err(_) => {
                return None;
            },
        };
        let count: usize = (is[0] / 2) as usize;
        let indices: Vec<u32> = match index_type {
            IndexType::U16 => {
                if (len - p5) / 2 < count {
                    return None;
                }
                read_halfwords(bytes, p5, count)
            },
            IndexType::U32 => {
                match read_words(bytes, p5, count) {
                    Ok((i, _)) => i,
                    Err(_) => {
                        return None;
                    },
                }
            },
        };
        let uv_velocity: [u32; 2] = [uv[0], uv[1]];
        assert(uv_velocity@ =~= uv@);
        Some(OzyMeshOBSOLETE { vertices, indices, texture_name, uv_velocity, colors, is_transparent })
    }
}

} // verus!
