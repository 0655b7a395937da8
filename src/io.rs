#![allow(non_camel_case_types)]

use crate::formats::{dimension_of_code, dxgi_format_of_code};
use crate::routines::{mip_resolution, mip_side};
use vstd::arithmetic::power2::{lemma_pow2_pos, pow2};
use vstd::prelude::*;
use vstd::string::StringSliceAdditionalSpecFns;

pub use crate::formats::{D3D10_RESOURCE_DIMENSION, DXGI_FORMAT};

verus! {

/// The unsigned integer whose little-endian encoding is `bytes[at..at + 4]`.
pub open spec fn le_u32(bytes: Seq<u8>, at: int) -> nat {
    bytes[at] as nat + 256 * bytes[at + 1] as nat + 65536 * bytes[at + 2] as nat + 16777216
        * bytes[at + 3] as nat
}

/// Reads the little-endian `u32` that starts at `offset`.
pub fn read_u32_from_le_bytes(bytes: &[u8], offset: usize) -> (r: u32)
    requires
        offset + 4 <= bytes@.len(),
    ensures
        r == le_u32(bytes@, offset as int),
{
    let b0: u32 = bytes[offset] as u32;
    let b1: u32 = bytes[offset + 1] as u32;
    let b2: u32 = bytes[offset + 2] as u32;
    let b3: u32 = bytes[offset + 3] as u32;
    b0 + 256 * b1 + 65536 * b2 + 16777216 * b3
}

/// Pitch in bytes of one row of 4x4 blocks of a block-compressed image.
pub fn compute_pitch_bc(width: u32, block_size: u32) -> (r: u32)
    requires
        width <= u32::MAX - 3,
        (if (width + 3) / 4 > 1 { (width + 3) / 4 } else { 1 }) * block_size <= u32::MAX,
    ensures
        r == (if (width + 3) / 4 > 1 { (width + 3) / 4 } else { 1 }) * block_size,
{
    let blocks: u32 = (width + 3) / 4;
    let blocks: u32 = if blocks > 1 { blocks } else { 1 };
    blocks * block_size
}

/// The pixel format block of a DDS header (`DDS_PIXELFORMAT`).
#[derive(Debug, Clone, Copy, PartialEq, Eq, Structural)]
pub struct DDS_PixelFormat {
    pub size: u32,
    pub flags: u32,
    pub four_cc: u32,
    pub rgb_bitcount: u32,
    pub r_bitmask: u32,
    pub g_bitmask: u32,
    pub b_bitmask: u32,
    pub a_bitmask: u32,
}

/// Offset of the pixel format block in the bytes of a DDS file that start with the magic word.
pub const PIXEL_FORMAT_OFFSET: usize = 76;

/// Offset of the DX10 extension header in the bytes of a DDS file.
pub const DXT10_OFFSET: usize = 128;

/// Length of the magic word, the DDS header and its DX10 extension together.
pub const DX10_HEADER_LENGTH: usize = 148;

/// The pixel format block stored in `bytes`, which start with the magic word.
pub open spec fn pixel_format_in(bytes: Seq<u8>) -> DDS_PixelFormat {
    DDS_PixelFormat {
        size: le_u32(bytes, 76) as u32,
        flags: le_u32(bytes, 80) as u32,
        four_cc: le_u32(bytes, 84) as u32,
        rgb_bitcount: le_u32(bytes, 88) as u32,
        r_bitmask: le_u32(bytes, 92) as u32,
        g_bitmask: le_u32(bytes, 96) as u32,
        b_bitmask: le_u32(bytes, 100) as u32,
        a_bitmask: le_u32(bytes, 104) as u32,
    }
}

/// The pixel format of a DX10 header: a 32-byte block whose four-character code is "DX10".
pub open spec fn default_pixel_format() -> DDS_PixelFormat {
    DDS_PixelFormat {
        size: 32,
        flags: 0,
        four_cc: 0x3031_5844,
        rgb_bitcount: 8,
        r_bitmask: 0,
        g_bitmask: 0,
        b_bitmask: 0,
        a_bitmask: 0,
    }
}

impl DDS_PixelFormat {
    pub const DDPF_ALPHAPIXELS: u32 = 0x1;
    pub const DDPF_ALPHA: u32 = 0x2;
    pub const DDPF_FOURCC: u32 = 0x4;
    pub const DDPF_RGB: u32 = 0x1;
    pub const DDPF_YUV: u32 = 0x2;
    pub const DDPF_LUMINANCE: u32 = 0x4;

    /// Reads the pixel format block of a DDS header; `header_bytes` start with the magic word.
    pub fn from_header_bytes(header_bytes: &[u8]) -> (r: Self)
        requires
            header_bytes@.len() >= PIXEL_FORMAT_OFFSET + 32,
        ensures
            r == pixel_format_in(header_bytes@),
    {
        let start: usize = PIXEL_FORMAT_OFFSET;
        DDS_PixelFormat {
            size: read_u32_from_le_bytes(header_bytes, start),
            flags: read_u32_from_le_bytes(header_bytes, start + 4),
            four_cc: read_u32_from_le_bytes(header_bytes, start + 8),
            rgb_bitcount: read_u32_from_le_bytes(header_bytes, start + 12),
            r_bitmask: read_u32_from_le_bytes(header_bytes, start + 16),
            g_bitmask: read_u32_from_le_bytes(header_bytes, start + 20),
            b_bitmask: read_u32_from_le_bytes(header_bytes, start + 24),
            a_bitmask: read_u32_from_le_bytes(header_bytes, start + 28),
        }
    }
}

impl Default for DDS_PixelFormat {
    fn default() -> (r: Self)
        ensures
            r == default_pixel_format(),
    {
        DDS_PixelFormat {
            size: 32,
            flags: 0,
            four_cc: 0x3031_5844,
            rgb_bitcount: 8,
            r_bitmask: 0,
            g_bitmask: 0,
            b_bitmask: 0,
            a_bitmask: 0,
        }
    }
}

/// The DX10 extension of a DDS header (`DDS_HEADER_DXT10`).
#[derive(Debug, Clone, Copy, PartialEq, Eq, Structural)]
pub struct DDSHeader_DXT10 {
    pub dxgi_format: DXGI_FORMAT,
    pub resource_dimension: D3D10_RESOURCE_DIMENSION,
    pub misc_flag: u32,
    pub array_size: u32,
    pub misc_flags2: u32,
}

/// Whether the DX10 extension in `bytes` names a known pixel format and resource dimension.
pub open spec fn dx10_codes_known(bytes: Seq<u8>) -> bool {
    dxgi_format_of_code(le_u32(bytes, 128) as u32) is Some && dimension_of_code(
        le_u32(bytes, 132) as u32,
    ) is Some
}

/// The DX10 extension stored in `bytes`, which start with the magic word.
pub open spec fn dx10_header_in(bytes: Seq<u8>) -> DDSHeader_DXT10 {
    DDSHeader_DXT10 {
        dxgi_format: dxgi_format_of_code(le_u32(bytes, 128) as u32)->Some_0,
        resource_dimension: dimension_of_code(le_u32(bytes, 132) as u32)->Some_0,
        misc_flag: le_u32(bytes, 136) as u32,
        array_size: le_u32(bytes, 140) as u32,
        misc_flags2: le_u32(bytes, 144) as u32,
    }
}

/// The DX10 extension of a single two-dimensional texture of unknown format.
pub open spec fn default_dx10_header() -> DDSHeader_DXT10 {
    DDSHeader_DXT10 {
        dxgi_format: DXGI_FORMAT::UNKNOWN,
        resource_dimension: D3D10_RESOURCE_DIMENSION::TEXTURE2D,
        misc_flag: 0,
        array_size: 1,
        misc_flags2: 0,
    }
}

impl DDSHeader_DXT10 {
    pub const DDS_RESOURCE_MISC_TEXTURECUBE: u32 = 0x4;

    /// Reads the DX10 extension of a DDS header; `header_bytes` start with the magic word.
    pub fn from_header_bytes(header_bytes: &[u8]) -> (r: Self)
        requires
            header_bytes@.len() >= DX10_HEADER_LENGTH,
            dx10_codes_known(header_bytes@),
        ensures
            r == dx10_header_in(header_bytes@),
    {
        let start: usize = DXT10_OFFSET;
        let format_code = read_u32_from_le_bytes(header_bytes, start);
        let dimension_code = read_u32_from_le_bytes(header_bytes, start + 4);
        let dxgi_format = match DXGI_FORMAT::from_code(format_code) {
            Some(f) => f,
            None => DXGI_FORMAT::UNKNOWN,
        };
        let resource_dimension = match D3D10_RESOURCE_DIMENSION::from_code(dimension_code) {
            Some(d) => d,
            None => D3D10_RESOURCE_DIMENSION::UNKNOWN,
        };
        DDSHeader_DXT10 {
            dxgi_format,
            resource_dimension,
            misc_flag: read_u32_from_le_bytes(header_bytes, start + 8),
            array_size: read_u32_from_le_bytes(header_bytes, start + 12),
            misc_flags2: read_u32_from_le_bytes(header_bytes, start + 16),
        }
    }
}

impl Default for DDSHeader_DXT10 {
    fn default() -> (r: Self)
        ensures
            r == default_dx10_header(),
    {
        DDSHeader_DXT10 {
            dxgi_format: DXGI_FORMAT::UNKNOWN,
            resource_dimension: D3D10_RESOURCE_DIMENSION::TEXTURE2D,
            misc_flag: 0,
            array_size: 1,
            misc_flags2: 0,
        }
    }
}

/// The header of a DDS file with its DX10 extension, the magic word included.
#[derive(Debug, Clone, Copy)]
pub struct DDSHeader {
    pub magic_word: u32,
    pub size: u32,
    pub flags: u32,
    pub height: u32,
    pub width: u32,
    pub pitch_or_linear_size: u32,
    pub depth: u32,
    pub mipmap_count: u32,
    pub reserved_1: [u32; 11],
    pub spf: DDS_PixelFormat,
    pub caps: u32,
    pub caps2: u32,
    pub caps3: u32,
    pub caps4: u32,
    pub reserved2: u32,
    pub dx10_header: DDSHeader_DXT10,
}

/// The fields that a header read from a file keeps from the default header: the magic word
/// "DDS ", the 124-byte header size, and zero for flags, depth, capabilities and reserved words.
pub open spec fn dds_header_fixed_fields(h: DDSHeader) -> bool {
    &&& h.magic_word == 0x2053_4444
    &&& h.size == 124
    &&& h.flags == 0
    &&& h.depth == 0
    &&& h.reserved_1@ == Seq::new(11, |i: int| 0u32)
    &&& h.caps == 0
    &&& h.caps2 == 0
    &&& h.caps3 == 0
    &&& h.caps4 == 0
    &&& h.reserved2 == 0
}

/// The header of a single-level texture of size zero, with the default nested blocks.
pub open spec fn is_default_dds_header(h: DDSHeader) -> bool {
    &&& dds_header_fixed_fields(h)
    &&& h.height == 0
    &&& h.width == 0
    &&& h.pitch_or_linear_size == 0
    &&& h.mipmap_count == 1
    &&& h.spf == default_pixel_format()
    &&& h.dx10_header == default_dx10_header()
}

/// `h` is the header read from `bytes`: the size, pitch, mip count, pixel format and DX10
/// extension come from the bytes, every other field is that of the default header.
pub open spec fn is_dds_header_in(h: DDSHeader, bytes: Seq<u8>) -> bool {
    &&& dds_header_fixed_fields(h)
    &&& h.height == le_u32(bytes, 12)
    &&& h.width == le_u32(bytes, 16)
    &&& h.pitch_or_linear_size == le_u32(bytes, 20)
    &&& h.mipmap_count == le_u32(bytes, 28)
    &&& h.spf == pixel_format_in(bytes)
    &&& h.dx10_header == dx10_header_in(bytes)
}

impl DDSHeader {
    pub const DDSD_CAPS: u32 = 0x1;
    pub const DDSD_HEIGHT: u32 = 0x2;
    pub const DDSD_WIDTH: u32 = 0x4;
    pub const DDSD_PITCH: u32 = 0x8;
    pub const DDSD_PIXELFORMAT: u32 = 0x1000;
    pub const DDSD_MIPMAPCOUNT: u32 = 0x20000;
    pub const DDSD_LINEARSIZE: u32 = 0x80000;
    pub const DDSD_DEPTH: u32 = 0x800000;

    /// Reads the header from the first bytes of a DDS file. `None` where the bytes are
    /// too few or the DX10 extension names an unknown pixel format or resource dimension.
    pub fn from_bytes(header_bytes: &[u8]) -> (r: Option<Self>)
        ensures
            r is Some <==> header_bytes@.len() >= DX10_HEADER_LENGTH && dx10_codes_known(
                header_bytes@,
            ),
            r matches Some(h) ==> is_dds_header_in(h, header_bytes@),
    {
        if header_bytes.len() < DX10_HEADER_LENGTH {
            return None;
        }
        let format_code = read_u32_from_le_bytes(header_bytes, DXT10_OFFSET);
        let dimension_code = read_u32_from_le_bytes(header_bytes, DXT10_OFFSET + 4);
        if DXGI_FORMAT::from_code(format_code).is_none()
            || D3D10_RESOURCE_DIMENSION::from_code(dimension_code).is_none() {
            return None;
        }
        let height = read_u32_from_le_bytes(header_bytes, 12);
        let width = read_u32_from_le_bytes(header_bytes, 16);
        let pitch_or_linear_size = read_u32_from_le_bytes(header_bytes, 20);
        let mipmap_count = read_u32_from_le_bytes(header_bytes, 28);
        let spf = DDS_PixelFormat::from_header_bytes(header_bytes);
        let dx10_header = DDSHeader_DXT10::from_header_bytes(header_bytes);
        let d = DDSHeader::default();
        let h = DDSHeader { height, width, pitch_or_linear_size, mipmap_count, spf, dx10_header, ..d };
        assert(h.reserved_1@ == d.reserved_1@);
        Some(h)
    }
}

impl Default for DDSHeader {
    fn default() -> (r: Self)
        ensures
            is_default_dds_header(r),
    {
        let r = DDSHeader {
            magic_word: 0x2053_4444,
            size: 124,
            flags: 0,
            height: 0,
            width: 0,
            pitch_or_linear_size: 0,
            depth: 0,
            mipmap_count: 1,
            reserved_1: [0u32; 11],
            spf: DDS_PixelFormat::default(),
            caps: 0,
            caps2: 0,
            caps3: 0,
            caps4: 0,
            reserved2: 0,
            dx10_header: DDSHeader_DXT10::default(),
        };
        assert(r.reserved_1@ =~= Seq::new(11, |i: int| 0u32));
        r
    }
}

/// Width of the index type of an index buffer.
#[derive(Debug, Clone, Copy, PartialEq, Eq, Structural)]
pub enum IndexType {
    U16,
    U32,
}

/// A texture of the mesh format: its size, the number of its mip levels and the BC7 blocks
/// of all of them, the largest level first.
#[derive(Clone, Default)]
pub struct OzyImage {
    pub width: u32,
    pub height: u32,
    pub mipmap_count: u32,
    pub bc7_bytes: Vec<u8>,
}

/// Number of 4x4 blocks along a side of `side` texels, a partial block counting as one.
pub open spec fn bc7_blocks(side: nat) -> nat {
    (side + 3) / 4
}

/// Number of BC7 blocks of mip level `level` of an image of the given size.
pub open spec fn bc7_level_blocks(width: u32, height: u32, level: nat) -> nat {
    bc7_blocks(mip_side(width, level)) * bc7_blocks(mip_side(height, level))
}

/// Number of bytes of the BC7 blocks of the first `levels` mip levels, at 16 bytes a block.
pub open spec fn bc7_chain_bytes(width: u32, height: u32, levels: nat) -> nat
    decreases levels,
{
    if levels == 0 {
        0
    } else {
        bc7_chain_bytes(width, height, (levels - 1) as nat) + 16 * bc7_level_blocks(
            width,
            height,
            (levels - 1) as nat,
        )
    }
}

proof fn lemma_bc7_chain_bytes_grows(width: u32, height: u32, a: nat, b: nat)
    requires
        a <= b,
    ensures
        bc7_chain_bytes(width, height, a) <= bc7_chain_bytes(width, height, b),
    decreases b,
{
    if a < b {
        lemma_bc7_chain_bytes_grows(width, height, a, (b - 1) as nat);
    }
}

proof fn lemma_mip_side_bound(side: u32, level: nat)
    ensures
        mip_side(side, level) <= if side > 1 { side as nat } else { 1 },
{
    lemma_pow2_pos(level);
    let d = pow2(level);
    assert(side as nat / d <= side as nat) by (nonlinear_arith)
        requires
            d >= 1,
    ;
}

/// Relies on ispc_texcomp::bc7::calc_output_size: sixteen bytes for each 4x4 block, with
/// (width + 4 - 1) / 4 by (height + 4 - 1) / 4 blocks counted in `u32` arithmetic, so each
/// side must leave room for adding four.
#[verifier::external_body]
fn bc7_output_size(width: u32, height: u32) -> (r: usize)
    requires
        width <= u32::MAX - 4,
        height <= u32::MAX - 4,
        bc7_blocks(width as nat) * bc7_blocks(height as nat) <= u32::MAX,
        16 * (bc7_blocks(width as nat) * bc7_blocks(height as nat)) <= usize::MAX,
    ensures
        r == 16 * (bc7_blocks(width as nat) * bc7_blocks(height as nat)),
{
    ispc_texcomp::bc7::calc_output_size(width, height)
}

/// Whether the BC7 size of the first `mipmap_count` mip levels of an image can be counted:
/// at most 32 levels, sides that leave room for adding four, a block count of each level
/// that fits in `u32`, and a total that fits in `usize`.
pub open spec fn bc7_chain_countable(width: u32, height: u32, mipmap_count: u32) -> bool {
    &&& mipmap_count <= 32
    &&& width <= u32::MAX - 4
    &&& height <= u32::MAX - 4
    &&& forall|level: nat|
        level < mipmap_count ==> #[trigger] bc7_level_blocks(width, height, level) <= u32::MAX
    &&& bc7_chain_bytes(width, height, mipmap_count as nat) <= usize::MAX
}

/// Number of bytes that the BC7 blocks of a texture's first `mipmap_count` mip levels take.
pub fn bc7_mip_chain_size(width: u32, height: u32, mipmap_count: u32) -> (r: usize)
    requires
        bc7_chain_countable(width, height, mipmap_count),
    ensures
        r == bc7_chain_bytes(width, height, mipmap_count as nat),
{
    let mut total: usize = 0;
    let mut i: u32 = 0;
    while i < mipmap_count
        invariant
            i <= mipmap_count,
            bc7_chain_countable(width, height, mipmap_count),
            total == bc7_chain_bytes(width, height, i as nat),
        decreases mipmap_count - i,
    {
        let (w, h) = mip_resolution(width, height, i);
        proof {
            lemma_mip_side_bound(width, i as nat);
            lemma_mip_side_bound(height, i as nat);
            assert(bc7_level_blocks(width, height, i as nat) <= u32::MAX);
            lemma_bc7_chain_bytes_grows(width, height, (i + 1) as nat, mipmap_count as nat);
        }
        total = total + bc7_output_size(w, h);
        i = i + 1;
    }
    total
}

/// The BC7 size of a texture's first `mipmap_count` mip levels, or `None` where it cannot
/// be counted.
pub fn bc7_mip_chain_size_checked(width: u32, height: u32, mipmap_count: u32) -> (r: Option<
    usize,
>)
    ensures
        r is Some <==> bc7_chain_countable(width, height, mipmap_count),
        r matches Some(n) ==> n == bc7_chain_bytes(width, height, mipmap_count as nat),
{
    if mipmap_count > 32 || width > u32::MAX - 4 || height > u32::MAX - 4 {
        return None;
    }
    let mut total: usize = 0;
    let mut i: u32 = 0;
    while i < mipmap_count
        invariant
            i <= mipmap_count <= 32,
            width <= u32::MAX - 4,
            height <= u32::MAX - 4,
            forall|level: nat| level < i ==> #[trigger] bc7_level_blocks(width, height, level) <= u32::MAX,
            total == bc7_chain_bytes(width, height, i as nat),
        decreases mipmap_count - i,
    {
        let (w, h) = mip_resolution(width, height, i);
        let bw: u64 = (w as u64 + 3) / 4;
        let bh: u64 = (h as u64 + 3) / 4;
        assert(bw * bh <= 0x1000_0000_0000_0000) by (nonlinear_arith)
            requires
                bw <= 0x4000_0000,
                bh <= 0x4000_0000,
        ;
        let blocks: u64 = bw * bh;
        if blocks > u32::MAX as u64 {
            assert(bc7_level_blocks(width, height, i as nat) > u32::MAX);
            return None;
        }
        let bytes: u64 = 16 * blocks;
        let room: u64 = (usize::MAX - total) as u64;
        if room < bytes {
            proof {
                lemma_bc7_chain_bytes_grows(width, height, (i + 1) as nat, mipmap_count as nat);
            }
            return None;
        }
        total = total + bytes as usize;
        i = i + 1;
    }
    Some(bc7_mip_chain_size(width, height, mipmap_count))
}

/// The `u16` values stored little-endian one after another in `bytes`.
pub open spec fn le_u16_values(bytes: Seq<u8>) -> Seq<u16> {
    Seq::new(bytes.len() / 2, |k: int| (bytes[2 * k] as nat + 256 * bytes[2 * k + 1] as nat) as u16)
}

/// The `u32` values stored little-endian one after another in `bytes`.
pub open spec fn le_u32_values(bytes: Seq<u8>) -> Seq<u32> {
    Seq::new(bytes.len() / 4, |k: int| le_u32(bytes, 4 * k) as u32)
}

/// Decodes a buffer of little-endian `u16` values; a last odd byte is ignored.
pub fn u16_values_from_le_bytes(bytes: &[u8]) -> (r: Vec<u16>)
    ensures
        r@ == le_u16_values(bytes@),
{
    let n: usize = bytes.len();
    let count: usize = n / 2;
    let mut r: Vec<u16> = Vec::with_capacity(count);
    let mut k: usize = 0;
    while k < count
        invariant
            n == bytes@.len(),
            count == n / 2,
            0 <= k <= count,
            r@ == le_u16_values(bytes@).take(k as int),
        decreases count - k,
    {
        let v: u16 = bytes[2 * k] as u16 + 256 * (bytes[2 * k + 1] as u16);
        r.push(v);
        k = k + 1;
        assert(r@ =~= le_u16_values(bytes@).take(k as int));
    }
    assert(r@ =~= le_u16_values(bytes@));
    r
}

/// Decodes a buffer of little-endian `u32` values; a last incomplete group of bytes is ignored.
pub fn u32_values_from_le_bytes(bytes: &[u8]) -> (r: Vec<u32>)
    ensures
        r@ == le_u32_values(bytes@),
{
    let n: usize = bytes.len();
    let count: usize = n / 4;
    let mut r: Vec<u32> = Vec::with_capacity(count);
    let mut k: usize = 0;
    while k < count
        invariant
            n == bytes@.len(),
            count == n / 4,
            0 <= k <= count,
            r@ == le_u32_values(bytes@).take(k as int),
        decreases count - k,
    {
        r.push(read_u32_from_le_bytes(bytes, 4 * k));
        k = k + 1;
        assert(r@ =~= le_u32_values(bytes@).take(k as int));
    }
    assert(r@ =~= le_u32_values(bytes@));
    r
}

/// The word that a mesh file stores in place of a texture index where a material has none.
pub const NO_TEXTURE: u32 = 0xffff_ffff;

/// The texture index that a mesh file stores for a material: `None` for the word that means none.
pub fn texture_index(raw: u32) -> (r: Option<u32>)
    ensures
        r == (if raw == NO_TEXTURE { None } else { Some(raw) }),
{
    if raw == NO_TEXTURE {
        None
    } else {
        Some(raw)
    }
}

/// The four little-endian bytes of `n`.
pub open spec fn le_u32_bytes(n: u32) -> Seq<u8> {
    seq![(n % 256) as u8, (n / 256 % 256) as u8, (n / 65536 % 256) as u8, (n / 16777216) as u8]
}

/// The strings one after another, each as its byte length in four little-endian bytes
/// followed by its UTF-8 bytes.
pub open spec fn pascal_strings_encoding(strs: Seq<&str>) -> Seq<u8>
    decreases strs.len(),
{
    if strs.len() == 0 {
        Seq::empty()
    } else {
        let b = strs.last().spec_bytes();
        pascal_strings_encoding(strs.drop_last()) + le_u32_bytes(b.len() as u32) + b
    }
}

/// Encodes strings as length-prefixed byte runs, the layout that mesh files use for names.
pub fn pascal_strings_bytes(strs: &[&str]) -> (r: Vec<u8>)
    requires
        forall|i: int| 0 <= i < strs@.len() ==> (#[trigger] strs@[i]).spec_bytes().len() <= u32::MAX,
    ensures
        r@ == pascal_strings_encoding(strs@),
{
    let mut r: Vec<u8> = Vec::new();
    let mut i: usize = 0;
    while i < strs.len()
        invariant
            0 <= i <= strs@.len(),
            forall|k: int| 0 <= k < strs@.len() ==> (#[trigger] strs@[k]).spec_bytes().len() <= u32::MAX,
            r@ == pascal_strings_encoding(strs@.take(i as int)),
        decreases strs@.len() - i,
    {
        let b: &[u8] = strs[i].as_bytes();
        let n: usize = b.len();
        let l: u32 = n as u32;
        let ghost before = r@;
        r.push((l % 256) as u8);
        r.push((l / 256 % 256) as u8);
        r.push((l / 65536 % 256) as u8);
        r.push((l / 16777216) as u8);
        assert(r@ =~= before + le_u32_bytes(l));
        let ghost prefix = r@;
        let mut j: usize = 0;
        while j < n
            invariant
                n == b@.len(),
                0 <= j <= n,
                r@ == prefix + b@.take(j as int),
            decreases n - j,
        {
            r.push(b[j]);
            j = j + 1;
            assert(r@ =~= prefix + b@.take(j as int));
        }
        assert(b@.take(n as int) =~= b@);
        assert(strs@.take(i + 1).drop_last() =~= strs@.take(i as int));
        i = i + 1;
    }
    assert(strs@.take(strs@.len() as int) =~= strs@);
    r
}

} // verus!
