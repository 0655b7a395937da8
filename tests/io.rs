use ozy::io::{
    bc7_mip_chain_size, compute_pitch_bc, read_u32_from_le_bytes, texture_index,
    u16_values_from_le_bytes, u32_values_from_le_bytes, DDSHeader, DDSHeader_DXT10,
    DDS_PixelFormat, IndexType, OzyImage, D3D10_RESOURCE_DIMENSION, DXGI_FORMAT,
};

fn put_u32(bytes: &mut [u8], at: usize, v: u32) {
    bytes[at..at + 4].copy_from_slice(&v.to_le_bytes());
}

fn bc7_header_bytes() -> Vec<u8> {
    let mut b = vec![0u8; 148];
    put_u32(&mut b, 0, 0x2053_4444);
    put_u32(&mut b, 4, 124);
    put_u32(&mut b, 12, 512);
    put_u32(&mut b, 16, 1024);
    put_u32(&mut b, 20, 4096);
    put_u32(&mut b, 28, 11);
    put_u32(&mut b, 76, 32);
    put_u32(&mut b, 80, DDS_PixelFormat::DDPF_FOURCC);
    put_u32(&mut b, 84, 0x3031_5844);
    put_u32(&mut b, 128, 98);
    put_u32(&mut b, 132, 3);
    put_u32(&mut b, 136, 0);
    put_u32(&mut b, 140, 1);
    b
}

#[test]
fn reads_little_endian_word() {
    let b = [0x78, 0x56, 0x34, 0x12, 0xff];
    assert_eq!(read_u32_from_le_bytes(&b, 0), 0x1234_5678);
    assert_eq!(read_u32_from_le_bytes(&b, 1), 0xff12_3456);
}

#[test]
fn pitch_of_block_rows() {
    assert_eq!(compute_pitch_bc(5, 16), 32);
    assert_eq!(compute_pitch_bc(0, 8), 8);
    assert_eq!(compute_pitch_bc(1024, 16), 4096);
}

#[test]
fn pixel_format_from_header() {
    let b = bc7_header_bytes();
    let pf = DDS_PixelFormat::from_header_bytes(&b);
    assert_eq!(pf.size, 32);
    assert_eq!(pf.flags, DDS_PixelFormat::DDPF_FOURCC);
    assert_eq!(pf.four_cc, 0x3031_5844);
    assert_eq!(pf.rgb_bitcount, 0);
}

#[test]
fn default_pixel_format_names_dx10() {
    let pf = DDS_PixelFormat::default();
    assert_eq!(pf.four_cc.to_le_bytes(), *b"DX10");
    assert_eq!(pf.size, 32);
    assert_eq!(pf.rgb_bitcount, 8);
}

#[test]
fn dx10_header_from_bytes() {
    let b = bc7_header_bytes();
    let h = DDSHeader_DXT10::from_header_bytes(&b);
    assert_eq!(h.dxgi_format, DXGI_FORMAT::BC7_UNORM);
    assert_eq!(h.resource_dimension, D3D10_RESOURCE_DIMENSION::TEXTURE2D);
    assert_eq!(h.array_size, 1);
}

#[test]
fn dds_header_from_bytes() {
    let b = bc7_header_bytes();
    let h = DDSHeader::from_bytes(&b).unwrap();
    assert_eq!(h.height, 512);
    assert_eq!(h.width, 1024);
    assert_eq!(h.pitch_or_linear_size, 4096);
    assert_eq!(h.mipmap_count, 11);
    assert_eq!(h.magic_word, 0x2053_4444);
    assert_eq!(h.size, 124);
    assert_eq!(h.flags, 0);
    assert_eq!(h.reserved_1, [0; 11]);
    assert_eq!(h.spf, DDS_PixelFormat::from_header_bytes(&b));
    assert_eq!(h.dx10_header.dxgi_format, DXGI_FORMAT::BC7_UNORM);
}

#[test]
fn dds_header_refuses_short_bytes() {
    let b = bc7_header_bytes();
    assert!(DDSHeader::from_bytes(&b[..147]).is_none());
}

#[test]
fn dds_header_refuses_unknown_format() {
    let mut b = bc7_header_bytes();
    put_u32(&mut b, 128, 106);
    assert!(DDSHeader::from_bytes(&b).is_none());
    let mut b = bc7_header_bytes();
    put_u32(&mut b, 132, 5);
    assert!(DDSHeader::from_bytes(&b).is_none());
}

#[test]
fn default_dds_header() {
    let h = DDSHeader::default();
    assert_eq!(h.magic_word.to_le_bytes(), *b"DDS ");
    assert_eq!(h.size, 124);
    assert_eq!(h.mipmap_count, 1);
    assert_eq!(h.dx10_header, DDSHeader_DXT10::default());
    assert_eq!(h.dx10_header.resource_dimension, D3D10_RESOURCE_DIMENSION::TEXTURE2D);
    assert_eq!(h.dx10_header.dxgi_format, DXGI_FORMAT::UNKNOWN);
}

#[test]
fn dxgi_codes_round_trip() {
    assert_eq!(DXGI_FORMAT::from_code(98), Some(DXGI_FORMAT::BC7_UNORM));
    assert_eq!(DXGI_FORMAT::from_code(0xffff_ffff), Some(DXGI_FORMAT::FORCE_UINT));
    assert_eq!(DXGI_FORMAT::from_code(133), Some(DXGI_FORMAT::SAMPLER_FEEDBACK_MIN_MIP_OPAQUE));
    assert_eq!(DXGI_FORMAT::from_code(106), None);
    assert_eq!(DXGI_FORMAT::from_code(120), None);
    for code in 0..200u32 {
        if let Some(f) = DXGI_FORMAT::from_code(code) {
            assert_eq!(f.code(), code);
        }
    }
    assert_eq!(DXGI_FORMAT::P208.code(), 130);
}

#[test]
fn dimension_codes_round_trip() {
    assert_eq!(D3D10_RESOURCE_DIMENSION::from_code(4), Some(D3D10_RESOURCE_DIMENSION::TEXTURE3D));
    assert_eq!(D3D10_RESOURCE_DIMENSION::from_code(5), None);
    assert_eq!(D3D10_RESOURCE_DIMENSION::_RESERVED.code(), 0xffff_ffff);
}

#[test]
fn bc7_chain_counts_every_level() {
    // 8x8: 4 blocks, then 4x4, 2x2 and 1x1 at one block each
    assert_eq!(bc7_mip_chain_size(8, 8, 4), 16 * (4 + 1 + 1 + 1));
    assert_eq!(bc7_mip_chain_size(256, 256, 1), 16 * 64 * 64);
    assert_eq!(bc7_mip_chain_size(5, 3, 1), 32);
    assert_eq!(bc7_mip_chain_size(100, 100, 0), 0);
}

#[test]
fn decodes_little_endian_values() {
    assert_eq!(u16_values_from_le_bytes(&[1, 0, 0xff, 0xff, 7]), vec![1, 0xffff]);
    assert_eq!(u32_values_from_le_bytes(&[1, 0, 0, 0, 0, 0, 0, 0x80, 9]), vec![1, 0x8000_0000]);
    assert!(u16_values_from_le_bytes(&[]).is_empty());
}

#[test]
fn texture_index_none_word() {
    assert_eq!(texture_index(0xffff_ffff), None);
    assert_eq!(texture_index(3), Some(3));
}

#[test]
fn ozy_image_default_is_empty() {
    let im = OzyImage::default();
    assert_eq!(im.width, 0);
    assert!(im.bc7_bytes.is_empty());
    let c = im.clone();
    assert_eq!(c.mipmap_count, 0);
    assert!(matches!(IndexType::U16, IndexType::U16));
}

#[test]
fn pascal_strings_are_length_prefixed() {
    let bytes = ozy::io::pascal_strings_bytes(&["ab", "", "\u{e9}"]);
    assert_eq!(bytes, vec![2, 0, 0, 0, b'a', b'b', 0, 0, 0, 0, 2, 0, 0, 0, 0xc3, 0xa9]);
    assert!(ozy::io::pascal_strings_bytes(&[]).is_empty());
}

#[test]
fn bc7_chain_checked_refuses_what_cannot_be_counted() {
    assert_eq!(ozy::io::bc7_mip_chain_size_checked(8, 8, 4), Some(16 * 7));
    assert_eq!(ozy::io::bc7_mip_chain_size_checked(8, 8, 33), None);
    assert_eq!(ozy::io::bc7_mip_chain_size_checked(u32::MAX - 3, 1, 1), None);
    assert_eq!(ozy::io::bc7_mip_chain_size_checked(u32::MAX - 4, u32::MAX - 4, 1), None);
    assert_eq!(ozy::io::bc7_mip_chain_size_checked(u32::MAX - 4, 1, 1), Some(16 * 1_073_741_823));
}
