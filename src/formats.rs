#![allow(non_camel_case_types)]

use vstd::prelude::*;

verus! {

/// Kind of resource that a DDS file holds, as its DX10 extension header names it.
#[derive(Debug, Clone, Copy, PartialEq, Eq, Structural)]
pub enum D3D10_RESOURCE_DIMENSION {
    UNKNOWN,
    BUFFER,
    TEXTURE1D,
    TEXTURE2D,
    TEXTURE3D,
    _RESERVED,
}

/// The number that stands for a resource dimension in a DDS file.
pub open spec fn dimension_code(d: D3D10_RESOURCE_DIMENSION) -> u32 {
    match d {
        D3D10_RESOURCE_DIMENSION::UNKNOWN => 0,
        D3D10_RESOURCE_DIMENSION::BUFFER => 1,
        D3D10_RESOURCE_DIMENSION::TEXTURE1D => 2,
        D3D10_RESOURCE_DIMENSION::TEXTURE2D => 3,
        D3D10_RESOURCE_DIMENSION::TEXTURE3D => 4,
        D3D10_RESOURCE_DIMENSION::_RESERVED => 0xffff_ffff,
    }
}

/// The resource dimension that a number in a DDS file stands for, if any.
pub open spec fn dimension_of_code(code: u32) -> Option<D3D10_RESOURCE_DIMENSION> {
    match code {
        0 => Some(D3D10_RESOURCE_DIMENSION::UNKNOWN),
        1 => Some(D3D10_RESOURCE_DIMENSION::BUFFER),
        2 => Some(D3D10_RESOURCE_DIMENSION::TEXTURE1D),
        3 => Some(D3D10_RESOURCE_DIMENSION::TEXTURE2D),
        4 => Some(D3D10_RESOURCE_DIMENSION::TEXTURE3D),
        0xffff_ffff => Some(D3D10_RESOURCE_DIMENSION::_RESERVED),
        _ => None,
    }
}

impl D3D10_RESOURCE_DIMENSION {
    /// The resource dimension that `code` stands for, or `None` for a number that names none.
    pub fn from_code(code: u32) -> (r: Option<Self>)
        ensures
            r == dimension_of_code(code),
    {
        match code {
            0 => Some(D3D10_RESOURCE_DIMENSION::UNKNOWN),
            1 => Some(D3D10_RESOURCE_DIMENSION::BUFFER),
            2 => Some(D3D10_RESOURCE_DIMENSION::TEXTURE1D),
            3 => Some(D3D10_RESOURCE_DIMENSION::TEXTURE2D),
            4 => Some(D3D10_RESOURCE_DIMENSION::TEXTURE3D),
            0xffff_ffff => Some(D3D10_RESOURCE_DIMENSION::_RESERVED),
            _ => None,
        }
    }

    /// The number that stands for this resource dimension.
    pub fn code(&self) -> (r: u32)
        ensures
            r == dimension_code(*self),
    {
        match self {
            D3D10_RESOURCE_DIMENSION::UNKNOWN => 0,
            D3D10_RESOURCE_DIMENSION::BUFFER => 1,
            D3D10_RESOURCE_DIMENSION::TEXTURE1D => 2,
            D3D10_RESOURCE_DIMENSION::TEXTURE2D => 3,
            D3D10_RESOURCE_DIMENSION::TEXTURE3D => 4,
            D3D10_RESOURCE_DIMENSION::_RESERVED => 0xffff_ffff,
        }
    }
}

/// Each dimension is read back from its own number.
pub proof fn lemma_dimension_code_round_trip(d: D3D10_RESOURCE_DIMENSION)
    ensures
        dimension_of_code(dimension_code(d)) == Some(d),
{
}

/// Pixel formats of the DXGI family, as a DDS file's DX10 extension header names them.
#[derive(Debug, Clone, Copy, PartialEq, Eq, Structural)]
pub enum DXGI_FORMAT {
    UNKNOWN,
    R32G32B32A32_TYPELESS,
    R32G32B32A32_FLOAT,
    R32G32B32A32_UINT,
    R32G32B32A32_SINT,
    R32G32B32_TYPELESS,
    R32G32B32_FLOAT,
    R32G32B32_UINT,
    R32G32B32_SINT,
    R16G16B16A16_TYPELESS,
    R16G16B16A16_FLOAT,
    R16G16B16A16_UNORM,
    R16G16B16A16_UINT,
    R16G16B16A16_SNORM,
    R16G16B16A16_SINT,
    R32G32_TYPELESS,
    R32G32_FLOAT,
    R32G32_UINT,
    R32G32_SINT,
    R32G8X24_TYPELESS,
    D32_FLOAT_S8X24_UINT,
    R32_FLOAT_X8X24_TYPELESS,
    X32_TYPELESS_G8X24_UINT,
    R10G10B10A2_TYPELESS,
    R10G10B10A2_UNORM,
    R10G10B10A2_UINT,
    R11G11B10_FLOAT,
    R8G8B8A8_TYPELESS,
    R8G8B8A8_UNORM,
    R8G8B8A8_UNORM_SRGB,
    R8G8B8A8_UINT,
    R8G8B8A8_SNORM,
    R8G8B8A8_SINT,
    R16G16_TYPELESS,
    R16G16_FLOAT,
    R16G16_UNORM,
    R16G16_UINT,
    R16G16_SNORM,
    R16G16_SINT,
    R32_TYPELESS,
    D32_FLOAT,
    R32_FLOAT,
    R32_UINT,
    R32_SINT,
    R24G8_TYPELESS,
    D24_UNORM_S8_UINT,
    R24_UNORM_X8_TYPELESS,
    X24_TYPELESS_G8_UINT,
    R8G8_TYPELESS,
    R8G8_UNORM,
    R8G8_UINT,
    R8G8_SNORM,
    R8G8_SINT,
    R16_TYPELESS,
    R16_FLOAT,
    D16_UNORM,
    R16_UNORM,
    R16_UINT,
    R16_SNORM,
    R16_SINT,
    R8_TYPELESS,
    R8_UNORM,
    R8_UINT,
    R8_SNORM,
    R8_SINT,
    A8_UNORM,
    R1_UNORM,
    R9G9B9E5_SHAREDEXP,
    R8G8_B8G8_UNORM,
    G8R8_G8B8_UNORM,
    BC1_TYPELESS,
    BC1_UNORM,
    BC1_UNORM_SRGB,
    BC2_TYPELESS,
    BC2_UNORM,
    BC2_UNORM_SRGB,
    BC3_TYPELESS,
    BC3_UNORM,
    BC3_UNORM_SRGB,
    BC4_TYPELESS,
    BC4_UNORM,
    BC4_SNORM,
    BC5_TYPELESS,
    BC5_UNORM,
    BC5_SNORM,
    B5G6R5_UNORM,
    B5G5R5A1_UNORM,
    B8G8R8A8_UNORM,
    B8G8R8X8_UNORM,
    R10G10B10_XR_BIAS_A2_UNORM,
    B8G8R8A8_TYPELESS,
    B8G8R8A8_UNORM_SRGB,
    B8G8R8X8_TYPELESS,
    B8G8R8X8_UNORM_SRGB,
    BC6H_TYPELESS,
    BC6H_UF16,
    BC6H_SF16,
    BC7_TYPELESS,
    BC7_UNORM,
    BC7_UNORM_SRGB,
    AYUV,
    Y410,
    Y416,
    NV12,
    P010,
    P016,
    YUY2,
    Y210,
    Y216,
    NV11,
    AI44,
    IA44,
    P8,
    A8P8,
    B4G4R4A4_UNORM,
    P208,
    V208,
    V408,
    SAMPLER_FEEDBACK_MIN_MIP_OPAQUE,
    SAMPLER_FEEDBACK_MIP_REGION_USED_OPAQUE,
    FORCE_UINT,
}

/// The number that stands for a pixel format in a DDS file.
pub open spec fn dxgi_code(f: DXGI_FORMAT) -> u32 {
    match f {
        DXGI_FORMAT::UNKNOWN => 0,
        DXGI_FORMAT::R32G32B32A32_TYPELESS => 1,
        DXGI_FORMAT::R32G32B32A32_FLOAT => 2,
        DXGI_FORMAT::R32G32B32A32_UINT => 3,
        DXGI_FORMAT::R32G32B32A32_SINT => 4,
        DXGI_FORMAT::R32G32B32_TYPELESS => 5,
        DXGI_FORMAT::R32G32B32_FLOAT => 6,
        DXGI_FORMAT::R32G32B32_UINT => 7,
        DXGI_FORMAT::R32G32B32_SINT => 8,
        DXGI_FORMAT::R16G16B16A16_TYPELESS => 9,
        DXGI_FORMAT::R16G16B16A16_FLOAT => 10,
        DXGI_FORMAT::R16G16B16A16_UNORM => 11,
        DXGI_FORMAT::R16G16B16A16_UINT => 12,
        DXGI_FORMAT::R16G16B16A16_SNORM => 13,
        DXGI_FORMAT::R16G16B16A16_SINT => 14,
        DXGI_FORMAT::R32G32_TYPELESS => 15,
        DXGI_FORMAT::R32G32_FLOAT => 16,
        DXGI_FORMAT::R32G32_UINT => 17,
        DXGI_FORMAT::R32G32_SINT => 18,
        DXGI_FORMAT::R32G8X24_TYPELESS => 19,
        DXGI_FORMAT::D32_FLOAT_S8X24_UINT => 20,
        DXGI_FORMAT::R32_FLOAT_X8X24_TYPELESS => 21,
        DXGI_FORMAT::X32_TYPELESS_G8X24_UINT => 22,
        DXGI_FORMAT::R10G10B10A2_TYPELESS => 23,
        DXGI_FORMAT::R10G10B10A2_UNORM => 24,
        DXGI_FORMAT::R10G10B10A2_UINT => 25,
        DXGI_FORMAT::R11G11B10_FLOAT => 26,
        DXGI_FORMAT::R8G8B8A8_TYPELESS => 27,
        DXGI_FORMAT::R8G8B8A8_UNORM => 28,
        DXGI_FORMAT::R8G8B8A8_UNORM_SRGB => 29,
        DXGI_FORMAT::R8G8B8A8_UINT => 30,
        DXGI_FORMAT::R8G8B8A8_SNORM => 31,
        DXGI_FORMAT::R8G8B8A8_SINT => 32,
        DXGI_FORMAT::R16G16_TYPELESS => 33,
        DXGI_FORMAT::R16G16_FLOAT => 34,
        DXGI_FORMAT::R16G16_UNORM => 35,
        DXGI_FORMAT::R16G16_UINT => 36,
        DXGI_FORMAT::R16G16_SNORM => 37,
        DXGI_FORMAT::R16G16_SINT => 38,
        DXGI_FORMAT::R32_TYPELESS => 39,
        DXGI_FORMAT::D32_FLOAT => 40,
        DXGI_FORMAT::R32_FLOAT => 41,
        DXGI_FORMAT::R32_UINT => 42,
        DXGI_FORMAT::R32_SINT => 43,
        DXGI_FORMAT::R24G8_TYPELESS => 44,
        DXGI_FORMAT::D24_UNORM_S8_UINT => 45,
        DXGI_FORMAT::R24_UNORM_X8_TYPELESS => 46,
        DXGI_FORMAT::X24_TYPELESS_G8_UINT => 47,
        DXGI_FORMAT::R8G8_TYPELESS => 48,
        DXGI_FORMAT::R8G8_UNORM => 49,
        DXGI_FORMAT::R8G8_UINT => 50,
        DXGI_FORMAT::R8G8_SNORM => 51,
        DXGI_FORMAT::R8G8_SINT => 52,
        DXGI_FORMAT::R16_TYPELESS => 53,
        DXGI_FORMAT::R16_FLOAT => 54,
        DXGI_FORMAT::D16_UNORM => 55,
        DXGI_FORMAT::R16_UNORM => 56,
        DXGI_FORMAT::R16_UINT => 57,
        DXGI_FORMAT::R16_SNORM => 58,
        DXGI_FORMAT::R16_SINT => 59,
        DXGI_FORMAT::R8_TYPELESS => 60,
        DXGI_FORMAT::R8_UNORM => 61,
        DXGI_FORMAT::R8_UINT => 62,
        DXGI_FORMAT::R8_SNORM => 63,
        DXGI_FORMAT::R8_SINT => 64,
        DXGI_FORMAT::A8_UNORM => 65,
        DXGI_FORMAT::R1_UNORM => 66,
        DXGI_FORMAT::R9G9B9E5_SHAREDEXP => 67,
        DXGI_FORMAT::R8G8_B8G8_UNORM => 68,
        DXGI_FORMAT::G8R8_G8B8_UNORM => 69,
        DXGI_FORMAT::BC1_TYPELESS => 70,
        DXGI_FORMAT::BC1_UNORM => 71,
        DXGI_FORMAT::BC1_UNORM_SRGB => 72,
        DXGI_FORMAT::BC2_TYPELESS => 73,
        DXGI_FORMAT::BC2_UNORM => 74,
        DXGI_FORMAT::BC2_UNORM_SRGB => 75,
        DXGI_FORMAT::BC3_TYPELESS => 76,
        DXGI_FORMAT::BC3_UNORM => 77,
        DXGI_FORMAT::BC3_UNORM_SRGB => 78,
        DXGI_FORMAT::BC4_TYPELESS => 79,
        DXGI_FORMAT::BC4_UNORM => 80,
        DXGI_FORMAT::BC4_SNORM => 81,
        DXGI_FORMAT::BC5_TYPELESS => 82,
        DXGI_FORMAT::BC5_UNORM => 83,
        DXGI_FORMAT::BC5_SNORM => 84,
        DXGI_FORMAT::B5G6R5_UNORM => 85,
        DXGI_FORMAT::B5G5R5A1_UNORM => 86,
        DXGI_FORMAT::B8G8R8A8_UNORM => 87,
        DXGI_FORMAT::B8G8R8X8_UNORM => 88,
        DXGI_FORMAT::R10G10B10_XR_BIAS_A2_UNORM => 89,
        DXGI_FORMAT::B8G8R8A8_TYPELESS => 90,
        DXGI_FORMAT::B8G8R8A8_UNORM_SRGB => 91,
        DXGI_FORMAT::B8G8R8X8_TYPELESS => 92,
        DXGI_FORMAT::B8G8R8X8_UNORM_SRGB => 93,
        DXGI_FORMAT::BC6H_TYPELESS => 94,
        DXGI_FORMAT::BC6H_UF16 => 95,
        DXGI_FORMAT::BC6H_SF16 => 96,
        DXGI_FORMAT::BC7_TYPELESS => 97,
        DXGI_FORMAT::BC7_UNORM => 98,
        DXGI_FORMAT::BC7_UNORM_SRGB => 99,
        DXGI_FORMAT::AYUV => 100,
        DXGI_FORMAT::Y410 => 101,
        DXGI_FORMAT::Y416 => 102,
        DXGI_FORMAT::NV12 => 103,
        DXGI_FORMAT::P010 => 104,
        DXGI_FORMAT::P016 => 105,
        DXGI_FORMAT::YUY2 => 107,
        DXGI_FORMAT::Y210 => 108,
        DXGI_FORMAT::Y216 => 109,
        DXGI_FORMAT::NV11 => 110,
        DXGI_FORMAT::AI44 => 111,
        DXGI_FORMAT::IA44 => 112,
        DXGI_FORMAT::P8 => 113,
        DXGI_FORMAT::A8P8 => 114,
        DXGI_FORMAT::B4G4R4A4_UNORM => 115,
        DXGI_FORMAT::P208 => 130,
        DXGI_FORMAT::V208 => 131,
        DXGI_FORMAT::V408 => 132,
        DXGI_FORMAT::SAMPLER_FEEDBACK_MIN_MIP_OPAQUE => 133,
        DXGI_FORMAT::SAMPLER_FEEDBACK_MIP_REGION_USED_OPAQUE => 134,
        DXGI_FORMAT::FORCE_UINT => 0xffff_ffff,
    }
}

/// The pixel format that a number in a DDS file stands for, if any.
pub open spec fn dxgi_format_of_code(code: u32) -> Option<DXGI_FORMAT> {
    match code {
        0 => Some(DXGI_FORMAT::UNKNOWN),
        1 => Some(DXGI_FORMAT::R32G32B32A32_TYPELESS),
        2 => Some(DXGI_FORMAT::R32G32B32A32_FLOAT),
        3 => Some(DXGI_FORMAT::R32G32B32A32_UINT),
        4 => Some(DXGI_FORMAT::R32G32B32A32_SINT),
        5 => Some(DXGI_FORMAT::R32G32B32_TYPELESS),
        6 => Some(DXGI_FORMAT::R32G32B32_FLOAT),
        7 => Some(DXGI_FORMAT::R32G32B32_UINT),
        8 => Some(DXGI_FORMAT::R32G32B32_SINT),
        9 => Some(DXGI_FORMAT::R16G16B16A16_TYPELESS),
        10 => Some(DXGI_FORMAT::R16G16B16A16_FLOAT),
        11 => Some(DXGI_FORMAT::R16G16B16A16_UNORM),
        12 => Some(DXGI_FORMAT::R16G16B16A16_UINT),
        13 => Some(DXGI_FORMAT::R16G16B16A16_SNORM),
        14 => Some(DXGI_FORMAT::R16G16B16A16_SINT),
        15 => Some(DXGI_FORMAT::R32G32_TYPELESS),
        16 => Some(DXGI_FORMAT::R32G32_FLOAT),
        17 => Some(DXGI_FORMAT::R32G32_UINT),
        18 => Some(DXGI_FORMAT::R32G32_SINT),
        19 => Some(DXGI_FORMAT::R32G8X24_TYPELESS),
        20 => Some(DXGI_FORMAT::D32_FLOAT_S8X24_UINT),
        21 => Some(DXGI_FORMAT::R32_FLOAT_X8X24_TYPELESS),
        22 => Some(DXGI_FORMAT::X32_TYPELESS_G8X24_UINT),
        23 => Some(DXGI_FORMAT::R10G10B10A2_TYPELESS),
        24 => Some(DXGI_FORMAT::R10G10B10A2_UNORM),
        25 => Some(DXGI_FORMAT::R10G10B10A2_UINT),
        26 => Some(DXGI_FORMAT::R11G11B10_FLOAT),
        27 => Some(DXGI_FORMAT::R8G8B8A8_TYPELESS),
        28 => Some(DXGI_FORMAT::R8G8B8A8_UNORM),
        29 => Some(DXGI_FORMAT::R8G8B8A8_UNORM_SRGB),
        30 => Some(DXGI_FORMAT::R8G8B8A8_UINT),
        31 => Some(DXGI_FORMAT::R8G8B8A8_SNORM),
        32 => Some(DXGI_FORMAT::R8G8B8A8_SINT),
        33 => Some(DXGI_FORMAT::R16G16_TYPELESS),
        34 => Some(DXGI_FORMAT::R16G16_FLOAT),
        35 => Some(DXGI_FORMAT::R16G16_UNORM),
        36 => Some(DXGI_FORMAT::R16G16_UINT),
        37 => Some(DXGI_FORMAT::R16G16_SNORM),
        38 => Some(DXGI_FORMAT::R16G16_SINT),
        39 => Some(DXGI_FORMAT::R32_TYPELESS),
        40 => Some(DXGI_FORMAT::D32_FLOAT),
        41 => Some(DXGI_FORMAT::R32_FLOAT),
        42 => Some(DXGI_FORMAT::R32_UINT),
        43 => Some(DXGI_FORMAT::R32_SINT),
        44 => Some(DXGI_FORMAT::R24G8_TYPELESS),
        45 => Some(DXGI_FORMAT::D24_UNORM_S8_UINT),
        46 => Some(DXGI_FORMAT::R24_UNORM_X8_TYPELESS),
        47 => Some(DXGI_FORMAT::X24_TYPELESS_G8_UINT),
        48 => Some(DXGI_FORMAT::R8G8_TYPELESS),
        49 => Some(DXGI_FORMAT::R8G8_UNORM),
        50 => Some(DXGI_FORMAT::R8G8_UINT),
        51 => Some(DXGI_FORMAT::R8G8_SNORM),
        52 => Some(DXGI_FORMAT::R8G8_SINT),
        53 => Some(DXGI_FORMAT::R16_TYPELESS),
        54 => Some(DXGI_FORMAT::R16_FLOAT),
        55 => Some(DXGI_FORMAT::D16_UNORM),
        56 => Some(DXGI_FORMAT::R16_UNORM),
        57 => Some(DXGI_FORMAT::R16_UINT),
        58 => Some(DXGI_FORMAT::R16_SNORM),
        59 => Some(DXGI_FORMAT::R16_SINT),
        60 => Some(DXGI_FORMAT::R8_TYPELESS),
        61 => Some(DXGI_FORMAT::R8_UNORM),
        62 => Some(DXGI_FORMAT::R8_UINT),
        63 => Some(DXGI_FORMAT::R8_SNORM),
        64 => Some(DXGI_FORMAT::R8_SINT),
        65 => Some(DXGI_FORMAT::A8_UNORM),
        66 => Some(DXGI_FORMAT::R1_UNORM),
        67 => Some(DXGI_FORMAT::R9G9B9E5_SHAREDEXP),
        68 => Some(DXGI_FORMAT::R8G8_B8G8_UNORM),
        69 => Some(DXGI_FORMAT::G8R8_G8B8_UNORM),
        70 => Some(DXGI_FORMAT::BC1_TYPELESS),
        71 => Some(DXGI_FORMAT::BC1_UNORM),
        72 => Some(DXGI_FORMAT::BC1_UNORM_SRGB),
        73 => Some(DXGI_FORMAT::BC2_TYPELESS),
        74 => Some(DXGI_FORMAT::BC2_UNORM),
        75 => Some(DXGI_FORMAT::BC2_UNORM_SRGB),
        76 => Some(DXGI_FORMAT::BC3_TYPELESS),
        77 => Some(DXGI_FORMAT::BC3_UNORM),
        78 => Some(DXGI_FORMAT::BC3_UNORM_SRGB),
        79 => Some(DXGI_FORMAT::BC4_TYPELESS),
        80 => Some(DXGI_FORMAT::BC4_UNORM),
        81 => Some(DXGI_FORMAT::BC4_SNORM),
        82 => Some(DXGI_FORMAT::BC5_TYPELESS),
        83 => Some(DXGI_FORMAT::BC5_UNORM),
        84 => Some(DXGI_FORMAT::BC5_SNORM),
        85 => Some(DXGI_FORMAT::B5G6R5_UNORM),
        86 => Some(DXGI_FORMAT::B5G5R5A1_UNORM),
        87 => Some(DXGI_FORMAT::B8G8R8A8_UNORM),
        88 => Some(DXGI_FORMAT::B8G8R8X8_UNORM),
        89 => Some(DXGI_FORMAT::R10G10B10_XR_BIAS_A2_UNORM),
        90 => Some(DXGI_FORMAT::B8G8R8A8_TYPELESS),
        91 => Some(DXGI_FORMAT::B8G8R8A8_UNORM_SRGB),
        92 => Some(DXGI_FORMAT::B8G8R8X8_TYPELESS),
        93 => Some(DXGI_FORMAT::B8G8R8X8_UNORM_SRGB),
        94 => Some(DXGI_FORMAT::BC6H_TYPELESS),
        95 => Some(DXGI_FORMAT::BC6H_UF16),
        96 => Some(DXGI_FORMAT::BC6H_SF16),
        97 => Some(DXGI_FORMAT::BC7_TYPELESS),
        98 => Some(DXGI_FORMAT::BC7_UNORM),
        99 => Some(DXGI_FORMAT::BC7_UNORM_SRGB),
        100 => Some(DXGI_FORMAT::AYUV),
        101 => Some(DXGI_FORMAT::Y410),
        102 => Some(DXGI_FORMAT::Y416),
        103 => Some(DXGI_FORMAT::NV12),
        104 => Some(DXGI_FORMAT::P010),
        105 => Some(DXGI_FORMAT::P016),
        107 => Some(DXGI_FORMAT::YUY2),
        108 => Some(DXGI_FORMAT::Y210),
        109 => Some(DXGI_FORMAT::Y216),
        110 => Some(DXGI_FORMAT::NV11),
        111 => Some(DXGI_FORMAT::AI44),
        112 => Some(DXGI_FORMAT::IA44),
        113 => Some(DXGI_FORMAT::P8),
        114 => Some(DXGI_FORMAT::A8P8),
        115 => Some(DXGI_FORMAT::B4G4R4A4_UNORM),
        130 => Some(DXGI_FORMAT::P208),
        131 => Some(DXGI_FORMAT::V208),
        132 => Some(DXGI_FORMAT::V408),
        133 => Some(DXGI_FORMAT::SAMPLER_FEEDBACK_MIN_MIP_OPAQUE),
        134 => Some(DXGI_FORMAT::SAMPLER_FEEDBACK_MIP_REGION_USED_OPAQUE),
        0xffff_ffff => Some(DXGI_FORMAT::FORCE_UINT),
        _ => None,
    }
}

impl DXGI_FORMAT {
    /// The pixel format that `code` stands for, or `None` for a number that names none.
    pub fn from_code(code: u32) -> (r: Option<Self>)
        ensures
            r == dxgi_format_of_code(code),
    {
        match code {
            0 => Some(DXGI_FORMAT::UNKNOWN),
            1 => Some(DXGI_FORMAT::R32G32B32A32_TYPELESS),
            2 => Some(DXGI_FORMAT::R32G32B32A32_FLOAT),
            3 => Some(DXGI_FORMAT::R32G32B32A32_UINT),
            4 => Some(DXGI_FORMAT::R32G32B32A32_SINT),
            5 => Some(DXGI_FORMAT::R32G32B32_TYPELESS),
            6 => Some(DXGI_FORMAT::R32G32B32_FLOAT),
            7 => Some(DXGI_FORMAT::R32G32B32_UINT),
            8 => Some(DXGI_FORMAT::R32G32B32_SINT),
            9 => Some(DXGI_FORMAT::R16G16B16A16_TYPELESS),
            10 => Some(DXGI_FORMAT::R16G16B16A16_FLOAT),
            11 => Some(DXGI_FORMAT::R16G16B16A16_UNORM),
            12 => Some(DXGI_FORMAT::R16G16B16A16_UINT),
            13 => Some(DXGI_FORMAT::R16G16B16A16_SNORM),
            14 => Some(DXGI_FORMAT::R16G16B16A16_SINT),
            15 => Some(DXGI_FORMAT::R32G32_TYPELESS),
            16 => Some(DXGI_FORMAT::R32G32_FLOAT),
            17 => Some(DXGI_FORMAT::R32G32_UINT),
            18 => Some(DXGI_FORMAT::R32G32_SINT),
            19 => Some(DXGI_FORMAT::R32G8X24_TYPELESS),
            20 => Some(DXGI_FORMAT::D32_FLOAT_S8X24_UINT),
            21 => Some(DXGI_FORMAT::R32_FLOAT_X8X24_TYPELESS),
            22 => Some(DXGI_FORMAT::X32_TYPELESS_G8X24_UINT),
            23 => Some(DXGI_FORMAT::R10G10B10A2_TYPELESS),
            24 => Some(DXGI_FORMAT::R10G10B10A2_UNORM),
            25 => Some(DXGI_FORMAT::R10G10B10A2_UINT),
            26 => Some(DXGI_FORMAT::R11G11B10_FLOAT),
            27 => Some(DXGI_FORMAT::R8G8B8A8_TYPELESS),
            28 => Some(DXGI_FORMAT::R8G8B8A8_UNORM),
            29 => Some(DXGI_FORMAT::R8G8B8A8_UNORM_SRGB),
            30 => Some(DXGI_FORMAT::R8G8B8A8_UINT),
            31 => Some(DXGI_FORMAT::R8G8B8A8_SNORM),
            32 => Some(DXGI_FORMAT::R8G8B8A8_SINT),
            33 => Some(DXGI_FORMAT::R16G16_TYPELESS),
            34 => Some(DXGI_FORMAT::R16G16_FLOAT),
            35 => Some(DXGI_FORMAT::R16G16_UNORM),
            36 => Some(DXGI_FORMAT::R16G16_UINT),
            37 => Some(DXGI_FORMAT::R16G16_SNORM),
            38 => Some(DXGI_FORMAT::R16G16_SINT),
            39 => Some(DXGI_FORMAT::R32_TYPELESS),
            40 => Some(DXGI_FORMAT::D32_FLOAT),
            41 => Some(DXGI_FORMAT::R32_FLOAT),
            42 => Some(DXGI_FORMAT::R32_UINT),
            43 => Some(DXGI_FORMAT::R32_SINT),
            44 => Some(DXGI_FORMAT::R24G8_TYPELESS),
            45 => Some(DXGI_FORMAT::D24_UNORM_S8_UINT),
            46 => Some(DXGI_FORMAT::R24_UNORM_X8_TYPELESS),
            47 => Some(DXGI_FORMAT::X24_TYPELESS_G8_UINT),
            48 => Some(DXGI_FORMAT::R8G8_TYPELESS),
            49 => Some(DXGI_FORMAT::R8G8_UNORM),
            50 => Some(DXGI_FORMAT::R8G8_UINT),
            51 => Some(DXGI_FORMAT::R8G8_SNORM),
            52 => Some(DXGI_FORMAT::R8G8_SINT),
            53 => Some(DXGI_FORMAT::R16_TYPELESS),
            54 => Some(DXGI_FORMAT::R16_FLOAT),
            55 => Some(DXGI_FORMAT::D16_UNORM),
            56 => Some(DXGI_FORMAT::R16_UNORM),
            57 => Some(DXGI_FORMAT::R16_UINT),
            58 => Some(DXGI_FORMAT::R16_SNORM),
            59 => Some(DXGI_FORMAT::R16_SINT),
            60 => Some(DXGI_FORMAT::R8_TYPELESS),
            61 => Some(DXGI_FORMAT::R8_UNORM),
            62 => Some(DXGI_FORMAT::R8_UINT),
            63 => Some(DXGI_FORMAT::R8_SNORM),
            64 => Some(DXGI_FORMAT::R8_SINT),
            65 => Some(DXGI_FORMAT::A8_UNORM),
            66 => Some(DXGI_FORMAT::R1_UNORM),
            67 => Some(DXGI_FORMAT::R9G9B9E5_SHAREDEXP),
            68 => Some(DXGI_FORMAT::R8G8_B8G8_UNORM),
            69 => Some(DXGI_FORMAT::G8R8_G8B8_UNORM),
            70 => Some(DXGI_FORMAT::BC1_TYPELESS),
            71 => Some(DXGI_FORMAT::BC1_UNORM),
            72 => Some(DXGI_FORMAT::BC1_UNORM_SRGB),
            73 => Some(DXGI_FORMAT::BC2_TYPELESS),
            74 => Some(DXGI_FORMAT::BC2_UNORM),
            75 => Some(DXGI_FORMAT::BC2_UNORM_SRGB),
            76 => Some(DXGI_FORMAT::BC3_TYPELESS),
            77 => Some(DXGI_FORMAT::BC3_UNORM),
            78 => Some(DXGI_FORMAT::BC3_UNORM_SRGB),
            79 => Some(DXGI_FORMAT::BC4_TYPELESS),
            80 => Some(DXGI_FORMAT::BC4_UNORM),
            81 => Some(DXGI_FORMAT::BC4_SNORM),
            82 => Some(DXGI_FORMAT::BC5_TYPELESS),
            83 => Some(DXGI_FORMAT::BC5_UNORM),
            84 => Some(DXGI_FORMAT::BC5_SNORM),
            85 => Some(DXGI_FORMAT::B5G6R5_UNORM),
            86 => Some(DXGI_FORMAT::B5G5R5A1_UNORM),
            87 => Some(DXGI_FORMAT::B8G8R8A8_UNORM),
            88 => Some(DXGI_FORMAT::B8G8R8X8_UNORM),
            89 => Some(DXGI_FORMAT::R10G10B10_XR_BIAS_A2_UNORM),
            90 => Some(DXGI_FORMAT::B8G8R8A8_TYPELESS),
            91 => Some(DXGI_FORMAT::B8G8R8A8_UNORM_SRGB),
            92 => Some(DXGI_FORMAT::B8G8R8X8_TYPELESS),
            93 => Some(DXGI_FORMAT::B8G8R8X8_UNORM_SRGB),
            94 => Some(DXGI_FORMAT::BC6H_TYPELESS),
            95 => Some(DXGI_FORMAT::BC6H_UF16),
            96 => Some(DXGI_FORMAT::BC6H_SF16),
            97 => Some(DXGI_FORMAT::BC7_TYPELESS),
            98 => Some(DXGI_FORMAT::BC7_UNORM),
            99 => Some(DXGI_FORMAT::BC7_UNORM_SRGB),
            100 => Some(DXGI_FORMAT::AYUV),
            101 => Some(DXGI_FORMAT::Y410),
            102 => Some(DXGI_FORMAT::Y416),
            103 => Some(DXGI_FORMAT::NV12),
            104 => Some(DXGI_FORMAT::P010),
            105 => Some(DXGI_FORMAT::P016),
            107 => Some(DXGI_FORMAT::YUY2),
            108 => Some(DXGI_FORMAT::Y210),
            109 => Some(DXGI_FORMAT::Y216),
            110 => Some(DXGI_FORMAT::NV11),
            111 => Some(DXGI_FORMAT::AI44),
            112 => Some(DXGI_FORMAT::IA44),
            113 => Some(DXGI_FORMAT::P8),
            114 => Some(DXGI_FORMAT::A8P8),
            115 => Some(DXGI_FORMAT::B4G4R4A4_UNORM),
            130 => Some(DXGI_FORMAT::P208),
            131 => Some(DXGI_FORMAT::V208),
            132 => Some(DXGI_FORMAT::V408),
            133 => Some(DXGI_FORMAT::SAMPLER_FEEDBACK_MIN_MIP_OPAQUE),
            134 => Some(DXGI_FORMAT::SAMPLER_FEEDBACK_MIP_REGION_USED_OPAQUE),
            0xffff_ffff => Some(DXGI_FORMAT::FORCE_UINT),
            _ => None,
        }
    }

    /// The number that stands for this pixel format.
    pub fn code(&self) -> (r: u32)
        ensures
            r == dxgi_code(*self),
    {
        match self {
            DXGI_FORMAT::UNKNOWN => 0,
            DXGI_FORMAT::R32G32B32A32_TYPELESS => 1,
            DXGI_FORMAT::R32G32B32A32_FLOAT => 2,
            DXGI_FORMAT::R32G32B32A32_UINT => 3,
            DXGI_FORMAT::R32G32B32A32_SINT => 4,
            DXGI_FORMAT::R32G32B32_TYPELESS => 5,
            DXGI_FORMAT::R32G32B32_FLOAT => 6,
            DXGI_FORMAT::R32G32B32_UINT => 7,
            DXGI_FORMAT::R32G32B32_SINT => 8,
            DXGI_FORMAT::R16G16B16A16_TYPELESS => 9,
            DXGI_FORMAT::R16G16B16A16_FLOAT => 10,
            DXGI_FORMAT::R16G16B16A16_UNORM => 11,
            DXGI_FORMAT::R16G16B16A16_UINT => 12,
            DXGI_FORMAT::R16G16B16A16_SNORM => 13,
            DXGI_FORMAT::R16G16B16A16_SINT => 14,
            DXGI_FORMAT::R32G32_TYPELESS => 15,
            DXGI_FORMAT::R32G32_FLOAT => 16,
            DXGI_FORMAT::R32G32_UINT => 17,
            DXGI_FORMAT::R32G32_SINT => 18,
            DXGI_FORMAT::R32G8X24_TYPELESS => 19,
            DXGI_FORMAT::D32_FLOAT_S8X24_UINT => 20,
            DXGI_FORMAT::R32_FLOAT_X8X24_TYPELESS => 21,
            DXGI_FORMAT::X32_TYPELESS_G8X24_UINT => 22,
            DXGI_FORMAT::R10G10B10A2_TYPELESS => 23,
            DXGI_FORMAT::R10G10B10A2_UNORM => 24,
            DXGI_FORMAT::R10G10B10A2_UINT => 25,
            DXGI_FORMAT::R11G11B10_FLOAT => 26,
            DXGI_FORMAT::R8G8B8A8_TYPELESS => 27,
            DXGI_FORMAT::R8G8B8A8_UNORM => 28,
            DXGI_FORMAT::R8G8B8A8_UNORM_SRGB => 29,
            DXGI_FORMAT::R8G8B8A8_UINT => 30,
            DXGI_FORMAT::R8G8B8A8_SNORM => 31,
            DXGI_FORMAT::R8G8B8A8_SINT => 32,
            DXGI_FORMAT::R16G16_TYPELESS => 33,
            DXGI_FORMAT::R16G16_FLOAT => 34,
            DXGI_FORMAT::R16G16_UNORM => 35,
            DXGI_FORMAT::R16G16_UINT => 36,
            DXGI_FORMAT::R16G16_SNORM => 37,
            DXGI_FORMAT::R16G16_SINT => 38,
            DXGI_FORMAT::R32_TYPELESS => 39,
            DXGI_FORMAT::D32_FLOAT => 40,
            DXGI_FORMAT::R32_FLOAT => 41,
            DXGI_FORMAT::R32_UINT => 42,
            DXGI_FORMAT::R32_SINT => 43,
            DXGI_FORMAT::R24G8_TYPELESS => 44,
            DXGI_FORMAT::D24_UNORM_S8_UINT => 45,
            DXGI_FORMAT::R24_UNORM_X8_TYPELESS => 46,
            DXGI_FORMAT::X24_TYPELESS_G8_UINT => 47,
            DXGI_FORMAT::R8G8_TYPELESS => 48,
            DXGI_FORMAT::R8G8_UNORM => 49,
            DXGI_FORMAT::R8G8_UINT => 50,
            DXGI_FORMAT::R8G8_SNORM => 51,
            DXGI_FORMAT::R8G8_SINT => 52,
            DXGI_FORMAT::R16_TYPELESS => 53,
            DXGI_FORMAT::R16_FLOAT => 54,
            DXGI_FORMAT::D16_UNORM => 55,
            DXGI_FORMAT::R16_UNORM => 56,
            DXGI_FORMAT::R16_UINT => 57,
            DXGI_FORMAT::R16_SNORM => 58,
            DXGI_FORMAT::R16_SINT => 59,
            DXGI_FORMAT::R8_TYPELESS => 60,
            DXGI_FORMAT::R8_UNORM => 61,
            DXGI_FORMAT::R8_UINT => 62,
            DXGI_FORMAT::R8_SNORM => 63,
            DXGI_FORMAT::R8_SINT => 64,
            DXGI_FORMAT::A8_UNORM => 65,
            DXGI_FORMAT::R1_UNORM => 66,
            DXGI_FORMAT::R9G9B9E5_SHAREDEXP => 67,
            DXGI_FORMAT::R8G8_B8G8_UNORM => 68,
            DXGI_FORMAT::G8R8_G8B8_UNORM => 69,
            DXGI_FORMAT::BC1_TYPELESS => 70,
            DXGI_FORMAT::BC1_UNORM => 71,
            DXGI_FORMAT::BC1_UNORM_SRGB => 72,
            DXGI_FORMAT::BC2_TYPELESS => 73,
            DXGI_FORMAT::BC2_UNORM => 74,
            DXGI_FORMAT::BC2_UNORM_SRGB => 75,
            DXGI_FORMAT::BC3_TYPELESS => 76,
            DXGI_FORMAT::BC3_UNORM => 77,
            DXGI_FORMAT::BC3_UNORM_SRGB => 78,
            DXGI_FORMAT::BC4_TYPELESS => 79,
            DXGI_FORMAT::BC4_UNORM => 80,
            DXGI_FORMAT::BC4_SNORM => 81,
            DXGI_FORMAT::BC5_TYPELESS => 82,
            DXGI_FORMAT::BC5_UNORM => 83,
            DXGI_FORMAT::BC5_SNORM => 84,
            DXGI_FORMAT::B5G6R5_UNORM => 85,
            DXGI_FORMAT::B5G5R5A1_UNORM => 86,
            DXGI_FORMAT::B8G8R8A8_UNORM => 87,
            DXGI_FORMAT::B8G8R8X8_UNORM => 88,
            DXGI_FORMAT::R10G10B10_XR_BIAS_A2_UNORM => 89,
            DXGI_FORMAT::B8G8R8A8_TYPELESS => 90,
            DXGI_FORMAT::B8G8R8A8_UNORM_SRGB => 91,
            DXGI_FORMAT::B8G8R8X8_TYPELESS => 92,
            DXGI_FORMAT::B8G8R8X8_UNORM_SRGB => 93,
            DXGI_FORMAT::BC6H_TYPELESS => 94,
            DXGI_FORMAT::BC6H_UF16 => 95,
            DXGI_FORMAT::BC6H_SF16 => 96,
            DXGI_FORMAT::BC7_TYPELESS => 97,
            DXGI_FORMAT::BC7_UNORM => 98,
            DXGI_FORMAT::BC7_UNORM_SRGB => 99,
            DXGI_FORMAT::AYUV => 100,
            DXGI_FORMAT::Y410 => 101,
            DXGI_FORMAT::Y416 => 102,
            DXGI_FORMAT::NV12 => 103,
            DXGI_FORMAT::P010 => 104,
            DXGI_FORMAT::P016 => 105,
            DXGI_FORMAT::YUY2 => 107,
            DXGI_FORMAT::Y210 => 108,
            DXGI_FORMAT::Y216 => 109,
            DXGI_FORMAT::NV11 => 110,
            DXGI_FORMAT::AI44 => 111,
            DXGI_FORMAT::IA44 => 112,
            DXGI_FORMAT::P8 => 113,
            DXGI_FORMAT::A8P8 => 114,
            DXGI_FORMAT::B4G4R4A4_UNORM => 115,
            DXGI_FORMAT::P208 => 130,
            DXGI_FORMAT::V208 => 131,
            DXGI_FORMAT::V408 => 132,
            DXGI_FORMAT::SAMPLER_FEEDBACK_MIN_MIP_OPAQUE => 133,
            DXGI_FORMAT::SAMPLER_FEEDBACK_MIP_REGION_USED_OPAQUE => 134,
            DXGI_FORMAT::FORCE_UINT => 0xffff_ffff,
        }
    }
}

/// Each pixel format is read back from its own number.
pub proof fn lemma_dxgi_code_round_trip(f: DXGI_FORMAT)
    ensures
        dxgi_format_of_code(dxgi_code(f)) == Some(f),
{
}

} // verus!
