use vstd::prelude::*;

verus! {

/// GX2AAMode for the number of samples per pixel.
#[derive(Debug, Clone, Copy, PartialEq, Eq, Structural, PartialOrd, Ord, Hash)]
pub enum AaMode {
    X1,
    X2,
    X4,
    X8,
}

impl AaMode {
    /// The numeric value that GX2 uses for this variant.
    pub open spec fn value(self) -> u32 {
        match self {
            AaMode::X1 => 0,
            AaMode::X2 => 1,
            AaMode::X4 => 2,
            AaMode::X8 => 3,
        }
    }

    /// Returns the numeric value of this variant.
    pub fn repr(&self) -> (r: u32)
        ensures
            r == self.value(),
    {
        match self {
            AaMode::X1 => 0,
            AaMode::X2 => 1,
            AaMode::X4 => 2,
            AaMode::X8 => 3,
        }
    }

    /// Whether `r` is the variant with the value `value`, or `None` where no variant has it.
    pub open spec fn is_from_repr(value: u32, r: Option<AaMode>) -> bool {
        match r {
            Some(v) => v.value() == value,
            None => forall|v: AaMode| v.value() != value,
        }
    }

    /// Every variant comes back from its value, and the value 0xff is no variant's.
    pub proof fn lemma_from_repr(v: AaMode, r: Option<AaMode>, n: Option<AaMode>)
        requires
            AaMode::is_from_repr(v.value(), r),
            AaMode::is_from_repr(0xff, n),
        ensures
            r == Some(v),
            n is None,
    {
    }

    /// Returns the variant with the given value or `None` if invalid.
    pub fn from_repr(value: u32) -> (r: Option<AaMode>)
        ensures
            AaMode::is_from_repr(value, r),
    {
        match value {
            0 => Some(AaMode::X1),
            1 => Some(AaMode::X2),
            2 => Some(AaMode::X4),
            3 => Some(AaMode::X8),
            _ => None,
        }
    }
}

impl AaMode {
    /// The number of samples per pixel, `1 << aa`.
    pub open spec fn samples(self) -> u32 {
        match self {
            AaMode::X1 => 1,
            AaMode::X2 => 2,
            AaMode::X4 => 4,
            AaMode::X8 => 8,
        }
    }

    /// Returns the number of samples per pixel.
    pub fn num_samples(&self) -> (r: u32)
        ensures
            r == self.samples(),
            r == 1u32 << self.value(),
    {
        let v = self.repr();
        assert(1u32 << 0u32 == 1 && 1u32 << 1u32 == 2 && 1u32 << 2u32 == 4 && 1u32 << 3u32 == 8)
            by (bit_vector);
        1u32 << v
    }
}

/// GX2SurfaceFormat for the format of the image data.
///
/// The GX2 and addrlib values are the same.
#[derive(Debug, Clone, Copy, PartialEq, Eq, Structural, PartialOrd, Ord, Hash)]
pub enum SurfaceFormat {
    /// GX2_SURFACE_FORMAT_TC_R8_UNORM
    R8Unorm,
    /// GX2_SURFACE_FORMAT_TC_R8_UINT
    R8Uint,
    /// GX2_SURFACE_FORMAT_TC_R8_SNORM
    R8Snorm,
    /// GX2_SURFACE_FORMAT_TC_R8_SINT
    R8Sint,
    /// GX2_SURFACE_FORMAT_T_R4_G4_UNORM
    R4G4Unorm,
    /// GX2_SURFACE_FORMAT_TCD_R16_UNORM
    R16Unorm,
    /// GX2_SURFACE_FORMAT_TC_R16_UINT
    R16Uint,
    /// GX2_SURFACE_FORMAT_TC_R16_SNORM
    R16Snorm,
    /// GX2_SURFACE_FORMAT_TC_R16_SINT
    R16Sint,
    /// GX2_SURFACE_FORMAT_TC_R16_FLOAT
    R16Float,
    /// GX2_SURFACE_FORMAT_TC_R8_G8_UNORM
    R8G8Unorm,
    /// GX2_SURFACE_FORMAT_TC_R8_G8_UINT
    R8G8Uint,
    /// GX2_SURFACE_FORMAT_TC_R8_G8_SNORM
    R8G8Snorm,
    /// GX2_SURFACE_FORMAT_TC_R8_G8_SINT
    R8G8Sint,
    /// GX2_SURFACE_FORMAT_TCS_R5_G6_B5_UNORM
    R5G6B5Unorm,
    /// GX2_SURFACE_FORMAT_TC_R5_G5_B5_A1_UNORM
    R5G5B5A1Unorm,
    /// GX2_SURFACE_FORMAT_TC_R4_G4_B4_A4_UNORM
    R4G4B4A4Unorm,
    /// GX2_SURFACE_FORMAT_TC_R32_UINT
    R32Uint,
    /// GX2_SURFACE_FORMAT_TC_R32_SINT
    R32Sint,
    /// GX2_SURFACE_FORMAT_TCD_R32_FLOAT
    R32Float,
    /// GX2_SURFACE_FORMAT_TC_R16_G16_UNORM
    R16G16Unorm,
    /// GX2_SURFACE_FORMAT_TC_R16_G16_UINT
    R16G16Uint,
    /// GX2_SURFACE_FORMAT_TC_R16_G16_SNORM
    R16G16Snorm,
    /// GX2_SURFACE_FORMAT_TC_R16_G16_SINT
    R16G16Sint,
    /// GX2_SURFACE_FORMAT_TC_R16_G16_FLOAT
    R16G16Float,
    /// GX2_SURFACE_FORMAT_D_D24_S8_FLOAT
    D24S8Float,
    /// GX2_SURFACE_FORMAT_TC_R11_G11_B10_FLOAT
    R11G11B10Float,
    /// GX2_SURFACE_FORMAT_TCS_R10_G10_B10_A2_UNORM
    R10G10B10A2Unorm,
    /// GX2_SURFACE_FORMAT_TC_R10_G10_B10_A2_UINT
    R10G10B10A2Uint,
    /// GX2_SURFACE_FORMAT_TC_R10_G10_B10_A2_SINT
    R10G10B10A2Sint,
    /// GX2_SURFACE_FORMAT_TCS_R8_G8_B8_A8_UNORM
    R8G8B8A8Unorm,
    /// GX2_SURFACE_FORMAT_TC_R8_G8_B8_A8_UINT
    R8G8B8A8Uint,
    /// GX2_SURFACE_FORMAT_TC_R8_G8_B8_A8_SNORM
    R8G8B8A8Snorm,
    /// GX2_SURFACE_FORMAT_TC_R8_G8_B8_A8_SINT
    R8G8B8A8Sint,
    /// GX2_SURFACE_FORMAT_TCS_R8_G8_B8_A8_SRGB
    R8G8B8A8Srgb,
    /// GX2_SURFACE_FORMAT_TC_R32_G32_UINT
    R32G32Uint,
    /// GX2_SURFACE_FORMAT_TC_R32_G32_SINT
    R32G32Sint,
    /// GX2_SURFACE_FORMAT_TC_R32_G32_FLOAT
    R32G32Float,
    /// GX2_SURFACE_FORMAT_TC_R16_G16_B16_A16_UNORM
    R16G16B16A16Unorm,
    /// GX2_SURFACE_FORMAT_TC_R16_G16_B16_A16_UINT
    R16G16B16A16Uint,
    /// GX2_SURFACE_FORMAT_TC_R16_G16_B16_A16_SNORM
    R16G16B16A16Snorm,
    /// GX2_SURFACE_FORMAT_TC_R16_G16_B16_A16_SINT
    R16G16B16A16Sint,
    /// GX2_SURFACE_FORMAT_TC_R16_G16_B16_A16_FLOAT
    R16G16B16A16Float,
    /// GX2_SURFACE_FORMAT_TC_R32_G32_B32_A32_UINT
    R32G32B32A32Uint,
    /// GX2_SURFACE_FORMAT_TC_R32_G32_B32_A32_SINT
    R32G32B32A32Sint,
    /// GX2_SURFACE_FORMAT_TC_R32_G32_B32_A32_FLOAT
    R32G32B32A32Float,
    /// GX2_SURFACE_FORMAT_T_BC1_UNORM
    Bc1Unorm,
    /// GX2_SURFACE_FORMAT_T_BC1_SRGB
    Bc1Srgb,
    /// GX2_SURFACE_FORMAT_T_BC2_UNORM
    Bc2Unorm,
    /// GX2_SURFACE_FORMAT_T_BC2_SRGB
    Bc2Srgb,
    /// GX2_SURFACE_FORMAT_T_BC3_UNORM
    Bc3Unorm,
    /// GX2_SURFACE_FORMAT_T_BC3_SRGB
    Bc3Srgb,
    /// GX2_SURFACE_FORMAT_T_BC4_UNORM
    Bc4Unorm,
    /// GX2_SURFACE_FORMAT_T_BC4_SNORM
    Bc4Snorm,
    /// GX2_SURFACE_FORMAT_T_BC5_UNORM
    Bc5Unorm,
    /// GX2_SURFACE_FORMAT_T_BC5_SNORM
    Bc5Snorm,
}

impl SurfaceFormat {
    /// The numeric value that GX2 uses for this variant.
    pub open spec fn value(self) -> u32 {
        match self {
            SurfaceFormat::R8Unorm => 0x00000001,
            SurfaceFormat::R8Uint => 0x00000101,
            SurfaceFormat::R8Snorm => 0x00000201,
            SurfaceFormat::R8Sint => 0x00000301,
            SurfaceFormat::R4G4Unorm => 0x00000002,
            SurfaceFormat::R16Unorm => 0x00000005,
            SurfaceFormat::R16Uint => 0x00000105,
            SurfaceFormat::R16Snorm => 0x00000205,
            SurfaceFormat::R16Sint => 0x00000305,
            SurfaceFormat::R16Float => 0x00000806,
            SurfaceFormat::R8G8Unorm => 0x00000007,
            SurfaceFormat::R8G8Uint => 0x00000107,
            SurfaceFormat::R8G8Snorm => 0x00000207,
            SurfaceFormat::R8G8Sint => 0x00000307,
            SurfaceFormat::R5G6B5Unorm => 0x00000008,
            SurfaceFormat::R5G5B5A1Unorm => 0x0000000a,
            SurfaceFormat::R4G4B4A4Unorm => 0x0000000b,
            SurfaceFormat::R32Uint => 0x0000010d,
            SurfaceFormat::R32Sint => 0x0000030d,
            SurfaceFormat::R32Float => 0x0000080e,
            SurfaceFormat::R16G16Unorm => 0x0000000f,
            SurfaceFormat::R16G16Uint => 0x0000010f,
            SurfaceFormat::R16G16Snorm => 0x0000020f,
            SurfaceFormat::R16G16Sint => 0x0000030f,
            SurfaceFormat::R16G16Float => 0x00000810,
            SurfaceFormat::D24S8Float => 0x00000811,
            SurfaceFormat::R11G11B10Float => 0x00000816,
            SurfaceFormat::R10G10B10A2Unorm => 0x00000019,
            SurfaceFormat::R10G10B10A2Uint => 0x00000119,
            SurfaceFormat::R10G10B10A2Sint => 0x00000319,
            SurfaceFormat::R8G8B8A8Unorm => 0x0000001a,
            SurfaceFormat::R8G8B8A8Uint => 0x0000011a,
            SurfaceFormat::R8G8B8A8Snorm => 0x0000021a,
            SurfaceFormat::R8G8B8A8Sint => 0x0000031a,
            SurfaceFormat::R8G8B8A8Srgb => 0x0000041a,
            SurfaceFormat::R32G32Uint => 0x0000011d,
            SurfaceFormat::R32G32Sint => 0x0000031d,
            SurfaceFormat::R32G32Float => 0x0000081e,
            SurfaceFormat::R16G16B16A16Unorm => 0x0000001f,
            SurfaceFormat::R16G16B16A16Uint => 0x0000011f,
            SurfaceFormat::R16G16B16A16Snorm => 0x0000021f,
            SurfaceFormat::R16G16B16A16Sint => 0x0000031f,
            SurfaceFormat::R16G16B16A16Float => 0x00000820,
            SurfaceFormat::R32G32B32A32Uint => 0x00000122,
            SurfaceFormat::R32G32B32A32Sint => 0x00000322,
            SurfaceFormat::R32G32B32A32Float => 0x00000823,
            SurfaceFormat::Bc1Unorm => 0x00000031,
            SurfaceFormat::Bc1Srgb => 0x00000431,
            SurfaceFormat::Bc2Unorm => 0x00000032,
            SurfaceFormat::Bc2Srgb => 0x00000432,
            SurfaceFormat::Bc3Unorm => 0x00000033,
            SurfaceFormat::Bc3Srgb => 0x00000433,
            SurfaceFormat::Bc4Unorm => 0x00000034,
            SurfaceFormat::Bc4Snorm => 0x00000234,
            SurfaceFormat::Bc5Unorm => 0x00000035,
            SurfaceFormat::Bc5Snorm => 0x00000235,
        }
    }

    /// Returns the numeric value of this variant.
    pub fn repr(&self) -> (r: u32)
        ensures
            r == self.value(),
    {
        match self {
            SurfaceFormat::R8Unorm => 0x00000001,
            SurfaceFormat::R8Uint => 0x00000101,
            SurfaceFormat::R8Snorm => 0x00000201,
            SurfaceFormat::R8Sint => 0x00000301,
            SurfaceFormat::R4G4Unorm => 0x00000002,
            SurfaceFormat::R16Unorm => 0x00000005,
            SurfaceFormat::R16Uint => 0x00000105,
            SurfaceFormat::R16Snorm => 0x00000205,
            SurfaceFormat::R16Sint => 0x00000305,
            SurfaceFormat::R16Float => 0x00000806,
            SurfaceFormat::R8G8Unorm => 0x00000007,
            SurfaceFormat::R8G8Uint => 0x00000107,
            SurfaceFormat::R8G8Snorm => 0x00000207,
            SurfaceFormat::R8G8Sint => 0x00000307,
            SurfaceFormat::R5G6B5Unorm => 0x00000008,
            SurfaceFormat::R5G5B5A1Unorm => 0x0000000a,
            SurfaceFormat::R4G4B4A4Unorm => 0x0000000b,
            SurfaceFormat::R32Uint => 0x0000010d,
            SurfaceFormat::R32Sint => 0x0000030d,
            SurfaceFormat::R32Float => 0x0000080e,
            SurfaceFormat::R16G16Unorm => 0x0000000f,
            SurfaceFormat::R16G16Uint => 0x0000010f,
            SurfaceFormat::R16G16Snorm => 0x0000020f,
            SurfaceFormat::R16G16Sint => 0x0000030f,
            SurfaceFormat::R16G16Float => 0x00000810,
            SurfaceFormat::D24S8Float => 0x00000811,
            SurfaceFormat::R11G11B10Float => 0x00000816,
            SurfaceFormat::R10G10B10A2Unorm => 0x00000019,
            SurfaceFormat::R10G10B10A2Uint => 0x00000119,
            SurfaceFormat::R10G10B10A2Sint => 0x00000319,
            SurfaceFormat::R8G8B8A8Unorm => 0x0000001a,
            SurfaceFormat::R8G8B8A8Uint => 0x0000011a,
            SurfaceFormat::R8G8B8A8Snorm => 0x0000021a,
            SurfaceFormat::R8G8B8A8Sint => 0x0000031a,
            SurfaceFormat::R8G8B8A8Srgb => 0x0000041a,
            SurfaceFormat::R32G32Uint => 0x0000011d,
            SurfaceFormat::R32G32Sint => 0x0000031d,
            SurfaceFormat::R32G32Float => 0x0000081e,
            SurfaceFormat::R16G16B16A16Unorm => 0x0000001f,
            SurfaceFormat::R16G16B16A16Uint => 0x0000011f,
            SurfaceFormat::R16G16B16A16Snorm => 0x0000021f,
            SurfaceFormat::R16G16B16A16Sint => 0x0000031f,
            SurfaceFormat::R16G16B16A16Float => 0x00000820,
            SurfaceFormat::R32G32B32A32Uint => 0x00000122,
            SurfaceFormat::R32G32B32A32Sint => 0x00000322,
            SurfaceFormat::R32G32B32A32Float => 0x00000823,
            SurfaceFormat::Bc1Unorm => 0x00000031,
            SurfaceFormat::Bc1Srgb => 0x00000431,
            SurfaceFormat::Bc2Unorm => 0x00000032,
            SurfaceFormat::Bc2Srgb => 0x00000432,
            SurfaceFormat::Bc3Unorm => 0x00000033,
            SurfaceFormat::Bc3Srgb => 0x00000433,
            SurfaceFormat::Bc4Unorm => 0x00000034,
            SurfaceFormat::Bc4Snorm => 0x00000234,
            SurfaceFormat::Bc5Unorm => 0x00000035,
            SurfaceFormat::Bc5Snorm => 0x00000235,
        }
    }

    /// Whether `r` is the variant with the value `value`, or `None` where no variant has it.
    pub open spec fn is_from_repr(value: u32, r: Option<SurfaceFormat>) -> bool {
        match r {
            Some(v) => v.value() == value,
            None => forall|v: SurfaceFormat| v.value() != value,
        }
    }

    /// Every variant comes back from its value, and the value 0xff is no variant's.
    pub proof fn lemma_from_repr(v: SurfaceFormat, r: Option<SurfaceFormat>, n: Option<SurfaceFormat>)
        requires
            SurfaceFormat::is_from_repr(v.value(), r),
            SurfaceFormat::is_from_repr(0xff, n),
        ensures
            r == Some(v),
            n is None,
    {
    }

    /// Returns the variant with the given value or `None` if invalid.
    pub fn from_repr(value: u32) -> (r: Option<SurfaceFormat>)
        ensures
            SurfaceFormat::is_from_repr(value, r),
    {
        match value {
            0x00000001 => Some(SurfaceFormat::R8Unorm),
            0x00000101 => Some(SurfaceFormat::R8Uint),
            0x00000201 => Some(SurfaceFormat::R8Snorm),
            0x00000301 => Some(SurfaceFormat::R8Sint),
            0x00000002 => Some(SurfaceFormat::R4G4Unorm),
            0x00000005 => Some(SurfaceFormat::R16Unorm),
            0x00000105 => Some(SurfaceFormat::R16Uint),
            0x00000205 => Some(SurfaceFormat::R16Snorm),
            0x00000305 => Some(SurfaceFormat::R16Sint),
            0x00000806 => Some(SurfaceFormat::R16Float),
            0x00000007 => Some(SurfaceFormat::R8G8Unorm),
            0x00000107 => Some(SurfaceFormat::R8G8Uint),
            0x00000207 => Some(SurfaceFormat::R8G8Snorm),
            0x00000307 => Some(SurfaceFormat::R8G8Sint),
            0x00000008 => Some(SurfaceFormat::R5G6B5Unorm),
            0x0000000a => Some(SurfaceFormat::R5G5B5A1Unorm),
            0x0000000b => Some(SurfaceFormat::R4G4B4A4Unorm),
            0x0000010d => Some(SurfaceFormat::R32Uint),
            0x0000030d => Some(SurfaceFormat::R32Sint),
            0x0000080e => Some(SurfaceFormat::R32Float),
            0x0000000f => Some(SurfaceFormat::R16G16Unorm),
            0x0000010f => Some(SurfaceFormat::R16G16Uint),
            0x0000020f => Some(SurfaceFormat::R16G16Snorm),
            0x0000030f => Some(SurfaceFormat::R16G16Sint),
            0x00000810 => Some(SurfaceFormat::R16G16Float),
            0x00000811 => Some(SurfaceFormat::D24S8Float),
            0x00000816 => Some(SurfaceFormat::R11G11B10Float),
            0x00000019 => Some(SurfaceFormat::R10G10B10A2Unorm),
            0x00000119 => Some(SurfaceFormat::R10G10B10A2Uint),
            0x00000319 => Some(SurfaceFormat::R10G10B10A2Sint),
            0x0000001a => Some(SurfaceFormat::R8G8B8A8Unorm),
            0x0000011a => Some(SurfaceFormat::R8G8B8A8Uint),
            0x0000021a => Some(SurfaceFormat::R8G8B8A8Snorm),
            0x0000031a => Some(SurfaceFormat::R8G8B8A8Sint),
            0x0000041a => Some(SurfaceFormat::R8G8B8A8Srgb),
            0x0000011d => Some(SurfaceFormat::R32G32Uint),
            0x0000031d => Some(SurfaceFormat::R32G32Sint),
            0x0000081e => Some(SurfaceFormat::R32G32Float),
            0x0000001f => Some(SurfaceFormat::R16G16B16A16Unorm),
            0x0000011f => Some(SurfaceFormat::R16G16B16A16Uint),
            0x0000021f => Some(SurfaceFormat::R16G16B16A16Snorm),
            0x0000031f => Some(SurfaceFormat::R16G16B16A16Sint),
            0x00000820 => Some(SurfaceFormat::R16G16B16A16Float),
            0x00000122 => Some(SurfaceFormat::R32G32B32A32Uint),
            0x00000322 => Some(SurfaceFormat::R32G32B32A32Sint),
            0x00000823 => Some(SurfaceFormat::R32G32B32A32Float),
            0x00000031 => Some(SurfaceFormat::Bc1Unorm),
            0x00000431 => Some(SurfaceFormat::Bc1Srgb),
            0x00000032 => Some(SurfaceFormat::Bc2Unorm),
            0x00000432 => Some(SurfaceFormat::Bc2Srgb),
            0x00000033 => Some(SurfaceFormat::Bc3Unorm),
            0x00000433 => Some(SurfaceFormat::Bc3Srgb),
            0x00000034 => Some(SurfaceFormat::Bc4Unorm),
            0x00000234 => Some(SurfaceFormat::Bc4Snorm),
            0x00000035 => Some(SurfaceFormat::Bc5Unorm),
            0x00000235 => Some(SurfaceFormat::Bc5Snorm),
            _ => None,
        }
    }
}

impl SurfaceFormat {
    /// Whether this is a block compressed format using 4x4 blocks.
    pub open spec fn is_block_compressed(self) -> bool {
        match self {
            SurfaceFormat::Bc1Unorm
            | SurfaceFormat::Bc1Srgb
            | SurfaceFormat::Bc2Unorm
            | SurfaceFormat::Bc2Srgb
            | SurfaceFormat::Bc3Unorm
            | SurfaceFormat::Bc3Srgb
            | SurfaceFormat::Bc4Unorm
            | SurfaceFormat::Bc4Snorm
            | SurfaceFormat::Bc5Unorm
            | SurfaceFormat::Bc5Snorm => true,
            _ => false,
        }
    }

    /// The size in bytes of one addressable element: a pixel, or a block
    /// for block compressed formats.
    pub open spec fn spec_bytes_per_pixel(self) -> u32 {
        match self {
            SurfaceFormat::R8Unorm => 1,
            SurfaceFormat::R8Uint => 1,
            SurfaceFormat::R8Snorm => 1,
            SurfaceFormat::R8Sint => 1,
            SurfaceFormat::R4G4Unorm => 1,
            SurfaceFormat::R16Unorm => 2,
            SurfaceFormat::R16Uint => 2,
            SurfaceFormat::R16Snorm => 2,
            SurfaceFormat::R16Sint => 2,
            SurfaceFormat::R16Float => 2,
            SurfaceFormat::R8G8Unorm => 2,
            SurfaceFormat::R8G8Uint => 2,
            SurfaceFormat::R8G8Snorm => 2,
            SurfaceFormat::R8G8Sint => 2,
            SurfaceFormat::R5G6B5Unorm => 2,
            SurfaceFormat::R5G5B5A1Unorm => 2,
            SurfaceFormat::R4G4B4A4Unorm => 2,
            SurfaceFormat::R32Uint => 4,
            SurfaceFormat::R32Sint => 4,
            SurfaceFormat::R32Float => 4,
            SurfaceFormat::R16G16Unorm => 4,
            SurfaceFormat::R16G16Uint => 4,
            SurfaceFormat::R16G16Snorm => 4,
            SurfaceFormat::R16G16Sint => 4,
            SurfaceFormat::R16G16Float => 4,
            SurfaceFormat::D24S8Float => 4,
            SurfaceFormat::R11G11B10Float => 4,
            SurfaceFormat::R10G10B10A2Unorm => 4,
            SurfaceFormat::R10G10B10A2Uint => 4,
            SurfaceFormat::R10G10B10A2Sint => 4,
            SurfaceFormat::R8G8B8A8Unorm => 4,
            SurfaceFormat::R8G8B8A8Uint => 4,
            SurfaceFormat::R8G8B8A8Snorm => 4,
            SurfaceFormat::R8G8B8A8Sint => 4,
            SurfaceFormat::R8G8B8A8Srgb => 4,
            SurfaceFormat::R32G32Uint => 8,
            SurfaceFormat::R32G32Sint => 8,
            SurfaceFormat::R32G32Float => 8,
            SurfaceFormat::R16G16B16A16Unorm => 8,
            SurfaceFormat::R16G16B16A16Uint => 8,
            SurfaceFormat::R16G16B16A16Snorm => 8,
            SurfaceFormat::R16G16B16A16Sint => 8,
            SurfaceFormat::R16G16B16A16Float => 8,
            SurfaceFormat::R32G32B32A32Uint => 16,
            SurfaceFormat::R32G32B32A32Sint => 16,
            SurfaceFormat::R32G32B32A32Float => 16,
            SurfaceFormat::Bc1Unorm => 8,
            SurfaceFormat::Bc1Srgb => 8,
            SurfaceFormat::Bc2Unorm => 16,
            SurfaceFormat::Bc2Srgb => 16,
            SurfaceFormat::Bc3Unorm => 16,
            SurfaceFormat::Bc3Srgb => 16,
            SurfaceFormat::Bc4Unorm => 8,
            SurfaceFormat::Bc4Snorm => 8,
            SurfaceFormat::Bc5Unorm => 16,
            SurfaceFormat::Bc5Snorm => 16,
        }
    }

    /// The width and height in pixels of one element.
    pub fn block_dim(&self) -> (r: (u32, u32))
        ensures
            r == (if self.is_block_compressed() { (4u32, 4u32) } else { (1u32, 1u32) }),
    {
        match self {
            SurfaceFormat::Bc1Unorm => (4, 4),
            SurfaceFormat::Bc1Srgb => (4, 4),
            SurfaceFormat::Bc2Unorm => (4, 4),
            SurfaceFormat::Bc2Srgb => (4, 4),
            SurfaceFormat::Bc3Unorm => (4, 4),
            SurfaceFormat::Bc3Srgb => (4, 4),
            SurfaceFormat::Bc4Unorm => (4, 4),
            SurfaceFormat::Bc4Snorm => (4, 4),
            SurfaceFormat::Bc5Unorm => (4, 4),
            SurfaceFormat::Bc5Snorm => (4, 4),
            _ => (1, 1),
        }
    }

    /// The size in bytes of one element.
    pub fn bytes_per_pixel(&self) -> (r: u32)
        ensures
            r == self.spec_bytes_per_pixel(),
            1 <= r <= 16,
    {
        match self {
            SurfaceFormat::R8Unorm => 1,
            SurfaceFormat::R8Uint => 1,
            SurfaceFormat::R8Snorm => 1,
            SurfaceFormat::R8Sint => 1,
            SurfaceFormat::R4G4Unorm => 1,
            SurfaceFormat::R16Unorm => 2,
            SurfaceFormat::R16Uint => 2,
            SurfaceFormat::R16Snorm => 2,
            SurfaceFormat::R16Sint => 2,
            SurfaceFormat::R16Float => 2,
            SurfaceFormat::R8G8Unorm => 2,
            SurfaceFormat::R8G8Uint => 2,
            SurfaceFormat::R8G8Snorm => 2,
            SurfaceFormat::R8G8Sint => 2,
            SurfaceFormat::R5G6B5Unorm => 2,
            SurfaceFormat::R5G5B5A1Unorm => 2,
            SurfaceFormat::R4G4B4A4Unorm => 2,
            SurfaceFormat::R32Uint => 4,
            SurfaceFormat::R32Sint => 4,
            SurfaceFormat::R32Float => 4,
            SurfaceFormat::R16G16Unorm => 4,
            SurfaceFormat::R16G16Uint => 4,
            SurfaceFormat::R16G16Snorm => 4,
            SurfaceFormat::R16G16Sint => 4,
            SurfaceFormat::R16G16Float => 4,
            SurfaceFormat::D24S8Float => 4,
            SurfaceFormat::R11G11B10Float => 4,
            SurfaceFormat::R10G10B10A2Unorm => 4,
            SurfaceFormat::R10G10B10A2Uint => 4,
            SurfaceFormat::R10G10B10A2Sint => 4,
            SurfaceFormat::R8G8B8A8Unorm => 4,
            SurfaceFormat::R8G8B8A8Uint => 4,
            SurfaceFormat::R8G8B8A8Snorm => 4,
            SurfaceFormat::R8G8B8A8Sint => 4,
            SurfaceFormat::R8G8B8A8Srgb => 4,
            SurfaceFormat::R32G32Uint => 8,
            SurfaceFormat::R32G32Sint => 8,
            SurfaceFormat::R32G32Float => 8,
            SurfaceFormat::R16G16B16A16Unorm => 8,
            SurfaceFormat::R16G16B16A16Uint => 8,
            SurfaceFormat::R16G16B16A16Snorm => 8,
            SurfaceFormat::R16G16B16A16Sint => 8,
            SurfaceFormat::R16G16B16A16Float => 8,
            SurfaceFormat::R32G32B32A32Uint => 16,
            SurfaceFormat::R32G32B32A32Sint => 16,
            SurfaceFormat::R32G32B32A32Float => 16,
            SurfaceFormat::Bc1Unorm => 8,
            SurfaceFormat::Bc1Srgb => 8,
            SurfaceFormat::Bc2Unorm => 16,
            SurfaceFormat::Bc2Srgb => 16,
            SurfaceFormat::Bc3Unorm => 16,
            SurfaceFormat::Bc3Srgb => 16,
            SurfaceFormat::Bc4Unorm => 8,
            SurfaceFormat::Bc4Snorm => 8,
            SurfaceFormat::Bc5Unorm => 16,
            SurfaceFormat::Bc5Snorm => 16,
        }
    }
}

/// GX2SurfaceDim for the dimensionality of the texture surface.
#[derive(Debug, Clone, Copy, PartialEq, Eq, Structural, PartialOrd, Ord, Hash)]
pub enum SurfaceDim {
    D1,
    D2,
    D3,
    Cube,
}

impl SurfaceDim {
    /// The numeric value that GX2 uses for this variant.
    pub open spec fn value(self) -> u32 {
        match self {
            SurfaceDim::D1 => 0,
            SurfaceDim::D2 => 1,
            SurfaceDim::D3 => 2,
            SurfaceDim::Cube => 3,
        }
    }

    /// Returns the numeric value of this variant.
    pub fn repr(&self) -> (r: u32)
        ensures
            r == self.value(),
    {
        match self {
            SurfaceDim::D1 => 0,
            SurfaceDim::D2 => 1,
            SurfaceDim::D3 => 2,
            SurfaceDim::Cube => 3,
        }
    }

    /// Whether `r` is the variant with the value `value`, or `None` where no variant has it.
    pub open spec fn is_from_repr(value: u32, r: Option<SurfaceDim>) -> bool {
        match r {
            Some(v) => v.value() == value,
            None => forall|v: SurfaceDim| v.value() != value,
        }
    }

    /// Every variant comes back from its value, and the value 0xff is no variant's.
    pub proof fn lemma_from_repr(v: SurfaceDim, r: Option<SurfaceDim>, n: Option<SurfaceDim>)
        requires
            SurfaceDim::is_from_repr(v.value(), r),
            SurfaceDim::is_from_repr(0xff, n),
        ensures
            r == Some(v),
            n is None,
    {
    }

    /// Returns the variant with the given value or `None` if invalid.
    pub fn from_repr(value: u32) -> (r: Option<SurfaceDim>)
        ensures
            SurfaceDim::is_from_repr(value, r),
    {
        match value {
            0 => Some(SurfaceDim::D1),
            1 => Some(SurfaceDim::D2),
            2 => Some(SurfaceDim::D3),
            3 => Some(SurfaceDim::Cube),
            _ => None,
        }
    }
}

} // verus!
