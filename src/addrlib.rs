//! Address computation for tiled surfaces of the R6xx-family tiling scheme
//! ("addrlib"): element addresses, effective tile modes and surface alignments.
//!
//! Addresses are 32-bit values. For the surfaces that [crate::Gx2Surface] accepts,
//! whose dimension product fits in 32 bits, the address arithmetic stays within
//! 32 bits. So that every function here is total on any input, an intermediate
//! that would exceed 32 bits is taken modulo 2^32, and where an intermediate
//! divisor is zero for degenerate parameters, the quotient is taken as zero and
//! the remainder as the dividend. The size comparison that degrades small mips
//! to 1D tiling is computed exactly.
//!
//! Mip dimensions are rounded up to powers of two, but not padded to their
//! alignments: that padding step is not applied to pitch, height or slices.
use vstd::prelude::*;

use crate::formats::SurfaceFormat;

verus! {

pub const M_BANKS: u32 = 4;
pub const M_PIPES: u32 = 2;
pub const M_PIPE_INTERLEAVE_BYTES: u32 = 256;
pub const M_SPLIT_SIZE: u32 = 2048;
pub const M_ROW_SIZE: u32 = 2048;
pub const M_SWAP_SIZE: u32 = 256;

pub const MICRO_TILE_WIDTH: u32 = 8;
pub const MICRO_TILE_HEIGHT: u32 = 8;
pub const THICK_TILE_THICKNESS: u32 = 4;
pub const MICRO_TILE_PIXELS: u32 = MICRO_TILE_WIDTH * MICRO_TILE_HEIGHT;

/// The base 2 logarithms of `M_PIPE_INTERLEAVE_BYTES`, `M_PIPES` and `M_BANKS`.
pub const NUM_GROUP_BITS: u32 = 8;
pub const NUM_PIPE_BITS: u32 = 1;
pub const NUM_BANK_BITS: u32 = 2;

/// The hardware tiling scheme of a surface.
#[derive(Debug, Clone, Copy, PartialEq, Eq, Structural, PartialOrd, Ord, Hash)]
pub enum TileMode {
    /// ADDR_TM_LINEAR_GENERAL
    LinearGeneral,
    /// ADDR_TM_LINEAR_ALIGNED
    LinearAligned,
    /// ADDR_TM_1D_TILED_THIN1
    D1TiledThin1,
    /// ADDR_TM_1D_TILED_THICK
    D1TiledThick,
    /// ADDR_TM_2D_TILED_THIN1
    D2TiledThin1,
    /// ADDR_TM_2D_TILED_THIN2
    D2TiledThin2,
    /// ADDR_TM_2D_TILED_THIN4
    D2TiledThin4,
    /// ADDR_TM_2D_TILED_THICK
    D2TiledThick,
    /// ADDR_TM_2B_TILED_THIN1
    B2TiledThin1,
    /// ADDR_TM_2B_TILED_THIN2
    B2TiledThin2,
    /// ADDR_TM_2B_TILED_THIN4
    B2TiledThin4,
    /// ADDR_TM_2B_TILED_THICK
    B2TiledThick,
    /// ADDR_TM_3D_TILED_THIN1
    D3TiledThin1,
    /// ADDR_TM_3D_TILED_THICK
    D3TiledThick,
    /// ADDR_TM_3B_TILED_THIN1
    B3TiledThin1,
    /// ADDR_TM_3B_TILED_THICK
    B3TiledThick,
    /// ADDR_TM_2D_TILED_XTHICK or ADDR_TM_LINEAR_SPECIAL
    D2TiledXthick,
    /// ADDR_TM_3D_TILED_XTHICK
    D3TiledXThick,
    /// ADDR_TM_POWER_SAVE
    PowerSave,
    /// ADDR_TM_COUNT
    Count,
}

impl TileMode {
    /// The numeric value that addrlib and GX2 use for this variant.
    pub open spec fn value(self) -> u32 {
        match self {
            TileMode::LinearGeneral => 0,
            TileMode::LinearAligned => 1,
            TileMode::D1TiledThin1 => 2,
            TileMode::D1TiledThick => 3,
            TileMode::D2TiledThin1 => 4,
            TileMode::D2TiledThin2 => 5,
            TileMode::D2TiledThin4 => 6,
            TileMode::D2TiledThick => 7,
            TileMode::B2TiledThin1 => 8,
            TileMode::B2TiledThin2 => 9,
            TileMode::B2TiledThin4 => 10,
            TileMode::B2TiledThick => 11,
            TileMode::D3TiledThin1 => 12,
            TileMode::D3TiledThick => 13,
            TileMode::B3TiledThin1 => 14,
            TileMode::B3TiledThick => 15,
            TileMode::D2TiledXthick => 16,
            TileMode::D3TiledXThick => 17,
            TileMode::PowerSave => 18,
            TileMode::Count => 19,
        }
    }

    /// Returns the numeric value of this variant.
    pub fn repr(&self) -> (r: u32)
        ensures
            r == self.value(),
    {
        match self {
            TileMode::LinearGeneral => 0,
            TileMode::LinearAligned => 1,
            TileMode::D1TiledThin1 => 2,
            TileMode::D1TiledThick => 3,
            TileMode::D2TiledThin1 => 4,
            TileMode::D2TiledThin2 => 5,
            TileMode::D2TiledThin4 => 6,
            TileMode::D2TiledThick => 7,
            TileMode::B2TiledThin1 => 8,
            TileMode::B2TiledThin2 => 9,
            TileMode::B2TiledThin4 => 10,
            TileMode::B2TiledThick => 11,
            TileMode::D3TiledThin1 => 12,
            TileMode::D3TiledThick => 13,
            TileMode::B3TiledThin1 => 14,
            TileMode::B3TiledThick => 15,
            TileMode::D2TiledXthick => 16,
            TileMode::D3TiledXThick => 17,
            TileMode::PowerSave => 18,
            TileMode::Count => 19,
        }
    }

    /// Whether `r` is the variant with the value `value`, or `None` where no variant has it.
    pub open spec fn is_from_repr(value: u32, r: Option<TileMode>) -> bool {
        match r {
            Some(v) => v.value() == value,
            None => forall|v: TileMode| v.value() != value,
        }
    }

    /// Every variant comes back from its value, and the value 0xff is no variant's.
    pub proof fn lemma_from_repr(v: TileMode, r: Option<TileMode>, n: Option<TileMode>)
        requires
            TileMode::is_from_repr(v.value(), r),
            TileMode::is_from_repr(0xff, n),
        ensures
            r == Some(v),
            n is None,
    {
    }

    /// Returns the variant with the given value or `None` if invalid.
    pub fn from_repr(value: u32) -> (r: Option<TileMode>)
        ensures
            TileMode::is_from_repr(value, r),
    {
        match value {
            0 => Some(TileMode::LinearGeneral),
            1 => Some(TileMode::LinearAligned),
            2 => Some(TileMode::D1TiledThin1),
            3 => Some(TileMode::D1TiledThick),
            4 => Some(TileMode::D2TiledThin1),
            5 => Some(TileMode::D2TiledThin2),
            6 => Some(TileMode::D2TiledThin4),
            7 => Some(TileMode::D2TiledThick),
            8 => Some(TileMode::B2TiledThin1),
            9 => Some(TileMode::B2TiledThin2),
            10 => Some(TileMode::B2TiledThin4),
            11 => Some(TileMode::B2TiledThick),
            12 => Some(TileMode::D3TiledThin1),
            13 => Some(TileMode::D3TiledThick),
            14 => Some(TileMode::B3TiledThin1),
            15 => Some(TileMode::B3TiledThick),
            16 => Some(TileMode::D2TiledXthick),
            17 => Some(TileMode::D3TiledXThick),
            18 => Some(TileMode::PowerSave),
            19 => Some(TileMode::Count),
            _ => None,
        }
    }
}

/// The arrangement of pixels within a micro tile.
#[derive(Debug, Clone, Copy, PartialEq, Eq, Structural)]
pub enum TileType {
    /// ADDR_DISPLAYABLE
    Displayable,
    /// ADDR_NON_DISPLAYABLE
    NonDisplayable,
    /// ADDR_DEPTH_SAMPLE_ORDER
    DepthSampleOrder,
    /// ADDR_THICK_TILING
    ThickTiling,
}

/// The input of the address computation for a single element.
#[derive(Debug, Clone, Copy, PartialEq, Eq, Structural)]
pub struct ComputeSurfaceAddrFromCoordInput {
    pub x: u32,
    pub y: u32,
    pub slice: u32,
    pub sample: u32,
    pub bpp: u32,
    pub pitch: u32,
    pub height: u32,
    pub num_slices: u32,
    pub num_samples: u32,
    pub tile_mode: TileMode,
    pub is_depth: bool,
    pub tile_base: u32,
    pub comp_bits: u32,
    pub pipe_swizzle: u32,
    pub bank_swizzle: u32,
}

/// `a / b`, or zero where `b` is zero.
pub open spec fn div0(a: u32, b: u32) -> u32 {
    if b == 0 {
        0
    } else {
        a / b
    }
}

/// `a % b`, or `a` where `b` is zero.
pub open spec fn mod0(a: u32, b: u32) -> u32 {
    if b == 0 {
        a
    } else {
        a % b
    }
}

pub open spec fn max_u32(a: u32, b: u32) -> u32 {
    if a >= b {
        a
    } else {
        b
    }
}

pub open spec fn min_u32(a: u32, b: u32) -> u32 {
    if a <= b {
        a
    } else {
        b
    }
}

/// The number of bytes that hold `x` bits, rounded up.
pub open spec fn spec_bits_to_bytes(x: u32) -> u32 {
    x.wrapping_add(7) / 8
}

pub open spec fn spec_bit(v: u32, b: u32) -> u32 {
    (v >> b) & 1
}

fn bits_to_bytes(x: u32) -> (r: u32)
    ensures
        r == spec_bits_to_bytes(x),
{
    x.wrapping_add(u8::BITS - 1) / u8::BITS
}

fn bit(v: u32, b: u32) -> (r: u32)
    requires
        b < 32,
    ensures
        r == spec_bit(v, b),
        r <= 1,
{
    assert(((v >> b) & 1) <= 1) by (bit_vector);
    (v >> b) & 1
}

fn quot(a: u32, b: u32) -> (r: u32)
    ensures
        r == div0(a, b),
{
    if b == 0 {
        0
    } else {
        a / b
    }
}

fn max(a: u32, b: u32) -> (r: u32)
    ensures
        r == max_u32(a, b),
{
    if a >= b {
        a
    } else {
        b
    }
}

fn min(a: u32, b: u32) -> (r: u32)
    ensures
        r == min_u32(a, b),
{
    if a <= b {
        a
    } else {
        b
    }
}

/// The number of slices that one micro tile spans.
pub open spec fn thickness(tile_mode: TileMode) -> u32 {
    match tile_mode {
        TileMode::D1TiledThick
        | TileMode::D2TiledThick
        | TileMode::B2TiledThick
        | TileMode::D3TiledThick
        | TileMode::B3TiledThick => 4,
        TileMode::D2TiledXthick | TileMode::D3TiledXThick => 8,
        _ => 1,
    }
}

fn compute_surface_thickness(tile_mode: TileMode) -> (r: u32)
    ensures
        r == thickness(tile_mode),
        r == 1 || r == 4 || r == 8,
{
    match tile_mode {
        TileMode::D1TiledThick
        | TileMode::D2TiledThick
        | TileMode::B2TiledThick
        | TileMode::D3TiledThick
        | TileMode::B3TiledThick => 4,
        TileMode::D2TiledXthick | TileMode::D3TiledXThick => 8,
        _ => 1,
    }
}

/// The index of the pixel at `(x, y, z)` within its micro tile: a permutation
/// of the three low bits of each coordinate, packed from the least significant bit.
pub open spec fn pixel_index(
    x: u32,
    y: u32,
    z: u32,
    bpp: u32,
    tile_mode: TileMode,
    tile_type: TileType,
) -> u32 {
    let x0 = spec_bit(x, 0);
    let x1 = spec_bit(x, 1);
    let x2 = spec_bit(x, 2);
    let y0 = spec_bit(y, 0);
    let y1 = spec_bit(y, 1);
    let y2 = spec_bit(y, 2);
    let z0 = spec_bit(z, 0);
    let z1 = spec_bit(z, 1);
    let z2 = spec_bit(z, 2);
    let t = thickness(tile_mode);
    let low: (u32, u32, u32, u32, u32, u32) = if tile_type == TileType::ThickTiling {
        (x0, y0, z0, x1, y1, z1)
    } else if tile_type == TileType::NonDisplayable {
        (x0, y0, x1, y1, x2, y2)
    } else if bpp == 8 {
        (x0, x1, x2, y1, y0, y2)
    } else if bpp == 16 {
        (x0, x1, x2, y0, y1, y2)
    } else if bpp == 64 {
        (x0, y0, x1, x2, y1, y2)
    } else if bpp == 128 {
        (y0, x0, x1, x2, y1, y2)
    } else {
        (x0, x1, y0, x2, y1, y2)
    };
    let b6: u32 = if tile_type == TileType::ThickTiling {
        x2
    } else if t > 1 {
        z0
    } else {
        0
    };
    let b7: u32 = if tile_type == TileType::ThickTiling {
        y2
    } else if t > 1 {
        z1
    } else {
        0
    };
    let b8: u32 = if t == 8 {
        z2
    } else {
        0
    };
    low.0 | (low.1 << 1u32) | (low.2 << 2u32) | (low.3 << 3u32) | (low.4 << 4u32) | (low.5
        << 5u32) | (b6 << 6u32) | (b7 << 7u32) | (b8 << 8u32)
}

fn compute_pixel_index_within_micro_tile(
    x: u32,
    y: u32,
    z: u32,
    bpp: u32,
    tile_mode: TileMode,
    tile_type: TileType,
) -> (r: u32)
    ensures
        r == pixel_index(x, y, z, bpp, tile_mode, tile_type),
{
    let x0 = bit(x, 0);
    let x1 = bit(x, 1);
    let x2 = bit(x, 2);
    let y0 = bit(y, 0);
    let y1 = bit(y, 1);
    let y2 = bit(y, 2);
    let z0 = bit(z, 0);
    let z1 = bit(z, 1);
    let z2 = bit(z, 2);
    let thickness = compute_surface_thickness(tile_mode);
    let low: (u32, u32, u32, u32, u32, u32) = if tile_type == TileType::ThickTiling {
        (x0, y0, z0, x1, y1, z1)
    } else if tile_type == TileType::NonDisplayable {
        (x0, y0, x1, y1, x2, y2)
    } else if bpp == 8 {
        (x0, x1, x2, y1, y0, y2)
    } else if bpp == 16 {
        (x0, x1, x2, y0, y1, y2)
    } else if bpp == 64 {
        (x0, y0, x1, x2, y1, y2)
    } else if bpp == 128 {
        (y0, x0, x1, x2, y1, y2)
    } else {
        (x0, x1, y0, x2, y1, y2)
    };
    let b6: u32 = if tile_type == TileType::ThickTiling {
        x2
    } else if thickness > 1 {
        z0
    } else {
        0
    };
    let b7: u32 = if tile_type == TileType::ThickTiling {
        y2
    } else if thickness > 1 {
        z1
    } else {
        0
    };
    let b8: u32 = if thickness == 8 {
        z2
    } else {
        0
    };
    low.0 | (low.1 << 1u32) | (low.2 << 2u32) | (low.3 << 3u32) | (low.4 << 4u32) | (low.5
        << 5u32) | (b6 << 6u32) | (b7 << 7u32) | (b8 << 8u32)
}

/// The rotation that mixes the slice index into the bank and pipe bits.
pub open spec fn rotation(tile_mode: TileMode) -> u32 {
    match tile_mode {
        TileMode::D2TiledThin1
        | TileMode::D2TiledThin2
        | TileMode::D2TiledThin4
        | TileMode::D2TiledThick
        | TileMode::B2TiledThin1
        | TileMode::B2TiledThin2
        | TileMode::B2TiledThin4
        | TileMode::B2TiledThick => (M_PIPES * ((M_BANKS >> 1) - 1)) as u32,
        TileMode::D3TiledThin1
        | TileMode::D3TiledThick
        | TileMode::B3TiledThin1
        | TileMode::B3TiledThick => if M_PIPES >= 4 {
            ((M_PIPES >> 1) - 1) as u32
        } else {
            1
        },
        _ => 0,
    }
}

fn compute_surface_rotation_from_tile_mode(tile_mode: TileMode) -> (r: u32)
    ensures
        r == rotation(tile_mode),
{
    assert(M_BANKS >> 1u32 == 2 && M_PIPES >> 1u32 == 1) by (bit_vector);
    match tile_mode {
        TileMode::D2TiledThin1
        | TileMode::D2TiledThin2
        | TileMode::D2TiledThin4
        | TileMode::D2TiledThick
        | TileMode::B2TiledThin1
        | TileMode::B2TiledThin2
        | TileMode::B2TiledThin4
        | TileMode::B2TiledThick => M_PIPES * ((M_BANKS >> 1) - 1),
        TileMode::D3TiledThin1
        | TileMode::D3TiledThick
        | TileMode::B3TiledThin1
        | TileMode::B3TiledThick => {
            if M_PIPES >= 4 {
                (M_PIPES >> 1) - 1
            } else {
                1
            }
        },
        _ => 0,
    }
}

/// The ratio of height to width of a macro tile, in units of its base shape.
pub open spec fn macro_aspect(tile_mode: TileMode) -> u32 {
    match tile_mode {
        TileMode::D2TiledThin2 | TileMode::B2TiledThin2 => 2,
        TileMode::D2TiledThin4 | TileMode::B2TiledThin4 => 4,
        _ => 1,
    }
}

fn compute_macro_tile_aspect_ratio(tile_mode: TileMode) -> (r: u32)
    ensures
        r == macro_aspect(tile_mode),
        r == 1 || r == 2 || r == 4,
{
    match tile_mode {
        TileMode::B2TiledThin1 | TileMode::D3TiledThin1 | TileMode::B3TiledThin1 => 1,
        TileMode::D2TiledThin2 | TileMode::B2TiledThin2 => 2,
        TileMode::D2TiledThin4 | TileMode::B2TiledThin4 => 4,
        _ => 1,
    }
}

pub open spec fn thick_macro(tile_mode: TileMode) -> bool {
    matches!(
        tile_mode,
        TileMode::D2TiledThick | TileMode::B2TiledThick | TileMode::D3TiledThick
            | TileMode::B3TiledThick
    )
}

fn is_thick_macro_tiled(tile_mode: TileMode) -> (r: bool)
    ensures
        r == thick_macro(tile_mode),
{
    matches!(
        tile_mode,
        TileMode::D2TiledThick | TileMode::B2TiledThick | TileMode::D3TiledThick
            | TileMode::B3TiledThick
    )
}

pub open spec fn bank_swapped(tile_mode: TileMode) -> bool {
    matches!(
        tile_mode,
        TileMode::B2TiledThin1 | TileMode::B2TiledThin2 | TileMode::B2TiledThin4
            | TileMode::B2TiledThick | TileMode::B3TiledThin1 | TileMode::B3TiledThick
    )
}

fn is_bank_swapped_tile_mode(tile_mode: TileMode) -> (r: bool)
    ensures
        r == bank_swapped(tile_mode),
{
    matches!(
        tile_mode,
        TileMode::B2TiledThin1 | TileMode::B2TiledThin2 | TileMode::B2TiledThin4
            | TileMode::B2TiledThick | TileMode::B3TiledThin1 | TileMode::B3TiledThick
    )
}

/// The tile mode without bank swapping.
pub open spec fn non_bank_swapped(tile_mode: TileMode) -> TileMode {
    match tile_mode {
        TileMode::B2TiledThin1 => TileMode::D2TiledThin1,
        TileMode::B2TiledThin2 => TileMode::D2TiledThin2,
        TileMode::B2TiledThin4 => TileMode::D2TiledThin4,
        TileMode::B2TiledThick => TileMode::D2TiledThick,
        TileMode::B3TiledThin1 => TileMode::D3TiledThin1,
        TileMode::B3TiledThick => TileMode::D3TiledThick,
        _ => tile_mode,
    }
}

fn convert_to_non_bank_swapped_mode(tile_mode: TileMode) -> (r: TileMode)
    ensures
        r == non_bank_swapped(tile_mode),
{
    match tile_mode {
        TileMode::B2TiledThin1 => TileMode::D2TiledThin1,
        TileMode::B2TiledThin2 => TileMode::D2TiledThin2,
        TileMode::B2TiledThin4 => TileMode::D2TiledThin4,
        TileMode::B2TiledThick => TileMode::D2TiledThick,
        TileMode::B3TiledThin1 => TileMode::D3TiledThin1,
        TileMode::B3TiledThick => TileMode::D3TiledThick,
        _ => tile_mode,
    }
}

/// The tile type used for the pixel order within a micro tile.
pub open spec fn tile_type_for(is_depth: bool) -> TileType {
    if is_depth {
        TileType::NonDisplayable
    } else {
        TileType::Displayable
    }
}

fn get_tile_type(is_depth: bool) -> (r: TileType)
    ensures
        r == tile_type_for(is_depth),
{
    if is_depth {
        TileType::NonDisplayable
    } else {
        TileType::Displayable
    }
}

/// The pipe of a coordinate before rotation and swizzling.
pub open spec fn pipe_from_coord(x: u32, y: u32) -> u32 {
    let x3 = spec_bit(x, 3);
    let x4 = spec_bit(x, 4);
    let x5 = spec_bit(x, 5);
    let y3 = spec_bit(y, 3);
    let y4 = spec_bit(y, 4);
    let y5 = spec_bit(y, 5);
    let bits: (u32, u32, u32) = if M_PIPES == 2 {
        (y3 ^ x3, 0, 0)
    } else if M_PIPES == 4 {
        (y3 ^ x4, y4 ^ x3, 0)
    } else if M_PIPES == 8 {
        (y3 ^ x5, y4 ^ x5 ^ x4, y5 ^ x3)
    } else {
        (0, 0, 0)
    };
    bits.0 | (bits.1 << 1u32) | (bits.2 << 2u32)
}

fn compute_pipe_from_coord_wo_rotation(x: u32, y: u32) -> (r: u32)
    ensures
        r == pipe_from_coord(x, y),
{
    let x3 = bit(x, 3);
    let x4 = bit(x, 4);
    let x5 = bit(x, 5);
    let y3 = bit(y, 3);
    let y4 = bit(y, 4);
    let y5 = bit(y, 5);
    let bits: (u32, u32, u32) = if M_PIPES == 2 {
        (y3 ^ x3, 0, 0)
    } else if M_PIPES == 4 {
        (y3 ^ x4, y4 ^ x3, 0)
    } else if M_PIPES == 8 {
        (y3 ^ x5, y4 ^ x5 ^ x4, y5 ^ x3)
    } else {
        (0, 0, 0)
    };
    bits.0 | (bits.1 << 1u32) | (bits.2 << 2u32)
}

/// Whether banks are assigned with the optimal bank swap of the hardware.
pub const BANK_OPT: u32 = 1;

/// The bank of a coordinate before rotation and swizzling.
pub open spec fn bank_from_coord(x: u32, y: u32) -> u32 {
    let tx = x / M_BANKS;
    let ty = y / M_PIPES;
    let x3 = spec_bit(x, 3);
    let x4 = spec_bit(x, 4);
    let x5 = spec_bit(x, 5);
    let tx3 = spec_bit(tx, 3);
    let ty3 = spec_bit(ty, 3);
    let ty4 = spec_bit(ty, 4);
    let ty5 = spec_bit(ty, 5);
    let opt = BANK_OPT == 1 && M_PIPES == 8;
    let bits: (u32, u32, u32) = if M_BANKS == 4 {
        (
            if opt {
                ty4 ^ x3 ^ x5
            } else {
                ty4 ^ x3
            },
            ty3 ^ x4,
            0,
        )
    } else if M_BANKS == 8 {
        (
            if opt {
                ty5 ^ x3 ^ tx3
            } else {
                ty5 ^ x3
            },
            ty5 ^ ty4 ^ x4,
            ty3 ^ x5,
        )
    } else {
        (0, 0, 0)
    };
    bits.0 | (bits.1 << 1u32) | (bits.2 << 2u32)
}

fn compute_bank_from_coord_wo_rotation(x: u32, y: u32) -> (r: u32)
    ensures
        r == bank_from_coord(x, y),
{
    let tx = x / M_BANKS;
    let ty = y / M_PIPES;
    let x3 = bit(x, 3);
    let x4 = bit(x, 4);
    let x5 = bit(x, 5);
    let tx3 = bit(tx, 3);
    let ty3 = bit(ty, 3);
    let ty4 = bit(ty, 4);
    let ty5 = bit(ty, 5);
    let opt = BANK_OPT == 1 && M_PIPES == 8;
    let bits: (u32, u32, u32) = if M_BANKS == 4 {
        (
            if opt {
                ty4 ^ x3 ^ x5
            } else {
                ty4 ^ x3
            },
            ty3 ^ x4,
            0,
        )
    } else if M_BANKS == 8 {
        (
            if opt {
                ty5 ^ x3 ^ tx3
            } else {
                ty5 ^ x3
            },
            ty5 ^ ty4 ^ x4,
            ty3 ^ x5,
        )
    } else {
        (0, 0, 0)
    };
    bits.0 | (bits.1 << 1u32) | (bits.2 << 2u32)
}

/// Halves `width` until it is below `limit` (or zero).
pub open spec fn halve_below(width: u32, limit: u32) -> u32
    decreases width,
{
    if width >= limit && width > 0 {
        halve_below(width / 2, limit)
    } else {
        width
    }
}

/// The width in elements after which `B*` tile modes swap banks, or zero for
/// other tile modes.
pub open spec fn bank_swapped_width(
    tile_mode: TileMode,
    bpp: u32,
    num_samples: u32,
    pitch: u32,
) -> u32 {
    let bytes_per_sample = 8u32.wrapping_mul(bpp);
    let samples_per_tile = div0(M_SPLIT_SIZE, bytes_per_sample);
    let slices_per_tile = if samples_per_tile != 0 {
        max_u32(1, num_samples / samples_per_tile)
    } else {
        1
    };
    let ns = if thick_macro(tile_mode) {
        4
    } else {
        num_samples
    };
    let bytes_per_tile_slice = ns.wrapping_mul(bytes_per_sample) / slices_per_tile;
    if bank_swapped(tile_mode) {
        let factor = macro_aspect(tile_mode);
        let swap_tiles = max_u32(1, div0(M_SWAP_SIZE >> 1u32, bpp));
        let swap_width = swap_tiles.wrapping_mul(8).wrapping_mul(M_BANKS);
        let height_bytes = ns.wrapping_mul(factor).wrapping_mul(M_PIPES).wrapping_mul(bpp)
            / slices_per_tile;
        let swap_max = div0((M_PIPES * M_BANKS * M_ROW_SIZE) as u32, height_bytes);
        let swap_min = div0((M_PIPE_INTERLEAVE_BYTES * 8 * M_BANKS) as u32, bytes_per_tile_slice);
        halve_below(min_u32(swap_max, max_u32(swap_min, swap_width)), 2u32.wrapping_mul(pitch))
    } else {
        0
    }
}

fn compute_surface_bank_swapped_width(
    tile_mode: TileMode,
    bpp: u32,
    num_samples: u32,
    pitch: u32,
) -> (r: u32)
    ensures
        r == bank_swapped_width(tile_mode, bpp, num_samples, pitch),
{
    let bytes_per_sample = 8u32.wrapping_mul(bpp);
    let samples_per_tile = quot(M_SPLIT_SIZE, bytes_per_sample);
    let slices_per_tile = if samples_per_tile != 0 {
        max(1, num_samples / samples_per_tile)
    } else {
        1
    };
    let ns = if is_thick_macro_tiled(tile_mode) {
        4
    } else {
        num_samples
    };
    let bytes_per_tile_slice = ns.wrapping_mul(bytes_per_sample) / slices_per_tile;
    if is_bank_swapped_tile_mode(tile_mode) {
        let factor = compute_macro_tile_aspect_ratio(tile_mode);
        let swap_tiles = max(1, quot(M_SWAP_SIZE >> 1u32, bpp));
        let swap_width = swap_tiles.wrapping_mul(8).wrapping_mul(M_BANKS);
        let height_bytes = ns.wrapping_mul(factor).wrapping_mul(M_PIPES).wrapping_mul(bpp)
            / slices_per_tile;
        let swap_max = quot(M_PIPES * M_BANKS * M_ROW_SIZE, height_bytes);
        let swap_min = quot(M_PIPE_INTERLEAVE_BYTES * 8 * M_BANKS, bytes_per_tile_slice);
        let limit = 2u32.wrapping_mul(pitch);
        let mut bank_swap_width = min(swap_max, max(swap_min, swap_width));
        while bank_swap_width >= limit && bank_swap_width > 0
            invariant
                halve_below(bank_swap_width, limit) == halve_below(
                    min_u32(swap_max, max_u32(swap_min, swap_width)),
                    limit,
                ),
            decreases bank_swap_width,
        {
            bank_swap_width = bank_swap_width / 2;
        }
        bank_swap_width
    } else {
        0
    }
}

/// The bank permutation applied by bank swapping.
pub open spec fn bank_swap_order(i: u32) -> u32 {
    if i == 1 {
        1
    } else if i == 2 {
        3
    } else if i == 3 {
        2
    } else if i == 4 {
        6
    } else if i == 5 {
        7
    } else if i == 6 {
        5
    } else if i == 7 {
        4
    } else {
        0
    }
}

/// The byte offset of an element of a linear surface.
pub open spec fn addr_linear(
    x: u32,
    y: u32,
    slice: u32,
    sample: u32,
    bpp: u32,
    pitch: u32,
    height: u32,
    num_slices: u32,
) -> u32 {
    let slice_size = pitch.wrapping_mul(height);
    let slice_offset = slice_size.wrapping_mul(slice.wrapping_add(sample.wrapping_mul(num_slices)));
    let row_offset = y.wrapping_mul(pitch);
    slice_offset.wrapping_add(row_offset).wrapping_add(x).wrapping_mul(bpp) / 8
}

fn compute_surface_addr_from_coord_linear(
    x: u32,
    y: u32,
    slice: u32,
    sample: u32,
    bpp: u32,
    pitch: u32,
    height: u32,
    num_slices: u32,
) -> (r: u32)
    ensures
        r == addr_linear(x, y, slice, sample, bpp, pitch, height, num_slices),
{
    let slice_size = pitch.wrapping_mul(height);
    let slice_offset = slice_size.wrapping_mul(slice.wrapping_add(sample.wrapping_mul(num_slices)));
    let row_offset = y.wrapping_mul(pitch);
    slice_offset.wrapping_add(row_offset).wrapping_add(x).wrapping_mul(bpp) / 8
}

/// The byte offset of an element of a 1D (micro) tiled surface.
pub open spec fn addr_micro_tiled(
    x: u32,
    y: u32,
    slice: u32,
    bpp: u32,
    pitch: u32,
    height: u32,
    tile_mode: TileMode,
    is_depth: bool,
    tile_base: u32,
    comp_bits: u32,
) -> u32 {
    let t: u32 = if tile_mode == TileMode::D1TiledThick {
        4
    } else {
        1
    };
    let micro_tile_bytes = spec_bits_to_bytes(MICRO_TILE_PIXELS.wrapping_mul(t).wrapping_mul(bpp));
    let micro_tiles_per_row = pitch / MICRO_TILE_WIDTH;
    let ix = x / MICRO_TILE_WIDTH;
    let iy = y / MICRO_TILE_HEIGHT;
    let iz = slice / t;
    let micro_tile_offset = micro_tile_bytes.wrapping_mul(
        ix.wrapping_add(iy.wrapping_mul(micro_tiles_per_row)),
    );
    let slice_bytes = spec_bits_to_bytes(pitch.wrapping_mul(height).wrapping_mul(t).wrapping_mul(bpp));
    let slice_offset = iz.wrapping_mul(slice_bytes);
    let index = pixel_index(x, y, slice, bpp, tile_mode, tile_type_for(is_depth));
    let pixel_bits = if comp_bits != 0 && comp_bits != bpp && is_depth {
        tile_base.wrapping_add(comp_bits.wrapping_mul(index))
    } else {
        bpp.wrapping_mul(index)
    };
    (pixel_bits / 8).wrapping_add(micro_tile_offset).wrapping_add(slice_offset)
}

fn compute_surface_addr_from_coord_micro_tiled(
    x: u32,
    y: u32,
    slice: u32,
    bpp: u32,
    pitch: u32,
    height: u32,
    tile_mode: TileMode,
    is_depth: bool,
    tile_base: u32,
    comp_bits: u32,
) -> (r: u32)
    ensures
        r == addr_micro_tiled(x, y, slice, bpp, pitch, height, tile_mode, is_depth, tile_base, comp_bits),
{
    let t: u32 = if tile_mode == TileMode::D1TiledThick {
        4
    } else {
        1
    };
    let micro_tile_bytes = bits_to_bytes(MICRO_TILE_PIXELS.wrapping_mul(t).wrapping_mul(bpp));
    let micro_tiles_per_row = pitch / MICRO_TILE_WIDTH;
    let ix = x / MICRO_TILE_WIDTH;
    let iy = y / MICRO_TILE_HEIGHT;
    let iz = slice / t;
    let micro_tile_offset = micro_tile_bytes.wrapping_mul(
        ix.wrapping_add(iy.wrapping_mul(micro_tiles_per_row)),
    );
    let slice_bytes = bits_to_bytes(pitch.wrapping_mul(height).wrapping_mul(t).wrapping_mul(bpp));
    let slice_offset = iz.wrapping_mul(slice_bytes);
    let index = compute_pixel_index_within_micro_tile(x, y, slice, bpp, tile_mode, get_tile_type(is_depth));
    let pixel_bits = if comp_bits != 0 && comp_bits != bpp && is_depth {
        tile_base.wrapping_add(comp_bits.wrapping_mul(index))
    } else {
        bpp.wrapping_mul(index)
    };
    (pixel_bits / 8).wrapping_add(micro_tile_offset).wrapping_add(slice_offset)
}

/// The offset in bits of a sample of a pixel within its micro tile.
pub open spec fn elem_bits(
    x: u32,
    y: u32,
    slice: u32,
    sample: u32,
    bpp: u32,
    num_samples: u32,
    tile_mode: TileMode,
    is_depth: bool,
    tile_base: u32,
    comp_bits: u32,
    micro_tile_bits: u32,
) -> u32 {
    let index = pixel_index(x, y, slice, bpp, tile_mode, tile_type_for(is_depth));
    let offsets: (u32, u32) = if is_depth {
        if comp_bits != 0 && comp_bits != bpp {
            (
                tile_base.wrapping_add(comp_bits.wrapping_mul(sample)),
                num_samples.wrapping_mul(comp_bits).wrapping_mul(index),
            )
        } else {
            (bpp.wrapping_mul(sample), num_samples.wrapping_mul(bpp).wrapping_mul(index))
        }
    } else {
        (sample.wrapping_mul(div0(micro_tile_bits, num_samples)), bpp.wrapping_mul(index))
    };
    offsets.1.wrapping_add(offsets.0)
}

fn compute_elem_bits(
    x: u32,
    y: u32,
    slice: u32,
    sample: u32,
    bpp: u32,
    num_samples: u32,
    tile_mode: TileMode,
    is_depth: bool,
    tile_base: u32,
    comp_bits: u32,
    micro_tile_bits: u32,
) -> (r: u32)
    ensures
        r == elem_bits(x, y, slice, sample, bpp, num_samples, tile_mode, is_depth, tile_base, comp_bits, micro_tile_bits),
{
    let index = compute_pixel_index_within_micro_tile(x, y, slice, bpp, tile_mode, get_tile_type(is_depth));
    let offsets: (u32, u32) = if is_depth {
        if comp_bits != 0 && comp_bits != bpp {
            (
                tile_base.wrapping_add(comp_bits.wrapping_mul(sample)),
                num_samples.wrapping_mul(comp_bits).wrapping_mul(index),
            )
        } else {
            (bpp.wrapping_mul(sample), num_samples.wrapping_mul(bpp).wrapping_mul(index))
        }
    } else {
        (sample.wrapping_mul(quot(micro_tile_bits, num_samples)), bpp.wrapping_mul(index))
    };
    offsets.1.wrapping_add(offsets.0)
}

/// Splits the samples of a micro tile that exceeds the split size into slices:
/// `(elem_offset, sample_slice, num_sample_splits, samples_per_slice)`, with the
/// element offset in bytes.
pub open spec fn sample_split(
    micro_tile_bits: u32,
    num_samples: u32,
    elem_bits: u32,
) -> (u32, u32, u32, u32) {
    let micro_tile_bytes = micro_tile_bits / 8;
    let bytes_per_sample = div0(micro_tile_bytes, num_samples);
    if num_samples > 1 && micro_tile_bytes > M_SPLIT_SIZE {
        let samples_per_slice = div0(M_SPLIT_SIZE, bytes_per_sample);
        let num_sample_splits = div0(num_samples, samples_per_slice);
        let tile_slice_bits = div0(micro_tile_bits, num_sample_splits);
        (
            mod0(elem_bits, tile_slice_bits) / 8,
            div0(elem_bits, tile_slice_bits),
            num_sample_splits,
            samples_per_slice,
        )
    } else {
        (elem_bits / 8, 0, 1, num_samples)
    }
}

fn compute_sample_split(
    micro_tile_bits: u32,
    num_samples: u32,
    elem_bits: u32,
) -> (r: (u32, u32, u32, u32))
    ensures
        r == sample_split(micro_tile_bits, num_samples, elem_bits),
{
    let micro_tile_bytes = micro_tile_bits / 8;
    let bytes_per_sample = quot(micro_tile_bytes, num_samples);
    if num_samples > 1 && micro_tile_bytes > M_SPLIT_SIZE {
        let samples_per_slice = quot(M_SPLIT_SIZE, bytes_per_sample);
        let num_sample_splits = quot(num_samples, samples_per_slice);
        let tile_slice_bits = quot(micro_tile_bits, num_sample_splits);
        let rem = if tile_slice_bits == 0 {
            elem_bits
        } else {
            elem_bits % tile_slice_bits
        };
        (rem / 8, quot(elem_bits, tile_slice_bits), num_sample_splits, samples_per_slice)
    } else {
        (elem_bits / 8, 0, 1, num_samples)
    }
}

/// The pipe and bank of a coordinate after rotation and swizzling, `(pipe, bank)`.
pub open spec fn rotated_pipe_bank(
    x: u32,
    y: u32,
    slice: u32,
    sample_slice: u32,
    tile_mode: TileMode,
    pipe_swizzle: u32,
    bank_swizzle: u32,
) -> (u32, u32) {
    let swizzle = pipe_swizzle.wrapping_add(M_PIPES.wrapping_mul(bank_swizzle));
    let slice_in = if thick_macro(tile_mode) {
        slice / THICK_TILE_THICKNESS
    } else {
        slice
    };
    let bank_pipe = (pipe_from_coord(x, y).wrapping_add(M_PIPES.wrapping_mul(bank_from_coord(x, y)))
        ^ (M_PIPES.wrapping_mul(sample_slice).wrapping_mul(((M_BANKS >> 1u32) + 1) as u32)
        ^ swizzle.wrapping_add(slice_in.wrapping_mul(rotation(tile_mode))))) % (M_PIPES
        * M_BANKS) as u32;
    (bank_pipe % M_PIPES, bank_pipe / M_PIPES)
}

fn compute_rotated_pipe_bank(
    x: u32,
    y: u32,
    slice: u32,
    sample_slice: u32,
    tile_mode: TileMode,
    pipe_swizzle: u32,
    bank_swizzle: u32,
) -> (r: (u32, u32))
    ensures
        r == rotated_pipe_bank(x, y, slice, sample_slice, tile_mode, pipe_swizzle, bank_swizzle),
{
    assert(M_BANKS >> 1u32 == 2) by (bit_vector);
    let swizzle = pipe_swizzle.wrapping_add(M_PIPES.wrapping_mul(bank_swizzle));
    let slice_in = if is_thick_macro_tiled(tile_mode) {
        slice / THICK_TILE_THICKNESS
    } else {
        slice
    };
    let pipe = compute_pipe_from_coord_wo_rotation(x, y);
    let bank = compute_bank_from_coord_wo_rotation(x, y);
    let rotation = compute_surface_rotation_from_tile_mode(tile_mode);
    let bank_pipe = (pipe.wrapping_add(M_PIPES.wrapping_mul(bank)) ^ (M_PIPES.wrapping_mul(
        sample_slice,
    ).wrapping_mul((M_BANKS >> 1u32) + 1) ^ swizzle.wrapping_add(slice_in.wrapping_mul(rotation))))
        % (M_PIPES * M_BANKS);
    (bank_pipe % M_PIPES, bank_pipe / M_PIPES)
}

/// The width and height in elements of a macro tile.
pub open spec fn macro_tile_dims(tile_mode: TileMode) -> (u32, u32) {
    match tile_mode {
        TileMode::D2TiledThin2 | TileMode::B2TiledThin2 => (16, 32),
        TileMode::D2TiledThin4 | TileMode::B2TiledThin4 => (8, 64),
        _ => (32, 16),
    }
}

fn compute_macro_tile_dims(tile_mode: TileMode) -> (r: (u32, u32))
    ensures
        r == macro_tile_dims(tile_mode),
{
    match tile_mode {
        TileMode::D2TiledThin2 | TileMode::B2TiledThin2 => (8 * M_BANKS / 2, 8 * M_PIPES * 2),
        TileMode::D2TiledThin4 | TileMode::B2TiledThin4 => (8 * M_BANKS / 4, 8 * M_PIPES * 4),
        _ => (8 * M_BANKS, 8 * M_PIPES),
    }
}

/// The byte offset of the macro tile that holds `(x, y)`.
pub open spec fn macro_tile_offset(
    x: u32,
    y: u32,
    bpp: u32,
    pitch: u32,
    samples: u32,
    tile_mode: TileMode,
) -> u32 {
    let dims = macro_tile_dims(tile_mode);
    let macro_tiles_per_row = pitch / dims.0;
    let macro_tile_bytes = spec_bits_to_bytes(
        samples.wrapping_mul(thickness(tile_mode)).wrapping_mul(bpp).wrapping_mul(dims.1).wrapping_mul(dims.0),
    );
    macro_tile_bytes.wrapping_mul((x / dims.0).wrapping_add(macro_tiles_per_row.wrapping_mul(y / dims.1)))
}

fn compute_macro_tile_offset(
    x: u32,
    y: u32,
    bpp: u32,
    pitch: u32,
    samples: u32,
    tile_mode: TileMode,
) -> (r: u32)
    ensures
        r == macro_tile_offset(x, y, bpp, pitch, samples, tile_mode),
{
    let dims = compute_macro_tile_dims(tile_mode);
    let t = compute_surface_thickness(tile_mode);
    let macro_tiles_per_row = pitch / dims.0;
    let macro_tile_bytes = bits_to_bytes(
        samples.wrapping_mul(t).wrapping_mul(bpp).wrapping_mul(dims.1).wrapping_mul(dims.0),
    );
    macro_tile_bytes.wrapping_mul((x / dims.0).wrapping_add(macro_tiles_per_row.wrapping_mul(y / dims.1)))
}

/// The bank after bank swapping, for the `B*` tile modes.
pub open spec fn swapped_bank(
    bank: u32,
    x: u32,
    bpp: u32,
    pitch: u32,
    samples: u32,
    tile_mode: TileMode,
) -> u32 {
    if bank_swapped(tile_mode) {
        let mtp = macro_tile_dims(tile_mode).0;
        let swap_index = div0(mtp.wrapping_mul(x / mtp), bank_swapped_width(tile_mode, bpp, samples, pitch));
        bank ^ bank_swap_order(swap_index & (M_BANKS - 1) as u32)
    } else {
        bank
    }
}

fn compute_swapped_bank(
    bank: u32,
    x: u32,
    bpp: u32,
    pitch: u32,
    samples: u32,
    tile_mode: TileMode,
) -> (r: u32)
    ensures
        r == swapped_bank(bank, x, bpp, pitch, samples, tile_mode),
{
    if is_bank_swapped_tile_mode(tile_mode) {
        let bank_swap_order: [u32; 10] = [0, 1, 3, 2, 6, 7, 5, 4, 0, 0];
        let mtp = compute_macro_tile_dims(tile_mode).0;
        let swap_index = quot(
            mtp.wrapping_mul(x / mtp),
            compute_surface_bank_swapped_width(tile_mode, bpp, samples, pitch),
        );
        let i = swap_index & (M_BANKS - 1);
        assert(swap_index & 3 < 4) by (bit_vector);
        assert(i == 0 || i == 1 || i == 2 || i == 3);
        bank ^ bank_swap_order[i as usize]
    } else {
        bank
    }
}

/// Places the group offset, pipe, bank and the remaining high bits of an address.
pub open spec fn assemble_offset(
    elem_offset: u32,
    macro_tile_offset: u32,
    slice_offset: u32,
    bank: u32,
    pipe: u32,
) -> u32 {
    let group_mask = ((1u32 << NUM_GROUP_BITS) - 1) as u32;
    let total_offset = elem_offset.wrapping_add(
        macro_tile_offset.wrapping_add(slice_offset) >> (NUM_BANK_BITS + NUM_PIPE_BITS) as u32,
    );
    let offset_high = (total_offset & !group_mask) << (NUM_BANK_BITS + NUM_PIPE_BITS) as u32;
    let offset_low = total_offset & group_mask;
    let bank_bits = bank << (NUM_PIPE_BITS + NUM_GROUP_BITS) as u32;
    let pipe_bits = pipe << NUM_GROUP_BITS;
    bank_bits | pipe_bits | offset_low | offset_high
}

fn assemble(
    elem_offset: u32,
    macro_tile_offset: u32,
    slice_offset: u32,
    bank: u32,
    pipe: u32,
) -> (r: u32)
    ensures
        r == assemble_offset(elem_offset, macro_tile_offset, slice_offset, bank, pipe),
{
    assert((1u32 << NUM_GROUP_BITS) == 256) by (bit_vector);
    let group_mask: u32 = (1u32 << NUM_GROUP_BITS) - 1;
    let total_offset = elem_offset.wrapping_add(
        macro_tile_offset.wrapping_add(slice_offset) >> (NUM_BANK_BITS + NUM_PIPE_BITS),
    );
    let offset_high = (total_offset & !group_mask) << (NUM_BANK_BITS + NUM_PIPE_BITS);
    let offset_low = total_offset & group_mask;
    let bank_bits = bank << (NUM_PIPE_BITS + NUM_GROUP_BITS);
    let pipe_bits = pipe << NUM_GROUP_BITS;
    bank_bits | pipe_bits | offset_low | offset_high
}

/// The byte offset of an element of a 2D or 3D (macro) tiled surface.
pub open spec fn addr_macro_tiled(
    x: u32,
    y: u32,
    slice: u32,
    sample: u32,
    bpp: u32,
    pitch: u32,
    height: u32,
    num_samples: u32,
    tile_mode: TileMode,
    is_depth: bool,
    tile_base: u32,
    comp_bits: u32,
    pipe_swizzle: u32,
    bank_swizzle: u32,
) -> u32 {
    let t = thickness(tile_mode);
    let micro_tile_bits = MICRO_TILE_PIXELS.wrapping_mul(t).wrapping_mul(bpp).wrapping_mul(num_samples);
    let bits = elem_bits(x, y, slice, sample, bpp, num_samples, tile_mode, is_depth, tile_base, comp_bits, micro_tile_bits);
    let split = sample_split(micro_tile_bits, num_samples, bits);
    let pb = rotated_pipe_bank(x, y, slice, split.1, tile_mode, pipe_swizzle, bank_swizzle);
    let slice_bytes = spec_bits_to_bytes(
        pitch.wrapping_mul(height).wrapping_mul(t).wrapping_mul(bpp).wrapping_mul(split.3),
    );
    let slice_offset = slice_bytes.wrapping_mul(split.1.wrapping_add(split.2.wrapping_mul(slice)) / t);
    assemble_offset(
        split.0,
        macro_tile_offset(x, y, bpp, pitch, split.3, tile_mode),
        slice_offset,
        swapped_bank(pb.1, x, bpp, pitch, split.3, tile_mode),
        pb.0,
    )
}

fn compute_surface_addr_from_coord_macro_tiled(
    x: u32,
    y: u32,
    slice: u32,
    sample: u32,
    bpp: u32,
    pitch: u32,
    height: u32,
    num_samples: u32,
    tile_mode: TileMode,
    is_depth: bool,
    tile_base: u32,
    comp_bits: u32,
    pipe_swizzle: u32,
    bank_swizzle: u32,
) -> (r: u32)
    ensures
        r == addr_macro_tiled(
            x,
            y,
            slice,
            sample,
            bpp,
            pitch,
            height,
            num_samples,
            tile_mode,
            is_depth,
            tile_base,
            comp_bits,
            pipe_swizzle,
            bank_swizzle,
        ),
{
    let t = compute_surface_thickness(tile_mode);
    let micro_tile_bits = MICRO_TILE_PIXELS.wrapping_mul(t).wrapping_mul(bpp).wrapping_mul(num_samples);
    let bits = compute_elem_bits(x, y, slice, sample, bpp, num_samples, tile_mode, is_depth, tile_base, comp_bits, micro_tile_bits);
    let split = compute_sample_split(micro_tile_bits, num_samples, bits);
    let pb = compute_rotated_pipe_bank(x, y, slice, split.1, tile_mode, pipe_swizzle, bank_swizzle);
    let slice_bytes = bits_to_bytes(
        pitch.wrapping_mul(height).wrapping_mul(t).wrapping_mul(bpp).wrapping_mul(split.3),
    );
    let slice_offset = slice_bytes.wrapping_mul(split.1.wrapping_add(split.2.wrapping_mul(slice)) / t);
    let macro_offset = compute_macro_tile_offset(x, y, bpp, pitch, split.3, tile_mode);
    let bank = compute_swapped_bank(pb.1, x, bpp, pitch, split.3, tile_mode);
    assemble(split.0, macro_offset, slice_offset, bank, pb.0)
}

/// The byte offset of the element that `p` describes, under any tile mode.
pub open spec fn surface_addr(p: ComputeSurfaceAddrFromCoordInput) -> u32 {
    let num_samples = max_u32(1, p.num_samples);
    match p.tile_mode {
        TileMode::LinearGeneral | TileMode::LinearAligned => addr_linear(
            p.x,
            p.y,
            p.slice,
            p.sample,
            p.bpp,
            p.pitch,
            p.height,
            p.num_slices,
        ),
        TileMode::D1TiledThin1 | TileMode::D1TiledThick => addr_micro_tiled(
            p.x,
            p.y,
            p.slice,
            p.bpp,
            p.pitch,
            p.height,
            p.tile_mode,
            p.is_depth,
            p.tile_base,
            p.comp_bits,
        ),
        TileMode::D2TiledThin1
        | TileMode::D2TiledThin2
        | TileMode::D2TiledThin4
        | TileMode::D2TiledThick
        | TileMode::B2TiledThin1
        | TileMode::B2TiledThin2
        | TileMode::B2TiledThin4
        | TileMode::B2TiledThick
        | TileMode::D3TiledThin1
        | TileMode::D3TiledThick
        | TileMode::B3TiledThin1
        | TileMode::B3TiledThick => addr_macro_tiled(
            p.x,
            p.y,
            p.slice,
            p.sample,
            p.bpp,
            p.pitch,
            p.height,
            num_samples,
            p.tile_mode,
            p.is_depth,
            p.tile_base,
            p.comp_bits,
            p.pipe_swizzle,
            p.bank_swizzle,
        ),
        _ => 0,
    }
}

/// Computes the byte offset in tiled memory of the element that `p_in` describes.
pub fn dispatch_compute_surface_addrfrom_coord(p_in: &ComputeSurfaceAddrFromCoordInput) -> (r: u32)
    ensures
        r == surface_addr(*p_in),
{
    let num_samples = max(1, p_in.num_samples);
    match p_in.tile_mode {
        TileMode::LinearGeneral | TileMode::LinearAligned => compute_surface_addr_from_coord_linear(
            p_in.x,
            p_in.y,
            p_in.slice,
            p_in.sample,
            p_in.bpp,
            p_in.pitch,
            p_in.height,
            p_in.num_slices,
        ),
        TileMode::D1TiledThin1 | TileMode::D1TiledThick => compute_surface_addr_from_coord_micro_tiled(
            p_in.x,
            p_in.y,
            p_in.slice,
            p_in.bpp,
            p_in.pitch,
            p_in.height,
            p_in.tile_mode,
            p_in.is_depth,
            p_in.tile_base,
            p_in.comp_bits,
        ),
        TileMode::D2TiledThin1
        | TileMode::D2TiledThin2
        | TileMode::D2TiledThin4
        | TileMode::D2TiledThick
        | TileMode::B2TiledThin1
        | TileMode::B2TiledThin2
        | TileMode::B2TiledThin4
        | TileMode::B2TiledThick
        | TileMode::D3TiledThin1
        | TileMode::D3TiledThick
        | TileMode::B3TiledThin1
        | TileMode::B3TiledThick => compute_surface_addr_from_coord_macro_tiled(
            p_in.x,
            p_in.y,
            p_in.slice,
            p_in.sample,
            p_in.bpp,
            p_in.pitch,
            p_in.height,
            num_samples,
            p_in.tile_mode,
            p_in.is_depth,
            p_in.tile_base,
            p_in.comp_bits,
            p_in.pipe_swizzle,
            p_in.bank_swizzle,
        ),
        _ => 0,
    }
}

/// The pipe swizzle (bit 8) and bank swizzle (bits 9 and 10) of a swizzle value.
pub open spec fn spec_pipe_bank_swizzle(swizzle: u32) -> (u32, u32) {
    ((swizzle >> 8u32) & 1, (swizzle >> 9u32) & 3)
}

/// Splits a swizzle value into its pipe swizzle and bank swizzle.
pub fn pipe_bank_swizzle(swizzle: u32) -> (r: (u32, u32))
    ensures
        r == spec_pipe_bank_swizzle(swizzle),
{
    ((swizzle >> 8u32) & 1, (swizzle >> 9u32) & 3)
}

/// Properties of a surface that affect its layout.
#[derive(Debug, Clone, Copy, PartialEq, Eq, Structural, Default)]
pub struct SurfaceFlags {
    pub color: bool,
    pub depth: bool,
    pub stencil: bool,
    pub texture: bool,
    pub cube: bool,
    pub volume: bool,
    pub fmask: bool,
    pub cube_as_array: bool,
    pub compress_z: bool,
    pub linear_wa: bool,
    pub overlay: bool,
    pub no_stencil: bool,
    pub input_base_map: bool,
    pub display: bool,
    pub opt4_space: bool,
    pub prt: bool,
    pub qb_stereo: bool,
    pub pow2_pad: bool,
    pub reserved: bool,
}

/// Macro tile parameters of a surface.
#[derive(Debug, Clone, Copy, PartialEq, Eq, Structural, Default)]
pub struct TileInfo {
    pub banks: u32,
    pub bank_width: u32,
    pub bank_height: u32,
    pub macro_aspect_ratio: u32,
    pub tile_split_bytes: u32,
}

/// The input of the surface information computation for one mip level.
#[derive(Debug, Clone, Copy, PartialEq, Eq, Structural)]
pub struct ComputeSurfaceInfoInput {
    pub size: u32,
    pub tile_mode: TileMode,
    pub format: SurfaceFormat,
    pub bpp: u32,
    pub num_samples: u32,
    pub width: u32,
    pub height: u32,
    pub num_slices: u32,
    pub slice: u32,
    pub mip_level: u32,
    pub flags: SurfaceFlags,
    pub tile_info: TileInfo,
    pub tile_type: TileType,
    pub tile_index: i32,
}

/// The output of the surface information computation for one mip level.
#[derive(Debug, Clone, Copy, PartialEq, Eq, Structural)]
pub struct ComputeSurfaceInfoOutput {
    pub size: u32,
    pub pitch: u32,
    pub height: u32,
    pub depth: u32,
    pub surf_size: u64,
    pub tile_mode: TileMode,
    pub base_align: u32,
    pub pitch_align: u32,
    pub height_align: u32,
    pub depth_align: u32,
    pub bpp: u32,
    pub pixel_pitch: u32,
    pub pixel_height: u32,
    pub pixel_bits: u32,
    pub slice_size: u32,
    pub pitch_tile_max: u32,
    pub height_tile_max: u32,
    pub slice_tile_max: u32,
    pub tile_info: TileInfo,
    pub tile_type: TileType,
    pub tile_index: i32,
}

/// The first power of two from `p` on, by doubling, that is at least `x`.
pub open spec fn pow2_from(p: int, x: int) -> int
    decreases if x > p { x - p } else { 0 },
{
    if p <= 0 || p >= x {
        p
    } else {
        pow2_from(2 * p, x)
    }
}

/// The smallest power of two that is at least `x`, or zero where that does not
/// fit in 32 bits.
pub open spec fn next_pow2(x: u32) -> u32 {
    if x > 0x8000_0000 {
        0
    } else {
        pow2_from(1, x as int) as u32
    }
}

fn next_power_of_two(x: u32) -> (r: u32)
    ensures
        r == next_pow2(x),
{
    if x > 0x8000_0000 {
        return 0;
    }
    let mut p: u64 = 1;
    while p < x as u64
        invariant
            1 <= p,
            p == 1 || p < 2 * x,
            x <= 0x8000_0000,
            pow2_from(p as int, x as int) == pow2_from(1, x as int),
        decreases if x > p { x - p } else { 0 },
    {
        p = p * 2;
    }
    p as u32
}

/// The bits per element with three-channel formats counted per channel.
pub open spec fn per_channel_bpp(bpp: u32) -> u32 {
    if bpp == 96 || bpp == 48 || bpp == 24 {
        bpp / 3
    } else {
        bpp
    }
}

fn channel_bpp(bpp: u32) -> (r: u32)
    ensures
        r == per_channel_bpp(bpp),
{
    if bpp == 96 || bpp == 48 || bpp == 24 {
        bpp / 3
    } else {
        bpp
    }
}

/// The number of slices that a tile of the given mode is split into.
pub open spec fn tile_slices(tile_mode: TileMode, bpp: u32, num_samples: u32) -> u32 {
    let samples = if thickness(tile_mode) > 1 {
        4
    } else {
        num_samples
    };
    let bytes_per_sample = spec_bits_to_bytes(bpp.wrapping_mul(64));
    if bytes_per_sample != 0 && M_SPLIT_SIZE / bytes_per_sample != 0 {
        max_u32(1, samples / (M_SPLIT_SIZE / bytes_per_sample))
    } else {
        1
    }
}

fn compute_surface_tile_slices(tile_mode: TileMode, bpp: u32, num_samples: u32) -> (r: u32)
    ensures
        r == tile_slices(tile_mode, bpp, num_samples),
{
    let samples = if compute_surface_thickness(tile_mode) > 1 {
        4
    } else {
        num_samples
    };
    let bytes_per_sample = bits_to_bytes(bpp.wrapping_mul(64));
    let mut tile_slices: u32 = 1;
    if bytes_per_sample != 0 {
        let samples_per_tile = M_SPLIT_SIZE / bytes_per_sample;
        if samples_per_tile != 0 {
            tile_slices = max(1, samples / samples_per_tile);
        }
    }
    tile_slices
}

/// The tile mode after thick and split-size degradation.
pub open spec fn degrade_thick(
    tile_mode: TileMode,
    num_samples: u32,
    tile_slices: u32,
    is_depth: bool,
) -> TileMode {
    match tile_mode {
        TileMode::D1TiledThick => if num_samples == 2 || num_samples == 4 {
            TileMode::D2TiledThick
        } else if num_samples > 1 || is_depth {
            TileMode::D1TiledThin1
        } else {
            tile_mode
        },
        TileMode::D2TiledThin2 => if 2 * M_PIPE_INTERLEAVE_BYTES > M_SPLIT_SIZE {
            TileMode::D2TiledThin1
        } else {
            tile_mode
        },
        TileMode::D2TiledThin4 => if 4 * M_PIPE_INTERLEAVE_BYTES > M_SPLIT_SIZE {
            TileMode::D2TiledThin2
        } else {
            tile_mode
        },
        TileMode::D2TiledThick => if num_samples > 1 || tile_slices > 1 || is_depth {
            TileMode::D2TiledThin1
        } else {
            tile_mode
        },
        TileMode::B2TiledThin2 => if 2 * M_PIPE_INTERLEAVE_BYTES > M_SPLIT_SIZE {
            TileMode::B2TiledThin1
        } else {
            tile_mode
        },
        TileMode::B2TiledThin4 => if 4 * M_PIPE_INTERLEAVE_BYTES > M_SPLIT_SIZE {
            TileMode::B2TiledThin2
        } else {
            tile_mode
        },
        TileMode::B2TiledThick => if num_samples > 1 || tile_slices > 1 || is_depth {
            TileMode::B2TiledThin1
        } else {
            tile_mode
        },
        TileMode::D3TiledThick => if num_samples > 1 || tile_slices > 1 || is_depth {
            TileMode::D3TiledThin1
        } else {
            tile_mode
        },
        TileMode::B3TiledThick => if num_samples > 1 || tile_slices > 1 || is_depth {
            TileMode::B3TiledThin1
        } else {
            tile_mode
        },
        _ => tile_mode,
    }
}

fn hwl_degrade_thick_tile_mode(
    tile_mode: TileMode,
    num_samples: u32,
    tile_slices: u32,
    is_depth: bool,
) -> (r: TileMode)
    ensures
        r == degrade_thick(tile_mode, num_samples, tile_slices, is_depth),
{
    let mut tile_mode = tile_mode;
    match tile_mode {
        TileMode::D1TiledThick => {
            if num_samples > 1 || is_depth {
                tile_mode = TileMode::D1TiledThin1;
            }
            if num_samples == 2 || num_samples == 4 {
                tile_mode = TileMode::D2TiledThick;
            }
        },
        TileMode::D2TiledThin2 => {
            if 2 * M_PIPE_INTERLEAVE_BYTES > M_SPLIT_SIZE {
                tile_mode = TileMode::D2TiledThin1;
            }
        },
        TileMode::D2TiledThin4 => {
            if 4 * M_PIPE_INTERLEAVE_BYTES > M_SPLIT_SIZE {
                tile_mode = TileMode::D2TiledThin2;
            }
        },
        TileMode::D2TiledThick => {
            if num_samples > 1 || tile_slices > 1 || is_depth {
                tile_mode = TileMode::D2TiledThin1;
            }
        },
        TileMode::B2TiledThin2 => {
            if 2 * M_PIPE_INTERLEAVE_BYTES > M_SPLIT_SIZE {
                tile_mode = TileMode::B2TiledThin1;
            }
        },
        TileMode::B2TiledThin4 => {
            if 4 * M_PIPE_INTERLEAVE_BYTES > M_SPLIT_SIZE {
                tile_mode = TileMode::B2TiledThin2;
            }
        },
        TileMode::B2TiledThick => {
            if num_samples > 1 || tile_slices > 1 || is_depth {
                tile_mode = TileMode::B2TiledThin1;
            }
        },
        TileMode::D3TiledThick => {
            if num_samples > 1 || tile_slices > 1 || is_depth {
                tile_mode = TileMode::D3TiledThin1;
            }
        },
        TileMode::B3TiledThick => {
            if num_samples > 1 || tile_slices > 1 || is_depth {
                tile_mode = TileMode::B3TiledThin1;
            }
        },
        _ => {},
    }
    tile_mode
}

/// The tile mode after thick and split-size degradation, with 3D modes folded
/// to 2D where the rotation is a multiple of the pipe count.
pub open spec fn degraded_tile_mode(
    tile_mode: TileMode,
    bpp: u32,
    num_samples: u32,
    is_depth: bool,
) -> TileMode {
    let tm = degrade_thick(tile_mode, num_samples, tile_slices(tile_mode, bpp, num_samples), is_depth);
    if rotation(tm) % M_PIPES == 0 {
        match tm {
            TileMode::D3TiledThin1 => TileMode::D2TiledThin1,
            TileMode::D3TiledThick => TileMode::D2TiledThick,
            TileMode::B3TiledThin1 => TileMode::B2TiledThin1,
            TileMode::B3TiledThick => TileMode::B2TiledThick,
            _ => tm,
        }
    } else {
        tm
    }
}

/// The size in bytes of a micro tile: `num_samples * bpp * thickness * 64` bits,
/// rounded up to whole bytes.
pub open spec fn micro_tile_bytes(num_samples: u32, bpp: u32, thickness: u32) -> int {
    (num_samples * bpp * thickness * 64 + 7) / 8
}

/// How many micro tiles fill a pipe interleave, and at least one:
/// `max(1, PIPE_INTERLEAVE_BYTES / micro_tile_bytes)`.
pub open spec fn width_align_factor(num_samples: u32, bpp: u32, thickness: u32) -> int {
    let bytes = micro_tile_bytes(num_samples, bpp, thickness);
    if bytes == 0 || bytes > M_PIPE_INTERLEAVE_BYTES {
        1
    } else {
        (M_PIPE_INTERLEAVE_BYTES as int) / bytes
    }
}

fn compute_width_align_factor(num_samples: u32, bpp: u32, thickness: u32) -> (r: u32)
    requires
        thickness <= 8,
    ensures
        r == width_align_factor(num_samples, bpp, thickness),
        1 <= r <= 256,
{
    let ns = num_samples as u128;
    let b = bpp as u128;
    let t = thickness as u128;
    assert(ns * b <= 0xffff_ffff * 0xffff_ffff && ns * b * t <= 0xffff_ffff * 0xffff_ffff * 8)
        by (nonlinear_arith)
        requires
            ns <= 0xffff_ffff,
            b <= 0xffff_ffff,
            t <= 8,
    ;
    let bytes = (ns * b * t * 64 + 7) / 8;
    if bytes == 0 || bytes > M_PIPE_INTERLEAVE_BYTES as u128 {
        1
    } else {
        let bytes = bytes as u32;
        assert(1 <= 256u32 / bytes <= 256) by (nonlinear_arith)
            requires
                1 <= bytes <= 256,
        ;
        M_PIPE_INTERLEAVE_BYTES / bytes
    }
}

/// The tile mode of a mip level whose dimensions, rounded up to powers of two, do
/// not fill a macro tile,
/// or with too few slices for a thick mode, before the final degradation.
pub open spec fn size_degraded_tile_mode(
    tile_mode: TileMode,
    bpp: u32,
    width: u32,
    height: u32,
    num_slices: u32,
    num_samples: u32,
) -> TileMode {
    let tm = non_bank_swapped(tile_mode);
    let waf = width_align_factor(num_samples, bpp, thickness(tm));
    let too_small = |macro_width: u32, macro_height: u32|
        width < waf * macro_width || height < macro_height;
    let sized = match tm {
        TileMode::D2TiledThin1 | TileMode::D3TiledThin1 => if too_small(32, 16) {
            TileMode::D1TiledThin1
        } else {
            tm
        },
        TileMode::D2TiledThin2 => if too_small(16, 32) {
            TileMode::D1TiledThin1
        } else {
            tm
        },
        TileMode::D2TiledThin4 => if too_small(8, 64) {
            TileMode::D1TiledThin1
        } else {
            tm
        },
        TileMode::D2TiledThick | TileMode::D3TiledThick => if too_small(32, 16) {
            TileMode::D1TiledThick
        } else {
            tm
        },
        _ => tm,
    };
    if num_slices < 4 {
        match sized {
            TileMode::D1TiledThick => TileMode::D1TiledThin1,
            TileMode::D2TiledThick => TileMode::D2TiledThin1,
            TileMode::D3TiledThick => TileMode::D3TiledThin1,
            _ => sized,
        }
    } else {
        sized
    }
}

/// The effective tile mode of a mip level.
pub open spec fn mip_level_tile_mode(
    base_tile_mode: TileMode,
    bpp: u32,
    level: u32,
    width: u32,
    height: u32,
    num_slices: u32,
    num_samples: u32,
    is_depth: bool,
    no_recursive: bool,
) -> TileMode {
    let tm = degraded_tile_mode(base_tile_mode, bpp, num_samples, is_depth);
    if no_recursive || level == 0 {
        tm
    } else {
        let bpp = per_channel_bpp(bpp);
        degraded_tile_mode(
            size_degraded_tile_mode(
                tm,
                bpp,
                next_pow2(width),
                next_pow2(height),
                next_pow2(num_slices),
                num_samples,
            ),
            bpp,
            num_samples,
            is_depth,
        )
    }
}

fn size_degraded(
    tile_mode: TileMode,
    bpp: u32,
    width: u32,
    height: u32,
    num_slices: u32,
    num_samples: u32,
) -> (r: TileMode)
    ensures
        r == size_degraded_tile_mode(tile_mode, bpp, width, height, num_slices, num_samples),
{
    let mut tile_mode = convert_to_non_bank_swapped_mode(tile_mode);
    let thickness = compute_surface_thickness(tile_mode);
    let width_align_factor = compute_width_align_factor(num_samples, bpp, thickness);
    let mut macro_tile_width: u32 = 8 * M_BANKS;
    let mut macro_tile_height: u32 = 8 * M_PIPES;
    match tile_mode {
        TileMode::D2TiledThin1 | TileMode::D3TiledThin1 => {
            if width < width_align_factor * macro_tile_width || height < macro_tile_height {
                tile_mode = TileMode::D1TiledThin1;
            }
        },
        TileMode::D2TiledThin2 => {
            macro_tile_width = macro_tile_width / 2;
            macro_tile_height = macro_tile_height * 2;
            if width < width_align_factor * macro_tile_width || height < macro_tile_height {
                tile_mode = TileMode::D1TiledThin1;
            }
        },
        TileMode::D2TiledThin4 => {
            macro_tile_width = macro_tile_width / 4;
            macro_tile_height = macro_tile_height * 4;
            if width < width_align_factor * macro_tile_width || height < macro_tile_height {
                tile_mode = TileMode::D1TiledThin1;
            }
        },
        TileMode::D2TiledThick | TileMode::D3TiledThick => {
            if width < width_align_factor * macro_tile_width || height < macro_tile_height {
                tile_mode = TileMode::D1TiledThick;
            }
        },
        _ => {},
    }
    if tile_mode == TileMode::D1TiledThick && num_slices < 4 {
        tile_mode = TileMode::D1TiledThin1;
    } else if tile_mode == TileMode::D2TiledThick && num_slices < 4 {
        tile_mode = TileMode::D2TiledThin1;
    } else if tile_mode == TileMode::D3TiledThick && num_slices < 4 {
        tile_mode = TileMode::D3TiledThin1;
    }
    tile_mode
}

/// Computes the effective tile mode of a mip level: thick modes degrade to thin
/// ones, 3D modes fold to 2D ones, and mips too small for a macro tile use 1D tiling.
pub fn compute_surface_mip_level_tile_mode(
    base_tile_mode: TileMode,
    bpp: u32,
    level: u32,
    width: u32,
    height: u32,
    num_slices: u32,
    num_samples: u32,
    is_depth: bool,
    no_recursive: bool,
) -> (r: TileMode)
    ensures
        r == mip_level_tile_mode(
            base_tile_mode,
            bpp,
            level,
            width,
            height,
            num_slices,
            num_samples,
            is_depth,
            no_recursive,
        ),
    decreases
            if no_recursive {
                0int
            } else {
                1int
            },
{
    let tile_slices = compute_surface_tile_slices(base_tile_mode, bpp, num_samples);
    let mut tile_mode = hwl_degrade_thick_tile_mode(base_tile_mode, num_samples, tile_slices, is_depth);
    let rotation = compute_surface_rotation_from_tile_mode(tile_mode);
    if rotation % M_PIPES == 0 {
        match tile_mode {
            TileMode::D3TiledThin1 => {
                tile_mode = TileMode::D2TiledThin1;
            },
            TileMode::D3TiledThick => {
                tile_mode = TileMode::D2TiledThick;
            },
            TileMode::B3TiledThin1 => {
                tile_mode = TileMode::B2TiledThin1;
            },
            TileMode::B3TiledThick => {
                tile_mode = TileMode::B2TiledThick;
            },
            _ => {},
        }
    }
    if no_recursive || level == 0 {
        return tile_mode;
    }
    let bpp = channel_bpp(bpp);
    let width = next_power_of_two(width);
    let height = next_power_of_two(height);
    let num_slices = next_power_of_two(num_slices);
    let tile_mode = size_degraded(tile_mode, bpp, width, height, num_slices, num_samples);
    compute_surface_mip_level_tile_mode(
        tile_mode,
        bpp,
        level,
        width,
        height,
        num_slices,
        num_samples,
        is_depth,
        true,
    )
}

/// `x` rounded up to a multiple of 32.
pub open spec fn round_up_32(x: u32) -> u32 {
    ((x + 31) / 32 * 32) as u32
}

/// The pitch alignment after display surfaces round it up to 32 elements.
pub open spec fn adjusted_pitch_align(flags: SurfaceFlags, pitch_align: u32) -> u32 {
    if flags.display {
        round_up_32(pitch_align)
    } else {
        pitch_align
    }
}

fn adjust_pitch_alignment(flags: SurfaceFlags, pitch_align: u32) -> (r: u32)
    requires
        pitch_align <= 0x1000_0000,
    ensures
        r == adjusted_pitch_align(flags, pitch_align),
{
    if flags.display {
        (pitch_align + 31) / 32 * 32
    } else {
        pitch_align
    }
}

/// The alignments `(base_align, pitch_align, height_align)` of a linear surface.
pub open spec fn alignments_linear(
    tile_mode: TileMode,
    bpp: u32,
    flags: SurfaceFlags,
) -> (u32, u32, u32) {
    let aligns: (u32, u32, u32) = match tile_mode {
        TileMode::LinearGeneral => (1, if bpp != 1 { 1 } else { 8 }, 1),
        TileMode::LinearAligned => (
            M_PIPE_INTERLEAVE_BYTES,
            max_u32(div0((8 * M_PIPE_INTERLEAVE_BYTES) as u32, bpp), 64),
            1,
        ),
        _ => (1, 1, 1),
    };
    (aligns.0, adjusted_pitch_align(flags, aligns.1), aligns.2)
}

fn compute_surface_alignments_linear(
    tile_mode: TileMode,
    bpp: u32,
    flags: SurfaceFlags,
) -> (r: (u32, u32, u32))
    ensures
        r == alignments_linear(tile_mode, bpp, flags),
{
    let (base_align, pitch_align, height_align): (u32, u32, u32) = match tile_mode {
        TileMode::LinearGeneral => (1, if bpp != 1 { 1 } else { 8 }, 1),
        TileMode::LinearAligned => (
            M_PIPE_INTERLEAVE_BYTES,
            max(quot(8 * M_PIPE_INTERLEAVE_BYTES, bpp), 64),
            1,
        ),
        _ => (1, 1, 1),
    };
    (base_align, adjust_pitch_alignment(flags, pitch_align), height_align)
}

/// The alignments `(base_align, pitch_align, height_align)` of a 1D tiled surface.
pub open spec fn alignments_micro_tiled(
    tile_mode: TileMode,
    bpp: u32,
    flags: SurfaceFlags,
    num_samples: u32,
) -> (u32, u32, u32) {
    let pitch_alignment = div0(
        div0(div0(M_PIPE_INTERLEAVE_BYTES, per_channel_bpp(bpp)), num_samples),
        thickness(tile_mode),
    );
    (M_PIPE_INTERLEAVE_BYTES, adjusted_pitch_align(flags, max_u32(pitch_alignment, 8)), 8)
}

fn compute_surface_alignments_micro_tiled(
    tile_mode: TileMode,
    bpp: u32,
    flags: SurfaceFlags,
    num_samples: u32,
) -> (r: (u32, u32, u32))
    ensures
        r == alignments_micro_tiled(tile_mode, bpp, flags, num_samples),
{
    let bpp = channel_bpp(bpp);
    let micro_tile_thickness = compute_surface_thickness(tile_mode);
    let pitch_alignment = quot(quot(quot(M_PIPE_INTERLEAVE_BYTES, bpp), num_samples), micro_tile_thickness);
    (M_PIPE_INTERLEAVE_BYTES, adjust_pitch_alignment(flags, max(pitch_alignment, 8)), 8)
}

/// Whether the base alignment of a tile mode holds an odd number of macro tiles.
pub open spec fn dual_base_align_needed(tile_mode: TileMode) -> bool {
    tile_mode.value() > TileMode::D1TiledThick.value()
}

fn is_dual_base_align_needed(tile_mode: TileMode) -> (r: bool)
    ensures
        r == dual_base_align_needed(tile_mode),
{
    tile_mode.repr() > TileMode::D1TiledThick.repr()
}

/// The alignments `(base_align, pitch_align, height_align, macro_width, macro_height)`
/// of a 2D or 3D tiled surface.
pub open spec fn alignments_macro_tiled(
    tile_mode: TileMode,
    bpp: u32,
    num_samples: u32,
) -> (u32, u32, u32, u32, u32) {
    let aspect_ratio = macro_aspect(tile_mode);
    let t = thickness(tile_mode);
    let bpp1 = per_channel_bpp(bpp);
    let bpp = if bpp1 == 3 {
        1
    } else {
        bpp1
    };
    let macro_tile_width = (8 * M_BANKS) as u32 / aspect_ratio;
    let macro_tile_height = (aspect_ratio * 8 * M_PIPES) as u32;
    let pitch_align = max_u32(
        macro_tile_width,
        macro_tile_width.wrapping_mul(
            div0(div0(div0(M_PIPE_INTERLEAVE_BYTES, bpp), 8u32.wrapping_mul(t)), num_samples),
        ),
    );
    let height_align = macro_tile_height;
    let macro_tile_bytes0 = num_samples.wrapping_mul(
        spec_bits_to_bytes(bpp.wrapping_mul(macro_tile_height).wrapping_mul(macro_tile_width)),
    );
    let macro_tile_bytes = if num_samples == 1 {
        macro_tile_bytes0.wrapping_mul(2)
    } else {
        macro_tile_bytes0
    };
    let base0 = if t == 1 {
        max_u32(
            macro_tile_bytes,
            spec_bits_to_bytes(
                num_samples.wrapping_mul(height_align).wrapping_mul(bpp).wrapping_mul(pitch_align),
            ),
        )
    } else {
        max_u32(
            M_PIPE_INTERLEAVE_BYTES,
            spec_bits_to_bytes(4u32.wrapping_mul(height_align).wrapping_mul(bpp).wrapping_mul(pitch_align)),
        )
    };
    let micro_tile_bytes = spec_bits_to_bytes(t.wrapping_mul(num_samples).wrapping_mul(bpp).wrapping_mul(64));
    let slices_per_micro_tile = if micro_tile_bytes >= M_SPLIT_SIZE {
        micro_tile_bytes / M_SPLIT_SIZE
    } else {
        1
    };
    let base1 = base0 / slices_per_micro_tile;
    let macro_bytes = spec_bits_to_bytes(bpp.wrapping_mul(macro_tile_height).wrapping_mul(macro_tile_width));
    let base_align = if dual_base_align_needed(tile_mode) && div0(base1, macro_bytes) % 2 == 0 {
        base1.wrapping_add(macro_bytes)
    } else {
        base1
    };
    (base_align, pitch_align, height_align, macro_tile_width, macro_tile_height)
}

fn compute_surface_alignments_macrotiled(
    tile_mode: TileMode,
    bpp: u32,
    num_samples: u32,
) -> (r: (u32, u32, u32, u32, u32))
    ensures
        r == alignments_macro_tiled(tile_mode, bpp, num_samples),
        r.3 >= 8,
{
    let aspect_ratio = compute_macro_tile_aspect_ratio(tile_mode);
    let thickness = compute_surface_thickness(tile_mode);
    let mut bpp = channel_bpp(bpp);
    if bpp == 3 {
        bpp = 1;
    }
    let macro_tile_width = 8 * M_BANKS / aspect_ratio;
    let macro_tile_height = aspect_ratio * 8 * M_PIPES;
    let pitch_align = max(
        macro_tile_width,
        macro_tile_width.wrapping_mul(
            quot(quot(quot(M_PIPE_INTERLEAVE_BYTES, bpp), 8u32.wrapping_mul(thickness)), num_samples),
        ),
    );
    let height_align = macro_tile_height;
    let mut macro_tile_bytes = num_samples.wrapping_mul(
        bits_to_bytes(bpp.wrapping_mul(macro_tile_height).wrapping_mul(macro_tile_width)),
    );
    if num_samples == 1 {
        macro_tile_bytes = macro_tile_bytes.wrapping_mul(2);
    }
    let mut base_align = if thickness == 1 {
        max(
            macro_tile_bytes,
            bits_to_bytes(
                num_samples.wrapping_mul(height_align).wrapping_mul(bpp).wrapping_mul(pitch_align),
            ),
        )
    } else {
        max(
            M_PIPE_INTERLEAVE_BYTES,
            bits_to_bytes(4u32.wrapping_mul(height_align).wrapping_mul(bpp).wrapping_mul(pitch_align)),
        )
    };
    let micro_tile_bytes = bits_to_bytes(thickness.wrapping_mul(num_samples).wrapping_mul(bpp).wrapping_mul(64));
    let mut slices_per_micro_tile: u32 = 1;
    if micro_tile_bytes >= M_SPLIT_SIZE {
        slices_per_micro_tile = micro_tile_bytes / M_SPLIT_SIZE;
    }
    base_align = base_align / slices_per_micro_tile;
    if is_dual_base_align_needed(tile_mode) {
        let macro_bytes = bits_to_bytes(bpp.wrapping_mul(macro_tile_height).wrapping_mul(macro_tile_width));
        if quot(base_align, macro_bytes) % 2 == 0 {
            base_align = base_align.wrapping_add(macro_bytes);
        }
    }
    (base_align, pitch_align, height_align, macro_tile_width, macro_tile_height)
}

/// Whether the pitch of a mip level is bumped by one macro tile.
pub open spec fn dual_pitch_align_needed(
    tile_mode: TileMode,
    is_depth: bool,
    mip_level: u32,
) -> bool {
    !is_depth && mip_level == 0 && !matches!(
        tile_mode,
        TileMode::LinearGeneral | TileMode::LinearAligned | TileMode::D1TiledThin1
            | TileMode::D1TiledThick | TileMode::D2TiledThick | TileMode::B2TiledThick
            | TileMode::D3TiledThick | TileMode::B3TiledThick
    )
}

fn is_dual_pitch_align_needed(tile_mode: TileMode, is_depth: bool, mip_level: u32) -> (r: bool)
    ensures
        r == dual_pitch_align_needed(tile_mode, is_depth, mip_level),
{
    if is_depth || mip_level != 0 {
        return false;
    }
    match tile_mode {
        TileMode::LinearGeneral
        | TileMode::LinearAligned
        | TileMode::D1TiledThin1
        | TileMode::D1TiledThick
        | TileMode::D2TiledThick
        | TileMode::B2TiledThick
        | TileMode::D3TiledThick
        | TileMode::B3TiledThick => false,
        _ => true,
    }
}

/// The dimensions `(pitch, height, slices)` of a mip level, not padded to their
/// alignments: rounded up to powers of two
/// past the base level, with the slices of cube maps kept.
pub open spec fn mip_dims(p: ComputeSurfaceInfoInput) -> (u32, u32, u32) {
    if p.mip_level != 0 {
        (
            next_pow2(p.width),
            next_pow2(p.height),
            if p.flags.cube {
                p.num_slices
            } else {
                next_pow2(p.num_slices)
            },
        )
    } else {
        (p.width, p.height, p.num_slices)
    }
}

fn compute_mip_dims(p_in: &ComputeSurfaceInfoInput) -> (r: (u32, u32, u32))
    ensures
        r == mip_dims(*p_in),
{
    if p_in.mip_level != 0 {
        let num_slices = if p_in.flags.cube {
            p_in.num_slices
        } else {
            next_power_of_two(p_in.num_slices)
        };
        (next_power_of_two(p_in.width), next_power_of_two(p_in.height), num_slices)
    } else {
        (p_in.width, p_in.height, p_in.num_slices)
    }
}

/// The surface information of a linear surface.
pub open spec fn info_linear(
    p: ComputeSurfaceInfoInput,
    out: ComputeSurfaceInfoOutput,
    tile_mode: TileMode,
) -> ComputeSurfaceInfoOutput {
    let t = thickness(tile_mode);
    let aligns = alignments_linear(p.tile_mode, p.bpp, p.flags);
    let wa = p.flags.linear_wa && p.mip_level == 0;
    let width = if wa {
        next_pow2(p.width / 3)
    } else {
        p.width
    };
    let dims = mip_dims(ComputeSurfaceInfoInput { width, ..p });
    let pitch = if wa {
        dims.0.wrapping_mul(3)
    } else {
        dims.0
    };
    let slices = dims.2.wrapping_mul(p.num_samples) / t;
    ComputeSurfaceInfoOutput {
        base_align: aligns.0,
        pitch_align: aligns.1,
        height_align: aligns.2,
        pitch,
        height: dims.1,
        depth: dims.2,
        surf_size: spec_bits_to_bytes(
            dims.1.wrapping_mul(pitch).wrapping_mul(slices).wrapping_mul(p.bpp).wrapping_mul(p.num_samples),
        ) as u64,
        depth_align: t,
        tile_mode,
        ..out
    }
}

fn compute_surface_info_linear(
    p_in: &ComputeSurfaceInfoInput,
    p_out: &mut ComputeSurfaceInfoOutput,
    tile_mode: TileMode,
)
    ensures
        *final(p_out) == info_linear(*p_in, *old(p_out), tile_mode),
{
    let micro_tile_thickness = compute_surface_thickness(tile_mode);
    let (base_align, pitch_align, height_align) = compute_surface_alignments_linear(p_in.tile_mode, p_in.bpp, p_in.flags);
    let wa = p_in.flags.linear_wa && p_in.mip_level == 0;
    let width = if wa {
        next_power_of_two(p_in.width / 3)
    } else {
        p_in.width
    };
    let input = ComputeSurfaceInfoInput { width, ..*p_in };
    let (mut pitch, height, num_slices) = compute_mip_dims(&input);
    if wa {
        pitch = pitch.wrapping_mul(3);
    }
    let slices = num_slices.wrapping_mul(p_in.num_samples) / micro_tile_thickness;
    let surface_size = bits_to_bytes(
        height.wrapping_mul(pitch).wrapping_mul(slices).wrapping_mul(p_in.bpp).wrapping_mul(p_in.num_samples),
    );
    p_out.base_align = base_align;
    p_out.pitch_align = pitch_align;
    p_out.height_align = height_align;
    p_out.pitch = pitch;
    p_out.height = height;
    p_out.depth = num_slices;
    p_out.surf_size = surface_size as u64;
    p_out.depth_align = micro_tile_thickness;
    p_out.tile_mode = tile_mode;
}

/// The surface information of a 1D tiled surface.
pub open spec fn info_micro_tiled(
    p: ComputeSurfaceInfoInput,
    out: ComputeSurfaceInfoOutput,
    tile_mode: TileMode,
) -> ComputeSurfaceInfoOutput {
    let dims = mip_dims(p);
    let thin = p.mip_level != 0 && tile_mode == TileMode::D1TiledThick && dims.2 < 4;
    let tm = if thin {
        TileMode::D1TiledThin1
    } else {
        tile_mode
    };
    let t = if thin {
        1
    } else {
        thickness(tile_mode)
    };
    let aligns = alignments_micro_tiled(tm, p.bpp, p.flags, p.num_samples);
    ComputeSurfaceInfoOutput {
        base_align: aligns.0,
        pitch_align: aligns.1,
        height_align: aligns.2,
        pitch: dims.0,
        height: dims.1,
        depth: dims.2,
        surf_size: spec_bits_to_bytes(
            dims.1.wrapping_mul(dims.0).wrapping_mul(dims.2).wrapping_mul(p.bpp).wrapping_mul(p.num_samples),
        ) as u64,
        tile_mode: tm,
        depth_align: t,
        ..out
    }
}

fn compute_surface_info_micro_tiled(
    p_in: &ComputeSurfaceInfoInput,
    p_out: &mut ComputeSurfaceInfoOutput,
    tile_mode: TileMode,
)
    ensures
        *final(p_out) == info_micro_tiled(*p_in, *old(p_out), tile_mode),
{
    let mut micro_tile_thickness = compute_surface_thickness(tile_mode);
    let mut tile_mode = tile_mode;
    let (pitch, height, num_slices) = compute_mip_dims(p_in);
    if p_in.mip_level != 0 && tile_mode == TileMode::D1TiledThick && num_slices < 4 {
        tile_mode = TileMode::D1TiledThin1;
        micro_tile_thickness = 1;
    }
    let (base_align, pitch_align, height_align) = compute_surface_alignments_micro_tiled(
        tile_mode,
        p_in.bpp,
        p_in.flags,
        p_in.num_samples,
    );
    let surface_size = bits_to_bytes(
        height.wrapping_mul(pitch).wrapping_mul(num_slices).wrapping_mul(p_in.bpp).wrapping_mul(p_in.num_samples),
    );
    p_out.base_align = base_align;
    p_out.pitch_align = pitch_align;
    p_out.height_align = height_align;
    p_out.pitch = pitch;
    p_out.height = height;
    p_out.depth = num_slices;
    p_out.surf_size = surface_size as u64;
    p_out.tile_mode = tile_mode;
    p_out.depth_align = micro_tile_thickness;
}

/// Whether a mip level whose thick macro tile mode degraded is too small for the
/// alignments of that mode, and so uses 1D tiling instead.
pub open spec fn falls_back_to_micro(
    p: ComputeSurfaceInfoInput,
    tile_mode: TileMode,
    base_tile_mode: TileMode,
) -> bool {
    let dims = mip_dims(p);
    let aligns = alignments_macro_tiled(base_tile_mode, p.bpp, p.num_samples);
    let pitch_align_factor = max_u32(div0(M_PIPE_INTERLEAVE_BYTES >> 3u32, p.bpp), 1);
    tile_mode != base_tile_mode && p.mip_level != 0 && thick_macro(base_tile_mode) && !thick_macro(
        tile_mode,
    ) && (dims.0 < aligns.1.wrapping_mul(pitch_align_factor) || dims.1 < aligns.2)
}

/// The surface information of a 2D or 3D tiled surface.
pub open spec fn info_macro_tiled(
    p: ComputeSurfaceInfoInput,
    out: ComputeSurfaceInfoOutput,
    tile_mode: TileMode,
    base_tile_mode: TileMode,
) -> ComputeSurfaceInfoOutput {
    let dims = mip_dims(p);
    let thin = p.mip_level != 0 && tile_mode == TileMode::D2TiledThick && dims.2 < 4;
    let tm = if thin {
        TileMode::D2TiledThin1
    } else {
        tile_mode
    };
    if falls_back_to_micro(p, tm, base_tile_mode) {
        info_micro_tiled(p, out, TileMode::D1TiledThin1)
    } else {
        let t = if thin {
            1
        } else {
            thickness(tile_mode)
        };
        let aligns = alignments_macro_tiled(tm, p.bpp, p.num_samples);
        let macro_width = aligns.3;
        let macro_height = aligns.4;
        let pitch_align = max_u32(aligns.1, bank_swapped_width(tm, p.bpp, p.num_samples, dims.0));
        let tile_per_group = max_u32(
            div0(div0(M_PIPE_INTERLEAVE_BYTES >> 3u32, p.bpp), p.num_samples) / thickness(tm),
            1,
        );
        let even_width = (dims.0.wrapping_sub(1) / macro_width) & 1;
        let even_height = (dims.1.wrapping_sub(1) / macro_height) & 1;
        let bump = dual_pitch_align_needed(tm, p.flags.depth, p.mip_level) && p.num_samples == 1
            && tile_per_group == 1 && even_width == 0 && (dims.0 > macro_width || (even_height
            == 0 && dims.1 > macro_height));
        let pitch = if bump {
            dims.0.wrapping_add(macro_width)
        } else {
            dims.0
        };
        ComputeSurfaceInfoOutput {
            base_align: aligns.0,
            height_align: aligns.2,
            pitch,
            height: dims.1,
            depth: dims.2,
            surf_size: spec_bits_to_bytes(
                dims.1.wrapping_mul(pitch).wrapping_mul(dims.2).wrapping_mul(p.bpp).wrapping_mul(p.num_samples),
            ) as u64,
            tile_mode: tm,
            pitch_align,
            depth_align: t,
            ..out
        }
    }
}

fn compute_surface_info_macro_tiled(
    p_in: &ComputeSurfaceInfoInput,
    p_out: &mut ComputeSurfaceInfoOutput,
    tile_mode: TileMode,
    base_tile_mode: TileMode,
)
    ensures
        *final(p_out) == info_macro_tiled(*p_in, *old(p_out), tile_mode, base_tile_mode),
{
    let mut micro_tile_thickness = compute_surface_thickness(tile_mode);
    let bpp = p_in.bpp;
    let num_samples = p_in.num_samples;
    let mut tile_mode = tile_mode;
    let (mut pitch, height, num_slices) = compute_mip_dims(p_in);
    if p_in.mip_level != 0 && tile_mode == TileMode::D2TiledThick && num_slices < 4 {
        tile_mode = TileMode::D2TiledThin1;
        micro_tile_thickness = 1;
    }
    if tile_mode != base_tile_mode && p_in.mip_level != 0 && is_thick_macro_tiled(base_tile_mode)
        && !is_thick_macro_tiled(tile_mode) {
        let base_aligns = compute_surface_alignments_macrotiled(base_tile_mode, bpp, num_samples);
        let pitch_align_factor = max(quot(M_PIPE_INTERLEAVE_BYTES >> 3u32, bpp), 1);
        if pitch < base_aligns.1.wrapping_mul(pitch_align_factor) || height < base_aligns.2 {
            compute_surface_info_micro_tiled(p_in, p_out, TileMode::D1TiledThin1);
            return;
        }
    }
    let (base_align, pitch_align, height_align, macro_width, macro_height) =
        compute_surface_alignments_macrotiled(tile_mode, bpp, num_samples);
    let bank_swapped_width = compute_surface_bank_swapped_width(tile_mode, bpp, num_samples, pitch);
    let pitch_align = max(pitch_align, bank_swapped_width);
    if is_dual_pitch_align_needed(tile_mode, p_in.flags.depth, p_in.mip_level) {
        let tile_per_group = max(
            quot(quot(M_PIPE_INTERLEAVE_BYTES >> 3u32, bpp), num_samples) / compute_surface_thickness(tile_mode),
            1,
        );
        let even_width = (pitch.wrapping_sub(1) / macro_width) & 1;
        let even_height = (height.wrapping_sub(1) / macro_height) & 1;
        if num_samples == 1 && tile_per_group == 1 && even_width == 0 {
            if pitch > macro_width || (even_height == 0 && height > macro_height) {
                pitch = pitch.wrapping_add(macro_width);
            }
        }
    }
    let surface_size = bits_to_bytes(
        height.wrapping_mul(pitch).wrapping_mul(num_slices).wrapping_mul(bpp).wrapping_mul(num_samples),
    );
    p_out.base_align = base_align;
    p_out.height_align = height_align;
    p_out.pitch = pitch;
    p_out.height = height;
    p_out.depth = num_slices;
    p_out.surf_size = surface_size as u64;
    p_out.tile_mode = tile_mode;
    p_out.pitch_align = pitch_align;
    p_out.depth_align = micro_tile_thickness;
}

/// The effective tile mode that the surface information of `p` is computed for.
pub open spec fn info_tile_mode(p: ComputeSurfaceInfoInput) -> TileMode {
    if p.flags.fmask {
        non_bank_swapped(p.tile_mode)
    } else {
        mip_level_tile_mode(
            p.tile_mode,
            p.bpp,
            p.mip_level,
            p.width,
            p.height,
            p.num_slices,
            max_u32(1, p.num_samples),
            p.flags.depth,
            false,
        )
    }
}

/// The surface information of a mip level: its effective tile mode, rounded
/// dimensions, alignments and size. Other tile modes leave `out` as it is.
pub open spec fn surface_info(
    p: ComputeSurfaceInfoInput,
    out: ComputeSurfaceInfoOutput,
) -> ComputeSurfaceInfoOutput {
    let tile_mode = info_tile_mode(p);
    match tile_mode {
        TileMode::LinearGeneral | TileMode::LinearAligned => info_linear(p, out, tile_mode),
        TileMode::D1TiledThin1 | TileMode::D1TiledThick => info_micro_tiled(p, out, tile_mode),
        TileMode::D2TiledThin1
        | TileMode::D2TiledThin2
        | TileMode::D2TiledThin4
        | TileMode::D2TiledThick
        | TileMode::B2TiledThin1
        | TileMode::B2TiledThin2
        | TileMode::B2TiledThin4
        | TileMode::B2TiledThick
        | TileMode::D3TiledThin1
        | TileMode::D3TiledThick
        | TileMode::B3TiledThin1
        | TileMode::B3TiledThick => info_macro_tiled(p, out, tile_mode, p.tile_mode),
        _ => out,
    }
}

/// Computes the effective tile mode, rounded dimensions, alignments and size of a mip
/// level. The dimensions are not padded to the alignments.
pub fn hwl_compute_surface_info(
    p_in: &ComputeSurfaceInfoInput,
    p_out: &mut ComputeSurfaceInfoOutput,
)
    ensures
        *final(p_out) == surface_info(*p_in, *old(p_out)),
{
    let num_samples = max(1, p_in.num_samples);
    let tile_mode = if p_in.flags.fmask {
        convert_to_non_bank_swapped_mode(p_in.tile_mode)
    } else {
        compute_surface_mip_level_tile_mode(
            p_in.tile_mode,
            p_in.bpp,
            p_in.mip_level,
            p_in.width,
            p_in.height,
            p_in.num_slices,
            num_samples,
            p_in.flags.depth,
            false,
        )
    };
    match tile_mode {
        TileMode::LinearGeneral | TileMode::LinearAligned => {
            compute_surface_info_linear(p_in, p_out, tile_mode);
        },
        TileMode::D1TiledThin1 | TileMode::D1TiledThick => {
            compute_surface_info_micro_tiled(p_in, p_out, tile_mode);
        },
        TileMode::D2TiledThin1
        | TileMode::D2TiledThin2
        | TileMode::D2TiledThin4
        | TileMode::D2TiledThick
        | TileMode::B2TiledThin1
        | TileMode::B2TiledThin2
        | TileMode::B2TiledThin4
        | TileMode::B2TiledThick
        | TileMode::D3TiledThin1
        | TileMode::D3TiledThick
        | TileMode::B3TiledThin1
        | TileMode::B3TiledThick => {
            compute_surface_info_macro_tiled(p_in, p_out, tile_mode, p_in.tile_mode);
        },
        _ => {},
    }
}

} // verus!
