use wiiu_swizzle::addrlib::{
    compute_surface_mip_level_tile_mode, dispatch_compute_surface_addrfrom_coord,
    hwl_compute_surface_info, pipe_bank_swizzle, ComputeSurfaceAddrFromCoordInput,
    ComputeSurfaceInfoInput, ComputeSurfaceInfoOutput, SurfaceFlags, TileInfo, TileType,
};
use wiiu_swizzle::{SurfaceFormat, TileMode};

fn coord_input(x: u32, y: u32, tile_mode: TileMode) -> ComputeSurfaceAddrFromCoordInput {
    ComputeSurfaceAddrFromCoordInput {
        x,
        y,
        slice: 0,
        sample: 0,
        bpp: 32,
        pitch: 32,
        height: 16,
        num_slices: 1,
        num_samples: 1,
        tile_mode,
        is_depth: false,
        tile_base: 0,
        comp_bits: 0,
        pipe_swizzle: 0,
        bank_swizzle: 0,
    }
}

#[test]
fn linear_addresses() {
    let p = coord_input(3, 2, TileMode::LinearGeneral);
    assert_eq!((2 * 32 + 3) * 4, dispatch_compute_surface_addrfrom_coord(&p));
    let p = ComputeSurfaceAddrFromCoordInput { slice: 1, ..coord_input(0, 0, TileMode::LinearAligned) };
    assert_eq!(32 * 16 * 4, dispatch_compute_surface_addrfrom_coord(&p));
}

#[test]
fn micro_tiled_addresses() {
    let p = coord_input(1, 0, TileMode::D1TiledThin1);
    assert_eq!(4, dispatch_compute_surface_addrfrom_coord(&p));
    let p = coord_input(8, 0, TileMode::D1TiledThin1);
    assert_eq!(256, dispatch_compute_surface_addrfrom_coord(&p));
}

#[test]
fn macro_tiled_addresses() {
    let p = coord_input(0, 0, TileMode::D2TiledThin1);
    assert_eq!(0, dispatch_compute_surface_addrfrom_coord(&p));
    let p = coord_input(8, 0, TileMode::D2TiledThin1);
    assert_eq!(768, dispatch_compute_surface_addrfrom_coord(&p));
    let p = ComputeSurfaceAddrFromCoordInput { pipe_swizzle: 1, ..coord_input(8, 0, TileMode::D2TiledThin1) };
    assert_eq!(512, dispatch_compute_surface_addrfrom_coord(&p));
}

#[test]
fn unsupported_tile_modes_address_zero() {
    let p = coord_input(5, 5, TileMode::PowerSave);
    assert_eq!(0, dispatch_compute_surface_addrfrom_coord(&p));
}

#[test]
fn swizzle_bits() {
    assert_eq!((1, 3), pipe_bank_swizzle(0x700));
    assert_eq!((0, 3), pipe_bank_swizzle(853504));
    assert_eq!((0, 0), pipe_bank_swizzle(0xff));
}

#[test]
fn small_mips_degrade_to_micro_tiling() {
    assert_eq!(
        TileMode::D2TiledThin1,
        compute_surface_mip_level_tile_mode(TileMode::D2TiledThin1, 64, 0, 64, 64, 1, 1, false, false)
    );
    assert_eq!(
        TileMode::D1TiledThin1,
        compute_surface_mip_level_tile_mode(TileMode::D2TiledThin1, 64, 5, 8, 8, 1, 1, false, false)
    );
    assert_eq!(
        TileMode::D2TiledThin1,
        compute_surface_mip_level_tile_mode(TileMode::D2TiledThick, 32, 0, 16, 16, 16, 2, false, false)
    );
    assert_eq!(
        TileMode::D1TiledThin1,
        compute_surface_mip_level_tile_mode(TileMode::D2TiledThin1, 1 << 26, 1, 2, 16, 1, 1, false, false)
    );
    assert_eq!(
        TileMode::D3TiledThin1,
        compute_surface_mip_level_tile_mode(TileMode::D3TiledThin1, 32, 0, 64, 64, 1, 1, false, false)
    );
}

fn info_input(mip_level: u32, width: u32, height: u32) -> ComputeSurfaceInfoInput {
    ComputeSurfaceInfoInput {
        size: 0,
        tile_mode: TileMode::D2TiledThin1,
        format: SurfaceFormat::Bc1Unorm,
        bpp: 64,
        num_samples: 1,
        width,
        height,
        num_slices: 1,
        slice: 0,
        mip_level,
        flags: SurfaceFlags::default(),
        tile_info: TileInfo::default(),
        tile_type: TileType::Displayable,
        tile_index: 0,
    }
}

fn info_output() -> ComputeSurfaceInfoOutput {
    ComputeSurfaceInfoOutput {
        size: 0,
        pitch: 0,
        height: 0,
        depth: 0,
        surf_size: 0,
        tile_mode: TileMode::D2TiledThin1,
        base_align: 0,
        pitch_align: 0,
        height_align: 0,
        depth_align: 0,
        bpp: 0,
        pixel_pitch: 0,
        pixel_height: 0,
        pixel_bits: 0,
        slice_size: 0,
        pitch_tile_max: 0,
        height_tile_max: 0,
        slice_tile_max: 0,
        tile_info: TileInfo::default(),
        tile_type: TileType::Displayable,
        tile_index: 0,
    }
}

#[test]
fn surface_info_of_base_and_small_mips() {
    let mut out = info_output();
    hwl_compute_surface_info(&info_input(0, 64, 64), &mut out);
    assert_eq!(TileMode::D2TiledThin1, out.tile_mode);
    assert_eq!(64, out.pitch);
    assert_eq!(64, out.height);
    assert_eq!(32, out.pitch_align);
    assert_eq!(16, out.height_align);
    assert_eq!(64 * 64 * 8, out.surf_size);

    let mut out = info_output();
    hwl_compute_surface_info(&info_input(5, 2, 2), &mut out);
    assert_eq!(TileMode::D1TiledThin1, out.tile_mode);
    assert_eq!(2, out.pitch);
    assert_eq!(8, out.pitch_align);
    assert_eq!(8, out.height_align);
}

#[allow(clippy::too_many_arguments)]
fn element_addr(
    x: u32,
    y: u32,
    slice: u32,
    tile_mode: TileMode,
    swizzle: u32,
    pitch: u32,
    bytes_per_pixel: u32,
    num_samples: u32,
    height: u32,
) -> u32 {
    let (pipe_swizzle, bank_swizzle) = pipe_bank_swizzle(swizzle);
    let p = ComputeSurfaceAddrFromCoordInput {
        x,
        y,
        slice,
        sample: 0,
        bpp: bytes_per_pixel * 8,
        pitch,
        height,
        num_slices: 4,
        num_samples,
        tile_mode,
        is_depth: false,
        tile_base: 0,
        comp_bits: 0,
        pipe_swizzle,
        bank_swizzle,
    };
    dispatch_compute_surface_addrfrom_coord(&p)
}

#[test]
fn macro_tiled_addresses_across_modes() {
    assert_eq!(1588, element_addr(5, 9, 0, TileMode::D2TiledThin1, 0x700, 64, 4, 1, 64));
    assert_eq!(6932, element_addr(33, 17, 0, TileMode::D2TiledThin1, 0x700, 64, 4, 1, 64));
    assert_eq!(4508, element_addr(3, 5, 2, TileMode::D2TiledThick, 852224, 32, 4, 1, 16));
    assert_eq!(7552, element_addr(40, 20, 0, TileMode::B2TiledThin1, 0x200, 64, 4, 1, 64));
    assert_eq!(12036, element_addr(17, 40, 0, TileMode::D2TiledThin2, 0, 64, 4, 1, 64));
    assert_eq!(32792, element_addr(9, 9, 1, TileMode::D3TiledThin1, 0x100, 64, 8, 1, 64));
}

#[test]
fn macro_tiled_addresses_with_sample_splits() {
    assert_eq!(2288, element_addr(7, 3, 0, TileMode::D2TiledThin1, 0, 64, 16, 4, 64));
    assert_eq!(10752, element_addr(12, 12, 0, TileMode::D2TiledThin1, 0, 64, 32, 8, 64));
}
