use wiiu_swizzle::{AaMode, Gx2Surface, SurfaceDim, SurfaceFormat, SwizzleError, TileMode};

fn pattern(len: usize) -> Vec<u8> {
    (0..len).map(|i| (i * 7 + i / 251) as u8).collect()
}

fn linear_surface<'a>(
    dim: SurfaceDim,
    size: (u32, u32, u32),
    mipmap_count: u32,
    format: SurfaceFormat,
    image_data: &'a [u8],
    mipmap_data: &'a [u8],
    mipmap_offsets: [u32; 13],
) -> Gx2Surface<'a> {
    Gx2Surface {
        dim,
        width: size.0,
        height: size.1,
        depth_or_array_layers: size.2,
        mipmap_count,
        format,
        aa: AaMode::X1,
        usage: 1,
        image_data,
        mipmap_data,
        tile_mode: TileMode::LinearGeneral,
        swizzle: 0,
        alignment: 4096,
        pitch: size.0,
        mipmap_offsets,
    }
}

#[test]
fn deswizzle_surface_overflow() {
    let surface = Gx2Surface {
        dim: SurfaceDim::Cube,
        width: 65535,
        height: 65535,
        depth_or_array_layers: 65535,
        mipmap_count: 1,
        format: SurfaceFormat::Bc1Unorm,
        aa: AaMode::X1,
        usage: 1,
        image_data: &[],
        mipmap_data: &[],
        tile_mode: TileMode::D2TiledThin1,
        swizzle: 67328,
        alignment: 4096,
        pitch: 32,
        mipmap_offsets: [0, 0, 0, 0, 0, 0, 0, 0, 0, 0, 0, 0, 0],
    };
    assert_eq!(
        Err(SwizzleError::InvalidSurface {
            width: 65535,
            height: 65535,
            depth: 65535,
            format: SurfaceFormat::Bc1Unorm,
            mipmap_count: 1
        }),
        surface.deswizzle()
    );
}

#[test]
fn too_many_mipmaps_is_invalid() {
    let data = pattern(64);
    let surface = linear_surface(SurfaceDim::D2, (8, 8, 1), 14, SurfaceFormat::R8Unorm, &data, &[], [0; 13]);
    assert_eq!(
        Err(SwizzleError::InvalidSurface {
            width: 8,
            height: 8,
            depth: 1,
            format: SurfaceFormat::R8Unorm,
            mipmap_count: 14
        }),
        surface.deswizzle()
    );
}

#[test]
fn mipmap_offset_past_image_is_invalid() {
    let data = pattern(64);
    let mut offsets = [0; 13];
    offsets[0] = 65;
    let surface = linear_surface(SurfaceDim::D2, (8, 8, 1), 1, SurfaceFormat::R8Unorm, &data, &[], offsets);
    assert_eq!(
        Err(SwizzleError::InvalidMipmapOffsets { mipmap_offsets: offsets, image_data_len: 64, mipmap_data_len: 0 }),
        surface.deswizzle()
    );
}

#[test]
fn mipmap_offset_past_mipmaps_is_invalid() {
    let data = pattern(84);
    let mut offsets = [0; 13];
    offsets[0] = 64;
    offsets[5] = 21;
    let surface = linear_surface(SurfaceDim::D2, (8, 8, 1), 3, SurfaceFormat::R8Unorm, &data, &data[64..], offsets);
    assert_eq!(
        Err(SwizzleError::InvalidMipmapOffsets { mipmap_offsets: offsets, image_data_len: 84, mipmap_data_len: 20 }),
        surface.deswizzle()
    );
}

#[test]
fn backwards_mipmap_range_is_invalid() {
    let data = pattern(84);
    let mut offsets = [0; 13];
    offsets[0] = 64;
    offsets[1] = 16;
    offsets[2] = 8;
    let surface = linear_surface(SurfaceDim::D2, (8, 8, 1), 3, SurfaceFormat::R8Unorm, &data, &data[64..], offsets);
    assert_eq!(
        Err(SwizzleError::InvalidMipmapOffsets { mipmap_offsets: offsets, image_data_len: 84, mipmap_data_len: 20 }),
        surface.deswizzle()
    );
}

#[test]
fn short_image_data_is_not_enough() {
    let data = pattern(40);
    let surface = linear_surface(SurfaceDim::D2, (8, 8, 1), 1, SurfaceFormat::R8Unorm, &data, &[], [0; 13]);
    assert_eq!(
        Err(SwizzleError::NotEnoughData { expected_size: 64, actual_size: 40 }),
        surface.deswizzle()
    );
}

#[test]
fn empty_surface_is_empty() {
    let data = pattern(64);
    let mut surface = linear_surface(SurfaceDim::D2, (8, 8, 1), 1, SurfaceFormat::R8Unorm, &data, &[], [0; 13]);
    surface.pitch = 0;
    assert_eq!(Ok(Vec::new()), surface.deswizzle());
    let surface = linear_surface(SurfaceDim::D2, (0, 8, 1), 1, SurfaceFormat::R8Unorm, &data, &[], [0; 13]);
    assert_eq!(Ok(Vec::new()), surface.deswizzle());
}

#[test]
fn linear_mipmaps_stay_mip_major() {
    let data = pattern(84);
    let mut offsets = [0; 13];
    offsets[0] = 64;
    offsets[1] = 16;
    let surface = linear_surface(SurfaceDim::D2, (8, 8, 1), 3, SurfaceFormat::R8Unorm, &data, &data[64..], offsets);
    assert_eq!(Ok(data.clone()), surface.deswizzle());
}

#[test]
fn cube_mipmaps_become_layer_major() {
    // Two mips of a 4x4 RGBA8 cube map: 64 bytes per layer of mip 0, 16 of mip 1.
    let data = pattern(6 * 64 + 6 * 16);
    let mut offsets = [0; 13];
    offsets[0] = 384;
    let surface = linear_surface(
        SurfaceDim::Cube,
        (4, 4, 6),
        2,
        SurfaceFormat::R8G8B8A8Unorm,
        &data,
        &data[384..],
        offsets,
    );
    let mut expected = Vec::new();
    for layer in 0..6 {
        expected.extend_from_slice(&data[layer * 64..layer * 64 + 64]);
        expected.extend_from_slice(&data[384 + layer * 16..384 + layer * 16 + 16]);
    }
    let result = surface.deswizzle().unwrap();
    assert_eq!(expected.len(), result.len());
    assert_eq!(expected, result);
}

#[test]
fn block_compressed_mip_dimensions_round_up() {
    // A 6x6 BC1 surface has 2x2 blocks of 8 bytes.
    let data = pattern(32);
    let surface = linear_surface(SurfaceDim::D2, (6, 6, 1), 1, SurfaceFormat::Bc1Unorm, &data, &[], [0; 13]);
    assert_eq!(Ok(data.clone()), surface.deswizzle());
}

#[test]
fn bc1_mipmap_chain_deswizzles_to_its_linear_size() {
    // 256x256 BC1 with 8 mips: 64x64, 32x32, ... 1x1 blocks of 8 bytes.
    let data = pattern(32768 + 13568 + 512);
    let surface = Gx2Surface {
        dim: SurfaceDim::D2,
        width: 256,
        height: 256,
        depth_or_array_layers: 1,
        mipmap_count: 8,
        format: SurfaceFormat::Bc1Unorm,
        aa: AaMode::X1,
        usage: 1,
        image_data: &data,
        mipmap_data: &data[32768..],
        tile_mode: TileMode::D2TiledThin1,
        swizzle: 132352,
        alignment: 4096,
        pitch: 64,
        mipmap_offsets: [32768, 9472, 11520, 12032, 12544, 13056, 13568, 0, 0, 0, 0, 0, 0],
    };
    let out = surface.deswizzle().unwrap();
    assert_eq!(32768 + 8192 + 2048 + 512 + 128 + 32 + 8 + 8, out.len());
}

#[test]
fn bc1_cube_map_deswizzles_to_its_linear_size() {
    // 64x64 BC1 cube map with 2 mips: 16x16 and 8x8 blocks of 8 bytes per face.
    let data = pattern(24576 + 8192);
    let surface = Gx2Surface {
        dim: SurfaceDim::Cube,
        width: 64,
        height: 64,
        depth_or_array_layers: 6,
        mipmap_count: 2,
        format: SurfaceFormat::Bc1Unorm,
        aa: AaMode::X1,
        usage: 1,
        image_data: &data,
        mipmap_data: &data[24576..],
        tile_mode: TileMode::D2TiledThin1,
        swizzle: 67328,
        alignment: 4096,
        pitch: 32,
        mipmap_offsets: [24576, 0, 0, 0, 0, 0, 0, 0, 0, 0, 0, 0, 0],
    };
    let out = surface.deswizzle().unwrap();
    assert_eq!(6 * (2048 + 512), out.len());
}

#[test]
fn empty_surface_with_backwards_mip_range_is_empty() {
    let data = pattern(10);
    let mut offsets = [0; 13];
    offsets[1] = 5;
    offsets[2] = 3;
    let surface = linear_surface(SurfaceDim::D2, (0, 1, 1), 3, SurfaceFormat::R8Unorm, &[], &data, offsets);
    assert_eq!(Ok(Vec::new()), surface.deswizzle());
}
