use wiiu_swizzle::{AaMode, SurfaceDim, SurfaceFormat, TileMode};

#[test]
fn aa_mode_from_repr() {
    assert_eq!(Some(AaMode::X2), AaMode::from_repr(1));
    assert_eq!(None, AaMode::from_repr(0xff));
}

#[test]
fn surface_dim_from_repr() {
    assert_eq!(Some(SurfaceDim::D2), SurfaceDim::from_repr(1));
    assert_eq!(None, SurfaceDim::from_repr(0xff));
}

#[test]
fn surface_format_from_repr() {
    assert_eq!(Some(SurfaceFormat::Bc5Unorm), SurfaceFormat::from_repr(53));
    assert_eq!(None, SurfaceFormat::from_repr(0xff));
}

#[test]
fn tile_mode_from_repr() {
    assert_eq!(Some(TileMode::D2TiledThin1), TileMode::from_repr(4));
    assert_eq!(None, TileMode::from_repr(0xff));
}

#[test]
fn every_variant_round_trips_through_its_value() {
    for v in [AaMode::X1, AaMode::X2, AaMode::X4, AaMode::X8] {
        assert_eq!(Some(v), AaMode::from_repr(v.repr()));
    }
    for v in [SurfaceDim::D1, SurfaceDim::D2, SurfaceDim::D3, SurfaceDim::Cube] {
        assert_eq!(Some(v), SurfaceDim::from_repr(v.repr()));
    }
    for value in 0..0x14 {
        let mode = TileMode::from_repr(value).unwrap();
        assert_eq!(value, mode.repr());
    }
    assert_eq!(None, TileMode::from_repr(0x14));
    let mut formats = 0;
    for value in 0..0x900 {
        if let Some(format) = SurfaceFormat::from_repr(value) {
            assert_eq!(value, format.repr());
            formats += 1;
        }
    }
    assert_eq!(56, formats);
}

#[test]
fn format_values_and_sizes() {
    assert_eq!(0x31, SurfaceFormat::Bc1Unorm.repr());
    assert_eq!(0x41a, SurfaceFormat::R8G8B8A8Srgb.repr());
    assert_eq!(8, SurfaceFormat::Bc1Unorm.bytes_per_pixel());
    assert_eq!(16, SurfaceFormat::Bc3Srgb.bytes_per_pixel());
    assert_eq!(4, SurfaceFormat::R8G8B8A8Unorm.bytes_per_pixel());
    assert_eq!(16, SurfaceFormat::R32G32B32A32Float.bytes_per_pixel());
    assert_eq!(1, SurfaceFormat::R4G4Unorm.bytes_per_pixel());
    assert_eq!(2, SurfaceFormat::R5G6B5Unorm.bytes_per_pixel());
    assert_eq!((4, 4), SurfaceFormat::Bc1Unorm.block_dim());
    assert_eq!((4, 4), SurfaceFormat::Bc5Snorm.block_dim());
    assert_eq!((1, 1), SurfaceFormat::R8G8B8A8Unorm.block_dim());
}

#[test]
fn aa_mode_sample_counts() {
    assert_eq!(1, AaMode::X1.num_samples());
    assert_eq!(2, AaMode::X2.num_samples());
    assert_eq!(4, AaMode::X4.num_samples());
    assert_eq!(8, AaMode::X8.num_samples());
}
