use wiiu_swizzle::{
    deswizzle_mipmap, deswizzled_mipmap_size, div_round_up, swizzle_mipmap, AaMode, SwizzleError,
    TileMode,
};

/// Deterministic pseudo-random bytes.
fn bytes(len: usize, seed: u32) -> Vec<u8> {
    let mut state = seed.wrapping_mul(2654435761).wrapping_add(1);
    (0..len)
        .map(|_| {
            state = state.wrapping_mul(1103515245).wrapping_add(12345);
            (state >> 16) as u8
        })
        .collect()
}

#[allow(clippy::too_many_arguments)]
fn round_trip(
    width: u32,
    height: u32,
    depth: u32,
    swizzle: u32,
    pitch: u32,
    tile_mode: TileMode,
    bytes_per_pixel: u32,
    aa: AaMode,
) {
    let size = (width * height * depth * bytes_per_pixel) as usize;
    let linear = bytes(size, width ^ height ^ depth ^ swizzle);
    let tiled = swizzle_mipmap(width, height, depth, &linear, swizzle, pitch, tile_mode, bytes_per_pixel, aa)
        .unwrap();
    let back = deswizzle_mipmap(width, height, depth, &tiled, swizzle, pitch, tile_mode, bytes_per_pixel, aa)
        .unwrap();
    assert_eq!(linear, back);
}

#[test]
fn deswizzle_empty() {
    assert!(deswizzle_mipmap(0, 0, 0, &[], 853504, 256, TileMode::D2TiledThin1, 8, AaMode::X1)
        .unwrap()
        .is_empty());
}

#[test]
fn empty_dimensions_give_empty_results() {
    let source = vec![7u8; 64];
    for (w, h, d) in [(0, 4, 1), (4, 0, 1), (4, 4, 0)] {
        assert!(deswizzle_mipmap(w, h, d, &source, 0x700, 32, TileMode::D2TiledThin1, 4, AaMode::X1)
            .unwrap()
            .is_empty());
        assert!(swizzle_mipmap(w, h, d, &source, 0x700, 32, TileMode::D2TiledThin1, 4, AaMode::X1)
            .unwrap()
            .is_empty());
    }
}

#[test]
fn zero_bytes_per_pixel_gives_empty_results() {
    assert!(deswizzle_mipmap(16, 16, 1, &[], 0, 32, TileMode::D2TiledThin1, 0, AaMode::X1)
        .unwrap()
        .is_empty());
    assert!(swizzle_mipmap(16, 16, 1, &[], 0, 32, TileMode::D2TiledThin1, 0, AaMode::X1)
        .unwrap()
        .is_empty());
}

#[test]
fn round_trip_macro_tiled() {
    round_trip(64, 64, 1, 0x700, 64, TileMode::D2TiledThin1, 4, AaMode::X1);
}

#[test]
fn round_trip_micro_tiled() {
    round_trip(16, 16, 1, 0, 16, TileMode::D1TiledThin1, 4, AaMode::X1);
    round_trip(8, 8, 4, 0, 8, TileMode::D1TiledThick, 2, AaMode::X1);
}

#[test]
fn round_trip_linear() {
    round_trip(13, 7, 3, 0, 13, TileMode::LinearGeneral, 3, AaMode::X1);
    round_trip(64, 4, 1, 0x500, 64, TileMode::LinearAligned, 1, AaMode::X1);
}

#[test]
fn round_trip_generated_descriptors() {
    // Descriptors drawn from a fixed generator; each is tried in both directions
    // wherever swizzling fits every element in the tiled size.
    let modes = [TileMode::LinearGeneral, TileMode::D1TiledThin1, TileMode::D1TiledThick];
    let mut state: u32 = 13;
    let mut next = |bound: u32| {
        state = state.wrapping_mul(1664525).wrapping_add(1013904223);
        (state >> 8) % bound
    };
    for _ in 0..24 {
        let width = 8 * (1 + next(8));
        let height = 8 * (1 + next(8));
        let depth = 4 * (1 + next(2));
        let swizzle = next(8) << 8;
        let tile_mode = modes[next(3) as usize];
        let bytes_per_pixel = 1 << next(5);
        round_trip(width, height, depth, swizzle, width, tile_mode, bytes_per_pixel, AaMode::X1);
    }
}

#[test]
fn swizzle_reports_elements_past_the_corner() {
    let linear = bytes(64 * 64 * 8, 5);
    assert_eq!(
        Err(SwizzleError::NotEnoughData { expected_size: 32264, actual_size: 30976 }),
        swizzle_mipmap(64, 64, 1, &linear, 0, 64, TileMode::D2TiledThin1, 8, AaMode::X1)
    );
}

#[test]
fn deswizzled_size_is_the_linear_size() {
    let tiled = vec![1u8; 1 << 16];
    let out = deswizzle_mipmap(32, 16, 2, &tiled, 0, 32, TileMode::D2TiledThin1, 4, AaMode::X1).unwrap();
    assert_eq!(32 * 16 * 2 * 4, out.len());
    assert!(out.iter().all(|b| *b == 1));
}

#[test]
fn deswizzle_reports_short_source() {
    let tiled = vec![0u8; 100];
    let result = deswizzle_mipmap(64, 64, 1, &tiled, 0, 64, TileMode::D2TiledThin1, 8, AaMode::X1);
    match result {
        Err(SwizzleError::NotEnoughData { expected_size, actual_size }) => {
            assert_eq!(100, actual_size);
            assert!(expected_size > 100);
        }
        other => panic!("unexpected result {other:?}"),
    }
}

#[test]
fn swizzle_reports_short_source() {
    let linear = vec![0u8; 10];
    assert_eq!(
        Err(SwizzleError::NotEnoughData { expected_size: 16 * 16 * 4, actual_size: 10 }),
        swizzle_mipmap(16, 16, 1, &linear, 0, 16, TileMode::LinearGeneral, 4, AaMode::X1)
    );
}

#[test]
fn deswizzle_reads_only_element_bytes() {
    // With a linear layout the tiled bytes past the last element are never read.
    let mut tiled = bytes(4 * 4 * 2 + 8, 3);
    let first = deswizzle_mipmap(4, 4, 1, &tiled, 0, 4, TileMode::LinearGeneral, 2, AaMode::X1).unwrap();
    tiled[32] ^= 0xff;
    tiled[39] ^= 0x55;
    let second = deswizzle_mipmap(4, 4, 1, &tiled, 0, 4, TileMode::LinearGeneral, 2, AaMode::X1).unwrap();
    assert_eq!(first, second);
    assert_eq!(&tiled[..32], &first[..]);
}

#[test]
fn linear_deswizzle_with_wider_pitch_skips_padding() {
    let tiled: Vec<u8> = (0..32).collect();
    let out = deswizzle_mipmap(2, 2, 1, &tiled, 0, 4, TileMode::LinearGeneral, 4, AaMode::X1).unwrap();
    let expected: Vec<u8> = [0, 1, 2, 3, 4, 5, 6, 7, 16, 17, 18, 19, 20, 21, 22, 23].to_vec();
    assert_eq!(expected, out);
}

#[test]
fn sizes_and_rounding() {
    assert_eq!(16 * 16 * 16 * 4, deswizzled_mipmap_size(16, 16, 16, 4));
    assert_eq!(0, deswizzled_mipmap_size(16, 0, 16, 4));
    assert_eq!(64, div_round_up(256, 4));
    assert_eq!(1, div_round_up(1, 4));
    assert_eq!(2, div_round_up(5, 4));
    assert_eq!(0, div_round_up(0, 4));
    assert_eq!(1073741824, div_round_up(u32::MAX, 4));
}

#[test]
fn conversions_are_deterministic() {
    let linear = bytes(32 * 32 * 4, 9);
    let a = swizzle_mipmap(32, 32, 1, &linear, 0x100, 32, TileMode::D2TiledThin1, 4, AaMode::X1);
    let b = swizzle_mipmap(32, 32, 1, &linear, 0x100, 32, TileMode::D2TiledThin1, 4, AaMode::X1);
    assert_eq!(a, b);
}

fn pattern(len: usize) -> Vec<u8> {
    (0..len).map(|i| (i * 7 + i / 251 + i / 65521) as u8).collect()
}

#[test]
fn bc1_1024_reads_each_block_from_its_address() {
    // 1024x1024 BC1 is 256x256 blocks of 8 bytes.
    let tiled = pattern(524288);
    let out = deswizzle_mipmap(256, 256, 1, &tiled, 853504, 256, TileMode::D2TiledThin1, 8, AaMode::X1)
        .unwrap();
    assert_eq!(524288, out.len());
    for (x, y, address) in [(0, 0, 1536), (5, 9, 1880), (255, 255, 524024), (100, 37, 80976), (31, 15, 2296)] {
        let linear = (y * 256 + x) * 8;
        assert_eq!(&tiled[address..address + 8], &out[linear..linear + 8]);
    }
    let mut sorted = out.clone();
    sorted.sort_unstable();
    let mut expected = tiled.clone();
    expected.sort_unstable();
    assert_eq!(expected, sorted);
}

#[test]
fn rgba8_thick_reads_each_pixel_from_its_address() {
    let tiled = pattern(32768);
    let out = deswizzle_mipmap(16, 16, 16, &tiled, 852224, 32, TileMode::D2TiledThick, 4, AaMode::X1)
        .unwrap();
    assert_eq!(16384, out.len());
    for (x, y, z, address) in [(0, 0, 0, 256), (3, 5, 2, 4508), (15, 15, 15, 32252), (8, 1, 7, 14352)] {
        let linear = ((z * 16 + y) * 16 + x) * 4;
        assert_eq!(&tiled[address..address + 4], &out[linear..linear + 4]);
    }
}

/// The tiled addresses of every element, as the conversions compute them.
#[allow(clippy::too_many_arguments)]
fn element_addresses(
    width: u32,
    height: u32,
    depth: u32,
    swizzle: u32,
    pitch: u32,
    tile_mode: TileMode,
    bytes_per_pixel: u32,
    aa: AaMode,
) -> Vec<u32> {
    let (pipe_swizzle, bank_swizzle) = wiiu_swizzle::addrlib::pipe_bank_swizzle(swizzle);
    let mut addresses = Vec::new();
    for z in 0..depth {
        for y in 0..height {
            for x in 0..width {
                let p = wiiu_swizzle::addrlib::ComputeSurfaceAddrFromCoordInput {
                    x,
                    y,
                    slice: z,
                    sample: 0,
                    bpp: bytes_per_pixel * 8,
                    pitch,
                    height,
                    num_slices: depth,
                    num_samples: aa.num_samples(),
                    tile_mode,
                    is_depth: false,
                    tile_base: 0,
                    comp_bits: 0,
                    pipe_swizzle,
                    bank_swizzle,
                };
                addresses.push(wiiu_swizzle::addrlib::dispatch_compute_surface_addrfrom_coord(&p));
            }
        }
    }
    addresses
}

#[test]
fn generated_descriptors_round_trip_where_elements_do_not_overlap() {
    let mut state: u32 = 7;
    let mut next = |bound: u32| {
        state = state.wrapping_mul(1664525).wrapping_add(1013904223);
        (state >> 8) % bound
    };
    let mut round_trips = 0;
    for _ in 0..120 {
        let width = 1 + next(64);
        let height = 1 + next(64);
        let depth = 1 + next(8);
        let swizzle = next(8) << 8;
        let pitch = width + next(64);
        let tile_mode = TileMode::from_repr(next(20)).unwrap();
        let bytes_per_pixel = 1 + next(8);
        let aa = AaMode::from_repr(next(4)).unwrap();
        let size = (width * height * depth * bytes_per_pixel) as usize;
        let linear = bytes(size, swizzle ^ width);
        let tiled =
            swizzle_mipmap(width, height, depth, &linear, swizzle, pitch, tile_mode, bytes_per_pixel, aa);
        let tiled = match tiled {
            Ok(tiled) => tiled,
            Err(SwizzleError::NotEnoughData { expected_size, actual_size }) => {
                assert!(expected_size > actual_size);
                continue;
            }
            Err(other) => panic!("unexpected error {other:?}"),
        };
        let mut addresses = element_addresses(width, height, depth, swizzle, pitch, tile_mode, bytes_per_pixel, aa);
        addresses.sort_unstable();
        let disjoint = addresses
            .windows(2)
            .all(|w| w[0] as u64 + bytes_per_pixel as u64 <= w[1] as u64);
        if disjoint {
            let back = deswizzle_mipmap(width, height, depth, &tiled, swizzle, pitch, tile_mode, bytes_per_pixel, aa)
                .unwrap();
            assert_eq!(linear, back);
            round_trips += 1;
        }
    }
    assert!(round_trips > 0);
}
