//! Conversion of a single mipmap between the tiled and the linear layout.
use vstd::prelude::*;
use vstd::arithmetic::div_mod::{
    lemma_fundamental_div_mod, lemma_fundamental_div_mod_converse, lemma_mod_pos_bound,
    lemma_small_mod,
};

use crate::addrlib::{
    dispatch_compute_surface_addrfrom_coord, pipe_bank_swizzle, spec_pipe_bank_swizzle,
    surface_addr, ComputeSurfaceAddrFromCoordInput, TileMode,
};
use crate::formats::{AaMode, SurfaceFormat};

verus! {

/// Errors that can occur while converting between tiled and linear memory layouts.
#[derive(Debug, Clone, Copy, PartialEq, Eq)]
pub enum SwizzleError {
    /// The source data does not contain enough bytes.
    NotEnoughData { expected_size: usize, actual_size: usize },
    /// The surface dimensions would overflow in size calculations.
    InvalidSurface {
        width: u32,
        height: u32,
        depth: u32,
        format: SurfaceFormat,
        mipmap_count: u32,
    },
    /// The mipmap offsets are out of bounds.
    InvalidMipmapOffsets {
        mipmap_offsets: [u32; 13],
        image_data_len: usize,
        mipmap_data_len: usize,
    },
}

/// The parameters of one mipmap, as the conversion functions take them.
#[derive(Debug, Clone, Copy, PartialEq, Eq, Structural)]
pub struct MipmapLayout {
    pub width: u32,
    pub height: u32,
    pub depth: u32,
    pub swizzle: u32,
    pub pitch: u32,
    pub tile_mode: TileMode,
    pub bytes_per_pixel: u32,
    pub aa: AaMode,
}

/// The layout that the arguments of [deswizzle_mipmap] and [swizzle_mipmap] describe.
pub open spec fn layout(
    width: u32,
    height: u32,
    depth: u32,
    swizzle: u32,
    pitch: u32,
    tile_mode: TileMode,
    bytes_per_pixel: u32,
    aa: AaMode,
) -> MipmapLayout {
    MipmapLayout { width, height, depth, swizzle, pitch, tile_mode, bytes_per_pixel, aa }
}

/// The number of elements of the mipmap.
pub open spec fn elem_count(m: MipmapLayout) -> int {
    m.width * m.height * m.depth
}

/// The size in bytes of the linear layout.
pub open spec fn linear_size(m: MipmapLayout) -> int {
    m.width * m.height * m.depth * m.bytes_per_pixel
}

/// The coordinate after `c` in the order x, then y, then z.
pub open spec fn next_coord(w: u32, h: u32, c: (u32, u32, u32)) -> (u32, u32, u32) {
    if c.0 + 1 < w {
        ((c.0 + 1) as u32, c.1, c.2)
    } else if c.1 + 1 < h {
        (0, (c.1 + 1) as u32, c.2)
    } else {
        (0, 0, (c.2 + 1) as u32)
    }
}

/// The coordinate `(x, y, z)` of the element with linear index `e`.
pub open spec fn coord(w: u32, h: u32, e: nat) -> (u32, u32, u32)
    decreases e,
{
    if e == 0 {
        (0, 0, 0)
    } else {
        next_coord(w, h, coord(w, h, (e - 1) as nat))
    }
}

/// The input of the address computation for the element at `(x, y, z)`.
pub open spec fn addr_input(
    m: MipmapLayout,
    x: u32,
    y: u32,
    z: u32,
) -> ComputeSurfaceAddrFromCoordInput {
    ComputeSurfaceAddrFromCoordInput {
        x,
        y,
        slice: z,
        sample: 0,
        bpp: m.bytes_per_pixel.wrapping_mul(8),
        pitch: m.pitch,
        height: m.height,
        num_slices: m.depth,
        num_samples: m.aa.samples(),
        tile_mode: m.tile_mode,
        is_depth: false,
        tile_base: 0,
        comp_bits: 0,
        pipe_swizzle: spec_pipe_bank_swizzle(m.swizzle).0,
        bank_swizzle: spec_pipe_bank_swizzle(m.swizzle).1,
    }
}

/// The tiled byte offset of the element with linear index `e`.
pub open spec fn elem_addr(m: MipmapLayout, e: int) -> int {
    let c = coord(m.width, m.height, e as nat);
    surface_addr(addr_input(m, c.0, c.1, c.2)) as int
}

/// The end of the tiled bytes of the element with linear index `e`.
pub open spec fn elem_end(m: MipmapLayout, e: int) -> int {
    elem_addr(m, e) + m.bytes_per_pixel
}

/// The size of the tiled layout: the end of the element at the far corner, or
/// zero for a mipmap without bytes.
pub open spec fn swizzled_size(m: MipmapLayout) -> int {
    if m.width == 0 || m.height == 0 || m.depth == 0 || m.bytes_per_pixel == 0 {
        0
    } else {
        surface_addr(addr_input(m, (m.width - 1) as u32, (m.height - 1) as u32, (m.depth - 1) as u32))
            + m.bytes_per_pixel
    }
}

/// Whether the tiled bytes of every element lie within `tiled_len` bytes.
pub open spec fn all_in_bounds(m: MipmapLayout, tiled_len: int) -> bool {
    forall|e: int| 0 <= e < elem_count(m) ==> #[trigger] elem_end(m, e) <= tiled_len
}

/// Whether `e` is the first element whose tiled bytes exceed `tiled_len` bytes.
pub open spec fn is_first_out_of_bounds(m: MipmapLayout, tiled_len: int, e: int) -> bool {
    &&& 0 <= e < elem_count(m)
    &&& elem_end(m, e) > tiled_len
    &&& forall|j: int| 0 <= j < e ==> #[trigger] elem_end(m, j) <= tiled_len
}

/// The first element whose tiled bytes exceed `tiled_len` bytes.
pub open spec fn first_out_of_bounds(m: MipmapLayout, tiled_len: int) -> int {
    choose|e: int| is_first_out_of_bounds(m, tiled_len, e)
}

/// A size as a `usize`, saturated at `usize::MAX`.
pub open spec fn sat_usize(x: int) -> usize {
    if x > usize::MAX {
        usize::MAX
    } else {
        x as usize
    }
}

/// The error for the first element that does not fit in `tiled_len` bytes.
pub open spec fn out_of_bounds_error(m: MipmapLayout, tiled_len: int) -> SwizzleError {
    SwizzleError::NotEnoughData {
        expected_size: sat_usize(elem_end(m, first_out_of_bounds(m, tiled_len))),
        actual_size: tiled_len as usize,
    }
}

/// The linear layout read from the tiled bytes `source`: byte `k` is byte
/// `k % bpp` of element `k / bpp`, which starts at that element's tiled address.
pub open spec fn deswizzled_bytes(m: MipmapLayout, source: Seq<u8>) -> Seq<u8> {
    let bpp = (m.bytes_per_pixel as int);
    Seq::new(
        linear_size(m) as nat,
        |k: int| source[elem_addr(m, k / bpp) + k % bpp],
    )
}

/// `s` with `len` bytes of `source` from `src` on written at `dst`.
pub open spec fn write_bytes(s: Seq<u8>, dst: int, source: Seq<u8>, src: int, len: int) -> Seq<u8> {
    Seq::new(s.len(), |j: int| if dst <= j < dst + len { source[src + j - dst] } else { s[j] })
}

/// The tiled layout of `size` bytes after the first `k` elements of the linear
/// bytes `source` are written in order, starting from zeros.
pub open spec fn swizzled_bytes(m: MipmapLayout, source: Seq<u8>, size: nat, k: nat) -> Seq<u8>
    decreases k,
{
    if k == 0 {
        Seq::new(size, |j: int| 0u8)
    } else {
        let e = k - 1;
        write_bytes(
            swizzled_bytes(m, source, size, (k - 1) as nat),
            elem_addr(m, e),
            source,
            e * m.bytes_per_pixel,
            (m.bytes_per_pixel as int),
        )
    }
}

/// What [deswizzle_mipmap] returns for the tiled bytes `source`.
pub open spec fn deswizzle_result(
    m: MipmapLayout,
    source: Seq<u8>,
) -> Result<Seq<u8>, SwizzleError> {
    if linear_size(m) == 0 {
        Ok(Seq::empty())
    } else if source.len() < swizzled_size(m) {
        Err(
            SwizzleError::NotEnoughData {
                expected_size: sat_usize(swizzled_size(m)),
                actual_size: source.len() as usize,
            },
        )
    } else if !all_in_bounds(m, source.len() as int) {
        Err(out_of_bounds_error(m, source.len() as int))
    } else {
        Ok(deswizzled_bytes(m, source))
    }
}

/// The size of the tiled bytes that [swizzle_mipmap] fills: the tiled size,
/// bounded by the largest size a buffer can have.
pub open spec fn tiled_size(m: MipmapLayout) -> int {
    sat_usize(swizzled_size(m)) as int
}

/// What [swizzle_mipmap] returns for the linear bytes `source`.
pub open spec fn swizzle_result(m: MipmapLayout, source: Seq<u8>) -> Result<Seq<u8>, SwizzleError> {
    let size = tiled_size(m);
    if size == 0 {
        Ok(Seq::empty())
    } else if source.len() < linear_size(m) {
        Err(
            SwizzleError::NotEnoughData {
                expected_size: linear_size(m) as usize,
                actual_size: source.len() as usize,
            },
        )
    } else if !all_in_bounds(m, size) {
        Err(out_of_bounds_error(m, size))
    } else {
        Ok(swizzled_bytes(m, source, size as nat, elem_count(m) as nat))
    }
}

/// Whether a `Result` of bytes in a `Vec` is the `Result` of bytes `s`.
pub open spec fn result_is(
    r: Result<Vec<u8>, SwizzleError>,
    s: Result<Seq<u8>, SwizzleError>,
) -> bool {
    match r {
        Ok(v) => s == Ok::<Seq<u8>, SwizzleError>(v@),
        Err(e) => s == Err::<Seq<u8>, SwizzleError>(e),
    }
}

/// The first element out of bounds is unique.
proof fn lemma_first_out_of_bounds(m: MipmapLayout, tiled_len: int, e: int)
    requires
        is_first_out_of_bounds(m, tiled_len, e),
    ensures
        first_out_of_bounds(m, tiled_len) == e,
        !all_in_bounds(m, tiled_len),
{
    let f = first_out_of_bounds(m, tiled_len);
    assert(is_first_out_of_bounds(m, tiled_len, f));
    if f < e {
        assert(elem_end(m, f) <= tiled_len);
    } else if e < f {
        assert(elem_end(m, e) <= tiled_len);
    }
}

/// Byte `k` of element `e` in the linear layout.
proof fn lemma_elem_byte(e: int, i: int, bpp: int)
    requires
        0 <= e,
        0 <= i < bpp,
    ensures
        (e * bpp + i) / bpp == e,
        (e * bpp + i) % bpp == i,
{
    lemma_fundamental_div_mod_converse(e * bpp + i, bpp, e, i);
}

/// Rounds `x / d` up.
pub fn div_round_up(x: u32, d: u32) -> (r: u32)
    requires
        d > 0,
    ensures
        r == (x + d - 1) / d as int,
{
    let q = x / d;
    let rem = x % d;
    proof {
        lemma_fundamental_div_mod(x as int, d as int);
        lemma_mod_pos_bound(x as int, d as int);
        if rem == 0 {
            lemma_fundamental_div_mod_converse(x + d - 1, d as int, q as int, d - 1);
        } else {
            assert((q + 1) * d == q * d + d && q < 0xffff_ffff) by (nonlinear_arith)
                requires
                    x == d * q + rem,
                    rem > 0,
                    d >= 1,
                    x <= 0xffff_ffff,
                    q >= 0,
            ;
            lemma_fundamental_div_mod_converse(x + d - 1, d as int, q + 1, rem - 1);
        }
    }
    if rem != 0 {
        q + 1
    } else {
        q
    }
}

/// The size in bytes of the linear layout of a mipmap.
pub fn deswizzled_mipmap_size(
    width: u32,
    height: u32,
    depth_or_array_layers: u32,
    bytes_per_pixel: u32,
) -> (r: usize)
    requires
        width * height * depth_or_array_layers * bytes_per_pixel <= usize::MAX,
    ensures
        r == width * height * depth_or_array_layers * bytes_per_pixel,
{
    if width == 0 || height == 0 || depth_or_array_layers == 0 || bytes_per_pixel == 0 {
        proof {
            lemma_product_zero(width as int, height as int, depth_or_array_layers as int, bytes_per_pixel as int);
        }
        return 0;
    }
    proof {
        lemma_prefix_products(width as int, height as int, depth_or_array_layers as int, bytes_per_pixel as int);
    }
    width as usize * height as usize * depth_or_array_layers as usize * bytes_per_pixel as usize
}

proof fn lemma_product_zero(a: int, b: int, c: int, d: int)
    requires
        a == 0 || b == 0 || c == 0 || d == 0,
    ensures
        a * b * c * d == 0,
{
    assert(a * b * c * d == 0) by (nonlinear_arith)
        requires a == 0 || b == 0 || c == 0 || d == 0;
}

/// With positive factors, each prefix of a product is at most the product.
proof fn lemma_prefix_products(a: int, b: int, c: int, d: int)
    requires
        a >= 1,
        b >= 1,
        c >= 1,
        d >= 1,
    ensures
        a * b <= a * b * c,
        a * b * c <= a * b * c * d,
        a <= a * b,
{
    assert(a * b <= a * b * c && a * b * c <= a * b * c * d && a <= a * b) by (nonlinear_arith)
        requires a >= 1, b >= 1, c >= 1, d >= 1;
}

/// The size in bytes of the tiled layout of a mipmap: the end of the element at
/// the far corner.
fn swizzled_mipmap_size(
    width: u32,
    height: u32,
    depth_or_array_layers: u32,
    swizzle: u32,
    pitch: u32,
    tile_mode: TileMode,
    bytes_per_pixel: u32,
    aa: AaMode,
) -> (r: u64)
    ensures
        r == swizzled_size(
            layout(width, height, depth_or_array_layers, swizzle, pitch, tile_mode, bytes_per_pixel, aa),
        ),
{
    if width == 0 || height == 0 || depth_or_array_layers == 0 || bytes_per_pixel == 0 {
        return 0;
    }
    let (pipe_swizzle, bank_swizzle) = pipe_bank_swizzle(swizzle);
    let p_in = ComputeSurfaceAddrFromCoordInput {
        x: width - 1,
        y: height - 1,
        slice: depth_or_array_layers - 1,
        sample: 0,
        bpp: bytes_per_pixel.wrapping_mul(u8::BITS),
        pitch,
        height,
        num_slices: depth_or_array_layers,
        num_samples: aa.num_samples(),
        tile_mode,
        is_depth: false,
        tile_base: 0,
        comp_bits: 0,
        pipe_swizzle,
        bank_swizzle,
    };
    dispatch_compute_surface_addrfrom_coord(&p_in) as u64 + bytes_per_pixel as u64
}

/// Stepping the coordinate keeps it within the box and advances its linear index by one.
proof fn lemma_next_coord(w: int, h: int, x: int, y: int, z: int, e: int)
    requires
        0 <= x < w,
        0 <= y < h,
        0 <= z,
        e == z * w * h + y * w + x,
    ensures
        x + 1 < w ==> e + 1 == z * w * h + y * w + (x + 1),
        x + 1 >= w && y + 1 < h ==> e + 1 == z * w * h + (y + 1) * w,
        x + 1 >= w && y + 1 >= h ==> e + 1 == (z + 1) * w * h,
{
    if x + 1 >= w && y + 1 < h {
        assert((y + 1) * w == y * w + w) by (nonlinear_arith);
    }
    if x + 1 >= w && y + 1 >= h {
        assert((z + 1) * w * h == z * w * h + (h - 1) * w + w) by (nonlinear_arith)
            requires y == h - 1;
    }
}

/// The element with linear index `e` of a `w` by `h` by `d` mipmap sits at
/// `(x, y, z)` with `e == (z * h + y) * w + x`, inside the mipmap.
pub proof fn lemma_coord_index(w: u32, h: u32, d: u32, e: nat)
    requires
        e < w * h * d,
    ensures
        coord(w, h, e).0 < w,
        coord(w, h, e).1 < h,
        coord(w, h, e).2 < d,
        e == coord(w, h, e).2 * w * h + coord(w, h, e).1 * w + coord(w, h, e).0,
    decreases e,
{
    assert(w > 0 && h > 0 && d > 0) by (nonlinear_arith)
        requires
            e < w * h * d,
            e >= 0,
    ;
    if e > 0 {
        let prev = (e - 1) as nat;
        lemma_coord_index(w, h, d, prev);
        let c = coord(w, h, prev);
        lemma_next_coord(w as int, h as int, c.0 as int, c.1 as int, c.2 as int, prev as int);
        if c.0 + 1 >= w && c.1 + 1 >= h {
            assert(c.2 + 1 < d) by (nonlinear_arith)
                requires
                    e == (c.2 + 1) * w * h,
                    e < w * h * d,
                    w >= 1,
                    h >= 1,
            ;
        }
        let n = coord(w, h, e);
        assert(n == next_coord(w, h, c));
        lemma_index_in_box(w as int, h as int, d as int, n.0 as int, n.1 as int, n.2 as int, e as int);
    } else {
        assert(0 == 0 * w * h + 0 * w + 0) by (nonlinear_arith);
    }
}

/// The last element of a mipmap sits at its far corner.
proof fn lemma_last_coord(w: u32, h: u32, d: u32)
    requires
        w > 0,
        h > 0,
        d > 0,
    ensures
        w * h * d >= 1,
        coord(w, h, (w * h * d - 1) as nat) == ((w - 1) as u32, (h - 1) as u32, (d - 1) as u32),
{
    assert(w * h * d >= 1 && w * h >= 1) by (nonlinear_arith)
        requires
            w >= 1,
            h >= 1,
            d >= 1,
    ;
    let e = w * h * d - 1;
    lemma_coord_index(w, h, d, e as nat);
    let c = coord(w, h, e as nat);
    let (x, y, z) = (c.0 as int, c.1 as int, c.2 as int);
    let wh = w * h;
    assert(w * h * d == wh * d && z * w * h == z * wh) by (nonlinear_arith)
        requires
            wh == w * h,
    ;
    assert(y * w + x <= wh - 1) by (nonlinear_arith)
        requires
            0 <= x < w,
            0 <= y < h,
            wh == w * h,
    ;
    assert(z == d - 1) by (nonlinear_arith)
        requires
            e == z * wh + y * w + x,
            e == wh * d - 1,
            0 <= y * w + x <= wh - 1,
            0 <= z < d,
            wh >= 1,
    ;
    assert(y * w + x == wh - 1) by (nonlinear_arith)
        requires
            e == z * wh + y * w + x,
            e == wh * d - 1,
            z == d - 1,
    ;
    assert(y == h - 1) by (nonlinear_arith)
        requires
            y * w + x == w * h - 1,
            0 <= x < w,
            0 <= y < h,
    ;
    assert(x == w - 1) by (nonlinear_arith)
        requires
            y * w + x == w * h - 1,
            y == h - 1,
    ;
}

/// An element index below the count lies in a slice below the depth.
proof fn lemma_index_in_box(w: int, h: int, d: int, x: int, y: int, z: int, e: int)
    requires
        0 <= x < w,
        0 <= y < h,
        0 <= z,
        e == z * w * h + y * w + x,
        e < w * h * d,
    ensures
        z < d,
{
    if z >= d {
        assert(z * w * h >= d * w * h) by (nonlinear_arith)
            requires z >= d, w >= 1, h >= 1;
        assert(w * h * d == d * w * h) by (nonlinear_arith);
    }
}

/// Copies the `bpp` tiled bytes of an element at `addr` to its linear place `lin`.
fn copy_to_linear(
    m: Ghost<MipmapLayout>,
    e: Ghost<int>,
    source: &[u8],
    output: &mut Vec<u8>,
    addr: usize,
    lin: usize,
    bpp: usize,
)
    requires
        addr + bpp <= source@.len(),
        addr + bpp <= usize::MAX,
        bpp == m@.bytes_per_pixel,
        bpp > 0,
        0 <= e@,
        lin == e@ * bpp,
        lin + bpp <= old(output)@.len(),
        lin + bpp <= usize::MAX,
        addr == elem_addr(m@, e@),
        old(output)@.len() == linear_size(m@),
        forall|k: int| 0 <= k < lin ==> old(output)@[k] == #[trigger] deswizzled_bytes(m@, source@)[k],
    ensures
        final(output)@.len() == old(output)@.len(),
        forall|k: int| 0 <= k < lin + bpp ==> final(output)@[k] == #[trigger] deswizzled_bytes(m@, source@)[k],
{
    let mut i: usize = 0;
    while i < bpp
        invariant
            i <= bpp,
            addr + bpp <= source@.len(),
            addr + bpp <= usize::MAX,
            bpp == m@.bytes_per_pixel,
            0 <= e@,
            lin == e@ * bpp,
            lin + bpp <= output@.len(),
            lin + bpp <= usize::MAX,
            addr == elem_addr(m@, e@),
            output@.len() == linear_size(m@),
            forall|k: int| 0 <= k < lin + i ==> output@[k] == #[trigger] deswizzled_bytes(m@, source@)[k],
        decreases bpp - i,
    {
        proof {
            lemma_elem_byte(e@, i as int, bpp as int);
        }
        output.set(lin + i, source[addr + i]);
        i = i + 1;
    }
}

/// Writes the `bpp` linear bytes of element `e` at `lin` to its tiled place `addr`.
fn copy_to_tiled(
    m: Ghost<MipmapLayout>,
    e: Ghost<int>,
    source: &[u8],
    output: &mut Vec<u8>,
    addr: usize,
    lin: usize,
    bpp: usize,
)
    requires
        addr + bpp <= old(output)@.len(),
        addr + bpp <= usize::MAX,
        lin + bpp <= source@.len(),
        lin + bpp <= usize::MAX,
        bpp == m@.bytes_per_pixel,
        0 <= e@,
        lin == e@ * bpp,
        addr == elem_addr(m@, e@),
        old(output)@ == swizzled_bytes(m@, source@, old(output)@.len(), e@ as nat),
    ensures
        final(output)@ == swizzled_bytes(m@, source@, old(output)@.len(), (e@ + 1) as nat),
{
    let ghost before = output@;
    let mut i: usize = 0;
    while i < bpp
        invariant
            i <= bpp,
            addr + bpp <= before.len(),
            addr + bpp <= usize::MAX,
            lin + bpp <= source@.len(),
            lin + bpp <= usize::MAX,
            output@ == write_bytes(before, addr as int, source@, lin as int, i as int),
        decreases bpp - i,
    {
        output.set(addr + i, source[lin + i]);
        i = i + 1;
        assert(output@ =~= write_bytes(before, addr as int, source@, lin as int, i as int));
    }
    assert(output@ =~= write_bytes(before, addr as int, source@, lin as int, bpp as int));
}

/// Converts every element of a mipmap between the tiled and the linear layout:
/// to the tiled layout in `output` where `to_tiled`, else to the linear layout.
fn swizzle_surface_inner(
    to_tiled: bool,
    width: u32,
    height: u32,
    depth_or_array_layers: u32,
    source: &[u8],
    output: &mut Vec<u8>,
    swizzle: u32,
    pitch: u32,
    tile_mode: TileMode,
    bytes_per_pixel: u32,
    aa: AaMode,
) -> (r: Result<(), SwizzleError>)
    requires
        linear_size(layout(width, height, depth_or_array_layers, swizzle, pitch, tile_mode, bytes_per_pixel, aa)) <= usize::MAX,
        bytes_per_pixel > 0,
        to_tiled ==> source@.len() >= linear_size(
            layout(width, height, depth_or_array_layers, swizzle, pitch, tile_mode, bytes_per_pixel, aa),
        ),
        to_tiled ==> old(output)@ == Seq::new(old(output)@.len(), |j: int| 0u8),
        !to_tiled ==> old(output)@.len() == linear_size(
            layout(width, height, depth_or_array_layers, swizzle, pitch, tile_mode, bytes_per_pixel, aa),
        ),
    ensures
        final(output)@.len() == old(output)@.len(),
        r is Ok <==> all_in_bounds(
            layout(width, height, depth_or_array_layers, swizzle, pitch, tile_mode, bytes_per_pixel, aa),
            if to_tiled { old(output)@.len() as int } else { source@.len() as int },
        ),
        r matches Err(err) ==> err == out_of_bounds_error(
            layout(width, height, depth_or_array_layers, swizzle, pitch, tile_mode, bytes_per_pixel, aa),
            if to_tiled { old(output)@.len() as int } else { source@.len() as int },
        ),
        r is Ok && to_tiled ==> final(output)@ == swizzled_bytes(
            layout(width, height, depth_or_array_layers, swizzle, pitch, tile_mode, bytes_per_pixel, aa),
            source@,
            old(output)@.len(),
            elem_count(layout(width, height, depth_or_array_layers, swizzle, pitch, tile_mode, bytes_per_pixel, aa)) as nat,
        ),
        r is Ok && !to_tiled ==> final(output)@ == deswizzled_bytes(
            layout(width, height, depth_or_array_layers, swizzle, pitch, tile_mode, bytes_per_pixel, aa),
            source@,
        ),
{
    let ghost m = layout(width, height, depth_or_array_layers, swizzle, pitch, tile_mode, bytes_per_pixel, aa);
    let ghost out0 = output@;
    let (pipe_swizzle, bank_swizzle) = pipe_bank_swizzle(swizzle);
    let num_samples = aa.num_samples();
    let bpp = bytes_per_pixel.wrapping_mul(u8::BITS);
    let tiled_len = if to_tiled { output.len() } else { source.len() };
    if width == 0 || height == 0 || depth_or_array_layers == 0 {
        proof {
            assert(width * height * depth_or_array_layers == 0 && width * height
                * depth_or_array_layers * bytes_per_pixel == 0) by (nonlinear_arith)
                requires
                    width == 0 || height == 0 || depth_or_array_layers == 0,
            ;
            if !to_tiled {
                assert(output@ =~= deswizzled_bytes(m, source@));
            }
        }
        return Ok(());
    }
    proof {
        lemma_prefix_products(width as int, height as int, depth_or_array_layers as int, bytes_per_pixel as int);
        assert(elem_count(m) <= linear_size(m)) by (nonlinear_arith)
            requires
                elem_count(m) == width * height * depth_or_array_layers,
                linear_size(m) == elem_count(m) * bytes_per_pixel,
                bytes_per_pixel >= 1,
                elem_count(m) >= 0,
        ;
    }
    let count = width as usize * height as usize * depth_or_array_layers as usize;
    let bpp_bytes = bytes_per_pixel as usize;
    assert(0 == 0 * width * height + 0 * width + 0) by (nonlinear_arith);
    let mut e: usize = 0;
    let mut lin: usize = 0;
    let mut x: u32 = 0;
    let mut y: u32 = 0;
    let mut z: u32 = 0;
    while e < count
        invariant
            count == elem_count(m),
            count * bpp_bytes == linear_size(m),
            linear_size(m) <= usize::MAX,
            bpp_bytes == bytes_per_pixel,
            bpp_bytes > 0,
            bpp == bytes_per_pixel.wrapping_mul(8),
            m == layout(width, height, depth_or_array_layers, swizzle, pitch, tile_mode, bytes_per_pixel, aa),
            (pipe_swizzle, bank_swizzle) == spec_pipe_bank_swizzle(swizzle),
            num_samples == aa.samples(),
            width > 0,
            height > 0,
            e <= count,
            lin == e * bpp_bytes,
            x < width,
            y < height,
            e == z * width * height + y * width + x,
            (x, y, z) == coord(width, height, e as nat),
            output@.len() == out0.len(),
            out0 == old(output)@,
            tiled_len == if to_tiled { out0.len() as int } else { source@.len() as int },
            to_tiled ==> source@.len() >= linear_size(m),
            !to_tiled ==> out0.len() == linear_size(m),
            forall|j: int| 0 <= j < e ==> #[trigger] elem_end(m, j) <= tiled_len,
            to_tiled ==> output@ == swizzled_bytes(m, source@, out0.len(), e as nat),
            !to_tiled ==> forall|k: int|
                0 <= k < lin ==> output@[k] == #[trigger] deswizzled_bytes(m, source@)[k],
        decreases count - e,
    {
        proof {
            lemma_index_in_box(width as int, height as int, depth_or_array_layers as int, x as int, y as int, z as int, e as int);
            assert(lin + bpp_bytes <= linear_size(m)) by (nonlinear_arith)
                requires
                    lin == e * bpp_bytes,
                    e < count,
                    count * bpp_bytes == linear_size(m),
            ;
        }
        let p_in = ComputeSurfaceAddrFromCoordInput {
            x,
            y,
            slice: z,
            sample: 0,
            bpp,
            pitch,
            height,
            num_slices: depth_or_array_layers,
            num_samples,
            tile_mode,
            is_depth: false,
            tile_base: 0,
            comp_bits: 0,
            pipe_swizzle,
            bank_swizzle,
        };
        let address = dispatch_compute_surface_addrfrom_coord(&p_in);
        assert(p_in == addr_input(m, x, y, z));
        assert(address == elem_addr(m, e as int));
        let end = address as u64 + bytes_per_pixel as u64;
        if end > tiled_len as u64 {
            proof {
                lemma_first_out_of_bounds(m, tiled_len as int, e as int);
            }
            let expected_size = if end > usize::MAX as u64 { usize::MAX } else { end as usize };
            return Err(SwizzleError::NotEnoughData { expected_size, actual_size: tiled_len });
        }
        if to_tiled {
            copy_to_tiled(Ghost(m), Ghost(e as int), source, output, address as usize, lin, bpp_bytes);
        } else {
            copy_to_linear(Ghost(m), Ghost(e as int), source, output, address as usize, lin, bpp_bytes);
        }
        proof {
            lemma_next_coord(width as int, height as int, x as int, y as int, z as int, e as int);
        }
        if x + 1 < width {
            x = x + 1;
            assert(e + 1 == z * width * height + y * width + x);
        } else if y + 1 < height {
            x = 0;
            y = y + 1;
            assert(e + 1 == z * width * height + y * width + x);
        } else {
            x = 0;
            y = 0;
            z = z + 1;
            assert(e + 1 == z * width * height + y * width + x);
        }
        proof {
            assert((e + 1) * bpp_bytes == e * bpp_bytes + bpp_bytes) by (nonlinear_arith);
        }
        e = e + 1;
        lin = lin + bpp_bytes;
    }
    proof {
        assert(all_in_bounds(m, tiled_len as int));
        if !to_tiled {
            assert(output@ =~= deswizzled_bytes(m, source@));
        }
    }
    Ok(())
}

/// Converts the tiled data in `source` to the linear layout.
///
/// For block compressed formats, `width` and `height` are the dimensions in blocks
/// and `bytes_per_pixel` is the size of a block in bytes.
///
/// A mipmap without bytes gives an empty vector without reading `source`.
/// Otherwise the result holds `width * height * depth_or_array_layers` elements in
/// x, y, z order, each read from its tiled address. `NotEnoughData` reports a
/// `source` shorter than the end of the element at the far corner, or else the
/// first element whose tiled bytes lie past the end of `source`.
pub fn deswizzle_mipmap(
    width: u32,
    height: u32,
    depth_or_array_layers: u32,
    source: &[u8],
    swizzle: u32,
    pitch: u32,
    tile_mode: TileMode,
    bytes_per_pixel: u32,
    aa: AaMode,
) -> (r: Result<Vec<u8>, SwizzleError>)
    requires
        width * height * depth_or_array_layers * bytes_per_pixel <= usize::MAX,
    ensures
        result_is(
            r,
            deswizzle_result(
                layout(width, height, depth_or_array_layers, swizzle, pitch, tile_mode, bytes_per_pixel, aa),
                source@,
            ),
        ),
{
    let ghost m = layout(width, height, depth_or_array_layers, swizzle, pitch, tile_mode, bytes_per_pixel, aa);
    let output_size = deswizzled_mipmap_size(width, height, depth_or_array_layers, bytes_per_pixel);
    if output_size == 0 {
        let empty: Vec<u8> = Vec::new();
        assert(empty@ =~= Seq::<u8>::empty());
        return Ok(empty);
    }
    proof {
        if bytes_per_pixel == 0 {
            lemma_product_zero(width as int, height as int, depth_or_array_layers as int, 0);
        }
    }
    let expected_size = swizzled_mipmap_size(
        width,
        height,
        depth_or_array_layers,
        swizzle,
        pitch,
        tile_mode,
        bytes_per_pixel,
        aa,
    );
    if (source.len() as u64) < expected_size {
        let expected_size = if expected_size > usize::MAX as u64 {
            usize::MAX
        } else {
            expected_size as usize
        };
        return Err(SwizzleError::NotEnoughData { expected_size, actual_size: source.len() });
    }
    let mut output = vec![0u8; output_size];
    match swizzle_surface_inner(
        false,
        width,
        height,
        depth_or_array_layers,
        source,
        &mut output,
        swizzle,
        pitch,
        tile_mode,
        bytes_per_pixel,
        aa,
    ) {
        Ok(()) => Ok(output),
        Err(e) => Err(e),
    }
}

/// Converts the linear data in `source` to the tiled layout.
///
/// For block compressed formats, `width` and `height` are the dimensions in blocks
/// and `bytes_per_pixel` is the size of a block in bytes.
///
/// The result is as long as the end of the element at the far corner, zero-filled,
/// with each element written at its tiled address in x, y, z order. A mipmap
/// without bytes gives an empty vector. `NotEnoughData` reports a `source` shorter
/// than the linear size, or else the first element whose tiled bytes lie past the
/// end of the result.
pub fn swizzle_mipmap(
    width: u32,
    height: u32,
    depth_or_array_layers: u32,
    source: &[u8],
    swizzle: u32,
    pitch: u32,
    tile_mode: TileMode,
    bytes_per_pixel: u32,
    aa: AaMode,
) -> (r: Result<Vec<u8>, SwizzleError>)
    requires
        width * height * depth_or_array_layers * bytes_per_pixel <= usize::MAX,
    ensures
        result_is(
            r,
            swizzle_result(
                layout(width, height, depth_or_array_layers, swizzle, pitch, tile_mode, bytes_per_pixel, aa),
                source@,
            ),
        ),
{
    let ghost m = layout(width, height, depth_or_array_layers, swizzle, pitch, tile_mode, bytes_per_pixel, aa);
    let tiled_size = swizzled_mipmap_size(
        width,
        height,
        depth_or_array_layers,
        swizzle,
        pitch,
        tile_mode,
        bytes_per_pixel,
        aa,
    );
    if tiled_size == 0 {
        let empty: Vec<u8> = Vec::new();
        assert(empty@ =~= Seq::<u8>::empty());
        return Ok(empty);
    }
    let expected_size = deswizzled_mipmap_size(width, height, depth_or_array_layers, bytes_per_pixel);
    if source.len() < expected_size {
        return Err(SwizzleError::NotEnoughData { expected_size, actual_size: source.len() });
    }
    let output_size = if tiled_size > usize::MAX as u64 {
        usize::MAX
    } else {
        tiled_size as usize
    };
    let mut output = vec![0u8; output_size];
    assert(output@ =~= Seq::new(output@.len(), |j: int| 0u8));
    match swizzle_surface_inner(
        true,
        width,
        height,
        depth_or_array_layers,
        source,
        &mut output,
        swizzle,
        pitch,
        tile_mode,
        bytes_per_pixel,
        aa,
    ) {
        Ok(()) => Ok(output),
        Err(e) => Err(e),
    }
}

/// Whether the tiled bytes of distinct elements never overlap.
pub open spec fn elements_disjoint(m: MipmapLayout) -> bool {
    forall|a: int, b: int|
        0 <= a < elem_count(m) && 0 <= b < elem_count(m) && a != b ==> #[trigger] elem_end(m, a)
            <= elem_addr(m, b) || #[trigger] elem_end(m, b) <= elem_addr(m, a)
}

/// Byte `k` of the linear layout is byte `k % bpp` of element `k / bpp`.
proof fn lemma_linear_byte(m: MipmapLayout, k: int)
    requires
        0 <= k < linear_size(m),
    ensures
        m.bytes_per_pixel > 0,
        0 <= k / (m.bytes_per_pixel as int) < elem_count(m),
        0 <= k % (m.bytes_per_pixel as int) < m.bytes_per_pixel,
        k == (k / (m.bytes_per_pixel as int)) * m.bytes_per_pixel + k % (m.bytes_per_pixel as int),
{
    let b = (m.bytes_per_pixel as int);
    if b == 0 {
        assert(linear_size(m) == 0) by (nonlinear_arith)
            requires
                linear_size(m) == elem_count(m) * b,
                b == 0,
        ;
    }
    lemma_fundamental_div_mod(k, b);
    lemma_mod_pos_bound(k, b);
    let q = k / b;
    let r = k % b;
    assert(0 <= q < elem_count(m)) by (nonlinear_arith)
        requires
            k == b * q + r,
            0 <= r < b,
            0 <= k < elem_count(m) * b,
            elem_count(m) >= 0,
    ;
}

/// After the first `j` elements are written, each of them reads back from its place.
proof fn lemma_written_elements(m: MipmapLayout, linear: Seq<u8>, size: nat, j: nat)
    requires
        j <= elem_count(m),
        all_in_bounds(m, size as int),
        elements_disjoint(m),
    ensures
        swizzled_bytes(m, linear, size, j).len() == size,
        forall|e: int, i: int|
            0 <= e < j && 0 <= i < m.bytes_per_pixel ==> #[trigger] swizzled_bytes(m, linear, size, j)[elem_addr(m, e) + i]
                == linear[e * m.bytes_per_pixel + i],
    decreases j,
{
    if j > 0 {
        let prev = (j - 1) as nat;
        lemma_written_elements(m, linear, size, prev);
        let s = swizzled_bytes(m, linear, size, j);
        assert forall|e: int, i: int|
            0 <= e < j && 0 <= i < m.bytes_per_pixel implies #[trigger] s[elem_addr(m, e) + i]
                == linear[e * m.bytes_per_pixel + i] by {
            let p = elem_addr(m, e) + i;
            assert(elem_end(m, e) <= size);
            assert(elem_end(m, prev as int) <= size);
            if e != prev {
                assert(elem_end(m, e) <= elem_addr(m, prev as int) || elem_end(m, prev as int)
                    <= elem_addr(m, e));
                assert(swizzled_bytes(m, linear, size, prev)[p] == linear[e * m.bytes_per_pixel + i]);
            }
        }
    }
}

/// Swizzling linear bytes and deswizzling the result gives back the linear bytes,
/// wherever the tiled bytes of distinct elements do not overlap.
pub proof fn lemma_round_trip(m: MipmapLayout, linear: Seq<u8>, tiled: Seq<u8>)
    requires
        linear_size(m) > 0,
        linear.len() == linear_size(m),
        swizzle_result(m, linear) == Ok::<Seq<u8>, SwizzleError>(tiled),
        elements_disjoint(m),
    ensures
        deswizzle_result(m, tiled) == Ok::<Seq<u8>, SwizzleError>(linear),
{
    assert(m.width != 0 && m.height != 0 && m.depth != 0 && m.bytes_per_pixel != 0) by {
        if m.width == 0 || m.height == 0 || m.depth == 0 || m.bytes_per_pixel == 0 {
            lemma_product_zero(m.width as int, m.height as int, m.depth as int, (m.bytes_per_pixel as int));
        }
    }
    let size = tiled_size(m);
    assert(all_in_bounds(m, size));
    assert(tiled == swizzled_bytes(m, linear, size as nat, elem_count(m) as nat));
    lemma_last_coord(m.width, m.height, m.depth);
    let last = elem_count(m) - 1;
    assert(elem_end(m, last) <= size);
    assert(elem_end(m, last) == swizzled_size(m));
    lemma_written_elements(m, linear, size as nat, elem_count(m) as nat);
    let d = deswizzled_bytes(m, tiled);
    assert forall|k: int| 0 <= k < linear.len() implies d[k] == linear[k] by {
        lemma_linear_byte(m, k);
        let b = (m.bytes_per_pixel as int);
        assert(tiled[elem_addr(m, k / b) + k % b] == linear[(k / b) * b + k % b]);
    }
    assert(d =~= linear);
}

/// The linear layout depends on the tiled bytes only through the bytes of each
/// element at its tiled address, and on the length of the tiled bytes.
pub proof fn lemma_deswizzle_independent(m: MipmapLayout, a: Seq<u8>, b: Seq<u8>)
    requires
        a.len() == b.len(),
        forall|e: int, i: int|
            0 <= e < elem_count(m) && 0 <= i < m.bytes_per_pixel ==> #[trigger] a[elem_addr(m, e)
                + i] == b[elem_addr(m, e) + i],
    ensures
        deswizzle_result(m, a) == deswizzle_result(m, b),
{
    if linear_size(m) > 0 {
        assert forall|k: int| 0 <= k < linear_size(m) implies deswizzled_bytes(m, a)[k]
            == deswizzled_bytes(m, b)[k] by {
            lemma_linear_byte(m, k);
        }
        assert(deswizzled_bytes(m, a) =~= deswizzled_bytes(m, b));
    }
}

/// Both conversions are functions of their arguments alone.
pub proof fn lemma_deterministic(m1: MipmapLayout, m2: MipmapLayout, a: Seq<u8>, b: Seq<u8>)
    requires
        m1 == m2,
        a == b,
    ensures
        deswizzle_result(m1, a) == deswizzle_result(m2, b),
        swizzle_result(m1, a) == swizzle_result(m2, b),
{
}

/// A successful deswizzle returns exactly `width * height * depth * bytes_per_pixel` bytes.
pub proof fn lemma_deswizzle_size(m: MipmapLayout, source: Seq<u8>)
    ensures
        deswizzle_result(m, source) matches Ok(out) ==> out.len() == linear_size(m),
{
}

/// A mipmap without bytes, whether for lack of elements or of bytes per element,
/// converts to an empty result in both directions, whatever the source holds.
pub proof fn lemma_empty(m: MipmapLayout, source: Seq<u8>)
    requires
        m.width == 0 || m.height == 0 || m.depth == 0 || m.bytes_per_pixel == 0,
    ensures
        linear_size(m) == 0,
        swizzled_size(m) == 0,
        deswizzle_result(m, source) == Ok::<Seq<u8>, SwizzleError>(Seq::empty()),
        swizzle_result(m, source) == Ok::<Seq<u8>, SwizzleError>(Seq::empty()),
{
    lemma_product_zero(m.width as int, m.height as int, m.depth as int, (m.bytes_per_pixel as int));
}

/// The element at `(x, y, z)` has linear index `(z * h + y) * w + x`.
proof fn lemma_coord_of_index(w: u32, h: u32, d: u32, x: u32, y: u32, z: u32)
    requires
        x < w,
        y < h,
        z < d,
    ensures
        z * w * h + y * w + x < w * h * d,
        coord(w, h, (z * w * h + y * w + x) as nat) == (x, y, z),
{
    let wh = w * h;
    let r = y * w + x;
    let e = z * w * h + r;
    assert(0 <= r < wh && e == z * wh + r && e < w * h * d && wh > 0 && r >= 0 && z * wh >= 0)
        by (nonlinear_arith)
        requires
            wh == w * h,
            r == y * w + x,
            e == z * w * h + r,
            x < w,
            y < h,
            z < d,
    ;
    lemma_coord_index(w, h, d, e as nat);
    let c = coord(w, h, e as nat);
    let r2 = c.1 * w + c.0;
    assert(0 <= r2 < wh && e == c.2 * wh + r2) by (nonlinear_arith)
        requires
            wh == w * h,
            r2 == c.1 * w + c.0,
            e == c.2 * w * h + c.1 * w + c.0,
            c.0 < w,
            c.1 < h,
    ;
    lemma_fundamental_div_mod_converse(e, wh, z as int, r);
    lemma_fundamental_div_mod_converse(e, wh, c.2 as int, r2);
    lemma_fundamental_div_mod_converse(r, w as int, y as int, x as int);
    lemma_fundamental_div_mod_converse(r, w as int, c.1 as int, c.0 as int);
}

/// Byte `i` of the element at `(x, y, z)` in the deswizzled bytes, at linear offset
/// `((z * h + y) * w + x) * bpp + i`, is byte `i` at that element's tiled address.
pub proof fn lemma_deswizzled_coord(m: MipmapLayout, source: Seq<u8>, x: u32, y: u32, z: u32, i: int)
    requires
        x < m.width,
        y < m.height,
        z < m.depth,
        0 <= i < m.bytes_per_pixel,
    ensures
        (z * m.height + y) * m.width + x == z * m.width * m.height + y * m.width + x,
        0 <= ((z * m.height + y) * m.width + x) * m.bytes_per_pixel + i < linear_size(m),
        deswizzled_bytes(m, source)[((z * m.height + y) * m.width + x) * m.bytes_per_pixel + i]
            == source[surface_addr(addr_input(m, x, y, z)) + i],
{
    let w = m.width as int;
    let h = m.height as int;
    let b = m.bytes_per_pixel as int;
    let e = z * w * h + y * w + x;
    assert((z * h + y) * w + x == e) by (nonlinear_arith)
        requires
            e == z * w * h + y * w + x,
    ;
    lemma_coord_of_index(m.width, m.height, m.depth, x, y, z);
    assert(0 <= e * b + i < linear_size(m)) by (nonlinear_arith)
        requires
            0 <= e < w * h * m.depth,
            0 <= i < b,
            linear_size(m) == w * h * m.depth * b,
    ;
    lemma_elem_byte(e, i, b);
}

/// Whether `m` is a linear layout whose pitch covers its width and whose bytes,
/// counted at the pitch, fit in 32 bits.
pub open spec fn is_fitting_linear(m: MipmapLayout) -> bool {
    &&& (m.tile_mode == TileMode::LinearGeneral || m.tile_mode == TileMode::LinearAligned)
    &&& m.width <= m.pitch
    &&& m.bytes_per_pixel > 0
    &&& m.pitch * m.height * m.depth * m.bytes_per_pixel * 8 <= u32::MAX
}

/// The position of `(x, y, z)` in a linear layout, in elements, rows of `pitch`.
pub open spec fn pitch_index(m: MipmapLayout, c: (u32, u32, u32)) -> int {
    c.2 * m.pitch * m.height + c.1 * m.pitch + c.0
}

proof fn lemma_exact_mul(a: u32, b: u32)
    requires
        a * b <= u32::MAX,
    ensures
        a.wrapping_mul(b) == a * b,
{
    assert(a * b >= 0) by (nonlinear_arith);
    lemma_small_mod((a * b) as nat, 0x1_0000_0000nat);
}

/// In a fitting linear layout, an element starts at its pitch index times its size.
proof fn lemma_linear_addr(m: MipmapLayout, x: u32, y: u32, z: u32)
    requires
        is_fitting_linear(m),
        x < m.width,
        y < m.height,
        z < m.depth,
    ensures
        surface_addr(addr_input(m, x, y, z)) == pitch_index(m, (x, y, z)) * m.bytes_per_pixel,
{
    let p = m.pitch as int;
    let h = m.height as int;
    let d = m.depth as int;
    let b = m.bytes_per_pixel as int;
    let ph = p * h;
    let l = z * ph + y * p + x;
    assert(pitch_index(m, (x, y, z)) == l) by (nonlinear_arith)
        requires
            ph == p * h,
            l == z * ph + y * p + x,
            pitch_index(m, (x, y, z)) == z * p * h + y * p + x,
    ;
    assert(ph * d * b * 8 <= u32::MAX) by (nonlinear_arith)
        requires
            ph == p * h,
            p * h * d * b * 8 <= u32::MAX,
    ;
    assert(ph <= ph * d * b * 8 && ph >= 0) by (nonlinear_arith)
        requires
            ph == p * h,
            p >= 0,
            h >= 0,
            d >= 1,
            b >= 1,
    ;
    assert(0 <= y * p + x < ph && ph >= 1) by (nonlinear_arith)
        requires
            ph == p * h,
            0 <= x < p,
            0 <= y < h,
    ;
    assert(0 <= l < ph * d && z * ph >= 0) by (nonlinear_arith)
        requires
            l == z * ph + y * p + x,
            0 <= y * p + x < ph,
            0 <= z < d,
    ;
    assert(l * (b * 8) <= ph * d * b * 8) by (nonlinear_arith)
        requires
            0 <= l < ph * d,
            b >= 1,
    ;
    assert(l * (b * 8) / 8 == l * b) by (nonlinear_arith)
        requires
            l >= 0,
            b >= 1,
    ;
    assert(b * 8 <= ph * d * b * 8 && ph * z <= ph * d * b * 8) by (nonlinear_arith)
        requires
            ph >= 1,
            d >= 1,
            b >= 1,
            0 <= z < d,
    ;
    lemma_exact_mul(m.bytes_per_pixel, 8);
    lemma_exact_mul(0, m.depth);
    lemma_exact_mul(m.pitch, m.height);
    lemma_exact_mul(m.pitch.wrapping_mul(m.height), z);
    lemma_exact_mul(y, m.pitch);
    let bpp8 = m.bytes_per_pixel.wrapping_mul(8);
    let ss = m.pitch.wrapping_mul(m.height);
    let zs = z.wrapping_add(0u32.wrapping_mul(m.depth));
    assert(zs == z);
    assert(ss * z == z * ph) by (nonlinear_arith)
        requires
            ss == ph,
    ;
    let so = ss.wrapping_mul(zs);
    assert(so == z * ph);
    assert(l <= u32::MAX) by (nonlinear_arith)
        requires
            0 <= l < ph * d,
            ph * d * b * 8 <= u32::MAX,
            b >= 1,
    ;
    let ro = y.wrapping_mul(m.pitch);
    assert(ro == y * p);
    let t1 = so.wrapping_add(ro);
    assert(t1 == z * ph + y * p);
    let t2 = t1.wrapping_add(x);
    assert(t2 == l);
    assert(t2 * bpp8 == l * (b * 8));
    lemma_exact_mul(t2, bpp8);
    let t3 = t2.wrapping_mul(bpp8);
    assert(t3 / 8 == l * b);
    assert(surface_addr(addr_input(m, x, y, z)) == t3 / 8);
}

/// In a fitting linear layout, each element lies at least one element past the
/// elements before it.
proof fn lemma_linear_order(m: MipmapLayout, a: int, b: int)
    requires
        is_fitting_linear(m),
        0 <= a <= b < elem_count(m),
    ensures
        pitch_index(m, coord(m.width, m.height, b as nat)) >= pitch_index(
            m,
            coord(m.width, m.height, a as nat),
        ) + (b - a),
    decreases b - a,
{
    if a < b {
        lemma_linear_order(m, a, b - 1);
        let c = coord(m.width, m.height, (b - 1) as nat);
        lemma_coord_index(m.width, m.height, m.depth, (b - 1) as nat);
        assert(coord(m.width, m.height, b as nat) == next_coord(m.width, m.height, c));
        let p = m.pitch as int;
        let h = m.height as int;
        let w = m.width as int;
        let (x, y, z) = (c.0 as int, c.1 as int, c.2 as int);
        if x + 1 >= w && y + 1 < h {
            assert((y + 1) * p >= y * p + x + 1) by (nonlinear_arith)
                requires
                    x < w <= p,
            ;
        } else if x + 1 >= w && y + 1 >= h {
            assert((z + 1) * p * h >= z * p * h + y * p + x + 1) by (nonlinear_arith)
                requires
                    x < w <= p,
                    y < h,
                    y + 1 >= h,
            ;
        }
    }
}

/// Each element of a fitting linear layout lies in its own bytes, before the end
/// of the element at the far corner.
pub proof fn lemma_linear_disjoint(m: MipmapLayout)
    requires
        is_fitting_linear(m),
        elem_count(m) > 0,
    ensures
        elements_disjoint(m),
        all_in_bounds(m, swizzled_size(m)),
        swizzled_size(m) <= u32::MAX,
{
    let b = m.bytes_per_pixel as int;
    assert(m.width > 0 && m.height > 0 && m.depth > 0) by (nonlinear_arith)
        requires
            elem_count(m) == m.width * m.height * m.depth,
            elem_count(m) > 0,
    ;
    assert forall|e: int| 0 <= e < elem_count(m) implies elem_addr(m, e) == pitch_index(
        m,
        coord(m.width, m.height, e as nat),
    ) * b by {
        lemma_coord_index(m.width, m.height, m.depth, e as nat);
        let c = coord(m.width, m.height, e as nat);
        lemma_linear_addr(m, c.0, c.1, c.2);
    }
    assert forall|e1: int, e2: int|
        0 <= e1 < elem_count(m) && 0 <= e2 < elem_count(m) && e1 != e2 implies #[trigger] elem_end(
        m,
        e1,
    ) <= elem_addr(m, e2) || #[trigger] elem_end(m, e2) <= elem_addr(m, e1) by {
        let (lo, hi) = if e1 < e2 {
            (e1, e2)
        } else {
            (e2, e1)
        };
        lemma_linear_order(m, lo, hi);
        let il = pitch_index(m, coord(m.width, m.height, lo as nat));
        let ih = pitch_index(m, coord(m.width, m.height, hi as nat));
        assert(il * b + b <= ih * b) by (nonlinear_arith)
            requires
                ih >= il + 1,
                b >= 1,
        ;
    }
    lemma_last_coord(m.width, m.height, m.depth);
    let last = elem_count(m) - 1;
    lemma_linear_addr(m, (m.width - 1) as u32, (m.height - 1) as u32, (m.depth - 1) as u32);
    assert forall|e: int| 0 <= e < elem_count(m) implies #[trigger] elem_end(m, e) <= swizzled_size(m) by {
        lemma_linear_order(m, e, last);
        let ie = pitch_index(m, coord(m.width, m.height, e as nat));
        let il = pitch_index(m, coord(m.width, m.height, last as nat));
        assert(ie * b <= il * b) by (nonlinear_arith)
            requires
                il >= ie,
                b >= 1,
        ;
    }
    let p = m.pitch as int;
    let h = m.height as int;
    let d = m.depth as int;
    let il = pitch_index(m, ((m.width - 1) as u32, (m.height - 1) as u32, (m.depth - 1) as u32));
    assert(il * b + b <= p * h * d * b * 8) by (nonlinear_arith)
        requires
            il == (d - 1) * p * h + (h - 1) * p + (m.width - 1),
            1 <= m.width <= p,
            h >= 1,
            d >= 1,
            b >= 1,
    ;
}

/// A fitting linear layout swizzles its linear bytes successfully, and
/// deswizzling the result gives them back.
pub proof fn lemma_linear_round_trip(m: MipmapLayout, linear: Seq<u8>)
    requires
        is_fitting_linear(m),
        linear_size(m) > 0,
        linear.len() == linear_size(m),
    ensures
        swizzle_result(m, linear) is Ok,
        deswizzle_result(m, swizzle_result(m, linear)->Ok_0) == Ok::<Seq<u8>, SwizzleError>(linear),
{
    assert(elem_count(m) > 0) by (nonlinear_arith)
        requires
            linear_size(m) == elem_count(m) * m.bytes_per_pixel,
            linear_size(m) > 0,
    ;
    lemma_linear_disjoint(m);
    assert(swizzled_size(m) > 0);
    lemma_round_trip(m, linear, swizzle_result(m, linear)->Ok_0);
}

} // verus!
