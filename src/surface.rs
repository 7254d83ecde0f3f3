//! Deswizzling of whole surfaces: every mip level and layer.
use vstd::prelude::*;

use crate::addrlib::{
    hwl_compute_surface_info, min_u32, surface_info, ComputeSurfaceInfoInput,
    ComputeSurfaceInfoOutput, SurfaceFlags, TileInfo, TileMode, TileType,
};
use crate::formats::{AaMode, SurfaceDim, SurfaceFormat};
use crate::swizzle::{
    deswizzle_mipmap, deswizzle_result, div_round_up, layout, result_is,
    MipmapLayout, SwizzleError,
};

verus! {

/// A view over a Wii U GX2 texture surface.
///
/// Most of these parameters are stored in texture files in exactly this form.
/// Where a value is missing from a file, like `usage` or `aa`, the usual
/// default gives the intended result.
#[derive(Debug)]
pub struct Gx2Surface<'a> {
    pub dim: SurfaceDim,
    /// The width of the base mip level in pixels.
    pub width: u32,
    /// The height of the base mip level in pixels.
    pub height: u32,
    /// The depth of the base mip level in pixels or the number of array layers.
    /// Cube maps have a value of 6; 2D surfaces without layers have a value of 1.
    pub depth_or_array_layers: u32,
    /// The number of mipmaps, or 1 if there are no additional mipmaps.
    pub mipmap_count: u32,
    /// The format of the image data.
    pub format: SurfaceFormat,
    /// The number of samples per pixel, most often [AaMode::X1].
    pub aa: AaMode,
    pub usage: u32,
    /// The image data of the base mip level.
    pub image_data: &'a [u8],
    /// The image data of the mip levels past the base level, starting with mip 1.
    /// Empty if there are no mipmaps.
    pub mipmap_data: &'a [u8],
    pub tile_mode: TileMode,
    /// Affects the upper bits of the swizzled address. Often 0.
    pub swizzle: u32,
    /// Usually `512 * bytes_per_pixel`.
    pub alignment: u32,
    /// The horizontal pitch in elements of the base level.
    pub pitch: u32,
    /// The offsets of the mip levels past the base level: the first is the size of
    /// the base level within `image_data`, the others are offsets within
    /// `mipmap_data` of mips 2 and on. Zero means "to the end".
    pub mipmap_offsets: [u32; 13],
}

/// The flags that the surface information is computed with for a dimension.
pub open spec fn dim_flags(dim: SurfaceDim) -> SurfaceFlags {
    SurfaceFlags {
        volume: dim == SurfaceDim::D3,
        cube: dim == SurfaceDim::Cube,
        ..no_flags()
    }
}

/// The flags with nothing set.
pub open spec fn no_flags() -> SurfaceFlags {
    SurfaceFlags {
        color: false,
        depth: false,
        stencil: false,
        texture: false,
        cube: false,
        volume: false,
        fmask: false,
        cube_as_array: false,
        compress_z: false,
        linear_wa: false,
        overlay: false,
        no_stencil: false,
        input_base_map: false,
        display: false,
        opt4_space: false,
        prt: false,
        qb_stereo: false,
        pow2_pad: false,
        reserved: false,
    }
}

fn surface_flags(dim: SurfaceDim) -> (r: SurfaceFlags)
    ensures
        r == dim_flags(dim),
{
    SurfaceFlags {
        color: false,
        depth: false,
        stencil: false,
        texture: false,
        cube: dim == SurfaceDim::Cube,
        volume: dim == SurfaceDim::D3,
        fmask: false,
        cube_as_array: false,
        compress_z: false,
        linear_wa: false,
        overlay: false,
        no_stencil: false,
        input_base_map: false,
        display: false,
        opt4_space: false,
        prt: false,
        qb_stereo: false,
        pow2_pad: false,
        reserved: false,
    }
}

/// The tile parameters with every field zero.
pub open spec fn no_tile_info() -> TileInfo {
    TileInfo { banks: 0, bank_width: 0, bank_height: 0, macro_aspect_ratio: 0, tile_split_bytes: 0 }
}

/// The offset of mip `k` in mip-major data: all layers of the mips before it.
pub open spec fn mip_major_offset(sizes: Seq<int>, layers: int, k: int) -> int
    decreases k,
{
    if k <= 0 {
        0
    } else {
        mip_major_offset(sizes, layers, k - 1) + layers * sizes[k - 1]
    }
}

/// Mips `0..k` of one layer, taken from mip-major data.
pub open spec fn layer_mips(
    sizes: Seq<int>,
    layers: int,
    data: Seq<u8>,
    layer: int,
    k: int,
) -> Seq<u8>
    decreases k,
{
    if k <= 0 {
        Seq::empty()
    } else {
        let start = mip_major_offset(sizes, layers, k - 1) + layer * sizes[k - 1];
        layer_mips(sizes, layers, data, layer, k - 1) + data.subrange(start, start + sizes[k - 1])
    }
}

/// Layers `0..n`, each with all its mips, taken from mip-major data.
pub open spec fn layers_upto(sizes: Seq<int>, layers: int, data: Seq<u8>, n: int) -> Seq<u8>
    decreases n,
{
    if n <= 0 {
        Seq::empty()
    } else {
        layers_upto(sizes, layers, data, n - 1) + layer_mips(sizes, layers, data, n - 1, sizes.len() as int)
    }
}

/// Mip-major data (all layers of mip 0, then of mip 1, ...) repacked to
/// layer-major order (all mips of layer 0, then of layer 1, ...), where mip `k`
/// of each layer has `sizes[k]` bytes.
pub open spec fn to_layer_major(sizes: Seq<int>, layers: int, data: Seq<u8>) -> Seq<u8> {
    layers_upto(sizes, layers, data, layers)
}

/// The offset of mip `k` within one layer of layer-major data.
pub open spec fn layer_offset(sizes: Seq<int>, k: int) -> int
    decreases k,
{
    if k <= 0 {
        0
    } else {
        layer_offset(sizes, k - 1) + sizes[k - 1]
    }
}

/// Layers `0..n` of mip `k`, taken from layer-major data.
pub open spec fn mip_layers(sizes: Seq<int>, blob: Seq<u8>, k: int, n: int) -> Seq<u8>
    decreases n,
{
    if n <= 0 {
        Seq::empty()
    } else {
        let start = (n - 1) * layer_offset(sizes, sizes.len() as int) + layer_offset(sizes, k);
        mip_layers(sizes, blob, k, n - 1) + blob.subrange(start, start + sizes[k])
    }
}

/// Mips `0..k`, each with all its layers, taken from layer-major data.
pub open spec fn mips_upto(sizes: Seq<int>, layers: int, blob: Seq<u8>, k: int) -> Seq<u8>
    decreases k,
{
    if k <= 0 {
        Seq::empty()
    } else {
        mips_upto(sizes, layers, blob, k - 1) + mip_layers(sizes, blob, k - 1, layers)
    }
}

/// Layer-major data repacked to mip-major order: the inverse of [to_layer_major].
pub open spec fn to_mip_major(sizes: Seq<int>, layers: int, blob: Seq<u8>) -> Seq<u8> {
    mips_upto(sizes, layers, blob, sizes.len() as int)
}

/// Whether `data` is mip-major data of `layers` layers with mips of `sizes` bytes per layer.
pub open spec fn is_mip_major(sizes: Seq<int>, layers: int, data: Seq<u8>) -> bool {
    &&& layers >= 0
    &&& forall|i: int| 0 <= i < sizes.len() ==> #[trigger] sizes[i] >= 0
    &&& data.len() == mip_major_offset(sizes, layers, sizes.len() as int)
}

proof fn lemma_layer_offset_nonnegative(sizes: Seq<int>, k: int)
    requires
        0 <= k <= sizes.len(),
        forall|i: int| 0 <= i < sizes.len() ==> #[trigger] sizes[i] >= 0,
    ensures
        layer_offset(sizes, k) >= 0,
    decreases k,
{
    if k > 0 {
        lemma_layer_offset_nonnegative(sizes, k - 1);
    }
}

proof fn lemma_layer_offsets_grow(sizes: Seq<int>, k: int, n: int)
    requires
        0 <= k <= n <= sizes.len(),
        forall|i: int| 0 <= i < sizes.len() ==> #[trigger] sizes[i] >= 0,
    ensures
        0 <= layer_offset(sizes, k) <= layer_offset(sizes, n),
    decreases n - k,
{
    lemma_layer_offset_nonnegative(sizes, k);
    if k < n {
        lemma_layer_offsets_grow(sizes, k + 1, n);
    }
}

/// Byte `j` of mip `m` in the first `k` mips of a layer.
proof fn lemma_layer_mips_byte(sizes: Seq<int>, layers: int, data: Seq<u8>, layer: int, k: int)
    requires
        is_mip_major(sizes, layers, data),
        0 <= layer < layers,
        0 <= k <= sizes.len(),
    ensures
        layer_mips(sizes, layers, data, layer, k).len() == layer_offset(sizes, k),
        forall|m: int, j: int|
            0 <= m < k && 0 <= j < sizes[m] ==> #[trigger] layer_mips(sizes, layers, data, layer, k)[layer_offset(sizes, m) + j]
                == data[mip_major_offset(sizes, layers, m) + layer * sizes[m] + j],
    decreases k,
{
    if k > 0 {
        lemma_layer_mips_byte(sizes, layers, data, layer, k - 1);
        let s = sizes[k - 1];
        let start = mip_major_offset(sizes, layers, k - 1) + layer * s;
        lemma_offsets_grow(sizes, layers, k, sizes.len() as int);
        lemma_offsets_nonnegative(sizes, layers, k - 1);
        assert(layer * s + s <= layers * s && layer * s >= 0) by (nonlinear_arith)
            requires
                0 <= layer < layers,
                s >= 0,
        ;
        let prev = layer_mips(sizes, layers, data, layer, k - 1);
        let all = layer_mips(sizes, layers, data, layer, k);
        assert(all == prev + data.subrange(start, start + s));
        assert forall|m: int, j: int|
            0 <= m < k && 0 <= j < sizes[m] implies #[trigger] all[layer_offset(sizes, m) + j]
                == data[mip_major_offset(sizes, layers, m) + layer * sizes[m] + j] by {
            lemma_layer_offset_nonnegative(sizes, m);
            if m < k - 1 {
                lemma_layer_offsets_grow(sizes, m + 1, k - 1);
                assert(prev[layer_offset(sizes, m) + j] == data[mip_major_offset(sizes, layers, m)
                    + layer * sizes[m] + j]);
            }
        }
    }
}

/// Byte `t` of layer `l` in the first `n` layers.
proof fn lemma_layers_upto_byte(sizes: Seq<int>, layers: int, data: Seq<u8>, n: int)
    requires
        is_mip_major(sizes, layers, data),
        0 <= n <= layers,
    ensures
        layers_upto(sizes, layers, data, n).len() == n * layer_offset(sizes, sizes.len() as int),
        forall|l: int, t: int|
            0 <= l < n && 0 <= t < layer_offset(sizes, sizes.len() as int) ==> #[trigger] layers_upto(sizes, layers, data, n)[l
                * layer_offset(sizes, sizes.len() as int) + t] == layer_mips(
                sizes,
                layers,
                data,
                l,
                sizes.len() as int,
            )[t],
    decreases n,
{
    let size = layer_offset(sizes, sizes.len() as int);
    if n > 0 {
        lemma_layers_upto_byte(sizes, layers, data, n - 1);
        lemma_layer_mips_byte(sizes, layers, data, n - 1, sizes.len() as int);
        assert((n - 1) * size + size == n * size) by (nonlinear_arith);
        let all = layers_upto(sizes, layers, data, n);
        assert forall|l: int, t: int| 0 <= l < n && 0 <= t < size implies #[trigger] all[l * size + t]
            == layer_mips(sizes, layers, data, l, sizes.len() as int)[t] by {
            if l < n - 1 {
                assert(l * size + t < (n - 1) * size) by (nonlinear_arith)
                    requires
                        0 <= l < n - 1,
                        0 <= t < size,
                ;
            }
            assert(l * size >= 0) by (nonlinear_arith)
                requires
                    l >= 0,
                    size >= 0,
            ;
        }
    } else {
        assert(0 * size == 0) by (nonlinear_arith);
    }
}

/// Repacking to layer-major order moves byte `j` of layer `l` of mip `k` from its
/// mip-major place to its layer-major place.
pub proof fn lemma_layer_major_byte(
    sizes: Seq<int>,
    layers: int,
    data: Seq<u8>,
    l: int,
    k: int,
    j: int,
)
    requires
        is_mip_major(sizes, layers, data),
        0 <= l < layers,
        0 <= k < sizes.len(),
        0 <= j < sizes[k],
    ensures
        to_layer_major(sizes, layers, data).len() == data.len(),
        to_layer_major(sizes, layers, data)[l * layer_offset(sizes, sizes.len() as int) + layer_offset(sizes, k) + j]
            == data[mip_major_offset(sizes, layers, k) + l * sizes[k] + j],
{
    let n = sizes.len() as int;
    lemma_layers_upto_byte(sizes, layers, data, layers);
    lemma_layer_mips_byte(sizes, layers, data, l, n);
    lemma_layer_offsets_grow(sizes, k + 1, n);
    lemma_total_sizes(sizes, layers, n);
    let size = layer_offset(sizes, n);
    let t = layer_offset(sizes, k) + j;
    lemma_layer_offset_nonnegative(sizes, k);
    assert(layer_offset(sizes, k + 1) == layer_offset(sizes, k) + sizes[k]);
    assert(0 <= t < size);
    assert(layers_upto(sizes, layers, data, layers)[l * size + t] == layer_mips(sizes, layers, data, l, n)[t]);
}

/// Mip-major data holds each layer's bytes once per layer.
proof fn lemma_total_sizes(sizes: Seq<int>, layers: int, k: int)
    requires
        0 <= k <= sizes.len(),
        layers >= 0,
    ensures
        mip_major_offset(sizes, layers, k) == layers * layer_offset(sizes, k),
    decreases k,
{
    if k > 0 {
        lemma_total_sizes(sizes, layers, k - 1);
        assert(layers * layer_offset(sizes, k - 1) + layers * sizes[k - 1] == layers * (layer_offset(
            sizes,
            k - 1,
        ) + sizes[k - 1])) by (nonlinear_arith);
    } else {
        assert(layers * 0 == 0) by (nonlinear_arith);
    }
}

/// The first `n` layers of mip `k` of the repacked data are those of the mip-major data.
proof fn lemma_mip_layers_back(sizes: Seq<int>, layers: int, data: Seq<u8>, k: int, n: int)
    requires
        is_mip_major(sizes, layers, data),
        0 <= k < sizes.len(),
        0 <= n <= layers,
    ensures
        mip_layers(sizes, to_layer_major(sizes, layers, data), k, n) == data.subrange(
            mip_major_offset(sizes, layers, k),
            mip_major_offset(sizes, layers, k) + n * sizes[k],
        ),
    decreases n,
{
    let blob = to_layer_major(sizes, layers, data);
    let s = sizes[k];
    let base = mip_major_offset(sizes, layers, k);
    lemma_offsets_grow(sizes, layers, k + 1, sizes.len() as int);
    lemma_offsets_nonnegative(sizes, layers, k);
    assert(n * s <= layers * s && n * s >= 0) by (nonlinear_arith)
        requires
            0 <= n <= layers,
            s >= 0,
    ;
    if n > 0 {
        lemma_mip_layers_back(sizes, layers, data, k, n - 1);
        let size = layer_offset(sizes, sizes.len() as int);
        let start = (n - 1) * size + layer_offset(sizes, k);
        lemma_layer_offsets_grow(sizes, k + 1, sizes.len() as int);
        assert((n - 1) * s + s == n * s) by (nonlinear_arith);
        assert forall|j: int| 0 <= j < s implies #[trigger] blob[start + j] == data[base + (n - 1) * s + j] by {
            lemma_layer_major_byte(sizes, layers, data, n - 1, k, j);
        }
        lemma_total_sizes(sizes, layers, sizes.len() as int);
        assert((n - 1) * size + size <= layers * size && (n - 1) * size >= 0) by (nonlinear_arith)
            requires
                1 <= n <= layers,
                size >= 0,
        ;
        lemma_layers_upto_byte(sizes, layers, data, layers);
        lemma_layer_offset_nonnegative(sizes, k);
        assert(layer_offset(sizes, k + 1) == layer_offset(sizes, k) + s);
        assert(0 <= start && start + s <= blob.len());
        let prev = mip_layers(sizes, blob, k, n - 1);
        assert(mip_layers(sizes, blob, k, n) == prev + blob.subrange(start, start + s));
        assert(prev.len() == (n - 1) * s);
        let all = mip_layers(sizes, blob, k, n);
        assert forall|i: int| 0 <= i < n * s implies #[trigger] all[i] == data[base + i] by {
            if i >= (n - 1) * s {
                let j = i - (n - 1) * s;
                assert(blob[start + j] == data[base + (n - 1) * s + j]);
                assert(all[i] == blob.subrange(start, start + s)[j]);
            } else {
                assert(all[i] == prev[i]);
            }
        }
        assert(mip_layers(sizes, blob, k, n) =~= data.subrange(base, base + n * s));
    } else {
        assert(0 * s == 0) by (nonlinear_arith);
        assert(mip_layers(sizes, blob, k, n) =~= data.subrange(base, base + n * s));
    }
}

/// The first `k` mips of the repacked data, taken back to mip-major order.
proof fn lemma_mips_upto_back(sizes: Seq<int>, layers: int, data: Seq<u8>, k: int)
    requires
        is_mip_major(sizes, layers, data),
        0 <= k <= sizes.len(),
    ensures
        mips_upto(sizes, layers, to_layer_major(sizes, layers, data), k) == data.subrange(
            0,
            mip_major_offset(sizes, layers, k),
        ),
    decreases k,
{
    lemma_offsets_grow(sizes, layers, k, sizes.len() as int);
    if k > 0 {
        lemma_mips_upto_back(sizes, layers, data, k - 1);
        lemma_mip_layers_back(sizes, layers, data, k - 1, layers);
        lemma_offsets_nonnegative(sizes, layers, k - 1);
        assert(mips_upto(sizes, layers, to_layer_major(sizes, layers, data), k) =~= data.subrange(
            0,
            mip_major_offset(sizes, layers, k),
        ));
    } else {
        assert(mips_upto(sizes, layers, to_layer_major(sizes, layers, data), k) =~= data.subrange(
            0,
            0,
        ));
    }
}

/// Repacking mip-major data to layer-major order and back gives the data again.
pub proof fn lemma_layer_major_round_trip(sizes: Seq<int>, layers: int, data: Seq<u8>)
    requires
        is_mip_major(sizes, layers, data),
    ensures
        to_mip_major(sizes, layers, to_layer_major(sizes, layers, data)) == data,
{
    lemma_mips_upto_back(sizes, layers, data, sizes.len() as int);
    assert(data.subrange(0, data.len() as int) =~= data);
}

impl<'a> Gx2Surface<'a> {
    /// Deswizzled mip levels hold every layer of each level.
    proof fn lemma_mips_len(&self, n: int, data: Seq<u8>)
        requires
            0 <= n <= self.mipmap_count,
            self.mips_result(n) == Ok::<Seq<u8>, SwizzleError>(data),
        ensures
            data.len() == mip_major_offset(self.layer_sizes(), self.depth_or_array_layers as int, n),
        decreases n,
    {
        if n > 0 {
            let prev = self.mips_result(n - 1);
            assert(prev is Ok);
            self.lemma_mips_len(n - 1, prev->Ok_0);
            let m = self.mip_layout(n - 1);
            let a = m.width as int;
            let b = m.height as int;
            let c = m.bytes_per_pixel as int;
            let d = self.depth_or_array_layers as int;
            assert(a * b * d * c == d * (a * b * c)) by (nonlinear_arith);
        }
    }

    /// The layer-major result of a cube map, taken back to mip-major order, is
    /// the concatenation of its deswizzled mip levels.
    pub proof fn lemma_cube_layer_major(&self, out: Seq<u8>, data: Seq<u8>)
        requires
            self.dim == SurfaceDim::Cube,
            self.width > 0,
            self.height > 0,
            self.depth_or_array_layers > 0,
            self.pitch > 0,
            self.deswizzle_result() == Ok::<Seq<u8>, SwizzleError>(out),
            self.mips_result(self.mipmap_count as int) == Ok::<Seq<u8>, SwizzleError>(data),
        ensures
            out == to_layer_major(self.layer_sizes(), self.depth_or_array_layers as int, data),
            to_mip_major(self.layer_sizes(), self.depth_or_array_layers as int, out) == data,
    {
        self.lemma_mips_len(self.mipmap_count as int, data);
        let sizes = self.layer_sizes();
        assert forall|i: int| 0 <= i < sizes.len() implies #[trigger] sizes[i] >= 0 by {
            let a = self.mip_width(i) as int;
            let b = self.mip_height(i) as int;
            let c = self.format.spec_bytes_per_pixel() as int;
            assert(a * b * c >= 0) by (nonlinear_arith)
                requires
                    a >= 0,
                    b >= 0,
                    c >= 0,
            ;
        }
        lemma_layer_major_round_trip(sizes, self.depth_or_array_layers as int, data);
    }

    /// Whether the mipmap offsets lie within their buffers.
    pub open spec fn offsets_valid(&self) -> bool {
        let o = self.mipmap_offsets@;
        &&& o[0] <= self.image_data@.len()
        &&& forall|i: int| 1 <= i < 13 ==> #[trigger] o[i] <= self.mipmap_data@.len()
    }

    /// Whether the ranges of `mipmap_data` that the mip levels past mip 1 are read
    /// from do not run backwards.
    pub open spec fn mip_ranges_ordered(&self) -> bool {
        let o = self.mipmap_offsets@;
        forall|k: int| 2 <= k < self.mipmap_count && k < 13 ==> #[trigger] o[k] == 0 || o[k - 1] <= o[k]
    }

    /// The error for mipmap offsets that cannot be read.
    pub open spec fn offsets_error(&self) -> SwizzleError {
        SwizzleError::InvalidMipmapOffsets {
            mipmap_offsets: self.mipmap_offsets,
            image_data_len: self.image_data@.len() as usize,
            mipmap_data_len: self.mipmap_data@.len() as usize,
        }
    }

    /// Whether the product of the dimensions, bits per element, pitch and sample
    /// count, taken from left to right, never exceeds 32 bits.
    pub open spec fn dims_fit(&self) -> bool {
        let area = self.width * self.height;
        let elements = area * self.depth_or_array_layers;
        let element_bits = elements * (self.format.spec_bytes_per_pixel() * 8);
        let pitched = element_bits * self.pitch;
        let sampled = pitched * self.aa.samples();
        &&& area <= u32::MAX
        &&& elements <= u32::MAX
        &&& element_bits <= u32::MAX
        &&& pitched <= u32::MAX
        &&& sampled <= u32::MAX
    }

    /// What validation of the surface returns.
    pub open spec fn validate_result(&self) -> Result<(), SwizzleError> {
        if !self.offsets_valid() {
            Err(self.offsets_error())
        } else if !self.dims_fit() || self.mipmap_count > 13 {
            Err(
                SwizzleError::InvalidSurface {
                    width: self.width,
                    height: self.height,
                    depth: self.depth_or_array_layers,
                    format: self.format,
                    mipmap_count: self.mipmap_count,
                },
            )
        } else {
            Ok(())
        }
    }

    /// The tiled bytes of mip level `mip`.
    pub open spec fn mip_source(&self, mip: int) -> Seq<u8> {
        let o = self.mipmap_offsets@;
        if mip == 0 {
            self.image_data@
        } else {
            let start = if mip == 1 {
                0
            } else {
                o[mip - 1] as int
            };
            let end = if o[mip] != 0 {
                o[mip] as int
            } else {
                self.mipmap_data@.len() as int
            };
            self.mipmap_data@.subrange(start, end)
        }
    }

    /// The width in elements of mip level `mip`.
    pub open spec fn mip_width(&self, mip: int) -> u32 {
        let w = (self.width >> (mip as u32)) as int;
        let bw = if self.format.is_block_compressed() {
            4int
        } else {
            1int
        };
        ((w + bw - 1) / bw) as u32
    }

    /// The height in elements of mip level `mip`.
    pub open spec fn mip_height(&self, mip: int) -> u32 {
        let h = (self.height >> (mip as u32)) as int;
        let bh = if self.format.is_block_compressed() {
            4int
        } else {
            1int
        };
        ((h + bh - 1) / bh) as u32
    }

    /// The input of the surface information computation for mip level `mip`.
    pub open spec fn info_input(&self, mip: int) -> ComputeSurfaceInfoInput {
        ComputeSurfaceInfoInput {
            size: self.mip_source(mip).len() as u32,
            tile_mode: self.tile_mode,
            format: self.format,
            bpp: (self.format.spec_bytes_per_pixel() * 8) as u32,
            num_samples: self.aa.samples(),
            width: self.mip_width(mip),
            height: self.mip_height(mip),
            num_slices: self.depth_or_array_layers,
            slice: 0,
            mip_level: mip as u32,
            flags: dim_flags(self.dim),
            tile_info: no_tile_info(),
            tile_type: TileType::Displayable,
            tile_index: 0,
        }
    }

    /// The output that the surface information computation starts from.
    pub open spec fn info_start(&self) -> ComputeSurfaceInfoOutput {
        ComputeSurfaceInfoOutput {
            size: 0,
            pitch: 0,
            height: 0,
            depth: 0,
            surf_size: 0,
            tile_mode: self.tile_mode,
            base_align: 0,
            pitch_align: 0,
            height_align: 0,
            depth_align: 0,
            bpp: 0,
            pixel_pitch: 0,
            pixel_height: 0,
            pixel_bits: 0,
            slice_size: 0,
            pitch_tile_max: 0,
            height_tile_max: 0,
            slice_tile_max: 0,
            tile_info: no_tile_info(),
            tile_type: TileType::Displayable,
            tile_index: 0,
        }
    }

    /// The layout of mip level `mip`: its effective tile mode, and the smaller of
    /// the computed pitch and the surface's pitch.
    pub open spec fn mip_layout(&self, mip: int) -> MipmapLayout {
        let info = surface_info(self.info_input(mip), self.info_start());
        layout(
            self.mip_width(mip),
            self.mip_height(mip),
            self.depth_or_array_layers,
            self.swizzle,
            min_u32(info.pitch, self.pitch),
            info.tile_mode,
            self.format.spec_bytes_per_pixel(),
            self.aa,
        )
    }

    /// The mip-major linear bytes of mip levels `0..n`, or the first error.
    pub open spec fn mips_result(&self, n: int) -> Result<Seq<u8>, SwizzleError>
        decreases n,
    {
        if n <= 0 {
            Ok(Seq::empty())
        } else {
            match self.mips_result(n - 1) {
                Err(e) => Err(e),
                Ok(prev) => match deswizzle_result(self.mip_layout(n - 1), self.mip_source(n - 1)) {
                    Err(e) => Err(e),
                    Ok(level) => Ok(prev + level),
                },
            }
        }
    }

    /// The size in bytes of one layer of mip level `k`.
    pub open spec fn layer_size(&self, k: int) -> int {
        self.mip_width(k) * self.mip_height(k) * self.format.spec_bytes_per_pixel()
    }

    /// The sizes of one layer of each mip level.
    pub open spec fn layer_sizes(&self) -> Seq<int> {
        Seq::new(self.mipmap_count as nat, |k: int| self.layer_size(k))
    }

    /// What [Gx2Surface::deswizzle] returns.
    pub open spec fn deswizzle_result(&self) -> Result<Seq<u8>, SwizzleError> {
        match self.validate_result() {
            Err(e) => Err(e),
            Ok(()) => if self.width == 0 || self.height == 0 || self.depth_or_array_layers == 0
                || self.pitch == 0 {
                Ok(Seq::empty())
            } else if !self.mip_ranges_ordered() {
                Err(self.offsets_error())
            } else {
                match self.mips_result(self.mipmap_count as int) {
                    Err(e) => Err(e),
                    Ok(data) => Ok(
                        if self.dim == SurfaceDim::Cube {
                            to_layer_major(self.layer_sizes(), self.depth_or_array_layers as int, data)
                        } else {
                            data
                        },
                    ),
                }
            },
        }
    }

    fn offsets_in_bounds(&self) -> (r: bool)
        ensures
            r == (self.mipmap_offsets@[0] <= self.image_data@.len() && forall|j: int|
                1 <= j < 13 ==> #[trigger] self.mipmap_offsets@[j] <= self.mipmap_data@.len()),
    {
        let mipmap_len = self.mipmap_data.len();
        let mut valid = self.mipmap_offsets[0] as usize <= self.image_data.len();
        let mut i: usize = 1;
        while i < 13
            invariant
                1 <= i <= 13,
                mipmap_len == self.mipmap_data@.len(),
                valid == (self.mipmap_offsets@[0] <= self.image_data@.len() && forall|j: int|
                    1 <= j < i ==> #[trigger] self.mipmap_offsets@[j] <= mipmap_len),
            decreases 13 - i,
        {
            if self.mipmap_offsets[i] as usize > mipmap_len {
                valid = false;
            }
            i = i + 1;
        }
        valid
    }

    fn offsets_ordered(&self) -> (r: bool)
        ensures
            r == self.mip_ranges_ordered(),
    {
        let used: usize = if self.mipmap_count < 13 {
            self.mipmap_count as usize
        } else {
            13
        };
        let mut k: usize = 2;
        while k < used
            invariant
                2 <= k,
                used <= 13,
                used == if self.mipmap_count < 13 { self.mipmap_count as int } else { 13 },
                k <= used || used < 2,
                forall|j: int|
                    2 <= j < k ==> #[trigger] self.mipmap_offsets@[j] == 0 || self.mipmap_offsets@[j
                        - 1] <= self.mipmap_offsets@[j],
            decreases used - k,
        {
            if self.mipmap_offsets[k] != 0 && self.mipmap_offsets[k - 1] > self.mipmap_offsets[k] {
                return false;
            }
            k = k + 1;
        }
        true
    }

    fn dims_fit_exec(&self) -> (r: bool)
        ensures
            r == self.dims_fit(),
    {
        let bits = self.format.bytes_per_pixel() * u8::BITS;
        match self.width.checked_mul(self.height) {
            None => false,
            Some(area) => match area.checked_mul(self.depth_or_array_layers) {
                None => false,
                Some(elements) => match elements.checked_mul(bits) {
                    None => false,
                    Some(element_bits) => match element_bits.checked_mul(self.pitch) {
                        None => false,
                        Some(pitched) => pitched.checked_mul(self.aa.num_samples()).is_some(),
                    },
                },
            },
        }
    }

    fn validate(&self) -> (r: Result<(), SwizzleError>)
        ensures
            r == self.validate_result(),
    {
        if !self.offsets_in_bounds() {
            return Err(
                SwizzleError::InvalidMipmapOffsets {
                    mipmap_offsets: self.mipmap_offsets,
                    image_data_len: self.image_data.len(),
                    mipmap_data_len: self.mipmap_data.len(),
                },
            );
        }
        if !self.dims_fit_exec() || self.mipmap_count > 13 {
            Err(
                SwizzleError::InvalidSurface {
                    width: self.width,
                    height: self.height,
                    depth: self.depth_or_array_layers,
                    format: self.format,
                    mipmap_count: self.mipmap_count,
                },
            )
        } else {
            Ok(())
        }
    }

    fn mip_source_slice(&self, mip: u32) -> (r: &'a [u8])
        requires
            self.offsets_valid(),
            self.mip_ranges_ordered(),
            mip < 13,
            mip < self.mipmap_count,
        ensures
            r@ == self.mip_source(mip as int),
    {
        if mip == 0 {
            self.image_data
        } else {
            let start: usize = if mip == 1 {
                0
            } else {
                self.mipmap_offsets[mip as usize - 1] as usize
            };
            let next = self.mipmap_offsets[mip as usize] as usize;
            let end = if next != 0 {
                next
            } else {
                self.mipmap_data.len()
            };
            proof {
                if mip >= 2 {
                    assert(self.mipmap_offsets@[mip as int] == 0 || self.mipmap_offsets@[mip - 1]
                        <= self.mipmap_offsets@[mip as int]);
                    assert(self.mipmap_offsets@[mip - 1] <= self.mipmap_data@.len());
                }
                assert(self.mipmap_offsets@[mip as int] <= self.mipmap_data@.len());
            }
            &self.mipmap_data[start..end]
        }
    }

    /// The dimensions of every mip level are bounded by those of the base level.
    proof fn lemma_mip_fits(&self, mip: int)
        requires
            self.dims_fit(),
            0 <= mip < 32,
            self.pitch > 0,
            self.depth_or_array_layers > 0,
        ensures
            self.mip_width(mip) <= self.width,
            self.mip_height(mip) <= self.height,
            self.layer_size(mip) >= 0,
            self.mip_width(mip) * self.mip_height(mip) * self.depth_or_array_layers
                * self.format.spec_bytes_per_pixel() <= u32::MAX,
            self.layer_size(mip) <= u32::MAX,
    {
        let w = self.width;
        let h = self.height;
        let m = mip as u32;
        assert(w >> m <= w) by (bit_vector);
        assert(h >> m <= h) by (bit_vector);
        let a = self.mip_width(mip) as int;
        let b = self.mip_height(mip) as int;
        let d = self.depth_or_array_layers as int;
        let bpp = self.format.spec_bytes_per_pixel() as int;
        let p = self.pitch as int;
        let n = self.aa.samples() as int;
        assert(1 <= bpp <= 16);
        assert(1 <= n);
        assert(a * b * d * bpp <= w * h * d * (bpp * 8) * p * n) by (nonlinear_arith)
            requires
                0 <= a <= w,
                0 <= b <= h,
                d >= 0,
                bpp >= 1,
                p >= 1,
                n >= 1,
        ;
        assert(a * b * bpp >= 0 && (d >= 1 ==> a * b * bpp <= a * b * d * bpp)) by (nonlinear_arith)
            requires
                a >= 0,
                b >= 0,
                d >= 0,
                bpp >= 1,
        ;
    }

    /// Once a mip level fails, the surface fails with the same error.
    proof fn lemma_mips_error(&self, k: int, n: int, e: SwizzleError)
        requires
            0 <= k <= n,
            self.mips_result(k) == Err::<Seq<u8>, SwizzleError>(e),
        ensures
            self.mips_result(n) == Err::<Seq<u8>, SwizzleError>(e),
        decreases n - k,
    {
        if k < n {
            self.lemma_mips_error(k, n - 1, e);
        }
    }

    /// Computes the effective tile mode and pitch of mip level `mip`.
    fn mip_info(&self, mip: u32, source: &[u8], width: u32, height: u32) -> (r: (TileMode, u32))
        requires
            mip < 13,
            source@ == self.mip_source(mip as int),
            width == self.mip_width(mip as int),
            height == self.mip_height(mip as int),
        ensures
            r.0 == self.mip_layout(mip as int).tile_mode,
            r.1 == self.mip_layout(mip as int).pitch,
    {
        let input = ComputeSurfaceInfoInput {
            size: source.len() as u32,
            tile_mode: self.tile_mode,
            format: self.format,
            bpp: self.format.bytes_per_pixel() * u8::BITS,
            num_samples: self.aa.num_samples(),
            width,
            height,
            num_slices: self.depth_or_array_layers,
            slice: 0,
            mip_level: mip,
            flags: surface_flags(self.dim),
            tile_info: TileInfo {
                banks: 0,
                bank_width: 0,
                bank_height: 0,
                macro_aspect_ratio: 0,
                tile_split_bytes: 0,
            },
            tile_type: TileType::Displayable,
            tile_index: 0,
        };
        let mut output = ComputeSurfaceInfoOutput {
            size: 0,
            pitch: 0,
            height: 0,
            depth: 0,
            surf_size: 0,
            tile_mode: self.tile_mode,
            base_align: 0,
            pitch_align: 0,
            height_align: 0,
            depth_align: 0,
            bpp: 0,
            pixel_pitch: 0,
            pixel_height: 0,
            pixel_bits: 0,
            slice_size: 0,
            pitch_tile_max: 0,
            height_tile_max: 0,
            slice_tile_max: 0,
            tile_info: TileInfo {
                banks: 0,
                bank_width: 0,
                bank_height: 0,
                macro_aspect_ratio: 0,
                tile_split_bytes: 0,
            },
            tile_type: TileType::Displayable,
            tile_index: 0,
        };
        assert(input == self.info_input(mip as int));
        assert(output == self.info_start());
        hwl_compute_surface_info(&input, &mut output);
        // The computed pitch can exceed the recorded one; the recorded pitch wins then.
        let pitch = if output.pitch <= self.pitch {
            output.pitch
        } else {
            self.pitch
        };
        (output.tile_mode, pitch)
    }

    /// Deswizzles mip level `mip`.
    fn deswizzle_level(
        &self,
        mip: u32,
        block_width: u32,
        block_height: u32,
        bytes_per_pixel: u32,
    ) -> (r: Result<Vec<u8>, SwizzleError>)
        requires
            self.validate_result() is Ok,
            self.mip_ranges_ordered(),
            self.pitch > 0,
            self.depth_or_array_layers > 0,
            mip < self.mipmap_count,
            block_width == block_height,
            block_width == (if self.format.is_block_compressed() { 4u32 } else { 1u32 }),
            bytes_per_pixel == self.format.spec_bytes_per_pixel(),
        ensures
            result_is(r, deswizzle_result(self.mip_layout(mip as int), self.mip_source(mip as int))),
            r matches Ok(v) ==> v@.len() == self.depth_or_array_layers * self.layer_sizes()[mip as int],
    {
        let source = self.mip_source_slice(mip);
        let width = div_round_up(self.width >> mip, block_width);
        let height = div_round_up(self.height >> mip, block_height);
        proof {
            self.lemma_mip_fits(mip as int);
        }
        let (tile_mode, pitch) = self.mip_info(mip, source, width, height);
        let level = deswizzle_mipmap(
            width,
            height,
            self.depth_or_array_layers,
            source,
            self.swizzle,
            pitch,
            tile_mode,
            bytes_per_pixel,
            self.aa,
        );
        assert(layout(width, height, self.depth_or_array_layers, self.swizzle, pitch, tile_mode, bytes_per_pixel, self.aa)
            == self.mip_layout(mip as int));
        proof {
            let a = width as int;
            let b = height as int;
            let c = bytes_per_pixel as int;
            let d = self.depth_or_array_layers as int;
            assert(a * b * d * c == d * (a * b * c)) by (nonlinear_arith);
            assert(self.layer_sizes()[mip as int] == a * b * c);
        }
        level
    }

    /// Converts all layers and mipmaps from the tiled layout to one linear vector:
    /// mip-major, or layer-major for cube maps.
    ///
    /// Each mip level is read from its range of `image_data` or `mipmap_data` with
    /// its effective tile mode, and with the smaller of its computed pitch and
    /// `pitch`. Offsets out of range give `InvalidMipmapOffsets`; dimensions whose
    /// product overflows 32 bits, or more than 13 mipmaps, give `InvalidSurface`;
    /// a surface without width, height, depth or pitch is empty. Past those checks,
    /// a mip range of `mipmap_data` that runs backwards gives `InvalidMipmapOffsets`.
    pub fn deswizzle(&self) -> (r: Result<Vec<u8>, SwizzleError>)
        ensures
            result_is(r, self.deswizzle_result()),
    {
        match self.validate() {
            Err(e) => return Err(e),
            Ok(()) => {},
        }
        if self.width == 0 || self.height == 0 || self.depth_or_array_layers == 0 || self.pitch == 0 {
            let empty: Vec<u8> = Vec::new();
            assert(empty@ =~= Seq::<u8>::empty());
            return Ok(empty);
        }
        if !self.offsets_ordered() {
            return Err(
                SwizzleError::InvalidMipmapOffsets {
                    mipmap_offsets: self.mipmap_offsets,
                    image_data_len: self.image_data.len(),
                    mipmap_data_len: self.mipmap_data.len(),
                },
            );
        }
        let (block_width, block_height) = self.format.block_dim();
        let bytes_per_pixel = self.format.bytes_per_pixel();
        let ghost sizes = self.layer_sizes();
        let ghost layers = self.depth_or_array_layers as int;
        let mut data: Vec<u8> = Vec::new();
        let mut mip: u32 = 0;
        while mip < self.mipmap_count
            invariant
                self.validate_result() is Ok,
                self.mip_ranges_ordered(),
                self.pitch > 0,
                self.depth_or_array_layers > 0,
                self.width > 0,
                self.height > 0,
                mip <= self.mipmap_count,
                self.mipmap_count <= 13,
                block_width == block_height,
                block_width == (if self.format.is_block_compressed() { 4u32 } else { 1u32 }),
                bytes_per_pixel == self.format.spec_bytes_per_pixel(),
                sizes == self.layer_sizes(),
                layers == self.depth_or_array_layers,
                self.mips_result(mip as int) == Ok::<Seq<u8>, SwizzleError>(data@),
                data@.len() == mip_major_offset(sizes, layers, mip as int),
            decreases self.mipmap_count - mip,
        {
            let level = self.deswizzle_level(mip, block_width, block_height, bytes_per_pixel);
            match level {
                Err(e) => {
                    proof {
                        self.lemma_mips_error(mip + 1, self.mipmap_count as int, e);
                    }
                    return Err(e);
                },
                Ok(mut level) => {
                    data.append(&mut level);
                },
            }
            mip = mip + 1;
        }
        if self.dim == SurfaceDim::Cube {
            Ok(self.mip_major_to_layer_major(&data, block_width, block_height, bytes_per_pixel))
        } else {
            Ok(data)
        }
    }

    /// Repacks mip-major data to layer-major order.
    fn mip_major_to_layer_major(
        &self,
        data: &[u8],
        block_width: u32,
        block_height: u32,
        bytes_per_pixel: u32,
    ) -> (r: Vec<u8>)
        requires
            self.validate_result() is Ok,
            self.pitch > 0,
            self.depth_or_array_layers > 0,
            self.width > 0,
            self.height > 0,
            block_width == block_height,
            block_width == (if self.format.is_block_compressed() { 4u32 } else { 1u32 }),
            bytes_per_pixel == self.format.spec_bytes_per_pixel(),
            data@.len() == mip_major_offset(
                self.layer_sizes(),
                self.depth_or_array_layers as int,
                self.mipmap_count as int,
            ),
        ensures
            r@ == to_layer_major(self.layer_sizes(), self.depth_or_array_layers as int, data@),
    {
        let ghost sizes_spec = self.layer_sizes();
        let ghost count = self.mipmap_count as int;
        let layers = self.depth_or_array_layers as usize;
        let total = data.len();
        proof {
            assert forall|i: int| 0 <= i < count implies 0 <= #[trigger] sizes_spec[i] <= u32::MAX by {
                self.lemma_mip_fits(i);
            }
        }
        let mut sizes: Vec<usize> = Vec::new();
        let mut offsets: Vec<usize> = Vec::new();
        let mut offset: usize = 0;
        let mut k: u32 = 0;
        while k < self.mipmap_count
            invariant
                self.validate_result() is Ok,
                self.pitch > 0,
                self.depth_or_array_layers > 0,
                self.width > 0,
                self.height > 0,
                block_width == block_height,
                block_width == (if self.format.is_block_compressed() { 4u32 } else { 1u32 }),
                bytes_per_pixel == self.format.spec_bytes_per_pixel(),
                sizes_spec == self.layer_sizes(),
                count == self.mipmap_count,
                layers == self.depth_or_array_layers,
                forall|i: int| 0 <= i < count ==> 0 <= #[trigger] sizes_spec[i] <= u32::MAX,
                data@.len() == mip_major_offset(sizes_spec, layers as int, count),
                total == data@.len(),
                k <= count,
                sizes@.len() == k,
                offsets@.len() == k,
                forall|i: int| 0 <= i < k ==> #[trigger] sizes@[i] == sizes_spec[i],
                forall|i: int|
                    0 <= i < k ==> #[trigger] offsets@[i] == mip_major_offset(sizes_spec, layers as int, i),
                offset == mip_major_offset(sizes_spec, layers as int, k as int),
            decreases count - k,
        {
            let width = div_round_up(self.width >> k, block_width);
            let height = div_round_up(self.height >> k, block_height);
            proof {
                self.lemma_mip_fits(k as int);
                lemma_offsets_grow(sizes_spec, layers as int, k + 1, count);
                assert(layers * sizes_spec[k as int] >= 0) by (nonlinear_arith)
                    requires
                        layers >= 0,
                        sizes_spec[k as int] >= 0,
                ;
            }
            proof {
                let a = width as int;
                let b = height as int;
                let c = bytes_per_pixel as int;
                assert(a * b <= a * b * c) by (nonlinear_arith)
                    requires
                        a >= 0,
                        b >= 0,
                        c >= 1,
                ;
                assert(sizes_spec[k as int] == a * b * c);
            }
            let size = width as usize * height as usize * bytes_per_pixel as usize;
            sizes.push(size);
            offsets.push(offset);
            offset = offset + layers * size;
            k = k + 1;
        }
        let mut out: Vec<u8> = Vec::new();
        let mut layer: usize = 0;
        while layer < layers
            invariant
                sizes_spec.len() == count,
                forall|i: int| 0 <= i < count ==> 0 <= #[trigger] sizes_spec[i] <= u32::MAX,
                data@.len() == mip_major_offset(sizes_spec, layers as int, count),
                total == data@.len(),
                count == sizes@.len(),
                offsets@.len() == count,
                forall|i: int| 0 <= i < count ==> #[trigger] sizes@[i] == sizes_spec[i],
                forall|i: int|
                    0 <= i < count ==> #[trigger] offsets@[i] == mip_major_offset(sizes_spec, layers as int, i),
                layer <= layers,
                out@ == layers_upto(sizes_spec, layers as int, data@, layer as int),
            decreases layers - layer,
        {
            let mut k: usize = 0;
            while k < sizes.len()
                invariant
                    sizes_spec.len() == count,
                    forall|i: int| 0 <= i < count ==> 0 <= #[trigger] sizes_spec[i] <= u32::MAX,
                    data@.len() == mip_major_offset(sizes_spec, layers as int, count),
                    total == data@.len(),
                    count == sizes@.len(),
                    offsets@.len() == count,
                    forall|i: int| 0 <= i < count ==> #[trigger] sizes@[i] == sizes_spec[i],
                    forall|i: int|
                        0 <= i < count ==> #[trigger] offsets@[i] == mip_major_offset(sizes_spec, layers as int, i),
                    layer < layers,
                    k <= count,
                    out@ == layers_upto(sizes_spec, layers as int, data@, layer as int) + layer_mips(
                        sizes_spec,
                        layers as int,
                        data@,
                        layer as int,
                        k as int,
                    ),
                decreases count - k,
            {
                proof {
                    lemma_offsets_grow(sizes_spec, layers as int, k + 1, count);
                    let sz = sizes_spec[k as int];
                    assert(layer * sz + sz <= layers * sz) by (nonlinear_arith)
                        requires
                            layer < layers,
                            sz >= 0,
                    ;
                    assert(layer * sz >= 0) by (nonlinear_arith)
                        requires
                            layer >= 0,
                            sz >= 0,
                    ;
                }
                let start = offsets[k] + layer * sizes[k];
                let end = start + sizes[k];
                let ghost before = out@;
                append_range(&mut out, data, start, end);
                assert(out@ =~= layers_upto(sizes_spec, layers as int, data@, layer as int) + layer_mips(
                    sizes_spec,
                    layers as int,
                    data@,
                    layer as int,
                    k + 1,
                ));
                k = k + 1;
            }
            layer = layer + 1;
        }
        out
    }
}

/// Mip-major offsets grow with the mip index.
proof fn lemma_offsets_grow(sizes: Seq<int>, layers: int, k: int, n: int)
    requires
        0 <= k <= n <= sizes.len(),
        layers >= 0,
        forall|i: int| 0 <= i < n ==> #[trigger] sizes[i] >= 0,
    ensures
        mip_major_offset(sizes, layers, k) <= mip_major_offset(sizes, layers, n),
        mip_major_offset(sizes, layers, k) >= 0,
    decreases n - k,
{
    lemma_offsets_nonnegative(sizes, layers, k);
    if k < n {
        lemma_offsets_grow(sizes, layers, k + 1, n);
        assert(layers * sizes[k] >= 0) by (nonlinear_arith)
            requires
                layers >= 0,
                sizes[k] >= 0,
        ;
    }
}

proof fn lemma_offsets_nonnegative(sizes: Seq<int>, layers: int, k: int)
    requires
        0 <= k <= sizes.len(),
        layers >= 0,
        forall|i: int| 0 <= i < k ==> #[trigger] sizes[i] >= 0,
    ensures
        mip_major_offset(sizes, layers, k) >= 0,
    decreases k,
{
    if k > 0 {
        lemma_offsets_nonnegative(sizes, layers, k - 1);
        assert(layers * sizes[k - 1] >= 0) by (nonlinear_arith)
            requires
                layers >= 0,
                sizes[k - 1] >= 0,
        ;
    }
}

/// Appends `data[start..end]` to `out`.
fn append_range(out: &mut Vec<u8>, data: &[u8], start: usize, end: usize)
    requires
        start <= end <= data@.len(),
    ensures
        final(out)@ == old(out)@ + data@.subrange(start as int, end as int),
{
    let ghost before = out@;
    let mut i = start;
    while i < end
        invariant
            start <= i <= end,
            end <= data@.len(),
            out@ == before + data@.subrange(start as int, i as int),
        decreases end - i,
    {
        out.push(data[i]);
        i = i + 1;
        assert(out@ =~= before + data@.subrange(start as int, i as int));
    }
}

} // verus!
