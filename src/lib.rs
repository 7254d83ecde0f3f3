//! A CPU implementation of memory tiling for texture surfaces of the Wii U GPU.
//!
//! Most applications should construct a [Gx2Surface] and use [Gx2Surface::deswizzle]
//! to handle offsets and parameter changes for different mip levels.

pub mod addrlib;
pub mod formats;
pub mod surface;
pub mod swizzle;

pub use addrlib::TileMode;
pub use formats::{AaMode, SurfaceDim, SurfaceFormat};
pub use surface::Gx2Surface;
pub use swizzle::{
    deswizzle_mipmap, deswizzled_mipmap_size, div_round_up, swizzle_mipmap, MipmapLayout,
    SwizzleError,
};
