use vstd::prelude::*;
use crate::geometry::{IRect, ISize};
use crate::handle::RCHandle;
use crate::image_info::{info_bounds, AlphaType, ColorType, ImageInfo};

verus! {

/// Bits per channel of an image drawn from a picture.
#[derive(Clone, Copy, Debug, PartialEq, Eq, Structural)]
pub enum BitDepth {
    U8,
    F16,
}

/// Whether the engine may keep decoded pixels of a lazily made image.
#[derive(Clone, Copy, Debug, PartialEq, Eq, Structural)]
pub enum CachingHint {
    Allow,
    Disallow,
}

/// Compressed texture formats that an image can be made from.
#[derive(Clone, Copy, Debug, PartialEq, Eq, Structural)]
pub enum CompressionType {
    ETC1,
}

/// File formats that an image can be encoded to.
#[derive(Clone, Copy, Debug, PartialEq, Eq, Structural)]
pub enum EncodedImageFormat {
    BMP,
    GIF,
    ICO,
    JPEG,
    PNG,
    WBMP,
    WEBP,
    PKM,
    KTX,
    ASTC,
    DNG,
    HEIF,
    AVIF,
    JPEGXL,
}

/// How a shader continues an image beyond its edges.
#[derive(Clone, Copy, Debug, PartialEq, Eq, Structural)]
pub enum TileMode {
    Clamp,
    Repeat,
    Mirror,
    Decal,
}

/// The quality that an encoding asks for where the caller names none: the best.
pub const BEST_QUALITY: i32 = 100;

/// What an image is encoded with: the file format and the encoder's quality,
/// where 100 is the best.
#[derive(Clone, Copy, Debug, PartialEq, Eq, Structural)]
pub struct EncodeOptions {
    pub format: EncodedImageFormat,
    pub quality: i32,
}

/// What an image holds, as plain values: the description of its pixels and
/// the identifier that the engine gave it.
#[derive(Clone, Copy, Debug, PartialEq, Eq, Structural)]
pub struct ImageState {
    pub info: ImageInfo,
    pub unique_id: u32,
}

pub type Image = RCHandle<ImageState>;

impl RCHandle<ImageState> {
    pub fn image_info(&self) -> (r: &ImageInfo)
        ensures
            *r == self@.info,
    {
        &self.native().info
    }

    pub fn width(&self) -> (r: i32)
        ensures
            r == self@.info.dimensions.width,
    {
        self.image_info().width()
    }

    pub fn height(&self) -> (r: i32)
        ensures
            r == self@.info.dimensions.height,
    {
        self.image_info().height()
    }

    pub fn dimensions(&self) -> (r: ISize)
        ensures
            r == self@.info.dimensions,
    {
        self.image_info().dimensions()
    }

    pub fn bounds(&self) -> (r: IRect)
        ensures
            r == info_bounds(self@.info),
    {
        self.image_info().bounds()
    }

    pub fn unique_id(&self) -> (r: u32)
        ensures
            r == self@.unique_id,
    {
        self.native().unique_id
    }

    pub fn alpha_type(&self) -> (r: AlphaType)
        ensures
            r == self@.info.alpha_type,
    {
        self.image_info().alpha_type()
    }

    pub fn color_type(&self) -> (r: ColorType)
        ensures
            r == self@.info.color_type,
    {
        self.image_info().color_type()
    }

    /// An image is opaque when its alpha type is.
    pub fn is_opaque(&self) -> (r: bool)
        ensures
            r == (self@.info.alpha_type == AlphaType::Opaque),
    {
        self.alpha_type().is_opaque()
    }

    /// Encoding to `image_format` at the best quality.
    pub fn encode_to_data(&self, image_format: EncodedImageFormat) -> (r: EncodeOptions)
        ensures
            r == (EncodeOptions { format: image_format, quality: BEST_QUALITY }),
    {
        self.encode_to_data_with_quality(image_format, BEST_QUALITY)
    }

    /// Encoding to `image_format` at `quality`, where 100 is the best.
    pub fn encode_to_data_with_quality(&self, image_format: EncodedImageFormat, quality: i32) -> (r:
        EncodeOptions)
        ensures
            r == (EncodeOptions { format: image_format, quality }),
    {
        EncodeOptions { format: image_format, quality }
    }

    /// Whether a buffer of `buffer_bytes` bytes is the exact size for pixels
    /// of `dst_info` read with `dst_row_bytes` between rows; pixels are read
    /// only into a buffer of that size.
    pub fn read_pixels_buffer_fits(dst_info: &ImageInfo, buffer_bytes: usize, dst_row_bytes: usize) -> (r:
        bool)
        requires
            dst_info.dimensions.height >= 0,
        ensures
            r == (buffer_bytes == dst_info.dimensions.height * dst_row_bytes),
    {
        let height = dst_info.dimensions.height as usize;
        match height.checked_mul(dst_row_bytes) {
            Some(needed) => buffer_bytes == needed,
            None => false,
        }
    }
}

/// The tile modes of a shader made from an image: clamping on both axes
/// unless the caller names others.
pub open spec fn spec_shader_tile_modes(tile_modes: Option<(TileMode, TileMode)>) -> (
    TileMode,
    TileMode,
) {
    match tile_modes {
        Some(m) => m,
        None => (TileMode::Clamp, TileMode::Clamp),
    }
}

pub fn shader_tile_modes(tile_modes: Option<(TileMode, TileMode)>) -> (r: (TileMode, TileMode))
    ensures
        r == spec_shader_tile_modes(tile_modes),
{
    match tile_modes {
        Some(m) => m,
        None => (TileMode::Clamp, TileMode::Clamp),
    }
}

/// The caching hint of a scaling: caching is allowed unless the caller says otherwise.
pub fn scale_caching_hint(caching_hint: Option<CachingHint>) -> (r: CachingHint)
    ensures
        r == match caching_hint {
            Some(h) => h,
            None => CachingHint::Allow,
        },
{
    match caching_hint {
        Some(h) => h,
        None => CachingHint::Allow,
    }
}

} // verus!
