use vstd::prelude::*;
use crate::geometry::{IRect, ISize};

verus! {

/// How the bits of a pixel are laid out.
#[derive(Clone, Copy, Debug, PartialEq, Eq, Structural)]
pub enum ColorType {
    Unknown,
    Alpha8,
    RGB565,
    ARGB4444,
    RGBA8888,
    RGB888x,
    BGRA8888,
    RGBA1010102,
    BGRA1010102,
    RGB101010x,
    BGR101010x,
    BGR101010xXR,
    Gray8,
    RGBAF16Norm,
    RGBAF16,
    RGBAF32,
    R8G8UNorm,
    A16Float,
    R16G16Float,
    A16UNorm,
    R16G16UNorm,
    R16G16B16A16UNorm,
    SRGBA8888,
    R8UNorm,
}

/// How the alpha channel of a pixel is to be read.
#[derive(Clone, Copy, Debug, PartialEq, Eq, Structural)]
pub enum AlphaType {
    Unknown,
    Opaque,
    Premul,
    Unpremul,
}

impl AlphaType {
    /// An alpha type is opaque when every pixel is known to be fully opaque.
    pub fn is_opaque(self) -> (r: bool)
        ensures
            r == (self == AlphaType::Opaque),
    {
        match self {
            AlphaType::Opaque => true,
            _ => false,
        }
    }
}

/// The description of a pixel buffer: its dimensions and the meaning of its pixels.
#[derive(Clone, Copy, Debug, PartialEq, Eq, Structural)]
pub struct ImageInfo {
    pub dimensions: ISize,
    pub color_type: ColorType,
    pub alpha_type: AlphaType,
}

impl ImageInfo {
    pub fn new(dimensions: ISize, color_type: ColorType, alpha_type: AlphaType) -> (r: ImageInfo)
        ensures
            r == (ImageInfo { dimensions, color_type, alpha_type }),
    {
        ImageInfo { dimensions, color_type, alpha_type }
    }

    /// The description that a buffer without pixels has: no size, unknown types.
    pub fn new_unknown() -> (r: ImageInfo)
        ensures
            r == empty_info(),
    {
        ImageInfo {
            dimensions: ISize { width: 0, height: 0 },
            color_type: ColorType::Unknown,
            alpha_type: AlphaType::Unknown,
        }
    }

    pub fn width(&self) -> (r: i32)
        ensures
            r == self.dimensions.width,
    {
        self.dimensions.width
    }

    pub fn height(&self) -> (r: i32)
        ensures
            r == self.dimensions.height,
    {
        self.dimensions.height
    }

    pub fn dimensions(&self) -> (r: ISize)
        ensures
            r == self.dimensions,
    {
        self.dimensions
    }

    /// The rectangle at the origin that the pixels cover.
    pub fn bounds(&self) -> (r: IRect)
        ensures
            r == info_bounds(*self),
    {
        IRect::from_size(self.dimensions)
    }

    pub fn color_type(&self) -> (r: ColorType)
        ensures
            r == self.color_type,
    {
        self.color_type
    }

    pub fn alpha_type(&self) -> (r: AlphaType)
        ensures
            r == self.alpha_type,
    {
        self.alpha_type
    }

    pub fn is_empty(&self) -> (r: bool)
        ensures
            r == (self.dimensions.width <= 0 || self.dimensions.height <= 0),
    {
        self.dimensions.is_empty()
    }

    pub fn is_opaque(&self) -> (r: bool)
        ensures
            r == (self.alpha_type == AlphaType::Opaque),
    {
        self.alpha_type.is_opaque()
    }
}

/// No size, unknown color type, unknown alpha type.
pub open spec fn empty_info() -> ImageInfo {
    ImageInfo {
        dimensions: ISize { width: 0, height: 0 },
        color_type: ColorType::Unknown,
        alpha_type: AlphaType::Unknown,
    }
}

/// The rectangle from the origin to the width and height of `info`.
pub open spec fn info_bounds(info: ImageInfo) -> IRect {
    IRect { left: 0, top: 0, right: info.dimensions.width, bottom: info.dimensions.height }
}

} // verus!
