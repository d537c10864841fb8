use vstd::prelude::*;
use crate::geometry::{IRect, ISize};
use crate::handle::Handle;
use crate::image_info::{empty_info, info_bounds, AlphaType, ColorType, ImageInfo};

verus! {

/// The engine's bit that asks for pixel memory to be zeroed.
pub const ZERO_PIXELS_BIT: u32 = 1;

/// Options for a pixel allocation.
#[derive(Clone, Copy, Debug, PartialEq, Eq, Structural)]
pub struct BitmapAllocFlags {
    bits: u32,
}

impl BitmapAllocFlags {
    pub closed spec fn spec_bits(&self) -> u32 {
        self.bits
    }

    pub fn empty() -> (r: Self)
        ensures
            r.spec_bits() == 0,
    {
        BitmapAllocFlags { bits: 0 }
    }

    /// Ask for the new pixel memory to be zeroed.
    pub fn zero_pixels() -> (r: Self)
        ensures
            r.spec_bits() == ZERO_PIXELS_BIT,
    {
        BitmapAllocFlags { bits: ZERO_PIXELS_BIT }
    }

    pub fn bits(&self) -> (r: u32)
        ensures
            r == self.spec_bits(),
    {
        self.bits
    }
}

/// What a bitmap holds, as plain values: the description of its pixels, the
/// distance in bytes between rows, and whether pixel memory is attached.
#[derive(Clone, Copy, Debug, PartialEq, Eq, Structural)]
pub struct BitmapState {
    pub info: ImageInfo,
    pub row_bytes: usize,
    pub has_pixels: bool,
}

/// The state of a bitmap that was just made, or reset: no pixels, no size.
pub open spec fn empty_bitmap() -> BitmapState {
    BitmapState { info: empty_info(), row_bytes: 0, has_pixels: false }
}

/// A pixel allocation that the engine refused, with what was asked of it.
#[derive(Clone, Copy, Debug, PartialEq, Eq)]
pub enum AllocError {
    /// Pixels for `info`, zeroed when `zero_pixels` was asked.
    Flags { info: ImageInfo, zero_pixels: bool },
    /// Pixels for `info`, with `row_bytes` between rows, or the least that fits.
    Info { info: ImageInfo, row_bytes: Option<usize> },
    /// Pixels of the native 32-bit color type.
    N32 { width: i32, height: i32, is_opaque: bool },
    /// Pixels for the description that the bitmap already had.
    Current { info: ImageInfo },
}

pub type Bitmap = Handle<BitmapState>;

impl Handle<BitmapState> {
    /// A bitmap without pixels, of width and height zero.
    pub fn new() -> (r: Self)
        ensures
            r@ == empty_bitmap(),
    {
        let state = BitmapState {
            info: ImageInfo::new_unknown(),
            row_bytes: 0,
            has_pixels: false,
        };
        Handle::from_native(state)
    }

    /// Exchanges the contents of two bitmaps.
    pub fn swap(&mut self, other: &mut Self)
        ensures
            final(self)@ == old(other)@,
            final(other)@ == old(self)@,
    {
        core::mem::swap(self, other);
    }

    pub fn info(&self) -> (r: ImageInfo)
        ensures
            r == self@.info,
    {
        self.native().info
    }

    pub fn width(&self) -> (r: i32)
        ensures
            r == self@.info.dimensions.width,
    {
        self.native().info.width()
    }

    pub fn height(&self) -> (r: i32)
        ensures
            r == self@.info.dimensions.height,
    {
        self.native().info.height()
    }

    pub fn color_type(&self) -> (r: ColorType)
        ensures
            r == self@.info.color_type,
    {
        self.native().info.color_type
    }

    pub fn alpha_type(&self) -> (r: AlphaType)
        ensures
            r == self@.info.alpha_type,
    {
        self.native().info.alpha_type
    }

    pub fn row_bytes(&self) -> (r: usize)
        ensures
            r == self@.row_bytes,
    {
        self.native().row_bytes
    }

    pub fn dimensions(&self) -> (r: ISize)
        ensures
            r == self@.info.dimensions,
    {
        self.native().info.dimensions
    }

    pub fn bounds(&self) -> (r: IRect)
        ensures
            r == info_bounds(self@.info),
    {
        self.native().info.bounds()
    }

    /// True when the width or the height is zero.
    pub fn empty(&self) -> (r: bool)
        ensures
            r == (self@.info.dimensions.width == 0 || self@.info.dimensions.height == 0),
    {
        let d = self.native().info.dimensions;
        d.width == 0 || d.height == 0
    }

    /// True when no pixel memory is attached.
    pub fn is_null(&self) -> (r: bool)
        ensures
            r == !self@.has_pixels,
    {
        !self.native().has_pixels
    }

    /// True when drawing the bitmap would draw nothing: it is empty or has no pixels.
    pub fn draws_nothing(&self) -> (r: bool)
        ensures
            r == (self@.info.dimensions.width == 0 || self@.info.dimensions.height == 0
                || !self@.has_pixels),
    {
        self.empty() || self.is_null()
    }

    /// Drops the pixels and the description: the bitmap is as if just made.
    pub fn reset(&mut self)
        ensures
            final(self)@ == empty_bitmap(),
    {
        *self = Self::new();
    }

    /// Takes the engine's answer to an allocation: the state that it reports,
    /// or `None` where it refused; a refusal resets the bitmap.
    fn settle_alloc(&mut self, allocated: Option<BitmapState>, refused: AllocError) -> (r: Result<
        (),
        AllocError,
    >)
        ensures
            match allocated {
                Some(s) => r is Ok && final(self)@ == s,
                None => r == Err::<(), AllocError>(refused) && final(self)@ == empty_bitmap(),
            },
    {
        match allocated {
            Some(s) => {
                self.set_native(s);
                Ok(())
            },
            None => {
                self.reset();
                Err(refused)
            },
        }
    }

    /// Allocates pixels for `image_info` with `flags`. `allocated` is what the
    /// engine reports afterwards: the bitmap's new state, or `None` where it
    /// could not allocate.
    pub fn alloc_pixels_flags(
        &mut self,
        image_info: &ImageInfo,
        flags: BitmapAllocFlags,
        allocated: Option<BitmapState>,
    ) -> (r: Result<(), AllocError>)
        ensures
            match allocated {
                Some(s) => r is Ok && final(self)@ == s,
                None => r == Err::<(), AllocError>(
                    AllocError::Flags {
                        info: *image_info,
                        zero_pixels: flags.spec_bits() & ZERO_PIXELS_BIT != 0,
                    },
                ) && final(self)@ == empty_bitmap(),
            },
    {
        let refused = AllocError::Flags {
            info: *image_info,
            zero_pixels: flags.bits() & ZERO_PIXELS_BIT != 0,
        };
        self.settle_alloc(allocated, refused)
    }

    /// Allocates pixels for `image_info` with `row_bytes` between rows, or the
    /// least that fits where `row_bytes` is `None`. `allocated` is what the
    /// engine reports afterwards.
    pub fn alloc_pixels_info(
        &mut self,
        image_info: &ImageInfo,
        row_bytes: Option<usize>,
        allocated: Option<BitmapState>,
    ) -> (r: Result<(), AllocError>)
        ensures
            match allocated {
                Some(s) => r is Ok && final(self)@ == s,
                None => r == Err::<(), AllocError>(
                    AllocError::Info { info: *image_info, row_bytes },
                ) && final(self)@ == empty_bitmap(),
            },
    {
        let refused = AllocError::Info { info: *image_info, row_bytes };
        self.settle_alloc(allocated, refused)
    }

    /// Allocates pixels of the native 32-bit color type, `dimensions` being
    /// width and height; opaque where `is_opaque` says so, premultiplied
    /// otherwise (also where it is `None`). `allocated` is what the engine
    /// reports afterwards.
    pub fn alloc_n32_pixels(
        &mut self,
        dimensions: (i32, i32),
        is_opaque: Option<bool>,
        allocated: Option<BitmapState>,
    ) -> (r: Result<(), AllocError>)
        ensures
            match allocated {
                Some(s) => r is Ok && final(self)@ == s,
                None => r == Err::<(), AllocError>(
                    AllocError::N32 {
                        width: dimensions.0,
                        height: dimensions.1,
                        is_opaque: n32_is_opaque(is_opaque),
                    },
                ) && final(self)@ == empty_bitmap(),
            },
    {
        let refused = AllocError::N32 {
            width: dimensions.0,
            height: dimensions.1,
            is_opaque: n32_opaque_choice(is_opaque),
        };
        self.settle_alloc(allocated, refused)
    }

    /// Allocates pixels for the description the bitmap already has.
    /// `allocated` is what the engine reports afterwards.
    pub fn alloc_pixels(&mut self, allocated: Option<BitmapState>) -> (r: Result<(), AllocError>)
        ensures
            match allocated {
                Some(s) => r is Ok && final(self)@ == s,
                None => r == Err::<(), AllocError>(AllocError::Current { info: old(self)@.info })
                    && final(self)@ == empty_bitmap(),
            },
    {
        let refused = AllocError::Current { info: self.info() };
        self.settle_alloc(allocated, refused)
    }
}

/// An N32 allocation is opaque only where the caller says so.
pub open spec fn n32_is_opaque(is_opaque: Option<bool>) -> bool {
    match is_opaque {
        Some(b) => b,
        None => false,
    }
}

/// Resolves the optional opacity of an N32 allocation: not opaque unless asked.
pub fn n32_opaque_choice(is_opaque: Option<bool>) -> (r: bool)
    ensures
        r == n32_is_opaque(is_opaque),
{
    match is_opaque {
        Some(b) => b,
        None => false,
    }
}

} // verus!
