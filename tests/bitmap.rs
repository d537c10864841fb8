use skia_core::bitmap::{AllocError, Bitmap, BitmapAllocFlags, BitmapState, n32_opaque_choice};
use skia_core::geometry::{IRect, ISize};
use skia_core::image_info::{AlphaType, ColorType, ImageInfo};

fn rgba_info(width: i32, height: i32) -> ImageInfo {
    ImageInfo::new(ISize::new(width, height), ColorType::RGBA8888, AlphaType::Premul)
}

fn allocated(info: ImageInfo, row_bytes: usize) -> BitmapState {
    BitmapState { info, row_bytes, has_pixels: true }
}

#[test]
fn create_clone_and_drop() {
    let bm = Bitmap::new();
    let _bm2 = bm.clone();
}

#[test]
fn get_info() {
    let bm = Bitmap::new();
    let _info = bm.info();
}

#[test]
fn new_bitmap_is_empty_and_draws_nothing() {
    let bm = Bitmap::new();
    assert_eq!(bm.info(), ImageInfo::new_unknown());
    assert_eq!(bm.width(), 0);
    assert_eq!(bm.height(), 0);
    assert_eq!(bm.row_bytes(), 0);
    assert_eq!(bm.color_type(), ColorType::Unknown);
    assert_eq!(bm.alpha_type(), AlphaType::Unknown);
    assert!(bm.empty());
    assert!(bm.is_null());
    assert!(bm.draws_nothing());
    assert_eq!(bm.bounds(), IRect::new(0, 0, 0, 0));
}

#[test]
fn alloc_pixels_info_takes_reported_state() {
    let mut bm = Bitmap::new();
    let info = rgba_info(16, 8);
    assert_eq!(bm.alloc_pixels_info(&info, None, Some(allocated(info, 64))), Ok(()));
    assert_eq!(bm.width(), 16);
    assert_eq!(bm.height(), 8);
    assert_eq!(bm.row_bytes(), 64);
    assert_eq!(bm.dimensions(), ISize::new(16, 8));
    assert_eq!(bm.bounds(), IRect::new(0, 0, 16, 8));
    assert!(!bm.empty());
    assert!(!bm.is_null());
    assert!(!bm.draws_nothing());
}

#[test]
fn alloc_pixels_info_refused_resets() {
    let mut bm = Bitmap::new();
    let info = rgba_info(16, 8);
    bm.alloc_pixels_info(&info, Some(128), Some(allocated(info, 128))).unwrap();
    let r = bm.alloc_pixels_info(&info, Some(3), None);
    assert_eq!(r, Err(AllocError::Info { info, row_bytes: Some(3) }));
    assert_eq!(bm.info(), ImageInfo::new_unknown());
    assert_eq!(bm.row_bytes(), 0);
    assert!(bm.is_null());
}

#[test]
fn alloc_pixels_flags_reports_zeroing() {
    let mut bm = Bitmap::new();
    let info = rgba_info(2, 2);
    let r = bm.alloc_pixels_flags(&info, BitmapAllocFlags::zero_pixels(), None);
    assert_eq!(r, Err(AllocError::Flags { info, zero_pixels: true }));
    let r = bm.alloc_pixels_flags(&info, BitmapAllocFlags::empty(), None);
    assert_eq!(r, Err(AllocError::Flags { info, zero_pixels: false }));
    assert_eq!(bm.alloc_pixels_flags(&info, BitmapAllocFlags::zero_pixels(), Some(allocated(info, 8))), Ok(()));
    assert_eq!(bm.row_bytes(), 8);
    assert_eq!(BitmapAllocFlags::zero_pixels().bits(), 1);
    assert_eq!(BitmapAllocFlags::empty().bits(), 0);
}

#[test]
fn alloc_n32_pixels_is_premultiplied_by_default() {
    let mut bm = Bitmap::new();
    assert_eq!(
        bm.alloc_n32_pixels((10, 20), None, None),
        Err(AllocError::N32 { width: 10, height: 20, is_opaque: false })
    );
    assert_eq!(
        bm.alloc_n32_pixels((10, 20), Some(true), None),
        Err(AllocError::N32 { width: 10, height: 20, is_opaque: true })
    );
    assert!(!n32_opaque_choice(None));
    assert!(n32_opaque_choice(Some(true)));
    assert!(!n32_opaque_choice(Some(false)));
    let info = ImageInfo::new(ISize::new(10, 20), ColorType::BGRA8888, AlphaType::Opaque);
    assert_eq!(bm.alloc_n32_pixels((10, 20), Some(true), Some(allocated(info, 40))), Ok(()));
    assert_eq!(bm.color_type(), ColorType::BGRA8888);
    assert_eq!(bm.alpha_type(), AlphaType::Opaque);
}

#[test]
fn alloc_pixels_refused_names_previous_info() {
    let mut bm = Bitmap::new();
    let info = rgba_info(4, 4);
    bm.alloc_pixels_info(&info, None, Some(allocated(info, 16))).unwrap();
    assert_eq!(bm.alloc_pixels(None), Err(AllocError::Current { info }));
    assert!(bm.draws_nothing());
    assert_eq!(bm.alloc_pixels(Some(allocated(info, 16))), Ok(()));
    assert_eq!(bm.info(), info);
}

#[test]
fn reset_returns_to_new_state() {
    let mut bm = Bitmap::new();
    let info = rgba_info(4, 4);
    bm.alloc_pixels_info(&info, None, Some(allocated(info, 16))).unwrap();
    bm.reset();
    assert_eq!(bm.info(), ImageInfo::new_unknown());
    assert!(bm.is_null());
}

#[test]
fn swap_exchanges_contents() {
    let mut a = Bitmap::new();
    let mut b = Bitmap::new();
    let info = rgba_info(5, 6);
    b.alloc_pixels_info(&info, None, Some(allocated(info, 20))).unwrap();
    a.swap(&mut b);
    assert_eq!(a.info(), info);
    assert_eq!(a.row_bytes(), 20);
    assert_eq!(b.info(), ImageInfo::new_unknown());
    assert!(b.is_null());
}
