//! Plain-value models of a native 2D graphics engine's bitmap and image
//! objects, with the decisions that the safe wrappers make around the engine
//! calls: defaults, size checks, and what a failed allocation means.

pub mod geometry;
pub mod image_info;
pub mod handle;
pub mod bitmap;
pub mod image;
