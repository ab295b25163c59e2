//! Command-execution core of a GPU-accelerated 2D vector-graphics canvas.
//!
//! The crate holds the image store, the command and vertex model, the
//! renderer interface and the planning of GPU work for one frame.

pub mod error;
pub mod fan;
pub mod geometry;
pub mod image;
pub mod paint;
pub mod renderer;
pub mod text;

pub use error::ErrorKind;
pub use geometry::Size;
pub use image::{Image, ImageFlags, ImageFormat, ImageId, ImageInfo, ImageSource, ImageStore};
pub use paint::{BlendFactor, Color, CompositeOperationState, FillRule, Params};
