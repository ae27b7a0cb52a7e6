//! Validation and PNG encoding of flat RGB pixel buffers.

pub mod imgfile;

pub use imgfile::{encode_rgb_png, validate_rgb_buffer, ImageError};
