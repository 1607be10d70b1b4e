//! Safe wrappers around libavif's encoder, decoder and image objects, with the
//! values those objects carry modelled as plain data, and the tidying of the
//! generated libavif bindings.
//!
//! libavif's own work (allocating objects, encoding, decoding, converting
//! pixels) happens outside this crate; the wrappers take what libavif
//! reported and decide what the caller gets.

pub mod bindings;
pub mod data;
pub mod decoder;
pub mod encoder;
pub mod error;
pub mod image;
#[allow(non_camel_case_types, non_snake_case)]
pub mod sys;
pub mod text;

pub use data::Data;
pub use decoder::{Decoder, ReadRequest};
pub use encoder::{AddImageFlags, AddImageRequest, Encoder, WriteRequest, Written};
pub use error::{Error, Result};
pub use image::{BitDepth, Image, PixelFormat, RgbConversion, RgbFormat, RgbImage, RgbRequest};
