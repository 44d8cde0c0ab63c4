//! Boxes of the ISO base media file format: their types, headers and sample entries.

pub mod bytes;
pub mod text;
pub mod types;

pub use types::{BoxHeader, BoxType, Error, FixedPointU16, HEADER_SIZE};

pub mod av01;

pub use av01::{Av01Box, Av1CBox};
pub mod hvc1;

pub use hvc1::{Hvc1Box, HvcCArray, HvcCArrayNalu, HvcCBox, RawBox};
