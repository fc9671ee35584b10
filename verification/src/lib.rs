//! Verified binary and fixed-layout encoders and decoders for a
//! self-describing serialization data model.
pub mod bin_format;
pub mod decode;
pub mod encode;
pub mod error;
pub mod fixed;
pub mod parse;
pub mod payload;
pub mod primitive;
pub mod text;
pub mod vu128;
