//! Fluent helpers that attach derive and attribute text to the types and
//! fields that `prost-build` and `tonic-build` generate.
//!
//! A build script names the types and fields by their protobuf paths and
//! picks a family of attributes for them: serde, `serde_with`, sqlx,
//! `derive_builder`, strum, or any text of its own. The helpers hand the
//! texts to the generator's configuration, which places them above the
//! matching declarations when it generates the code.
//!
//! - [`utils`] is the catalog of attribute texts.
//! - [`model`] describes what a configuration has had attached to it, what
//!   each operation adds, and what holds of the operations taken together.
//! - [`prost`] carries the operations for `prost_build::Config`, which is
//!   changed in place.
//! - [`tonic`] carries them for `tonic_build::Builder`, which is passed along
//!   by value.

pub mod model;
pub mod prost;
pub mod tonic;
pub mod utils;
