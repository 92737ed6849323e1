//! Batch conversion of WebP images to PNG within a directory tree.
//!
//! The library holds the decision logic of the pipeline: classifying file
//! names, planning which files to convert, skip or delete, computing renamed
//! directory names, and converting image bytes from WebP to PNG. All
//! filesystem access is left to the caller, which applies the plans.

pub mod codec;
pub mod errors;
pub mod names;
pub mod plan;
pub mod rename;
