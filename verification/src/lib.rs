//! Locating a CUDA toolkit installation, reading its version, and binding its
//! runtime-compilation library once per process.

pub mod binding;
pub mod error;
pub mod header;
pub mod linking;
pub mod plan;
pub mod probe;
pub mod roots;
pub mod selection;
pub mod text;
pub mod version;
