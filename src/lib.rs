//! Resolves a consistent set of Quilt toolchain versions and renders them as a
//! Gradle version catalog.

pub mod catalog;
pub mod error;
pub mod resolver;
pub mod select;
pub mod text;
pub mod version;
