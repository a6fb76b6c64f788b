//! Packaging pipeline for a registry of extensions: which extensions changed,
//! how a manifest is chosen and checked, and how a package is laid out.

pub mod diff;
pub mod index_map;
pub mod manifest;
pub mod package;
pub mod registry;
pub mod theme;
