//! A launcher-menu data source: a registry of named, runnable commands read
//! from a JSON configuration, searched by index and launched on confirmation.

pub mod host;
pub mod json;
pub mod matching;
pub mod registry;

