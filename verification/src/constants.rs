//! Names that the supported project layouts are recognised by.

pub mod dirname;
pub mod emoji;
pub mod extension;
pub mod filename;
