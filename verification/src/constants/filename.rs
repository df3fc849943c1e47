//! File names.

use vstd::prelude::*;

verus! {

/// Cargo manifest file.
pub const CARGO_TOML: &'static str = "Cargo.toml";

/// Anchor manifest file.
pub const ANCHOR_TOML: &'static str = "Anchor.toml";

/// Starting point of a Rust library.
pub const LIB_RS: &'static str = "lib.rs";

} // verus!
