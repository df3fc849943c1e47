//! File extensions, without the leading dot.

use vstd::prelude::*;

verus! {

/// Rust source file.
pub const RS: &'static str = "rs";

/// TOML manifest.
pub const TOML: &'static str = "toml";

/// Compiled program.
pub const SO: &'static str = "so";

/// Program keypair.
pub const JSON: &'static str = "json";

/// Python source file.
pub const PY: &'static str = "py";

} // verus!
