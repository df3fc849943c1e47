//! Directory names.

use vstd::prelude::*;

verus! {

/// Source directory of a program.
pub const SRC: &'static str = "src";

/// Build output directory.
pub const TARGET: &'static str = "target";

/// Directory under the build output that holds keypairs and compiled programs.
pub const DEPLOY: &'static str = "deploy";

/// Directory that holds the Python sources of Seahorse programs.
pub const PROGRAMS_PY: &'static str = "programs_py";

} // verus!
