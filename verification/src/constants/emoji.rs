//! Symbols that prefix the outcome of a step, each with a plain replacement
//! for terminals without Unicode.

use vstd::prelude::*;

verus! {

/// Check mark.
pub const CHECKMARK: &'static str = "✔";

/// What stands for the check mark on a plain terminal.
pub const CHECKMARK_FALLBACK: &'static str = "+";

/// Cross.
pub const CROSS: &'static str = "✖";

/// What stands for the cross on a plain terminal.
pub const CROSS_FALLBACK: &'static str = "X";

} // verus!
