//! Markers that open a line shown to the user.

use vstd::prelude::*;

verus! {

/// Opens a progress line.
pub const SHEEP: &'static str = "\u{1F411}";

/// Opens a suggestion.
pub const SLEUTH: &'static str = "\u{1F575}\u{FE0F}";

/// Opens a warning or an error.
pub const WARN: &'static str = "\u{26A0}\u{FE0F}";

} // verus!
