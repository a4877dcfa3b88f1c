//! The body rule. The schema has a place for it; no validator reads it yet.

use vstd::prelude::*;

verus! {

/// The layout asked of the body of a commit message.
#[derive(Clone, Copy, Debug, PartialEq, Eq)]
pub struct BodyConfig {
    pub blank_line_at_start: bool,
    pub blank_lines_number: u8,
    pub max_line_length: u8,
}

} // verus!
