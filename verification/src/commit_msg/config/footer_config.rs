//! The footer rule. The schema has a place for it; no validator reads it yet.

use vstd::prelude::*;

verus! {

/// The keys a footer line may start with.
#[derive(Clone, Debug, PartialEq, Eq)]
pub struct FooterConfig {
    pub allowed_keys: Vec<String>,
}

} // verus!
