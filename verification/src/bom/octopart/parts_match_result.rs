use super::part::Part;
use vstd::prelude::*;

verus! {

/// The catalog's answer to one query of a batch.
#[derive(Clone, Debug, PartialEq, Eq)]
pub struct PartsMatchResult {
    /// Total number of matched items.
    pub hits: u32,
    /// Reference string specified in query.
    pub reference: Option<String>,
    /// List of matched parts.
    pub items: Vec<Part>,
    /// Error message (if applicable).
    pub error: Option<String>,
}

} // verus!
