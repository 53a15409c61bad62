use super::part_offer::PartOffer;
use vstd::prelude::*;

verus! {

/// A part of the catalog.
#[derive(Clone, Debug, PartialEq, Eq)]
pub struct Part {
    /// 64-bit unique identifier.
    pub uid: String,
    /// The manufacturer part number.
    pub mpn: String,
    /// The url of the catalog's detail page for the part.
    pub octopart_url: String,
    /// The offers for the part, in the order of the catalog.
    pub offers: Vec<PartOffer>,
}

} // verus!
