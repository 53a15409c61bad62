use vstd::prelude::*;

verus! {

/// A seller of parts, as the catalog describes it.
#[derive(Clone, Debug, PartialEq, Eq)]
pub struct Seller {
    /// 64-bit unique identifier.
    pub uid: String,
    /// The seller's display name.
    pub name: String,
    /// The seller's homepage url.
    pub homepage_url: Option<String>,
    /// ISO 3166 alpha-2 country code for display flag (eg. US).
    pub display_flag: Option<String>,
    /// Whether seller has e-commerce.
    pub has_ecommerce: Option<bool>,
}

} // verus!
