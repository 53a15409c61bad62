use vstd::prelude::*;

verus! {

/// Price tables by currency. Each table lists (quantity break, price) pairs in the
/// order of the catalog; a price is kept as the decimal text that the catalog sent.
#[derive(Clone, Debug, PartialEq, Eq)]
pub struct PartPrices {
    /// Prices in US dollars.
    pub usd: Option<Vec<(u32, String)>>,
    /// Prices in euros.
    pub eur: Option<Vec<(u32, String)>>,
}

} // verus!
