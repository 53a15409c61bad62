use super::part_prices::PartPrices;
use super::seller::Seller;
use vstd::prelude::*;

verus! {

/// One seller's listing of a part.
#[derive(Clone, Debug, PartialEq, Eq)]
pub struct PartOffer {
    /// The seller's part number.
    pub sku: String,
    /// Object representing the seller.
    pub seller: Seller,
    /// The (ISO 3166-1 alpha-2) or (ISO 3166-2) code indicating the geo-political region(s) for
    /// which offer is valid (eg. US-NY).
    pub eligible_region: Option<String>,
    /// URL for seller landing page.
    pub product_url: Option<String>,
    /// URL for generating RFQ through the catalog.
    pub octopart_rfq_url: Option<String>,
    /// Price tables by currency.
    pub prices: PartPrices,
    /// The number of parts the seller has in stock ready for shipment. Negative numbers are
    /// codes, not counts:
    /// -1: non-stocked (seller is not currently stocking the product)
    /// -2: yes (seller has the product in stock but has not reported the quantity)
    /// -3: unknown (seller has not indicated whether or not they have parts in stock)
    /// -4: a quote has to be requested
    pub in_stock_quantity: i32,
    /// Number of parts on order from factory.
    pub on_order_quantity: Option<u32>,
    /// ISO 8601 formatted ETA of order from factory.
    pub on_order_eta: Option<String>,
    /// Number of days to acquire parts from factory.
    pub factory_lead_days: Option<u32>,
    /// Order multiple for factory orders.
    pub factory_order_multiple: Option<u32>,
    /// Number of items which must be ordered together.
    pub order_multiple: Option<u32>,
    /// Minimum order quantity.
    pub moq: Option<u32>,
    /// Form of offer packaging (e.g. reel, tape).
    pub packaging: Option<String>,
    /// True if seller is authorized by manufacturer.
    pub is_authorized: bool,
    /// ISO 8601 formatted time when offer was last updated by the seller.
    pub last_updated: String,
}

} // verus!
