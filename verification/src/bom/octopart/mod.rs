//! The documents that the part catalog exchanges.

pub mod part;
pub mod part_offer;
pub mod part_prices;
pub mod parts_match_query;
pub mod parts_match_request;
pub mod parts_match_response;
pub mod parts_match_result;
pub mod seller;
