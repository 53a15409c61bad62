//! Bill-of-materials lookups against the part catalog.

pub mod bom_provider;
pub mod json;
pub mod octopart;
pub mod part_numbers;
pub mod web_address;
