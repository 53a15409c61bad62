//! Schematic images of projects, rendered by a remote drafting service.

pub mod fritzing;
pub mod schematic_provider;
