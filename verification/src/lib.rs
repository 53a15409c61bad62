//! Derived artifacts for electronics projects: part information matched against a
//! part catalog, and schematic images rendered by a remote drafting service.
//!
//! The library computes what is sent to the remote services and what is made of
//! their answers. Sending and receiving is left to the caller, who hands the
//! outcome of each exchange back as a plain value.

pub mod bom;
pub mod components;
pub mod errors;
pub mod projects;
pub mod remote;
pub mod schematic;
