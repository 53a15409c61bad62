//! The components that a project is built of.

pub mod component;
