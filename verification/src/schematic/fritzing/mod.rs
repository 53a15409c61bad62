//! Sketches for the Fritzing drafting tool, and the images that its export service
//! renders of them.

pub mod archive;
pub mod exporter;
pub mod generator;
