//! Projects, as far as the derived artifacts need them.

pub mod project;
