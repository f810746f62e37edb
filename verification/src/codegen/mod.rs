//! The exporter: the GLua code that creates a design's panels.

pub mod paint;
pub mod setup;
pub mod script;

pub use self::script::generate_glua;
