//! A builder of Garry's Mod (GLua) VGUI interfaces: the design model, the
//! exporter that writes the GLua code for a design, and the editing logic of
//! the editor (selection, history, structural edits).

pub mod ids;
pub mod text;
pub mod paths;
pub mod model;
pub mod codegen;
pub mod ui;
