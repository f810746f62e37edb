//! The design model: elements, their position and size expressions, their
//! layers, and the project that holds them.

pub mod element;
pub mod expr;
pub mod layer;
pub mod project;


pub use self::element::{BgImageMode, CloseButtonConfig, DockMode, ElementKind, UiElement};
pub use self::expr::{Measure, Num, NumAxis, NumExpr, StrExpr};
pub use self::layer::{GradientDirection, GradientFill, ImageLayer, TextAlign, TextLayer, reorder_layer};
pub use self::project::Project;
