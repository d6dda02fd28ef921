//! Attribute gathering and style deduplication for a declarative layout
//! library: attribute lists become class names, style rules and a single
//! deduplicated stylesheet.
pub mod adjust;
pub mod base;
pub mod classes;
pub mod element;
pub mod finalize;
pub mod flag;
pub mod gather;
pub mod html;
pub mod input;
pub mod laws;
pub mod layout;
pub mod length;
pub mod model;
pub mod num;
pub mod options;
pub mod reduce;
pub mod render;
pub mod sheet;
pub mod style;
pub mod text;
pub mod transform;
pub mod vdom;
