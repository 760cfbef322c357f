//! A retained-mode layout engine: size and position rules, style sheets with
//! dirty tracking, and an element tree whose boxes are resolved top-down.
//!
//! Lengths are whole pixels. Rules carry `i32` payloads, resolved boxes hold
//! `i32` coordinates, and every intermediate value is computed exactly in
//! `i128` before it is clipped to the `i32` range.

pub mod algebra;
pub mod laws;
pub mod styles;
pub mod tree;

pub use tree::{Children, Element, ElementKey, Gui, LayoutError, NodeTransform, Placement};
