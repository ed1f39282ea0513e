//! Turns ASCII box drawings into vector primitives.
//!
//! The text is read into a [`Grid`] of display cells; every cell is matched
//! against a table of neighbourhood rules that yields lines, arcs, circles or
//! text placed on a lattice of quarter-cell points; the optimizer then fuses
//! primitives that continue one another, and each primitive becomes one SVG
//! node with its numbers written out in pixels.
pub mod element;
pub mod emit;
pub mod glyph;
pub mod grid;
pub mod loc;
pub mod number;
pub mod optimizer;
pub mod render;
pub mod rules;

pub use element::{CircleKind, Element, Feature, Point, Segment, Stroke};
pub use emit::{Node, Settings};
pub use grid::{GChar, Grid};
pub use loc::Loc;
pub use optimizer::Optimizer;
pub use render::{Svg, to_svg, to_svg_with_size, to_svg_with_size_nooptimization};
