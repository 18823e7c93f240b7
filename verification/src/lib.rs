//! Renders a Go board position as a layered SVG document.
//!
//! All geometry is kept in whole millionths of a board unit (the distance
//! between two neighbouring lines), so every coordinate that reaches the
//! document is an exact decimal.

pub mod board;
pub mod grid;
pub mod layers;
pub mod markup;
pub mod moves;
pub mod options;
pub mod order;
pub mod range;
pub mod render;
pub mod shapes;
pub mod stable;
pub mod style;
pub mod text;

pub use board::{Goban, Marker, MoveRecord, Point, PointLabel, Stone, StoneColor};
pub use options::{MakeSvgOptions, NodeDescription};
pub use range::{GobanRange, GobanSVGError};
pub use render::make_svg;
pub use style::GobanStyle;
