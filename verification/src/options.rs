//! What to draw, and how.

use crate::range::GobanRange;
use crate::style::GobanStyle;
use vstd::prelude::*;

verus! {

/// Which node of a game record a diagram shows.
#[derive(Debug)]
pub enum NodeDescription {
    /// The node reached after this many moves along the main line.
    Number(u64),
    /// The node reached from the root by taking, at each step, the child with the given index.
    Path(Vec<usize>),
}

/// The options of one rendering.
#[derive(Debug)]
pub struct MakeSvgOptions {
    pub node_description: NodeDescription,
    pub goban_range: GobanRange,
    pub style: GobanStyle,
    /// Width of the picture in output units. The height follows from the
    /// shape of the part of the board that is shown.
    pub viewbox_width: u32,
    pub draw_board_labels: bool,
    pub draw_move_numbers: bool,
    pub draw_marks: bool,
    pub draw_triangles: bool,
    pub draw_circles: bool,
    pub draw_squares: bool,
    pub draw_selected: bool,
    pub draw_dimmed: bool,
    pub draw_labels: bool,
    pub draw_lines: bool,
    pub draw_arrows: bool,
    /// Moves with a smaller number get no move number; this one is shown as 1.
    pub first_move_number: u64,
}

impl Default for MakeSvgOptions {
    /// The first node, the whole board in the `Simple` style, 800 units
    /// wide, with board labels and every kind of markup but move numbers.
    fn default() -> (options: Self)
        ensures
            options.node_description == NodeDescription::Number(0),
            options.goban_range is FullBoard,
            options.style == GobanStyle::Simple,
            options.viewbox_width == 800,
            options.draw_board_labels,
            !options.draw_move_numbers,
            options.draw_marks,
            options.draw_triangles,
            options.draw_circles,
            options.draw_squares,
            options.draw_selected,
            options.draw_dimmed,
            options.draw_labels,
            options.draw_lines,
            options.draw_arrows,
            options.first_move_number == 1,
    {
        MakeSvgOptions {
            node_description: NodeDescription::Number(0),
            goban_range: GobanRange::FullBoard,
            style: GobanStyle::Simple,
            viewbox_width: 800,
            draw_board_labels: true,
            draw_move_numbers: false,
            draw_marks: true,
            draw_triangles: true,
            draw_circles: true,
            draw_squares: true,
            draw_selected: true,
            draw_dimmed: true,
            draw_labels: true,
            draw_lines: true,
            draw_arrows: true,
            first_move_number: 1,
        }
    }
}

} // verus!
