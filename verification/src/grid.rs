//! The lines of the board and its star points.

use crate::board::{star_points, Goban, Point};
use crate::markup::{
    append, assign, assign_decimal, element_markup, lemma_add_all_step, lemma_add_all_twice,
    new_element, Markup,
};
use crate::options::MakeSvgOptions;
use crate::shapes::{at, coordinate, disc, disc_markup, segment, segment_markup, LINE_WIDTH};
use crate::text::decimal_text;
use vstd::prelude::*;

verus! {

/// Radius of the dot on a star point.
pub const HOSHI_RADIUS: i64 = 90_000;

/// The first `count` vertical lines: line `i` runs down column `i` from the
/// first row to the last.
pub open spec fn column_lines(size: (u8, u8), count: int) -> Seq<Markup> {
    Seq::new(
        count as nat,
        |i: int| segment_markup(i * 1_000_000, 0, i * 1_000_000, (size.1 - 1) * 1_000_000),
    )
}

/// The first `count` horizontal lines: line `j` runs along row `j` from the
/// first column to the last.
pub open spec fn row_lines(size: (u8, u8), count: int) -> Seq<Markup> {
    Seq::new(
        count as nat,
        |j: int| segment_markup(0, j * 1_000_000, (size.0 - 1) * 1_000_000, j * 1_000_000),
    )
}

/// A dot on each of the points.
pub open spec fn star_shapes(points: Seq<Point>) -> Seq<Markup> {
    points.map_values(|p: Point| disc_markup(at(p.0), at(p.1), HOSHI_RADIUS as int))
}

/// The group of the star points of a board.
pub open spec fn hoshi_markup(size: (u8, u8)) -> Markup {
    Markup::element("g"@).set("id"@, "hoshi"@).set("stroke"@, "none"@).set("fill"@, "black"@).add_all(
        star_shapes(star_points(size)),
    )
}

/// The grid of a board: every vertical line from left to right, every
/// horizontal line from top to bottom, and the group of the star points.
pub open spec fn board_lines_markup(size: (u8, u8)) -> Markup {
    Markup::element("g"@).set("id"@, "lines"@).set("stroke"@, "black"@).set(
        "stroke-width"@,
        decimal_text(LINE_WIDTH as int),
    ).set("stroke-linecap"@, "square"@).add_all(
        column_lines(size, size.0 as int) + row_lines(size, size.1 as int),
    ).add(hoshi_markup(size))
}

/// Draws the grid of the board and its star points.
pub fn build_board_lines_group(goban: &Goban, options: &MakeSvgOptions) -> (group:
    svg::node::element::Element)
    ensures
        element_markup(group) == board_lines_markup(goban.size),
{
    let width: u8 = goban.size.0;
    let height: u8 = goban.size.1;
    let mut group = new_element("g");
    assign(&mut group, "id", "lines");
    assign(&mut group, "stroke", "black");
    assign_decimal(&mut group, "stroke-width", LINE_WIDTH);
    assign(&mut group, "stroke-linecap", "square");
    let ghost base = element_markup(group);
    proof {
        lemma_add_all_step(base, Seq::empty(), base);
        assert(column_lines(goban.size, 0) == Seq::<Markup>::empty());
    }
    let bottom: i64 = (height as i64 - 1) * 1_000_000;
    let right: i64 = (width as i64 - 1) * 1_000_000;
    let mut x: u8 = 0;
    while x < width
        invariant
            x <= width,
            width == goban.size.0,
            height == goban.size.1,
            bottom == (goban.size.1 - 1) * 1_000_000,
            element_markup(group) == base.add_all(column_lines(goban.size, x as int)),
        decreases width - x,
    {
        let line = segment(coordinate(x), 0, coordinate(x), bottom);
        proof {
            lemma_add_all_step(base, column_lines(goban.size, x as int), element_markup(line));
            assert(column_lines(goban.size, x + 1) == column_lines(goban.size, x as int).push(
                element_markup(line),
            ));
        }
        append(&mut group, line);
        x += 1;
    }
    let ghost columns = element_markup(group);
    proof {
        lemma_add_all_step(columns, Seq::empty(), columns);
        assert(row_lines(goban.size, 0) == Seq::<Markup>::empty());
    }
    let mut y: u8 = 0;
    while y < height
        invariant
            y <= height,
            width == goban.size.0,
            height == goban.size.1,
            right == (goban.size.0 - 1) * 1_000_000,
            element_markup(group) == columns.add_all(row_lines(goban.size, y as int)),
        decreases height - y,
    {
        let line = segment(0, coordinate(y), right, coordinate(y));
        proof {
            lemma_add_all_step(columns, row_lines(goban.size, y as int), element_markup(line));
            assert(row_lines(goban.size, y + 1) == row_lines(goban.size, y as int).push(
                element_markup(line),
            ));
        }
        append(&mut group, line);
        y += 1;
    }
    proof {
        lemma_add_all_twice(
            base,
            column_lines(goban.size, width as int),
            row_lines(goban.size, height as int),
        );
    }
    let mut hoshi = new_element("g");
    assign(&mut hoshi, "id", "hoshi");
    assign(&mut hoshi, "stroke", "none");
    assign(&mut hoshi, "fill", "black");
    let points = goban.hoshi_points();
    let ghost plain = element_markup(hoshi);
    proof {
        lemma_add_all_step(plain, Seq::empty(), plain);
        assert(star_shapes(points@.subrange(0, 0)) == Seq::<Markup>::empty());
    }
    let n: usize = points.len();
    let mut i: usize = 0;
    while i < n
        invariant
            n == points@.len(),
            i <= n,
            element_markup(hoshi) == plain.add_all(star_shapes(points@.subrange(0, i as int))),
        decreases n - i,
    {
        let p: Point = points[i];
        let dot = disc(coordinate(p.0), coordinate(p.1), HOSHI_RADIUS);
        proof {
            lemma_add_all_step(
                plain,
                star_shapes(points@.subrange(0, i as int)),
                element_markup(dot),
            );
            assert(star_shapes(points@.subrange(0, i + 1)) == star_shapes(
                points@.subrange(0, i as int),
            ).push(element_markup(dot)));
        }
        append(&mut hoshi, dot);
        i += 1;
    }
    assert(points@.subrange(0, n as int) == points@);
    append(&mut group, hoshi);
    group
}

} // verus!
