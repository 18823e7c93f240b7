//! The shapes drawn on single points: stones, move numbers and markup.
//!
//! Lines of the board are one unit apart, so the point in column `x` and
//! row `y` is drawn around the coordinates (`x`, `y`).

use crate::board::{Stone, StoneColor};
use crate::markup::{
    append, append_text, assign, assign_decimal, element_markup, new_element, Markup,
};
use crate::style::GobanStyle;
use crate::text::{decimal_text, natural_string, natural_text, push_decimal, UNIT};
use vstd::prelude::*;
use vstd::string::*;

verus! {

/// Width of the board's lines and of thin outlines.
pub const LINE_WIDTH: i64 = 30_000;

/// Width of the strokes of a mark.
pub const MARKUP_WIDTH: i64 = 100_000;

/// Radius of a shaded stone.
pub const SHADED_STONE_RADIUS: i64 = 475_000;

/// Radius of a flat stone.
pub const FLAT_STONE_RADIUS: i64 = 480_000;

/// How far a shaded stone's shadow lies down and to the right.
pub const SHADOW_OFFSET: i64 = 25_000;

/// How far a shaded stone's body lies up and to the left.
pub const BODY_OFFSET: i64 = 17_000;

/// Half the length of a mark's arm along each axis.
pub const MARK_ARM: i64 = 250_000;

/// Distance from a triangle's centre to its corners.
pub const TRIANGLE_RADIUS: i64 = 450_000;

/// Half the width of a triangle's base: the radius times 0.866.
pub const TRIANGLE_HALF_BASE: i64 = 389_700;

/// How far a triangle's base lies below its centre: half the radius.
pub const TRIANGLE_DROP: i64 = 225_000;

/// Radius of a circle marker.
pub const CIRCLE_RADIUS: i64 = 250_000;

/// Half the width of a square marker.
pub const SQUARE_HALF_WIDTH: i64 = 275_000;

/// Half the width of a selection marker.
pub const SELECTED_HALF_WIDTH: i64 = 125_000;

/// Half the width of the square that backs text on an empty point.
pub const BACKING_HALF_WIDTH: i64 = 400_000;

/// The coordinate of a line of the board, in millionths.
pub open spec fn at(i: u8) -> int {
    i * 1_000_000
}

/// The coordinate of a line of the board, in millionths.
pub fn coordinate(i: u8) -> (c: i64)
    ensures
        c == at(i),
{
    i as i64 * UNIT
}

/// A `circle` element with centre and radius.
pub open spec fn disc_markup(cx: int, cy: int, r: int) -> Markup {
    Markup::element("circle"@).set("cx"@, decimal_text(cx)).set("cy"@, decimal_text(cy)).set(
        "r"@,
        decimal_text(r),
    )
}

/// A `rect` element with its corner and its size.
pub open spec fn rect_markup(x: int, y: int, width: int, height: int) -> Markup {
    Markup::element("rect"@).set("x"@, decimal_text(x)).set("y"@, decimal_text(y)).set(
        "width"@,
        decimal_text(width),
    ).set("height"@, decimal_text(height))
}

/// A `line` element between two points.
pub open spec fn segment_markup(x1: int, y1: int, x2: int, y2: int) -> Markup {
    Markup::element("line"@).set("x1"@, decimal_text(x1)).set("x2"@, decimal_text(x2)).set(
        "y1"@,
        decimal_text(y1),
    ).set("y2"@, decimal_text(y2))
}

/// The square, in the background's colour, that backs text on an empty point.
pub open spec fn backing_markup(x: u8, y: u8, style: GobanStyle) -> Markup {
    Markup::element("rect"@).set("fill"@, style.background()).set(
        "x"@,
        decimal_text(at(x) - BACKING_HALF_WIDTH),
    ).set("y"@, decimal_text(at(y) - BACKING_HALF_WIDTH)).set(
        "width"@,
        decimal_text(2 * BACKING_HALF_WIDTH),
    ).set("height"@, decimal_text(2 * BACKING_HALF_WIDTH))
}

/// A group holding the backing square, on an empty point only, and then the shape.
pub open spec fn backed_markup(
    x: u8,
    y: u8,
    under: Option<StoneColor>,
    style: GobanStyle,
    shape: Markup,
) -> Markup {
    if under is None {
        Markup::element("g"@).add(backing_markup(x, y, style)).add(shape)
    } else {
        Markup::element("g"@).add(shape)
    }
}

/// A stone. `Fancy` draws a half-transparent shadow, lower right, under a
/// body filled with the colour's gradient, upper left; the flat styles draw
/// one outlined disc.
pub open spec fn stone_markup(stone: Stone, style: GobanStyle) -> Markup {
    match style {
        GobanStyle::Fancy => Markup::element("g"@).add(
            disc_markup(
                at(stone.x) + SHADOW_OFFSET,
                at(stone.y) + SHADOW_OFFSET,
                SHADED_STONE_RADIUS as int,
            ).set("fill"@, "black"@).set("fill-opacity"@, decimal_text(500_000)),
        ).add(
            disc_markup(
                at(stone.x) - BODY_OFFSET,
                at(stone.y) - BODY_OFFSET,
                SHADED_STONE_RADIUS as int,
            ).set(
                "fill"@,
                match stone.color {
                    StoneColor::Black => "url(#black-stone-fill)"@,
                    StoneColor::White => "url(#white-stone-fill)"@,
                },
            ),
        ),
        _ => Markup::element("g"@).add(
            disc_markup(at(stone.x), at(stone.y), FLAT_STONE_RADIUS as int).set(
                "stroke"@,
                "black"@,
            ).set("stroke-width"@, decimal_text(LINE_WIDTH as int)).set(
                "fill"@,
                GobanStyle::stone_paint(stone.color),
            ),
        ),
    }
}

/// A move number, centred on the point, in the markup colour.
pub open spec fn move_number_markup(
    x: u8,
    y: u8,
    n: u64,
    under: Option<StoneColor>,
    style: GobanStyle,
) -> Markup {
    backed_markup(
        x,
        y,
        under,
        style,
        Markup::element("text"@).set("x"@, decimal_text(at(x))).set("y"@, decimal_text(at(y))).set(
            "dy"@,
            "0.35em"@,
        ).set("fill"@, style.markup_paint(under)).add(Markup::text(natural_text(n as nat))),
    )
}

/// A mark: two diagonal strokes that cross on the point.
pub open spec fn mark_markup(x: u8, y: u8, under: Option<StoneColor>, style: GobanStyle) -> Markup {
    Markup::element("g"@).set("stroke"@, style.markup_paint(under)).set(
        "stroke-width"@,
        decimal_text(MARKUP_WIDTH as int),
    ).add(
        segment_markup(at(x) - MARK_ARM, at(y) - MARK_ARM, at(x) + MARK_ARM, at(y) + MARK_ARM),
    ).add(segment_markup(at(x) - MARK_ARM, at(y) + MARK_ARM, at(x) + MARK_ARM, at(y) - MARK_ARM))
}

/// The corners of a triangle round a point: the top, the lower left, the
/// lower right, each as `x,y`, a space between two corners.
pub open spec fn triangle_points(x: u8, y: u8) -> Seq<char> {
    decimal_text(at(x)) + seq![','] + decimal_text(at(y) - TRIANGLE_RADIUS) + seq![' ']
        + decimal_text(at(x) - TRIANGLE_HALF_BASE) + seq![','] + decimal_text(
        at(y) + TRIANGLE_DROP,
    ) + seq![' '] + decimal_text(at(x) + TRIANGLE_HALF_BASE) + seq![','] + decimal_text(
        at(y) + TRIANGLE_DROP,
    )
}

/// A triangle marker: the outline of an upright triangle round the point.
pub open spec fn triangle_markup(
    x: u8,
    y: u8,
    under: Option<StoneColor>,
    style: GobanStyle,
) -> Markup {
    Markup::element("g"@).set("stroke"@, style.markup_paint(under)).set("fill"@, "none"@).set(
        "stroke-width"@,
        decimal_text(LINE_WIDTH as int),
    ).add(Markup::element("polygon"@).set("points"@, triangle_points(x, y)))
}

/// A circle marker: the outline of a circle round the point.
pub open spec fn circle_markup(
    x: u8,
    y: u8,
    under: Option<StoneColor>,
    style: GobanStyle,
) -> Markup {
    Markup::element("g"@).set("stroke"@, style.markup_paint(under)).set("fill"@, "none"@).set(
        "stroke-width"@,
        decimal_text(LINE_WIDTH as int),
    ).add(disc_markup(at(x), at(y), CIRCLE_RADIUS as int))
}

/// A square marker: the outline of a square round the point.
pub open spec fn square_markup(
    x: u8,
    y: u8,
    under: Option<StoneColor>,
    style: GobanStyle,
) -> Markup {
    Markup::element("g"@).set("stroke"@, style.markup_paint(under)).set("fill"@, "none"@).set(
        "stroke-width"@,
        decimal_text(LINE_WIDTH as int),
    ).add(
        rect_markup(
            at(x) - SQUARE_HALF_WIDTH,
            at(y) - SQUARE_HALF_WIDTH,
            2 * SQUARE_HALF_WIDTH,
            2 * SQUARE_HALF_WIDTH,
        ),
    )
}

/// A selection highlight: a small filled square on the point.
pub open spec fn selected_markup(
    x: u8,
    y: u8,
    under: Option<StoneColor>,
    style: GobanStyle,
) -> Markup {
    Markup::element("g"@).set("stroke"@, "none"@).set("fill"@, style.selected_paint(under)).set(
        "stroke-width"@,
        decimal_text(LINE_WIDTH as int),
    ).add(
        rect_markup(
            at(x) - SELECTED_HALF_WIDTH,
            at(y) - SELECTED_HALF_WIDTH,
            2 * SELECTED_HALF_WIDTH,
            2 * SELECTED_HALF_WIDTH,
        ),
    )
}

/// Dimming: a half-transparent black square over the whole cell of the point.
pub open spec fn dimmed_markup(x: u8, y: u8) -> Markup {
    Markup::element("g"@).set("stroke"@, "none"@).set("fill"@, "black"@).set(
        "fill-opacity"@,
        decimal_text(500_000),
    ).set("shape-rendering"@, "crispEdges"@).add(
        rect_markup(at(x) - 500_000, at(y) - 500_000, 1_000_000, 1_000_000),
    )
}

/// A text cut to its first two characters.
pub open spec fn short_text(text: Seq<char>) -> Seq<char> {
    if text.len() <= 2 {
        text
    } else {
        text.subrange(0, 2)
    }
}

/// A text label, cut to two characters and centred on the point.
pub open spec fn label_markup(
    x: u8,
    y: u8,
    text: Seq<char>,
    under: Option<StoneColor>,
    style: GobanStyle,
) -> Markup {
    backed_markup(
        x,
        y,
        under,
        style,
        Markup::element("text"@).set("x"@, decimal_text(at(x))).set("y"@, decimal_text(at(y))).set(
            "text-anchor"@,
            "middle"@,
        ).set("dy"@, "0.35em"@).set("fill"@, style.markup_paint(under)).add(
            Markup::text(short_text(text)),
        ),
    )
}

/// A `circle` element with centre and radius, in millionths.
pub fn disc(cx: i64, cy: i64, r: i64) -> (e: svg::node::element::Element)
    ensures
        element_markup(e) == disc_markup(cx as int, cy as int, r as int),
{
    let mut e = new_element("circle");
    assign_decimal(&mut e, "cx", cx);
    assign_decimal(&mut e, "cy", cy);
    assign_decimal(&mut e, "r", r);
    e
}

/// A `rect` element with its corner and its size, in millionths.
pub fn rect(x: i64, y: i64, width: i64, height: i64) -> (e: svg::node::element::Element)
    ensures
        element_markup(e) == rect_markup(x as int, y as int, width as int, height as int),
{
    let mut e = new_element("rect");
    assign_decimal(&mut e, "x", x);
    assign_decimal(&mut e, "y", y);
    assign_decimal(&mut e, "width", width);
    assign_decimal(&mut e, "height", height);
    e
}

/// A `line` element between two points, in millionths.
pub fn segment(x1: i64, y1: i64, x2: i64, y2: i64) -> (e: svg::node::element::Element)
    ensures
        element_markup(e) == segment_markup(x1 as int, y1 as int, x2 as int, y2 as int),
{
    let mut e = new_element("line");
    assign_decimal(&mut e, "x1", x1);
    assign_decimal(&mut e, "x2", x2);
    assign_decimal(&mut e, "y1", y1);
    assign_decimal(&mut e, "y2", y2);
    e
}

fn backed(
    x: u8,
    y: u8,
    color: Option<StoneColor>,
    style: GobanStyle,
    shape: svg::node::element::Element,
) -> (group: svg::node::element::Element)
    ensures
        element_markup(group) == backed_markup(x, y, color, style, element_markup(shape)),
{
    let mut group = new_element("g");
    if color.is_none() {
        let mut backing = new_element("rect");
        assign(&mut backing, "fill", style.background_fill());
        assign_decimal(&mut backing, "x", coordinate(x) - BACKING_HALF_WIDTH);
        assign_decimal(&mut backing, "y", coordinate(y) - BACKING_HALF_WIDTH);
        assign_decimal(&mut backing, "width", 2 * BACKING_HALF_WIDTH);
        assign_decimal(&mut backing, "height", 2 * BACKING_HALF_WIDTH);
        append(&mut group, backing);
    }
    append(&mut group, shape);
    group
}

/// Draws a stone in the given style.
pub fn draw_stone(stone: Stone, style: GobanStyle) -> (group: svg::node::element::Element)
    ensures
        element_markup(group) == stone_markup(stone, style),
{
    let x: i64 = coordinate(stone.x);
    let y: i64 = coordinate(stone.y);
    let mut group = new_element("g");
    match style {
        GobanStyle::Fancy => {
            let mut shadow = disc(x + SHADOW_OFFSET, y + SHADOW_OFFSET, SHADED_STONE_RADIUS);
            assign(&mut shadow, "fill", "black");
            assign_decimal(&mut shadow, "fill-opacity", 500_000);
            let fill = match stone.color {
                StoneColor::Black => "url(#black-stone-fill)",
                StoneColor::White => "url(#white-stone-fill)",
            };
            let mut body = disc(x - BODY_OFFSET, y - BODY_OFFSET, SHADED_STONE_RADIUS);
            assign(&mut body, "fill", fill);
            append(&mut group, shadow);
            append(&mut group, body);
        },
        GobanStyle::Minimalist | GobanStyle::Simple => {
            let mut body = disc(x, y, FLAT_STONE_RADIUS);
            assign(&mut body, "stroke", "black");
            assign_decimal(&mut body, "stroke-width", LINE_WIDTH);
            assign(&mut body, "fill", GobanStyle::stone_fill(stone.color));
            append(&mut group, body);
        },
    }
    group
}

/// Draws a move number on a point, over the stone of the given colour if there is one.
pub fn draw_move_number(x: u8, y: u8, n: u64, color: Option<StoneColor>, style: GobanStyle) -> (group:
    svg::node::element::Element)
    ensures
        element_markup(group) == move_number_markup(x, y, n, color, style),
{
    let number = natural_string(n);
    let mut text = new_element("text");
    assign_decimal(&mut text, "x", coordinate(x));
    assign_decimal(&mut text, "y", coordinate(y));
    assign(&mut text, "dy", "0.35em");
    assign(&mut text, "fill", style.markup_color(color));
    append_text(&mut text, number.as_str());
    backed(x, y, color, style, text)
}

/// Draws a mark on a point.
pub fn draw_mark(x: u8, y: u8, color: Option<StoneColor>, style: GobanStyle) -> (group:
    svg::node::element::Element)
    ensures
        element_markup(group) == mark_markup(x, y, color, style),
{
    let cx: i64 = coordinate(x);
    let cy: i64 = coordinate(y);
    let mut group = new_element("g");
    assign(&mut group, "stroke", style.markup_color(color));
    assign_decimal(&mut group, "stroke-width", MARKUP_WIDTH);
    append(&mut group, segment(cx - MARK_ARM, cy - MARK_ARM, cx + MARK_ARM, cy + MARK_ARM));
    append(&mut group, segment(cx - MARK_ARM, cy + MARK_ARM, cx + MARK_ARM, cy - MARK_ARM));
    group
}

/// Draws a triangle round a point.
pub fn draw_triangle(x: u8, y: u8, color: Option<StoneColor>, style: GobanStyle) -> (group:
    svg::node::element::Element)
    ensures
        element_markup(group) == triangle_markup(x, y, color, style),
{
    let cx: i64 = coordinate(x);
    let cy: i64 = coordinate(y);
    proof {
        reveal_strlit(",");
        reveal_strlit(" ");
        assert(","@ == seq![',']);
        assert(" "@ == seq![' ']);
    }
    let mut points = String::new();
    push_decimal(&mut points, cx);
    points.append(",");
    push_decimal(&mut points, cy - TRIANGLE_RADIUS);
    points.append(" ");
    push_decimal(&mut points, cx - TRIANGLE_HALF_BASE);
    points.append(",");
    push_decimal(&mut points, cy + TRIANGLE_DROP);
    points.append(" ");
    push_decimal(&mut points, cx + TRIANGLE_HALF_BASE);
    points.append(",");
    push_decimal(&mut points, cy + TRIANGLE_DROP);
    assert(points@ == triangle_points(x, y));
    let mut outline = new_element("polygon");
    assign(&mut outline, "points", points.as_str());
    let mut group = new_element("g");
    assign(&mut group, "stroke", style.markup_color(color));
    assign(&mut group, "fill", "none");
    assign_decimal(&mut group, "stroke-width", LINE_WIDTH);
    append(&mut group, outline);
    group
}

/// Draws a circle round a point.
pub fn draw_circle(x: u8, y: u8, color: Option<StoneColor>, style: GobanStyle) -> (group:
    svg::node::element::Element)
    ensures
        element_markup(group) == circle_markup(x, y, color, style),
{
    let mut group = new_element("g");
    assign(&mut group, "stroke", style.markup_color(color));
    assign(&mut group, "fill", "none");
    assign_decimal(&mut group, "stroke-width", LINE_WIDTH);
    append(&mut group, disc(coordinate(x), coordinate(y), CIRCLE_RADIUS));
    group
}

/// Draws a square round a point.
pub fn draw_square(x: u8, y: u8, color: Option<StoneColor>, style: GobanStyle) -> (group:
    svg::node::element::Element)
    ensures
        element_markup(group) == square_markup(x, y, color, style),
{
    let mut group = new_element("g");
    assign(&mut group, "stroke", style.markup_color(color));
    assign(&mut group, "fill", "none");
    assign_decimal(&mut group, "stroke-width", LINE_WIDTH);
    append(
        &mut group,
        rect(
            coordinate(x) - SQUARE_HALF_WIDTH,
            coordinate(y) - SQUARE_HALF_WIDTH,
            2 * SQUARE_HALF_WIDTH,
            2 * SQUARE_HALF_WIDTH,
        ),
    );
    group
}

/// Draws the selection highlight of a point.
pub fn draw_selected(x: u8, y: u8, color: Option<StoneColor>, style: GobanStyle) -> (group:
    svg::node::element::Element)
    ensures
        element_markup(group) == selected_markup(x, y, color, style),
{
    let mut group = new_element("g");
    assign(&mut group, "stroke", "none");
    assign(&mut group, "fill", style.selected_color(color));
    assign_decimal(&mut group, "stroke-width", LINE_WIDTH);
    append(
        &mut group,
        rect(
            coordinate(x) - SELECTED_HALF_WIDTH,
            coordinate(y) - SELECTED_HALF_WIDTH,
            2 * SELECTED_HALF_WIDTH,
            2 * SELECTED_HALF_WIDTH,
        ),
    );
    group
}

/// Dims the cell of a point.
pub fn dim_square(x: u8, y: u8) -> (group: svg::node::element::Element)
    ensures
        element_markup(group) == dimmed_markup(x, y),
{
    let mut group = new_element("g");
    assign(&mut group, "stroke", "none");
    assign(&mut group, "fill", "black");
    assign_decimal(&mut group, "fill-opacity", 500_000);
    assign(&mut group, "shape-rendering", "crispEdges");
    append(&mut group, rect(coordinate(x) - 500_000, coordinate(y) - 500_000, UNIT, UNIT));
    group
}

/// Draws the first two characters of a text on a point.
pub fn draw_label(x: u8, y: u8, text: &str, color: Option<StoneColor>, style: GobanStyle) -> (group:
    svg::node::element::Element)
    ensures
        element_markup(group) == label_markup(x, y, text@, color, style),
{
    let mut label = new_element("text");
    assign_decimal(&mut label, "x", coordinate(x));
    assign_decimal(&mut label, "y", coordinate(y));
    assign(&mut label, "text-anchor", "middle");
    assign(&mut label, "dy", "0.35em");
    assign(&mut label, "fill", style.markup_color(color));
    if text.unicode_len() <= 2 {
        append_text(&mut label, text);
    } else {
        append_text(&mut label, text.substring_char(0, 2));
    }
    backed(x, y, color, style, label)
}

} // verus!
