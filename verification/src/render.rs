//! The whole diagram: the board's layers in their order, the labels along
//! its edge, and the document round them.

use crate::board::{Goban, Marker};
use crate::grid::{board_lines_markup, build_board_lines_group};
use crate::layers::{
    arrows_layer, build_arrow_group, build_circles_group, build_dimmed_group, build_label_group,
    build_line_group, build_marks_group, build_selected_group, build_squares_group,
    build_stones_group, build_triangles_group, labels_layer, lines_layer, stones_layer,
};
use crate::markup::{
    append, append_text, assign, assign_decimal, document_append, document_assign, document_markup,
    append_all, element_markup, lemma_add_all_step, new_document, new_element, Markup,
};
use crate::range::GobanSVGError;
use crate::moves::{build_move_numbers_group, move_numbers_layer};
use crate::options::MakeSvgOptions;
use crate::style::GobanStyle;
use crate::text::{decimal_text, natural_string, natural_text, push_decimal, UNIT};
use std::ops::Range;
use vstd::prelude::*;
use vstd::string::*;

verus! {

/// The room between the outermost lines and the edge of the picture.
pub const BOARD_MARGIN: i64 = 640_000;

/// The room that the labels take, above and to the left of the board.
pub const LABEL_MARGIN: i64 = 800_000;

/// How many layers a board has at most.
pub const LAYER_COUNT: u8 = 12;

/// The layer of a rank, as a sequence of one group, or of none where the
/// options switch the layer off. Rank 0 lies at the back: the grid, the
/// stones, the move numbers, marks, triangles, circles, squares, the
/// selection, dimming, text labels, lines, and arrows in front.
pub open spec fn layer_of_rank(goban: Goban, options: MakeSvgOptions, rank: int) -> Seq<Markup> {
    let stones = goban.stones@;
    let style = options.style;
    if rank == 0 {
        seq![board_lines_markup(goban.size)]
    } else if rank == 1 {
        seq![stones_layer(stones, style)]
    } else if rank == 2 {
        optional(
            options.draw_move_numbers,
            move_numbers_layer(
                crate::board::record_entries(goban.move_numbers@),
                options.first_move_number,
                stones,
                style,
            ),
        )
    } else if rank == 3 {
        optional(options.draw_marks, Marker::Mark.layer(goban.marks@, stones, style))
    } else if rank == 4 {
        optional(options.draw_triangles, Marker::Triangle.layer(goban.triangles@, stones, style))
    } else if rank == 5 {
        optional(options.draw_circles, Marker::Circle.layer(goban.circles@, stones, style))
    } else if rank == 6 {
        optional(options.draw_squares, Marker::Square.layer(goban.squares@, stones, style))
    } else if rank == 7 {
        optional(options.draw_selected, Marker::Selected.layer(goban.selected@, stones, style))
    } else if rank == 8 {
        optional(options.draw_dimmed, Marker::Dimmed.layer(goban.dimmed@, stones, style))
    } else if rank == 9 {
        optional(options.draw_labels, labels_layer(goban.labels@, stones, style))
    } else if rank == 10 {
        optional(options.draw_lines, lines_layer(goban.lines@))
    } else if rank == 11 {
        optional(options.draw_arrows, arrows_layer(goban.arrows@))
    } else {
        Seq::empty()
    }
}

/// One group, or none.
pub open spec fn optional(enabled: bool, group: Markup) -> Seq<Markup> {
    if enabled {
        seq![group]
    } else {
        Seq::empty()
    }
}

/// The layers of all ranks below `rank`, back to front.
pub open spec fn layers_below(goban: Goban, options: MakeSvgOptions, rank: int) -> Seq<Markup>
    decreases rank,
{
    if rank <= 0 {
        Seq::empty()
    } else {
        layers_below(goban, options, rank - 1) + layer_of_rank(goban, options, rank - 1)
    }
}

/// The board: a group that holds the layers of all ranks, back to front.
pub open spec fn board_markup(goban: Goban, options: MakeSvgOptions) -> Markup {
    Markup::element("g"@).set("id"@, "goban"@).add_all(
        layers_below(goban, options, LAYER_COUNT as int),
    )
}

/// The order of the layers is fixed: whatever the options switch on or off,
/// the layers of the ranks below any given rank are a prefix of the
/// board's layers, so a layer of a lower rank never comes behind one of a
/// higher rank.
pub proof fn lemma_layers_keep_their_order(goban: Goban, options: MakeSvgOptions, rank: int)
    requires
        0 <= rank <= LAYER_COUNT,
    ensures
        layers_below(goban, options, rank).is_prefix_of(
            layers_below(goban, options, LAYER_COUNT as int),
        ),
    decreases LAYER_COUNT - rank,
{
    if rank < LAYER_COUNT {
        lemma_layers_keep_their_order(goban, options, rank + 1);
        let below = layers_below(goban, options, rank);
        let next = layers_below(goban, options, rank + 1);
        let all = layers_below(goban, options, LAYER_COUNT as int);
        assert(next == below + layer_of_rank(goban, options, rank));
        assert(below.is_prefix_of(next));
        assert(below == all.subrange(0, below.len() as int)) by {
            assert(next == all.subrange(0, next.len() as int));
            assert(below == next.subrange(0, below.len() as int));
        }
    } else {
        let all = layers_below(goban, options, LAYER_COUNT as int);
        assert(all == all.subrange(0, all.len() as int));
    }
}

/// One group, or none, as an element may be there or not.
pub open spec fn optional_markup(layer: Option<svg::node::element::Element>) -> Seq<Markup> {
    match layer {
        Some(group) => seq![element_markup(group)],
        None => Seq::empty(),
    }
}

fn append_rank(
    group: &mut svg::node::element::Element,
    layer: Option<svg::node::element::Element>,
    Ghost(goban): Ghost<Goban>,
    Ghost(options): Ghost<MakeSvgOptions>,
    Ghost(base): Ghost<Markup>,
    Ghost(rank): Ghost<int>,
)
    requires
        rank >= 0,
        element_markup(*old(group)) == base.add_all(layers_below(goban, options, rank)),
        layer_of_rank(goban, options, rank) == optional_markup(layer),
    ensures
        element_markup(*final(group)) == base.add_all(layers_below(goban, options, rank + 1)),
{
    match layer {
        Some(layer) => {
            proof {
                lemma_add_all_step(
                    base,
                    layers_below(goban, options, rank),
                    element_markup(layer),
                );
                assert(layers_below(goban, options, rank + 1) == layers_below(
                    goban,
                    options,
                    rank,
                ).push(element_markup(layer)));
            }
            append(group, layer);
        },
        None => {
            assert(layers_below(goban, options, rank + 1) == layers_below(goban, options, rank));
        },
    }
}

/// Draws a board with squares of unit size.
pub fn build_board(goban: &Goban, options: &MakeSvgOptions) -> (group: svg::node::element::Element)
    ensures
        element_markup(group) == board_markup(*goban, *options),
{
    let mut group = new_element("g");
    assign(&mut group, "id", "goban");
    let ghost base = element_markup(group);
    let g = Ghost(*goban);
    let o = Ghost(*options);
    proof {
        lemma_add_all_step(base, Seq::empty(), base);
        assert(layers_below(*goban, *options, 0) == Seq::<Markup>::empty());
    }
    let layer = Some(build_board_lines_group(goban, options));
    append_rank(&mut group, layer, g, o, Ghost(base), Ghost(0));
    let layer = Some(build_stones_group(goban, options));
    append_rank(&mut group, layer, g, o, Ghost(base), Ghost(1));
    let layer = if options.draw_move_numbers {
        Some(build_move_numbers_group(goban, options))
    } else {
        None
    };
    append_rank(&mut group, layer, g, o, Ghost(base), Ghost(2));
    let layer = if options.draw_marks {
        Some(build_marks_group(goban, options))
    } else {
        None
    };
    append_rank(&mut group, layer, g, o, Ghost(base), Ghost(3));
    let layer = if options.draw_triangles {
        Some(build_triangles_group(goban, options))
    } else {
        None
    };
    append_rank(&mut group, layer, g, o, Ghost(base), Ghost(4));
    let layer = if options.draw_circles {
        Some(build_circles_group(goban, options))
    } else {
        None
    };
    append_rank(&mut group, layer, g, o, Ghost(base), Ghost(5));
    let layer = if options.draw_squares {
        Some(build_squares_group(goban, options))
    } else {
        None
    };
    append_rank(&mut group, layer, g, o, Ghost(base), Ghost(6));
    let layer = if options.draw_selected {
        Some(build_selected_group(goban, options))
    } else {
        None
    };
    append_rank(&mut group, layer, g, o, Ghost(base), Ghost(7));
    let layer = if options.draw_dimmed {
        Some(build_dimmed_group(goban, options))
    } else {
        None
    };
    append_rank(&mut group, layer, g, o, Ghost(base), Ghost(8));
    let layer = if options.draw_labels {
        Some(build_label_group(goban, options))
    } else {
        None
    };
    append_rank(&mut group, layer, g, o, Ghost(base), Ghost(9));
    let layer = if options.draw_lines {
        Some(build_line_group(goban, options))
    } else {
        None
    };
    append_rank(&mut group, layer, g, o, Ghost(base), Ghost(10));
    let layer = if options.draw_arrows {
        Some(build_arrow_group(goban, options))
    } else {
        None
    };
    append_rank(&mut group, layer, g, o, Ghost(base), Ghost(11));
    group
}

/// `char::from_u32`. Trusted: a code point below the surrogates is a
/// character, the one with that code point.
#[verifier::external_body]
fn char_of(code: u32) -> (c: Option<char>)
    ensures
        code < 0xD800 ==> c == Some(code as char),
{
    char::from_u32(code)
}

/// `String::from` on a `char`. Trusted: the string holds that one character.
#[verifier::external_body]
fn char_text(c: char) -> (text: String)
    ensures
        text@ == seq![c],
{
    String::from(c)
}

/// The most columns that can be labelled: the letters from A to Z without I.
pub const MAX_LABELLED_COLUMNS: u8 = 25;

/// The most rows that can be labelled: the numbers of up to two digits.
pub const MAX_LABELLED_ROWS: u8 = 99;

/// The letter of a column: A for the first one, and on through the
/// alphabet without I, which looks too much like a 1. Behind Z, the
/// twenty-fifth, the labels go on through the code points that follow it.
pub open spec fn column_letter(x: u8) -> char {
    if x < 8 {
        (x + 65) as char
    } else {
        (x + 66) as char
    }
}

/// The label of a column.
pub fn label_text(x: u8) -> (text: String)
    ensures
        text@ == seq![column_letter(x)],
{
    let code: u32 = if x < 8 {
        x as u32 + 65
    } else {
        x as u32 + 66
    };
    match char_of(code) {
        Some(letter) => char_text(letter),
        None => vstd::pervasive::unreached(),
    }
}

/// The first 25 columns are labelled A to Z, without I.
pub proof fn lemma_column_letters(x: u8)
    requires
        x < MAX_LABELLED_COLUMNS,
    ensures
        'A' <= column_letter(x) <= 'Z',
        column_letter(x) != 'I',
        x == 0 ==> column_letter(x) == 'A',
        x == 7 ==> column_letter(x) == 'H',
        x == 8 ==> column_letter(x) == 'J',
        x == 24 ==> column_letter(x) == 'Z',
{
}

/// `translate(dx, dy)`, both in millionths.
pub open spec fn translate_text(dx: int, dy: int) -> Seq<char> {
    "translate("@ + decimal_text(dx) + ", "@ + decimal_text(dy) + ")"@
}

/// `scale(s, s)`, in millionths.
pub open spec fn scale_text(s: int) -> Seq<char> {
    "scale("@ + decimal_text(s) + ", "@ + decimal_text(s) + ")"@
}

/// The label of column `x` in a picture whose first column is `start`.
pub open spec fn column_label_markup(x: int, start: int) -> Markup {
    Markup::element("text"@).set("x"@, decimal_text((x - start) * 1_000_000 + BOARD_MARGIN)).set(
        "y"@,
        decimal_text(0),
    ).add(Markup::text(seq![column_letter(x as u8)]))
}

/// The labels of the first `count` columns of a range, from left to right.
pub open spec fn column_labels(columns: Range<u8>, count: int) -> Seq<Markup> {
    Seq::new(
        count as nat,
        |i: int| column_label_markup(columns.start + i, columns.start as int),
    )
}

/// The label of the row with the given number in a picture whose top row
/// has the number `end - 1`.
pub open spec fn row_label_markup(number: int, end: int) -> Markup {
    Markup::element("text"@).set("x"@, decimal_text(0)).set(
        "y"@,
        decimal_text((end - number - 1) * 1_000_000 + BOARD_MARGIN),
    ).set("dy"@, "0.35em"@).add(Markup::text(natural_text(number as nat)))
}

/// The labels of the first `count` numbers of a range, from the bottom up.
pub open spec fn row_labels(numbers: Range<u16>, count: int) -> Seq<Markup> {
    Seq::new(count as nat, |i: int| row_label_markup(numbers.start + i, numbers.end as int))
}

/// How many numbers a half-open range holds: none if it ends before it starts.
pub open spec fn span(start: int, end: int) -> int {
    if end >= start {
        end - start
    } else {
        0
    }
}

/// The labels along the board's edge: the letters of the columns above
/// it, the numbers of the rows to its left.
pub open spec fn board_labels_markup(columns: Range<u8>, numbers: Range<u16>, style: GobanStyle) -> Markup {
    Markup::element("g"@).set("id"@, "board-labels"@).set("fill"@, style.label_paint()).set(
        "transform"@,
        translate_text(LABEL_MARGIN as int, LABEL_MARGIN as int),
    ).add(
        Markup::element("g"@).set("text-anchor"@, "middle"@).add_all(
            column_labels(columns, span(columns.start as int, columns.end as int)),
        ),
    ).add(
        Markup::element("g"@).set("text-anchor"@, "end"@).add_all(
            row_labels(numbers, span(numbers.start as int, numbers.end as int)),
        ),
    )
}

fn translate_string(dx: i64, dy: i64) -> (text: String)
    ensures
        text@ == translate_text(dx as int, dy as int),
{
    let mut text = String::new();
    text.append("translate(");
    push_decimal(&mut text, dx);
    text.append(", ");
    push_decimal(&mut text, dy);
    text.append(")");
    assert(text@ == translate_text(dx as int, dy as int));
    text
}

fn scale_string(s: i64) -> (text: String)
    ensures
        text@ == scale_text(s as int),
{
    let mut text = String::new();
    text.append("scale(");
    push_decimal(&mut text, s);
    text.append(", ");
    push_decimal(&mut text, s);
    text.append(")");
    assert(text@ == scale_text(s as int));
    text
}

/// Draws the labels of the given columns and of the rows with the given numbers.
///
/// The lines are a unit apart, the first one `BOARD_MARGIN` from the
/// origin; the group is moved by `LABEL_MARGIN`.
pub fn draw_board_labels(x_range: Range<u8>, y_range: Range<u16>, style: GobanStyle) -> (group:
    svg::node::element::Element)
    ensures
        element_markup(group) == board_labels_markup(x_range, y_range, style),
{
    let mut letters = new_element("g");
    assign(&mut letters, "text-anchor", "middle");
    let ghost plain = element_markup(letters);
    proof {
        lemma_add_all_step(plain, Seq::empty(), plain);
        assert(column_labels(x_range, 0) == Seq::<Markup>::empty());
    }
    let mut x: u8 = x_range.start;
    while x < x_range.end
        invariant
            x_range.start <= x,
            x <= x_range.end || x == x_range.start,
            element_markup(letters) == plain.add_all(column_labels(x_range, x - x_range.start)),
        decreases x_range.end - x,
    {
        let letter = label_text(x);
        let mut label = new_element("text");
        assign_decimal(&mut label, "x", (x - x_range.start) as i64 * UNIT + BOARD_MARGIN);
        assign_decimal(&mut label, "y", 0);
        append_text(&mut label, letter.as_str());
        proof {
            lemma_add_all_step(
                plain,
                column_labels(x_range, x - x_range.start),
                element_markup(label),
            );
            assert(column_labels(x_range, x + 1 - x_range.start) == column_labels(
                x_range,
                x - x_range.start,
            ).push(element_markup(label)));
        }
        append(&mut letters, label);
        x += 1;
    }
    let mut numbers = new_element("g");
    assign(&mut numbers, "text-anchor", "end");
    let ghost bare = element_markup(numbers);
    proof {
        lemma_add_all_step(bare, Seq::empty(), bare);
        assert(row_labels(y_range, 0) == Seq::<Markup>::empty());
    }
    let mut y: u16 = y_range.start;
    while y < y_range.end
        invariant
            y_range.start <= y,
            y <= y_range.end || y == y_range.start,
            element_markup(numbers) == bare.add_all(row_labels(y_range, y - y_range.start)),
        decreases y_range.end - y,
    {
        let number = natural_string(y as u64);
        let mut label = new_element("text");
        assign_decimal(&mut label, "x", 0);
        assign_decimal(&mut label, "y", (y_range.end - y - 1) as i64 * UNIT + BOARD_MARGIN);
        assign(&mut label, "dy", "0.35em");
        append_text(&mut label, number.as_str());
        proof {
            lemma_add_all_step(bare, row_labels(y_range, y - y_range.start), element_markup(label));
            assert(row_labels(y_range, y + 1 - y_range.start) == row_labels(
                y_range,
                y - y_range.start,
            ).push(element_markup(label)));
        }
        append(&mut numbers, label);
        y += 1;
    }
    let transform = translate_string(LABEL_MARGIN, LABEL_MARGIN);
    let mut group = new_element("g");
    assign(&mut group, "id", "board-labels");
    assign(&mut group, "fill", style.label_color());
    assign(&mut group, "transform", transform.as_str());
    append(&mut group, letters);
    append(&mut group, numbers);
    group
}

/// The size of the text, in board units.
pub const FONT_SIZE: i64 = 500_000;

/// The weight of the text.
pub const FONT_WEIGHT: i64 = 700_000_000;

/// Whether the part of a board with these columns and rows can carry labels
/// along its edge: at most 25 columns and 99 rows.
pub open spec fn labellable(columns: Range<u8>, rows: Range<u8>) -> bool {
    &&& columns.end - columns.start <= MAX_LABELLED_COLUMNS
    &&& rows.end - rows.start <= MAX_LABELLED_ROWS
}

/// The room for the labels: none where no labels are drawn.
pub open spec fn label_room(options: MakeSvgOptions) -> int {
    if options.draw_board_labels {
        LABEL_MARGIN as int
    } else {
        0
    }
}

/// The width of a picture of so many columns, or the height of one of so
/// many rows, in millionths of a board unit: from the first line to the
/// last, a margin on both sides, and the room for the labels.
pub open spec fn extent(lines: int, options: MakeSvgOptions) -> int {
    (lines - 1) * 1_000_000 + 2 * BOARD_MARGIN + label_room(options)
}

/// How many output units a board unit takes, in millionths, rounded down.
pub open spec fn scale_factor(viewbox_width: int, board_width: int) -> int {
    viewbox_width * 1_000_000 * 1_000_000 / board_width
}

/// The height of the picture in millionths of an output unit, rounded
/// down: the width times the board's height over the board's width.
pub open spec fn picture_height(viewbox_width: int, board_width: int, board_height: int) -> int {
    viewbox_width * 1_000_000 * board_height / board_width
}

/// The numbers of the rows of a range on a board of the given height:
/// rows are numbered from the bottom of the whole board, starting with 1.
pub open spec fn row_numbers(rows: Range<u8>, height: u8) -> Range<u16> {
    Range { start: (height - rows.end + 1) as u16, end: (height - rows.start + 1) as u16 }
}

/// The shared definitions: the clip region round the part of the board
/// that is shown, half a unit beyond its outermost lines, the two line
/// ends, and what the style defines.
pub open spec fn definitions_markup(options: MakeSvgOptions, columns: Range<u8>, rows: Range<u8>) -> Markup {
    Markup::element("defs"@).add(
        Markup::element("clipPath"@).set("id"@, "board-clip"@).add(
            Markup::element("rect"@).set(
                "x"@,
                decimal_text(columns.start * 1_000_000 - 500_000),
            ).set("y"@, decimal_text(rows.start * 1_000_000 - 500_000)).set(
                "width"@,
                decimal_text((columns.end - columns.start) * 1_000_000),
            ).set("height"@, decimal_text((rows.end - rows.start) * 1_000_000)),
        ),
    ).add(crate::style::linehead_markup().set("id"@, "linehead"@)).add(
        crate::style::arrowhead_markup().set("id"@, "arrowhead"@),
    ).add_all(options.style.defs_markup())
}

/// The clipped board, moved so that the first line shown lies a margin,
/// and the room for the labels, from the picture's edge.
pub open spec fn board_view_markup(
    goban: Goban,
    options: MakeSvgOptions,
    columns: Range<u8>,
    rows: Range<u8>,
) -> Markup {
    Markup::element("g"@).set("id"@, "board-view"@).set(
        "transform"@,
        translate_text(
            BOARD_MARGIN + label_room(options) - columns.start * 1_000_000,
            BOARD_MARGIN + label_room(options) - rows.start * 1_000_000,
        ),
    ).add(board_markup(goban, options).set("clip-path"@, "url(#board-clip)"@))
}

/// The board and, where they are drawn, its labels, scaled to the picture's width.
pub open spec fn diagram_markup(
    goban: Goban,
    options: MakeSvgOptions,
    columns: Range<u8>,
    rows: Range<u8>,
) -> Markup {
    let scaled = Markup::element("g"@).set("id"@, "diagram"@).set(
        "transform"@,
        scale_text(
            scale_factor(
                options.viewbox_width as int,
                extent(columns.end - columns.start, options),
            ),
        ),
    ).add(board_view_markup(goban, options, columns, rows));
    if options.draw_board_labels {
        scaled.add(board_labels_markup(columns, row_numbers(rows, goban.size.1), options.style))
    } else {
        scaled
    }
}

/// The background: a rectangle over the whole picture in the style's colour.
pub open spec fn background_markup(style: GobanStyle) -> Markup {
    Markup::element("rect"@).set("x"@, decimal_text(0)).set("y"@, decimal_text(0)).set(
        "width"@,
        "100%"@,
    ).set("height"@, "100%"@).set("fill"@, style.background())
}

/// The `viewBox` of a picture: from the origin, so wide and so high.
pub open spec fn viewbox_text(width: int, height: int) -> Seq<char> {
    "0 0 "@ + decimal_text(width) + " "@ + decimal_text(height)
}

/// The document that shows the given columns and rows of a board: the
/// definitions, the background, and the diagram on top.
pub open spec fn picture_markup(
    goban: Goban,
    options: MakeSvgOptions,
    columns: Range<u8>,
    rows: Range<u8>,
) -> Markup {
    Markup::element("svg"@).set("xmlns"@, "http://www.w3.org/2000/svg"@).set(
        "viewBox"@,
        viewbox_text(
            options.viewbox_width * 1_000_000,
            picture_height(
                options.viewbox_width as int,
                extent(columns.end - columns.start, options),
                extent(rows.end - rows.start, options),
            ),
        ),
    ).set("width"@, decimal_text(options.viewbox_width * 1_000_000)).set(
        "font-size"@,
        decimal_text(FONT_SIZE as int),
    ).set("font-family"@, "Roboto"@).set("font-weight"@, decimal_text(FONT_WEIGHT as int)).add(
        definitions_markup(options, columns, rows),
    ).add(background_markup(options.style)).add(diagram_markup(goban, options, columns, rows))
}

/// The picture has the shape of the board: its height is the width times
/// the board's height over the board's width, rounded down to a millionth
/// of an output unit; a square board gives a square picture.
pub proof fn lemma_picture_has_the_shape_of_the_board(
    viewbox_width: int,
    board_width: int,
    board_height: int,
)
    requires
        viewbox_width >= 0,
        board_width > 0,
        board_height >= 0,
    ensures
        picture_height(viewbox_width, board_width, board_height) * board_width <= viewbox_width
            * 1_000_000 * board_height,
        viewbox_width * 1_000_000 * board_height < (picture_height(
            viewbox_width,
            board_width,
            board_height,
        ) + 1) * board_width,
        board_width == board_height ==> picture_height(viewbox_width, board_width, board_height)
            == viewbox_width * 1_000_000,
{
    let a = viewbox_width * 1_000_000 * board_height;
    let h = picture_height(viewbox_width, board_width, board_height);
    assert(h == a / board_width);
    vstd::arithmetic::div_mod::lemma_fundamental_div_mod(a, board_width);
    vstd::arithmetic::div_mod::lemma_mod_bound(a, board_width);
    assert(h * board_width == board_width * h) by (nonlinear_arith);
    assert((h + 1) * board_width == board_width * h + board_width) by (nonlinear_arith);
    if board_width == board_height {
        assert(a == board_width * (viewbox_width * 1_000_000)) by (nonlinear_arith)
            requires
                a == viewbox_width * 1_000_000 * board_height,
                board_width == board_height,
        ;
        vstd::arithmetic::div_mod::lemma_div_multiples_vanish(
            viewbox_width * 1_000_000,
            board_width,
        );
    }
}

/// The width of a picture of so many columns, or the height of one of so many rows.
fn extent_of(lines: u8, options: &MakeSvgOptions) -> (e: i64)
    requires
        lines >= 1,
    ensures
        e == extent(lines as int, *options),
        1_280_000 <= e <= 256_080_000,
{
    let room: i64 = if options.draw_board_labels {
        LABEL_MARGIN
    } else {
        0
    };
    (lines as i64 - 1) * UNIT + 2 * BOARD_MARGIN + room
}

/// `numerator / denominator`, for a denominator that is at least a board's smallest extent.
fn quotient(numerator: u128, denominator: i64) -> (q: i64)
    requires
        denominator >= 1_280_000,
        numerator <= 4294967295 * 1_000_000 * 1_000_000_000,
    ensures
        q == numerator as int / denominator as int,
{
    let q: u128 = numerator / denominator as u128;
    assert(q <= 4_000_000_000_000_000_000) by (nonlinear_arith)
        requires
            q == numerator / (denominator as u128),
            denominator >= 1_280_000,
            numerator <= 4294967295 * 1_000_000 * 1_000_000_000,
    ;
    q as i64
}

/// Renders a board as an SVG document.
///
/// The range of the options is resolved on the board first; an invalid
/// range, or a range that cannot carry the labels asked for, is the only
/// reason for a failure, and then nothing is drawn.
pub fn make_svg(goban: &Goban, options: &MakeSvgOptions) -> (result: Result<
    svg::node::element::SVG,
    GobanSVGError,
>)
    ensures
        match options.goban_range.resolve(*goban) {
            Err(e) => result matches Err(f) && f == e,
            Ok((columns, rows)) => if options.draw_board_labels && !labellable(columns, rows) {
                result matches Err(f) && f == GobanSVGError::UnlabellableRange
            } else {
                result matches Ok(document) && document_markup(document) == picture_markup(
                    *goban,
                    *options,
                    columns,
                    rows,
                )
            },
        },
        options.draw_board_labels && (options.goban_range.resolve(*goban) matches Ok(r) && (
        r.0.end - r.0.start > 25 || r.1.end - r.1.start > 99)) ==> (result matches Err(f) && f
            == GobanSVGError::UnlabellableRange),
        (options.goban_range.resolve(*goban) matches Ok(r) && r.0.end - r.0.start <= 25 && r.1.end
            - r.1.start <= 99) ==> result is Ok,
        !options.draw_board_labels ==> (result is Ok <==> options.goban_range.resolve(*goban) is Ok),
{
    let (columns, rows) = match options.goban_range.get_ranges(goban) {
        Ok(ranges) => ranges,
        Err(e) => {
            return Err(e);
        },
    };
    let width: u8 = columns.end - columns.start;
    let height: u8 = rows.end - rows.start;
    if options.draw_board_labels && (width > MAX_LABELLED_COLUMNS || height > MAX_LABELLED_ROWS) {
        return Err(GobanSVGError::UnlabellableRange);
    }
    let label_margin: i64 = if options.draw_board_labels {
        LABEL_MARGIN
    } else {
        0
    };
    let style = options.style;

    let mut clip_rect = new_element("rect");
    assign_decimal(&mut clip_rect, "x", columns.start as i64 * UNIT - 500_000);
    assign_decimal(&mut clip_rect, "y", rows.start as i64 * UNIT - 500_000);
    assign_decimal(&mut clip_rect, "width", width as i64 * UNIT);
    assign_decimal(&mut clip_rect, "height", height as i64 * UNIT);
    let mut clip_path = new_element("clipPath");
    assign(&mut clip_path, "id", "board-clip");
    append(&mut clip_path, clip_rect);
    let mut linehead = style.linehead();
    assign(&mut linehead, "id", "linehead");
    let mut arrowhead = style.arrowhead();
    assign(&mut arrowhead, "id", "arrowhead");
    let mut definitions = new_element("defs");
    append(&mut definitions, clip_path);
    append(&mut definitions, linehead);
    append(&mut definitions, arrowhead);
    append_all(&mut definitions, style.defs());

    let board_width: i64 = extent_of(width, options);
    let board_height: i64 = extent_of(height, options);

    let mut board = build_board(goban, options);
    assign(&mut board, "clip-path", "url(#board-clip)");
    let offset: i64 = BOARD_MARGIN + label_margin;
    let view_transform = translate_string(
        offset - columns.start as i64 * UNIT,
        offset - rows.start as i64 * UNIT,
    );
    let mut board_view = new_element("g");
    assign(&mut board_view, "id", "board-view");
    assign(&mut board_view, "transform", view_transform.as_str());
    append(&mut board_view, board);

    let scale: i64 = quotient(
        options.viewbox_width as u128 * 1_000_000 * 1_000_000,
        board_width,
    );
    let transform = scale_string(scale);
    let mut diagram = new_element("g");
    assign(&mut diagram, "id", "diagram");
    assign(&mut diagram, "transform", transform.as_str());
    append(&mut diagram, board_view);
    if options.draw_board_labels {
        let numbers: Range<u16> = (goban.size.1 as u16 - rows.end as u16 + 1)..(goban.size.1 as u16
            - rows.start as u16 + 1);
        let labels = draw_board_labels(columns.start..columns.end, numbers, style);
        append(&mut diagram, labels);
    }
    let mut background = new_element("rect");
    assign_decimal(&mut background, "x", 0);
    assign_decimal(&mut background, "y", 0);
    assign(&mut background, "width", "100%");
    assign(&mut background, "height", "100%");
    assign(&mut background, "fill", style.background_fill());

    let viewbox_width: i64 = options.viewbox_width as i64 * UNIT;
    assert(options.viewbox_width as u128 * 1_000_000 * board_height as u128 <= 4294967295
        * 1_000_000 * 1_000_000_000) by (nonlinear_arith)
        requires
            board_height <= 256_080_000,
            board_height >= 0,
            options.viewbox_width <= 4294967295,
    ;
    let viewbox_height: i64 = quotient(
        options.viewbox_width as u128 * 1_000_000 * board_height as u128,
        board_width,
    );
    let mut viewbox = String::new();
    viewbox.append("0 0 ");
    push_decimal(&mut viewbox, viewbox_width);
    viewbox.append(" ");
    push_decimal(&mut viewbox, viewbox_height);
    assert(viewbox@ == viewbox_text(viewbox_width as int, viewbox_height as int));

    let mut document = new_document();
    document_assign(&mut document, "viewBox", viewbox.as_str());
    let width_text = crate::text::decimal_string(viewbox_width);
    document_assign(&mut document, "width", width_text.as_str());
    let size_text = crate::text::decimal_string(FONT_SIZE);
    document_assign(&mut document, "font-size", size_text.as_str());
    document_assign(&mut document, "font-family", "Roboto");
    let weight_text = crate::text::decimal_string(FONT_WEIGHT);
    document_assign(&mut document, "font-weight", weight_text.as_str());
    document_append(&mut document, definitions);
    document_append(&mut document, background);
    document_append(&mut document, diagram);
    Ok(document)
}

} // verus!
