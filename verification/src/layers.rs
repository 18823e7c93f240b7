//! The layers of a diagram: one group of shapes for each kind of thing
//! on the board, its items in ascending order of their keys.

use crate::board::{
    label_at, label_entries, label_points, stone_at, Goban, Marker, Point, PointLabel, Stone,
    StoneColor,
};
use crate::markup::{
    append, assign, assign_decimal, element_markup, lemma_add_all_step, new_element, Markup,
};
use crate::options::MakeSvgOptions;
use crate::order::{
    key_pair, key_point, key_stone, pair_keys, point_key, point_keys, sort_keys, sorted_keys,
    stone_keys,
};
use crate::shapes::{
    at, circle_markup, coordinate, dim_square, dimmed_markup, draw_circle, draw_label, draw_mark,
    label_markup,
    draw_selected, draw_square, draw_stone, draw_triangle, mark_markup, segment, segment_markup,
    selected_markup, square_markup, stone_markup, triangle_markup, LINE_WIDTH,
};
use crate::style::GobanStyle;
use crate::text::decimal_text;
use vstd::prelude::*;

verus! {

impl Marker {
    /// The `id` of the kind's layer.
    pub open spec fn layer_id(self) -> Seq<char> {
        match self {
            Marker::Mark => "markup-marks"@,
            Marker::Triangle => "markup-triangles"@,
            Marker::Circle => "markup-circles"@,
            Marker::Square => "markup-squares"@,
            Marker::Selected => "markup-selected"@,
            Marker::Dimmed => "markup-dimmed"@,
        }
    }

    /// The shape of the kind on a point, over the stone that lies there, if any.
    pub open spec fn shape(self, p: Point, under: Option<StoneColor>, style: GobanStyle) -> Markup {
        match self {
            Marker::Mark => mark_markup(p.0, p.1, under, style),
            Marker::Triangle => triangle_markup(p.0, p.1, under, style),
            Marker::Circle => circle_markup(p.0, p.1, under, style),
            Marker::Square => square_markup(p.0, p.1, under, style),
            Marker::Selected => selected_markup(p.0, p.1, under, style),
            Marker::Dimmed => dimmed_markup(p.0, p.1),
        }
    }

    /// The shapes of the kind on the points that the keys stand for.
    pub open spec fn shapes(self, keys: Seq<u128>, stones: Seq<Stone>, style: GobanStyle) -> Seq<
        Markup,
    > {
        keys.map_values(|k: u128| self.shape(key_point(k), stone_at(stones, key_point(k)), style))
    }

    /// The layer of the kind: a group with the kind's `id` that holds the
    /// shape of every point, in ascending order of the points' keys.
    pub open spec fn layer(self, points: Seq<Point>, stones: Seq<Stone>, style: GobanStyle) -> Markup {
        Markup::element("g"@).set("id"@, self.layer_id()).add_all(
            self.shapes(sorted_keys(point_keys(points)), stones, style),
        )
    }

    fn id(self) -> (id: &'static str)
        ensures
            id@ == self.layer_id(),
    {
        match self {
            Marker::Mark => "markup-marks",
            Marker::Triangle => "markup-triangles",
            Marker::Circle => "markup-circles",
            Marker::Square => "markup-squares",
            Marker::Selected => "markup-selected",
            Marker::Dimmed => "markup-dimmed",
        }
    }

    fn draw(self, x: u8, y: u8, color: Option<StoneColor>, style: GobanStyle) -> (shape:
        svg::node::element::Element)
        ensures
            element_markup(shape) == self.shape((x, y), color, style),
    {
        match self {
            Marker::Mark => draw_mark(x, y, color, style),
            Marker::Triangle => draw_triangle(x, y, color, style),
            Marker::Circle => draw_circle(x, y, color, style),
            Marker::Square => draw_square(x, y, color, style),
            Marker::Selected => draw_selected(x, y, color, style),
            Marker::Dimmed => dim_square(x, y),
        }
    }

    /// Builds the layer of the kind from the points that carry it.
    pub fn build_layer(self, points: &Vec<Point>, goban: &Goban, style: GobanStyle) -> (group:
        svg::node::element::Element)
        ensures
            element_markup(group) == self.layer(points@, goban.stones@, style),
    {
        let mut group = new_element("g");
        assign(&mut group, "id", self.id());
        let keys = sort_keys(&keys_of_points(points));
        let ghost base = element_markup(group);
        let n: usize = keys.len();
        let mut i: usize = 0;
        proof {
            lemma_add_all_step(base, Seq::empty(), base);
            assert(self.shapes(keys@.subrange(0, 0), goban.stones@, style) == Seq::<
                Markup,
            >::empty());
        }
        while i < n
            invariant
                n == keys@.len(),
                i <= n,
                element_markup(group) == base.add_all(
                    self.shapes(keys@.subrange(0, i as int), goban.stones@, style),
                ),
            decreases n - i,
        {
            let p: Point = point_of_key(keys[i]);
            let color = goban.stone_color(p.0, p.1);
            let shape = self.draw(p.0, p.1, color, style);
            proof {
                let done = self.shapes(keys@.subrange(0, i as int), goban.stones@, style);
                lemma_add_all_step(base, done, element_markup(shape));
                assert(self.shapes(keys@.subrange(0, i + 1), goban.stones@, style) == done.push(
                    element_markup(shape),
                ));
            }
            append(&mut group, shape);
            i += 1;
        }
        assert(keys@.subrange(0, n as int) == keys@);
        group
    }
}

/// The point that the low sixteen bits of a key stand for.
pub fn point_of_key(k: u128) -> (p: Point)
    ensures
        p == key_point(k),
{
    ((k / 256 % 256) as u8, (k % 256) as u8)
}

/// The key of a point.
pub fn key_of_point(p: Point) -> (k: u128)
    ensures
        k == point_key(p),
{
    p.0 as u128 * 256 + p.1 as u128
}

/// The keys of the points, in the order of the points.
pub fn keys_of_points(points: &Vec<Point>) -> (keys: Vec<u128>)
    ensures
        keys@ == point_keys(points@),
{
    let n: usize = points.len();
    let mut keys: Vec<u128> = Vec::new();
    let mut i: usize = 0;
    while i < n
        invariant
            n == points@.len(),
            i <= n,
            keys@ == point_keys(points@.subrange(0, i as int)),
        decreases n - i,
    {
        keys.push(key_of_point(points[i]));
        assert(points@.subrange(0, i + 1) == points@.subrange(0, i as int).push(points@[i as int]));
        i += 1;
    }
    assert(points@.subrange(0, n as int) == points@);
    keys
}

/// The stones that the keys stand for, as shapes.
pub open spec fn stone_shapes(keys: Seq<u128>, style: GobanStyle) -> Seq<Markup> {
    keys.map_values(|k: u128| stone_markup(key_stone(k), style))
}

/// The layer of the stones: a group without stroke that holds every
/// stone, in ascending order of the stones' keys.
pub open spec fn stones_layer(stones: Seq<Stone>, style: GobanStyle) -> Markup {
    Markup::element("g"@).set("id"@, "stones"@).set("stroke"@, "none"@).add_all(
        stone_shapes(sorted_keys(stone_keys(stones)), style),
    )
}

/// Draws the stones of the board.
pub fn build_stones_group(goban: &Goban, options: &MakeSvgOptions) -> (group:
    svg::node::element::Element)
    ensures
        element_markup(group) == stones_layer(goban.stones@, options.style),
{
    let style = options.style;
    let mut group = new_element("g");
    assign(&mut group, "id", "stones");
    assign(&mut group, "stroke", "none");
    let count: usize = goban.stones.len();
    let mut unsorted: Vec<u128> = Vec::new();
    let mut j: usize = 0;
    while j < count
        invariant
            count == goban.stones@.len(),
            j <= count,
            unsorted@ == stone_keys(goban.stones@.subrange(0, j as int)),
        decreases count - j,
    {
        let stone: Stone = goban.stones[j];
        let tone: u128 = match stone.color {
            StoneColor::Black => 0,
            StoneColor::White => 1,
        };
        unsorted.push(key_of_point((stone.x, stone.y)) * 2 + tone);
        assert(goban.stones@.subrange(0, j + 1) == goban.stones@.subrange(0, j as int).push(
            goban.stones@[j as int],
        ));
        j += 1;
    }
    assert(goban.stones@.subrange(0, count as int) == goban.stones@);
    let keys = sort_keys(&unsorted);
    let ghost base = element_markup(group);
    let n: usize = keys.len();
    let mut i: usize = 0;
    proof {
        lemma_add_all_step(base, Seq::empty(), base);
        assert(stone_shapes(keys@.subrange(0, 0), style) == Seq::<Markup>::empty());
    }
    while i < n
        invariant
            n == keys@.len(),
            i <= n,
            element_markup(group) == base.add_all(stone_shapes(keys@.subrange(0, i as int), style)),
        decreases n - i,
    {
        let k: u128 = keys[i];
        let p: Point = point_of_key(k / 2);
        let stone = Stone {
            x: p.0,
            y: p.1,
            color: if k % 2 == 1 {
                StoneColor::White
            } else {
                StoneColor::Black
            },
        };
        let shape = draw_stone(stone, style);
        proof {
            let done = stone_shapes(keys@.subrange(0, i as int), style);
            lemma_add_all_step(base, done, element_markup(shape));
            assert(stone_shapes(keys@.subrange(0, i + 1), style) == done.push(
                element_markup(shape),
            ));
        }
        append(&mut group, shape);
        i += 1;
    }
    assert(keys@.subrange(0, n as int) == keys@);
    group
}

/// Draws a mark on every marked point.
pub fn build_marks_group(goban: &Goban, options: &MakeSvgOptions) -> (group:
    svg::node::element::Element)
    ensures
        element_markup(group) == Marker::Mark.layer(goban.marks@, goban.stones@, options.style),
{
    Marker::Mark.build_layer(&goban.marks, goban, options.style)
}

/// Draws a triangle on every point that carries one.
pub fn build_triangles_group(goban: &Goban, options: &MakeSvgOptions) -> (group:
    svg::node::element::Element)
    ensures
        element_markup(group) == Marker::Triangle.layer(
            goban.triangles@,
            goban.stones@,
            options.style,
        ),
{
    Marker::Triangle.build_layer(&goban.triangles, goban, options.style)
}

/// Draws a circle on every point that carries one.
pub fn build_circles_group(goban: &Goban, options: &MakeSvgOptions) -> (group:
    svg::node::element::Element)
    ensures
        element_markup(group) == Marker::Circle.layer(goban.circles@, goban.stones@, options.style),
{
    Marker::Circle.build_layer(&goban.circles, goban, options.style)
}

/// Draws a square on every point that carries one.
pub fn build_squares_group(goban: &Goban, options: &MakeSvgOptions) -> (group:
    svg::node::element::Element)
    ensures
        element_markup(group) == Marker::Square.layer(goban.squares@, goban.stones@, options.style),
{
    Marker::Square.build_layer(&goban.squares, goban, options.style)
}

/// Draws the highlight of every selected point.
pub fn build_selected_group(goban: &Goban, options: &MakeSvgOptions) -> (group:
    svg::node::element::Element)
    ensures
        element_markup(group) == Marker::Selected.layer(
            goban.selected@,
            goban.stones@,
            options.style,
        ),
{
    Marker::Selected.build_layer(&goban.selected, goban, options.style)
}

/// Dims every dimmed point.
pub fn build_dimmed_group(goban: &Goban, options: &MakeSvgOptions) -> (group:
    svg::node::element::Element)
    ensures
        element_markup(group) == Marker::Dimmed.layer(goban.dimmed@, goban.stones@, options.style),
{
    Marker::Dimmed.build_layer(&goban.dimmed, goban, options.style)
}

/// The labels on the points that the keys stand for, as shapes.
pub open spec fn label_shapes(
    keys: Seq<u128>,
    labels: Seq<PointLabel>,
    stones: Seq<Stone>,
    style: GobanStyle,
) -> Seq<Markup> {
    keys.map_values(
        |k: u128|
            label_markup(
                key_point(k).0,
                key_point(k).1,
                label_at(label_entries(labels), key_point(k)),
                stone_at(stones, key_point(k)),
                style,
            ),
    )
}

/// The layer of the text labels: a group that holds the label of every
/// labelled point, in ascending order of the points' keys.
pub open spec fn labels_layer(labels: Seq<PointLabel>, stones: Seq<Stone>, style: GobanStyle) -> Markup {
    Markup::element("g"@).set("id"@, "markup-labels"@).add_all(
        label_shapes(sorted_keys(point_keys(label_points(labels))), labels, stones, style),
    )
}

/// Draws the text label of every labelled point.
pub fn build_label_group(goban: &Goban, options: &MakeSvgOptions) -> (group:
    svg::node::element::Element)
    ensures
        element_markup(group) == labels_layer(goban.labels@, goban.stones@, options.style),
{
    let style = options.style;
    let mut group = new_element("g");
    assign(&mut group, "id", "markup-labels");
    let count: usize = goban.labels.len();
    let mut unsorted: Vec<u128> = Vec::new();
    let mut j: usize = 0;
    while j < count
        invariant
            count == goban.labels@.len(),
            j <= count,
            unsorted@ == point_keys(label_points(goban.labels@.subrange(0, j as int))),
        decreases count - j,
    {
        unsorted.push(key_of_point((goban.labels[j].x, goban.labels[j].y)));
        assert(goban.labels@.subrange(0, j + 1) == goban.labels@.subrange(0, j as int).push(
            goban.labels@[j as int],
        ));
        j += 1;
    }
    assert(goban.labels@.subrange(0, count as int) == goban.labels@);
    let keys = sort_keys(&unsorted);
    let ghost base = element_markup(group);
    let n: usize = keys.len();
    let mut i: usize = 0;
    proof {
        lemma_add_all_step(base, Seq::empty(), base);
        assert(label_shapes(keys@.subrange(0, 0), goban.labels@, goban.stones@, style) == Seq::<
            Markup,
        >::empty());
    }
    while i < n
        invariant
            n == keys@.len(),
            i <= n,
            element_markup(group) == base.add_all(
                label_shapes(keys@.subrange(0, i as int), goban.labels@, goban.stones@, style),
            ),
        decreases n - i,
    {
        let p: Point = point_of_key(keys[i]);
        let color = goban.stone_color(p.0, p.1);
        let text = goban.label_text_at(p.0, p.1);
        let shape = draw_label(p.0, p.1, text.as_str(), color, style);
        proof {
            let done = label_shapes(keys@.subrange(0, i as int), goban.labels@, goban.stones@, style);
            lemma_add_all_step(base, done, element_markup(shape));
            assert(label_shapes(keys@.subrange(0, i + 1), goban.labels@, goban.stones@, style)
                == done.push(element_markup(shape)));
        }
        append(&mut group, shape);
        i += 1;
    }
    assert(keys@.subrange(0, n as int) == keys@);
    group
}

/// The straight connections between the pairs of points that the keys stand for.
pub open spec fn pair_shapes(keys: Seq<u128>) -> Seq<Markup> {
    keys.map_values(
        |k: u128|
            segment_markup(
                at(key_pair(k).0.0),
                at(key_pair(k).0.1),
                at(key_pair(k).1.0),
                at(key_pair(k).1.1),
            ),
    )
}

/// A group of thin black connections.
pub open spec fn connector_group(id: Seq<char>) -> Markup {
    Markup::element("g"@).set("id"@, id).set("stroke"@, "black"@).set(
        "stroke-width"@,
        decimal_text(LINE_WIDTH as int),
    )
}

/// The layer of the connecting lines: each line ends in a line head on
/// both sides; the lines come in ascending order of the pairs' keys.
pub open spec fn lines_layer(pairs: Seq<(Point, Point)>) -> Markup {
    connector_group("markup-lines"@).set("marker-start"@, "url(#linehead)"@).set(
        "marker-end"@,
        "url(#linehead)"@,
    ).add_all(pair_shapes(sorted_keys(pair_keys(pairs))))
}

/// The layer of the arrows: each arrow ends in an arrow head at its second
/// point; the arrows come in ascending order of the pairs' keys.
pub open spec fn arrows_layer(pairs: Seq<(Point, Point)>) -> Markup {
    connector_group("markup-arrows"@).set("marker-end"@, "url(#arrowhead)"@).add_all(
        pair_shapes(sorted_keys(pair_keys(pairs))),
    )
}

fn connector(id: &str) -> (group: svg::node::element::Element)
    ensures
        element_markup(group) == connector_group(id@),
{
    let mut group = new_element("g");
    assign(&mut group, "id", id);
    assign(&mut group, "stroke", "black");
    assign_decimal(&mut group, "stroke-width", LINE_WIDTH);
    group
}

fn append_connections(group: &mut svg::node::element::Element, pairs: &Vec<(Point, Point)>)
    ensures
        element_markup(*final(group)) == element_markup(*old(group)).add_all(
            pair_shapes(sorted_keys(pair_keys(pairs@))),
        ),
{
    let count: usize = pairs.len();
    let mut unsorted: Vec<u128> = Vec::new();
    let mut j: usize = 0;
    while j < count
        invariant
            count == pairs@.len(),
            j <= count,
            unsorted@ == pair_keys(pairs@.subrange(0, j as int)),
        decreases count - j,
    {
        let pair: (Point, Point) = pairs[j];
        unsorted.push(key_of_point(pair.0) * 65536 + key_of_point(pair.1));
        assert(pairs@.subrange(0, j + 1) == pairs@.subrange(0, j as int).push(pairs@[j as int]));
        j += 1;
    }
    assert(pairs@.subrange(0, count as int) == pairs@);
    let keys = sort_keys(&unsorted);
    let ghost base = element_markup(*group);
    let n: usize = keys.len();
    let mut i: usize = 0;
    proof {
        lemma_add_all_step(base, Seq::empty(), base);
        assert(pair_shapes(keys@.subrange(0, 0)) == Seq::<Markup>::empty());
    }
    while i < n
        invariant
            n == keys@.len(),
            i <= n,
            element_markup(*group) == base.add_all(pair_shapes(keys@.subrange(0, i as int))),
        decreases n - i,
    {
        let k: u128 = keys[i];
        let p: Point = point_of_key(k / 65536);
        let q: Point = point_of_key(k);
        let shape = segment(coordinate(p.0), coordinate(p.1), coordinate(q.0), coordinate(q.1));
        proof {
            let done = pair_shapes(keys@.subrange(0, i as int));
            lemma_add_all_step(base, done, element_markup(shape));
            assert(pair_shapes(keys@.subrange(0, i + 1)) == done.push(element_markup(shape)));
        }
        append(group, shape);
        i += 1;
    }
    assert(keys@.subrange(0, n as int) == keys@);
}

/// Draws the connecting lines.
pub fn build_line_group(goban: &Goban, options: &MakeSvgOptions) -> (group:
    svg::node::element::Element)
    ensures
        element_markup(group) == lines_layer(goban.lines@),
{
    let mut group = connector("markup-lines");
    assign(&mut group, "marker-start", "url(#linehead)");
    assign(&mut group, "marker-end", "url(#linehead)");
    append_connections(&mut group, &goban.lines);
    group
}

/// Draws the arrows.
pub fn build_arrow_group(goban: &Goban, options: &MakeSvgOptions) -> (group:
    svg::node::element::Element)
    ensures
        element_markup(group) == arrows_layer(goban.arrows@),
{
    let mut group = connector("markup-arrows");
    assign(&mut group, "marker-end", "url(#arrowhead)");
    append_connections(&mut group, &goban.arrows);
    group
}

} // verus!
