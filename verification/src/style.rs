//! The visual styles: colours, and the definitions that shapes refer to.

use crate::board::StoneColor;
use crate::markup::{
    append, assign, assign_decimal, element_markup, element_markups, new_element, Markup,
};
use crate::text::decimal_text;
use vstd::prelude::*;

verus! {

/// How a diagram looks.
#[derive(Clone, Copy, Debug, PartialEq, Eq, Structural)]
pub enum GobanStyle {
    /// Shaded stones with a drop shadow on a wooden board.
    Fancy,
    /// Flat stones on a white board.
    Minimalist,
    /// Flat stones on a plain board colour.
    Simple,
}

/// The marker that ends a connecting line: a small disc.
pub open spec fn linehead_markup() -> Markup {
    Markup::element("marker"@).set("markerWidth"@, decimal_text(3_000_000)).set(
        "markerHeight"@,
        decimal_text(3_000_000),
    ).set("refX"@, decimal_text(1_500_000)).set("refY"@, decimal_text(1_500_000)).add(
        Markup::element("circle"@).set("cx"@, decimal_text(1_500_000)).set(
            "cy"@,
            decimal_text(1_500_000),
        ).set("r"@, decimal_text(1_500_000)).set("fill"@, "black"@),
    )
}

/// The marker that ends an arrow: a triangle that follows the line's direction.
pub open spec fn arrowhead_markup() -> Markup {
    Markup::element("marker"@).set("markerWidth"@, decimal_text(7_000_000)).set(
        "markerHeight"@,
        decimal_text(7_000_000),
    ).set("refX"@, decimal_text(7_000_000)).set("refY"@, decimal_text(3_500_000)).set(
        "orient"@,
        "auto"@,
    ).add(Markup::element("polygon"@).set("points"@, "0 0, 7 3.5, 0 7"@).set("fill"@, "black"@))
}

/// A radial gradient from a highlight colour to the stone's body colour.
pub open spec fn gradient_markup(id: Seq<char>, highlight: Seq<char>, body: Seq<char>) -> Markup {
    Markup::element("radialGradient"@).set("id"@, id).set("cx"@, "35%"@).set("cy"@, "35%"@).add(
        Markup::element("stop"@).set("offset"@, "0%"@).set("stop-color"@, highlight),
    ).add(Markup::element("stop"@).set("offset"@, "100%"@).set("stop-color"@, body))
}

impl GobanStyle {
    /// The fill of the board's background.
    pub open spec fn background(self) -> Seq<char> {
        match self {
            GobanStyle::Fancy => "#cfa87e"@,
            GobanStyle::Minimalist => "white"@,
            GobanStyle::Simple => "#dcb35c"@,
        }
    }

    /// The fill of a flat stone.
    pub open spec fn stone_paint(color: StoneColor) -> Seq<char> {
        match color {
            StoneColor::Black => "black"@,
            StoneColor::White => "white"@,
        }
    }

    /// The colour of markup over a point: white on a black stone, black on
    /// a white stone and on an empty point.
    pub open spec fn markup_paint(self, under: Option<StoneColor>) -> Seq<char> {
        match under {
            Some(StoneColor::Black) => "white"@,
            Some(StoneColor::White) => "black"@,
            None => "black"@,
        }
    }

    /// The tint of the selection highlight.
    pub open spec fn selected_paint(self, under: Option<StoneColor>) -> Seq<char> {
        "blue"@
    }

    /// The colour of the coordinate labels along the board's edge.
    pub open spec fn label_paint(self) -> Seq<char> {
        match self {
            GobanStyle::Fancy => "#6e5840"@,
            GobanStyle::Minimalist => "black"@,
            GobanStyle::Simple => "#6e5840"@,
        }
    }

    /// The shared definitions of the style: the two stone gradients for
    /// `Fancy`, none for the flat styles.
    pub open spec fn defs_markup(self) -> Seq<Markup> {
        match self {
            GobanStyle::Fancy => seq![
                gradient_markup("black-stone-fill"@, "#666"@, "#000"@),
                gradient_markup("white-stone-fill"@, "#fff"@, "#bbb"@),
            ],
            _ => Seq::empty(),
        }
    }

    /// The fill of the board's background.
    pub fn background_fill(&self) -> (fill: &'static str)
        ensures
            fill@ == self.background(),
    {
        match self {
            GobanStyle::Fancy => "#cfa87e",
            GobanStyle::Minimalist => "white",
            GobanStyle::Simple => "#dcb35c",
        }
    }

    /// The fill of a flat stone.
    pub fn stone_fill(color: StoneColor) -> (fill: &'static str)
        ensures
            fill@ == Self::stone_paint(color),
    {
        match color {
            StoneColor::Black => "black",
            StoneColor::White => "white",
        }
    }

    /// The colour of markup over a point that holds a stone of the given colour, or none.
    pub fn markup_color(&self, color: Option<StoneColor>) -> (paint: &'static str)
        ensures
            paint@ == self.markup_paint(color),
    {
        match color {
            Some(StoneColor::Black) => "white",
            Some(StoneColor::White) => "black",
            None => "black",
        }
    }

    /// The tint of the selection highlight.
    pub fn selected_color(&self, color: Option<StoneColor>) -> (paint: &'static str)
        ensures
            paint@ == self.selected_paint(color),
    {
        "blue"
    }

    /// The colour of the coordinate labels along the board's edge.
    pub fn label_color(&self) -> (paint: &'static str)
        ensures
            paint@ == self.label_paint(),
    {
        match self {
            GobanStyle::Fancy => "#6e5840",
            GobanStyle::Minimalist => "black",
            GobanStyle::Simple => "#6e5840",
        }
    }

    /// The marker that ends a connecting line.
    pub fn linehead(&self) -> (marker: svg::node::element::Element)
        ensures
            element_markup(marker) == linehead_markup(),
    {
        let mut disc = new_element("circle");
        assign_decimal(&mut disc, "cx", 1_500_000);
        assign_decimal(&mut disc, "cy", 1_500_000);
        assign_decimal(&mut disc, "r", 1_500_000);
        assign(&mut disc, "fill", "black");
        let mut marker = new_element("marker");
        assign_decimal(&mut marker, "markerWidth", 3_000_000);
        assign_decimal(&mut marker, "markerHeight", 3_000_000);
        assign_decimal(&mut marker, "refX", 1_500_000);
        assign_decimal(&mut marker, "refY", 1_500_000);
        append(&mut marker, disc);
        marker
    }

    /// The marker that ends an arrow.
    pub fn arrowhead(&self) -> (marker: svg::node::element::Element)
        ensures
            element_markup(marker) == arrowhead_markup(),
    {
        let mut tip = new_element("polygon");
        assign(&mut tip, "points", "0 0, 7 3.5, 0 7");
        assign(&mut tip, "fill", "black");
        let mut marker = new_element("marker");
        assign_decimal(&mut marker, "markerWidth", 7_000_000);
        assign_decimal(&mut marker, "markerHeight", 7_000_000);
        assign_decimal(&mut marker, "refX", 7_000_000);
        assign_decimal(&mut marker, "refY", 3_500_000);
        assign(&mut marker, "orient", "auto");
        append(&mut marker, tip);
        marker
    }

    /// The shared definitions of the style.
    pub fn defs(&self) -> (defs: Vec<svg::node::element::Element>)
        ensures
            element_markups(defs@) == self.defs_markup(),
    {
        match self {
            GobanStyle::Fancy => {
                let black = gradient("black-stone-fill", "#666", "#000");
                let white = gradient("white-stone-fill", "#fff", "#bbb");
                let mut defs: Vec<svg::node::element::Element> = Vec::new();
                defs.push(black);
                defs.push(white);
                defs
            },
            _ => Vec::new(),
        }
    }
}

fn gradient(id: &str, highlight: &str, body: &str) -> (g: svg::node::element::Element)
    ensures
        element_markup(g) == gradient_markup(id@, highlight@, body@),
{
    let mut inner = new_element("stop");
    assign(&mut inner, "offset", "0%");
    assign(&mut inner, "stop-color", highlight);
    let mut outer = new_element("stop");
    assign(&mut outer, "offset", "100%");
    assign(&mut outer, "stop-color", body);
    let mut g = new_element("radialGradient");
    assign(&mut g, "id", id);
    assign(&mut g, "cx", "35%");
    assign(&mut g, "cy", "35%");
    append(&mut g, inner);
    append(&mut g, outer);
    g
}

} // verus!
