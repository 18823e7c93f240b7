use goban_svg::board::{Goban, Marker, Stone, StoneColor};
use goban_svg::options::{MakeSvgOptions, NodeDescription};
use goban_svg::range::{GobanRange, GobanSVGError};
use goban_svg::render::{draw_board_labels, label_text, make_svg};
use goban_svg::style::GobanStyle;

fn bare() -> MakeSvgOptions {
    MakeSvgOptions {
        draw_board_labels: false,
        draw_move_numbers: false,
        draw_marks: false,
        draw_triangles: false,
        draw_circles: false,
        draw_squares: false,
        draw_selected: false,
        draw_dimmed: false,
        draw_labels: false,
        draw_lines: false,
        draw_arrows: false,
        ..MakeSvgOptions::default()
    }
}

fn attribute(text: &str, name: &str) -> String {
    let start = text.find(&format!(" {}=\"", name)).unwrap() + name.len() + 3;
    let end = start + text[start..].find('"').unwrap();
    text[start..end].to_string()
}

#[test]
fn defaults_are_as_documented() {
    let o = MakeSvgOptions::default();
    assert!(matches!(o.node_description, NodeDescription::Number(0)));
    assert!(matches!(o.goban_range, GobanRange::FullBoard));
    assert_eq!(o.style, GobanStyle::Simple);
    assert_eq!(o.viewbox_width, 800);
    assert!(o.draw_board_labels);
    assert!(!o.draw_move_numbers);
    assert!(o.draw_marks);
    assert!(o.draw_triangles);
    assert!(o.draw_circles);
    assert!(o.draw_squares);
    assert!(o.draw_selected);
    assert!(o.draw_dimmed);
    assert!(o.draw_labels);
    assert!(o.draw_lines);
    assert!(o.draw_arrows);
    assert_eq!(o.first_move_number, 1);
}

#[test]
fn columns_are_lettered_without_i() {
    assert_eq!(label_text(0), "A");
    assert_eq!(label_text(7), "H");
    assert_eq!(label_text(8), "J");
    assert_eq!(label_text(18), "T");
    assert_eq!(label_text(24), "Z");
    let letters: String = (0..25).map(label_text).collect();
    assert_eq!(letters, "ABCDEFGHJKLMNOPQRSTUVWXYZ");
}

#[test]
fn columns_beyond_z_go_on_through_the_code_points() {
    assert_eq!(label_text(25), "[");
    assert_eq!(label_text(31), "a");
    assert_eq!(label_text(189), "\u{ff}");
    assert_eq!(label_text(190), "\u{100}");
    assert_eq!(label_text(255), "\u{141}");
}

#[test]
fn edge_labels_name_columns_and_rows() {
    assert_eq!(
        draw_board_labels(0..2, 18..20, GobanStyle::Simple).to_string(),
        "<g fill=\"#6e5840\" id=\"board-labels\" transform=\"translate(0.8, 0.8)\">\n\
         <g text-anchor=\"middle\">\n\
         <text x=\"0.64\" y=\"0\">A</text>\n\
         <text x=\"1.64\" y=\"0\">B</text>\n\
         </g>\n\
         <g text-anchor=\"end\">\n\
         <text dy=\"0.35em\" x=\"0\" y=\"1.64\">18</text>\n\
         <text dy=\"0.35em\" x=\"0\" y=\"0.64\">19</text>\n\
         </g>\n\
         </g>"
    );
}

#[test]
fn edge_labels_of_a_part_keep_the_boards_coordinates() {
    let text = draw_board_labels(7..9, 3..4, GobanStyle::Minimalist).to_string();
    assert_eq!(
        text,
        "<g fill=\"black\" id=\"board-labels\" transform=\"translate(0.8, 0.8)\">\n\
         <g text-anchor=\"middle\">\n\
         <text x=\"0.64\" y=\"0\">H</text>\n\
         <text x=\"1.64\" y=\"0\">J</text>\n\
         </g>\n\
         <g text-anchor=\"end\">\n\
         <text dy=\"0.35em\" x=\"0\" y=\"0.64\">3</text>\n\
         </g>\n\
         </g>"
    );
}

#[test]
fn stones_only_on_a_full_board() {
    let mut goban = Goban::new(19, 19);
    goban.add_stone(Stone { x: 3, y: 3, color: StoneColor::Black });
    goban.add_stone(Stone { x: 15, y: 15, color: StoneColor::White });
    goban.add_stone(Stone { x: 9, y: 9, color: StoneColor::Black });
    goban.add_marker(Marker::Mark, 3, 3);
    goban.add_label(1, 1, String::from("A"));
    let text = make_svg(&goban, &bare()).unwrap().to_string();
    assert_eq!(text.matches("r=\"0.48\"").count(), 3);
    assert!(!text.contains("markup-marks"));
    assert!(!text.contains("markup-labels"));
    assert!(!text.contains("id=\"markup-"));
    assert!(!text.contains("board-labels"));
    assert_eq!(attribute(&text, "viewBox"), "0 0 800 800");
    assert_eq!(attribute(&text, "width"), "800");
}

#[test]
fn document_carries_definitions_background_and_diagram() {
    let goban = Goban::new(19, 19);
    let text = make_svg(&goban, &bare()).unwrap().to_string();
    assert!(text.starts_with(
        "<svg font-family=\"Roboto\" font-size=\"0.5\" font-weight=\"700\" viewBox=\"0 0 800 800\" \
         width=\"800\" xmlns=\"http://www.w3.org/2000/svg\">\n<defs>\n\
         <clipPath id=\"board-clip\">\n\
         <rect height=\"19\" width=\"19\" x=\"-0.5\" y=\"-0.5\"/>\n</clipPath>\n\
         <marker id=\"linehead\""
    ));
    assert!(text.contains("<marker id=\"arrowhead\""));
    assert!(text.contains(
        "</defs>\n<rect fill=\"#dcb35c\" height=\"100%\" width=\"100%\" x=\"0\" y=\"0\"/>\n\
         <g id=\"diagram\" transform=\"scale(41.493775, 41.493775)\">\n\
         <g id=\"board-view\" transform=\"translate(0.64, 0.64)\">\n\
         <g clip-path=\"url(#board-clip)\" id=\"goban\">"
    ));
    assert!(text.ends_with("</g>\n</g>\n</g>\n</svg>"));
    let defs = text.find("<defs>").unwrap();
    let background = text.find("<rect fill=\"#dcb35c\" height=\"100%\"").unwrap();
    let diagram = text.find("id=\"diagram\"").unwrap();
    assert!(defs < background && background < diagram);
}

#[test]
fn labels_widen_the_picture_and_shift_the_board() {
    let goban = Goban::new(19, 19);
    let text = make_svg(&goban, &MakeSvgOptions::default()).unwrap().to_string();
    assert_eq!(attribute(&text, "viewBox"), "0 0 800 800");
    assert!(text.contains("<g id=\"diagram\" transform=\"scale(39.840637, 39.840637)\">"));
    assert!(text.contains("<g id=\"board-view\" transform=\"translate(1.44, 1.44)\">"));
    assert!(text.contains("<g fill=\"#6e5840\" id=\"board-labels\" transform=\"translate(0.8, 0.8)\">"));
    assert!(text.contains("<text x=\"0.64\" y=\"0\">A</text>"));
    assert!(text.contains("<text x=\"18.64\" y=\"0\">T</text>"));
    assert!(text.contains("<text dy=\"0.35em\" x=\"0\" y=\"18.64\">1</text>"));
    assert!(text.contains("<text dy=\"0.35em\" x=\"0\" y=\"0.64\">19</text>"));
    let board = text.find("id=\"board-view\"").unwrap();
    let labels = text.find("id=\"board-labels\"").unwrap();
    assert!(board < labels);
}

#[test]
fn picture_has_the_shape_of_the_part_shown() {
    let goban = Goban::new(19, 19);
    let o = MakeSvgOptions { goban_range: GobanRange::Ranged(2..11, 10..15), ..bare() };
    let text = make_svg(&goban, &o).unwrap().to_string();
    assert_eq!(attribute(&text, "viewBox"), "0 0 800 455.172413");
    assert!(text.contains("<rect height=\"5\" width=\"9\" x=\"1.5\" y=\"9.5\"/>"));
    assert!(text.contains("transform=\"translate(-1.36, -9.36)\""));
    assert!(text.contains("transform=\"scale(86.206896, 86.206896)\""));
    let parts: Vec<f64> =
        attribute(&text, "viewBox").split(' ').map(|p| p.parse().unwrap()).collect();
    assert!((parts[2] / parts[3] - 9.28 / 5.28).abs() < 1e-6);
}

#[test]
fn full_board_pictures_keep_the_boards_aspect_ratio() {
    for (width, height) in [(19u8, 19u8), (19, 13), (9, 13), (5, 25), (1, 1), (25, 99)] {
        for labels in [false, true] {
            for viewbox_width in [1u32, 800, 1234, 100_000] {
                let goban = Goban::new(width, height);
                let o = MakeSvgOptions { draw_board_labels: labels, viewbox_width, ..bare() };
                let text = make_svg(&goban, &o).unwrap().to_string();
                let parts: Vec<f64> =
                    attribute(&text, "viewBox").split(' ').map(|p| p.parse().unwrap()).collect();
                let room = if labels { 0.8 } else { 0.0 };
                let board_width = f64::from(width) - 1.0 + 1.28 + room;
                let board_height = f64::from(height) - 1.0 + 1.28 + room;
                assert_eq!(parts[2], f64::from(viewbox_width));
                let expected = f64::from(viewbox_width) * board_height / board_width;
                assert!((parts[3] - expected).abs() <= 1e-6 + expected * 1e-12);
            }
        }
    }
}

#[test]
fn labelled_part_keeps_the_row_numbers_of_the_board() {
    let goban = Goban::new(19, 19);
    let o = MakeSvgOptions {
        goban_range: GobanRange::Ranged(7..9, 0..2),
        ..MakeSvgOptions::default()
    };
    let text = make_svg(&goban, &o).unwrap().to_string();
    assert!(text.contains("<text x=\"0.64\" y=\"0\">H</text>"));
    assert!(text.contains("<text x=\"1.64\" y=\"0\">J</text>"));
    assert!(text.contains("<text dy=\"0.35em\" x=\"0\" y=\"1.64\">18</text>"));
    assert!(text.contains("<text dy=\"0.35em\" x=\"0\" y=\"0.64\">19</text>"));
    assert!(text.contains("transform=\"translate(-5.56, 1.44)\""));
}

#[test]
fn labels_need_a_range_of_at_most_25_by_99() {
    let labelled = MakeSvgOptions::default();
    assert!(make_svg(&Goban::new(25, 99), &labelled).is_ok());
    assert_eq!(
        make_svg(&Goban::new(26, 99), &labelled).err(),
        Some(GobanSVGError::UnlabellableRange)
    );
    assert_eq!(
        make_svg(&Goban::new(25, 100), &labelled).err(),
        Some(GobanSVGError::UnlabellableRange)
    );
    assert_eq!(
        make_svg(&Goban::new(255, 255), &labelled).err(),
        Some(GobanSVGError::UnlabellableRange)
    );
    assert!(make_svg(&Goban::new(26, 100), &bare()).is_ok());
    assert!(make_svg(&Goban::new(255, 255), &bare()).is_ok());
}

#[test]
fn a_small_part_of_a_large_board_can_be_labelled() {
    let goban = Goban::new(52, 120);
    let o = MakeSvgOptions {
        goban_range: GobanRange::Ranged(27..52, 21..120),
        ..MakeSvgOptions::default()
    };
    assert!(make_svg(&goban, &o).is_ok());
    let o = MakeSvgOptions {
        goban_range: GobanRange::Ranged(26..52, 21..120),
        ..MakeSvgOptions::default()
    };
    assert_eq!(make_svg(&goban, &o).err(), Some(GobanSVGError::UnlabellableRange));
}

#[test]
fn columns_far_to_the_right_are_still_labelled() {
    let goban = Goban::new(255, 9);
    let o = MakeSvgOptions {
        goban_range: GobanRange::Ranged(230..255, 0..9),
        ..MakeSvgOptions::default()
    };
    let text = make_svg(&goban, &o).unwrap().to_string();
    assert!(text.contains("<text x=\"0.64\" y=\"0\">\u{128}</text>"));
    assert!(text.contains("<text x=\"24.64\" y=\"0\">\u{140}</text>"));
}

#[test]
fn an_invalid_range_is_reported_before_anything_else() {
    let goban = Goban::new(19, 19);
    let o = MakeSvgOptions {
        goban_range: GobanRange::Ranged(0..30, 0..19),
        ..MakeSvgOptions::default()
    };
    assert_eq!(make_svg(&goban, &o).err(), Some(GobanSVGError::InvalidRange));
    assert_eq!(
        make_svg(&Goban::new(0, 0), &MakeSvgOptions::default()).err(),
        Some(GobanSVGError::InvalidRange)
    );
}

#[test]
fn the_same_board_gives_the_same_document() {
    let stones = [
        Stone { x: 3, y: 3, color: StoneColor::Black },
        Stone { x: 15, y: 3, color: StoneColor::White },
        Stone { x: 9, y: 9, color: StoneColor::Black },
        Stone { x: 3, y: 15, color: StoneColor::White },
    ];
    let points = [(3u8, 3u8), (4, 4), (9, 9), (0, 18), (18, 0)];
    let build = |reversed: bool| {
        let mut goban = Goban::new(19, 19);
        let mut order: Vec<usize> = (0..stones.len()).collect();
        let mut spots: Vec<usize> = (0..points.len()).collect();
        if reversed {
            order.reverse();
            spots.reverse();
        }
        for i in order {
            goban.add_stone(stones[i]);
        }
        for i in spots {
            let (x, y) = points[i];
            goban.add_marker(Marker::Mark, x, y);
            goban.add_marker(Marker::Triangle, x, y);
            goban.add_marker(Marker::Circle, x, y);
            goban.add_marker(Marker::Square, x, y);
            goban.add_marker(Marker::Selected, x, y);
            goban.add_marker(Marker::Dimmed, x, y);
            goban.add_label(x, y, format!("{}{}", x, y));
            goban.add_move_record(x, y, vec![u64::from(x) + 1, u64::from(y) + 30]);
            goban.add_line((x, y), (y, x));
            goban.add_arrow((y, x), (x, y));
        }
        goban
    };
    for style in [GobanStyle::Fancy, GobanStyle::Minimalist, GobanStyle::Simple] {
        for range in [0, 1] {
            let options = |range: i32| MakeSvgOptions {
                style,
                draw_move_numbers: true,
                goban_range: if range == 0 { GobanRange::FullBoard } else { GobanRange::ShrinkWrap },
                ..MakeSvgOptions::default()
            };
            let one = make_svg(&build(false), &options(range)).unwrap().to_string();
            let other = make_svg(&build(true), &options(range)).unwrap().to_string();
            let again = make_svg(&build(false), &options(range)).unwrap().to_string();
            assert_eq!(one, other);
            assert_eq!(one, again);
        }
    }
}

#[test]
fn fancy_style_defines_the_stone_gradients() {
    let o = MakeSvgOptions { style: GobanStyle::Fancy, ..bare() };
    let text = make_svg(&Goban::new(9, 9), &o).unwrap().to_string();
    assert!(text.contains("<radialGradient cx=\"35%\" cy=\"35%\" id=\"black-stone-fill\">"));
    assert!(text.contains("<radialGradient cx=\"35%\" cy=\"35%\" id=\"white-stone-fill\">"));
    assert!(text.contains("<rect fill=\"#cfa87e\" height=\"100%\" width=\"100%\" x=\"0\" y=\"0\"/>"));
    let arrowhead = text.find("id=\"arrowhead\"").unwrap();
    let gradient = text.find("id=\"black-stone-fill\"").unwrap();
    assert!(arrowhead < gradient);
    let text = make_svg(&Goban::new(9, 9), &bare()).unwrap().to_string();
    assert!(!text.contains("radialGradient"));
    let o = MakeSvgOptions { style: GobanStyle::Minimalist, ..bare() };
    let text = make_svg(&Goban::new(9, 9), &o).unwrap().to_string();
    assert!(text.contains("<rect fill=\"white\" height=\"100%\" width=\"100%\" x=\"0\" y=\"0\"/>"));
}

#[test]
fn line_ends_are_defined_once() {
    let text = make_svg(&Goban::new(9, 9), &bare()).unwrap().to_string();
    assert!(text.contains(
        "<marker id=\"linehead\" markerHeight=\"3\" markerWidth=\"3\" refX=\"1.5\" refY=\"1.5\">\n\
         <circle cx=\"1.5\" cy=\"1.5\" fill=\"black\" r=\"1.5\"/>\n</marker>"
    ));
    assert!(text.contains(
        "<marker id=\"arrowhead\" markerHeight=\"7\" markerWidth=\"7\" orient=\"auto\" refX=\"7\" \
         refY=\"3.5\">\n<polygon fill=\"black\" points=\"0 0, 7 3.5, 0 7\"/>\n</marker>"
    ));
    assert_eq!(text.matches("<marker").count(), 2);
}

#[test]
fn a_picture_without_width_is_still_a_document() {
    let o = MakeSvgOptions { viewbox_width: 0, ..bare() };
    let text = make_svg(&Goban::new(9, 9), &o).unwrap().to_string();
    assert_eq!(attribute(&text, "viewBox"), "0 0 0 0");
    assert!(text.contains("transform=\"scale(0, 0)\""));
    let o = MakeSvgOptions { viewbox_width: u32::MAX, ..bare() };
    let text = make_svg(&Goban::new(255, 1), &o).unwrap().to_string();
    assert_eq!(attribute(&text, "width"), "4294967295");
}

#[test]
fn a_range_that_ends_before_it_starts_has_no_labels() {
    assert_eq!(
        draw_board_labels(5..3, 7..2, GobanStyle::Simple).to_string(),
        "<g fill=\"#6e5840\" id=\"board-labels\" transform=\"translate(0.8, 0.8)\">\n\
         <g text-anchor=\"middle\"/>\n<g text-anchor=\"end\"/>\n</g>"
    );
    assert_eq!(
        draw_board_labels(4..4, 9..9, GobanStyle::Simple).to_string(),
        "<g fill=\"#6e5840\" id=\"board-labels\" transform=\"translate(0.8, 0.8)\">\n\
         <g text-anchor=\"middle\"/>\n<g text-anchor=\"end\"/>\n</g>"
    );
}
