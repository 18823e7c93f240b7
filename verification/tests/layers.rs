use goban_svg::board::{Goban, Marker, Stone, StoneColor};
use goban_svg::grid::build_board_lines_group;
use goban_svg::layers::{
    build_arrow_group, build_circles_group, build_dimmed_group, build_label_group,
    build_line_group, build_marks_group, build_selected_group, build_squares_group,
    build_stones_group, build_triangles_group, key_of_point, keys_of_points, point_of_key,
};
use goban_svg::moves::{build_move_numbers_group, display_number, greatest_number};
use goban_svg::options::MakeSvgOptions;
use goban_svg::order::sort_keys;
use goban_svg::render::build_board;
use goban_svg::style::GobanStyle;

fn options() -> MakeSvgOptions {
    MakeSvgOptions::default()
}

#[test]
fn keys_sort_in_ascending_order() {
    assert_eq!(sort_keys(&vec![5, 3, 9, 3, 0]), vec![0, 3, 3, 5, 9]);
    assert_eq!(sort_keys(&vec![]), Vec::<u128>::new());
    assert_eq!(sort_keys(&vec![7]), vec![7]);
    assert_eq!(sort_keys(&vec![u128::MAX, 1, 0]), vec![0, 1, u128::MAX]);
}

#[test]
fn point_keys_order_by_column_then_row() {
    assert_eq!(key_of_point((0, 0)), 0);
    assert_eq!(key_of_point((0, 255)), 255);
    assert_eq!(key_of_point((1, 0)), 256);
    assert_eq!(key_of_point((3, 4)), 772);
    assert_eq!(point_of_key(772), (3, 4));
    assert_eq!(point_of_key(65536 + 772), (3, 4));
    assert_eq!(keys_of_points(&vec![(1, 0), (0, 255)]), vec![256, 255]);
    assert!(key_of_point((2, 18)) < key_of_point((3, 0)));
    assert!(key_of_point((3, 0)) < key_of_point((3, 1)));
}

#[test]
fn marks_are_drawn_in_order_of_their_points() {
    let mut goban = Goban::new(9, 9);
    goban.add_marker(Marker::Mark, 3, 0);
    goban.add_marker(Marker::Mark, 2, 8);
    goban.add_marker(Marker::Mark, 2, 1);
    let text = build_marks_group(&goban, &options()).to_string();
    assert!(text.starts_with("<g id=\"markup-marks\">\n<g stroke=\"black\" stroke-width=\"0.1\">"));
    let first = text.find("x1=\"1.75\" x2=\"2.25\" y1=\"0.75\"").unwrap();
    let second = text.find("x1=\"1.75\" x2=\"2.25\" y1=\"7.75\"").unwrap();
    let third = text.find("x1=\"2.75\" x2=\"3.25\" y1=\"-0.25\"").unwrap();
    assert!(first < second && second < third);
    assert_eq!(text.matches("<line").count(), 6);
}

#[test]
fn empty_layers_are_empty_groups() {
    let goban = Goban::new(9, 9);
    let o = options();
    assert_eq!(build_stones_group(&goban, &o).to_string(), "<g id=\"stones\" stroke=\"none\"/>");
    assert_eq!(
        build_move_numbers_group(&goban, &o).to_string(),
        "<g id=\"move-numbers\" text-anchor=\"middle\"/>"
    );
    assert_eq!(build_marks_group(&goban, &o).to_string(), "<g id=\"markup-marks\"/>");
    assert_eq!(build_triangles_group(&goban, &o).to_string(), "<g id=\"markup-triangles\"/>");
    assert_eq!(build_circles_group(&goban, &o).to_string(), "<g id=\"markup-circles\"/>");
    assert_eq!(build_squares_group(&goban, &o).to_string(), "<g id=\"markup-squares\"/>");
    assert_eq!(build_selected_group(&goban, &o).to_string(), "<g id=\"markup-selected\"/>");
    assert_eq!(build_dimmed_group(&goban, &o).to_string(), "<g id=\"markup-dimmed\"/>");
    assert_eq!(build_label_group(&goban, &o).to_string(), "<g id=\"markup-labels\"/>");
    assert_eq!(
        build_line_group(&goban, &o).to_string(),
        "<g id=\"markup-lines\" marker-end=\"url(#linehead)\" marker-start=\"url(#linehead)\" \
         stroke=\"black\" stroke-width=\"0.03\"/>"
    );
    assert_eq!(
        build_arrow_group(&goban, &o).to_string(),
        "<g id=\"markup-arrows\" marker-end=\"url(#arrowhead)\" stroke=\"black\" \
         stroke-width=\"0.03\"/>"
    );
}

#[test]
fn each_marker_layer_draws_its_own_shape() {
    let mut goban = Goban::new(9, 9);
    goban.add_stone(Stone { x: 1, y: 1, color: StoneColor::Black });
    for kind in [
        Marker::Triangle,
        Marker::Circle,
        Marker::Square,
        Marker::Selected,
        Marker::Dimmed,
    ] {
        goban.add_marker(kind, 1, 1);
    }
    let o = options();
    assert_eq!(
        build_triangles_group(&goban, &o).to_string(),
        "<g id=\"markup-triangles\">\n<g fill=\"none\" stroke=\"white\" stroke-width=\"0.03\">\n\
         <polygon points=\"1,0.55 0.6103,1.225 1.3897,1.225\"/>\n</g>\n</g>"
    );
    assert_eq!(
        build_circles_group(&goban, &o).to_string(),
        "<g id=\"markup-circles\">\n<g fill=\"none\" stroke=\"white\" stroke-width=\"0.03\">\n\
         <circle cx=\"1\" cy=\"1\" r=\"0.25\"/>\n</g>\n</g>"
    );
    assert_eq!(
        build_squares_group(&goban, &o).to_string(),
        "<g id=\"markup-squares\">\n<g fill=\"none\" stroke=\"white\" stroke-width=\"0.03\">\n\
         <rect height=\"0.55\" width=\"0.55\" x=\"0.725\" y=\"0.725\"/>\n</g>\n</g>"
    );
    assert_eq!(
        build_selected_group(&goban, &o).to_string(),
        "<g id=\"markup-selected\">\n<g fill=\"blue\" stroke=\"none\" stroke-width=\"0.03\">\n\
         <rect height=\"0.25\" width=\"0.25\" x=\"0.875\" y=\"0.875\"/>\n</g>\n</g>"
    );
    assert_eq!(
        build_dimmed_group(&goban, &o).to_string(),
        "<g id=\"markup-dimmed\">\n<g fill=\"black\" fill-opacity=\"0.5\" \
         shape-rendering=\"crispEdges\" stroke=\"none\">\n\
         <rect height=\"1\" width=\"1\" x=\"0.5\" y=\"0.5\"/>\n</g>\n</g>"
    );
}

#[test]
fn stones_are_drawn_in_order_of_their_points() {
    let mut goban = Goban::new(9, 9);
    goban.add_stone(Stone { x: 5, y: 5, color: StoneColor::White });
    goban.add_stone(Stone { x: 0, y: 7, color: StoneColor::Black });
    assert_eq!(
        build_stones_group(&goban, &options()).to_string(),
        "<g id=\"stones\" stroke=\"none\">\n\
         <g>\n<circle cx=\"0\" cy=\"7\" fill=\"black\" r=\"0.48\" stroke=\"black\" stroke-width=\"0.03\"/>\n</g>\n\
         <g>\n<circle cx=\"5\" cy=\"5\" fill=\"white\" r=\"0.48\" stroke=\"black\" stroke-width=\"0.03\"/>\n</g>\n\
         </g>"
    );
}

#[test]
fn markup_on_a_stone_contrasts_with_it() {
    let mut goban = Goban::new(9, 9);
    goban.add_stone(Stone { x: 1, y: 1, color: StoneColor::Black });
    goban.add_stone(Stone { x: 2, y: 2, color: StoneColor::White });
    goban.add_marker(Marker::Circle, 1, 1);
    goban.add_marker(Marker::Circle, 2, 2);
    goban.add_marker(Marker::Circle, 3, 3);
    assert_eq!(
        build_circles_group(&goban, &options()).to_string(),
        "<g id=\"markup-circles\">\n\
         <g fill=\"none\" stroke=\"white\" stroke-width=\"0.03\">\n<circle cx=\"1\" cy=\"1\" r=\"0.25\"/>\n</g>\n\
         <g fill=\"none\" stroke=\"black\" stroke-width=\"0.03\">\n<circle cx=\"2\" cy=\"2\" r=\"0.25\"/>\n</g>\n\
         <g fill=\"none\" stroke=\"black\" stroke-width=\"0.03\">\n<circle cx=\"3\" cy=\"3\" r=\"0.25\"/>\n</g>\n\
         </g>"
    );
}

#[test]
fn display_wraps_after_ninety_nine() {
    assert_eq!(display_number(1, 1), 1);
    assert_eq!(display_number(99, 1), 99);
    assert_eq!(display_number(100, 1), 1);
    assert_eq!(display_number(198, 1), 99);
    assert_eq!(display_number(199, 1), 1);
    assert_eq!(display_number(150, 101), 50);
    assert_eq!(display_number(101, 101), 1);
    assert_eq!(display_number(u64::MAX, 0), u64::MAX % 99 + 1);
    assert_eq!(display_number(0, 0), 1);
}

#[test]
fn greatest_number_of_a_history() {
    assert_eq!(greatest_number(&vec![3, 7, 5]), 7);
    assert_eq!(greatest_number(&vec![7, 5, 3]), 7);
    assert_eq!(greatest_number(&vec![5, 3, 7]), 7);
    assert_eq!(greatest_number(&vec![4]), 4);
    assert_eq!(greatest_number(&vec![]), 0);
}

#[test]
fn only_the_latest_move_on_a_point_is_numbered() {
    let mut goban = Goban::new(9, 9);
    goban.add_stone(Stone { x: 2, y: 2, color: StoneColor::Black });
    goban.add_move_record(2, 2, vec![3, 41, 17]);
    assert_eq!(
        build_move_numbers_group(&goban, &options()).to_string(),
        "<g id=\"move-numbers\" text-anchor=\"middle\">\n\
         <g>\n<text dy=\"0.35em\" fill=\"white\" x=\"2\" y=\"2\">41</text>\n</g>\n</g>"
    );
}

#[test]
fn history_order_does_not_change_the_numbers() {
    let o = options();
    let mut expected: Option<String> = None;
    for history in [vec![3, 41, 17], vec![41, 17, 3], vec![17, 3, 41], vec![41, 3, 17]] {
        let mut goban = Goban::new(9, 9);
        goban.add_move_record(2, 2, history);
        goban.add_move_record(5, 1, vec![8]);
        let text = build_move_numbers_group(&goban, &o).to_string();
        match &expected {
            None => expected = Some(text),
            Some(first) => assert_eq!(&text, first),
        }
    }
}

#[test]
fn moves_before_the_first_numbered_one_show_nothing() {
    let mut goban = Goban::new(9, 9);
    goban.add_move_record(1, 1, vec![4]);
    goban.add_move_record(2, 2, vec![5]);
    goban.add_move_record(3, 3, vec![104]);
    let o = MakeSvgOptions { first_move_number: 5, ..options() };
    assert_eq!(
        build_move_numbers_group(&goban, &o).to_string(),
        "<g id=\"move-numbers\" text-anchor=\"middle\">\n\
         <g>\n<rect fill=\"#dcb35c\" height=\"0.8\" width=\"0.8\" x=\"1.6\" y=\"1.6\"/>\n\
         <text dy=\"0.35em\" fill=\"black\" x=\"2\" y=\"2\">1</text>\n</g>\n\
         <g>\n<rect fill=\"#dcb35c\" height=\"0.8\" width=\"0.8\" x=\"2.6\" y=\"2.6\"/>\n\
         <text dy=\"0.35em\" fill=\"black\" x=\"3\" y=\"3\">1</text>\n</g>\n</g>"
    );
}

#[test]
fn move_numbers_come_in_order_of_the_moves() {
    let mut goban = Goban::new(9, 9);
    goban.add_move_record(0, 0, vec![30]);
    goban.add_move_record(8, 8, vec![10]);
    goban.add_move_record(4, 4, vec![20]);
    let text = build_move_numbers_group(&goban, &options()).to_string();
    let ten = text.find(">10<").unwrap();
    let twenty = text.find(">20<").unwrap();
    let thirty = text.find(">30<").unwrap();
    assert!(ten < twenty && twenty < thirty);
}

#[test]
fn a_record_without_moves_shows_nothing() {
    let mut goban = Goban::new(9, 9);
    goban.move_numbers.push(goban_svg::board::MoveRecord { x: 1, y: 1, numbers: vec![] });
    assert_eq!(
        build_move_numbers_group(&goban, &options()).to_string(),
        "<g id=\"move-numbers\" text-anchor=\"middle\"/>"
    );
}

#[test]
fn labels_are_drawn_in_order_of_their_points() {
    let mut goban = Goban::new(9, 9);
    goban.add_stone(Stone { x: 0, y: 1, color: StoneColor::Black });
    goban.add_label(4, 0, String::from("xyz"));
    goban.add_label(0, 1, String::from("A"));
    assert_eq!(
        build_label_group(&goban, &options()).to_string(),
        "<g id=\"markup-labels\">\n\
         <g>\n<text dy=\"0.35em\" fill=\"white\" text-anchor=\"middle\" x=\"0\" y=\"1\">A</text>\n</g>\n\
         <g>\n<rect fill=\"#dcb35c\" height=\"0.8\" width=\"0.8\" x=\"3.6\" y=\"-0.4\"/>\n\
         <text dy=\"0.35em\" fill=\"black\" text-anchor=\"middle\" x=\"4\" y=\"0\">xy</text>\n</g>\n\
         </g>"
    );
}

#[test]
fn lines_and_arrows_run_from_the_first_point_to_the_second() {
    let mut goban = Goban::new(9, 9);
    goban.add_line((3, 4), (1, 2));
    goban.add_line((0, 8), (8, 0));
    goban.add_arrow((3, 4), (1, 2));
    let o = options();
    assert_eq!(
        build_line_group(&goban, &o).to_string(),
        "<g id=\"markup-lines\" marker-end=\"url(#linehead)\" marker-start=\"url(#linehead)\" \
         stroke=\"black\" stroke-width=\"0.03\">\n\
         <line x1=\"0\" x2=\"8\" y1=\"8\" y2=\"0\"/>\n\
         <line x1=\"3\" x2=\"1\" y1=\"4\" y2=\"2\"/>\n</g>"
    );
    assert_eq!(
        build_arrow_group(&goban, &o).to_string(),
        "<g id=\"markup-arrows\" marker-end=\"url(#arrowhead)\" stroke=\"black\" \
         stroke-width=\"0.03\">\n<line x1=\"3\" x2=\"1\" y1=\"4\" y2=\"2\"/>\n</g>"
    );
}

#[test]
fn grid_has_a_line_for_each_column_and_row() {
    let goban = Goban::new(3, 2);
    assert_eq!(
        build_board_lines_group(&goban, &options()).to_string(),
        "<g id=\"lines\" stroke=\"black\" stroke-linecap=\"square\" stroke-width=\"0.03\">\n\
         <line x1=\"0\" x2=\"0\" y1=\"0\" y2=\"1\"/>\n\
         <line x1=\"1\" x2=\"1\" y1=\"0\" y2=\"1\"/>\n\
         <line x1=\"2\" x2=\"2\" y1=\"0\" y2=\"1\"/>\n\
         <line x1=\"0\" x2=\"2\" y1=\"0\" y2=\"0\"/>\n\
         <line x1=\"0\" x2=\"2\" y1=\"1\" y2=\"1\"/>\n\
         <g fill=\"black\" id=\"hoshi\" stroke=\"none\"/>\n</g>"
    );
}

#[test]
fn grid_marks_the_star_points() {
    let text = build_board_lines_group(&Goban::new(9, 9), &options()).to_string();
    assert_eq!(text.matches("<line").count(), 18);
    assert_eq!(text.matches("<circle").count(), 5);
    assert!(text.contains("<circle cx=\"4\" cy=\"4\" r=\"0.09\"/>"));
    let text = build_board_lines_group(&Goban::new(19, 19), &options()).to_string();
    assert_eq!(text.matches("<line").count(), 38);
    assert_eq!(text.matches("<circle").count(), 9);
    let text = build_board_lines_group(&Goban::new(1, 1), &options()).to_string();
    assert_eq!(text.matches("<line").count(), 2);
    assert_eq!(text.matches("<circle").count(), 0);
}

#[test]
fn layers_lie_in_their_fixed_order() {
    let mut goban = Goban::new(9, 9);
    goban.add_stone(Stone { x: 4, y: 4, color: StoneColor::Black });
    goban.add_marker(Marker::Mark, 4, 4);
    goban.add_marker(Marker::Selected, 4, 4);
    let o = MakeSvgOptions { draw_move_numbers: true, ..options() };
    let text = build_board(&goban, &o).to_string();
    let ids = [
        "id=\"goban\"",
        "id=\"lines\"",
        "id=\"hoshi\"",
        "id=\"stones\"",
        "id=\"move-numbers\"",
        "id=\"markup-marks\"",
        "id=\"markup-triangles\"",
        "id=\"markup-circles\"",
        "id=\"markup-squares\"",
        "id=\"markup-selected\"",
        "id=\"markup-dimmed\"",
        "id=\"markup-labels\"",
        "id=\"markup-lines\"",
        "id=\"markup-arrows\"",
    ];
    let mut last = 0;
    for id in ids {
        let at = text.find(id).unwrap();
        assert!(at >= last);
        last = at;
    }
}

#[test]
fn mark_lies_over_the_stone_and_selection_over_the_mark() {
    let mut goban = Goban::new(9, 9);
    goban.add_stone(Stone { x: 4, y: 4, color: StoneColor::Black });
    goban.add_marker(Marker::Mark, 4, 4);
    goban.add_marker(Marker::Selected, 4, 4);
    let text = build_board(&goban, &options()).to_string();
    let stone = text.find("<circle cx=\"4\" cy=\"4\" fill=\"black\" r=\"0.48\"").unwrap();
    let mark = text.find("<line x1=\"3.75\" x2=\"4.25\" y1=\"3.75\" y2=\"4.25\"/>").unwrap();
    let selected = text.find("<rect height=\"0.25\" width=\"0.25\" x=\"3.875\" y=\"3.875\"/>").unwrap();
    assert!(stone < mark && mark < selected);
}

#[test]
fn a_layer_that_is_switched_off_is_left_out() {
    let mut goban = Goban::new(9, 9);
    goban.add_marker(Marker::Mark, 4, 4);
    let o = MakeSvgOptions {
        draw_marks: false,
        draw_triangles: false,
        draw_circles: false,
        draw_squares: false,
        draw_selected: false,
        draw_dimmed: false,
        draw_labels: false,
        draw_lines: false,
        draw_arrows: false,
        ..options()
    };
    let text = build_board(&goban, &o).to_string();
    assert!(!text.contains("markup-"));
    assert!(!text.contains("move-numbers"));
    assert!(text.contains("id=\"lines\""));
    assert!(text.contains("id=\"stones\""));
    let o = MakeSvgOptions { draw_marks: true, ..o };
    let text = build_board(&goban, &o).to_string();
    assert_eq!(text.matches("markup-").count(), 1);
    assert!(text.contains("id=\"markup-marks\""));
}

#[test]
fn fancy_style_shades_the_stones() {
    let mut goban = Goban::new(9, 9);
    goban.add_stone(Stone { x: 1, y: 1, color: StoneColor::Black });
    let o = MakeSvgOptions { style: GobanStyle::Fancy, ..options() };
    let text = build_stones_group(&goban, &o).to_string();
    assert!(text.contains("fill=\"url(#black-stone-fill)\""));
    assert_eq!(text.matches("<circle").count(), 2);
}

#[test]
fn grid_of_a_board_without_rows_has_no_rows() {
    assert_eq!(
        build_board_lines_group(&Goban::new(2, 0), &options()).to_string(),
        "<g id=\"lines\" stroke=\"black\" stroke-linecap=\"square\" stroke-width=\"0.03\">\n\
         <line x1=\"0\" x2=\"0\" y1=\"0\" y2=\"-1\"/>\n\
         <line x1=\"1\" x2=\"1\" y1=\"0\" y2=\"-1\"/>\n\
         <g fill=\"black\" id=\"hoshi\" stroke=\"none\"/>\n</g>"
    );
    assert_eq!(
        build_board_lines_group(&Goban::new(0, 0), &options()).to_string(),
        "<g id=\"lines\" stroke=\"black\" stroke-linecap=\"square\" stroke-width=\"0.03\">\n\
         <g fill=\"black\" id=\"hoshi\" stroke=\"none\"/>\n</g>"
    );
}
