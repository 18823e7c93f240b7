use goban_svg::board::{Stone, StoneColor};
use goban_svg::shapes::{
    dim_square, draw_circle, draw_label, draw_mark, draw_move_number, draw_selected, draw_square,
    draw_stone, draw_triangle,
};
use goban_svg::style::GobanStyle;
use goban_svg::text::{decimal_string, natural_string};

#[test]
fn naturals_are_written_in_decimal() {
    assert_eq!(natural_string(0), "0");
    assert_eq!(natural_string(7), "7");
    assert_eq!(natural_string(10), "10");
    assert_eq!(natural_string(99), "99");
    assert_eq!(natural_string(18446744073709551615), "18446744073709551615");
}

#[test]
fn decimals_are_written_without_trailing_zeros() {
    assert_eq!(decimal_string(0), "0");
    assert_eq!(decimal_string(1_000_000), "1");
    assert_eq!(decimal_string(640_000), "0.64");
    assert_eq!(decimal_string(-500_000), "-0.5");
    assert_eq!(decimal_string(2_750_000), "2.75");
    assert_eq!(decimal_string(389_700), "0.3897");
    assert_eq!(decimal_string(1), "0.000001");
    assert_eq!(decimal_string(-1), "-0.000001");
    assert_eq!(decimal_string(10_000_050), "10.00005");
    assert_eq!(decimal_string(9223372036854775807), "9223372036854.775807");
    assert_eq!(decimal_string(-9223372036854775808), "-9223372036854.775808");
}

#[test]
fn flat_stone_is_one_outlined_disc() {
    let stone = Stone { x: 3, y: 4, color: StoneColor::Black };
    assert_eq!(
        draw_stone(stone, GobanStyle::Simple).to_string(),
        "<g>\n<circle cx=\"3\" cy=\"4\" fill=\"black\" r=\"0.48\" stroke=\"black\" stroke-width=\"0.03\"/>\n</g>"
    );
    let stone = Stone { x: 0, y: 18, color: StoneColor::White };
    assert_eq!(
        draw_stone(stone, GobanStyle::Minimalist).to_string(),
        "<g>\n<circle cx=\"0\" cy=\"18\" fill=\"white\" r=\"0.48\" stroke=\"black\" stroke-width=\"0.03\"/>\n</g>"
    );
}

#[test]
fn fancy_stone_is_a_shadow_under_a_shaded_body() {
    let stone = Stone { x: 3, y: 4, color: StoneColor::White };
    assert_eq!(
        draw_stone(stone, GobanStyle::Fancy).to_string(),
        "<g>\n<circle cx=\"3.025\" cy=\"4.025\" fill=\"black\" fill-opacity=\"0.5\" r=\"0.475\"/>\n\
         <circle cx=\"2.983\" cy=\"3.983\" fill=\"url(#white-stone-fill)\" r=\"0.475\"/>\n</g>"
    );
    let stone = Stone { x: 0, y: 0, color: StoneColor::Black };
    assert_eq!(
        draw_stone(stone, GobanStyle::Fancy).to_string(),
        "<g>\n<circle cx=\"0.025\" cy=\"0.025\" fill=\"black\" fill-opacity=\"0.5\" r=\"0.475\"/>\n\
         <circle cx=\"-0.017\" cy=\"-0.017\" fill=\"url(#black-stone-fill)\" r=\"0.475\"/>\n</g>"
    );
}

#[test]
fn mark_is_two_crossing_strokes() {
    assert_eq!(
        draw_mark(2, 5, Some(StoneColor::Black), GobanStyle::Simple).to_string(),
        "<g stroke=\"white\" stroke-width=\"0.1\">\n\
         <line x1=\"1.75\" x2=\"2.25\" y1=\"4.75\" y2=\"5.25\"/>\n\
         <line x1=\"1.75\" x2=\"2.25\" y1=\"5.25\" y2=\"4.75\"/>\n</g>"
    );
}

#[test]
fn markup_contrasts_with_the_stone_below() {
    let on_black = draw_circle(1, 1, Some(StoneColor::Black), GobanStyle::Simple).to_string();
    let on_white = draw_circle(1, 1, Some(StoneColor::White), GobanStyle::Simple).to_string();
    let on_empty = draw_circle(1, 1, None, GobanStyle::Simple).to_string();
    assert!(on_black.starts_with("<g fill=\"none\" stroke=\"white\""));
    assert!(on_white.starts_with("<g fill=\"none\" stroke=\"black\""));
    assert!(on_empty.starts_with("<g fill=\"none\" stroke=\"black\""));
}

#[test]
fn triangle_has_its_three_corners() {
    assert_eq!(
        draw_triangle(3, 3, None, GobanStyle::Simple).to_string(),
        "<g fill=\"none\" stroke=\"black\" stroke-width=\"0.03\">\n\
         <polygon points=\"3,2.55 2.6103,3.225 3.3897,3.225\"/>\n</g>"
    );
}

#[test]
fn circle_square_and_selection_have_their_sizes() {
    assert_eq!(
        draw_circle(4, 6, None, GobanStyle::Simple).to_string(),
        "<g fill=\"none\" stroke=\"black\" stroke-width=\"0.03\">\n\
         <circle cx=\"4\" cy=\"6\" r=\"0.25\"/>\n</g>"
    );
    assert_eq!(
        draw_square(4, 6, None, GobanStyle::Simple).to_string(),
        "<g fill=\"none\" stroke=\"black\" stroke-width=\"0.03\">\n\
         <rect height=\"0.55\" width=\"0.55\" x=\"3.725\" y=\"5.725\"/>\n</g>"
    );
    assert_eq!(
        draw_selected(4, 6, None, GobanStyle::Simple).to_string(),
        "<g fill=\"blue\" stroke=\"none\" stroke-width=\"0.03\">\n\
         <rect height=\"0.25\" width=\"0.25\" x=\"3.875\" y=\"5.875\"/>\n</g>"
    );
}

#[test]
fn dimming_covers_the_whole_cell_half_transparent() {
    assert_eq!(
        dim_square(0, 2).to_string(),
        "<g fill=\"black\" fill-opacity=\"0.5\" shape-rendering=\"crispEdges\" stroke=\"none\">\n\
         <rect height=\"1\" width=\"1\" x=\"-0.5\" y=\"1.5\"/>\n</g>"
    );
}

#[test]
fn move_number_on_an_empty_point_is_backed() {
    assert_eq!(
        draw_move_number(2, 3, 17, None, GobanStyle::Simple).to_string(),
        "<g>\n<rect fill=\"#dcb35c\" height=\"0.8\" width=\"0.8\" x=\"1.6\" y=\"2.6\"/>\n\
         <text dy=\"0.35em\" fill=\"black\" x=\"2\" y=\"3\">17</text>\n</g>"
    );
}

#[test]
fn move_number_on_a_stone_is_not_backed() {
    assert_eq!(
        draw_move_number(2, 3, 5, Some(StoneColor::Black), GobanStyle::Simple).to_string(),
        "<g>\n<text dy=\"0.35em\" fill=\"white\" x=\"2\" y=\"3\">5</text>\n</g>"
    );
}

#[test]
fn label_is_cut_to_two_characters() {
    assert_eq!(
        draw_label(1, 1, "abc", Some(StoneColor::White), GobanStyle::Simple).to_string(),
        "<g>\n<text dy=\"0.35em\" fill=\"black\" text-anchor=\"middle\" x=\"1\" y=\"1\">ab</text>\n</g>"
    );
    assert_eq!(
        draw_label(1, 1, "ab", Some(StoneColor::White), GobanStyle::Simple).to_string(),
        "<g>\n<text dy=\"0.35em\" fill=\"black\" text-anchor=\"middle\" x=\"1\" y=\"1\">ab</text>\n</g>"
    );
    assert_eq!(
        draw_label(1, 1, "日本語", Some(StoneColor::White), GobanStyle::Simple).to_string(),
        "<g>\n<text dy=\"0.35em\" fill=\"black\" text-anchor=\"middle\" x=\"1\" y=\"1\">日本</text>\n</g>"
    );
    assert_eq!(
        draw_label(1, 1, "", Some(StoneColor::White), GobanStyle::Simple).to_string(),
        "<g>\n<text dy=\"0.35em\" fill=\"black\" text-anchor=\"middle\" x=\"1\" y=\"1\"></text>\n</g>"
    );
}
