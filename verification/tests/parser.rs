use sprite_core::direction::Direction8;
use sprite_core::sprite_state::SpriteState;
use sprite_core::sprite_set::{
    file_stem, parse_grid_from_filename, parse_pair, parse_u32, texture_base,
    texture_name_matches, Grid,
};

#[test]
fn parses_full_path_with_frame_size() {
    let g = parse_grid_from_filename("textures/test_char/south_moving_3x7_500x500.png");
    assert_eq!(
        g,
        Some(Grid {
            cols: 3,
            rows: 7,
            width: 500,
            height: 500,
            direction: Direction8::South,
            state: SpriteState::Moving,
        })
    );
}

#[test]
fn parses_bare_file_name() {
    let g = parse_grid_from_filename("east_moving_1x11_500x500.png");
    assert_eq!(
        g,
        Some(Grid {
            cols: 1,
            rows: 11,
            width: 500,
            height: 500,
            direction: Direction8::East,
            state: SpriteState::Moving,
        })
    );
}

#[test]
fn name_without_frame_size_is_rejected() {
    // Only three parts: the second-to-last part is the state name, which
    // holds no `<a>x<b>` pair.
    assert_eq!(parse_grid_from_filename("south_moving_3x7.png"), None);
}

#[test]
fn unknown_direction_or_state_is_rejected() {
    assert_eq!(parse_grid_from_filename("norf_moving_3x7_500x500.png"), None);
    assert_eq!(parse_grid_from_filename("south_jumping_3x7_500x500.png"), None);
}

#[test]
fn malformed_numbers_are_rejected() {
    assert_eq!(parse_grid_from_filename("south_moving_3x7_500y500.png"), None);
    assert_eq!(parse_grid_from_filename("south_moving_x7_500x500.png"), None);
    assert_eq!(parse_grid_from_filename("south_moving_3x_500x500.png"), None);
    assert_eq!(parse_grid_from_filename("south_moving_3x7_5000000000x500.png"), None);
}

#[test]
fn plus_signs_parse_like_std() {
    // `str::parse::<u32>` accepts a single leading `+`.
    let g = parse_grid_from_filename("south_moving_+3x7_500x500.png");
    assert_eq!(g.map(|g| (g.cols, g.rows)), Some((3, 7)));
}

#[test]
fn empty_and_degenerate_names_are_rejected() {
    assert_eq!(parse_grid_from_filename(""), None);
    assert_eq!(parse_grid_from_filename(".png"), None);
    assert_eq!(parse_grid_from_filename("textures/"), None);
}

#[test]
fn file_stem_strips_directory_and_extension() {
    assert_eq!(file_stem("a/b/c.png"), "c");
    assert_eq!(file_stem("south_moving_3x7.png"), "south_moving_3x7");
    assert_eq!(file_stem("noext"), "noext");
    assert_eq!(file_stem(".hidden"), ".hidden");
    assert_eq!(file_stem("a.tar.gz"), "a.tar");
    assert_eq!(file_stem("dir/trailing."), "trailing");
}

#[test]
fn u32_parsing_matches_std_behaviour() {
    assert_eq!(parse_u32("0"), Some(0));
    assert_eq!(parse_u32("007"), Some(7));
    assert_eq!(parse_u32("4294967295"), Some(u32::MAX));
    assert_eq!(parse_u32("4294967296"), None);
    assert_eq!(parse_u32("+42"), Some(42));
    assert_eq!(parse_u32("+"), None);
    assert_eq!(parse_u32(""), None);
    assert_eq!(parse_u32("12a"), None);
    assert_eq!(parse_u32("-3"), None);
}

#[test]
fn pair_splits_at_first_x() {
    assert_eq!(parse_pair("3x7"), Some((3, 7)));
    assert_eq!(parse_pair("500x500"), Some((500, 500)));
    assert_eq!(parse_pair("3x7x9"), None);
    assert_eq!(parse_pair("37"), None);
    assert_eq!(parse_pair("x7"), None);
}

#[test]
fn texture_base_joins_direction_and_state() {
    assert_eq!(texture_base(Direction8::South, SpriteState::Moving), "south_moving");
    assert_eq!(texture_base(Direction8::Northwest, SpriteState::Stopping), "northwest_stopping");
}

#[test]
fn texture_name_matching() {
    assert!(texture_name_matches("south_moving_3x7_500x500.png", "south_moving"));
    assert!(texture_name_matches("south_moving.png", "south_moving"));
    assert!(!texture_name_matches("south_still_3x7.png", "south_moving"));
    assert!(!texture_name_matches("south_moving", "south_moving"));
    assert!(!texture_name_matches("south_moving_3x7.jpg", "south_moving"));
    assert!(!texture_name_matches("abc", "south_moving"));
}
