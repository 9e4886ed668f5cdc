use stuck_in_a_loop::input::KeyInput;
use stuck_in_a_loop::puzzle::Puzzle;
use stuck_in_a_loop::scenes::mainscene::PuzzleID;

#[test]
fn hall_puzzle_opens_with_its_pattern() {
    let p = Puzzle::new(PuzzleID::FarRightHall);
    assert_eq!(
        p.tiles,
        vec![true, false, true, false, false, false, false, false, true]
    );
    assert_eq!(p.key_pos, 0);
    assert!(p.key_pressed);
    assert!(!p.is_abort());
    assert!(!p.is_solved());
}

#[test]
fn computer_puzzle_opens_with_its_pattern() {
    let p = Puzzle::new(PuzzleID::Computer);
    assert_eq!(
        p.tiles,
        vec![false, false, false, true, false, false, false, false, false]
    );
}

#[test]
fn hall_puzzle_press_flips_a_plus_shape() {
    let mut p = Puzzle::new(PuzzleID::FarRightHall);
    // press the center: tiles 1, 3, 4, 5 and 7 flip
    p.key_pos = 4;
    p.handle_key(KeyInput::E);
    assert_eq!(
        p.tiles,
        vec![true, true, true, true, true, true, false, true, true]
    );
    assert!(!p.is_solved());
}

#[test]
fn hall_puzzle_corner_press_flips_three_tiles() {
    let mut p = Puzzle::new(PuzzleID::FarRightHall);
    // press the top-left corner: tiles 0, 1 and 3 flip
    p.handle_key(KeyInput::Space);
    assert_eq!(
        p.tiles,
        vec![false, true, true, true, false, false, false, false, true]
    );
}

#[test]
fn computer_puzzle_press_flips_its_partner() {
    let mut p = Puzzle::new(PuzzleID::Computer);
    // pressing a corner also flips the center
    p.handle_key(KeyInput::Return);
    assert_eq!(
        p.tiles,
        vec![true, false, false, true, true, false, false, false, false]
    );
    // pressing the center flips tiles 1 and 7 as well
    p.key_pos = 4;
    p.handle_key(KeyInput::Return);
    assert_eq!(
        p.tiles,
        vec![true, true, false, true, false, false, false, true, false]
    );
}

#[test]
fn cursor_wraps_around_the_grid() {
    let mut p = Puzzle::new(PuzzleID::FarRightHall);
    p.handle_key(KeyInput::Left);
    assert_eq!(p.key_pos, 2);
    p.handle_key(KeyInput::Right);
    assert_eq!(p.key_pos, 0);
    p.handle_key(KeyInput::Up);
    assert_eq!(p.key_pos, 6);
    p.handle_key(KeyInput::Down);
    assert_eq!(p.key_pos, 0);
    p.handle_key(KeyInput::S);
    assert_eq!(p.key_pos, 3);
    p.handle_key(KeyInput::D);
    assert_eq!(p.key_pos, 4);
    p.handle_key(KeyInput::A);
    assert_eq!(p.key_pos, 3);
    p.handle_key(KeyInput::W);
    assert_eq!(p.key_pos, 0);
}

#[test]
fn escape_abandons_the_puzzle() {
    let mut p = Puzzle::new(PuzzleID::Computer);
    assert!(!p.is_abort());
    p.handle_key(KeyInput::Escape);
    assert!(p.is_abort());
    // the grid is untouched
    assert_eq!(
        p.tiles,
        vec![false, false, false, true, false, false, false, false, false]
    );
}

#[test]
fn clicks_map_to_grid_cells() {
    let mut p = Puzzle::new(PuzzleID::FarRightHall);
    // the center cell spans x in (350, 450), y in (250, 350)
    p.handle_click(400, 300, 60, 40);
    assert_eq!(
        p.tiles,
        vec![true, true, true, true, true, true, false, true, true]
    );
    assert!(!p.key_pressed);
    // a click outside every cell and caption changes nothing
    p.handle_click(100, 100, 60, 40);
    assert_eq!(
        p.tiles,
        vec![true, true, true, true, true, true, false, true, true]
    );
}

#[test]
fn reset_caption_restores_the_opening_grid() {
    let mut p = Puzzle::new(PuzzleID::FarRightHall);
    p.handle_click(400, 300, 60, 40);
    // the reset caption spans x in (100, 100 + width), y in (490, 530)
    p.handle_click(120, 500, 60, 40);
    assert_eq!(
        p.tiles,
        vec![true, false, true, false, false, false, false, false, true]
    );
    assert!(!p.is_solved());
}

#[test]
fn skip_caption_solves_the_puzzle_outright() {
    let mut p = Puzzle::new(PuzzleID::Computer);
    assert!(!p.is_solved());
    // the skip caption spans x in (700, 700 + width), y in (490, 530)
    p.handle_click(710, 500, 60, 40);
    assert!(p.force_solve);
    assert!(p.is_solved());
}

#[test]
fn all_lit_tiles_solve_the_puzzle() {
    let mut p = Puzzle::new(PuzzleID::FarRightHall);
    p.tiles = vec![true; 9];
    assert!(p.is_solved());
    p.tiles[8] = false;
    assert!(!p.is_solved());
}
