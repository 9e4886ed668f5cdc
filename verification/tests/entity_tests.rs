use stuck_in_a_loop::door::Door;
use stuck_in_a_loop::game::GameState;
use stuck_in_a_loop::interactable::Interactable;
use stuck_in_a_loop::interactable::InteractableType;
use stuck_in_a_loop::player::Color;
use stuck_in_a_loop::player::Player;
use stuck_in_a_loop::player::PlayerState;
use stuck_in_a_loop::scenes::mainscene::PuzzleID;

#[test]
fn game_state_cycles() {
    let s = GameState::GameStart;
    let next = s.get_next_state();
    assert_eq!(next, GameState::Opening);
    assert_eq!(next.get_next_state(), GameState::GameStart);
}

#[test]
fn door_new_and_getters() {
    let d = Door::new(false, 300, 390, 0);
    assert!(!d.get_open());
    assert_eq!(d.get_id(), 0);
    assert_eq!(d.get_x(), 300);
    assert_eq!(d.get_y(), 390);
    assert_eq!(d.get_center_x(), 348);
    assert_eq!(d.get_center_y(), 470);
}

#[test]
fn door_toggle_and_set() {
    let mut d = Door::new(false, 0, 0, 7);
    assert!(d.toggle_open());
    assert!(d.get_open());
    assert!(!d.toggle_open());
    d.set_open(true);
    assert!(d.get_open());
}

#[test]
fn door_range_is_a_disc_around_the_entry_point() {
    let d = Door::new(true, 300, 390, 0);
    // entry point is (348, 470), radius 70
    assert!(d.is_within_range(348, 470));
    assert!(d.is_within_range(348 + 70, 470));
    assert!(!d.is_within_range(348 + 71, 470));
    assert!(d.is_within_range(348, 470 - 70));
    assert!(!d.is_within_range(348 + 50, 470 + 50));
    assert!(d.is_within_range(348 + 42, 470 - 56));
}

#[test]
fn interactable_range_and_radius() {
    let mut it = Interactable::new(InteractableType::Door(0), 430, 450);
    assert_eq!(it.get_x(), 430);
    assert_eq!(it.get_y(), 450);
    assert_eq!(it.get_radius(), 70);
    assert!(it.is_within_range(430, 450));
    assert!(it.is_within_range(430 + 70, 450));
    assert!(!it.is_within_range(430 + 71, 450));
    it.set_radius(200);
    assert_eq!(it.get_radius(), 200);
    assert!(it.is_within_range(430 + 150, 450));
}

#[test]
fn interactable_unlock_only_touches_locked_doors() {
    let mut locked = Interactable::new(InteractableType::LockedDoor(0, false), 0, 0);
    locked.set_unlocked(true);
    assert_eq!(locked.get_type(), InteractableType::LockedDoor(0, true));

    let mut plain = Interactable::new(InteractableType::Door(0), 0, 0);
    plain.set_unlocked(true);
    assert_eq!(plain.get_type(), InteractableType::Door(0));
}

#[test]
fn interactable_puzzle_cleared_only_touches_puzzles() {
    let mut puzzle = Interactable::new(InteractableType::Puzzle(PuzzleID::Computer, false), 0, 0);
    puzzle.set_puzzle_cleared(true);
    assert_eq!(
        puzzle.get_type(),
        InteractableType::Puzzle(PuzzleID::Computer, true)
    );

    let mut ship = Interactable::new(InteractableType::Ship, 0, 0);
    ship.set_puzzle_cleared(true);
    assert_eq!(ship.get_type(), InteractableType::Ship);
}

#[test]
fn player_walk_animation_alternates_feet() {
    let color = Color { r: 1, g: 2, b: 3, alpha_permille: 1000 };
    let mut p = Player::new(color);
    assert_eq!(p.x, 300000);
    assert_eq!(p.y, 300000);
    assert_eq!(p.state, PlayerState::Standing);
    assert_eq!(p.walk_frame(), 0);

    p.set_walking(true);
    assert_eq!(p.state, PlayerState::Walking(true, 0));
    assert_eq!(p.walk_frame(), 1);

    p.update(200);
    assert_eq!(p.state, PlayerState::Walking(true, 200));

    p.update(200);
    // 400 ms crosses the 340 ms step length: the other foot leads
    assert_eq!(p.state, PlayerState::Walking(false, 60));
    assert_eq!(p.walk_frame(), 2);

    // starting to walk while walking changes nothing
    p.set_walking(true);
    assert_eq!(p.state, PlayerState::Walking(false, 60));

    p.set_walking(false);
    assert_eq!(p.state, PlayerState::Standing);
}

#[test]
fn player_xflip() {
    let color = Color { r: 0, g: 0, b: 0, alpha_permille: 1000 };
    let mut p = Player::new(color);
    assert!(!p.xflip);
    p.set_xflip(true);
    assert!(p.xflip);
}
