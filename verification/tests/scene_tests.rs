use stuck_in_a_loop::input::AudioCue;
use stuck_in_a_loop::input::KeyInput;
use stuck_in_a_loop::input::MouseButtonInput;
use stuck_in_a_loop::interactable::InteractableType;
use stuck_in_a_loop::player::Color;
use stuck_in_a_loop::scenes::gamestart::GameStartScene;
use stuck_in_a_loop::scenes::mainscene::DiscoveryState;
use stuck_in_a_loop::scenes::mainscene::MainScene;
use stuck_in_a_loop::scenes::mainscene::PuzzleID;
use stuck_in_a_loop::scenes::mainscene::Room;
use stuck_in_a_loop::scenes::mainscene::State;
use stuck_in_a_loop::scenes::Scene;

fn test_color() -> Color {
    Color { r: 0xff, g: 0, b: 0, alpha_permille: 1000 }
}

#[test]
fn start_scene_picks_a_color_on_a_swatch() {
    let mut s = GameStartScene::new();
    assert!(s.player_color.is_none());
    assert!(!s.finished());

    // the top-left swatch spans x in (144, 272), y in (200, 328)
    s.mouse_button_down_event(200, 260);
    let picked = s.player_color.expect("a color should have been picked");
    assert_eq!((picked.r, picked.g, picked.b), (0xfd, 0xd9, 0xbd));
    assert!(s.finished);

    // the scene only counts as finished once the loading caption was shown
    assert!(!s.finished());
    s.mark_loading_drawn();
    assert!(s.finished());
}

#[test]
fn start_scene_ignores_clicks_between_swatches() {
    let mut s = GameStartScene::new();
    s.mouse_button_down_event(400, 100);
    assert!(s.player_color.is_none());
    assert!(!s.finished);
    // x == 400 is the edge between two swatches and hits neither
    s.mouse_button_down_event(400, 260);
    assert!(s.player_color.is_none());
}

#[test]
fn start_scene_bottom_row_is_red_green_blue() {
    let mut s = GameStartScene::new();
    s.mouse_button_down_event(400, 400);
    let picked = s.player_color.expect("a color should have been picked");
    assert_eq!((picked.r, picked.g, picked.b), (0, 0xff, 0));
}

#[test]
fn darkness_pans_up_then_the_wakeup_line_types() {
    let mut m = MainScene::new(test_color());
    assert_eq!(m.state, State::InPodInDarkness);
    assert_eq!(m.room, Room::StasisPod);
    assert_eq!(m.timer, 1000);

    // the darkness moves 40 thousandths of a pixel per millisecond and
    // stops at -300 pixels, which takes 7.5 seconds
    for _ in 0..8 {
        let cues = m.update(1000, false);
        assert!(cues.is_empty());
        assert_eq!(m.state, State::InPodInDarkness);
    }
    assert_eq!(m.darkness_yoffset, -320000);

    m.update(1000, false);
    assert_eq!(m.state, State::InPodWakeupText);
    assert_eq!(m.timer, 300);
    assert_eq!(m.final_text.len(), 20);

    // each text-rate tick types one character, with a click
    let cues = m.update(300, false);
    assert_eq!(cues, vec![AudioCue::PlayTextSfx]);
    assert_eq!(m.current_text, vec!['W']);

    for _ in 0..19 {
        m.update(300, false);
    }
    let typed: String = m.current_text.iter().collect();
    assert_eq!(typed, "What.. Where am I?..");
    assert!(m.final_text.is_empty());
    assert_eq!(m.timer, 1000);
}

/// Runs a fresh scene forward to the point where the player stands in the
/// pod room and can walk.
fn scene_at_investigate() -> MainScene {
    let mut m = MainScene::new(test_color());
    for _ in 0..9 {
        m.update(1000, false);
    }
    for _ in 0..20 {
        m.update(300, false);
    }
    // a first press only clears the wait timer; a second one gets up
    m.mouse_button_down_event(MouseButtonInput::Left, 0, 0, 0, 0);
    assert_eq!(m.state, State::InPodWakeupText);
    m.mouse_button_down_event(MouseButtonInput::Left, 0, 0, 0, 0);
    assert_eq!(m.state, State::GetOutOfPod);
    assert_eq!(m.timer, 3000);

    // climb out in two steps so the slide toward the floor plays out
    m.update(2999, false);
    let cues = m.update(1, false);
    assert_eq!(m.state, State::Investigate);
    assert_eq!(cues, vec![AudioCue::PlayMusic]);
    let hint: String = m.current_text.iter().collect();
    assert_eq!(hint, "A and D or Left and Right or Left Click to move");
    m
}

#[test]
fn getting_up_lands_on_the_floor() {
    let m = scene_at_investigate();
    assert_eq!(m.player.x, 500006);
    assert_eq!(m.player.y, 429973);
    assert_eq!(m.player.rot, 0);
}

#[test]
fn walking_off_the_left_edge_changes_rooms() {
    let mut m = scene_at_investigate();
    m.key_down_event(KeyInput::A);
    m.update(3000, false);
    assert_eq!(m.room, Room::LeftOfPod);
    assert_eq!(m.player.x, 666000);
    assert_eq!(m.doors.len(), 1);
    assert!(!m.doors[0].get_open());
    assert_eq!(m.interactables.len(), 1);
    assert_eq!(m.interactables[0].get_type(), InteractableType::Door(0));
}

/// Walks on from `scene_at_investigate` through the pod-side door into the
/// main hall.
fn scene_in_main_hall() -> MainScene {
    let mut m = scene_at_investigate();
    m.key_down_event(KeyInput::A);
    m.update(3000, false);
    m.key_up_event(KeyInput::A);
    assert_eq!(m.room, Room::LeftOfPod);

    // walk into range of the door panel and open the door
    m.key_down_event(KeyInput::A);
    m.update(1000, false);
    m.update(100, false);
    m.key_up_event(KeyInput::A);
    assert_eq!(m.player.x, 446000);
    let cues = m.key_down_event(KeyInput::E);
    assert_eq!(cues, vec![AudioCue::PlayDoorSfx]);
    assert!(m.doors[0].get_open());
    assert_eq!(m.door_left_of_pod, Some((true, true)));

    // walk to the door itself and enter it
    m.key_down_event(KeyInput::A);
    m.update(400, false);
    m.update(50, false);
    m.key_up_event(KeyInput::A);
    assert_eq!(m.player.x, 356000);
    m.key_down_event(KeyInput::W);
    assert_eq!(m.state, State::EnterDoor(Room::MainHallFrontOfPod));
    assert_eq!(m.timer, 1000);
    assert_eq!(m.player.x, 316000);

    // fade out, arrive, fade back in
    m.update(1000, false);
    assert_eq!(m.state, State::ExitDoor);
    assert_eq!(m.room, Room::MainHallFrontOfPod);
    assert_eq!(m.player.x, 368000);
    assert_eq!(m.player.color.alpha_permille, 0);
    m.update(1000, false);
    assert_eq!(m.state, State::Investigate);
    assert_eq!(m.player.color.alpha_permille, 1000);
    m
}

#[test]
fn the_pod_side_door_leads_to_the_main_hall() {
    let m = scene_in_main_hall();
    // the door is recorded open, and its panel here is unlocked
    assert!(m.doors[0].get_open());
    assert_eq!(
        m.interactables[0].get_type(),
        InteractableType::LockedDoor(0, true)
    );
}

#[test]
fn seeing_earth_plays_the_discovery_music_once() {
    let mut m = scene_in_main_hall();
    m.key_down_event(KeyInput::D);
    let cues = m.update(2000, false);
    assert_eq!(m.room, Room::WindowRightHall);
    assert!(m.saw_earth);
    assert_eq!(m.discovery_state, DiscoveryState::Discovery);
    assert_eq!(
        cues,
        vec![AudioCue::StopMusic, AudioCue::PlayDiscoveryMusic]
    );
    m.key_up_event(KeyInput::D);

    // once the discovery track ends, the normal music returns
    let cues = m.update(10, true);
    assert_eq!(m.discovery_state, DiscoveryState::Normal);
    assert_eq!(cues, vec![AudioCue::PlayMusic]);

    // walking back and forth does not replay the discovery
    m.key_down_event(KeyInput::A);
    m.update(2000, false);
    assert_eq!(m.room, Room::MainHallFrontOfPod);
    m.key_up_event(KeyInput::A);
    m.key_down_event(KeyInput::D);
    let cues = m.update(4000, false);
    assert_eq!(m.room, Room::WindowRightHall);
    assert!(cues.is_empty());
}

#[test]
fn the_hall_puzzle_unlocks_the_left_hall_door() {
    let mut m = scene_in_main_hall();
    m.key_down_event(KeyInput::D);
    m.update(2000, false);
    m.update(10, true);
    m.key_down_event(KeyInput::D);
    m.update(4000, false);
    assert_eq!(m.room, Room::FarRightHall);
    assert_eq!(m.player.x, 70000);
    m.key_up_event(KeyInput::D);

    // walk into range of the puzzle terminal
    m.key_down_event(KeyInput::D);
    m.update(1500, false);
    m.key_up_event(KeyInput::D);
    assert_eq!(m.player.x, 370000);
    m.key_down_event(KeyInput::E);
    assert_eq!(m.state, State::InPuzzle(PuzzleID::FarRightHall));
    assert!(m.puzzle.is_some());

    // escape abandons the puzzle
    m.key_down_event(KeyInput::Escape);
    m.update(10, false);
    assert_eq!(m.state, State::Investigate);
    assert!(m.puzzle.is_none());

    // open it again and skip it
    m.key_down_event(KeyInput::E);
    assert_eq!(m.state, State::InPuzzle(PuzzleID::FarRightHall));
    m.mouse_button_down_event(MouseButtonInput::Left, 710, 500, 60, 40);
    let cues = m.update(10, false);
    assert_eq!(cues, vec![AudioCue::PlaySuccessSfx]);
    assert!(m.puzzle_cleared_far_right_hall);
    assert!(m.puzzle.is_none());
    assert_eq!(m.door_left_hall, Some((false, true)));
    assert_eq!(m.door_left_of_pod, Some((false, false)));
    assert_eq!(
        m.interactables[0].get_type(),
        InteractableType::Puzzle(PuzzleID::FarRightHall, true)
    );

    // the scene leaves the puzzle on the next update
    m.update(10, false);
    assert_eq!(m.state, State::Investigate);
}

#[test]
fn room_arrows_follow_the_map() {
    let mut m = MainScene::new(test_color());
    assert_eq!(m.room_arrows(), (true, false));
    m.room = Room::FarRightHall;
    assert_eq!(m.room_arrows(), (true, false));
    m.end_game = true;
    assert_eq!(m.room_arrows(), (true, true));
    m.room = Room::Computer;
    assert_eq!(m.room_arrows(), (false, false));
}

#[test]
fn scene_reports_finished_from_its_flag() {
    let mut m = MainScene::new(test_color());
    assert!(!m.finished());
    m.finished = true;
    assert!(Scene::finished(&m));
}
