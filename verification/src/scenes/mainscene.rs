use vstd::prelude::*;

use crate::arith::sat_add_i64;
use crate::arith::sat_add_u64;
use crate::arith::spec_sat_add_i64;
use crate::arith::spec_sat_add_u64;
use crate::arith::spec_sub_floor_u64;
use crate::arith::sub_floor_u64;
use crate::door::Door;
use crate::geometry::in_circle;
use crate::input::AudioCue;
use crate::input::KeyInput;
use crate::input::MouseButtonInput;
use crate::interactable::Interactable;
use crate::interactable::InteractableType;
use crate::player::Color;
use crate::player::Player;
use crate::player::PlayerState;
use crate::player::walk_state_after;
use crate::puzzle::PuzzleV;
use crate::puzzle::Puzzle;
use crate::puzzle::click_result;
use crate::puzzle::initial_tiles;
use crate::puzzle::key_result;
use crate::scenes::Scene;

verus! {

/// The two sliding-tile puzzles of the game, named for the room that hosts
/// each terminal.
#[derive(Copy, Clone, Debug, PartialEq, Eq, Hash, Structural)]
pub enum PuzzleID {
    FarRightHall,
    Computer,
}

/// The phases of the opening scene: waking in darkness, the typed wake-up
/// line, climbing out of the pod, walking and investigating, passing
/// through a door (leaving, then arriving), solving a puzzle, and the
/// escape-ship ending.
#[derive(Copy, Clone, Debug, PartialEq, Eq, Structural)]
pub enum State {
    InPodInDarkness,
    InPodWakeupText,
    GetOutOfPod,
    Investigate,
    EnterDoor(Room),
    ExitDoor,
    InPuzzle(PuzzleID),
    Ending,
}

/// The rooms of the ship, left to right, plus the two door-only rooms.
#[derive(Copy, Clone, Debug, PartialEq, Eq, Structural)]
pub enum Room {
    StasisPod,
    LeftOfPod,
    MainHallFrontOfPod,
    WindowRightHall,
    LeftHall,
    FarRightHall,
    Computer,
    Final,
}

/// Which way the player is currently told to walk.
#[derive(Copy, Clone, Debug, PartialEq, Eq, Structural)]
pub enum WalkingState {
    Standing,
    Left,
    Right,
}

/// The doors whose open and unlocked state outlives a room change.
#[derive(Copy, Clone, Debug, PartialEq, Eq, Hash, Structural)]
pub enum DoorIDs {
    LeftOfPod,
    LeftHall,
}

/// Whether the one-off discovery music is playing instead of the normal
/// background music.
#[derive(Copy, Clone, Debug, PartialEq, Eq, Structural)]
pub enum DiscoveryState {
    Normal,
    Discovery,
}

/// How fast the darkness pans up during the opening, in thousandths of a
/// pixel per millisecond.
pub const DARKNESS_PAN_RATE: i64 = 40;

/// Delay between typed characters, in milliseconds.
pub const TEXT_RATE_MS: u64 = 300;

/// Pause after the wake-up line has been typed, in milliseconds.
pub const IN_POD_TEXT_WAIT_TIME_MS: u64 = 1000;

/// How long climbing out of the pod takes, in milliseconds.
pub const GET_OUT_OF_POD_TIME_MS: u64 = 3000;

/// Walking speed, in thousandths of a pixel per millisecond.
pub const PLAYER_MOVEMENT_SPEED: i64 = 200;

/// How long the fade through a door takes, each way, in milliseconds.
pub const DOOR_EXIT_ENTER_TIME_MS: u64 = 1000;

/// Delay between frames of the bad-news animation, in milliseconds.
pub const BAD_NEWS_FLICKER_RATE_MS: u64 = 80;

/// How much a room change moves the bad news, in thousandths of a pixel.
pub const BAD_NEWS_NEW_ROOM_CHANGE: i64 = 150000;

/// The bad news reaches the player at this offset, in thousandths of a
/// pixel.
pub const BAD_NEWS_DEADLY_OFFSET: i64 = 2700000;

/// How long the escape ship flies during the ending, in milliseconds.
pub const SHIP_TRAVEL_TIME_MS: u64 = 14000;

/// The darkness stops panning at this offset, in thousandths of a pixel.
pub const DARKNESS_POD_LIMIT: i64 = -300000;

/// The wake-up line, in typing order.
pub open spec fn wakeup_text() -> Seq<char> {
    seq![
        'W', 'h', 'a', 't', '.', '.', ' ',
        'W', 'h', 'e', 'r', 'e', ' ', 'a', 'm', ' ', 'I', '?', '.', '.',
    ]
}

/// The wake-up line reversed; characters are typed by taking them off the
/// end.
pub open spec fn wakeup_text_rev() -> Seq<char> {
    seq![
        '.', '.', '?', 'I', ' ', 'm', 'a', ' ', 'e', 'r', 'e', 'h', 'W', ' ',
        '.', '.', 't', 'a', 'h', 'W',
    ]
}

/// The pending line is typed by taking characters off its end, so it is
/// held reversed.
pub proof fn lemma_wakeup_text_reversed()
    ensures
        wakeup_text_rev() == wakeup_text().reverse(),
{
    assert(wakeup_text_rev() =~= wakeup_text().reverse());
}

/// The movement hint shown in the stasis-pod room.
pub open spec fn stasis_instructions() -> Seq<char> {
    seq![
        'A', ' ', 'a', 'n', 'd', ' ', 'D', ' ', 'o', 'r', ' ',
        'L', 'e', 'f', 't', ' ', 'a', 'n', 'd', ' ', 'R', 'i', 'g', 'h', 't', ' ',
        'o', 'r', ' ', 'L', 'e', 'f', 't', ' ', 'C', 'l', 'i', 'c', 'k', ' ',
        't', 'o', ' ', 'm', 'o', 'v', 'e',
    ]
}

/// How long the pod light flicker phase `i` lasts, in milliseconds.
pub open spec fn flicker_time(i: int) -> u64 {
    if i == 0 {
        1000
    } else if i == 1 {
        100
    } else if i == 2 {
        850
    } else if i == 3 {
        70
    } else if i == 4 {
        120
    } else {
        90
    }
}

/// Whether flicker phase `i` shows the empty pod; the phases alternate.
pub open spec fn flicker_state(i: int) -> bool {
    i % 2 == 0
}

/// The room in which a puzzle's terminal stands.
pub open spec fn puzzle_room(id: PuzzleID) -> Room {
    match id {
        PuzzleID::FarRightHall => Room::FarRightHall,
        PuzzleID::Computer => Room::Computer,
    }
}

/// The mathematical value of the opening scene. Lengths are in thousandths
/// of a pixel, times in milliseconds.
#[verifier::ext_equal]
pub struct MainView {
    pub player: Player,
    pub finished: bool,
    pub current_text: Seq<char>,
    pub final_text: Seq<char>,
    pub state: State,
    pub darkness_yoffset: i64,
    pub timer: u64,
    pub draw_flicker_pod: bool,
    pub index: usize,
    pub room: Room,
    pub walking_state: WalkingState,
    pub interactables: Seq<Interactable>,
    pub doors: Seq<Door>,
    pub door_left_of_pod: Option<(bool, bool)>,
    pub door_left_hall: Option<(bool, bool)>,
    pub discovery_state: DiscoveryState,
    pub saw_earth: bool,
    pub puzzle_cleared_far_right_hall: bool,
    pub puzzle_cleared_computer: bool,
    pub puzzle: Option<PuzzleV>,
    pub end_game: bool,
    pub bad_news_state: u8,
    pub bad_news_timer: u64,
    pub bad_news_xoffset: i64,
    pub bad_news_started: bool,
    pub is_dead: bool,
}

/// A door as placed in a room: at pixel `x`, on the floor line, with the
/// default entry radius.
pub open spec fn placed_door(is_open: bool, x: int) -> Door {
    Door { is_open, x: x as i32, y: 390, id: 0, enter_radius: 70 }
}

impl MainView {
    /// Whether the persistent record says this door is open.
    pub open spec fn door_recorded_open(self, id: DoorIDs) -> bool {
        match id {
            DoorIDs::LeftOfPod => self.door_left_of_pod matches Option::Some((true, _)),
            DoorIDs::LeftHall => self.door_left_hall matches Option::Some((true, _)),
        }
    }

    /// The room's doors and hotspots as `init_room` lays them out.
    pub open spec fn layout_ok(self) -> bool {
        match self.room {
            Room::StasisPod => self.doors.len() == 0 && self.interactables.len() == 0,
            Room::LeftOfPod => {
                &&& self.doors =~= seq![placed_door(self.door_recorded_open(DoorIDs::LeftOfPod), 300)]
                &&& self.interactables.len() == 1
                &&& self.interactables[0].itype == InteractableType::Door(0)
                &&& self.interactables[0].x == 430
                &&& self.interactables[0].y == 450
                &&& self.interactables[0].radius == 70
            },
            Room::MainHallFrontOfPod => {
                &&& self.doors.len() == 1
                &&& self.doors[0].x == 352
                &&& self.doors[0].y == 390
                &&& self.doors[0].id == 0
                &&& self.doors[0].enter_radius == 70
                &&& self.interactables.len() == 1
                &&& self.interactables[0].itype matches InteractableType::LockedDoor(0, _)
                &&& self.interactables[0].x == 330
                &&& self.interactables[0].y == 450
                &&& self.interactables[0].radius == 70
            },
            Room::WindowRightHall => self.doors.len() == 0 && self.interactables.len() == 0,
            Room::LeftHall => {
                &&& self.doors.len() == 1
                &&& self.doors[0].x == 150
                &&& self.doors[0].y == 390
                &&& self.doors[0].id == 0
                &&& self.doors[0].enter_radius == 70
                &&& self.interactables.len() == 1
                &&& self.interactables[0].itype matches InteractableType::LockedDoor(0, _)
                &&& self.interactables[0].x == 120
                &&& self.interactables[0].y == 450
                &&& self.interactables[0].radius == 70
            },
            Room::FarRightHall => {
                &&& self.doors.len() == 0
                &&& self.interactables.len() == 1
                &&& self.interactables[0].itype matches InteractableType::Puzzle(
                    PuzzleID::FarRightHall,
                    _,
                )
                &&& self.interactables[0].x == 400
                &&& self.interactables[0].y == 500
                &&& self.interactables[0].radius == 70
            },
            Room::Computer => {
                &&& self.doors.len() == 1
                &&& self.doors[0].x == 650
                &&& self.doors[0].y == 390
                &&& self.doors[0].id == 0
                &&& self.doors[0].enter_radius == 70
                &&& self.interactables.len() == 2
                &&& self.interactables[0].itype == InteractableType::Door(0)
                &&& self.interactables[0].x == 780
                &&& self.interactables[0].y == 450
                &&& self.interactables[0].radius == 70
                &&& self.interactables[1].itype matches InteractableType::Puzzle(
                    PuzzleID::Computer,
                    _,
                )
                &&& self.interactables[1].x == 300
                &&& self.interactables[1].y == 400
                &&& self.interactables[1].radius == 200
            },
            Room::Final => {
                &&& self.doors.len() == 0
                &&& self.interactables.len() == 1
                &&& self.interactables[0].itype == InteractableType::Ship
                &&& self.interactables[0].x == 483
                &&& self.interactables[0].y == 521
                &&& self.interactables[0].radius == 70
            },
        }
    }

    /// All of the scene invariant except the room layout: counters stay on
    /// their dials, phase timers stay below their phase lengths, the player
    /// stays on screen, and a running puzzle is well formed and belongs to
    /// the current room.
    pub open spec fn wf_core(self) -> bool {
        &&& self.index < 6
        &&& self.bad_news_state < 3
        &&& self.timer <= SHIP_TRAVEL_TIME_MS
        &&& (self.state is GetOutOfPod ==> self.timer <= GET_OUT_OF_POD_TIME_MS)
        &&& (self.state matches State::EnterDoor(r) ==> r != Room::StasisPod && self.timer
            <= DOOR_EXIT_ENTER_TIME_MS)
        &&& (self.state is ExitDoor ==> self.timer <= DOOR_EXIT_ENTER_TIME_MS)
        &&& (self.state matches State::InPuzzle(id) ==> self.room == puzzle_room(id))
        &&& (self.puzzle matches Option::Some(p) ==> p.wf())
        &&& 0 <= self.player.x <= 736000
        &&& 0 <= self.player.y <= 600000
        &&& 0 <= self.player.rot <= 780
    }

    /// The scene invariant: `wf_core` plus the layout `init_room` gave the
    /// current room.
    pub open spec fn wf(self) -> bool {
        self.wf_core() && self.layout_ok()
    }
}

/// The scene value the opening starts from: the player in the pod room, in
/// the chosen color, everything dark, the pod light about to flicker.
pub open spec fn initial_main(color: Color) -> MainView {
    MainView {
        player: Player {
            x: 300000,
            y: 300000,
            rot: 0,
            state: PlayerState::Standing,
            color,
            xflip: false,
        },
        finished: false,
        current_text: Seq::empty(),
        final_text: Seq::empty(),
        state: State::InPodInDarkness,
        darkness_yoffset: 0,
        timer: 1000,
        draw_flicker_pod: false,
        index: 0,
        room: Room::StasisPod,
        walking_state: WalkingState::Standing,
        interactables: Seq::empty(),
        doors: Seq::empty(),
        door_left_of_pod: Option::None,
        door_left_hall: Option::None,
        discovery_state: DiscoveryState::Normal,
        saw_earth: false,
        puzzle_cleared_far_right_hall: false,
        puzzle_cleared_computer: false,
        puzzle: Option::None,
        end_game: false,
        bad_news_state: 0,
        bad_news_timer: 0,
        bad_news_xoffset: 0,
        bad_news_started: false,
        is_dead: false,
    }
}

/// The scene after the current room's doors and hotspots are rebuilt from
/// the persistent door, puzzle and story state, together with the audio
/// this may start (seeing earth for the first time starts the discovery
/// music). When the scene is arriving through a door, the player is placed
/// at that room's door.
pub open spec fn spec_init_room(v: MainView) -> (MainView, Seq<AudioCue>) {
    match v.room {
        Room::StasisPod => (
            MainView {
                current_text: stasis_instructions(),
                darkness_yoffset: (-300000) as i64,
                interactables: Seq::empty(),
                doors: Seq::empty(),
                ..v
            },
            Seq::empty(),
        ),
        Room::LeftOfPod => (
            MainView {
                current_text: Seq::empty(),
                darkness_yoffset: (-300000) as i64,
                interactables: seq![
                    Interactable { itype: InteractableType::Door(0), x: 430, y: 450, radius: 70 },
                ],
                doors: seq![placed_door(v.door_recorded_open(DoorIDs::LeftOfPod), 300)],
                player: if v.state is ExitDoor {
                    Player { x: 316000, ..v.player }
                } else {
                    v.player
                },
                ..v
            },
            Seq::empty(),
        ),
        Room::MainHallFrontOfPod => (
            MainView {
                darkness_yoffset: (-300000) as i64,
                interactables: seq![
                    Interactable {
                        itype: InteractableType::LockedDoor(
                            0,
                            v.door_left_of_pod matches Option::Some((_, true)) || v.door_left_of_pod
                                is None,
                        ),
                        x: 330,
                        y: 450,
                        radius: 70,
                    },
                ],
                doors: seq![placed_door(v.door_recorded_open(DoorIDs::LeftOfPod), 352)],
                player: if v.state is ExitDoor {
                    Player { x: 368000, ..v.player }
                } else {
                    v.player
                },
                ..v
            },
            Seq::empty(),
        ),
        Room::WindowRightHall => (
            MainView {
                darkness_yoffset: (-470000) as i64,
                interactables: Seq::empty(),
                doors: Seq::empty(),
                saw_earth: true,
                discovery_state: if !v.saw_earth {
                    DiscoveryState::Discovery
                } else {
                    v.discovery_state
                },
                ..v
            },
            if !v.saw_earth {
                seq![AudioCue::StopMusic, AudioCue::PlayDiscoveryMusic]
            } else {
                Seq::empty()
            },
        ),
        Room::LeftHall => (
            MainView {
                darkness_yoffset: (-250000) as i64,
                interactables: seq![
                    Interactable {
                        itype: InteractableType::LockedDoor(
                            0,
                            v.door_left_hall matches Option::Some((_, true)),
                        ),
                        x: 120,
                        y: 450,
                        radius: 70,
                    },
                ],
                doors: seq![placed_door(v.door_recorded_open(DoorIDs::LeftHall), 150)],
                player: if v.state is ExitDoor {
                    Player { x: 166000, ..v.player }
                } else {
                    v.player
                },
                ..v
            },
            Seq::empty(),
        ),
        Room::FarRightHall => (
            MainView {
                darkness_yoffset: (-450000) as i64,
                interactables: seq![
                    Interactable {
                        itype: InteractableType::Puzzle(
                            PuzzleID::FarRightHall,
                            v.puzzle_cleared_far_right_hall,
                        ),
                        x: 400,
                        y: 500,
                        radius: 70,
                    },
                ],
                doors: Seq::empty(),
                ..v
            },
            Seq::empty(),
        ),
        Room::Computer => (
            MainView {
                darkness_yoffset: (-530000) as i64,
                interactables: seq![
                    Interactable { itype: InteractableType::Door(0), x: 780, y: 450, radius: 70 },
                    Interactable {
                        itype: InteractableType::Puzzle(
                            PuzzleID::Computer,
                            v.puzzle_cleared_computer,
                        ),
                        x: 300,
                        y: 400,
                        radius: 200,
                    },
                ],
                doors: seq![placed_door(true, 650)],
                player: if v.state is ExitDoor {
                    Player { x: 666000, ..v.player }
                } else {
                    v.player
                },
                ..v
            },
            Seq::empty(),
        ),
        Room::Final => (
            MainView {
                darkness_yoffset: (-500000) as i64,
                interactables: seq![
                    Interactable { itype: InteractableType::Ship, x: 483, y: 521, radius: 70 },
                ],
                doors: Seq::empty(),
                ..v
            },
            Seq::empty(),
        ),
    }
}

/// A persistent door record after its in-room door was toggled to `open`:
/// a missing record is created unlocked.
pub open spec fn toggled_door_record(rec: Option<(bool, bool)>, open: bool) -> Option<
    (bool, bool),
> {
    match rec {
        Option::None => Option::Some((open, true)),
        Option::Some((_, unlocked)) => Option::Some((open, unlocked)),
    }
}

/// The player once told to walk: standing starts a fresh step, walking
/// goes on unchanged.
pub open spec fn walking_started(p: Player) -> Player {
    if p.state == PlayerState::Standing {
        Player { state: PlayerState::Walking(true, 0), ..p }
    } else {
        p
    }
}

/// In the endgame, a room change slides the bad news by `delta`
/// thousandths of a pixel.
pub open spec fn shift_bad_news(v: MainView, delta: i64) -> MainView {
    if v.end_game {
        MainView { bad_news_xoffset: spec_sat_add_i64(v.bad_news_xoffset, delta), ..v }
    } else {
        v
    }
}

/// One walk out of a room: the player appears at pixel `x` (thousandths)
/// of the room `target`, the room is rebuilt, and in the endgame the bad
/// news slides by `delta`.
pub open spec fn walk_exited(v: MainView, target: Room, x: i64, delta: i64) -> (
    MainView,
    Seq<AudioCue>,
) {
    let r = spec_init_room(MainView { room: target, player: Player { x, ..v.player }, ..v });
    if delta == 0 {
        r
    } else {
        (shift_bad_news(r.0, delta), r.1)
    }
}

/// The scene after walking off the left edge: where a room lies to the
/// left, the player appears at its right edge and the room is rebuilt; in
/// the endgame the bad news gains ground on every such change except the
/// first one out of the pod room.
pub open spec fn spec_exit_left(v: MainView) -> (MainView, Seq<AudioCue>) {
    match v.room {
        Room::StasisPod => walk_exited(v, Room::LeftOfPod, 666000, 0),
        Room::MainHallFrontOfPod => walk_exited(v, Room::LeftHall, 666000, BAD_NEWS_NEW_ROOM_CHANGE),
        Room::WindowRightHall => walk_exited(v, Room::MainHallFrontOfPod, 666000, BAD_NEWS_NEW_ROOM_CHANGE),
        Room::FarRightHall => walk_exited(v, Room::WindowRightHall, 666000, BAD_NEWS_NEW_ROOM_CHANGE),
        Room::Final => walk_exited(v, Room::FarRightHall, 666000, BAD_NEWS_NEW_ROOM_CHANGE),
        _ => (v, Seq::empty()),
    }
}

/// The scene after walking off the right edge, the mirror of
/// `spec_exit_left`; the way right out of the far right hall opens only in
/// the endgame.
pub open spec fn spec_exit_right(v: MainView) -> (MainView, Seq<AudioCue>) {
    match v.room {
        Room::LeftOfPod => walk_exited(v, Room::StasisPod, 70000, 0),
        Room::MainHallFrontOfPod => walk_exited(v, Room::WindowRightHall, 70000, (-BAD_NEWS_NEW_ROOM_CHANGE) as i64),
        Room::WindowRightHall => walk_exited(v, Room::FarRightHall, 70000, (-BAD_NEWS_NEW_ROOM_CHANGE) as i64),
        Room::LeftHall => walk_exited(v, Room::MainHallFrontOfPod, 70000, (-BAD_NEWS_NEW_ROOM_CHANGE) as i64),
        Room::FarRightHall => if v.end_game {
            walk_exited(v, Room::Final, 70000, (-BAD_NEWS_NEW_ROOM_CHANGE) as i64)
        } else {
            (v, Seq::empty())
        },
        _ => (v, Seq::empty()),
    }
}

/// The scene as it starts passing through the door at `idx`: the fade-out
/// begins, the player is placed at the door and walks in place. The room
/// itself changes only when the fade completes.
pub open spec fn door_entered(v: MainView, target: Room, idx: int, delta: i64) -> MainView {
    let v2 = MainView {
        state: State::EnterDoor(target),
        timer: DOOR_EXIT_ENTER_TIME_MS,
        player: walking_started(
            Player { x: (v.doors[idx].x * 1000 + 16000) as i64, ..v.player },
        ),
        ..v
    };
    if delta == 0 {
        v2
    } else {
        shift_bad_news(v2, delta)
    }
}

/// The scene after asking to enter door `idx` of the current room; rooms
/// without a usable door change nothing.
pub open spec fn spec_exit_door(v: MainView, idx: int) -> MainView {
    if idx < v.doors.len() {
        match v.room {
            Room::LeftOfPod => door_entered(v, Room::MainHallFrontOfPod, idx, 0),
            Room::MainHallFrontOfPod => door_entered(v, Room::LeftOfPod, idx, 0),
            Room::LeftHall => door_entered(v, Room::Computer, idx, BAD_NEWS_NEW_ROOM_CHANGE),
            Room::Computer => door_entered(v, Room::LeftHall, idx, (-BAD_NEWS_NEW_ROOM_CHANGE) as i64),
            _ => v,
        }
    } else {
        v
    }
}

/// The scene after door `id` of the current room is toggled, with the
/// toggle recorded under the persistent record `rec`.
pub open spec fn door_toggled(v: MainView, id: int, rec: DoorIDs) -> MainView {
    let new_open = !v.doors[id].is_open;
    let doors2 = v.doors.update(id, Door { is_open: new_open, ..v.doors[id] });
    match rec {
        DoorIDs::LeftOfPod => MainView {
            doors: doors2,
            door_left_of_pod: toggled_door_record(v.door_left_of_pod, new_open),
            ..v
        },
        DoorIDs::LeftHall => MainView {
            doors: doors2,
            door_left_hall: toggled_door_record(v.door_left_hall, new_open),
            ..v
        },
    }
}

/// A fresh puzzle of the given kind, as a value.
pub open spec fn initial_puzzle(id: PuzzleID) -> PuzzleV {
    PuzzleV {
        ptype: id,
        tiles: initial_tiles(id),
        key_pos: 0,
        key_pressed: true,
        abort: false,
        force_solve: false,
    }
}

/// What using a hotspot does, together with the sounds it makes: door
/// panels toggle their door and record it, locked panels refuse with an
/// error sound until unlocked, an uncleared puzzle terminal opens its
/// puzzle, and the ship starts the ending.
pub open spec fn spec_use_interactable(v: MainView, itype: InteractableType) -> (
    MainView,
    Seq<AudioCue>,
) {
    match itype {
        InteractableType::Door(id) => {
            let v2 = match v.room {
                Room::LeftOfPod => door_toggled(v, id as int, DoorIDs::LeftOfPod),
                Room::MainHallFrontOfPod => door_toggled(v, id as int, DoorIDs::LeftOfPod),
                Room::Computer => door_toggled(v, id as int, DoorIDs::LeftHall),
                _ => v,
            };
            (v2, seq![AudioCue::PlayDoorSfx])
        },
        InteractableType::LockedDoor(id, unlocked) => match v.room {
            Room::MainHallFrontOfPod => if unlocked {
                (door_toggled(v, id as int, DoorIDs::LeftOfPod), seq![AudioCue::PlayDoorSfx])
            } else {
                (v, seq![AudioCue::PlayErrorSfx])
            },
            Room::LeftHall => if unlocked {
                (door_toggled(v, id as int, DoorIDs::LeftHall), seq![AudioCue::PlayDoorSfx])
            } else {
                (v, seq![AudioCue::PlayErrorSfx])
            },
            _ => (v, Seq::empty()),
        },
        InteractableType::Puzzle(id, cleared) => match v.room {
            Room::FarRightHall | Room::Computer => if !cleared {
                (
                    MainView {
                        state: State::InPuzzle(id),
                        puzzle: Option::Some(initial_puzzle(id)),
                        ..v
                    },
                    Seq::empty(),
                )
            } else {
                (v, Seq::empty())
            },
            _ => (v, Seq::empty()),
        },
        InteractableType::Ship => (
            MainView { state: State::Ending, timer: 0, ..v },
            seq![AudioCue::StopBadNewsMusic, AudioCue::PlayEndingMusic],
        ),
    }
}

/// A hotspot's identity is sound for the room it stands in: door panels
/// name door 0, and a puzzle terminal names its own room's puzzle.
pub open spec fn itype_ok(v: MainView, itype: InteractableType) -> bool {
    &&& (itype matches InteractableType::Door(id) ==> id == 0)
    &&& (itype matches InteractableType::LockedDoor(id, _) ==> id == 0)
    &&& (itype matches InteractableType::Puzzle(id, _) ==> puzzle_room(id) == v.room)
}

/// A puzzle terminal hotspot shown as cleared.
pub open spec fn puzzle_marked_cleared(it: Interactable) -> Interactable {
    match it.itype {
        InteractableType::Puzzle(id, _) => Interactable {
            itype: InteractableType::Puzzle(id, true),
            ..it
        },
        _ => it,
    }
}

/// The scene after the running puzzle is solved: the terminal shows
/// cleared and the success sound plays. Solving the hall puzzle unlocks
/// the left hall door and locks the pod-side door again; solving the
/// computer puzzle starts the endgame.
pub open spec fn spec_handle_solved(v: MainView) -> (MainView, Seq<AudioCue>) {
    match v.state {
        State::InPuzzle(id) => match id {
            PuzzleID::FarRightHall => (
                MainView {
                    puzzle_cleared_far_right_hall: true,
                    puzzle: Option::None,
                    interactables: v.interactables.update(
                        0,
                        puzzle_marked_cleared(v.interactables[0]),
                    ),
                    door_left_hall: Option::Some((false, true)),
                    door_left_of_pod: Option::Some((false, false)),
                    ..v
                },
                seq![AudioCue::PlaySuccessSfx],
            ),
            PuzzleID::Computer => (
                MainView {
                    puzzle_cleared_computer: true,
                    puzzle: Option::None,
                    interactables: v.interactables.update(
                        1,
                        puzzle_marked_cleared(v.interactables[1]),
                    ),
                    end_game: true,
                    ..v
                },
                seq![AudioCue::PlaySuccessSfx],
            ),
        },
        _ => (v, Seq::empty()),
    }
}

/// The player once told to stop walking.
pub open spec fn walking_stopped(p: Player) -> Player {
    Player { state: PlayerState::Standing, ..p }
}

/// The player with its opacity set, in thousandths.
pub open spec fn with_alpha(p: Player, a: u16) -> Player {
    Player { color: Color { alpha_permille: a, ..p.color }, ..p }
}

/// The player's walking animation advanced by `dt` milliseconds.
pub open spec fn player_stepped(p: Player, dt: u32) -> Player {
    match p.state {
        PlayerState::Standing => p,
        PlayerState::Walking(left, t) => Player { state: walk_state_after(left, t, dt), ..p },
    }
}

/// The bad-news frame timer accumulates, and each time it passes the
/// flicker rate the next of the three frames shows.
pub open spec fn bad_news_flicker(v: MainView, dt: u32) -> MainView {
    let t = spec_sat_add_u64(v.bad_news_timer, dt as u64);
    if t > BAD_NEWS_FLICKER_RATE_MS {
        MainView {
            bad_news_timer: (t - BAD_NEWS_FLICKER_RATE_MS) as u64,
            bad_news_state: ((v.bad_news_state + 1) % 3) as u8,
            ..v
        }
    } else {
        MainView { bad_news_timer: t, ..v }
    }
}

/// The discovery-music tail: once the discovery track has ended, the
/// normal music returns.
pub open spec fn tails_discovery(v: MainView, discovery_music_stopped: bool) -> (
    MainView,
    Seq<AudioCue>,
) {
    if v.discovery_state == DiscoveryState::Discovery && discovery_music_stopped {
        (
            MainView { discovery_state: DiscoveryState::Normal, ..v },
            seq![AudioCue::PlayMusic],
        )
    } else {
        (v, Seq::empty())
    }
}

/// The endgame tail: the bad news starts its music once, closes in at its
/// growth rate, kills the player when it arrives, and flickers.
pub open spec fn tails_bad_news(v: MainView, dt: u32) -> (MainView, Seq<AudioCue>) {
    if v.end_game {
        let r3 = if !v.bad_news_started {
            (
                MainView { bad_news_started: true, ..v },
                seq![AudioCue::StopMusic, AudioCue::PlayBadNewsMusic],
            )
        } else {
            (v, Seq::<AudioCue>::empty())
        };
        let x2 = spec_sat_add_i64(r3.0.bad_news_xoffset, (dt * 100) as i64);
        let v4 = MainView {
            bad_news_xoffset: x2,
            is_dead: if x2 >= BAD_NEWS_DEADLY_OFFSET {
                true
            } else {
                r3.0.is_dead
            },
            ..r3.0
        };
        (bad_news_flicker(v4, dt), r3.1)
    } else {
        (v, Seq::empty())
    }
}

/// What every non-ending update does after its phase step: the walking
/// animation advances, the normal music returns once the discovery track
/// has ended, and in the endgame the bad news closes in.
pub open spec fn spec_tails(v: MainView, dt: u32, discovery_music_stopped: bool) -> (
    MainView,
    Seq<AudioCue>,
) {
    let v1 = MainView { player: player_stepped(v.player, dt), ..v };
    let r2 = tails_discovery(v1, discovery_music_stopped);
    let r3 = tails_bad_news(r2.0, dt);
    (r3.0, r2.1 + r3.1)
}

/// Waking in darkness: the player lies in the pod, the pod light flickers
/// on its fixed schedule, and the darkness pans up until it reaches its
/// limit, at which point the wake-up line starts typing.
pub open spec fn spec_step_darkness(v: MainView, dt: u32) -> MainView {
    let p2 = Player { x: 520000, y: 350000, rot: 780, ..v.player };
    let t2 = spec_sub_floor_u64(v.timer, dt as u64);
    let flick = if t2 == 0 {
        flicker_state(v.index as int)
    } else {
        v.draw_flicker_pod
    };
    let idx = if t2 == 0 {
        ((v.index + 1) % 6) as usize
    } else {
        v.index
    };
    let t3 = if t2 == 0 {
        flicker_time(idx as int)
    } else {
        t2
    };
    if v.darkness_yoffset > DARKNESS_POD_LIMIT {
        MainView {
            player: p2,
            timer: t3,
            draw_flicker_pod: flick,
            index: idx,
            darkness_yoffset: (v.darkness_yoffset - dt * DARKNESS_PAN_RATE) as i64,
            ..v
        }
    } else {
        MainView {
            player: p2,
            timer: TEXT_RATE_MS,
            draw_flicker_pod: flick,
            index: idx,
            state: State::InPodWakeupText,
            final_text: wakeup_text_rev(),
            ..v
        }
    }
}

/// Typing the wake-up line: every text-rate tick one character moves from
/// the pending line to the shown text with a click; after the last one the
/// scene waits for the player.
pub open spec fn spec_step_wakeup(v: MainView, dt: u32) -> (MainView, Seq<AudioCue>) {
    if v.final_text.len() > 0 {
        let t2 = spec_sub_floor_u64(v.timer, dt as u64);
        if t2 == 0 {
            let ft = v.final_text.drop_last();
            (
                MainView {
                    timer: if ft.len() == 0 {
                        IN_POD_TEXT_WAIT_TIME_MS
                    } else {
                        TEXT_RATE_MS
                    },
                    final_text: ft,
                    current_text: v.current_text.push(v.final_text.last()),
                    ..v
                },
                seq![AudioCue::PlayTextSfx],
            )
        } else {
            (MainView { timer: t2, ..v }, Seq::empty())
        }
    } else {
        (MainView { timer: spec_sub_floor_u64(v.timer, dt as u64), ..v }, Seq::empty())
    }
}

/// Linear interpolation from `b` at time zero to `a` at time `total`.
pub open spec fn lerp_px(a: int, b: int, t: int, total: int) -> int {
    (a * t + b * (total - t)) / total
}

/// Climbing out of the pod: the player slides and uprights from the pod to
/// the floor as the timer runs down; when it ends, walking starts, with
/// the music.
pub open spec fn spec_step_get_out(v: MainView, dt: u32) -> (MainView, Seq<AudioCue>) {
    let t2 = spec_sub_floor_u64(v.timer, dt as u64);
    if t2 > 0 {
        let p2 = Player {
            x: lerp_px(520000, 500000, t2 as int, 3000) as i64,
            y: lerp_px(350000, 430000, t2 as int, 3000) as i64,
            rot: ((780 * t2) / 3000) as i32,
            ..v.player
        };
        (MainView { timer: t2, player: p2, ..v }, Seq::empty())
    } else {
        let r = spec_init_room(MainView { timer: t2, state: State::Investigate, ..v });
        (r.0, seq![AudioCue::PlayMusic] + r.1)
    }
}

/// Walking around a room: the player moves at walking speed, clamped to
/// the screen, and walking off an edge leaves the room.
pub open spec fn spec_step_investigate(v: MainView, dt: u32) -> (MainView, Seq<AudioCue>) {
    match v.walking_state {
        WalkingState::Standing => (
            MainView { player: walking_stopped(v.player), ..v },
            Seq::empty(),
        ),
        WalkingState::Left => {
            let d = (dt * PLAYER_MOVEMENT_SPEED) as i64;
            if v.player.x <= d {
                spec_exit_left(
                    MainView {
                        player: walking_stopped(Player { x: 0, ..v.player }),
                        walking_state: WalkingState::Standing,
                        ..v
                    },
                )
            } else {
                (
                    MainView {
                        player: Player {
                            xflip: true,
                            ..walking_started(Player { x: (v.player.x - d) as i64, ..v.player })
                        },
                        ..v
                    },
                    Seq::empty(),
                )
            }
        },
        WalkingState::Right => {
            let d = (dt * PLAYER_MOVEMENT_SPEED) as i64;
            if v.player.x + d >= 736000 {
                spec_exit_right(
                    MainView {
                        player: walking_stopped(Player { x: 736000, ..v.player }),
                        walking_state: WalkingState::Standing,
                        ..v
                    },
                )
            } else {
                (
                    MainView {
                        player: Player {
                            xflip: false,
                            ..walking_started(Player { x: (v.player.x + d) as i64, ..v.player })
                        },
                        ..v
                    },
                    Seq::empty(),
                )
            }
        },
    }
}

/// Fading out through a door: the player fades with the timer; when it
/// ends, the scene arrives in the target room and fades back in.
pub open spec fn spec_step_enter_door(v: MainView, dt: u32) -> (MainView, Seq<AudioCue>) {
    match v.state {
        State::EnterDoor(room) => {
            let t2 = spec_sub_floor_u64(v.timer, dt as u64);
            if t2 == 0 {
                let r = spec_init_room(
                    MainView {
                        room,
                        state: State::ExitDoor,
                        timer: DOOR_EXIT_ENTER_TIME_MS,
                        ..v
                    },
                );
                (MainView { player: with_alpha(r.0.player, 0), ..r.0 }, r.1)
            } else {
                (
                    MainView { timer: t2, player: with_alpha(v.player, t2 as u16), ..v },
                    Seq::empty(),
                )
            }
        },
        _ => (v, Seq::empty()),
    }
}

/// Fading back in after a door: the player solidifies as the timer runs
/// down, then investigation resumes.
pub open spec fn spec_step_exit_door(v: MainView, dt: u32) -> (MainView, Seq<AudioCue>) {
    let t2 = spec_sub_floor_u64(v.timer, dt as u64);
    if t2 == 0 {
        (
            MainView {
                state: State::Investigate,
                timer: t2,
                player: with_alpha(walking_stopped(v.player), 1000),
                ..v
            },
            Seq::empty(),
        )
    } else {
        (
            MainView { timer: t2, player: with_alpha(v.player, (1000 - t2) as u16), ..v },
            Seq::empty(),
        )
    }
}

/// Inside a puzzle: a solved puzzle is banked, an abandoned one is thrown
/// away, and otherwise nothing moves on its own.
pub open spec fn spec_step_in_puzzle(v: MainView) -> (MainView, Seq<AudioCue>) {
    match v.puzzle {
        Option::Some(p) => {
            if p.solved() {
                spec_handle_solved(v)
            } else if p.abort {
                (
                    MainView { puzzle: Option::None, state: State::Investigate, ..v },
                    Seq::empty(),
                )
            } else {
                (v, Seq::empty())
            }
        },
        Option::None => (MainView { state: State::Investigate, ..v }, Seq::empty()),
    }
}

/// The phase-specific part of an update.
pub open spec fn spec_state_step(v: MainView, dt: u32) -> (MainView, Seq<AudioCue>) {
    match v.state {
        State::InPodInDarkness => (spec_step_darkness(v, dt), Seq::empty()),
        State::InPodWakeupText => spec_step_wakeup(v, dt),
        State::GetOutOfPod => spec_step_get_out(v, dt),
        State::Investigate => spec_step_investigate(v, dt),
        State::EnterDoor(_) => spec_step_enter_door(v, dt),
        State::ExitDoor => spec_step_exit_door(v, dt),
        State::InPuzzle(_) => spec_step_in_puzzle(v),
        State::Ending => (v, Seq::empty()),
    }
}

/// One frame of the scene, `dt` milliseconds after the last: once dead,
/// only the bad news flickers; in the ending, the ship timer runs to its
/// end; otherwise the phase step runs and then the common tail.
pub open spec fn spec_update(v: MainView, dt: u32, discovery_music_stopped: bool) -> (
    MainView,
    Seq<AudioCue>,
) {
    if v.is_dead {
        (bad_news_flicker(v, dt), Seq::empty())
    } else if v.state is Ending {
        let t = spec_sat_add_u64(v.timer, dt as u64);
        (
            MainView {
                timer: if t >= SHIP_TRAVEL_TIME_MS {
                    SHIP_TRAVEL_TIME_MS
                } else {
                    t
                },
                ..v
            },
            Seq::empty(),
        )
    } else {
        let r1 = spec_state_step(v, dt);
        let r2 = spec_tails(r1.0, dt, discovery_music_stopped);
        (r2.0, r1.1 + r2.1)
    }
}

/// The point the player interacts from: the center of the sprite, in
/// whole pixels.
pub open spec fn player_center(p: Player) -> (int, int) {
    (p.x / 1000 + 32, p.y / 1000 + 64)
}

/// An optional mouse position, in whole pixels.
pub open spec fn mouse_view(m: Option<(i32, i32)>) -> Option<(int, int)> {
    match m {
        Option::Some(q) => Option::Some((q.0 as int, q.1 as int)),
        Option::None => Option::None,
    }
}

/// Whether a hotspot is usable: the player stands in its radius and, for a
/// mouse press, the press is in its radius too.
pub open spec fn hotspot_hit(it: Interactable, pcx: int, pcy: int, mouse: Option<(int, int)>)
    -> bool {
    &&& in_circle(it.x as int, it.y as int, pcx, pcy, it.radius as int)
    &&& (mouse matches Option::Some(m) ==> in_circle(
        it.x as int,
        it.y as int,
        m.0,
        m.1,
        it.radius as int,
    ))
}

/// The first usable hotspot, scanning in order.
pub open spec fn first_hotspot(
    items: Seq<Interactable>,
    pcx: int,
    pcy: int,
    mouse: Option<(int, int)>,
) -> Option<InteractableType>
    decreases items.len(),
{
    if items.len() == 0 {
        Option::None
    } else if hotspot_hit(items[0], pcx, pcy, mouse) {
        Option::Some(items[0].itype)
    } else {
        first_hotspot(items.drop_first(), pcx, pcy, mouse)
    }
}

/// Whether a door can be entered: it is open, the player stands at its
/// entry point and, for a mouse press, the press is at it too.
pub open spec fn door_hit(d: Door, pcx: int, pcy: int, mouse: Option<(int, int)>) -> bool {
    &&& d.is_open
    &&& in_circle(d.spec_center_x(), d.spec_center_y(), pcx, pcy, d.enter_radius as int)
    &&& (mouse matches Option::Some(m) ==> in_circle(
        d.spec_center_x(),
        d.spec_center_y(),
        m.0,
        m.1,
        d.enter_radius as int,
    ))
}

/// The id of the first enterable door, scanning in order.
pub open spec fn first_open_door(doors: Seq<Door>, pcx: int, pcy: int, mouse: Option<(int, int)>)
    -> Option<int>
    decreases doors.len(),
{
    if doors.len() == 0 {
        Option::None
    } else if door_hit(doors[0], pcx, pcy, mouse) {
        Option::Some(doors[0].id as int)
    } else {
        first_open_door(doors.drop_first(), pcx, pcy, mouse)
    }
}

/// Scanning a prefix without a hit does not change which hotspot is found.
proof fn lemma_first_hotspot_skip(
    items: Seq<Interactable>,
    pcx: int,
    pcy: int,
    mouse: Option<(int, int)>,
    i: int,
)
    requires
        0 <= i <= items.len(),
        forall|j: int| 0 <= j < i ==> !hotspot_hit(items[j], pcx, pcy, mouse),
    ensures
        first_hotspot(items, pcx, pcy, mouse) == first_hotspot(items.skip(i), pcx, pcy, mouse),
    decreases i,
{
    if i > 0 {
        lemma_first_hotspot_skip(items, pcx, pcy, mouse, i - 1);
        assert(items.skip(i - 1)[0] == items[i - 1]);
        assert(items.skip(i - 1).drop_first() =~= items.skip(i));
    } else {
        assert(items.skip(0) =~= items);
    }
}

/// Scanning a prefix without a hit does not change which door is found.
proof fn lemma_first_open_door_skip(
    doors: Seq<Door>,
    pcx: int,
    pcy: int,
    mouse: Option<(int, int)>,
    i: int,
)
    requires
        0 <= i <= doors.len(),
        forall|j: int| 0 <= j < i ==> !door_hit(doors[j], pcx, pcy, mouse),
    ensures
        first_open_door(doors, pcx, pcy, mouse) == first_open_door(
            doors.skip(i),
            pcx,
            pcy,
            mouse,
        ),
    decreases i,
{
    if i > 0 {
        lemma_first_open_door_skip(doors, pcx, pcy, mouse, i - 1);
        assert(doors.skip(i - 1)[0] == doors[i - 1]);
        assert(doors.skip(i - 1).drop_first() =~= doors.skip(i));
    } else {
        assert(doors.skip(0) =~= doors);
    }
}

/// A mouse press on the scene: it skips the wake-up line, uses hotspots
/// and doors or starts walking while investigating, and presses the
/// puzzle. The caption widths are those `Puzzle::handle_click` takes.
pub open spec fn spec_mouse_down(
    v: MainView,
    button: MouseButtonInput,
    x: i32,
    y: i32,
    reset_width: i32,
    skip_width: i32,
) -> (MainView, Seq<AudioCue>) {
    match v.state {
        State::InPodWakeupText => {
            if v.final_text.len() == 0 && v.timer == 0 {
                (
                    MainView { state: State::GetOutOfPod, timer: GET_OUT_OF_POD_TIME_MS, ..v },
                    Seq::empty(),
                )
            } else {
                (MainView { timer: 0, ..v }, Seq::empty())
            }
        },
        State::Investigate => {
            if button == MouseButtonInput::Left {
                let pc = player_center(v.player);
                match first_hotspot(
                    v.interactables,
                    pc.0,
                    pc.1,
                    Option::Some((x as int, y as int)),
                ) {
                    Option::Some(t) => spec_use_interactable(v, t),
                    Option::None => {
                        if v.player.x / 1000 > x {
                            (MainView { walking_state: WalkingState::Left, ..v }, Seq::empty())
                        } else if v.player.x / 1000 + 64 < x {
                            (MainView { walking_state: WalkingState::Right, ..v }, Seq::empty())
                        } else {
                            (v, Seq::empty())
                        }
                    },
                }
            } else if button == MouseButtonInput::Right {
                let pc = player_center(v.player);
                match first_open_door(v.doors, pc.0, pc.1, Option::Some((x as int, y as int))) {
                    Option::Some(id) => (spec_exit_door(v, id), Seq::empty()),
                    Option::None => (v, Seq::empty()),
                }
            } else {
                (v, Seq::empty())
            }
        },
        State::InPuzzle(_) => {
            match v.puzzle {
                Option::Some(p) => if button == MouseButtonInput::Left {
                    (
                        MainView {
                            puzzle: Option::Some(
                                click_result(
                                    p,
                                    x as int,
                                    y as int,
                                    reset_width as int,
                                    skip_width as int,
                                ),
                            ),
                            ..v
                        },
                        Seq::empty(),
                    )
                } else {
                    (v, Seq::empty())
                },
                Option::None => (v, Seq::empty()),
            }
        },
        _ => (v, Seq::empty()),
    }
}

/// Releasing the left mouse button stops walking.
pub open spec fn spec_mouse_up(v: MainView, button: MouseButtonInput) -> MainView {
    match v.state {
        State::Investigate => {
            if button == MouseButtonInput::Left {
                MainView { walking_state: WalkingState::Standing, ..v }
            } else {
                v
            }
        },
        _ => v,
    }
}

/// A key press on the scene: it skips the wake-up line; while
/// investigating, the move keys start walking inside the screen, the use
/// key uses the hotspot at the player, and the door key enters the door at
/// the player; in a puzzle it goes to the puzzle.
pub open spec fn spec_key_down(v: MainView, keycode: KeyInput) -> (MainView, Seq<AudioCue>) {
    match v.state {
        State::InPodWakeupText => {
            if v.final_text.len() == 0 && v.timer == 0 {
                (
                    MainView {
                        state: State::GetOutOfPod,
                        timer: GET_OUT_OF_POD_TIME_MS,
                        current_text: Seq::empty(),
                        ..v
                    },
                    Seq::empty(),
                )
            } else {
                (MainView { timer: 0, ..v }, Seq::empty())
            }
        },
        State::Investigate => {
            if keycode == KeyInput::A || keycode == KeyInput::Left {
                if v.player.x > 0 {
                    (MainView { walking_state: WalkingState::Left, ..v }, Seq::empty())
                } else {
                    (v, Seq::empty())
                }
            } else if keycode == KeyInput::D || keycode == KeyInput::Right {
                if v.player.x + 64000 < 800000 {
                    (MainView { walking_state: WalkingState::Right, ..v }, Seq::empty())
                } else {
                    (v, Seq::empty())
                }
            } else if keycode == KeyInput::E {
                let pc = player_center(v.player);
                match first_hotspot(v.interactables, pc.0, pc.1, Option::None) {
                    Option::Some(t) => spec_use_interactable(v, t),
                    Option::None => (v, Seq::empty()),
                }
            } else if keycode == KeyInput::W {
                let pc = player_center(v.player);
                match first_open_door(v.doors, pc.0, pc.1, Option::None) {
                    Option::Some(id) => (spec_exit_door(v, id), Seq::empty()),
                    Option::None => (v, Seq::empty()),
                }
            } else {
                (v, Seq::empty())
            }
        },
        State::InPuzzle(_) => {
            match v.puzzle {
                Option::Some(p) => (
                    MainView { puzzle: Option::Some(key_result(p, keycode)), ..v },
                    Seq::empty(),
                ),
                Option::None => (v, Seq::empty()),
            }
        },
        _ => (v, Seq::empty()),
    }
}

/// Releasing a move key stops walking.
pub open spec fn spec_key_up(v: MainView, keycode: KeyInput) -> MainView {
    match v.state {
        State::Investigate => {
            if keycode == KeyInput::A || keycode == KeyInput::Left || keycode == KeyInput::D
                || keycode == KeyInput::Right {
                MainView { walking_state: WalkingState::Standing, ..v }
            } else {
                v
            }
        },
        _ => v,
    }
}

/// The opening scene itself. Field meanings and units are those of
/// `MainView`.
pub struct MainScene {
    pub player: Player,
    pub finished: bool,
    pub current_text: Vec<char>,
    pub final_text: Vec<char>,
    pub state: State,
    pub darkness_yoffset: i64,
    pub timer: u64,
    pub draw_flicker_pod: bool,
    pub index: usize,
    pub room: Room,
    pub walking_state: WalkingState,
    pub interactables: Vec<Interactable>,
    pub doors: Vec<Door>,
    pub door_left_of_pod: Option<(bool, bool)>,
    pub door_left_hall: Option<(bool, bool)>,
    pub discovery_state: DiscoveryState,
    pub saw_earth: bool,
    pub puzzle_cleared_far_right_hall: bool,
    pub puzzle_cleared_computer: bool,
    pub puzzle: Option<Puzzle>,
    pub end_game: bool,
    pub bad_news_state: u8,
    pub bad_news_timer: u64,
    pub bad_news_xoffset: i64,
    pub bad_news_started: bool,
    pub is_dead: bool,
}

impl View for MainScene {
    type V = MainView;

    open spec fn view(&self) -> MainView {
        MainView {
            player: self.player,
            finished: self.finished,
            current_text: self.current_text@,
            final_text: self.final_text@,
            state: self.state,
            darkness_yoffset: self.darkness_yoffset,
            timer: self.timer,
            draw_flicker_pod: self.draw_flicker_pod,
            index: self.index,
            room: self.room,
            walking_state: self.walking_state,
            interactables: self.interactables@,
            doors: self.doors@,
            door_left_of_pod: self.door_left_of_pod,
            door_left_hall: self.door_left_hall,
            discovery_state: self.discovery_state,
            saw_earth: self.saw_earth,
            puzzle_cleared_far_right_hall: self.puzzle_cleared_far_right_hall,
            puzzle_cleared_computer: self.puzzle_cleared_computer,
            puzzle: match self.puzzle {
                Option::Some(p) => Option::Some(p@),
                Option::None => Option::None,
            },
            end_game: self.end_game,
            bad_news_state: self.bad_news_state,
            bad_news_timer: self.bad_news_timer,
            bad_news_xoffset: self.bad_news_xoffset,
            bad_news_started: self.bad_news_started,
            is_dead: self.is_dead,
        }
    }
}

impl MainScene {
    /// A fresh opening scene for a player of the given color.
    pub fn new(color: Color) -> (scene: MainScene)
        ensures
            scene@ == initial_main(color),
            scene@.wf(),
    {
        let scene = MainScene {
            player: Player::new(color),
            finished: false,
            current_text: Vec::new(),
            final_text: Vec::new(),
            state: State::InPodInDarkness,
            darkness_yoffset: 0,
            timer: 1000,
            draw_flicker_pod: false,
            index: 0,
            room: Room::StasisPod,
            walking_state: WalkingState::Standing,
            interactables: Vec::new(),
            doors: Vec::new(),
            door_left_of_pod: None,
            door_left_hall: None,
            discovery_state: DiscoveryState::Normal,
            saw_earth: false,
            puzzle_cleared_far_right_hall: false,
            puzzle_cleared_computer: false,
            puzzle: None,
            end_game: false,
            bad_news_state: 0,
            bad_news_timer: 0,
            bad_news_xoffset: 0,
            bad_news_started: false,
            is_dead: false,
        };
        proof {
            assert(scene@ =~= initial_main(color));
        }
        scene
    }

    pub fn new_boxed(color: Color) -> (scene: Box<MainScene>)
        ensures
            (*scene)@ == initial_main(color),
            (*scene)@.wf(),
    {
        Box::new(MainScene::new(color))
    }

    /// Whether the current room offers a walk out to the left and to the
    /// right; the way right out of the far right hall opens only in the
    /// endgame.
    pub fn room_arrows(&self) -> (arrows: (bool, bool))
        ensures
            arrows == spec_room_arrows(self.room, self.end_game),
    {
        match self.room {
            Room::StasisPod => (true, false),
            Room::LeftOfPod => (false, true),
            Room::MainHallFrontOfPod => (true, true),
            Room::WindowRightHall => (true, true),
            Room::LeftHall => (false, true),
            Room::FarRightHall => (true, self.end_game),
            Room::Computer => (false, false),
            Room::Final => (true, false),
        }
    }

    /// Rebuilds the current room as `spec_init_room` describes.
    fn init_room(&mut self) -> (cues: Vec<AudioCue>)
        requires
            old(self)@.wf_core(),
        ensures
            final(self)@ == spec_init_room(old(self)@).0,
            cues@ == spec_init_room(old(self)@).1,
            final(self)@.wf(),
    {
        match self.room {
            Room::StasisPod => self.init_room_stasis_pod(),
            Room::LeftOfPod => self.init_room_left_of_pod(),
            Room::MainHallFrontOfPod => self.init_room_main_hall(),
            Room::WindowRightHall => self.init_room_window_right_hall(),
            Room::LeftHall => self.init_room_left_hall(),
            Room::FarRightHall => self.init_room_far_right_hall(),
            Room::Computer => self.init_room_computer(),
            Room::Final => self.init_room_final(),
        }
    }

    fn init_room_stasis_pod(&mut self) -> (cues: Vec<AudioCue>)
        requires
            old(self)@.wf_core(),
            old(self)@.room == Room::StasisPod,
        ensures
            final(self)@ == spec_init_room(old(self)@).0,
            cues@ == spec_init_room(old(self)@).1,
            final(self)@.wf(),
    {
        self.current_text = stasis_instructions_vec();
        self.darkness_yoffset = -300000;
        self.interactables.clear();
        self.doors.clear();
        proof {
            assert(self@ =~= spec_init_room(old(self)@).0);
        }
        Vec::new()
    }

    fn init_room_left_of_pod(&mut self) -> (cues: Vec<AudioCue>)
        requires
            old(self)@.wf_core(),
            old(self)@.room == Room::LeftOfPod,
        ensures
            final(self)@ == spec_init_room(old(self)@).0,
            cues@ == spec_init_room(old(self)@).1,
            final(self)@.wf(),
    {
        self.current_text = Vec::new();
        self.interactables.clear();
        self.interactables.push(Interactable::new(InteractableType::Door(0), 430, 450));
        self.darkness_yoffset = -300000;
        self.doors.clear();
        let open0 = matches!(self.door_left_of_pod, Some((true, _)));
        self.doors.push(Door::new(open0, 300, 390, 0));
        if self.state == State::ExitDoor {
            self.player.x = 316000;
        }
        proof {
            assert(self@.doors =~= spec_init_room(old(self)@).0.doors);
            assert(self@ =~= spec_init_room(old(self)@).0);
        }
        Vec::new()
    }

    fn init_room_main_hall(&mut self) -> (cues: Vec<AudioCue>)
        requires
            old(self)@.wf_core(),
            old(self)@.room == Room::MainHallFrontOfPod,
        ensures
            final(self)@ == spec_init_room(old(self)@).0,
            cues@ == spec_init_room(old(self)@).1,
            final(self)@.wf(),
    {
        self.doors.clear();
        self.interactables.clear();
        let open0 = matches!(self.door_left_of_pod, Some((true, _)));
        self.doors.push(Door::new(open0, 352, 390, 0));
        let unlocked0 = matches!(self.door_left_of_pod, Some((_, true)))
            || self.door_left_of_pod.is_none();
        self.interactables.push(
            Interactable::new(InteractableType::LockedDoor(0, unlocked0), 330, 450),
        );
        if self.state == State::ExitDoor {
            self.player.x = 368000;
        }
        self.darkness_yoffset = -300000;
        proof {
            assert(self@.doors =~= spec_init_room(old(self)@).0.doors);
            assert(self@.interactables =~= spec_init_room(old(self)@).0.interactables);
            assert(self@ =~= spec_init_room(old(self)@).0);
        }
        Vec::new()
    }

    fn init_room_window_right_hall(&mut self) -> (cues: Vec<AudioCue>)
        requires
            old(self)@.wf_core(),
            old(self)@.room == Room::WindowRightHall,
        ensures
            final(self)@ == spec_init_room(old(self)@).0,
            cues@ == spec_init_room(old(self)@).1,
            final(self)@.wf(),
    {
        let mut cues: Vec<AudioCue> = Vec::new();
        self.doors.clear();
        self.interactables.clear();
        self.darkness_yoffset = -470000;
        if !self.saw_earth {
            self.saw_earth = true;
            self.discovery_state = DiscoveryState::Discovery;
            cues.push(AudioCue::StopMusic);
            cues.push(AudioCue::PlayDiscoveryMusic);
        }
        proof {
            assert(self@ =~= spec_init_room(old(self)@).0);
            assert(cues@ =~= spec_init_room(old(self)@).1);
        }
        cues
    }

    #[verifier::rlimit(60)]
    fn init_room_left_hall(&mut self) -> (cues: Vec<AudioCue>)
        requires
            old(self)@.wf_core(),
            old(self)@.room == Room::LeftHall,
        ensures
            final(self)@ == spec_init_room(old(self)@).0,
            cues@ == spec_init_room(old(self)@).1,
            final(self)@.wf(),
    {
        self.doors.clear();
        self.interactables.clear();
        let open0 = matches!(self.door_left_hall, Some((true, _)));
        self.doors.push(Door::new(open0, 150, 390, 0));
        let unlocked0 = matches!(self.door_left_hall, Some((_, true)));
        self.interactables.push(
            Interactable::new(InteractableType::LockedDoor(0, unlocked0), 120, 450),
        );
        self.darkness_yoffset = -250000;
        if self.state == State::ExitDoor {
            self.player.x = 166000;
        }
        proof {
            assert(self@.doors =~= spec_init_room(old(self)@).0.doors);
            assert(self@.interactables =~= spec_init_room(old(self)@).0.interactables);
            assert(self@ =~= spec_init_room(old(self)@).0);
        }
        Vec::new()
    }

    fn init_room_far_right_hall(&mut self) -> (cues: Vec<AudioCue>)
        requires
            old(self)@.wf_core(),
            old(self)@.room == Room::FarRightHall,
        ensures
            final(self)@ == spec_init_room(old(self)@).0,
            cues@ == spec_init_room(old(self)@).1,
            final(self)@.wf(),
    {
        self.doors.clear();
        self.interactables.clear();
        self.interactables.push(
            Interactable::new(InteractableType::Puzzle(PuzzleID::FarRightHall, false), 400, 500),
        );
        if self.puzzle_cleared_far_right_hall {
            let it = &mut self.interactables[0];
            it.set_puzzle_cleared(true);
        }
        self.darkness_yoffset = -450000;
        proof {
            assert(self@.interactables =~= spec_init_room(old(self)@).0.interactables);
            assert(self@ =~= spec_init_room(old(self)@).0);
        }
        Vec::new()
    }

    fn init_room_computer(&mut self) -> (cues: Vec<AudioCue>)
        requires
            old(self)@.wf_core(),
            old(self)@.room == Room::Computer,
        ensures
            final(self)@ == spec_init_room(old(self)@).0,
            cues@ == spec_init_room(old(self)@).1,
            final(self)@.wf(),
    {
        self.doors.clear();
        self.interactables.clear();
        self.doors.push(Door::new(true, 650, 390, 0));
        self.interactables.push(Interactable::new(InteractableType::Door(0), 780, 450));
        self.interactables.push(
            Interactable::new(InteractableType::Puzzle(PuzzleID::Computer, false), 300, 400),
        );
        let it = &mut self.interactables[1];
        it.set_radius(200);
        if self.puzzle_cleared_computer {
            let it = &mut self.interactables[1];
            it.set_puzzle_cleared(true);
        }
        self.darkness_yoffset = -530000;
        if self.state == State::ExitDoor {
            self.player.x = 666000;
        }
        proof {
            assert(self@.doors =~= spec_init_room(old(self)@).0.doors);
            assert(self@.interactables =~= spec_init_room(old(self)@).0.interactables);
            assert(self@ =~= spec_init_room(old(self)@).0);
        }
        Vec::new()
    }

    fn init_room_final(&mut self) -> (cues: Vec<AudioCue>)
        requires
            old(self)@.wf_core(),
            old(self)@.room == Room::Final,
        ensures
            final(self)@ == spec_init_room(old(self)@).0,
            cues@ == spec_init_room(old(self)@).1,
            final(self)@.wf(),
    {
        self.doors.clear();
        self.interactables.clear();
        self.darkness_yoffset = -500000;
        self.interactables.push(Interactable::new(InteractableType::Ship, 483, 521));
        proof {
            assert(self@.interactables =~= spec_init_room(old(self)@).0.interactables);
            assert(self@ =~= spec_init_room(old(self)@).0);
        }
        Vec::new()
    }

    /// One walk out of the current room, as `walk_exited` describes.
    #[verifier::spinoff_prover]
    #[verifier::rlimit(100)]
    fn walk_exit(&mut self, target: Room, x: i64, delta: i64) -> (cues: Vec<AudioCue>)
        requires
            old(self)@.wf_core(),
            old(self)@.state is Investigate,
            0 <= x <= 736000,
        ensures
            final(self)@ == walk_exited(old(self)@, target, x, delta).0,
            cues@ == walk_exited(old(self)@, target, x, delta).1,
            final(self)@.wf(),
    {
        let ghost mid = MainView {
            room: target,
            player: Player { x, ..old(self)@.player },
            ..old(self)@
        };
        self.room = target;
        self.player.x = x;
        proof {
            assert(self@ =~= mid);
        }
        let cues = self.init_room();
        proof {
            assert(self@ == spec_init_room(mid).0);
            assert(cues@ == spec_init_room(mid).1);
        }
        if delta != 0 && self.end_game {
            self.bad_news_xoffset = sat_add_i64(self.bad_news_xoffset, delta);
        }
        proof {
            assert(self@ =~= walk_exited(old(self)@, target, x, delta).0);
        }
        cues
    }

    /// Walks the player out to the left, as `spec_exit_left` describes.
    fn check_exit_left(&mut self) -> (cues: Vec<AudioCue>)
        requires
            old(self)@.wf(),
            old(self)@.state is Investigate,
        ensures
            final(self)@ == spec_exit_left(old(self)@).0,
            cues@ == spec_exit_left(old(self)@).1,
            final(self)@.wf(),
    {
        match self.room {
            Room::StasisPod => self.walk_exit(Room::LeftOfPod, 666000, 0),
            Room::MainHallFrontOfPod => self.walk_exit(Room::LeftHall, 666000, BAD_NEWS_NEW_ROOM_CHANGE),
            Room::WindowRightHall => self.walk_exit(Room::MainHallFrontOfPod, 666000, BAD_NEWS_NEW_ROOM_CHANGE),
            Room::FarRightHall => self.walk_exit(Room::WindowRightHall, 666000, BAD_NEWS_NEW_ROOM_CHANGE),
            Room::Final => self.walk_exit(Room::FarRightHall, 666000, BAD_NEWS_NEW_ROOM_CHANGE),
            _ => Vec::new(),
        }
    }

    /// Walks the player out to the right, as `spec_exit_right` describes.
    fn check_exit_right(&mut self) -> (cues: Vec<AudioCue>)
        requires
            old(self)@.wf(),
            old(self)@.state is Investigate,
        ensures
            final(self)@ == spec_exit_right(old(self)@).0,
            cues@ == spec_exit_right(old(self)@).1,
            final(self)@.wf(),
    {
        match self.room {
            Room::LeftOfPod => self.walk_exit(Room::StasisPod, 70000, 0),
            Room::MainHallFrontOfPod => self.walk_exit(Room::WindowRightHall, 70000, -BAD_NEWS_NEW_ROOM_CHANGE),
            Room::WindowRightHall => self.walk_exit(Room::FarRightHall, 70000, -BAD_NEWS_NEW_ROOM_CHANGE),
            Room::LeftHall => self.walk_exit(Room::MainHallFrontOfPod, 70000, -BAD_NEWS_NEW_ROOM_CHANGE),
            Room::FarRightHall => {
                if self.end_game {
                    self.walk_exit(Room::Final, 70000, -BAD_NEWS_NEW_ROOM_CHANGE)
                } else {
                    Vec::new()
                }
            }
            _ => Vec::new(),
        }
    }

    /// Starts passing through door `door_idx` toward `target`, as
    /// `door_entered` describes.
    #[verifier::spinoff_prover]
    #[verifier::rlimit(100)]
    fn enter_door(&mut self, target: Room, door_idx: usize, delta: i64)
        requires
            old(self)@.wf(),
            target != Room::StasisPod,
            door_idx < old(self)@.doors.len(),
            0 <= old(self)@.doors[door_idx as int].x <= 700,
        ensures
            final(self)@ == door_entered(old(self)@, target, door_idx as int, delta),
            final(self)@.wf(),
    {
        self.state = State::EnterDoor(target);
        self.timer = DOOR_EXIT_ENTER_TIME_MS;
        let dx = self.doors[door_idx].get_x();
        self.player.x = dx as i64 * 1000 + 16000;
        self.player.set_walking(true);
        if delta != 0 && self.end_game {
            self.bad_news_xoffset = sat_add_i64(self.bad_news_xoffset, delta);
        }
    }

    /// Starts passing through door `door_idx`, as `spec_exit_door`
    /// describes.
    fn check_exit_door(&mut self, door_idx: usize)
        requires
            old(self)@.wf(),
        ensures
            final(self)@ == spec_exit_door(old(self)@, door_idx as int),
            final(self)@.wf(),
    {
        if self.doors.len() > door_idx {
            match self.room {
                Room::LeftOfPod => self.enter_door(Room::MainHallFrontOfPod, door_idx, 0),
                Room::MainHallFrontOfPod => self.enter_door(Room::LeftOfPod, door_idx, 0),
                Room::LeftHall => self.enter_door(Room::Computer, door_idx, BAD_NEWS_NEW_ROOM_CHANGE),
                Room::Computer => self.enter_door(Room::LeftHall, door_idx, -BAD_NEWS_NEW_ROOM_CHANGE),
                _ => {}
            }
        }
    }

    /// Toggles door `id` and records the result under `rec`.
    fn toggle_room_door(&mut self, id: usize, rec: DoorIDs)
        requires
            old(self)@.wf(),
            id < old(self)@.doors.len(),
        ensures
            final(self)@ == door_toggled(old(self)@, id as int, rec),
            final(self)@.wf_core(),
    {
        let d = &mut self.doors[id];
        let open_now = d.toggle_open();
        match rec {
            DoorIDs::LeftOfPod => {
                self.door_left_of_pod = match self.door_left_of_pod {
                    None => Some((open_now, true)),
                    Some((_, unlocked)) => Some((open_now, unlocked)),
                };
            }
            DoorIDs::LeftHall => {
                self.door_left_hall = match self.door_left_hall {
                    None => Some((open_now, true)),
                    Some((_, unlocked)) => Some((open_now, unlocked)),
                };
            }
        }
        proof {
            assert(self@.doors =~= door_toggled(old(self)@, id as int, rec).doors);
            assert(self@ =~= door_toggled(old(self)@, id as int, rec));
        }
    }

    /// Uses a door control panel.
    fn use_door_panel(&mut self, id: usize) -> (cues: Vec<AudioCue>)
        requires
            old(self)@.wf(),
            id == 0,
        ensures
            final(self)@ == spec_use_interactable(old(self)@, InteractableType::Door(id)).0,
            cues@ == spec_use_interactable(old(self)@, InteractableType::Door(id)).1,
            final(self)@.wf(),
    {
        let mut cues: Vec<AudioCue> = Vec::new();
        match self.room {
            Room::LeftOfPod => {
                self.toggle_room_door(id, DoorIDs::LeftOfPod);
            }
            Room::MainHallFrontOfPod => {
                self.toggle_room_door(id, DoorIDs::LeftOfPod);
            }
            Room::Computer => {
                self.toggle_room_door(id, DoorIDs::LeftHall);
            }
            _ => {}
        }
        cues.push(AudioCue::PlayDoorSfx);
        proof {
            assert(cues@ =~= spec_use_interactable(old(self)@, InteractableType::Door(id)).1);
        }
        cues
    }

    /// Uses a locked-door control panel.
    fn use_locked_door_panel(&mut self, id: usize, unlocked: bool) -> (cues: Vec<AudioCue>)
        requires
            old(self)@.wf(),
            id == 0,
        ensures
            final(self)@ == spec_use_interactable(
                old(self)@,
                InteractableType::LockedDoor(id, unlocked),
            ).0,
            cues@ == spec_use_interactable(
                old(self)@,
                InteractableType::LockedDoor(id, unlocked),
            ).1,
            final(self)@.wf(),
    {
        let mut cues: Vec<AudioCue> = Vec::new();
        match self.room {
            Room::MainHallFrontOfPod => {
                if unlocked {
                    self.toggle_room_door(id, DoorIDs::LeftOfPod);
                    cues.push(AudioCue::PlayDoorSfx);
                } else {
                    cues.push(AudioCue::PlayErrorSfx);
                }
            }
            Room::LeftHall => {
                if unlocked {
                    self.toggle_room_door(id, DoorIDs::LeftHall);
                    cues.push(AudioCue::PlayDoorSfx);
                } else {
                    cues.push(AudioCue::PlayErrorSfx);
                }
            }
            _ => {}
        }
        proof {
            assert(cues@ =~= spec_use_interactable(
                old(self)@,
                InteractableType::LockedDoor(id, unlocked),
            ).1);
        }
        cues
    }

    /// Uses a puzzle terminal.
    fn use_puzzle_panel(&mut self, id: PuzzleID, cleared: bool) -> (cues: Vec<AudioCue>)
        requires
            old(self)@.wf(),
            puzzle_room(id) == old(self)@.room,
        ensures
            final(self)@ == spec_use_interactable(
                old(self)@,
                InteractableType::Puzzle(id, cleared),
            ).0,
            cues@ == spec_use_interactable(old(self)@, InteractableType::Puzzle(id, cleared)).1,
            final(self)@.wf(),
    {
        match self.room {
            Room::FarRightHall | Room::Computer => {
                if !cleared {
                    self.state = State::InPuzzle(id);
                    self.puzzle = Some(Puzzle::new(id));
                }
            }
            _ => {}
        }
        proof {
            assert(self@ =~= spec_use_interactable(
                old(self)@,
                InteractableType::Puzzle(id, cleared),
            ).0);
        }
        Vec::new()
    }

    /// Uses the escape ship, starting the ending.
    fn use_ship(&mut self) -> (cues: Vec<AudioCue>)
        requires
            old(self)@.wf(),
        ensures
            final(self)@ == spec_use_interactable(old(self)@, InteractableType::Ship).0,
            cues@ == spec_use_interactable(old(self)@, InteractableType::Ship).1,
            final(self)@.wf(),
    {
        let mut cues: Vec<AudioCue> = Vec::new();
        self.state = State::Ending;
        cues.push(AudioCue::StopBadNewsMusic);
        cues.push(AudioCue::PlayEndingMusic);
        self.timer = 0;
        proof {
            assert(cues@ =~= spec_use_interactable(old(self)@, InteractableType::Ship).1);
        }
        cues
    }

    /// Uses a hotspot, as `spec_use_interactable` describes.
    fn use_interactable(&mut self, itype: InteractableType) -> (cues: Vec<AudioCue>)
        requires
            old(self)@.wf(),
            itype_ok(old(self)@, itype),
        ensures
            final(self)@ == spec_use_interactable(old(self)@, itype).0,
            cues@ == spec_use_interactable(old(self)@, itype).1,
            final(self)@.wf(),
    {
        match itype {
            InteractableType::Door(id) => self.use_door_panel(id),
            InteractableType::LockedDoor(id, unlocked) => self.use_locked_door_panel(id, unlocked),
            InteractableType::Puzzle(id, cleared) => self.use_puzzle_panel(id, cleared),
            InteractableType::Ship => self.use_ship(),
        }
    }

    /// Banks the solved puzzle, as `spec_handle_solved` describes.
    fn handle_solved_puzzle(&mut self) -> (cues: Vec<AudioCue>)
        requires
            old(self)@.wf(),
            old(self)@.state matches State::InPuzzle(_),
        ensures
            final(self)@ == spec_handle_solved(old(self)@).0,
            cues@ == spec_handle_solved(old(self)@).1,
            final(self)@.wf(),
    {
        let mut cues: Vec<AudioCue> = Vec::new();
        match self.state {
            State::InPuzzle(id) => match id {
                PuzzleID::FarRightHall => {
                    self.puzzle_cleared_far_right_hall = true;
                    self.puzzle = None;
                    let it = &mut self.interactables[0];
                    it.set_puzzle_cleared(true);
                    self.door_left_hall = Some((false, true));
                    self.door_left_of_pod = Some((false, false));
                }
                PuzzleID::Computer => {
                    self.puzzle_cleared_computer = true;
                    self.puzzle = None;
                    let it = &mut self.interactables[1];
                    it.set_puzzle_cleared(true);
                    self.end_game = true;
                }
            },
            _ => {}
        }
        cues.push(AudioCue::PlaySuccessSfx);
        proof {
            assert(self@.interactables =~= spec_handle_solved(old(self)@).0.interactables);
            assert(self@ =~= spec_handle_solved(old(self)@).0);
            assert(cues@ =~= spec_handle_solved(old(self)@).1);
        }
        cues
    }

    /// One step of waking in darkness; see `spec_step_darkness`.
    #[verifier::spinoff_prover]
    #[verifier::rlimit(100)]
    fn step_in_pod_in_darkness(&mut self, dt_ms: u32)
        requires
            old(self)@.wf(),
            old(self)@.state is InPodInDarkness,
        ensures
            final(self)@ == spec_step_darkness(old(self)@, dt_ms),
            final(self)@.wf(),
    {
        self.player.x = 520000;
        self.player.y = 350000;
        self.player.rot = 780;
        self.timer = sub_floor_u64(self.timer, dt_ms as u64);
        if self.timer == 0 {
            self.draw_flicker_pod = self.index % 2 == 0;
            self.index = (self.index + 1) % 6;
            self.timer = flicker_time_at(self.index);
        }
        if self.darkness_yoffset > DARKNESS_POD_LIMIT {
            self.darkness_yoffset = self.darkness_yoffset - (dt_ms as i64) * DARKNESS_PAN_RATE;
            proof {
                assert(self@ =~= spec_step_darkness(old(self)@, dt_ms));
            }
        } else {
            self.state = State::InPodWakeupText;
            self.timer = TEXT_RATE_MS;
            self.final_text = wakeup_text_rev_vec();
            proof {
                assert(self@ =~= spec_step_darkness(old(self)@, dt_ms));
            }
        }
    }

    /// One step of the typed wake-up line; see `spec_step_wakeup`.
    fn step_in_pod_wakeup_text(&mut self, dt_ms: u32) -> (cues: Vec<AudioCue>)
        requires
            old(self)@.wf(),
            old(self)@.state is InPodWakeupText,
        ensures
            final(self)@ == spec_step_wakeup(old(self)@, dt_ms).0,
            cues@ == spec_step_wakeup(old(self)@, dt_ms).1,
            final(self)@.wf(),
    {
        let mut cues: Vec<AudioCue> = Vec::new();
        if self.final_text.len() > 0 {
            self.timer = sub_floor_u64(self.timer, dt_ms as u64);
            if self.timer == 0 {
                self.timer = TEXT_RATE_MS;
                if let Some(c) = self.final_text.pop() {
                    self.current_text.push(c);
                }
                cues.push(AudioCue::PlayTextSfx);
                if self.final_text.len() == 0 {
                    self.timer = IN_POD_TEXT_WAIT_TIME_MS;
                }
            }
        } else {
            self.timer = sub_floor_u64(self.timer, dt_ms as u64);
        }
        cues
    }

    /// One step of climbing out of the pod; see `spec_step_get_out`.
    #[verifier::spinoff_prover]
    #[verifier::rlimit(100)]
    fn step_get_out_of_pod(&mut self, dt_ms: u32) -> (cues: Vec<AudioCue>)
        requires
            old(self)@.wf(),
            old(self)@.state is GetOutOfPod,
        ensures
            final(self)@ == spec_step_get_out(old(self)@, dt_ms).0,
            cues@ == spec_step_get_out(old(self)@, dt_ms).1,
            final(self)@.wf(),
    {
        self.timer = sub_floor_u64(self.timer, dt_ms as u64);
        if self.timer > 0 {
            let t: u64 = self.timer;
            proof {
                assert(t <= 3000);
                assert((520000 * t + 500000 * (3000 - t)) / 3000 <= 736000 && (350000 * t + 430000
                    * (3000 - t)) / 3000 <= 600000 && (780 * t) / 3000 <= 780) by (nonlinear_arith)
                    requires
                        0 < t <= 3000,
                ;
            }
            self.player.x = ((520000 * t + 500000 * (3000 - t)) / 3000) as i64;
            self.player.y = ((350000 * t + 430000 * (3000 - t)) / 3000) as i64;
            self.player.rot = ((780 * t) / 3000) as i32;
            Vec::new()
        } else {
            self.state = State::Investigate;
            let mut cues: Vec<AudioCue> = Vec::new();
            cues.push(AudioCue::PlayMusic);
            let mut c2 = self.init_room();
            cues.append(&mut c2);
            proof {
                assert(cues@ =~= spec_step_get_out(old(self)@, dt_ms).1);
            }
            cues
        }
    }

    /// One step of walking around; see `spec_step_investigate`.
    #[verifier::spinoff_prover]
    #[verifier::rlimit(100)]
    fn step_investigate(&mut self, dt_ms: u32) -> (cues: Vec<AudioCue>)
        requires
            old(self)@.wf(),
            old(self)@.state is Investigate,
        ensures
            final(self)@ == spec_step_investigate(old(self)@, dt_ms).0,
            cues@ == spec_step_investigate(old(self)@, dt_ms).1,
            final(self)@.wf(),
    {
        match self.walking_state {
            WalkingState::Standing => {
                self.player.set_walking(false);
                Vec::new()
            }
            WalkingState::Left => {
                let d: i64 = (dt_ms as i64) * PLAYER_MOVEMENT_SPEED;
                if self.player.x <= d {
                    self.player.x = 0;
                    self.walking_state = WalkingState::Standing;
                    self.player.set_walking(false);
                    proof {
                        assert(self@ =~= (MainView {
                            player: walking_stopped(Player { x: 0, ..old(self)@.player }),
                            walking_state: WalkingState::Standing,
                            ..old(self)@
                        }));
                    }
                    self.check_exit_left()
                } else {
                    self.player.x = self.player.x - d;
                    self.player.set_walking(true);
                    self.player.set_xflip(true);
                    proof {
                        assert(self@ =~= spec_step_investigate(old(self)@, dt_ms).0);
                    }
                    Vec::new()
                }
            }
            WalkingState::Right => {
                let d: i64 = (dt_ms as i64) * PLAYER_MOVEMENT_SPEED;
                if self.player.x + d >= 736000 {
                    self.player.x = 736000;
                    self.walking_state = WalkingState::Standing;
                    self.player.set_walking(false);
                    proof {
                        assert(self@ =~= (MainView {
                            player: walking_stopped(Player { x: 736000, ..old(self)@.player }),
                            walking_state: WalkingState::Standing,
                            ..old(self)@
                        }));
                    }
                    self.check_exit_right()
                } else {
                    self.player.x = self.player.x + d;
                    self.player.set_walking(true);
                    self.player.set_xflip(false);
                    proof {
                        assert(self@ =~= spec_step_investigate(old(self)@, dt_ms).0);
                    }
                    Vec::new()
                }
            }
        }
    }

    /// One step of fading out through a door; see `spec_step_enter_door`.
    #[verifier::spinoff_prover]
    #[verifier::rlimit(100)]
    fn step_enter_door(&mut self, dt_ms: u32) -> (cues: Vec<AudioCue>)
        requires
            old(self)@.wf(),
            old(self)@.state matches State::EnterDoor(_),
        ensures
            final(self)@ == spec_step_enter_door(old(self)@, dt_ms).0,
            cues@ == spec_step_enter_door(old(self)@, dt_ms).1,
            final(self)@.wf(),
    {
        match self.state {
            State::EnterDoor(room) => {
                self.timer = sub_floor_u64(self.timer, dt_ms as u64);
                if self.timer == 0 {
                    let ghost mid = MainView {
                        room,
                        state: State::ExitDoor,
                        timer: DOOR_EXIT_ENTER_TIME_MS,
                        ..old(self)@
                    };
                    self.room = room;
                    self.state = State::ExitDoor;
                    self.timer = DOOR_EXIT_ENTER_TIME_MS;
                    proof {
                        assert(self@ =~= mid);
                    }
                    let cues = self.init_room();
                    proof {
                        assert(self@ == spec_init_room(mid).0);
                    }
                    self.player.color.alpha_permille = 0;
                    proof {
                        assert(self@ =~= spec_step_enter_door(old(self)@, dt_ms).0);
                    }
                    cues
                } else {
                    self.player.color.alpha_permille = self.timer as u16;
                    proof {
                        assert(self@ =~= spec_step_enter_door(old(self)@, dt_ms).0);
                    }
                    Vec::new()
                }
            }
            _ => Vec::new(),
        }
    }

    /// One step of fading back in after a door; see `spec_step_exit_door`.
    fn step_exit_door(&mut self, dt_ms: u32) -> (cues: Vec<AudioCue>)
        requires
            old(self)@.wf(),
            old(self)@.state is ExitDoor,
        ensures
            final(self)@ == spec_step_exit_door(old(self)@, dt_ms).0,
            cues@ == spec_step_exit_door(old(self)@, dt_ms).1,
            final(self)@.wf(),
    {
        self.timer = sub_floor_u64(self.timer, dt_ms as u64);
        if self.timer == 0 {
            self.state = State::Investigate;
            self.player.set_walking(false);
            self.player.color.alpha_permille = 1000;
        } else {
            self.player.color.alpha_permille = (1000 - self.timer) as u16;
        }
        Vec::new()
    }

    /// One step inside a puzzle; see `spec_step_in_puzzle`.
    fn step_in_puzzle(&mut self) -> (cues: Vec<AudioCue>)
        requires
            old(self)@.wf(),
            old(self)@.state matches State::InPuzzle(_),
        ensures
            final(self)@ == spec_step_in_puzzle(old(self)@).0,
            cues@ == spec_step_in_puzzle(old(self)@).1,
            final(self)@.wf(),
    {
        let solved: bool;
        let abort: bool;
        match &self.puzzle {
            Some(p) => {
                solved = p.is_solved();
                abort = p.is_abort();
            }
            None => {
                self.state = State::Investigate;
                return Vec::new();
            }
        }
        if solved {
            self.handle_solved_puzzle()
        } else if abort {
            self.puzzle = None;
            self.state = State::Investigate;
            Vec::new()
        } else {
            if let Some(p) = &mut self.puzzle {
                p.update();
            }
            Vec::new()
        }
    }

    /// The common tail of an update; see `spec_tails`.
    #[verifier::spinoff_prover]
    #[verifier::rlimit(100)]
    fn step_tails(&mut self, dt_ms: u32, discovery_music_stopped: bool) -> (cues: Vec<AudioCue>)
        requires
            old(self)@.wf(),
        ensures
            final(self)@ == spec_tails(old(self)@, dt_ms, discovery_music_stopped).0,
            cues@ == spec_tails(old(self)@, dt_ms, discovery_music_stopped).1,
            final(self)@.wf(),
    {
        let mut cues: Vec<AudioCue> = Vec::new();
        self.player.update(dt_ms);
        let ghost v1 = MainView { player: player_stepped(old(self)@.player, dt_ms), ..old(self)@ };
        proof {
            assert(self@ =~= v1);
        }
        if self.discovery_state == DiscoveryState::Discovery && discovery_music_stopped {
            self.discovery_state = DiscoveryState::Normal;
            cues.push(AudioCue::PlayMusic);
        }
        let ghost r2 = tails_discovery(v1, discovery_music_stopped);
        proof {
            assert(self@ =~= r2.0);
            assert(cues@ =~= r2.1);
        }
        if self.end_game {
            if !self.bad_news_started {
                self.bad_news_started = true;
                cues.push(AudioCue::StopMusic);
                cues.push(AudioCue::PlayBadNewsMusic);
            }
            self.bad_news_xoffset = sat_add_i64(self.bad_news_xoffset, (dt_ms as i64) * 100);
            if self.bad_news_xoffset >= BAD_NEWS_DEADLY_OFFSET {
                self.is_dead = true;
            }
            self.bad_news_timer = sat_add_u64(self.bad_news_timer, dt_ms as u64);
            if self.bad_news_timer > BAD_NEWS_FLICKER_RATE_MS {
                self.bad_news_timer = self.bad_news_timer - BAD_NEWS_FLICKER_RATE_MS;
                self.bad_news_state = (self.bad_news_state + 1) % 3;
            }
        }
        proof {
            assert(self@ =~= tails_bad_news(r2.0, dt_ms).0);
            assert(cues@ =~= r2.1 + tails_bad_news(r2.0, dt_ms).1);
        }
        cues
    }

    /// One frame of the scene, as `spec_update` describes: the phase logic
    /// runs, then the common tail, and the sounds to start or stop come
    /// back to the caller in order.
    #[verifier::spinoff_prover]
    #[verifier::rlimit(100)]
    pub fn update(&mut self, dt_ms: u32, discovery_music_stopped: bool) -> (cues: Vec<AudioCue>)
        requires
            old(self)@.wf(),
        ensures
            final(self)@ == spec_update(old(self)@, dt_ms, discovery_music_stopped).0,
            cues@ == spec_update(old(self)@, dt_ms, discovery_music_stopped).1,
            final(self)@.wf(),
    {
        if self.is_dead {
            self.bad_news_timer = sat_add_u64(self.bad_news_timer, dt_ms as u64);
            if self.bad_news_timer > BAD_NEWS_FLICKER_RATE_MS {
                self.bad_news_timer = self.bad_news_timer - BAD_NEWS_FLICKER_RATE_MS;
                self.bad_news_state = (self.bad_news_state + 1) % 3;
            }
            return Vec::new();
        }
        if let State::Ending = self.state {
            let t = sat_add_u64(self.timer, dt_ms as u64);
            self.timer = if t >= SHIP_TRAVEL_TIME_MS {
                SHIP_TRAVEL_TIME_MS
            } else {
                t
            };
            return Vec::new();
        }
        let mut cues = match self.state {
            State::InPodInDarkness => {
                self.step_in_pod_in_darkness(dt_ms);
                Vec::new()
            }
            State::InPodWakeupText => self.step_in_pod_wakeup_text(dt_ms),
            State::GetOutOfPod => self.step_get_out_of_pod(dt_ms),
            State::Investigate => self.step_investigate(dt_ms),
            State::EnterDoor(_) => self.step_enter_door(dt_ms),
            State::ExitDoor => self.step_exit_door(dt_ms),
            State::InPuzzle(_) => self.step_in_puzzle(),
            State::Ending => Vec::new(),
        };
        let mut c2 = self.step_tails(dt_ms, discovery_music_stopped);
        cues.append(&mut c2);
        cues
    }

    /// Finds the first usable hotspot, as `first_hotspot` describes.
    fn find_hotspot(&self, pcx: i32, pcy: i32, mouse: Option<(i32, i32)>) -> (r: Option<
        InteractableType,
    >)
        ensures
            r == first_hotspot(self@.interactables, pcx as int, pcy as int, mouse_view(mouse)),
            r matches Option::Some(t) ==> exists|k: int|
                0 <= k < self@.interactables.len() && self@.interactables[k].itype == t,
    {
        let ghost m = mouse_view(mouse);
        let mut i: usize = 0;
        while i < self.interactables.len()
            invariant
                i <= self@.interactables.len(),
                m == mouse_view(mouse),
                forall|j: int| 0 <= j < i ==> !hotspot_hit(self@.interactables[j], pcx as int, pcy as int, m),
            decreases self@.interactables.len() - i,
        {
            let it = &self.interactables[i];
            let hit_player = it.is_within_range(pcx, pcy);
            let hit = match mouse {
                Some(q) => hit_player && it.is_within_range(q.0, q.1),
                None => hit_player,
            };
            if hit {
                proof {
                    lemma_first_hotspot_skip(self@.interactables, pcx as int, pcy as int, m, i as int);
                    assert(self@.interactables.skip(i as int)[0] == self@.interactables[i as int]);
                }
                return Some(it.get_type());
            }
            i += 1;
        }
        proof {
            lemma_first_hotspot_skip(
                self@.interactables,
                pcx as int,
                pcy as int,
                m,
                self@.interactables.len() as int,
            );
        }
        None
    }

    /// Finds the first enterable door, as `first_open_door` describes.
    fn find_open_door(&self, pcx: i32, pcy: i32, mouse: Option<(i32, i32)>) -> (r: Option<usize>)
        ensures
            r is None ==> first_open_door(
                self@.doors,
                pcx as int,
                pcy as int,
                mouse_view(mouse),
            ) is None,
            r matches Option::Some(id) ==> first_open_door(
                self@.doors,
                pcx as int,
                pcy as int,
                mouse_view(mouse),
            ) == Option::Some(id as int),
    {
        let ghost m = mouse_view(mouse);
        let mut i: usize = 0;
        while i < self.doors.len()
            invariant
                i <= self@.doors.len(),
                m == mouse_view(mouse),
                forall|j: int| 0 <= j < i ==> !door_hit(self@.doors[j], pcx as int, pcy as int, m),
            decreases self@.doors.len() - i,
        {
            let d = &self.doors[i];
            let hit_player = d.get_open() && d.is_within_range(pcx, pcy);
            let hit = match mouse {
                Some(q) => hit_player && d.is_within_range(q.0, q.1),
                None => hit_player,
            };
            if hit {
                proof {
                    lemma_first_open_door_skip(self@.doors, pcx as int, pcy as int, m, i as int);
                    assert(self@.doors.skip(i as int)[0] == self@.doors[i as int]);
                }
                return Some(d.get_id());
            }
            i += 1;
        }
        proof {
            lemma_first_open_door_skip(
                self@.doors,
                pcx as int,
                pcy as int,
                m,
                self@.doors.len() as int,
            );
        }
        None
    }

    /// A mouse press, as `spec_mouse_down` describes. The widths are the
    /// rendered puzzle caption widths, measured by the shell.
    #[verifier::spinoff_prover]
    #[verifier::rlimit(100)]
    pub fn mouse_button_down_event(
        &mut self,
        button: MouseButtonInput,
        x: i32,
        y: i32,
        puzzle_reset_width: i32,
        puzzle_skip_width: i32,
    ) -> (cues: Vec<AudioCue>)
        requires
            old(self)@.wf(),
        ensures
            final(self)@ == spec_mouse_down(
                old(self)@,
                button,
                x,
                y,
                puzzle_reset_width,
                puzzle_skip_width,
            ).0,
            cues@ == spec_mouse_down(
                old(self)@,
                button,
                x,
                y,
                puzzle_reset_width,
                puzzle_skip_width,
            ).1,
            final(self)@.wf(),
    {
        match self.state {
            State::InPodWakeupText => {
                if self.final_text.len() == 0 && self.timer == 0 {
                    self.state = State::GetOutOfPod;
                    self.timer = GET_OUT_OF_POD_TIME_MS;
                } else {
                    self.timer = 0;
                }
                Vec::new()
            }
            State::Investigate => {
                if button == MouseButtonInput::Left {
                    let pcx = (self.player.x / 1000) as i32 + 32;
                    let pcy = (self.player.y / 1000) as i32 + 64;
                    match self.find_hotspot(pcx, pcy, Some((x, y))) {
                        Some(t) => {
                            proof {
                                assert(itype_ok(self@, t));
                            }
                            self.use_interactable(t)
                        }
                        None => {
                            if self.player.x / 1000 > x as i64 {
                                self.walking_state = WalkingState::Left;
                            } else if self.player.x / 1000 + 64 < x as i64 {
                                self.walking_state = WalkingState::Right;
                            }
                            Vec::new()
                        }
                    }
                } else if button == MouseButtonInput::Right {
                    let pcx = (self.player.x / 1000) as i32 + 32;
                    let pcy = (self.player.y / 1000) as i32 + 64;
                    match self.find_open_door(pcx, pcy, Some((x, y))) {
                        Some(id) => {
                            self.check_exit_door(id);
                            Vec::new()
                        }
                        None => Vec::new(),
                    }
                } else {
                    Vec::new()
                }
            }
            State::InPuzzle(_) => {
                if let Some(p) = &mut self.puzzle {
                    if button == MouseButtonInput::Left {
                        p.handle_click(x, y, puzzle_reset_width, puzzle_skip_width);
                    }
                }
                Vec::new()
            }
            _ => Vec::new(),
        }
    }

    /// A mouse release, as `spec_mouse_up` describes.
    pub fn mouse_button_up_event(&mut self, button: MouseButtonInput)
        requires
            old(self)@.wf(),
        ensures
            final(self)@ == spec_mouse_up(old(self)@, button),
            final(self)@.wf(),
    {
        match self.state {
            State::Investigate => {
                if button == MouseButtonInput::Left {
                    self.walking_state = WalkingState::Standing;
                }
            }
            _ => {}
        }
    }

    /// A key press, as `spec_key_down` describes.
    #[verifier::spinoff_prover]
    #[verifier::rlimit(100)]
    pub fn key_down_event(&mut self, keycode: KeyInput) -> (cues: Vec<AudioCue>)
        requires
            old(self)@.wf(),
        ensures
            final(self)@ == spec_key_down(old(self)@, keycode).0,
            cues@ == spec_key_down(old(self)@, keycode).1,
            final(self)@.wf(),
    {
        match self.state {
            State::InPodWakeupText => {
                if self.final_text.len() == 0 && self.timer == 0 {
                    self.state = State::GetOutOfPod;
                    self.timer = GET_OUT_OF_POD_TIME_MS;
                    self.current_text.clear();
                } else {
                    self.timer = 0;
                }
                Vec::new()
            }
            State::Investigate => {
                if keycode == KeyInput::A || keycode == KeyInput::Left {
                    if self.player.x > 0 {
                        self.walking_state = WalkingState::Left;
                    }
                    Vec::new()
                } else if keycode == KeyInput::D || keycode == KeyInput::Right {
                    if self.player.x + 64000 < 800000 {
                        self.walking_state = WalkingState::Right;
                    }
                    Vec::new()
                } else if keycode == KeyInput::E {
                    let pcx = (self.player.x / 1000) as i32 + 32;
                    let pcy = (self.player.y / 1000) as i32 + 64;
                    match self.find_hotspot(pcx, pcy, None) {
                        Some(t) => {
                            proof {
                                assert(itype_ok(self@, t));
                            }
                            self.use_interactable(t)
                        }
                        None => Vec::new(),
                    }
                } else if keycode == KeyInput::W {
                    let pcx = (self.player.x / 1000) as i32 + 32;
                    let pcy = (self.player.y / 1000) as i32 + 64;
                    match self.find_open_door(pcx, pcy, None) {
                        Some(id) => {
                            self.check_exit_door(id);
                            Vec::new()
                        }
                        None => Vec::new(),
                    }
                } else {
                    Vec::new()
                }
            }
            State::InPuzzle(_) => {
                if let Some(p) = &mut self.puzzle {
                    p.handle_key(keycode);
                }
                Vec::new()
            }
            _ => Vec::new(),
        }
    }

    /// A key release, as `spec_key_up` describes.
    pub fn key_up_event(&mut self, keycode: KeyInput)
        requires
            old(self)@.wf(),
        ensures
            final(self)@ == spec_key_up(old(self)@, keycode),
            final(self)@.wf(),
    {
        match self.state {
            State::Investigate => {
                if keycode == KeyInput::A || keycode == KeyInput::Left || keycode == KeyInput::D
                    || keycode == KeyInput::Right {
                    self.walking_state = WalkingState::Standing;
                }
            }
            _ => {}
        }
    }
}

impl Scene for MainScene {
    open spec fn spec_finished(&self) -> bool {
        self.finished
    }

    fn finished(&self) -> (done: bool) {
        self.finished
    }
}

/// See `MainScene::room_arrows`.
pub open spec fn spec_room_arrows(room: Room, end_game: bool) -> (bool, bool) {
    match room {
        Room::StasisPod => (true, false),
        Room::LeftOfPod => (false, true),
        Room::MainHallFrontOfPod => (true, true),
        Room::WindowRightHall => (true, true),
        Room::LeftHall => (false, true),
        Room::FarRightHall => (true, end_game),
        Room::Computer => (false, false),
        Room::Final => (true, false),
    }
}

/// Builds the movement hint as a character vector.
fn stasis_instructions_vec() -> (v: Vec<char>)
    ensures
        v@ == stasis_instructions(),
{
    let mut v: Vec<char> = Vec::new();
    v.push('A');
    v.push(' ');
    v.push('a');
    v.push('n');
    v.push('d');
    v.push(' ');
    v.push('D');
    v.push(' ');
    v.push('o');
    v.push('r');
    v.push(' ');
    v.push('L');
    v.push('e');
    v.push('f');
    v.push('t');
    v.push(' ');
    v.push('a');
    v.push('n');
    v.push('d');
    v.push(' ');
    v.push('R');
    v.push('i');
    v.push('g');
    v.push('h');
    v.push('t');
    v.push(' ');
    v.push('o');
    v.push('r');
    v.push(' ');
    v.push('L');
    v.push('e');
    v.push('f');
    v.push('t');
    v.push(' ');
    v.push('C');
    v.push('l');
    v.push('i');
    v.push('c');
    v.push('k');
    v.push(' ');
    v.push('t');
    v.push('o');
    v.push(' ');
    v.push('m');
    v.push('o');
    v.push('v');
    v.push('e');
    proof {
        assert(v@ =~= stasis_instructions());
    }
    v
}

/// Builds the reversed wake-up line as a character vector.
fn wakeup_text_rev_vec() -> (v: Vec<char>)
    ensures
        v@ == wakeup_text_rev(),
{
    let mut v: Vec<char> = Vec::new();
    v.push('.');
    v.push('.');
    v.push('?');
    v.push('I');
    v.push(' ');
    v.push('m');
    v.push('a');
    v.push(' ');
    v.push('e');
    v.push('r');
    v.push('e');
    v.push('h');
    v.push('W');
    v.push(' ');
    v.push('.');
    v.push('.');
    v.push('t');
    v.push('a');
    v.push('h');
    v.push('W');
    proof {
        assert(v@ =~= wakeup_text_rev());
    }
    v
}

/// Runtime table of the pod flicker schedule.
fn flicker_time_at(i: usize) -> (t: u64)
    requires
        i < 6,
    ensures
        t == flicker_time(i as int),
{
    match i {
        0 => 1000,
        1 => 100,
        2 => 850,
        3 => 70,
        4 => 120,
        _ => 90,
    }
}

} // verus!
