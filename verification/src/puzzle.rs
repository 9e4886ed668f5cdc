use vstd::prelude::*;

use crate::input::KeyInput;
use crate::scenes::mainscene::PuzzleID;

verus! {

/// The opening arrangement of the 3x3 tile grid, row by row. The goal is
/// to make every tile lit (`true`).
pub open spec fn initial_tiles(ptype: PuzzleID) -> Seq<bool> {
    match ptype {
        PuzzleID::FarRightHall => seq![
            true, false, true,
            false, false, false,
            false, false, true,
        ],
        PuzzleID::Computer => seq![
            false, false, false,
            true, false, false,
            false, false, false,
        ],
    }
}

/// Whether pressing tile `idx` flips tile `i`. The hall puzzle flips the
/// pressed tile and its grid neighbours; the computer puzzle flips the
/// pressed tile and a fixed partner that depends on where the press was.
pub open spec fn flips(ptype: PuzzleID, idx: int, i: int) -> bool {
    match ptype {
        PuzzleID::FarRightHall => {
            ||| i == idx
            ||| (idx % 3 > 0 && i == idx - 1)
            ||| (idx % 3 < 2 && i == idx + 1)
            ||| (idx / 3 > 0 && i == idx - 3)
            ||| (idx / 3 < 2 && i == idx + 3)
        },
        PuzzleID::Computer => {
            ||| i == idx
            ||| ((idx == 0 || idx == 2 || idx == 6 || idx == 8) && i == 4)
            ||| ((idx == 1 || idx == 5) && i == 2)
            ||| ((idx == 3 || idx == 7) && i == 6)
            ||| (idx == 4 && (i == 1 || i == 7))
        },
    }
}

/// The grid after pressing tile `idx`.
pub open spec fn tiles_after(ptype: PuzzleID, tiles: Seq<bool>, idx: int) -> Seq<bool> {
    Seq::new(tiles.len(), |i: int| if flips(ptype, idx, i) { !tiles[i] } else { tiles[i] })
}

/// Keyboard cursor movement, wrapping around the 3x3 grid.
pub open spec fn key_pos_left(p: int) -> int {
    if p % 3 == 0 { p + 2 } else { p - 1 }
}

pub open spec fn key_pos_right(p: int) -> int {
    if p % 3 == 2 { p - 2 } else { p + 1 }
}

pub open spec fn key_pos_up(p: int) -> int {
    if p / 3 == 0 { p + 6 } else { p - 3 }
}

pub open spec fn key_pos_down(p: int) -> int {
    if p / 3 == 2 { p - 6 } else { p + 3 }
}

/// Which tile column a click at pixel `x` lands in, if any.
pub open spec fn clicked_col(x: int) -> Option<int> {
    if 250 < x && x < 350 {
        Option::Some(0int)
    } else if 350 < x && x < 450 {
        Option::Some(1int)
    } else if 450 < x && x < 550 {
        Option::Some(2int)
    } else {
        Option::None
    }
}

/// Which tile row a click at pixel `y` lands in, if any.
pub open spec fn clicked_row(y: int) -> Option<int> {
    if 150 < y && y < 250 {
        Option::Some(0int)
    } else if 250 < y && y < 350 {
        Option::Some(1int)
    } else if 350 < y && y < 450 {
        Option::Some(2int)
    } else {
        Option::None
    }
}

/// Which tile a click at `(x, y)` lands on, if any.
pub open spec fn clicked_cell(x: int, y: int) -> Option<int> {
    match (clicked_row(y), clicked_col(x)) {
        (Option::Some(r), Option::Some(c)) => Option::Some(3 * r + c),
        _ => Option::None,
    }
}

/// Whether a click at `(x, y)` hits the reset caption, whose rendered
/// width in pixels is `reset_width`.
pub open spec fn in_reset_zone(x: int, y: int, reset_width: int) -> bool {
    490 < y && y < 530 && 100 < x && x < 100 + reset_width
}

/// Whether a click at `(x, y)` hits the skip caption, whose rendered width
/// in pixels is `skip_width`.
pub open spec fn in_skip_zone(x: int, y: int, skip_width: int) -> bool {
    490 < y && y < 530 && 700 < x && x < 700 + skip_width
}

/// The puzzle after a mouse press at `(x, y)`: the cursor marker is
/// hidden, a hit tile is pressed, and then the reset and skip captions are
/// tried, reset taking precedence.
pub open spec fn click_result(p: PuzzleV, x: int, y: int, reset_width: int, skip_width: int)
    -> PuzzleV {
    let p1 = PuzzleV { key_pressed: false, ..p };
    let p2 = match clicked_cell(x, y) {
        Option::Some(c) => PuzzleV { tiles: tiles_after(p.ptype, p.tiles, c), ..p1 },
        Option::None => p1,
    };
    if in_reset_zone(x, y, reset_width) {
        PuzzleV { tiles: initial_tiles(p.ptype), ..p2 }
    } else if in_skip_zone(x, y, skip_width) {
        PuzzleV { force_solve: true, ..p2 }
    } else {
        p2
    }
}

/// The puzzle after a key press: arrows and WASD move the cursor with
/// wrap-around, the activate keys press the tile under the cursor, and
/// escape abandons the puzzle.
pub open spec fn key_result(p: PuzzleV, keycode: KeyInput) -> PuzzleV {
    if keycode == KeyInput::A || keycode == KeyInput::Left {
        PuzzleV { key_pos: key_pos_left(p.key_pos), key_pressed: true, ..p }
    } else if keycode == KeyInput::D || keycode == KeyInput::Right {
        PuzzleV { key_pos: key_pos_right(p.key_pos), key_pressed: true, ..p }
    } else if keycode == KeyInput::W || keycode == KeyInput::Up {
        PuzzleV { key_pos: key_pos_up(p.key_pos), key_pressed: true, ..p }
    } else if keycode == KeyInput::S || keycode == KeyInput::Down {
        PuzzleV { key_pos: key_pos_down(p.key_pos), key_pressed: true, ..p }
    } else if keycode == KeyInput::E || keycode == KeyInput::Space || keycode == KeyInput::Return {
        PuzzleV { tiles: tiles_after(p.ptype, p.tiles, p.key_pos), key_pressed: true, ..p }
    } else if keycode == KeyInput::Escape {
        PuzzleV { abort: true, ..p }
    } else {
        p
    }
}

/// The mathematical value of a puzzle.
#[verifier::ext_equal]
pub struct PuzzleV {
    pub ptype: PuzzleID,
    pub tiles: Seq<bool>,
    pub key_pos: int,
    pub key_pressed: bool,
    pub abort: bool,
    pub force_solve: bool,
}

impl PuzzleV {
    /// The grid always has nine tiles and the cursor stays on it.
    pub open spec fn wf(&self) -> bool {
        self.tiles.len() == 9 && 0 <= self.key_pos < 9
    }

    /// A puzzle is solved once every tile is lit, or once it was skipped.
    pub open spec fn solved(&self) -> bool {
        self.force_solve || (forall|i: int| 0 <= i < self.tiles.len() ==> self.tiles[i])
    }
}

/// A sliding-tile minigame: a 3x3 grid of lit and unlit tiles, a keyboard
/// cursor, and flags for aborting or skipping the puzzle.
pub struct Puzzle {
    pub ptype: PuzzleID,
    pub tiles: Vec<bool>,
    pub key_pos: usize,
    pub key_pressed: bool,
    pub abort: bool,
    pub force_solve: bool,
}

impl View for Puzzle {
    type V = PuzzleV;

    open spec fn view(&self) -> PuzzleV {
        PuzzleV {
            ptype: self.ptype,
            tiles: self.tiles@,
            key_pos: self.key_pos as int,
            key_pressed: self.key_pressed,
            abort: self.abort,
            force_solve: self.force_solve,
        }
    }
}

impl Puzzle {
    pub open spec fn wf(&self) -> bool {
        self@.wf()
    }

    /// A fresh puzzle of the given kind, with its opening grid, the cursor
    /// on the top-left tile, and no abort or skip recorded.
    pub fn new(ptype: PuzzleID) -> (p: Puzzle)
        ensures
            p@ == (PuzzleV {
                ptype,
                tiles: initial_tiles(ptype),
                key_pos: 0,
                key_pressed: true,
                abort: false,
                force_solve: false,
            }),
            p.wf(),
    {
        let mut puzzle = Puzzle {
            ptype,
            tiles: Vec::new(),
            key_pos: 0,
            key_pressed: true,
            abort: false,
            force_solve: false,
        };
        puzzle.reset();
        puzzle
    }

    /// Puts the grid back to its opening arrangement.
    pub fn reset(&mut self)
        ensures
            final(self)@ == (PuzzleV { tiles: initial_tiles(old(self).ptype), ..old(self)@ }),
            final(self)@.tiles.len() == 9,
    {
        self.tiles.clear();
        match self.ptype {
            PuzzleID::FarRightHall => {
                self.tiles.push(true);
                self.tiles.push(false);
                self.tiles.push(true);

                self.tiles.push(false);
                self.tiles.push(false);
                self.tiles.push(false);

                self.tiles.push(false);
                self.tiles.push(false);
                self.tiles.push(true);
            }
            PuzzleID::Computer => {
                self.tiles.push(false);
                self.tiles.push(false);
                self.tiles.push(false);

                self.tiles.push(true);
                self.tiles.push(false);
                self.tiles.push(false);

                self.tiles.push(false);
                self.tiles.push(false);
                self.tiles.push(false);
            }
        }
        proof {
            assert(self@.tiles =~= initial_tiles(self.ptype));
            assert(self@ =~= (PuzzleV { tiles: initial_tiles(old(self).ptype), ..old(self)@ }));
        }
    }

    /// A tick of the puzzle; the tile grid does not change on its own.
    pub fn update(&mut self)
        ensures
            *final(self) == *old(self),
    {
        match self.ptype {
            PuzzleID::FarRightHall => (),
            PuzzleID::Computer => (),
        }
    }

    /// Presses tile `idx`, flipping it and its partners.
    #[verifier::rlimit(60)]
    fn handle_puzzle_input(&mut self, idx: usize)
        requires
            old(self).wf(),
            idx < 9,
        ensures
            final(self)@ == (PuzzleV {
                tiles: tiles_after(old(self).ptype, old(self)@.tiles, idx as int),
                ..old(self)@
            }),
            final(self).wf(),
    {
        match self.ptype {
            PuzzleID::FarRightHall => {
                let t = self.tiles[idx];
                self.tiles.set(idx, !t);
                if idx % 3 > 0 {
                    let t = self.tiles[idx - 1];
                    self.tiles.set(idx - 1, !t);
                }
                if idx % 3 < 2 {
                    let t = self.tiles[idx + 1];
                    self.tiles.set(idx + 1, !t);
                }
                if idx / 3 > 0 {
                    let t = self.tiles[idx - 3];
                    self.tiles.set(idx - 3, !t);
                }
                if idx / 3 < 2 {
                    let t = self.tiles[idx + 3];
                    self.tiles.set(idx + 3, !t);
                }
            }
            PuzzleID::Computer => {
                let t = self.tiles[idx];
                self.tiles.set(idx, !t);
                match idx {
                    0 | 2 | 6 | 8 => {
                        let t = self.tiles[4];
                        self.tiles.set(4, !t);
                    }
                    1 | 5 => {
                        let t = self.tiles[2];
                        self.tiles.set(2, !t);
                    }
                    3 | 7 => {
                        let t = self.tiles[6];
                        self.tiles.set(6, !t);
                    }
                    4 => {
                        let t = self.tiles[1];
                        self.tiles.set(1, !t);
                        let t = self.tiles[7];
                        self.tiles.set(7, !t);
                    }
                    _ => {}
                }
            }
        }
        proof {
            assert(self@.tiles =~= tiles_after(old(self).ptype, old(self)@.tiles, idx as int));
            assert(self@ =~= (PuzzleV {
                tiles: tiles_after(old(self).ptype, old(self)@.tiles, idx as int),
                ..old(self)@
            }));
        }
    }

    /// A mouse press at pixel `(x, y)`: a press on a tile flips it and its
    /// partners, a press on the reset caption restarts the grid, a press on
    /// the skip caption marks the puzzle solved. The caption widths are the
    /// rendered text widths, measured by the shell.
    pub fn handle_click(&mut self, x: i32, y: i32, reset_width: i32, skip_width: i32)
        requires
            old(self).wf(),
        ensures
            final(self).wf(),
            final(self)@ == click_result(
                old(self)@,
                x as int,
                y as int,
                reset_width as int,
                skip_width as int,
            ),
    {
        self.key_pressed = false;
        match self.ptype {
            PuzzleID::FarRightHall | PuzzleID::Computer => {
                if y > 150 && y < 250 {
                    if x > 250 && x < 350 {
                        self.handle_puzzle_input(0);
                    } else if x > 350 && x < 450 {
                        self.handle_puzzle_input(1);
                    } else if x > 450 && x < 550 {
                        self.handle_puzzle_input(2);
                    }
                } else if y > 250 && y < 350 {
                    if x > 250 && x < 350 {
                        self.handle_puzzle_input(3);
                    } else if x > 350 && x < 450 {
                        self.handle_puzzle_input(4);
                    } else if x > 450 && x < 550 {
                        self.handle_puzzle_input(5);
                    }
                } else if y > 350 && y < 450 {
                    if x > 250 && x < 350 {
                        self.handle_puzzle_input(6);
                    } else if x > 350 && x < 450 {
                        self.handle_puzzle_input(7);
                    } else if x > 450 && x < 550 {
                        self.handle_puzzle_input(8);
                    }
                }
            }
        }
        if y > 490 && y < 530 {
            if x > 100 && (x as i64) < 100 + reset_width as i64 {
                self.reset();
            } else if x > 700 && (x as i64) < 700 + skip_width as i64 {
                self.force_solve = true;
            }
        }
    }

    /// A key press: the arrow keys (or WASD) move the cursor with
    /// wrap-around, the activate keys press the tile under the cursor, and
    /// escape abandons the puzzle.
    pub fn handle_key(&mut self, keycode: KeyInput)
        requires
            old(self).wf(),
        ensures
            final(self).wf(),
            final(self)@ == key_result(old(self)@, keycode),
    {
        match self.ptype {
            PuzzleID::FarRightHall | PuzzleID::Computer => {
                if keycode == KeyInput::A || keycode == KeyInput::Left {
                    if self.key_pos % 3 == 0 {
                        self.key_pos += 2;
                    } else {
                        self.key_pos -= 1;
                    }
                    self.key_pressed = true;
                } else if keycode == KeyInput::D || keycode == KeyInput::Right {
                    if self.key_pos % 3 == 2 {
                        self.key_pos -= 2;
                    } else {
                        self.key_pos += 1;
                    }
                    self.key_pressed = true;
                } else if keycode == KeyInput::W || keycode == KeyInput::Up {
                    if self.key_pos / 3 == 0 {
                        self.key_pos += 6;
                    } else {
                        self.key_pos -= 3;
                    }
                    self.key_pressed = true;
                } else if keycode == KeyInput::S || keycode == KeyInput::Down {
                    if self.key_pos / 3 == 2 {
                        self.key_pos -= 6;
                    } else {
                        self.key_pos += 3;
                    }
                    self.key_pressed = true;
                } else if keycode == KeyInput::E || keycode == KeyInput::Space || keycode
                    == KeyInput::Return {
                    let pos = self.key_pos;
                    self.handle_puzzle_input(pos);
                    self.key_pressed = true;
                } else if keycode == KeyInput::Escape {
                    self.abort = true;
                }
            }
        }
    }

    /// Whether the puzzle counts as solved: every tile lit, or skipped.
    pub fn is_solved(&self) -> (solved: bool)
        requires
            self.wf(),
        ensures
            solved == self@.solved(),
    {
        if self.force_solve {
            return true;
        }
        match self.ptype {
            PuzzleID::FarRightHall | PuzzleID::Computer => {
                let mut solved = true;
                let mut i: usize = 0;
                while i < 9
                    invariant
                        self.wf(),
                        i <= 9,
                        solved == (forall|j: int| 0 <= j < i ==> self@.tiles[j]),
                    decreases 9 - i,
                {
                    if !self.tiles[i] {
                        solved = false;
                    }
                    i += 1;
                }
                solved
            }
        }
    }

    /// Whether the player abandoned the puzzle with escape.
    pub fn is_abort(&self) -> (abort: bool)
        ensures
            abort == self.abort,
    {
        self.abort
    }
}

} // verus!
