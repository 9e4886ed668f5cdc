use vstd::prelude::*;

use crate::player::Color;
use crate::scenes::Scene;

verus! {

/// The scene value a new game shows: no color picked yet, nothing drawn.
pub open spec fn initial_game_start() -> GameStartScene {
    GameStartScene {
        finished: false,
        color_pale: Color { r: 0xfd, g: 0xd9, b: 0xbd, alpha_permille: 1000 },
        color_white: Color { r: 0xfd, g: 0xba, b: 0x85, alpha_permille: 1000 },
        color_brown: Color { r: 0xb5, g: 0x72, b: 0x37, alpha_permille: 1000 },
        color_black: Color { r: 0x4b, g: 0x28, b: 0x0a, alpha_permille: 1000 },
        color_red: Color { r: 0xff, g: 0, b: 0, alpha_permille: 1000 },
        color_green: Color { r: 0, g: 0xff, b: 0, alpha_permille: 1000 },
        color_blue: Color { r: 0, g: 0, b: 0xff, alpha_permille: 1000 },
        player_color: Option::None,
        drawed_loading_text: false,
    }
}

/// The opening screen: seven color swatches in two rows; clicking one
/// chooses the player's color and finishes the scene once the loading
/// caption has been shown.
pub struct GameStartScene {
    pub finished: bool,
    pub color_pale: Color,
    pub color_white: Color,
    pub color_brown: Color,
    pub color_black: Color,
    pub color_red: Color,
    pub color_green: Color,
    pub color_blue: Color,
    pub player_color: Option<Color>,
    pub drawed_loading_text: bool,
}

impl GameStartScene {
    /// Which swatch color a click at pixel `(x, y)` lands on, if any. The
    /// top row holds the four skin tones, the bottom row red, green and
    /// blue.
    pub open spec fn pick_color_at(&self, x: int, y: int) -> Option<Color> {
        if 200 < y && y < 328 {
            if 144 < x && x < 272 {
                Option::Some(self.color_pale)
            } else if 272 < x && x < 400 {
                Option::Some(self.color_white)
            } else if 400 < x && x < 528 {
                Option::Some(self.color_brown)
            } else if 528 < x && x < 656 {
                Option::Some(self.color_black)
            } else {
                Option::None
            }
        } else if 328 < y && y < 456 {
            if 208 < x && x < 336 {
                Option::Some(self.color_red)
            } else if 336 < x && x < 464 {
                Option::Some(self.color_green)
            } else if 464 < x && x < 592 {
                Option::Some(self.color_blue)
            } else {
                Option::None
            }
        } else {
            Option::None
        }
    }

    pub fn new() -> (s: GameStartScene)
        ensures
            s == initial_game_start(),
    {
        GameStartScene {
            finished: false,
            color_pale: Color { r: 0xfd, g: 0xd9, b: 0xbd, alpha_permille: 1000 },
            color_white: Color { r: 0xfd, g: 0xba, b: 0x85, alpha_permille: 1000 },
            color_brown: Color { r: 0xb5, g: 0x72, b: 0x37, alpha_permille: 1000 },
            color_black: Color { r: 0x4b, g: 0x28, b: 0x0a, alpha_permille: 1000 },
            color_red: Color { r: 0xff, g: 0, b: 0, alpha_permille: 1000 },
            color_green: Color { r: 0, g: 0xff, b: 0, alpha_permille: 1000 },
            color_blue: Color { r: 0, g: 0, b: 0xff, alpha_permille: 1000 },
            player_color: None,
            drawed_loading_text: false,
        }
    }

    pub fn new_boxed() -> (s: Box<GameStartScene>)
        ensures
            *s == initial_game_start(),
    {
        Box::new(GameStartScene::new())
    }

    /// A mouse press: a hit on a swatch records that color for the player
    /// and marks the scene finished; anything else changes nothing.
    pub fn mouse_button_down_event(&mut self, x: i32, y: i32)
        ensures
            old(self).pick_color_at(x as int, y as int) matches Option::Some(c) ==> *final(self)
                == (GameStartScene {
                player_color: Option::Some(c),
                finished: true,
                ..*old(self)
            }),
            old(self).pick_color_at(x as int, y as int) is None ==> *final(self) == *old(self),
    {
        if y > 200 && y < 328 {
            if x > 144 && x < 272 {
                self.player_color = Some(self.color_pale);
                self.finished = true;
            } else if x > 272 && x < 400 {
                self.player_color = Some(self.color_white);
                self.finished = true;
            } else if x > 400 && x < 528 {
                self.player_color = Some(self.color_brown);
                self.finished = true;
            } else if x > 528 && x < 656 {
                self.player_color = Some(self.color_black);
                self.finished = true;
            }
        } else if y > 328 && y < 456 {
            if x > 208 && x < 336 {
                self.player_color = Some(self.color_red);
                self.finished = true;
            } else if x > 336 && x < 464 {
                self.player_color = Some(self.color_green);
                self.finished = true;
            } else if x > 464 && x < 592 {
                self.player_color = Some(self.color_blue);
                self.finished = true;
            }
        }
    }

    /// The shell calls this after it has rendered the loading caption that
    /// follows a pick; only then may the scene report itself finished.
    pub fn mark_loading_drawn(&mut self)
        ensures
            *final(self) == (GameStartScene { drawed_loading_text: true, ..*old(self) }),
    {
        self.drawed_loading_text = true;
    }
}

impl Scene for GameStartScene {
    open spec fn spec_finished(&self) -> bool {
        self.finished && self.drawed_loading_text
    }

    fn finished(&self) -> (done: bool) {
        self.finished && self.drawed_loading_text
    }
}

} // verus!
