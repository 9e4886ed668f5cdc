use vstd::prelude::*;

verus! {

/// How long one step of the walking animation lasts, in milliseconds.
pub const WALK_TIME_MS: u32 = 340;

/// An RGB color with an opacity given in thousandths (1000 is fully
/// opaque). The shell converts this to the engine's float color.
#[derive(Copy, Clone, Debug, PartialEq, Eq, Structural)]
pub struct Color {
    pub r: u8,
    pub g: u8,
    pub b: u8,
    pub alpha_permille: u16,
}

/// Whether the player stands still or walks, and for walking, which foot is
/// forward and how far into the current step the animation is, in
/// milliseconds.
#[derive(Copy, Clone, Debug, PartialEq, Eq, Structural)]
pub enum PlayerState {
    Standing,
    Walking(bool, u32),
}

/// The player figure. Positions are in thousandths of a pixel so that
/// frame-rate-dependent movement accumulates exactly; the rotation is in
/// thousandths of a radian.
#[derive(Copy, Clone, Debug)]
pub struct Player {
    pub x: i64,
    pub y: i64,
    pub rot: i32,
    pub state: PlayerState,
    pub color: Color,
    pub xflip: bool,
}

/// The walking animation state after `dt_ms` milliseconds have passed:
/// the step timer advances (held below the top of `u32`), and each time it
/// crosses a step length the leading foot switches.
pub open spec fn walk_state_after(left: bool, t: u32, dt_ms: u32) -> PlayerState {
    let t2 = if t + dt_ms > u32::MAX {
        u32::MAX
    } else {
        (t + dt_ms) as u32
    };
    if t2 >= WALK_TIME_MS {
        PlayerState::Walking(!left, (t2 - WALK_TIME_MS) as u32)
    } else {
        PlayerState::Walking(left, t2)
    }
}

impl Player {
    /// A freshly woken player: standing at pixel (300, 300), unrotated,
    /// facing right, in the given color.
    pub fn new(color: Color) -> (p: Player)
        ensures
            p.x == 300000,
            p.y == 300000,
            p.rot == 0,
            p.state == PlayerState::Standing,
            p.color == color,
            p.xflip == false,
    {
        Player { x: 300000, y: 300000, rot: 0, state: PlayerState::Standing, color, xflip: false }
    }

    /// Starts or stops the walking animation. Starting while already
    /// walking leaves the animation alone.
    pub fn set_walking(&mut self, is_walking: bool)
        ensures
            is_walking && old(self).state == PlayerState::Standing ==> *final(self) == (Player {
                state: PlayerState::Walking(true, 0),
                ..*old(self)
            }),
            is_walking && old(self).state != PlayerState::Standing ==> *final(self) == *old(self),
            !is_walking ==> *final(self) == (Player { state: PlayerState::Standing, ..*old(self) }),
    {
        if is_walking {
            match self.state {
                PlayerState::Standing => {
                    self.state = PlayerState::Walking(true, 0);
                }
                PlayerState::Walking(_, _) => {}
            }
        } else {
            self.state = PlayerState::Standing;
        }
    }

    /// Sets whether the sprite is drawn mirrored (facing left).
    pub fn set_xflip(&mut self, xflip: bool)
        ensures
            *final(self) == (Player { xflip, ..*old(self) }),
    {
        self.xflip = xflip;
    }

    /// Advances the walking animation by `dt_ms` milliseconds.
    pub fn update(&mut self, dt_ms: u32)
        ensures
            old(self).state == PlayerState::Standing ==> *final(self) == *old(self),
            old(self).state matches PlayerState::Walking(left, t) ==> *final(self) == (Player {
                state: walk_state_after(left, t, dt_ms),
                ..*old(self)
            }),
    {
        match self.state {
            PlayerState::Standing => {}
            PlayerState::Walking(left, t) => {
                let t2: u32 = if t <= u32::MAX - dt_ms {
                    t + dt_ms
                } else {
                    u32::MAX
                };
                if t2 >= WALK_TIME_MS {
                    self.state = PlayerState::Walking(!left, t2 - WALK_TIME_MS);
                } else {
                    self.state = PlayerState::Walking(left, t2);
                }
            }
        }
    }

    /// Which column of the sprite sheet to draw: 0 standing, 1 and 2 the
    /// two walking poses.
    pub fn walk_frame(&self) -> (frame: u8)
        ensures
            self.state == PlayerState::Standing ==> frame == 0,
            self.state matches PlayerState::Walking(step, _) ==> frame == (if step {
                1u8
            } else {
                2u8
            }),
    {
        match self.state {
            PlayerState::Standing => 0,
            PlayerState::Walking(step, _) => if step {
                1
            } else {
                2
            },
        }
    }
}

} // verus!
