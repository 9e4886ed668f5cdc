use vstd::prelude::*;

use crate::geometry::circle_contains;
use crate::geometry::in_circle;

verus! {

/// How far from a door's entry point the player (or the mouse) may stand and
/// still count as being at the door, in pixels.
pub const DEFAULT_DOOR_RADIUS: i32 = 70;

/// A door drawn into a room at pixel position `(x, y)`. Its entry point, the
/// spot walked to when passing through, is at `(x + 48, y + 80)`.
#[derive(Copy, Clone, Debug)]
pub struct Door {
    pub is_open: bool,
    pub x: i32,
    pub y: i32,
    pub id: usize,
    pub enter_radius: i32,
}

impl Door {
    /// Pixel x of the entry point.
    pub open spec fn spec_center_x(&self) -> int {
        self.x + 48
    }

    /// Pixel y of the entry point.
    pub open spec fn spec_center_y(&self) -> int {
        self.y + 80
    }

    pub fn new(is_open: bool, x: i32, y: i32, id: usize) -> (d: Door)
        ensures
            d.is_open == is_open,
            d.x == x,
            d.y == y,
            d.id == id,
            d.enter_radius == DEFAULT_DOOR_RADIUS,
    {
        Door { is_open, x, y, id, enter_radius: DEFAULT_DOOR_RADIUS }
    }

    pub fn get_open(&self) -> (open_now: bool)
        ensures
            open_now == self.is_open,
    {
        self.is_open
    }

    pub fn set_open(&mut self, is_open: bool)
        ensures
            *final(self) == (Door { is_open, ..*old(self) }),
    {
        self.is_open = is_open;
    }

    /// Flips the door between open and closed and reports the new state.
    pub fn toggle_open(&mut self) -> (open_now: bool)
        ensures
            *final(self) == (Door { is_open: !old(self).is_open, ..*old(self) }),
            open_now == !old(self).is_open,
    {
        self.is_open = !self.is_open;
        self.is_open
    }

    pub fn get_id(&self) -> (id: usize)
        ensures
            id == self.id,
    {
        self.id
    }

    /// Whether `(x, y)` is close enough to the entry point to use the door.
    pub fn is_within_range(&self, x: i32, y: i32) -> (b: bool)
        ensures
            b == in_circle(
                self.spec_center_x(),
                self.spec_center_y(),
                x as int,
                y as int,
                self.enter_radius as int,
            ),
    {
        circle_contains(
            self.x as i64 + 48,
            self.y as i64 + 80,
            x as i64,
            y as i64,
            self.enter_radius as i64,
        )
    }

    pub fn get_x(&self) -> (x: i32)
        ensures
            x == self.x,
    {
        self.x
    }

    pub fn get_y(&self) -> (y: i32)
        ensures
            y == self.y,
    {
        self.y
    }

    pub fn get_center_x(&self) -> (cx: i64)
        ensures
            cx == self.spec_center_x(),
    {
        self.x as i64 + 48
    }

    pub fn get_center_y(&self) -> (cy: i64)
        ensures
            cy == self.spec_center_y(),
    {
        self.y as i64 + 80
    }
}

} // verus!
