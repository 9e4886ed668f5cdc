use vstd::prelude::*;

use crate::geometry::circle_contains;
use crate::geometry::in_circle;
use crate::scenes::mainscene::PuzzleID;

verus! {

/// How far from a hotspot the player (or the mouse) may be and still
/// activate it, in pixels.
pub const DEFAULT_INTERACT_RADIUS: i32 = 70;

/// What a clickable hotspot does when used: a door control panel, a locked
/// door control panel (with its unlocked flag), a puzzle terminal (with its
/// cleared flag), or the escape ship.
#[derive(Copy, Clone, Debug, PartialEq, Eq, Structural)]
pub enum InteractableType {
    Door(usize),
    LockedDoor(usize, bool),
    Puzzle(PuzzleID, bool),
    Ship,
}

/// A clickable hotspot at pixel position `(x, y)`.
#[derive(Copy, Clone, Debug)]
pub struct Interactable {
    pub itype: InteractableType,
    pub x: i32,
    pub y: i32,
    pub radius: i32,
}

impl Interactable {
    pub fn new(itype: InteractableType, x: i32, y: i32) -> (it: Interactable)
        ensures
            it.itype == itype,
            it.x == x,
            it.y == y,
            it.radius == DEFAULT_INTERACT_RADIUS,
    {
        Interactable { itype, x, y, radius: DEFAULT_INTERACT_RADIUS }
    }

    /// Whether `(x, y)` is close enough to the hotspot to activate it.
    pub fn is_within_range(&self, x: i32, y: i32) -> (b: bool)
        ensures
            b == in_circle(self.x as int, self.y as int, x as int, y as int, self.radius as int),
    {
        circle_contains(self.x as i64, self.y as i64, x as i64, y as i64, self.radius as i64)
    }

    pub fn get_type(&self) -> (itype: InteractableType)
        ensures
            itype == self.itype,
    {
        self.itype
    }

    pub fn get_radius(&mut self) -> (radius: i32)
        ensures
            *final(self) == *old(self),
            radius == old(self).radius,
    {
        self.radius
    }

    pub fn set_radius(&mut self, radius: i32)
        ensures
            *final(self) == (Interactable { radius, ..*old(self) }),
    {
        self.radius = radius;
    }

    pub fn get_x(&self) -> (x: i32)
        ensures
            x == self.x,
    {
        self.x
    }

    pub fn get_y(&self) -> (y: i32)
        ensures
            y == self.y,
    {
        self.y
    }

    /// On a locked-door panel, records whether the door may now be toggled.
    /// Any other hotspot is left unchanged.
    pub fn set_unlocked(&mut self, unlocked: bool)
        ensures
            old(self).itype matches InteractableType::LockedDoor(id, _) ==> *final(self) == (
            Interactable { itype: InteractableType::LockedDoor(id, unlocked), ..*old(self) }),
            !(old(self).itype is LockedDoor) ==> *final(self) == *old(self),
    {
        if let InteractableType::LockedDoor(id, _) = self.itype {
            self.itype = InteractableType::LockedDoor(id, unlocked);
        }
    }

    /// On a puzzle terminal, records whether its puzzle has been cleared.
    /// Any other hotspot is left unchanged.
    pub fn set_puzzle_cleared(&mut self, cleared: bool)
        ensures
            old(self).itype matches InteractableType::Puzzle(id, _) ==> *final(self) == (
            Interactable { itype: InteractableType::Puzzle(id, cleared), ..*old(self) }),
            !(old(self).itype is Puzzle) ==> *final(self) == *old(self),
    {
        if let InteractableType::Puzzle(id, _) = self.itype {
            self.itype = InteractableType::Puzzle(id, cleared);
        }
    }
}

} // verus!
