pub mod arith;
pub mod door;
pub mod game;
pub mod geometry;
pub mod input;
pub mod interactable;
pub mod player;
pub mod puzzle;
pub mod scenes;
