use vstd::prelude::*;

verus! {

/// The keys the scenes react to. The windowing shell translates the host
/// engine's key codes into this type before handing events to the library.
#[derive(Copy, Clone, Debug, PartialEq, Eq, Structural)]
pub enum KeyInput {
    A,
    D,
    E,
    S,
    W,
    Up,
    Down,
    Left,
    Right,
    Space,
    Return,
    Escape,
}

/// The mouse buttons the scenes react to.
#[derive(Copy, Clone, Debug, PartialEq, Eq, Structural)]
pub enum MouseButtonInput {
    Left,
    Right,
    Other,
}

/// Sound and music requests that scene updates emit. The shell performs
/// them in order against the audio backend.
#[derive(Copy, Clone, Debug, PartialEq, Eq, Structural)]
pub enum AudioCue {
    PlayMusic,
    StopMusic,
    PlayTextSfx,
    PlayDoorSfx,
    PlayErrorSfx,
    PlaySuccessSfx,
    PlayDiscoveryMusic,
    PlayBadNewsMusic,
    StopBadNewsMusic,
    PlayEndingMusic,
}

} // verus!
