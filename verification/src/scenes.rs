pub mod gamestart;
pub mod mainscene;

use vstd::prelude::*;

verus! {

/// A scene of the game. A scene reports when it is done so the dispatcher
/// can move on to the next phase.
pub trait Scene {
    /// The mathematical meaning of `finished` for this scene.
    spec fn spec_finished(&self) -> bool;

    fn finished(&self) -> (done: bool)
        ensures
            done == self.spec_finished(),
    ;
}

} // verus!
