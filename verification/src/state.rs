use vstd::prelude::*;

verus! {

/// The two phases of a run. A run starts in `Loading` and moves to `Play`
/// once, when every asset is there; it never goes back.
#[derive(Debug, Clone, Copy, PartialEq, Eq, Hash, Structural)]
pub enum AeiouState {
    Loading,
    Play,
}

impl AeiouState {
    /// The phase that follows `self` when all assets have been loaded.
    pub open spec fn after_loading(self) -> AeiouState {
        AeiouState::Play
    }

    /// The phase in which a run begins.
    pub fn initial() -> (s: AeiouState)
        ensures
            s == AeiouState::Loading,
    {
        AeiouState::Loading
    }

    /// Moves on when asset loading has completed: the result is always `Play`.
    pub fn assets_loaded(self) -> (next: AeiouState)
        ensures
            next == self.after_loading(),
            next == AeiouState::Play,
    {
        AeiouState::Play
    }
}

} // verus!
