//! The binary movement intent a character reports each tick.

use vstd::prelude::*;

verus! {

/// Whether a character intends to move this tick.
#[derive(Clone, Copy, PartialEq, Eq, Structural, Debug, Hash)]
pub enum CharacterState {
    Still,
    Moving,
}

/// The movement intent a particular entity currently holds.
pub struct CurrentCharacterState {
    pub state: CharacterState,
}

impl CurrentCharacterState {
    /// Wraps an intent as the current one.
    pub fn new(state: CharacterState) -> (r: CurrentCharacterState)
        ensures
            r.state == state,
    {
        CurrentCharacterState { state }
    }
}

impl Default for CurrentCharacterState {
    /// A character starts out still.
    fn default() -> (r: CurrentCharacterState)
        ensures
            r.state == CharacterState::Still,
    {
        CurrentCharacterState { state: CharacterState::Still }
    }
}

} // verus!
