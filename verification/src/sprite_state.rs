//! The four presentation states of a sprite and the transition table that
//! decides the next state from the current state and the movement intent.
//!
//! `Still` and `Moving` are stable: they re-enter themselves freely and may
//! be left on any tick.  `Starting` and `Stopping` are transient: their clip
//! must play to a loop boundary before the machine may leave them.

use vstd::prelude::*;

use crate::character_state::CharacterState;

verus! {

/// Presentation state of an animated sprite.
#[derive(Clone, Copy, PartialEq, Eq, Structural, Debug, Hash)]
pub enum SpriteState {
    Still,
    Starting,
    Moving,
    Stopping,
}

impl SpriteState {
    /// The name of this state as it appears in texture file names.
    pub open spec fn spec_name(self) -> Seq<char> {
        match self {
            SpriteState::Still => "still"@,
            SpriteState::Starting => "starting"@,
            SpriteState::Moving => "moving"@,
            SpriteState::Stopping => "stopping"@,
        }
    }

    /// Lower-case name of the state, used to build texture file names.
    pub fn as_str(&self) -> (r: &'static str)
        ensures
            r@ == self.spec_name(),
    {
        match self {
            SpriteState::Still => "still",
            SpriteState::Starting => "starting",
            SpriteState::Moving => "moving",
            SpriteState::Stopping => "stopping",
        }
    }

    /// Parses a state name; the inverse of [`Self::as_str`].
    pub fn from_str(s: &str) -> (r: Option<SpriteState>)
        ensures
            r == SpriteState::spec_from_chars(s@),
    {
        let o = s.to_owned();
        if o == "still".to_owned() {
            Some(SpriteState::Still)
        } else if o == "starting".to_owned() {
            Some(SpriteState::Starting)
        } else if o == "moving".to_owned() {
            Some(SpriteState::Moving)
        } else if o == "stopping".to_owned() {
            Some(SpriteState::Stopping)
        } else {
            None
        }
    }

    /// What `from_str` returns for a given character sequence.
    pub open spec fn spec_from_chars(s: Seq<char>) -> Option<SpriteState> {
        if s == "still"@ {
            Some(SpriteState::Still)
        } else if s == "starting"@ {
            Some(SpriteState::Starting)
        } else if s == "moving"@ {
            Some(SpriteState::Moving)
        } else if s == "stopping"@ {
            Some(SpriteState::Stopping)
        } else {
            None
        }
    }

    /// Every state, in a fixed order.
    pub fn all() -> (r: Vec<SpriteState>)
        ensures
            r@ =~= seq![
                SpriteState::Still,
                SpriteState::Starting,
                SpriteState::Moving,
                SpriteState::Stopping,
            ],
    {
        vec![
            SpriteState::Still,
            SpriteState::Starting,
            SpriteState::Moving,
            SpriteState::Stopping,
        ]
    }

    /// A stable state may be re-entered indefinitely and left on any tick.
    pub open spec fn spec_is_stable(&self) -> bool {
        self is Still || self is Moving
    }

    /// Whether this state is stable (`Still` or `Moving`).
    #[verifier::when_used_as_spec(spec_is_stable)]
    pub fn is_stable(&self) -> (r: bool)
        ensures
            r == self.spec_is_stable(),
    {
        matches!(self, SpriteState::Still | SpriteState::Moving)
    }

    /// The candidate next state for a given movement intent.
    ///
    /// The caller applies this freely while in a stable state, but while in a
    /// transient state only once the current clip has completed a loop.
    pub open spec fn spec_next_state(&self, intent: CharacterState) -> SpriteState {
        match (intent, self) {
            (CharacterState::Moving, SpriteState::Still) => SpriteState::Starting,
            (CharacterState::Moving, SpriteState::Stopping) => SpriteState::Starting,
            (CharacterState::Moving, SpriteState::Starting) => SpriteState::Moving,
            (CharacterState::Moving, SpriteState::Moving) => SpriteState::Moving,
            (CharacterState::Still, SpriteState::Starting) => SpriteState::Stopping,
            (CharacterState::Still, SpriteState::Moving) => SpriteState::Stopping,
            (CharacterState::Still, SpriteState::Stopping) => SpriteState::Still,
            (CharacterState::Still, SpriteState::Still) => SpriteState::Still,
        }
    }

    /// Executable form of [`Self::spec_next_state`].
    #[verifier::when_used_as_spec(spec_next_state)]
    pub fn next_state(&self, intent: CharacterState) -> (r: SpriteState)
        ensures
            r == self.spec_next_state(intent),
    {
        match (intent, self) {
            (CharacterState::Moving, SpriteState::Still) => SpriteState::Starting,
            (CharacterState::Moving, SpriteState::Stopping) => SpriteState::Starting,
            (CharacterState::Moving, SpriteState::Starting) => SpriteState::Moving,
            (CharacterState::Moving, SpriteState::Moving) => SpriteState::Moving,
            (CharacterState::Still, SpriteState::Starting) => SpriteState::Stopping,
            (CharacterState::Still, SpriteState::Moving) => SpriteState::Stopping,
            (CharacterState::Still, SpriteState::Stopping) => SpriteState::Still,
            (CharacterState::Still, SpriteState::Still) => SpriteState::Still,
        }
    }
}

/// The presentation state a particular entity currently holds.
pub struct CurrentSpriteState {
    pub state: SpriteState,
}

impl CurrentSpriteState {
    /// Wraps a state as the current one.
    pub fn new(state: SpriteState) -> (r: CurrentSpriteState)
        ensures
            r.state == state,
    {
        CurrentSpriteState { state }
    }
}

} // verus!
