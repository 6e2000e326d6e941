//! Mapping from directional button state to a facing direction and a
//! movement intent.

use vstd::prelude::*;

use crate::character_input::CharacterInput;
use crate::character_state::CharacterState;
use crate::direction::Direction8;

verus! {

/// The direction selected by a directional-pad button combination, if the
/// combination names one.
///
/// Exactly the eight combinations with one vertical axis pressed, one
/// horizontal axis pressed, or both, select a direction; every other
/// combination (nothing pressed, or opposing buttons pressed) selects none.
pub open spec fn spec_direction_of(up: bool, down: bool, left: bool, right: bool) -> Option<
    Direction8,
> {
    match (up, down, left, right) {
        (true, false, false, false) => Some(Direction8::North),
        (true, false, true, false) => Some(Direction8::Northwest),
        (true, false, false, true) => Some(Direction8::Northeast),
        (false, true, false, false) => Some(Direction8::South),
        (false, true, true, false) => Some(Direction8::Southwest),
        (false, true, false, true) => Some(Direction8::Southeast),
        (false, false, true, false) => Some(Direction8::West),
        (false, false, false, true) => Some(Direction8::East),
        _ => None,
    }
}

/// Converts directional buttons (up, down, left, right) to a facing
/// direction and a movement intent.
///
/// The intent is `Moving` exactly when the buttons name a direction.
pub fn directional_input(input: [bool; 4]) -> (r: (Option<Direction8>, CharacterState))
    ensures
        r.0 == spec_direction_of(input@[0], input@[1], input@[2], input@[3]),
        r.1 == (if r.0 is Some {
            CharacterState::Moving
        } else {
            CharacterState::Still
        }),
{
    let up = input[0];
    let down = input[1];
    let left = input[2];
    let right = input[3];

    let new_direction = match (up, down, left, right) {
        (true, false, false, false) => Some(Direction8::North),
        (true, false, true, false) => Some(Direction8::Northwest),
        (true, false, false, true) => Some(Direction8::Northeast),
        (false, true, false, false) => Some(Direction8::South),
        (false, true, true, false) => Some(Direction8::Southwest),
        (false, true, false, true) => Some(Direction8::Southeast),
        (false, false, true, false) => Some(Direction8::West),
        (false, false, false, true) => Some(Direction8::East),
        _ => None,
    };

    let new_state = if new_direction.is_some() {
        CharacterState::Moving
    } else {
        CharacterState::Still
    };

    (new_direction, new_state)
}

/// One step of randomly driven character input: flips the buttons whose
/// entry in `flips` is set, then reads the directional pad from the new
/// button state.  The caller draws the six flip decisions (for example
/// with a random-number generator) and keeps its old direction when the
/// new buttons name none.
pub fn random_input_step(input: &CharacterInput, flips: [bool; 6], current: Direction8) -> (r: (
    CharacterInput,
    Direction8,
    CharacterState,
))
    ensures
        forall|i: int|
            0 <= i < 6 ==> r.0.spec_array()[i] == (input.spec_array()[i] != flips@[i]),
        ({
            let chosen = spec_direction_of(r.0.up, r.0.down, r.0.left, r.0.right);
            &&& r.1 == (match chosen {
                Some(d) => d,
                None => current,
            })
            &&& r.2 == (if chosen is Some {
                CharacterState::Moving
            } else {
                CharacterState::Still
            })
        }),
{
    let next = input.toggled(flips);
    let (dir, state) = directional_input([next.up, next.down, next.left, next.right]);
    let new_direction = match dir {
        Some(d) => d,
        None => current,
    };
    (next, new_direction, state)
}

} // verus!
