//! The raw button state a character's controller reports each tick.

use vstd::prelude::*;

verus! {

/// Pressed/released state of the six character buttons.
#[derive(Clone, Copy, PartialEq, Eq, Structural, Debug)]
pub struct CharacterInput {
    pub up: bool,
    pub down: bool,
    pub left: bool,
    pub right: bool,
    pub action1: bool,
    pub action2: bool,
}

impl Default for CharacterInput {
    /// All buttons start out released.
    fn default() -> (r: CharacterInput)
        ensures
            r == CharacterInput::released(),
    {
        CharacterInput {
            up: false,
            down: false,
            left: false,
            right: false,
            action1: false,
            action2: false,
        }
    }
}

impl CharacterInput {
    /// The input with every button released.
    pub open spec fn released() -> CharacterInput {
        CharacterInput {
            up: false,
            down: false,
            left: false,
            right: false,
            action1: false,
            action2: false,
        }
    }

    /// The six buttons in array order: up, down, left, right, action1, action2.
    pub open spec fn spec_array(self) -> Seq<bool> {
        seq![self.up, self.down, self.left, self.right, self.action1, self.action2]
    }

    /// Builds an input from the six buttons in array order.
    pub fn from_array(arr: [bool; 6]) -> (r: CharacterInput)
        ensures
            r.spec_array() =~= arr@,
    {
        CharacterInput {
            up: arr[0],
            down: arr[1],
            left: arr[2],
            right: arr[3],
            action1: arr[4],
            action2: arr[5],
        }
    }

    /// The six buttons in array order; the inverse of [`Self::from_array`].
    pub fn as_array(&self) -> (r: [bool; 6])
        ensures
            r@ =~= self.spec_array(),
    {
        [self.up, self.down, self.left, self.right, self.action1, self.action2]
    }

    /// The input after flipping each button whose entry in `flips` is set.
    ///
    /// This is the deterministic part of randomized character input: the
    /// caller draws the six flip decisions however it likes and hands them in
    /// as plain booleans.
    pub fn toggled(&self, flips: [bool; 6]) -> (r: CharacterInput)
        ensures
            forall|i: int|
                0 <= i < 6 ==> r.spec_array()[i] == (self.spec_array()[i] != flips@[i]),
    {
        CharacterInput {
            up: self.up != flips[0],
            down: self.down != flips[1],
            left: self.left != flips[2],
            right: self.right != flips[3],
            action1: self.action1 != flips[4],
            action2: self.action2 != flips[5],
        }
    }
}

/// Input for a character driven by random button flips.
pub struct RandomInput {
    pub input: CharacterInput,
}

impl Default for RandomInput {
    /// Randomized input starts with every button released.
    fn default() -> (r: RandomInput)
        ensures
            r.input == CharacterInput::released(),
    {
        RandomInput { input: CharacterInput::default() }
    }
}

} // verus!
