//! The eight facing directions a character can hold, and their names as used
//! in texture file names.

use vstd::prelude::*;

verus! {

/// One of the eight compass directions a sprite can face.
#[derive(Clone, Copy, PartialEq, Eq, Structural, Debug, Hash)]
pub enum Direction8 {
    North,
    Northeast,
    East,
    Southeast,
    South,
    Southwest,
    West,
    Northwest,
}

impl Direction8 {
    /// The name of this direction as it appears in texture file names.
    pub open spec fn spec_name(self) -> Seq<char> {
        match self {
            Direction8::North => "north"@,
            Direction8::Northeast => "northeast"@,
            Direction8::East => "east"@,
            Direction8::Southeast => "southeast"@,
            Direction8::South => "south"@,
            Direction8::Southwest => "southwest"@,
            Direction8::West => "west"@,
            Direction8::Northwest => "northwest"@,
        }
    }

    /// Lower-case name of the direction, used to build texture file names.
    pub fn as_str(&self) -> (r: &'static str)
        ensures
            r@ == self.spec_name(),
    {
        match self {
            Direction8::North => "north",
            Direction8::Northeast => "northeast",
            Direction8::East => "east",
            Direction8::Southeast => "southeast",
            Direction8::South => "south",
            Direction8::Southwest => "southwest",
            Direction8::West => "west",
            Direction8::Northwest => "northwest",
        }
    }

    /// Parses a direction name; the inverse of [`Self::as_str`].
    pub fn from_str(s: &str) -> (r: Option<Direction8>)
        ensures
            r == Direction8::spec_from_chars(s@),
    {
        let o = s.to_owned();
        if o == "north".to_owned() {
            Some(Direction8::North)
        } else if o == "northeast".to_owned() {
            Some(Direction8::Northeast)
        } else if o == "east".to_owned() {
            Some(Direction8::East)
        } else if o == "southeast".to_owned() {
            Some(Direction8::Southeast)
        } else if o == "south".to_owned() {
            Some(Direction8::South)
        } else if o == "southwest".to_owned() {
            Some(Direction8::Southwest)
        } else if o == "west".to_owned() {
            Some(Direction8::West)
        } else if o == "northwest".to_owned() {
            Some(Direction8::Northwest)
        } else {
            None
        }
    }

    /// What `from_str` returns for a given character sequence.
    pub open spec fn spec_from_chars(s: Seq<char>) -> Option<Direction8> {
        if s == "north"@ {
            Some(Direction8::North)
        } else if s == "northeast"@ {
            Some(Direction8::Northeast)
        } else if s == "east"@ {
            Some(Direction8::East)
        } else if s == "southeast"@ {
            Some(Direction8::Southeast)
        } else if s == "south"@ {
            Some(Direction8::South)
        } else if s == "southwest"@ {
            Some(Direction8::Southwest)
        } else if s == "west"@ {
            Some(Direction8::West)
        } else if s == "northwest"@ {
            Some(Direction8::Northwest)
        } else {
            None
        }
    }

    /// Every direction, in a fixed order.
    pub fn all() -> (r: Vec<Direction8>)
        ensures
            r@ =~= seq![
                Direction8::North,
                Direction8::Northeast,
                Direction8::East,
                Direction8::Southeast,
                Direction8::South,
                Direction8::Southwest,
                Direction8::West,
                Direction8::Northwest,
            ],
    {
        vec![
            Direction8::North,
            Direction8::Northeast,
            Direction8::East,
            Direction8::Southeast,
            Direction8::South,
            Direction8::Southwest,
            Direction8::West,
            Direction8::Northwest,
        ]
    }
}

} // verus!
