//! The four compass directions and the words the player types for them.

use vstd::prelude::*;

use crate::text::same_text;

verus! {

/// A compass direction in which a room may have an exit.
#[derive(Clone, Copy, Debug, PartialEq, Eq, Hash, Structural)]
pub enum Direction {
    North,
    South,
    East,
    West,
}

impl Direction {
    /// The lowercase word that names this direction.
    pub open spec fn word(self) -> Seq<char> {
        match self {
            Direction::North => "north"@,
            Direction::South => "south"@,
            Direction::East => "east"@,
            Direction::West => "west"@,
        }
    }

    /// The direction that `word` names, if it names one. Only the four full
    /// lowercase words do; there are no abbreviations.
    pub open spec fn named(word: Seq<char>) -> Option<Direction> {
        if word == "north"@ {
            Some(Direction::North)
        } else if word == "south"@ {
            Some(Direction::South)
        } else if word == "east"@ {
            Some(Direction::East)
        } else if word == "west"@ {
            Some(Direction::West)
        } else {
            None
        }
    }

    /// The lowercase word that names this direction.
    pub fn name(self) -> (word: &'static str)
        ensures
            word@ == self.word(),
    {
        match self {
            Direction::North => "north",
            Direction::South => "south",
            Direction::East => "east",
            Direction::West => "west",
        }
    }

    /// Reads a direction from the word that names it.
    pub fn from_word(word: &str) -> (direction: Option<Direction>)
        ensures
            direction == Direction::named(word@),
    {
        if same_text(word, "north") {
            Some(Direction::North)
        } else if same_text(word, "south") {
            Some(Direction::South)
        } else if same_text(word, "east") {
            Some(Direction::East)
        } else if same_text(word, "west") {
            Some(Direction::West)
        } else {
            None
        }
    }

    /// A word names a direction exactly when it is that direction's own word:
    /// the four words are pairwise distinct, and nothing else is accepted.
    pub proof fn word_names_direction(self, word: Seq<char>)
        ensures
            Direction::named(word) == Some(self) <==> word == self.word(),
    {
        reveal_strlit("north");
        reveal_strlit("south");
        reveal_strlit("east");
        reveal_strlit("west");
        assert("north"@[0] != "south"@[0]);
        assert("north"@[0] != "west"@[0]);
        assert("south"@[0] != "west"@[0]);
        assert("east"@.len() != "north"@.len());
        assert("east"@.len() != "south"@.len());
        assert("east"@[0] != "west"@[0]);
    }
}

} // verus!
