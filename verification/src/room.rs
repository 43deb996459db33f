//! A room of the castle: what it is called, how it looks, and where its
//! exits lead.

use vstd::prelude::*;

use crate::direction::Direction;

verus! {

/// A named location. A room is built once, exit by exit, and never changes
/// afterwards.
#[derive(Debug)]
pub struct Room {
    name: String,
    description: String,
    ascii_art: &'static str,
    north: Option<String>,
    south: Option<String>,
    east: Option<String>,
    west: Option<String>,
}

/// What a room is to the rules of the game: its texts, and for each
/// direction in which it has an exit the name of the room that lies there.
#[verifier::ext_equal]
pub struct RoomView {
    pub name: Seq<char>,
    pub description: Seq<char>,
    pub ascii_art: Seq<char>,
    pub exits: Map<Direction, Seq<char>>,
}

/// Which of the four directions are open from a room.
#[derive(Clone, Copy, Debug, PartialEq, Eq, Structural)]
pub struct Compass {
    pub north: bool,
    pub south: bool,
    pub east: bool,
    pub west: bool,
}

impl Compass {
    /// Whether the compass shows `direction` as open.
    pub open spec fn points(self, direction: Direction) -> bool {
        match direction {
            Direction::North => self.north,
            Direction::South => self.south,
            Direction::East => self.east,
            Direction::West => self.west,
        }
    }

    /// Whether the compass shows `direction` as open.
    pub fn shows(self, direction: Direction) -> (open: bool)
        ensures
            open == self.points(direction),
    {
        match direction {
            Direction::North => self.north,
            Direction::South => self.south,
            Direction::East => self.east,
            Direction::West => self.west,
        }
    }
}

impl View for Room {
    type V = RoomView;

    closed spec fn view(&self) -> RoomView {
        RoomView {
            name: self.name@,
            description: self.description@,
            ascii_art: self.ascii_art@,
            exits: Map::new(
                |direction: Direction| self.slot(direction) is Some,
                |direction: Direction| self.slot(direction)->0@,
            ),
        }
    }
}

impl Room {
    /// The field that holds the exit in `direction`.
    spec fn slot(&self, direction: Direction) -> Option<String> {
        match direction {
            Direction::North => self.north,
            Direction::South => self.south,
            Direction::East => self.east,
            Direction::West => self.west,
        }
    }

    /// A room without exits.
    pub fn new(name: &str, description: &str, ascii_art: &'static str) -> (room: Room)
        ensures
            room@ == (RoomView {
                name: name@,
                description: description@,
                ascii_art: ascii_art@,
                exits: Map::empty(),
            }),
    {
        let room = Room {
            name: name.to_owned(),
            description: description.to_owned(),
            ascii_art,
            north: None,
            south: None,
            east: None,
            west: None,
        };
        assert(room@.exits =~= Map::empty());
        room
    }

    /// The same room with an exit in `direction` that leads to the room
    /// called `room_name`. An exit that was there in that direction is
    /// replaced.
    pub fn add_exit(self, direction: Direction, room_name: &str) -> (room: Room)
        ensures
            room@ == (RoomView { exits: self@.exits.insert(direction, room_name@), ..self@ }),
    {
        let mut room = self;
        let target = Some(room_name.to_owned());
        match direction {
            Direction::North => {
                room.north = target;
            },
            Direction::South => {
                room.south = target;
            },
            Direction::East => {
                room.east = target;
            },
            Direction::West => {
                room.west = target;
            },
        }
        assert(room@.exits =~= self@.exits.insert(direction, room_name@));
        room
    }

    /// The name under which the room is known.
    pub fn name(&self) -> (name: &str)
        ensures
            name@ == self@.name,
    {
        self.name.as_str()
    }

    /// The text that describes the room to the player.
    pub fn description(&self) -> (description: &str)
        ensures
            description@ == self@.description,
    {
        self.description.as_str()
    }

    /// The picture that is shown with the room.
    pub fn ascii_art(&self) -> (ascii_art: &'static str)
        ensures
            ascii_art@ == self@.ascii_art,
    {
        self.ascii_art
    }

    /// The name of the room to which the exit in `direction` leads, if there
    /// is an exit that way.
    pub fn exit(&self, direction: Direction) -> (target: Option<&str>)
        ensures
            match target {
                Some(name) => self@.exits.contains_key(direction) && name@ == self@.exits[direction],
                None => !self@.exits.contains_key(direction),
            },
    {
        let slot = match direction {
            Direction::North => &self.north,
            Direction::South => &self.south,
            Direction::East => &self.east,
            Direction::West => &self.west,
        };
        match slot {
            Some(name) => Some(name.as_str()),
            None => None,
        }
    }

    /// The directions in which the room has an exit.
    pub fn compass(&self) -> (compass: Compass)
        ensures
            forall|direction: Direction|
                compass.points(direction) == self@.exits.contains_key(direction),
    {
        Compass {
            north: self.north.is_some(),
            south: self.south.is_some(),
            east: self.east.is_some(),
            west: self.west.is_some(),
        }
    }
}

} // verus!
