//! The dragon's castle: the three rooms of the game and how they connect.
//!
//! ```text
//!     Hallway ------ Throne Room
//!        |
//!   Dungeon Cell
//! ```
//!
//! The hallway lies north of the dungeon cell and west of the throne room.
//! Every door can be walked through both ways.

use vstd::prelude::*;

use crate::direction::Direction;
use crate::registry::{no_dangling_exits, Registry};
use crate::room::{Room, RoomView};

verus! {

/// The name of the room in which the player wakes up.
pub const DUNGEON_CELL: &'static str = "Dungeon Cell";

/// The name of the room between the cell and the throne room.
pub const HALLWAY: &'static str = "Hallway";

/// The name of the room that holds the dragon's treasure.
pub const THRONE_ROOM: &'static str = "Throne Room";

/// What the player reads in the dungeon cell.
pub const DUNGEON_CELL_TEXT: &'static str =
    "A cold, dark prison cell. Stone walls surround you.\nThere's a rusty door to the NORTH.";

/// What the player reads in the hallway.
pub const HALLWAY_TEXT: &'static str =
    "A torch-lit hallway with ancient tapestries.\nExits lead SOUTH and EAST.";

/// What the player reads in the throne room.
pub const THRONE_ROOM_TEXT: &'static str =
    "A magnificent room with dragon-carved throne!\nGolden treasures sparkle everywhere!\nYou found the dragon's treasure hoard!";

/// The dungeon cell: one door, to the north.
pub open spec fn dungeon_cell(art: Seq<char>) -> RoomView {
    RoomView {
        name: DUNGEON_CELL@,
        description: DUNGEON_CELL_TEXT@,
        ascii_art: art,
        exits: Map::empty().insert(Direction::North, HALLWAY@),
    }
}

/// The hallway: back south to the cell, east to the throne room.
pub open spec fn hallway(art: Seq<char>) -> RoomView {
    RoomView {
        name: HALLWAY@,
        description: HALLWAY_TEXT@,
        ascii_art: art,
        exits: Map::empty().insert(Direction::South, DUNGEON_CELL@).insert(
            Direction::East,
            THRONE_ROOM@,
        ),
    }
}

/// The throne room: the only way out is back west.
pub open spec fn throne_room(art: Seq<char>) -> RoomView {
    RoomView {
        name: THRONE_ROOM@,
        description: THRONE_ROOM_TEXT@,
        ascii_art: art,
        exits: Map::empty().insert(Direction::West, HALLWAY@),
    }
}

/// The three rooms of the castle under their names, each with the picture
/// that is shown for it.
pub open spec fn castle_rooms(
    dungeon_art: Seq<char>,
    hallway_art: Seq<char>,
    throne_art: Seq<char>,
) -> Map<Seq<char>, RoomView> {
    Map::empty().insert(DUNGEON_CELL@, dungeon_cell(dungeon_art)).insert(
        HALLWAY@,
        hallway(hallway_art),
    ).insert(THRONE_ROOM@, throne_room(throne_art))
}

/// The three rooms have three different names.
pub proof fn room_names_differ()
    ensures
        DUNGEON_CELL@ != HALLWAY@,
        DUNGEON_CELL@ != THRONE_ROOM@,
        HALLWAY@ != THRONE_ROOM@,
{
    reveal_strlit("Dungeon Cell");
    reveal_strlit("Hallway");
    reveal_strlit("Throne Room");
    assert(DUNGEON_CELL@[0] == 'D');
    assert(HALLWAY@[0] == 'H');
    assert(THRONE_ROOM@[0] == 'T');
}

/// Every exit of the castle leads to a room of the castle.
pub proof fn castle_has_no_dangling_exits(
    dungeon_art: Seq<char>,
    hallway_art: Seq<char>,
    throne_art: Seq<char>,
)
    ensures
        no_dangling_exits(castle_rooms(dungeon_art, hallway_art, throne_art)),
{
    room_names_differ();
}

/// Builds the castle. The pictures of the rooms are the caller's to give.
pub fn castle(
    dungeon_art: &'static str,
    hallway_art: &'static str,
    throne_art: &'static str,
) -> (rooms: Registry)
    ensures
        rooms@ == castle_rooms(dungeon_art@, hallway_art@, throne_art@),
        no_dangling_exits(rooms@),
{
    let dungeon = Room::new(DUNGEON_CELL, DUNGEON_CELL_TEXT, dungeon_art).add_exit(
        Direction::North,
        HALLWAY,
    );
    let hallway = Room::new(HALLWAY, HALLWAY_TEXT, hallway_art).add_exit(
        Direction::South,
        DUNGEON_CELL,
    ).add_exit(Direction::East, THRONE_ROOM);
    let throne_room = Room::new(THRONE_ROOM, THRONE_ROOM_TEXT, throne_art).add_exit(
        Direction::West,
        HALLWAY,
    );
    let mut rooms = Registry::new();
    rooms.insert(dungeon);
    rooms.insert(hallway);
    rooms.insert(throne_room);
    proof {
        castle_has_no_dangling_exits(dungeon_art@, hallway_art@, throne_art@);
    }
    rooms
}

} // verus!
