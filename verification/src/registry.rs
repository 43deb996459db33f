//! The room registry: every room of the world, found by its name.

use vstd::prelude::*;

use crate::direction::Direction;
use crate::room::{Room, RoomView};
use crate::text::same_text;

verus! {

/// The rooms of a world, each under its own name. No two rooms of a registry
/// share a name.
#[derive(Debug)]
pub struct Registry {
    rooms: Vec<Room>,
}

/// Every exit of every room of `world` leads to a room of `world`.
pub open spec fn no_dangling_exits(world: Map<Seq<char>, RoomView>) -> bool {
    forall|name: Seq<char>, direction: Direction|
        #![trigger world[name].exits[direction]]
        world.contains_key(name) && world[name].exits.contains_key(direction)
            ==> world.contains_key(world[name].exits[direction])
}

/// No two rooms of the list share a name.
spec fn distinct_names(rooms: Seq<Room>) -> bool {
    forall|i: int, j: int|
        0 <= i < j < rooms.len() ==> (#[trigger] rooms[i])@.name != (#[trigger] rooms[j])@.name
}

/// Some room of the list is called `name`.
spec fn listed(rooms: Seq<Room>, name: Seq<char>) -> bool {
    exists|i: int| 0 <= i < rooms.len() && (#[trigger] rooms[i])@.name == name
}

/// Where the room called `name` stands in the list.
spec fn position(rooms: Seq<Room>, name: Seq<char>) -> int {
    choose|i: int| 0 <= i < rooms.len() && (#[trigger] rooms[i])@.name == name
}

/// The list as a map from each room's name to the room.
spec fn by_name(rooms: Seq<Room>) -> Map<Seq<char>, RoomView> {
    Map::new(|name: Seq<char>| listed(rooms, name), |name: Seq<char>| rooms[position(rooms, name)]@)
}

/// In a list of distinct names, each room is what the map holds under the
/// room's name.
proof fn lemma_by_name(rooms: Seq<Room>, i: int)
    requires
        distinct_names(rooms),
        0 <= i < rooms.len(),
    ensures
        by_name(rooms).contains_key(rooms[i]@.name),
        position(rooms, rooms[i]@.name) == i,
        by_name(rooms)[rooms[i]@.name] == rooms[i]@,
{
    let name = rooms[i]@.name;
    assert(listed(rooms, name));
    let p = position(rooms, name);
    assert(0 <= p < rooms.len() && rooms[p]@.name == name);
    if p < i {
        assert(rooms[p]@.name != rooms[i]@.name);
    } else if i < p {
        assert(rooms[i]@.name != rooms[p]@.name);
    }
}

/// Replacing the room of a name, or adding a room under a new name, is
/// insertion into the map.
proof fn lemma_by_name_insert(before: Seq<Room>, after: Seq<Room>, at: int, room: Room)
    requires
        distinct_names(before),
        0 <= at <= before.len(),
        at < before.len() ==> before[at]@.name == room@.name && after == before.update(at, room),
        at == before.len() ==> !listed(before, room@.name) && after == before.push(room),
    ensures
        distinct_names(after),
        by_name(after) == by_name(before).insert(room@.name, room@),
{
    assert forall|i: int, j: int| 0 <= i < j < after.len() implies (#[trigger] after[i])@.name != (
    #[trigger] after[j])@.name by {
        if j < before.len() {
            assert(before[i]@.name != before[j]@.name);
        } else {
            assert(before[i]@.name != room@.name);
        }
    }
    lemma_by_name(after, at);
    let expected = by_name(before).insert(room@.name, room@);
    assert forall|name: Seq<char>| by_name(after).contains_key(name) implies expected.contains_key(
        name,
    ) && by_name(after)[name] == expected[name] by {
        let p = position(after, name);
        if p != at {
            assert(after[p] == before[p]);
            lemma_by_name(before, p);
            lemma_by_name(after, p);
        }
    }
    assert forall|name: Seq<char>| expected.contains_key(name) implies by_name(after).contains_key(
        name,
    ) by {
        if name != room@.name {
            let p = position(before, name);
            assert(after[p]@.name == name);
        }
    }
    assert(by_name(after) =~= expected);
}

impl View for Registry {
    type V = Map<Seq<char>, RoomView>;

    closed spec fn view(&self) -> Map<Seq<char>, RoomView> {
        by_name(self.rooms@)
    }
}

impl Registry {
    #[verifier::type_invariant]
    spec fn names_are_distinct(self) -> bool {
        distinct_names(self.rooms@)
    }

    /// A registry without rooms.
    pub fn new() -> (registry: Registry)
        ensures
            registry@ == Map::<Seq<char>, RoomView>::empty(),
    {
        let registry = Registry { rooms: Vec::new() };
        assert(registry@ =~= Map::<Seq<char>, RoomView>::empty());
        registry
    }

    /// Where the room called `name` stands among the rooms, if there is one.
    fn find(&self, name: &str) -> (found: Option<usize>)
        ensures
            match found {
                Some(i) => i < self.rooms.len() && self.rooms[i as int]@.name == name@,
                None => !listed(self.rooms@, name@),
            },
    {
        let mut i: usize = 0;
        while i < self.rooms.len()
            invariant
                i <= self.rooms.len(),
                forall|k: int| 0 <= k < i ==> (#[trigger] self.rooms[k])@.name != name@,
            decreases self.rooms.len() - i,
        {
            if same_text(self.rooms[i].name(), name) {
                return Some(i);
            }
            i += 1;
        }
        None
    }

    /// Puts `room` under its name. A room that stood there under the same
    /// name is replaced.
    pub fn insert(&mut self, room: Room)
        ensures
            final(self)@ == old(self)@.insert(room@.name, room@),
    {
        proof {
            use_type_invariant(&*self);
        }
        let found = self.find(room.name());
        let mut rooms = Vec::new();
        std::mem::swap(&mut rooms, &mut self.rooms);
        match found {
            Some(i) => {
                rooms.set(i, room);
            },
            None => {
                rooms.push(room);
            },
        }
        proof {
            let at = match found {
                Some(i) => i as int,
                None => old(self).rooms@.len() as int,
            };
            lemma_by_name_insert(old(self).rooms@, rooms@, at, room);
        }
        self.rooms = rooms;
    }

    /// The room called `name`, if the registry has one.
    pub fn get(&self, name: &str) -> (room: Option<&Room>)
        ensures
            match room {
                Some(room) => self@.contains_key(name@) && room@ == self@[name@],
                None => !self@.contains_key(name@),
            },
    {
        proof {
            use_type_invariant(self);
        }
        match self.find(name) {
            Some(i) => {
                proof {
                    lemma_by_name(self.rooms@, i as int);
                }
                Some(&self.rooms[i])
            },
            None => None,
        }
    }

    /// Whether the registry has a room called `name`.
    pub fn contains(&self, name: &str) -> (found: bool)
        ensures
            found == self@.contains_key(name@),
    {
        self.find(name).is_some()
    }

    /// Whether the exit of `room` in `direction`, if it has one, leads to a
    /// room of the registry.
    fn leads_inside(&self, room: &Room, direction: Direction) -> (inside: bool)
        ensures
            inside == (room@.exits.contains_key(direction) ==> self@.contains_key(
                room@.exits[direction],
            )),
    {
        match room.exit(direction) {
            Some(target) => self.contains(target),
            None => true,
        }
    }

    /// Whether every exit of every room leads to a room of the registry.
    pub fn has_no_dangling_exits(&self) -> (whole: bool)
        ensures
            whole == no_dangling_exits(self@),
    {
        proof {
            use_type_invariant(self);
        }
        let mut i: usize = 0;
        while i < self.rooms.len()
            invariant
                i <= self.rooms.len(),
                distinct_names(self.rooms@),
                forall|k: int, direction: Direction|
                    #![trigger self.rooms[k]@.exits[direction]]
                    0 <= k < i && self.rooms[k]@.exits.contains_key(direction)
                        ==> self@.contains_key(self.rooms[k]@.exits[direction]),
            decreases self.rooms.len() - i,
        {
            let room = &self.rooms[i];
            let north = self.leads_inside(room, Direction::North);
            let south = self.leads_inside(room, Direction::South);
            let east = self.leads_inside(room, Direction::East);
            let west = self.leads_inside(room, Direction::West);
            if !(north && south && east && west) {
                proof {
                    lemma_by_name(self.rooms@, i as int);
                    let name = room@.name;
                    let direction = if !north {
                        Direction::North
                    } else if !south {
                        Direction::South
                    } else if !east {
                        Direction::East
                    } else {
                        Direction::West
                    };
                    assert(self@.contains_key(name) && self@[name].exits.contains_key(direction)
                        && !self@.contains_key(self@[name].exits[direction]));
                }
                return false;
            }
            i += 1;
        }
        proof {
            assert forall|name: Seq<char>, direction: Direction|
                #![trigger self@[name].exits[direction]]
                self@.contains_key(name) && self@[name].exits.contains_key(
                    direction,
                ) implies self@.contains_key(self@[name].exits[direction]) by {
                let p = position(self.rooms@, name);
                assert(self@[name] == self.rooms[p]@);
                assert(self@.contains_key(self.rooms[p]@.exits[direction]));
            }
        }
        true
    }
}

} // verus!
