use dragons_escape::direction::Direction;
use dragons_escape::room::{Compass, Room};

const ALL: [Direction; 4] = [Direction::North, Direction::South, Direction::East, Direction::West];

#[test]
fn a_new_room_has_its_texts_and_no_exits() {
    let room = Room::new("Cellar", "Damp and dark.", "[ ]");
    assert_eq!(room.name(), "Cellar");
    assert_eq!(room.description(), "Damp and dark.");
    assert_eq!(room.ascii_art(), "[ ]");
    for direction in ALL {
        assert_eq!(room.exit(direction), None);
    }
    assert_eq!(room.compass(), Compass { north: false, south: false, east: false, west: false });
}

#[test]
fn add_exit_opens_one_direction() {
    let room = Room::new("Cellar", "Damp and dark.", "[ ]").add_exit(Direction::East, "Stairs");
    assert_eq!(room.exit(Direction::East), Some("Stairs"));
    assert_eq!(room.exit(Direction::North), None);
    assert_eq!(room.exit(Direction::South), None);
    assert_eq!(room.exit(Direction::West), None);
    assert_eq!(room.name(), "Cellar");
    assert_eq!(room.description(), "Damp and dark.");
    assert_eq!(room.ascii_art(), "[ ]");
}

#[test]
fn add_exit_works_for_each_direction() {
    for direction in ALL {
        let room = Room::new("Hub", "", "").add_exit(direction, direction.name());
        for other in ALL {
            let expected = if other == direction { Some(direction.name()) } else { None };
            assert_eq!(room.exit(other), expected);
            assert_eq!(room.compass().shows(other), other == direction);
        }
    }
}

#[test]
fn a_second_exit_in_one_direction_replaces_the_first() {
    let room = Room::new("Cellar", "", "")
        .add_exit(Direction::North, "Kitchen")
        .add_exit(Direction::North, "Pantry");
    assert_eq!(room.exit(Direction::North), Some("Pantry"));
}

#[test]
fn the_compass_shows_the_open_directions() {
    let room = Room::new("Crossing", "", "")
        .add_exit(Direction::South, "Yard")
        .add_exit(Direction::West, "Well");
    let compass = room.compass();
    assert_eq!(compass, Compass { north: false, south: true, east: false, west: true });
    assert!(!compass.shows(Direction::North));
    assert!(compass.shows(Direction::South));
    assert!(!compass.shows(Direction::East));
    assert!(compass.shows(Direction::West));
}
