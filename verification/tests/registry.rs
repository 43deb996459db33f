use dragons_escape::direction::Direction;
use dragons_escape::registry::Registry;
use dragons_escape::room::Room;

#[test]
fn an_empty_registry_holds_nothing() {
    let rooms = Registry::new();
    assert!(rooms.get("Cellar").is_none());
    assert!(!rooms.contains("Cellar"));
    assert!(!rooms.contains(""));
    assert!(rooms.has_no_dangling_exits());
}

#[test]
fn a_room_is_found_by_its_name() {
    let mut rooms = Registry::new();
    rooms.insert(Room::new("Cellar", "Damp.", "c"));
    rooms.insert(Room::new("Attic", "Dusty.", "a"));
    assert_eq!(rooms.get("Cellar").map(|room| room.description()), Some("Damp."));
    assert_eq!(rooms.get("Attic").map(|room| room.description()), Some("Dusty."));
    assert_eq!(rooms.get("Attic").map(|room| room.name()), Some("Attic"));
    assert!(rooms.contains("Cellar"));
    assert!(rooms.contains("Attic"));
}

#[test]
fn a_name_that_no_room_has_is_not_found() {
    let mut rooms = Registry::new();
    rooms.insert(Room::new("Cellar", "Damp.", "c"));
    assert!(rooms.get("cellar").is_none());
    assert!(rooms.get("Cellar ").is_none());
    assert!(rooms.get("").is_none());
    assert!(!rooms.contains("Attic"));
}

#[test]
fn a_room_under_a_taken_name_replaces_the_other() {
    let mut rooms = Registry::new();
    rooms.insert(Room::new("Cellar", "Damp.", "c").add_exit(Direction::North, "Attic"));
    rooms.insert(Room::new("Attic", "Dusty.", "a"));
    rooms.insert(Room::new("Cellar", "Flooded.", "f"));
    let cellar = rooms.get("Cellar").unwrap();
    assert_eq!(cellar.description(), "Flooded.");
    assert_eq!(cellar.ascii_art(), "f");
    assert_eq!(cellar.exit(Direction::North), None);
    assert_eq!(rooms.get("Attic").unwrap().description(), "Dusty.");
}

#[test]
fn exits_that_lead_to_rooms_of_the_registry_do_not_dangle() {
    let mut rooms = Registry::new();
    rooms.insert(Room::new("Cellar", "", "").add_exit(Direction::North, "Attic"));
    rooms.insert(Room::new("Attic", "", "").add_exit(Direction::South, "Cellar"));
    assert!(rooms.has_no_dangling_exits());
}

#[test]
fn an_exit_to_a_missing_room_dangles() {
    for direction in [Direction::North, Direction::South, Direction::East, Direction::West] {
        let mut rooms = Registry::new();
        rooms.insert(Room::new("Cellar", "", "").add_exit(Direction::North, "Attic"));
        rooms.insert(Room::new("Attic", "", "").add_exit(direction, "Roof"));
        assert!(!rooms.has_no_dangling_exits());
        rooms.insert(Room::new("Roof", "", ""));
        assert!(rooms.has_no_dangling_exits());
    }
}

#[test]
fn an_exit_may_lead_back_to_its_own_room() {
    let mut rooms = Registry::new();
    rooms.insert(Room::new("Loop", "", "").add_exit(Direction::East, "Loop"));
    assert!(rooms.has_no_dangling_exits());
}
