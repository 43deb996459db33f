use dragons_escape::command::{classify, go_word, interpret, read_command, Command};
use dragons_escape::direction::Direction;

const ALL: [Direction; 4] = [Direction::North, Direction::South, Direction::East, Direction::West];

fn unknown(text: &str) -> Command {
    Command::Unknown(text.to_string())
}

#[test]
fn go_and_a_direction_is_a_move() {
    for direction in ALL {
        let line = format!("go {}", direction.name());
        assert_eq!(interpret(&line), Command::Move(direction));
        assert_eq!(classify(&line), Command::Move(direction));
    }
}

#[test]
fn a_move_is_read_in_any_case() {
    for direction in ALL {
        let upper = format!("GO {}", direction.name().to_uppercase());
        assert_eq!(interpret(&upper), Command::Move(direction));
        let mixed = format!("Go {}{}", direction.name()[..1].to_uppercase(), &direction.name()[1..]);
        assert_eq!(interpret(&mixed), Command::Move(direction));
    }
    assert_eq!(interpret("gO wEsT"), Command::Move(Direction::West));
}

#[test]
fn a_move_is_read_whatever_white_space_surrounds_it() {
    for direction in ALL {
        let padded = format!(" \t go {}\r\n", direction.name());
        assert_eq!(interpret(&padded), Command::Move(direction));
    }
    assert_eq!(interpret("\u{3000}go east\u{a0}"), Command::Move(Direction::East));
}

#[test]
fn go_north_in_capitals_with_a_space_behind() {
    assert_eq!(interpret("GO NORTH "), Command::Move(Direction::North));
}

#[test]
fn go_up_is_unknown() {
    assert_eq!(interpret("go up"), unknown("go up"));
}

#[test]
fn an_empty_line_is_no_command() {
    assert_eq!(interpret(""), Command::NoOp);
}

#[test]
fn a_line_of_white_space_is_no_command() {
    assert_eq!(interpret("   "), Command::NoOp);
    assert_eq!(interpret("\n"), Command::NoOp);
    assert_eq!(interpret(" \t\r\n"), Command::NoOp);
}

#[test]
fn quit_and_exit_both_quit() {
    assert_eq!(interpret("quit"), Command::Quit);
    assert_eq!(interpret("exit"), Command::Quit);
    assert_eq!(interpret("quit"), interpret("exit"));
    assert_eq!(interpret(" EXIT\n"), Command::Quit);
}

#[test]
fn look_help_and_map_are_commands() {
    assert_eq!(interpret("look"), Command::Look);
    assert_eq!(interpret("help"), Command::Help);
    assert_eq!(interpret("map"), Command::ShowMap);
    assert_eq!(interpret("  Look "), Command::Look);
    assert_eq!(interpret("HELP\n"), Command::Help);
    assert_eq!(interpret("Map"), Command::ShowMap);
}

#[test]
fn lowercase_is_that_of_the_standard_library() {
    assert_eq!(interpret("LOO\u{212a}"), Command::Look);
}

#[test]
fn abbreviations_are_unknown() {
    for line in ["n", "s", "e", "w", "north", "go n", "go nor", "q", "l", "h", "m"] {
        assert_eq!(interpret(line), unknown(line));
    }
}

#[test]
fn unknown_holds_the_text_trimmed_and_in_lowercase() {
    assert_eq!(interpret("  Fly AWAY \n"), unknown("fly away"));
    assert_eq!(interpret("GO UP"), unknown("go up"));
    assert_eq!(interpret("Go Northwest"), unknown("go northwest"));
}

#[test]
fn go_takes_a_space_and_one_word() {
    assert_eq!(interpret("go"), unknown("go"));
    assert_eq!(interpret("go "), unknown("go"));
    assert_eq!(interpret("gonorth"), unknown("gonorth"));
    assert_eq!(interpret("go\tnorth"), unknown("go\tnorth"));
    assert_eq!(interpret("go go north"), unknown("go go north"));
    assert_eq!(interpret("go north east"), unknown("go north east"));
    assert_eq!(interpret("go north!"), unknown("go north!"));
    assert_eq!(interpret("go to north"), unknown("go to north"));
}

#[test]
fn more_white_space_before_the_direction_does_no_harm() {
    assert_eq!(interpret("go  north"), Command::Move(Direction::North));
    assert_eq!(interpret("GO   \t South\n"), Command::Move(Direction::South));
    assert_eq!(interpret("go \u{3000}west"), Command::Move(Direction::West));
    assert_eq!(classify("go east  "), Command::Move(Direction::East));
    assert_eq!(interpret("go    up"), unknown("go    up"));
}

#[test]
fn classify_takes_the_text_as_it_is() {
    assert_eq!(classify("quit"), Command::Quit);
    assert_eq!(classify("exit"), Command::Quit);
    assert_eq!(classify("look"), Command::Look);
    assert_eq!(classify("help"), Command::Help);
    assert_eq!(classify("map"), Command::ShowMap);
    assert_eq!(classify(""), Command::NoOp);
    assert_eq!(classify("go south"), Command::Move(Direction::South));
    assert_eq!(classify("QUIT"), unknown("QUIT"));
    assert_eq!(classify(" quit"), unknown(" quit"));
    assert_eq!(classify("GO NORTH "), unknown("GO NORTH "));
    assert_eq!(classify(" "), unknown(" "));
}

#[test]
fn go_word_is_what_follows_go_and_a_space_trimmed() {
    assert_eq!(go_word("go up"), Some("up"));
    assert_eq!(go_word("go north"), Some("north"));
    assert_eq!(go_word("go "), Some(""));
    assert_eq!(go_word("go    "), Some(""));
    assert_eq!(go_word("go  north"), Some("north"));
    assert_eq!(go_word("go \t up \n"), Some("up"));
    assert_eq!(go_word("go go north"), Some("go north"));
    assert_eq!(go_word("go\tnorth"), None);
    assert_eq!(go_word("go"), None);
    assert_eq!(go_word("gone"), None);
    assert_eq!(go_word("look"), None);
    assert_eq!(go_word(""), None);
}

#[test]
fn the_end_of_the_input_quits() {
    assert_eq!(read_command(None), Command::Quit);
}

#[test]
fn a_line_from_the_input_is_interpreted() {
    assert_eq!(read_command(Some("go west\n")), Command::Move(Direction::West));
    assert_eq!(read_command(Some("\n")), Command::NoOp);
    assert_eq!(read_command(Some("dance\n")), unknown("dance"));
}
