//! The command interpreter: from a line of input to what the player asked for.

use vstd::prelude::*;
use vstd::utf8::is_ascii_chars;

use crate::direction::Direction;
use crate::text::{
    after_prefix, all_white_space, ascii_lower, ascii_lowercase, normalize, normalized, same_text,
    strip_prefix, trim, trimmed, trimmed_ignores_padding, trimmed_keeps_bare_text,
    trimmed_white_space_is_empty, white_space,
};

verus! {

/// What the player asked for with one line of input.
#[derive(Debug, PartialEq, Eq)]
pub enum Command {
    /// `quit` or `exit`: end the game.
    Quit,
    /// `look`: examine the room.
    Look,
    /// `help`: show the help text.
    Help,
    /// `map`: show the map.
    ShowMap,
    /// `go` and a direction: walk that way.
    Move(Direction),
    /// Nothing but white space: do nothing.
    NoOp,
    /// Anything else, with the text as it was read: trimmed and in lowercase.
    Unknown(String),
}

/// A command with its text as a sequence of characters.
pub enum CommandView {
    Quit,
    Look,
    Help,
    ShowMap,
    Move(Direction),
    NoOp,
    Unknown(Seq<char>),
}

impl View for Command {
    type V = CommandView;

    open spec fn view(&self) -> CommandView {
        match self {
            Command::Quit => CommandView::Quit,
            Command::Look => CommandView::Look,
            Command::Help => CommandView::Help,
            Command::ShowMap => CommandView::ShowMap,
            Command::Move(direction) => CommandView::Move(*direction),
            Command::NoOp => CommandView::NoOp,
            Command::Unknown(text) => CommandView::Unknown(text@),
        }
    }
}

/// In a text that begins with `go` and a space, what follows the space,
/// trimmed: the word that is to name a direction.
pub open spec fn direction_word(text: Seq<char>) -> Option<Seq<char>> {
    match after_prefix(text, "go "@) {
        Some(rest) => Some(trimmed(rest)),
        None => None,
    }
}

/// The command that a trimmed, lowercase text stands for.
pub open spec fn spec_classify(text: Seq<char>) -> CommandView {
    if text == "quit"@ || text == "exit"@ {
        CommandView::Quit
    } else if text == "look"@ {
        CommandView::Look
    } else if text == "help"@ {
        CommandView::Help
    } else if text == "map"@ {
        CommandView::ShowMap
    } else if text.len() == 0 {
        CommandView::NoOp
    } else {
        match direction_word(text) {
            Some(word) => match Direction::named(word) {
                Some(direction) => CommandView::Move(direction),
                None => CommandView::Unknown(text),
            },
            None => CommandView::Unknown(text),
        }
    }
}

/// The command that a line of input stands for, as it was typed.
pub open spec fn spec_interpret(line: Seq<char>) -> CommandView {
    spec_classify(normalized(line))
}

/// In a text that begins with `go` and a space, the word that follows,
/// without the white space around it.
pub fn go_word(text: &str) -> (word: Option<&str>)
    ensures
        match word {
            Some(word) => direction_word(text@) == Some(word@),
            None => direction_word(text@) is None,
        },
{
    match strip_prefix(text, "go ") {
        Some(rest) => Some(trim(rest)),
        None => None,
    }
}

/// Classifies a text that is already trimmed and in lowercase.
pub fn classify(text: &str) -> (command: Command)
    ensures
        command@ == spec_classify(text@),
{
    if same_text(text, "quit") || same_text(text, "exit") {
        Command::Quit
    } else if same_text(text, "look") {
        Command::Look
    } else if same_text(text, "help") {
        Command::Help
    } else if same_text(text, "map") {
        Command::ShowMap
    } else if text.is_empty() {
        Command::NoOp
    } else {
        let walk = match go_word(text) {
            Some(word) => Direction::from_word(word),
            None => None,
        };
        match walk {
            Some(direction) => Command::Move(direction),
            None => Command::Unknown(text.to_owned()),
        }
    }
}

/// Interprets a line of input: trims it, lowercases it, and classifies what
/// is left.
pub fn interpret(line: &str) -> (command: Command)
    ensures
        command@ == spec_interpret(line@),
{
    let text = normalize(line);
    classify(text.as_str())
}

/// The command for what came from the input: a line, or nothing because the
/// input has ended, which ends the game as `quit` does.
pub fn read_command(line: Option<&str>) -> (command: Command)
    ensures
        command@ == match line {
            Some(line) => spec_interpret(line@),
            None => CommandView::Quit,
        },
{
    match line {
        Some(line) => interpret(line),
        None => Command::Quit,
    }
}

/// `go`, a space and the word of a direction is a move in that direction,
/// for each of the four directions.
pub proof fn go_names_every_direction(direction: Direction)
    ensures
        spec_classify("go "@ + direction.word()) == CommandView::Move(direction),
{
    reveal_strlit("go ");
    reveal_strlit("north");
    reveal_strlit("south");
    reveal_strlit("east");
    reveal_strlit("west");
    let text = "go "@ + direction.word();
    assert("go "@.is_prefix_of(text));
    assert(text.skip(3) =~= direction.word());
    trimmed_keeps_bare_text(direction.word());
    only_go_and_a_direction_is_a_move(text, direction);
}

/// A text is a move in a direction exactly when it is `go`, a space and
/// the word of that direction, with or without more white space around the
/// word. There are no other words for the directions, and no other
/// commands that move.
pub proof fn only_go_and_a_direction_is_a_move(text: Seq<char>, direction: Direction)
    ensures
        spec_classify(text) == CommandView::Move(direction) <==> direction_word(text) == Some(
            direction.word(),
        ),
{
    reveal_strlit("go ");
    reveal_strlit("quit");
    reveal_strlit("exit");
    reveal_strlit("look");
    reveal_strlit("help");
    reveal_strlit("map");
    if direction_word(text) is Some {
        assert(text.len() >= 3 && text[0] == 'g' && text[1] == 'o' && text[2] == ' ') by {
            assert(text.subrange(0, 3) == "go "@);
            assert(text.subrange(0, 3)[0] == text[0]);
            assert(text.subrange(0, 3)[1] == text[1]);
            assert(text.subrange(0, 3)[2] == text[2]);
        }
        direction.word_names_direction(direction_word(text)->0);
    }
}

/// `go` and a direction is a move in that direction however it is
/// capitalised and whatever white space stands before and after it.
pub proof fn interpret_reads_moves_in_any_case(
    before: Seq<char>,
    typed: Seq<char>,
    after: Seq<char>,
    direction: Direction,
)
    requires
        ascii_lowercase(typed) == "go "@ + direction.word(),
        all_white_space(before),
        all_white_space(after),
    ensures
        spec_interpret(before + typed + after) == CommandView::Move(direction),
{
    reveal_strlit("go ");
    reveal_strlit("north");
    reveal_strlit("south");
    reveal_strlit("east");
    reveal_strlit("west");
    let lower = "go "@ + direction.word();
    assert(typed.len() == lower.len());
    assert forall|i: int| 0 <= i < typed.len() implies '\0' <= #[trigger] typed[i] <= '\u{7f}' by {
        assert(ascii_lower(typed[i]) == lower[i]);
        assert(lower[i] <= 'w');
    }
    assert(is_ascii_chars(typed));
    assert(!white_space(typed.first())) by {
        assert(ascii_lower(typed[0]) == lower[0]);
    }
    assert(!white_space(typed.last())) by {
        assert(ascii_lower(typed[typed.len() - 1]) == lower[lower.len() - 1]);
        assert(lower[lower.len() - 1] == direction.word().last());
    }
    trimmed_keeps_bare_text(typed);
    trimmed_ignores_padding(before, typed, after);
    go_names_every_direction(direction);
}

/// A line of nothing but white space is no command.
pub proof fn blank_line_is_no_command(line: Seq<char>)
    requires
        all_white_space(line),
    ensures
        spec_interpret(line) == CommandView::NoOp,
{
    trimmed_white_space_is_empty(line);
    assert(ascii_lowercase(Seq::<char>::empty()) =~= Seq::<char>::empty());
    reveal_strlit("quit");
    reveal_strlit("exit");
    reveal_strlit("look");
    reveal_strlit("help");
    reveal_strlit("map");
}

/// White space before and after a line does not change what the line means.
pub proof fn interpret_ignores_padding(before: Seq<char>, line: Seq<char>, after: Seq<char>)
    requires
        all_white_space(before),
        all_white_space(after),
    ensures
        spec_interpret(before + line + after) == spec_interpret(line),
{
    trimmed_ignores_padding(before, line, after);
}

} // verus!
