//! The game itself: where the player stands, and how one command changes it.
//!
//! A turn has two halves. First the player arrives in the current room,
//! which the program shows, and which is where the treasure is found. Then
//! the player gives a command, which is carried out. The program around this
//! crate does the showing and the reading; what happens is decided here.

use vstd::prelude::*;
use vstd::string::StringExecFns;

use crate::castle::THRONE_ROOM;
use crate::command::{direction_word, go_word, Command, CommandView};
use crate::direction::Direction;
use crate::registry::{no_dangling_exits, Registry};
use crate::room::{Compass, RoomView};
use crate::text::same_text;

verus! {

/// What the player is told after looking around.
pub const EXAMINED: &'static str = "You examine your surroundings carefully...";

/// What the player is told after walking into a wall.
pub const BLOCKED: &'static str = "You can't go that way!";

/// The state of a game: the room in which the player stands, and whether
/// the treasure has been found.
#[derive(Debug)]
pub struct GameState {
    current_room: String,
    treasure_found: bool,
}

/// The state of a game with the room's name as a sequence of characters.
pub struct GameStateView {
    pub current_room: Seq<char>,
    pub treasure_found: bool,
}

/// What carrying out a command came to, for the program to show.
#[derive(Debug, PartialEq, Eq)]
pub enum Outcome {
    /// The player has quit: the game is over.
    Farewell,
    /// The player has looked around.
    Examined,
    /// The player has asked for the help text.
    HelpShown,
    /// The player has asked for the map.
    MapShown,
    /// The player has walked through the exit in this direction.
    Moved(Direction),
    /// The room has no exit in this direction.
    Blocked(Direction),
    /// The player has given no command.
    Waited,
    /// The player has asked to go somewhere, but this word names no direction.
    UnknownDirection(String),
    /// This text is no command.
    UnknownCommand(String),
    /// The room in which the player stands is not a room of the world.
    NoSuchRoom,
}

/// An outcome with its text as a sequence of characters.
pub enum OutcomeView {
    Farewell,
    Examined,
    HelpShown,
    MapShown,
    Moved(Direction),
    Blocked(Direction),
    Waited,
    UnknownDirection(Seq<char>),
    UnknownCommand(Seq<char>),
    NoSuchRoom,
}

/// The two kinds of mistake that a player can make.
#[derive(Clone, Copy, Debug, PartialEq, Eq, Structural)]
pub enum ErrorKind {
    /// The input is no command at all.
    UnrecognizedCommand,
    /// The input asks to go where there is no going: the word names no
    /// direction, or the room has no exit that way.
    InvalidDirection,
}

impl View for GameState {
    type V = GameStateView;

    closed spec fn view(&self) -> GameStateView {
        GameStateView { current_room: self.current_room@, treasure_found: self.treasure_found }
    }
}

impl View for Outcome {
    type V = OutcomeView;

    open spec fn view(&self) -> OutcomeView {
        match self {
            Outcome::Farewell => OutcomeView::Farewell,
            Outcome::Examined => OutcomeView::Examined,
            Outcome::HelpShown => OutcomeView::HelpShown,
            Outcome::MapShown => OutcomeView::MapShown,
            Outcome::Moved(direction) => OutcomeView::Moved(*direction),
            Outcome::Blocked(direction) => OutcomeView::Blocked(*direction),
            Outcome::Waited => OutcomeView::Waited,
            Outcome::UnknownDirection(word) => OutcomeView::UnknownDirection(word@),
            Outcome::UnknownCommand(text) => OutcomeView::UnknownCommand(text@),
            Outcome::NoSuchRoom => OutcomeView::NoSuchRoom,
        }
    }
}

impl OutcomeView {
    /// The kind of mistake that this outcome reports, if it reports one.
    pub open spec fn error(self) -> Option<ErrorKind> {
        match self {
            OutcomeView::UnknownCommand(_) => Some(ErrorKind::UnrecognizedCommand),
            OutcomeView::UnknownDirection(_) => Some(ErrorKind::InvalidDirection),
            OutcomeView::Blocked(_) => Some(ErrorKind::InvalidDirection),
            _ => None,
        }
    }

    /// The line of text that tells the player of this outcome: what they
    /// did, or what they typed that could not be done, between quotes.
    pub open spec fn message(self) -> Option<Seq<char>> {
        match self {
            OutcomeView::Examined => Some(EXAMINED@),
            OutcomeView::Blocked(_) => Some(BLOCKED@),
            OutcomeView::UnknownDirection(word) => Some("Unknown direction: '"@ + word + "'"@),
            OutcomeView::UnknownCommand(text) => Some("Unknown command: '"@ + text + "'"@),
            _ => None,
        }
    }
}

impl Outcome {
    /// The kind of mistake that this outcome reports, if it reports one.
    pub fn error(&self) -> (kind: Option<ErrorKind>)
        ensures
            kind == self@.error(),
    {
        match self {
            Outcome::UnknownCommand(_) => Some(ErrorKind::UnrecognizedCommand),
            Outcome::UnknownDirection(_) => Some(ErrorKind::InvalidDirection),
            Outcome::Blocked(_) => Some(ErrorKind::InvalidDirection),
            _ => None,
        }
    }

    /// The line of text that tells the player of this outcome, if it takes
    /// no more than a line to tell.
    pub fn message(&self) -> (message: Option<String>)
        ensures
            match message {
                Some(message) => self@.message() == Some(message@),
                None => self@.message() is None,
            },
    {
        match self {
            Outcome::Examined => Some(EXAMINED.to_owned()),
            Outcome::Blocked(_) => Some(BLOCKED.to_owned()),
            Outcome::UnknownDirection(word) => Some(
                "Unknown direction: '".to_owned().concat(word.as_str()).concat("'"),
            ),
            Outcome::UnknownCommand(text) => Some(
                "Unknown command: '".to_owned().concat(text.as_str()).concat("'"),
            ),
            _ => None,
        }
    }
}

/// Whether the player, arriving in the current room, finds the treasure:
/// the room is the throne room, and the treasure has not been found before.
pub open spec fn finds_treasure(world: Map<Seq<char>, RoomView>, state: GameStateView) -> bool {
    world.contains_key(state.current_room) && state.current_room == THRONE_ROOM@
        && !state.treasure_found
}

/// The state after the player has arrived in the current room.
pub open spec fn spec_arrive(world: Map<Seq<char>, RoomView>, state: GameStateView) -> GameStateView {
    GameStateView {
        current_room: state.current_room,
        treasure_found: state.treasure_found || finds_treasure(world, state),
    }
}

/// What carrying out `command` comes to.
pub open spec fn spec_outcome(
    world: Map<Seq<char>, RoomView>,
    state: GameStateView,
    command: CommandView,
) -> OutcomeView {
    match command {
        CommandView::Quit => OutcomeView::Farewell,
        CommandView::Look => OutcomeView::Examined,
        CommandView::Help => OutcomeView::HelpShown,
        CommandView::ShowMap => OutcomeView::MapShown,
        CommandView::NoOp => OutcomeView::Waited,
        CommandView::Move(direction) => if !world.contains_key(state.current_room) {
            OutcomeView::NoSuchRoom
        } else if world[state.current_room].exits.contains_key(direction) {
            OutcomeView::Moved(direction)
        } else {
            OutcomeView::Blocked(direction)
        },
        CommandView::Unknown(text) => match direction_word(text) {
            Some(word) => OutcomeView::UnknownDirection(word),
            None => OutcomeView::UnknownCommand(text),
        },
    }
}

/// The state after `command` has been carried out: the player stands where
/// the exit leads if the command was a move through an exit of the current
/// room, and nothing has changed otherwise.
pub open spec fn spec_apply(
    world: Map<Seq<char>, RoomView>,
    state: GameStateView,
    command: CommandView,
) -> GameStateView {
    match spec_outcome(world, state, command) {
        OutcomeView::Moved(direction) => GameStateView {
            current_room: world[state.current_room].exits[direction],
            treasure_found: state.treasure_found,
        },
        _ => state,
    }
}

/// The state after one whole turn: the player arrives, then commands.
pub open spec fn spec_turn(
    world: Map<Seq<char>, RoomView>,
    state: GameStateView,
    command: CommandView,
) -> GameStateView {
    spec_apply(world, spec_arrive(world, state), command)
}

/// How often the treasure is found in a game that starts in `state` and in
/// which the player gives `commands`, one per turn. A game ends with the
/// first `Quit`.
pub open spec fn treasure_events(
    world: Map<Seq<char>, RoomView>,
    state: GameStateView,
    commands: Seq<CommandView>,
) -> nat
    decreases commands.len(),
{
    if commands.len() == 0 {
        0
    } else {
        let now: nat = if finds_treasure(world, state) {
            1
        } else {
            0
        };
        if commands.first() is Quit {
            now
        } else {
            now + treasure_events(
                world,
                spec_turn(world, state, commands.first()),
                commands.drop_first(),
            )
        }
    }
}

/// Whether the player arrives in the throne room in some turn of the game
/// that starts in `state` and in which the player gives `commands`.
pub open spec fn reaches_throne_room(
    world: Map<Seq<char>, RoomView>,
    state: GameStateView,
    commands: Seq<CommandView>,
) -> bool
    decreases commands.len(),
{
    if commands.len() == 0 {
        false
    } else if world.contains_key(state.current_room) && state.current_room == THRONE_ROOM@ {
        true
    } else if commands.first() is Quit {
        false
    } else {
        reaches_throne_room(world, spec_turn(world, state, commands.first()), commands.drop_first())
    }
}

impl GameState {
    /// A new game, with the player in the room called `start` and the
    /// treasure not found.
    pub fn new(start: &str) -> (state: GameState)
        ensures
            state@ == (GameStateView { current_room: start@, treasure_found: false }),
    {
        GameState { current_room: start.to_owned(), treasure_found: false }
    }

    /// The name of the room in which the player stands.
    pub fn current_room(&self) -> (name: &str)
        ensures
            name@ == self@.current_room,
    {
        self.current_room.as_str()
    }

    /// Whether the treasure has been found.
    pub fn treasure_found(&self) -> (found: bool)
        ensures
            found == self@.treasure_found,
    {
        self.treasure_found
    }

    /// The first half of a turn: the player arrives in the current room.
    /// Says whether the treasure is found now, which happens on the first
    /// arrival in the throne room and never again.
    pub fn arrive(&mut self, rooms: &Registry) -> (found: bool)
        ensures
            found == finds_treasure(rooms@, old(self)@),
            final(self)@ == spec_arrive(rooms@, old(self)@),
    {
        let found = !self.treasure_found && rooms.contains(self.current_room.as_str())
            && same_text(self.current_room.as_str(), THRONE_ROOM);
        if found {
            self.treasure_found = true;
        }
        found
    }

    /// The directions in which the player can leave the current room, or
    /// nothing if that room is not a room of the world.
    pub fn compass(&self, rooms: &Registry) -> (compass: Option<Compass>)
        ensures
            compass is Some == rooms@.contains_key(self@.current_room),
            compass matches Some(compass) ==> forall|direction: Direction|
                compass.points(direction) == rooms@[self@.current_room].exits.contains_key(
                    direction,
                ),
    {
        match rooms.get(self.current_room.as_str()) {
            Some(room) => Some(room.compass()),
            None => None,
        }
    }

    /// The second half of a turn: carries out `command`. Only a move through
    /// an exit of the current room changes the state.
    pub fn apply(&mut self, rooms: &Registry, command: Command) -> (outcome: Outcome)
        ensures
            outcome@ == spec_outcome(rooms@, old(self)@, command@),
            final(self)@ == spec_apply(rooms@, old(self)@, command@),
    {
        match command {
            Command::Quit => Outcome::Farewell,
            Command::Look => Outcome::Examined,
            Command::Help => Outcome::HelpShown,
            Command::ShowMap => Outcome::MapShown,
            Command::NoOp => Outcome::Waited,
            Command::Move(direction) => match rooms.get(self.current_room.as_str()) {
                Some(room) => match room.exit(direction) {
                    Some(name) => {
                        self.current_room = name.to_owned();
                        Outcome::Moved(direction)
                    },
                    None => Outcome::Blocked(direction),
                },
                None => Outcome::NoSuchRoom,
            },
            Command::Unknown(text) => match go_word(text.as_str()) {
                Some(word) => Outcome::UnknownDirection(word.to_owned()),
                None => Outcome::UnknownCommand(text),
            },
        }
    }
}

/// A move in a direction in which the current room has no exit leaves the
/// player where they are, and changes nothing else either.
pub proof fn blocked_move_changes_nothing(
    world: Map<Seq<char>, RoomView>,
    state: GameStateView,
    direction: Direction,
)
    requires
        !world.contains_key(state.current_room) || !world[state.current_room].exits.contains_key(
            direction,
        ),
    ensures
        spec_apply(world, state, CommandView::Move(direction)) == state,
{
}

/// Nothing but `Quit` ends the game: not the treasure, and no mistake.
pub proof fn only_quit_ends_the_game(
    world: Map<Seq<char>, RoomView>,
    state: GameStateView,
    command: CommandView,
)
    ensures
        spec_outcome(world, state, command) == OutcomeView::Farewell <==> command
            == CommandView::Quit,
{
}

/// In a world without dangling exits, a player who stands in a room of the
/// world still does after any command, and the current room is always found.
pub proof fn player_stays_in_the_world(
    world: Map<Seq<char>, RoomView>,
    state: GameStateView,
    command: CommandView,
)
    requires
        no_dangling_exits(world),
        world.contains_key(state.current_room),
    ensures
        world.contains_key(spec_turn(world, state, command).current_room),
        spec_outcome(world, spec_arrive(world, state), command) != OutcomeView::NoSuchRoom,
{
}

/// Once the treasure has been found, it is not found again, whatever the
/// player does.
pub proof fn found_treasure_stays_found(
    world: Map<Seq<char>, RoomView>,
    state: GameStateView,
    commands: Seq<CommandView>,
)
    requires
        state.treasure_found,
    ensures
        treasure_events(world, state, commands) == 0,
    decreases commands.len(),
{
    if commands.len() > 0 && !(commands.first() is Quit) {
        found_treasure_stays_found(
            world,
            spec_turn(world, state, commands.first()),
            commands.drop_first(),
        );
    }
}

/// The treasure is found exactly once in a game in which the player arrives
/// in the throne room, however often they leave and come back, and not at
/// all in any other game.
pub proof fn treasure_is_found_once(
    world: Map<Seq<char>, RoomView>,
    state: GameStateView,
    commands: Seq<CommandView>,
)
    requires
        !state.treasure_found,
    ensures
        treasure_events(world, state, commands) == if reaches_throne_room(world, state, commands) {
            1nat
        } else {
            0nat
        },
    decreases commands.len(),
{
    if commands.len() > 0 && !(commands.first() is Quit) {
        let next = spec_turn(world, state, commands.first());
        if finds_treasure(world, state) {
            found_treasure_stays_found(world, next, commands.drop_first());
        } else {
            treasure_is_found_once(world, next, commands.drop_first());
        }
    }
}

} // verus!
