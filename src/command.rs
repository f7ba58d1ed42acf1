use vstd::prelude::*;
use vstd::string::StringExecFns;

verus! {

/// A command word handed to the picker from outside.
#[derive(PartialEq, Eq, Structural, Clone, Copy, Debug)]
pub enum Command {
    Pick,
    Place,
    Chuck,
    Toss,
    Spike,
}

/// Why a command request was turned down.
#[derive(PartialEq, Eq, Structural, Clone, Copy, Debug)]
pub enum CommandError {
    /// The word is none of `pick`, `place`, `chuck`, `toss`, `spike`.
    UnknownCommand,
    /// The host denied the permissions; the picker takes no more work.
    PermissionDenied,
}

/// The command that a word names, if any.
pub open spec fn command_of(word: Seq<char>) -> Option<Command> {
    if word == "pick"@ {
        Some(Command::Pick)
    } else if word == "place"@ {
        Some(Command::Place)
    } else if word == "chuck"@ {
        Some(Command::Chuck)
    } else if word == "toss"@ {
        Some(Command::Toss)
    } else if word == "spike"@ {
        Some(Command::Spike)
    } else {
        None
    }
}

impl Command {
    /// Reads a command word; only the five lowercase words are accepted.
    pub fn from_word(word: &String) -> (r: Result<Command, CommandError>)
        ensures
            command_of(word@) matches Some(c) ==> r == Ok::<Command, CommandError>(c),
            command_of(word@) is None ==> r == Err::<Command, CommandError>(
                CommandError::UnknownCommand,
            ),
    {
        if *word == <String as StringExecFns>::from_str("pick") {
            Ok(Command::Pick)
        } else if *word == <String as StringExecFns>::from_str("place") {
            Ok(Command::Place)
        } else if *word == <String as StringExecFns>::from_str("chuck") {
            Ok(Command::Chuck)
        } else if *word == <String as StringExecFns>::from_str("toss") {
            Ok(Command::Toss)
        } else if *word == <String as StringExecFns>::from_str("spike") {
            Ok(Command::Spike)
        } else {
            Err(CommandError::UnknownCommand)
        }
    }
}

} // verus!
