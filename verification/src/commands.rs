//! The commands of the program, and which one a command line asks for.

use crate::text::same_text;
use vstd::prelude::*;

verus! {

/// What the program can be asked to do.
#[derive(Clone, Copy, Debug, PartialEq, Eq, Structural)]
pub enum CommandType {
    /// Install what is asked for and run the script.
    Run,
    /// Show how the program is used.
    Help,
}

/// The command that a subcommand's name stands for: "run" runs, and
/// anything else, or no subcommand at all, shows the help.
pub open spec fn command_of(subcommand: Option<Seq<char>>) -> CommandType {
    match subcommand {
        Some(name) => if name == "run"@ {
            CommandType::Run
        } else {
            CommandType::Help
        },
        None => CommandType::Help,
    }
}

/// Finds the command that the command line asks for from the name of its
/// subcommand.
pub fn get_command(subcommand: Option<&str>) -> (command: CommandType)
    ensures
        command == command_of(
            match subcommand {
                Some(name) => Some(name@),
                None => None,
            },
        ),
{
    match subcommand {
        Some(name) => {
            if same_text(name, "run") {
                CommandType::Run
            } else {
                CommandType::Help
            }
        },
        None => CommandType::Help,
    }
}

} // verus!
