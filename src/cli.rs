//! The command line, with `info` as the default subcommand.
use vstd::prelude::*;

use crate::info::InfoCommand;

verus! {

/// The subcommands; `info` is also the default.
pub enum Command {
    Info(InfoCommand),
}

/// The command line: an optional subcommand, and the options of the
/// default `info` command.
pub struct Cli {
    pub command: Option<Command>,
    pub info: InfoCommand,
}

impl Cli {
    /// The `info` command to run: the subcommand's when one was given,
    /// else the top-level options.
    pub fn info_command(self) -> (r: InfoCommand)
        ensures
            self.command is Some ==> r == self.command->Some_0->Info_0,
            self.command is None ==> r == self.info,
    {
        match self.command {
            Some(Command::Info(cmd)) => cmd,
            None => self.info,
        }
    }
}

} // verus!
