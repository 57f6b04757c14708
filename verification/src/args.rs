//! The bot's command-line switches, as plain values.
use vstd::prelude::*;

verus! {

/// What the bot was started with.
#[derive(Debug, Clone, Copy, PartialEq, Eq, Structural)]
pub struct Args {
    /// Delete every registered command, global and in the development guild,
    /// then exit.
    pub clear_commands: bool,
    /// Register the commands in the development guild only.
    pub local: bool,
}

} // verus!
