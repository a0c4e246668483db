//! What the program is asked to do on its command line.

use vstd::prelude::*;

verus! {

/// A command of the program.
#[derive(Debug, Clone, Copy, PartialEq, Eq, Structural)]
pub enum Subcommand {
    /// Replace the references to undeclared entities in the documents.
    Setup,
    /// Enter the terminal browser.
    Start,
}

/// The arguments of the program.
#[derive(Debug, Clone, Copy, PartialEq, Eq, Structural)]
pub struct CliArguments {
    pub subcommand: Option<Subcommand>,
}

impl Default for Subcommand {
    /// The command of a program that is given none: the browser.
    fn default() -> (command: Self)
        ensures
            command == Subcommand::Start,
    {
        Subcommand::Start
    }
}

impl CliArguments {
    /// The command to run: the one that was given, or the browser.
    pub fn command(&self) -> (command: Subcommand)
        ensures
            command == match self.subcommand {
                Some(given) => given,
                None => Subcommand::Start,
            },
    {
        match self.subcommand {
            Some(given) => given,
            None => Subcommand::default(),
        }
    }
}

} // verus!
