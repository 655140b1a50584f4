//! The `robot` subcommands: Robotmk robots.

use vstd::prelude::*;

verus! {

/// What can be done with a robot.
#[derive(Clone, Debug, PartialEq, Eq)]
pub enum Subcommand {
    /// Create a Robotmk robot
    New(CreateArgs),
    /// Run a Robotmk robot
    Run,
}

/// The arguments of `robot new`.
#[derive(Clone, Debug, PartialEq, Eq)]
pub struct CreateArgs {
    /// Directory path at which to create the robot
    pub path: String,
}

} // verus!
