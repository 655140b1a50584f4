//! The user's `~/.mambarc`, which is created once and never overwritten.

use crate::csmrc::Config;
use vstd::prelude::*;

verus! {

/// What is to be done about `~/.mambarc`.
#[derive(Clone, Copy, Debug, PartialEq, Eq, Structural)]
pub enum MambarcPlan {
    /// Say that the file would be created, and leave it at that.
    Announce,
    /// Create the file, unless it has come to exist.
    Create,
}

/// How the attempt to create `~/.mambarc` ended.
#[derive(Clone, Debug, PartialEq, Eq)]
pub enum CreateOutcome {
    /// The file was new and has been written.
    Written,
    /// There is such a file already.
    AlreadyExists,
    /// The file could not be created or written; the reason.
    Failed(String),
}

/// What became of `~/.mambarc`.
#[derive(Clone, Copy, Debug, PartialEq, Eq, Structural)]
pub enum MambarcState {
    /// The file is new, with the default settings.
    Created,
    /// The file was there before, and is as it was.
    Kept,
}

/// No-op mode creates nothing, and says so where there would have been
/// something to create. Otherwise the file is created if it is missing.
pub open spec fn planned(noop_mode: bool, exists: bool) -> MambarcPlan {
    if noop_mode && !exists {
        MambarcPlan::Announce
    } else {
        MambarcPlan::Create
    }
}

/// What is left of the attempt to create the file: that the file exists
/// already is no error.
pub open spec fn settled(outcome: CreateOutcome) -> Result<MambarcState, Seq<char>> {
    match outcome {
        CreateOutcome::Written => Ok(MambarcState::Created),
        CreateOutcome::AlreadyExists => Ok(MambarcState::Kept),
        CreateOutcome::Failed(reason) => Err(reason@),
    }
}

/// The state or the characters of the reason.
pub open spec fn state_view(state: Result<MambarcState, String>) -> Result<
    MambarcState,
    Seq<char>,
> {
    match state {
        Ok(state) => Ok(state),
        Err(reason) => Err(reason@),
    }
}

/// Decides what to do about `~/.mambarc`, given whether it exists.
pub fn create_mambarc(config: &Config, exists: bool) -> (plan: MambarcPlan)
    ensures
        plan == planned(config.noop_mode, exists),
{
    if config.noop_mode && !exists {
        MambarcPlan::Announce
    } else {
        MambarcPlan::Create
    }
}

/// Judges the attempt to create the file.
pub fn settle(outcome: CreateOutcome) -> (state: Result<MambarcState, String>)
    ensures
        state_view(state) == settled(outcome),
{
    match outcome {
        CreateOutcome::Written => Ok(MambarcState::Created),
        CreateOutcome::AlreadyExists => Ok(MambarcState::Kept),
        CreateOutcome::Failed(reason) => Err(reason),
    }
}

} // verus!
