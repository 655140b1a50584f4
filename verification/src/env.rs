//! The `env` subcommands: Robotmk environments.

use crate::csmrc::{text_of, Config};
use crate::micromamba::{EXIT_FAILURE, EXIT_SUCCESS};
use vstd::prelude::*;

verus! {

/// What can be done with an environment.
#[derive(Clone, Debug, PartialEq, Eq)]
pub enum Subcommand {
    /// Create an environment
    Create(CreateArgs),
    /// Activate an environment
    Activate,
    /// Deactivate an environment
    Deactivate,
    /// Run an executable in an environment
    Run,
    /// Pack an environment
    Pack,
    /// Unpack an environment
    Unpack,
    /// List existing environments
    List,
    /// Display information about the micromamba setup
    Info,
}

/// The arguments of `env create`.
#[derive(Clone, Debug, PartialEq, Eq)]
pub struct CreateArgs {
    /// The name of the environment, if one was given.
    pub name: Option<String>,
}

/// The first of the three names that is there: the one from the command
/// line, else the one from `robotmk-env.yaml`, else the name of the
/// current directory.
pub open spec fn env_name_from(
    given: Option<Seq<char>>,
    yaml: Option<Seq<char>>,
    directory: Option<Seq<char>>,
) -> Option<Seq<char>> {
    if given is Some {
        given
    } else if yaml is Some {
        yaml
    } else {
        directory
    }
}

/// Settles the name of the environment that is to be created.
///
/// `yaml_name` is the `name` field of `robotmk-env.yaml` in the
/// current directory, where that file can be read and parsed and has the
/// field. `directory_name` is the last component of the current
/// directory, where it has one that is valid Unicode.
pub fn determine_env_name(
    args: CreateArgs,
    yaml_name: Option<String>,
    directory_name: Option<String>,
) -> (name: Option<String>)
    ensures
        text_of(name) == env_name_from(
            text_of(args.name),
            text_of(yaml_name),
            text_of(directory_name),
        ),
{
    match args.name {
        Some(name) => Some(name),
        None => match yaml_name {
            Some(name) => Some(name),
            None => directory_name,
        },
    }
}

/// What an `env` subcommand comes to.
#[derive(Clone, Debug, PartialEq, Eq)]
pub enum Report {
    /// The environment that `create` is about.
    EnvName(String),
    /// `create` was given no name, and none could be made out.
    NoEnvName,
    /// The subcommand does nothing yet but show what it was given.
    Describe(Config, Subcommand),
}

impl Report {
    /// Only a `create` without a name fails.
    pub open spec fn spec_exit_code(&self) -> u8 {
        if self is NoEnvName {
            EXIT_FAILURE
        } else {
            EXIT_SUCCESS
        }
    }

    /// The code with which the program should exit.
    pub fn exit_code(&self) -> (code: u8)
        ensures
            code == self.spec_exit_code(),
    {
        match self {
            Report::NoEnvName => EXIT_FAILURE,
            _ => EXIT_SUCCESS,
        }
    }
}

/// A [`Report`] with the environment's name as a sequence of characters.
pub enum ReportView {
    EnvName(Seq<char>),
    NoEnvName,
    Describe(Config, Subcommand),
}

impl View for Report {
    type V = ReportView;

    open spec fn view(&self) -> ReportView {
        match self {
            Report::EnvName(name) => ReportView::EnvName(name@),
            Report::NoEnvName => ReportView::NoEnvName,
            Report::Describe(config, subcommand) => ReportView::Describe(*config, *subcommand),
        }
    }
}

/// What the subcommand comes to: `create` is about the environment whose
/// name can be made out, and fails where none can; every other subcommand
/// shows what it was given.
pub open spec fn outcome_of(
    config: Config,
    subcommand: Subcommand,
    yaml: Option<Seq<char>>,
    directory: Option<Seq<char>>,
) -> ReportView {
    match subcommand {
        Subcommand::Create(args) => match env_name_from(text_of(args.name), yaml, directory) {
            Some(name) => ReportView::EnvName(name),
            None => ReportView::NoEnvName,
        },
        _ => ReportView::Describe(config, subcommand),
    }
}

/// Carries out an `env` subcommand, as far as that takes no more than a
/// decision: `create` settles the environment's name, and the others
/// hand back what they were given.
pub fn run(
    config: Config,
    subcommand: Subcommand,
    yaml_name: Option<String>,
    directory_name: Option<String>,
) -> (report: Report)
    ensures
        report@ == outcome_of(config, subcommand, text_of(yaml_name), text_of(directory_name)),
{
    match subcommand {
        Subcommand::Create(args) => match determine_env_name(args, yaml_name, directory_name) {
            Some(name) => Report::EnvName(name),
            None => Report::NoEnvName,
        },
        other => Report::Describe(config, other),
    }
}

} // verus!
