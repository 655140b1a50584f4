//! The core of `csm`, a launcher that makes sure that the `micromamba`
//! runtime is at hand and runs it.
//!
//! The runtime is taken from `$PATH` if it is there, else from a cache
//! directory, into which it is downloaded first if need be. What is to be
//! tried, in which order, and what each failure means is decided here, and
//! proved; launching processes, reading and writing files and talking to
//! the network is left to the program around this library, the host.
//!
//! - [`micromamba`] holds the run as a whole: one move at a time, each
//!   move a request to the host and the lines to log.
//! - [`download`] holds the part of the run that fills the cache.
//! - [`archive`] takes the binary out of a downloaded archive.
//! - [`platform`] holds what differs between operating systems.
//! - [`host`] is a model of the host. It strings the moves together into
//!   whole runs and states what holds of every run.
//! - [`csmrc`], [`mambarc`], [`env`], [`robot`] and [`util`] hold the
//!   configuration and the decisions of the command line's subcommands.

pub mod archive;
pub mod csmrc;
pub mod download;
pub mod env;
pub mod host;
pub mod mambarc;
pub mod micromamba;
pub mod platform;
pub mod robot;
pub mod util;
