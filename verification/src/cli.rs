//! What cradle is asked to do on its command line.
use std::path::PathBuf;
use vstd::prelude::*;

pub mod client;
pub mod server;

verus! {

/// The parsed command line.
#[derive(Debug)]
pub struct Cli {
    /// Optional configuration file (ports, audio devices, etc).
    pub config_file: Option<PathBuf>,
    /// Verbosity for debugging purposes.
    pub verbosity: Option<Verbosity>,
    /// How cradle runs.
    pub mode: Mode,
}

/// How cradle runs.
#[derive(Debug, PartialEq, Eq, Structural)]
pub enum Mode {
    /// Direct-mode interaction: cradle is an interactive application where the
    /// user chooses songs to be played; exiting cradle stops the audio.
    Direct,
    /// Server-mode operation: cradle accepts commands from a client-mode
    /// instance.
    Server,
    /// Client-mode operation: the user chooses songs, and the client sends
    /// commands to a running server; exiting the client leaves the audio
    /// playing on the server.
    Client,
}

/// How much cradle reports, from least (`Fatal`) to most (`Info`).
#[derive(Copy, Clone, PartialEq, Eq, PartialOrd, Ord, Debug)]
pub enum Verbosity {
    Fatal,
    Error,
    Warning,
    Debug,
    Info,
}

} // verus!
