//! The ways in which a request to the tuner manager can fail.

use vstd::prelude::*;

verus! {

/// Why the command of a tuner did not come to run.
#[derive(Clone, Copy, Debug, PartialEq, Eq, Structural)]
pub enum CommandError {
    /// The command line could not be split into words.
    UnableToParse,
    /// The process could not be started.
    UnableToSpawn,
}

#[derive(Clone, Copy, Debug, PartialEq, Eq, Structural)]
pub enum TunerError {
    /// No tuner can serve the request.
    TunerUnavailable,
    /// The subscription belongs to a session that has ended.
    SessionNotFound,
    /// The command of a tuner could not be made from its template.
    TemplateFailed,
    /// The command of a tuner did not come to run.
    CommandFailed(CommandError),
}

} // verus!
