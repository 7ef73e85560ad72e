//! Command lines.
//!
//! A command line is split into words by the `shell-words` crate, as a Unix
//! shell would split it. The crate is not verified: the words it finds are
//! named by `command_words`.

use vstd::prelude::*;
use crate::error::{CommandError, TunerError};

verus! {

#[verifier::external_type_specification]
#[verifier::external_body]
pub struct ExParseError(shell_words::ParseError);

/// The words into which the `shell-words` crate splits a command line;
/// `None` where it reports a quote that is not closed.
pub uninterp spec fn command_words(command: Seq<char>) -> Option<Seq<Seq<char>>>;

/// `shell_words::split`. Without proof: what the call returns depends on the
/// command line alone. No more is said of the words.
#[verifier::external_body]
fn split(command: &str) -> (r: Result<Vec<String>, shell_words::ParseError>)
    ensures
        match r {
            Ok(words) => command_words(command@) == Some(words.deep_view()),
            Err(_) => command_words(command@) is None,
        },
{
    shell_words::split(command)
}

/// The program and the arguments of a command line.
pub fn parse_command(command: &str) -> (r: Result<Vec<String>, TunerError>)
    ensures
        match command_words(command@) {
            Some(words) => r matches Ok(list) && list.deep_view() == words,
            None => r == Err::<Vec<String>, TunerError>(
                TunerError::CommandFailed(CommandError::UnableToParse),
            ),
        },
{
    match split(command) {
        Ok(words) => Ok(words),
        Err(_) => Err(TunerError::CommandFailed(CommandError::UnableToParse)),
    }
}

} // verus!
