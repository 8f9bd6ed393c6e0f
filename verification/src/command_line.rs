//! Turning a stored command line into an argument vector.
//!
//! A command is free-form text resolved by POSIX shell lexing rules
//! (quoting and escaping respected). The lexing itself is done by the
//! `shlex` crate behind a trusted wrapper; this module states when lexing
//! yields a launchable argument vector and when the command is rejected.

use vstd::prelude::*;

use crate::errors::ProcessError;

verus! {

/// What shell-lexing a command line yields: its words, or `None` on
/// erroneous input (an unclosed quote, a trailing backslash).
pub uninterp spec fn shell_split(s: Seq<char>) -> Option<Seq<Seq<char>>>;

/// Relies on `shlex::split`: lexes a string by POSIX shell rules; the
/// result is a function of the characters alone, `None` on erroneous
/// input.
#[verifier::external_body]
fn split_words(command: &str) -> (r: Option<Vec<String>>)
    ensures
        r is Some <==> shell_split(command@) is Some,
        r matches Some(v) ==> v.deep_view() == shell_split(command@)->0,
{
    shlex::split(command)
}

/// Lex a command line into the argument vector to launch: the first word
/// is the executable, the rest its arguments. A command that cannot be
/// lexed, or lexes to no words at all, is rejected as a spawn error.
pub fn parse_command(command: &str) -> (r: Result<Vec<String>, ProcessError>)
    ensures
        r is Ok <==> (shell_split(command@) matches Some(ws) && ws.len() > 0),
        r matches Ok(v) ==> v.deep_view() == shell_split(command@)->0,
        r matches Err(e) ==> e is SpawnError,
{
    match split_words(command) {
        Some(words) => {
            if words.len() == 0 {
                Err(ProcessError::SpawnError)
            } else {
                Ok(words)
            }
        },
        None => Err(ProcessError::SpawnError),
    }
}

} // verus!
