//! Finding an editor's command on the search path.
use crate::error::Error;
use crate::words::words_of;
use std::path::PathBuf;
use vstd::prelude::*;
use which::Error as WhichError;

verus! {

/// A path of the file system, as the standard library holds it.
#[verifier::external_type_specification]
#[verifier::external_body]
pub struct ExPathBuf(std::path::PathBuf);

/// Calls `which::which`, which is not verified here: it looks for an
/// executable file named `command` in the directories of the search path,
/// and does not look in the current directory for a name without a path
/// separator. What it finds depends on the file system and on the process,
/// so nothing is claimed of the result.
#[verifier::external_body]
pub(crate) fn find_on_path(command: &str) -> Result<PathBuf, WhichError> {
    which::which(command)
}

/// Whether `located` may be what finding the command of `line` comes to:
/// a path with the arguments of the line, the error that the command was
/// not found, or the error that a quote was left open.
pub open spec fn is_location_of(
    line: Seq<char>,
    located: Result<(PathBuf, Vec<String>), Error>,
) -> bool {
    match words_of(line) {
        Some(words) => match located {
            Ok((_, args)) => args.deep_view() == words.skip(1),
            Err(e) => e is Which,
        },
        None => located matches Err(Error::ShellWords(_)),
    }
}

/// What the search for a command comes to, once it has answered with
/// `found`: the path that it found, with the arguments `args` unchanged, or
/// its error.
pub fn located(found: Result<PathBuf, WhichError>, args: Vec<String>) -> (outcome: Result<
    (PathBuf, Vec<String>),
    Error,
>)
    ensures
        match found {
            Ok(path) => outcome == Ok::<(PathBuf, Vec<String>), Error>((path, args)),
            Err(e) => outcome == Err::<(PathBuf, Vec<String>), Error>(Error::Which(e)),
        },
{
    match found {
        Ok(path) => Ok((path, args)),
        Err(e) => Err(Error::Which(e)),
    }
}

} // verus!
