//! Splitting an editor's name into its command and arguments.
use crate::error::Error;
use shell_words::ParseError;
use vstd::prelude::*;

verus! {

/// The words that `shell_words::split` makes of a command line, as a POSIX
/// shell would: `None` where the line leaves a quote open.
pub uninterp spec fn words_of(line: Seq<char>) -> Option<Seq<Seq<char>>>;

/// Calls `shell_words::split`, which is not verified here. What it returns
/// depends on the line alone and is known here as [`words_of`]: the
/// words where it succeeds, and nothing where it fails.
#[verifier::external_body]
pub(crate) fn split(line: &str) -> (words: Result<Vec<String>, ParseError>)
    ensures
        match words {
            Ok(words) => words_of(line@) == Some(words.deep_view()),
            Err(_) => words_of(line@) is None,
        },
{
    shell_words::split(line)
}

/// Whether a line names a command: splitting it does not end without a
/// single word.
pub open spec fn names_command(line: Seq<char>) -> bool {
    words_of(line) matches Some(words) ==> words.len() > 0
}

/// Whether `split` is what splitting `line` comes to: the first word as the
/// command and the words after it as its arguments, or the error that a
/// quote was left open.
pub open spec fn is_split_of(line: Seq<char>, split: Result<(String, Vec<String>), Error>) -> bool {
    match words_of(line) {
        Some(words) => split matches Ok((command, args)) && command@ == words[0]
            && args.deep_view() == words.skip(1),
        None => split matches Err(Error::ShellWords(_)),
    }
}

/// Parts the words of a command line into the command, which is the first
/// word, and its arguments, which are the others in their order.
pub fn command_and_args(words: Vec<String>) -> (parts: (String, Vec<String>))
    requires
        words.len() > 0,
    ensures
        parts.0 == words[0],
        parts.1@ == words@.skip(1),
{
    let mut args = words;
    let command = args.remove(0);
    assert(args@ =~= words@.skip(1));
    (command, args)
}

} // verus!
