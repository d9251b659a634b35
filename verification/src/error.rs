//! The error type of this crate.
use shell_words::ParseError;
use vstd::prelude::*;
use vstd::string::to_string_from_display_ensures;
use which::Error as WhichError;

verus! {

/// The error of `shell_words`, which tells that a quote was left open.
#[verifier::external_type_specification]
#[verifier::external_body]
pub struct ExParseError(shell_words::ParseError);

/// The error of `which`, which tells why no executable was found.
#[verifier::external_type_specification]
#[verifier::external_body]
pub struct ExWhichError(WhichError);

/// The error of the operating system.
#[verifier::external_type_specification]
#[verifier::external_body]
pub struct ExIoError(std::io::Error);

/// What can go wrong between the editor's name and the running editor.
#[non_exhaustive]
#[derive(Debug)]
pub enum Error {
    /// The editor could not be started, or could not be waited for.
    Io(std::io::Error),
    /// The editor's name could not be split into words.
    ShellWords(ParseError),
    /// The editor's command was not found on the search path.
    Which(WhichError),
}

impl Error {
    /// The text that says a quote was left open.
    pub open spec fn open_quote_text() -> Seq<char> {
        "missing closing quote"@
    }

    /// Whether `text` is one of the texts that say why a search for a
    /// command failed.
    pub open spec fn is_search_text(text: Seq<char>) -> bool {
        ||| text == "cannot find binary path"@
        ||| text == "no path to search and provided name is not an absolute path"@
        ||| text == "cannot canonicalize path"@
    }

    /// Whether `text` is what the error that `self` holds writes of itself.
    pub open spec fn is_shown_as(&self, text: String) -> bool {
        match self {
            Error::Io(e) => to_string_from_display_ensures::<std::io::Error>(e, text),
            Error::ShellWords(e) => to_string_from_display_ensures::<ParseError>(e, text),
            Error::Which(e) => to_string_from_display_ensures::<WhichError>(e, text),
        }
    }

    /// The message of the error: that of the error it holds, with nothing
    /// added.
    pub fn message(&self) -> (text: String)
        ensures
            self.is_shown_as(text),
            self is ShellWords ==> text@ == Self::open_quote_text(),
            self is Which ==> Self::is_search_text(text@),
    {
        match self {
            Error::Io(e) => e.to_string(),
            Error::ShellWords(e) => parse_error_text(e),
            Error::Which(e) => which_error_text(e),
        }
    }
}

/// Formats a `shell_words::ParseError` by `to_string`, that is with its own
/// `Display`, which writes the same words for every value.
#[verifier::external_body]
fn parse_error_text(e: &ParseError) -> (text: String)
    ensures
        to_string_from_display_ensures::<ParseError>(e, text),
        text@ == Error::open_quote_text(),
{
    e.to_string()
}

/// Formats a `which::Error` by `to_string`, that is with its own `Display`,
/// which writes one of three fixed texts, one for each variant. The variant
/// is not seen here, so the claim is that the text is one of the three.
#[verifier::external_body]
fn which_error_text(e: &WhichError) -> (text: String)
    ensures
        to_string_from_display_ensures::<WhichError>(e, text),
        Error::is_search_text(text@),
{
    e.to_string()
}

} // verus!
