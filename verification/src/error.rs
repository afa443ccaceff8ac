//! The error type of the library and the text of each of its kinds.

use vstd::prelude::*;
use vstd::string::*;

verus! {

/// `std::io::Error`, carried through as an opaque value: nothing is known of
/// what one holds.
#[verifier::external_type_specification]
#[verifier::external_body]
pub struct ExIoError(std::io::Error);

/// What can go wrong in this library.
///
/// The two kinds are a taxonomy: no function of the crate produces either of
/// them on its own account.
#[derive(Debug)]
pub enum Error {
    /// An I/O failure, with the underlying cause.
    Io(std::io::Error),
    /// An input that was refused, with the reason.
    InvalidInput(String),
}

/// What stands before the cause in the text of an I/O failure.
pub open spec fn io_prefix() -> Seq<char> {
    "IO error: "@
}

/// What stands before the reason in the text of a refused input.
pub open spec fn invalid_input_prefix() -> Seq<char> {
    "Invalid input: "@
}

/// The text of an I/O failure whose cause reads `detail`.
pub open spec fn io_text(detail: Seq<char>) -> Seq<char> {
    io_prefix() + detail
}

/// The text of a refused input whose reason reads `reason`.
pub open spec fn invalid_input_text(reason: Seq<char>) -> Seq<char> {
    invalid_input_prefix() + reason
}

/// Builds the text of an I/O failure from the text of its cause.
pub fn describe_io(detail: &str) -> (text: String)
    ensures
        text@ == io_text(detail@),
{
    let mut text = String::from_str("IO error: ");
    text.append(detail);
    text
}

/// Builds the text of a refused input from its reason.
pub fn describe_invalid_input(reason: &str) -> (text: String)
    ensures
        text@ == invalid_input_text(reason@),
{
    let mut text = String::from_str("Invalid input: ");
    text.append(reason);
    text
}

impl Error {
    /// The text that describes this error.
    ///
    /// A refused input reads `Invalid input: ` followed by its reason. An I/O
    /// failure reads `IO error: ` followed by what the cause says of itself;
    /// that part comes from the operating system and is not pinned down here.
    pub fn message(&self) -> (text: String)
        ensures
            match self {
                Error::InvalidInput(reason) => text@ == invalid_input_text(reason@),
                Error::Io(_) => exists|detail: Seq<char>| text@ == #[trigger] io_text(detail),
            },
    {
        match self {
            Error::InvalidInput(reason) => describe_invalid_input(reason.as_str()),
            Error::Io(cause) => {
                let detail = cause.to_string();
                let text = describe_io(detail.as_str());
                assert(text@ == io_text(detail@));
                text
            },
        }
    }
}

impl From<std::io::Error> for Error {
    /// Wraps an I/O failure.
    fn from(cause: std::io::Error) -> (error: Error) {
        Error::Io(cause)
    }
}

impl vstd::std_specs::convert::FromSpecImpl<std::io::Error> for Error {
    open spec fn obeys_from_spec() -> bool {
        true
    }

    open spec fn from_spec(cause: std::io::Error) -> Error {
        Error::Io(cause)
    }
}

} // verus!
