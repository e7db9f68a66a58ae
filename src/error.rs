//! What can go wrong when the interpreter is asked.
use vstd::prelude::*;
use vstd::utf8::{decode_utf8, valid_utf8};

verus! {

#[verifier::external_type_specification]
#[verifier::external_body]
pub struct ExFromUtf8Error(std::string::FromUtf8Error);

/// Describes the ways in which a query of the interpreter can fail.
#[derive(Debug)]
pub enum Error {
    /// The interpreter could not be run, for the reason given
    IO(String),
    /// What the interpreter printed is not valid UTF-8
    Utf8,
    /// This function is for Python 3 only
    Python3Only,
    /// Other, one-off errors, with reasoning provided as a string
    Other(&'static str),
}

/// The result type denoting a return `T` or an [`Error`].
pub type PyResult<T> = Result<T, Error>;

pub const NO_VERSION: &'static str = "expected --version to return a string resembling 'Python X.Y.Z'";

pub const BAD_SEMVER: &'static str = "unable to parse semver";

pub const PATH_NOT_TEXT: &'static str = "unable to coerce interpreter path to string";

pub const SHORT_ANSWER: &'static str = "the interpreter printed fewer lines than the query asks for";

pub const UNKNOWN_COMMAND: &'static str = "command not found in StaticCommand";

/// The bytes of an outcome.
pub open spec fn bytes_view(r: Result<Vec<u8>, Error>) -> Result<Seq<u8>, Error> {
    match r {
        Ok(v) => Ok(v@),
        Err(e) => Err(e),
    }
}

/// The text of an outcome.
pub open spec fn text_view(r: Result<String, Error>) -> Result<Seq<char>, Error> {
    match r {
        Ok(s) => Ok(s@),
        Err(e) => Err(e),
    }
}

/// The text that the bytes of an outcome encode, where they are valid UTF-8.
pub open spec fn decoded(out: Result<Seq<u8>, Error>) -> Result<Seq<char>, Error> {
    match out {
        Ok(b) => if valid_utf8(b) {
            Ok(decode_utf8(b))
        } else {
            Err(Error::Utf8)
        },
        Err(e) => Err(e),
    }
}

/// Relies on `String::from_utf8`: it accepts exactly the byte sequences that
/// are valid UTF-8, and then holds the characters that they encode.
#[verifier::external_body]
pub(crate) fn utf8_text(bytes: Vec<u8>) -> (r: Result<String, std::string::FromUtf8Error>)
    ensures
        r is Ok <==> valid_utf8(bytes@),
        r matches Ok(s) ==> s@ == decode_utf8(bytes@),
{
    String::from_utf8(bytes)
}

/// Decodes what a program wrote, keeping the error of a program that could
/// not be run.
pub fn decode(out: Result<Vec<u8>, Error>) -> (r: PyResult<String>)
    ensures
        text_view(r) == decoded(bytes_view(out)),
{
    match out {
        Ok(bytes) => match utf8_text(bytes) {
            Ok(s) => Ok(s),
            Err(_) => Err(Error::Utf8),
        },
        Err(e) => Err(e),
    }
}

} // verus!
