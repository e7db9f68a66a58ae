//! The interpreter's version, read from its `--version` answer.
use vstd::prelude::*;
use crate::error::{Error, PyResult, BAD_SEMVER, NO_VERSION};
use crate::text::{texts, words, words_of};

verus! {

/// A version of three numeric components.
#[derive(PartialEq, Eq, Structural, Clone, Copy, Debug)]
pub struct SemanticVersion {
    pub major: u64,
    pub minor: u64,
    pub patch: u64,
}

/// The components of the semantic version that `s` spells, if it spells one.
pub uninterp spec fn semver_parse(s: Seq<char>) -> Option<(u64, u64, u64)>;

/// Relies on `semver::Version::parse`: it reads a version from the text
/// alone, and fails on text that spells none.
#[verifier::external_body]
fn parse_semver(s: &str) -> (r: Option<SemanticVersion>)
    ensures
        match r {
            Some(v) => semver_parse(s@) == Some((v.major, v.minor, v.patch)),
            None => semver_parse(s@) is None,
        },
{
    match semver::Version::parse(s) {
        Ok(v) => Some(SemanticVersion { major: v.major, minor: v.minor, patch: v.patch }),
        Err(_) => None,
    }
}

/// The components of a version, or its error.
pub open spec fn components(r: PyResult<SemanticVersion>) -> Result<(u64, u64, u64), Error> {
    match r {
        Ok(v) => Ok((v.major, v.minor, v.patch)),
        Err(e) => Err(e),
    }
}

/// The version in the answer `t` to `--version`: its second word, the first
/// naming the interpreter.
pub open spec fn version_in(t: Seq<char>) -> Result<(u64, u64, u64), Error> {
    let ws = words(t);
    if ws.len() < 2 {
        Err(Error::Other(NO_VERSION))
    } else {
        match semver_parse(ws[1]) {
            Some(v) => Ok(v),
            None => Err(Error::Other(BAD_SEMVER)),
        }
    }
}

/// Reads the version in `text`, the answer to `--version`.
pub fn version_of(text: &str) -> (r: PyResult<SemanticVersion>)
    ensures
        components(r) == version_in(text@),
{
    let ws = words_of(text);
    if ws.len() < 2 {
        return Err(Error::Other(NO_VERSION));
    }
    assert(ws@[1]@ == texts(ws@)[1]);
    match parse_semver(ws[1].as_str()) {
        Some(v) => Ok(v),
        None => Err(Error::Other(BAD_SEMVER)),
    }
}

} // verus!
