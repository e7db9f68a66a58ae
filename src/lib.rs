//! Queries an installed Python interpreter for its build configuration and
//! reports it in the format of the interpreter's own `python3-config` script.
//!
//! A [`PythonConfig`] names the interpreter and the host it runs on. Each of
//! its accessors builds a small script, has a [`Commander`] run the
//! interpreter on it, and turns what the interpreter printed into the flags
//! or paths asked for.
use vstd::prelude::*;
use vstd::slice::slice_to_vec;
use vstd::utf8::{decode_utf8, valid_utf8};

pub mod answer;
pub mod cli;
pub mod cmdr;
pub mod error;
pub mod script;
pub mod text;
pub mod version;

pub use cmdr::{Commander, StaticCommand, SysCommand};
pub use error::{Error, PyResult};
pub use script::{Line, Query, Target};
pub use version::SemanticVersion;

use answer::{
    cflags_of, cflags_text, include_dirs, include_dirs_of, includes_of, includes_text, ldflags_of,
    ldflags_text, libs_of, libs_text,
};
use error::{decode, decoded, text_view, utf8_text, PATH_NOT_TEXT};
use script::strs;
use text::{texts, trim, trimmed};
use version::{components, version_in, version_of};

verus! {

#[verifier::external_type_specification]
#[verifier::external_body]
pub struct ExPathBuf(std::path::PathBuf);

/// The path that the text `s` names.
pub uninterp spec fn path_from(s: Seq<char>) -> std::path::PathBuf;

/// Relies on `PathBuf::from`: the path is made of the text alone.
#[verifier::external_body]
fn to_path(s: String) -> (r: std::path::PathBuf)
    ensures
        r == path_from(s@),
{
    std::path::PathBuf::from(s)
}

/// Selectable Python version
#[derive(PartialEq, Eq, Structural, Clone, Copy, Debug)]
pub enum Version {
    /// Python 3
    Three,
    /// Python 2
    Two,
}

/// Whether the interpreter `program`, run through `cmdr` with `args`, may
/// print `t`, once decoded.
pub open spec fn may_print<C: Commander>(
    cmdr: &C,
    program: Seq<char>,
    args: Seq<Seq<char>>,
    t: Result<Seq<char>, Error>,
) -> bool {
    exists|out: Result<Seq<u8>, Error>| cmdr.answers(program, args, out) && decoded(out) == t
}

/// The arguments that ask the interpreter for its version.
pub open spec fn version_args() -> Seq<Seq<char>> {
    seq!["--version"@]
}

/// What the accessor for `q` makes of the text `s` printed on `host`.
pub open spec fn reading(q: Query, host: Target, s: Seq<char>) -> Result<Seq<char>, Error> {
    match q {
        Query::IncludeDirs => includes_text(s),
        Query::CFlags => cflags_text(s),
        Query::Libs => libs_text(s),
        Query::LdFlags => ldflags_text(s, host),
        _ => Ok(trimmed(s)),
    }
}

/// Exposes Python configuration information
pub struct PythonConfig {
    /// The interpreter program that answers the queries
    cmdr: SysCommand,
    /// The version of the Python interpreter we're using
    ver: Version,
    /// The system that the interpreter runs on
    host: Target,
}

impl PythonConfig {
    /// The interpreter's name or path.
    pub closed spec fn program(&self) -> Seq<char> {
        self.cmdr@
    }

    /// The version of Python that the handle is for.
    pub closed spec fn python_version(&self) -> Version {
        self.ver
    }

    /// The system that the interpreter runs on.
    pub closed spec fn host(&self) -> Target {
        self.host
    }

    /// The arguments that run the script of `q` on this handle's host.
    pub open spec fn query_args(&self, q: Query) -> Seq<Seq<char>> {
        seq!["-c"@, q.spec_script(self.host())]
    }

    /// What the accessor for `q` returns when the interpreter printed `t`.
    pub open spec fn string_answer(&self, q: Query, t: Result<Seq<char>, Error>) -> Result<
        Seq<char>,
        Error,
    > {
        match t {
            Ok(s) => reading(q, self.host(), s),
            Err(e) => Err(e),
        }
    }

    /// Whether `r` is an outcome that the accessor for `q` may have through
    /// `cmdr`: what it makes of a text that the interpreter may print.
    pub open spec fn string_outcome<C: Commander>(
        &self,
        cmdr: &C,
        q: Query,
        r: Result<Seq<char>, Error>,
    ) -> bool {
        exists|t: Result<Seq<char>, Error>|
            may_print(cmdr, self.program(), self.query_args(q), t) && r == self.string_answer(q, t)
    }

    /// Whether `r` is an outcome that the path accessor for `q` may have
    /// through `cmdr`: the path named by an outcome of the accessor for `q`.
    pub open spec fn path_outcome<C: Commander>(
        &self,
        cmdr: &C,
        q: Query,
        r: Result<std::path::PathBuf, Error>,
    ) -> bool {
        exists|s: Result<Seq<char>, Error>|
            self.string_outcome(cmdr, q, s) && r == match s {
                Ok(x) => Ok(path_from(x)),
                Err(e) => Err(e),
            }
    }

    /// Create a new `PythonConfig` that uses the system installed Python 3
    /// interpreter on `host` to query configuration information.
    pub fn new(host: Target) -> (r: Self)
        ensures
            r.program() == "python3"@,
            r.python_version() == Version::Three,
            r.host() == host,
    {
        PythonConfig::version(Version::Three, host)
    }

    /// Create a new `PythonConfig` that uses the system installed Python
    /// of version `version` on `host`.
    pub fn version(version: Version, host: Target) -> (r: Self)
        ensures
            r.program() == (if version == Version::Three {
                "python3"@
            } else {
                "python2"@
            }),
            r.python_version() == version,
            r.host() == host,
    {
        match version {
            Version::Three => Self::with_commander(version, SysCommand::new("python3"), host),
            Version::Two => Self::with_commander(version, SysCommand::new("python2"), host),
        }
    }

    fn with_commander(ver: Version, cmdr: SysCommand, host: Target) -> (r: Self)
        ensures
            r.program() == cmdr@,
            r.python_version() == ver,
            r.host() == host,
    {
        PythonConfig { cmdr, ver, host }
    }

    fn is_py3(&self) -> (r: Result<(), Error>)
        ensures
            r is Ok <==> self.python_version() == Version::Three,
            r matches Err(e) ==> e == Error::Python3Only,
    {
        if self.ver != Version::Three {
            Err(Error::Python3Only)
        } else {
            Ok(())
        }
    }

    /// Create a `PythonConfig` that uses the interpreter at the path whose
    /// encoded bytes are `interpreter`, run through `cmdr` on `host`.
    ///
    /// This fails if the path cannot be represented as a string, or if a
    /// query for the Python version fails. The handle is for Python 3 unless
    /// the version's major component is 2.
    pub fn interpreter<C: Commander>(cmdr: &C, interpreter: &[u8], host: Target) -> (r: PyResult<
        Self,
    >)
        ensures
            !valid_utf8(interpreter@) ==> (r matches Err(e) && e == Error::Other(PATH_NOT_TEXT)),
            valid_utf8(interpreter@) ==> exists|t: Result<Seq<char>, Error>|
                may_print(cmdr, decode_utf8(interpreter@), version_args(), t) && match t {
                    Ok(s) => match version_in(trimmed(s)) {
                        Ok(v) => (r matches Ok(c) && c.program() == decode_utf8(interpreter@)
                            && c.host() == host && c.python_version() == (if v.0 == 2 {
                            Version::Two
                        } else {
                            Version::Three
                        })),
                        Err(e) => (r matches Err(f) && f == e),
                    },
                    Err(e) => (r matches Err(f) && f == e),
                },
    {
        let program = match utf8_text(slice_to_vec(interpreter)) {
            Ok(p) => p,
            Err(_) => return Err(Error::Other(PATH_NOT_TEXT)),
        };
        // Assume Python 3 unless the semver tells us otherwise
        let mut cfg = PythonConfig::with_commander(
            Version::Three,
            SysCommand::new(program.as_str()),
            host,
        );
        let sem = cfg.semantic_version(cmdr);
        let ghost t = choose|t: Result<Seq<char>, Error>|
            may_print(cmdr, cfg.program(), version_args(), t) && components(sem) == match t {
                Ok(s) => version_in(trimmed(s)),
                Err(e) => Err(e),
            };
        let sv = match sem {
            Ok(v) => v,
            Err(e) => return Err(e),
        };
        if sv.major == 2 {
            cfg.ver = Version::Two;
        }
        assert(may_print(cmdr, decode_utf8(interpreter@), version_args(), t));
        Ok(cfg)
    }

    /// Runs the interpreter with `args` and decodes what it printed.
    fn run<C: Commander>(&self, cmdr: &C, args: &[&str]) -> (r: PyResult<String>)
        ensures
            may_print(cmdr, self.program(), strs(args@), text_view(r)),
    {
        let out = self.cmdr.commands(cmdr, args);
        let r = decode(out);
        assert(cmdr.answers(self.program(), strs(args@), error::bytes_view(out)));
        r
    }

    /// Runs the script of `q` and decodes what the interpreter printed.
    fn script<C: Commander>(&self, cmdr: &C, q: Query) -> (r: PyResult<String>)
        ensures
            may_print(cmdr, self.program(), self.query_args(q), text_view(r)),
    {
        let s = q.script(self.host);
        let args: Vec<&str> = vec!["-c", s.as_str()];
        assert(strs(args@) =~= self.query_args(q));
        self.run(cmdr, args.as_slice())
    }

    /// Runs the script of `q` and reads the answer as the string accessor
    /// for `q` does.
    fn answer<C: Commander>(&self, cmdr: &C, q: Query) -> (r: PyResult<String>)
        ensures
            self.string_outcome(cmdr, q, text_view(r)),
    {
        let printed = self.script(cmdr, q);
        let ghost t = text_view(printed);
        let r = match printed {
            Ok(s) => match q {
                Query::IncludeDirs => includes_of(s.as_str()),
                Query::CFlags => cflags_of(s.as_str()),
                Query::Libs => libs_of(s.as_str()),
                Query::LdFlags => ldflags_of(s.as_str(), self.host),
                _ => Ok(trim(s.as_str())),
            },
            Err(e) => Err(e),
        };
        assert(may_print(cmdr, self.program(), self.query_args(q), t) && text_view(r)
            == self.string_answer(q, t));
        r
    }

    /// Returns the Python version string: the trimmed answer of the
    /// interpreter to `--version`, such as `Python 3.7.4`.
    pub fn version_raw<C: Commander>(&self, cmdr: &C) -> (r: PyResult<String>)
        ensures
            exists|t: Result<Seq<char>, Error>|
                may_print(cmdr, self.program(), version_args(), t) && text_view(r) == match t {
                    Ok(s) => Ok(trimmed(s)),
                    Err(e) => Err(e),
                },
    {
        let args: Vec<&str> = vec!["--version"];
        assert(strs(args@) =~= version_args());
        let printed = self.run(cmdr, args.as_slice());
        let ghost t = text_view(printed);
        let r = match printed {
            Ok(s) => Ok(trim(s.as_str())),
            Err(e) => Err(e),
        };
        assert(may_print(cmdr, self.program(), version_args(), t));
        r
    }

    /// Returns the Python version as a semantic version: the second word of
    /// [`version_raw`](#method.version_raw).
    pub fn semantic_version<C: Commander>(&self, cmdr: &C) -> (r: PyResult<SemanticVersion>)
        ensures
            exists|t: Result<Seq<char>, Error>|
                may_print(cmdr, self.program(), version_args(), t) && components(r) == match t {
                    Ok(s) => version_in(trimmed(s)),
                    Err(e) => Err(e),
                },
    {
        let raw = self.version_raw(cmdr);
        let ghost t = choose|t: Result<Seq<char>, Error>|
            may_print(cmdr, self.program(), version_args(), t) && text_view(raw) == match t {
                Ok(s) => Ok(trimmed(s)),
                Err(e) => Err(e),
            };
        let r = match raw {
            Ok(text) => version_of(text.as_str()),
            Err(e) => Err(e),
        };
        assert(may_print(cmdr, self.program(), version_args(), t));
        r
    }

    /// Runs the script of `q` and names the path that the accessor for `q`
    /// returns.
    fn path_answer<C: Commander>(&self, cmdr: &C, q: Query) -> (r: PyResult<std::path::PathBuf>)
        ensures
            self.path_outcome(cmdr, q, r),
    {
        let s = self.answer(cmdr, q);
        let ghost sv = text_view(s);
        let r = match s {
            Ok(x) => Ok(to_path(x)),
            Err(e) => Err(e),
        };
        assert(self.string_outcome(cmdr, q, sv));
        r
    }

    /// Returns the installation prefix of the Python interpreter as a string.
    pub fn prefix<C: Commander>(&self, cmdr: &C) -> (r: PyResult<String>)
        ensures
            self.string_outcome(cmdr, Query::Prefix, text_view(r)),
    {
        self.answer(cmdr, Query::Prefix)
    }

    /// Like [`prefix`](#method.prefix), but returns the installation prefix
    /// as a `PathBuf`.
    pub fn prefix_path<C: Commander>(&self, cmdr: &C) -> (r: PyResult<std::path::PathBuf>)
        ensures
            self.path_outcome(cmdr, Query::Prefix, r),
    {
        self.path_answer(cmdr, Query::Prefix)
    }

    /// Returns the executable path prefix for the Python interpreter as a
    /// string.
    pub fn exec_prefix<C: Commander>(&self, cmdr: &C) -> (r: PyResult<String>)
        ensures
            self.string_outcome(cmdr, Query::ExecPrefix, text_view(r)),
    {
        self.answer(cmdr, Query::ExecPrefix)
    }

    /// Like [`exec_prefix`](#method.exec_prefix), but returns the executable
    /// prefix as a `PathBuf`.
    pub fn exec_prefix_path<C: Commander>(&self, cmdr: &C) -> (r: PyResult<std::path::PathBuf>)
        ensures
            self.path_outcome(cmdr, Query::ExecPrefix, r),
    {
        self.path_answer(cmdr, Query::ExecPrefix)
    }

    /// Returns the include directories for the distribution's headers, each
    /// prefixed with `-I`, separated by a space. The same path may appear
    /// twice.
    pub fn includes<C: Commander>(&self, cmdr: &C) -> (r: PyResult<String>)
        ensures
            self.string_outcome(cmdr, Query::IncludeDirs, text_view(r)),
    {
        self.answer(cmdr, Query::IncludeDirs)
    }

    /// Returns the include directories for the distribution's headers as
    /// paths: the general one, then the platform-specific one. Unlike
    /// [`includes`](#method.includes), they carry no prefix. The same path
    /// may appear twice.
    pub fn include_paths<C: Commander>(&self, cmdr: &C) -> (r: PyResult<Vec<std::path::PathBuf>>)
        ensures
            exists|t: Result<Seq<char>, Error>|
                may_print(cmdr, self.program(), self.query_args(Query::IncludeDirs), t) && match t {
                    Ok(s) => match include_dirs(s) {
                        Ok(ds) => (r matches Ok(v) && v@ == ds.map_values(
                            |d: Seq<char>| path_from(d),
                        )),
                        Err(e) => (r matches Err(f) && f == e),
                    },
                    Err(e) => (r matches Err(f) && f == e),
                },
    {
        let printed = self.script(cmdr, Query::IncludeDirs);
        let ghost t = text_view(printed);
        let r = match printed {
            Ok(s) => match include_dirs_of(s.as_str()) {
                Ok(dirs) => {
                    let mut paths: Vec<std::path::PathBuf> = Vec::new();
                    for i in 0..dirs.len()
                        invariant
                            paths@ == texts(dirs@).take(i as int).map_values(
                                |d: Seq<char>| path_from(d),
                            ),
                    {
                        let ghost prev = paths@;
                        paths.push(to_path(dirs[i].clone()));
                        assert(texts(dirs@).take(i + 1) =~= texts(dirs@).take(i as int).push(
                            dirs@[i as int]@,
                        ));
                        assert(paths@ =~= texts(dirs@).take(i + 1).map_values(
                            |d: Seq<char>| path_from(d),
                        ));
                    }
                    assert(texts(dirs@).take(dirs@.len() as int) =~= texts(dirs@));
                    Ok(paths)
                },
                Err(e) => Err(e),
            },
            Err(e) => Err(e),
        };
        assert(may_print(cmdr, self.program(), self.query_args(Query::IncludeDirs), t));
        r
    }

    /// All the flags useful for C compilation: the include flags (see
    /// [`includes`](#method.includes)), then the compiler flags for this
    /// host, separated by spaces.
    pub fn cflags<C: Commander>(&self, cmdr: &C) -> (r: PyResult<String>)
        ensures
            self.string_outcome(cmdr, Query::CFlags, text_view(r)),
    {
        self.answer(cmdr, Query::CFlags)
    }

    /// Returns the linker flags that name the libraries of this Python
    /// distribution, each with its `-l` or `-framework` prefix.
    pub fn libs<C: Commander>(&self, cmdr: &C) -> (r: PyResult<String>)
        ensures
            self.string_outcome(cmdr, Query::Libs, text_view(r)),
    {
        self.answer(cmdr, Query::Libs)
    }

    /// Returns the linker flags for creating a shared library against this
    /// Python distribution, each with its `-L`, `-l` or `-framework` prefix.
    pub fn ldflags<C: Commander>(&self, cmdr: &C) -> (r: PyResult<String>)
        ensures
            self.string_outcome(cmdr, Query::LdFlags, text_view(r)),
    {
        self.answer(cmdr, Query::LdFlags)
    }

    /// Returns the file extension of this distribution's extension modules.
    ///
    /// This is only available when your interpreter is a Python 3
    /// interpreter; otherwise nothing is run.
    pub fn extension_suffix<C: Commander>(&self, cmdr: &C) -> (r: PyResult<String>)
        ensures
            self.python_version() != Version::Three ==> (r matches Err(e) && e
                == Error::Python3Only),
            self.python_version() == Version::Three ==> self.string_outcome(
                cmdr,
                Query::ExtensionSuffix,
                text_view(r),
            ),
    {
        match self.is_py3() {
            Err(e) => Err(e),
            Ok(_) => self.answer(cmdr, Query::ExtensionSuffix),
        }
    }

    /// The ABI flags specified when building this Python distribution.
    ///
    /// This is only available when your interpreter is a Python 3
    /// interpreter; otherwise nothing is run.
    pub fn abi_flags<C: Commander>(&self, cmdr: &C) -> (r: PyResult<String>)
        ensures
            self.python_version() != Version::Three ==> (r matches Err(e) && e
                == Error::Python3Only),
            self.python_version() == Version::Three ==> self.string_outcome(
                cmdr,
                Query::AbiFlags,
                text_view(r),
            ),
    {
        match self.is_py3() {
            Err(e) => Err(e),
            Ok(_) => self.answer(cmdr, Query::AbiFlags),
        }
    }

    /// The directory of the distribution's own `python3-config` script and
    /// static library.
    ///
    /// This is only available when your interpreter is a Python 3
    /// interpreter; otherwise nothing is run.
    pub fn config_dir<C: Commander>(&self, cmdr: &C) -> (r: PyResult<String>)
        ensures
            self.python_version() != Version::Three ==> (r matches Err(e) && e
                == Error::Python3Only),
            self.python_version() == Version::Three ==> self.string_outcome(
                cmdr,
                Query::ConfigDir,
                text_view(r),
            ),
    {
        match self.is_py3() {
            Err(e) => Err(e),
            Ok(_) => self.answer(cmdr, Query::ConfigDir),
        }
    }

    /// Like [`config_dir`](#method.config_dir), but returns the directory as
    /// a `PathBuf`.
    ///
    /// This is only available when your interpreter is a Python 3
    /// interpreter; otherwise nothing is run.
    pub fn config_dir_path<C: Commander>(&self, cmdr: &C) -> (r: PyResult<std::path::PathBuf>)
        ensures
            self.python_version() != Version::Three ==> (r matches Err(e) && e
                == Error::Python3Only),
            self.python_version() == Version::Three ==> self.path_outcome(
                cmdr,
                Query::ConfigDir,
                r,
            ),
    {
        match self.is_py3() {
            Err(e) => Err(e),
            Ok(_) => self.path_answer(cmdr, Query::ConfigDir),
        }
    }
}

} // verus!
