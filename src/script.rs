//! The scripts run inside the interpreter: a common prelude, then the lines
//! of one query, some of which apply to one host system only.
use vstd::prelude::*;

verus! {

/// Binds what the query lines use: the configuration module, a shorthand for
/// reading a configuration variable, and the version string.
pub const PRELUDE: &'static str = "from __future__ import print_function\nimport sysconfig\npyver = sysconfig.get_config_var('VERSION')\ngetvar = sysconfig.get_config_var\n";

pub const IMPORT_SYS: &'static str = "import sys";

pub const PRINT_PREFIX: &'static str = "print(getvar('prefix'))";

pub const PRINT_EXEC_PREFIX: &'static str = "print(getvar('exec_prefix'))";

pub const PRINT_ABIFLAGS: &'static str = "print(sys.abiflags)";

pub const PRINT_INCLUDE: &'static str = "print(sysconfig.get_path('include'))";

pub const PRINT_PLATINCLUDE: &'static str = "print(sysconfig.get_path('platinclude'))";

pub const PRINT_BASECFLAGS: &'static str = "print(getvar('BASECFLAGS') or '')";

pub const PRINT_CONFIGURE_CFLAGS: &'static str = "print(getvar('CONFIGURE_CFLAGS') or '')";

pub const PRINT_CFLAGS: &'static str = "print(getvar('CFLAGS') or '')";

pub const PRINT_LIBRARY: &'static str = "print(pyver + getattr(sys, 'abiflags', ''))";

pub const PRINT_LIBS: &'static str = "print(getvar('LIBS') or '')";

pub const PRINT_SYSLIBS: &'static str = "print(getvar('SYSLIBS') or '')";

pub const PRINT_SHARED: &'static str = "print(bool(getvar('Py_ENABLE_SHARED')))";

pub const PRINT_LIBPL: &'static str = "print(getvar('LIBPL'))";

pub const PRINT_FRAMEWORK: &'static str = "print(bool(getvar('PYTHONFRAMEWORK')))";

pub const PRINT_LINKFORSHARED: &'static str = "print(getvar('LINKFORSHARED') or '')";

pub const PRINT_EXT_SUFFIX: &'static str = "print(getvar('EXT_SUFFIX'))";

/// The host systems whose configuration variables differ.
#[derive(PartialEq, Eq, Structural, Clone, Copy, Debug)]
pub enum Target {
    /// Linux and its relatives
    Linux,
    /// macOS
    MacOs,
    /// Any other system
    Other,
}

/// One line of a query: for every host, or for one host only.
#[derive(Clone, Copy, Debug)]
pub enum Line {
    Always(&'static str),
    Only(Target, &'static str),
}

/// The text that `l` contributes to a script run on `host`: its statement, or
/// an empty statement where it is meant for another host.
pub open spec fn line_text(l: Line, host: Target) -> Seq<char> {
    match l {
        Line::Always(t) => t@,
        Line::Only(target, t) => if target == host {
            t@
        } else {
            Seq::empty()
        },
    }
}

/// The script made of the prelude and then `lines`, one statement per line.
pub open spec fn script_text(lines: Seq<Seq<char>>) -> Seq<char> {
    PRELUDE@ + crate::text::join(lines, seq!['\n'])
}

/// The question asked of the interpreter for each configuration fact.
#[derive(PartialEq, Eq, Structural, Clone, Copy, Debug)]
pub enum Query {
    Prefix,
    ExecPrefix,
    AbiFlags,
    IncludeDirs,
    CFlags,
    Libs,
    LdFlags,
    ExtensionSuffix,
    ConfigDir,
}

impl Query {
    /// The lines of the query, in the order in which they print.
    pub open spec fn spec_lines(self) -> Seq<Line> {
        match self {
            Query::Prefix => seq![Line::Always(PRINT_PREFIX)],
            Query::ExecPrefix => seq![Line::Always(PRINT_EXEC_PREFIX)],
            Query::AbiFlags => seq![Line::Always(IMPORT_SYS), Line::Always(PRINT_ABIFLAGS)],
            Query::IncludeDirs => seq![Line::Always(PRINT_INCLUDE), Line::Always(PRINT_PLATINCLUDE)],
            Query::CFlags => seq![
                Line::Always(PRINT_INCLUDE),
                Line::Always(PRINT_PLATINCLUDE),
                Line::Only(Target::Linux, PRINT_BASECFLAGS),
                Line::Only(Target::Linux, PRINT_CONFIGURE_CFLAGS),
                Line::Only(Target::MacOs, PRINT_CFLAGS),
            ],
            Query::Libs => seq![
                Line::Always(IMPORT_SYS),
                Line::Always(PRINT_LIBRARY),
                Line::Always(PRINT_LIBS),
                Line::Always(PRINT_SYSLIBS),
            ],
            Query::LdFlags => seq![
                Line::Always(IMPORT_SYS),
                Line::Always(PRINT_LIBRARY),
                Line::Always(PRINT_LIBS),
                Line::Always(PRINT_SYSLIBS),
                Line::Always(PRINT_SHARED),
                Line::Always(PRINT_LIBPL),
                Line::Always(PRINT_FRAMEWORK),
                Line::Always(PRINT_LINKFORSHARED),
                Line::Only(Target::Linux, PRINT_EXEC_PREFIX),
            ],
            Query::ExtensionSuffix => seq![Line::Always(PRINT_EXT_SUFFIX)],
            Query::ConfigDir => seq![Line::Always(PRINT_LIBPL)],
        }
    }

    /// The script that asks this query on `host`.
    pub open spec fn spec_script(self, host: Target) -> Seq<char> {
        script_text(line_texts(self.spec_lines(), host))
    }

    pub fn lines(self) -> (r: Vec<Line>)
        ensures
            r@ == self.spec_lines(),
    {
        let r = match self {
            Query::Prefix => vec![Line::Always(PRINT_PREFIX)],
            Query::ExecPrefix => vec![Line::Always(PRINT_EXEC_PREFIX)],
            Query::AbiFlags => vec![Line::Always(IMPORT_SYS), Line::Always(PRINT_ABIFLAGS)],
            Query::IncludeDirs => vec![Line::Always(PRINT_INCLUDE), Line::Always(PRINT_PLATINCLUDE)],
            Query::CFlags => vec![
                Line::Always(PRINT_INCLUDE),
                Line::Always(PRINT_PLATINCLUDE),
                Line::Only(Target::Linux, PRINT_BASECFLAGS),
                Line::Only(Target::Linux, PRINT_CONFIGURE_CFLAGS),
                Line::Only(Target::MacOs, PRINT_CFLAGS),
            ],
            Query::Libs => vec![
                Line::Always(IMPORT_SYS),
                Line::Always(PRINT_LIBRARY),
                Line::Always(PRINT_LIBS),
                Line::Always(PRINT_SYSLIBS),
            ],
            Query::LdFlags => vec![
                Line::Always(IMPORT_SYS),
                Line::Always(PRINT_LIBRARY),
                Line::Always(PRINT_LIBS),
                Line::Always(PRINT_SYSLIBS),
                Line::Always(PRINT_SHARED),
                Line::Always(PRINT_LIBPL),
                Line::Always(PRINT_FRAMEWORK),
                Line::Always(PRINT_LINKFORSHARED),
                Line::Only(Target::Linux, PRINT_EXEC_PREFIX),
            ],
            Query::ExtensionSuffix => vec![Line::Always(PRINT_EXT_SUFFIX)],
            Query::ConfigDir => vec![Line::Always(PRINT_LIBPL)],
        };
        assert(r@ =~= self.spec_lines());
        r
    }

    /// The script that asks this query on `host`.
    pub fn script(self, host: Target) -> (r: String)
        ensures
            r@ == self.spec_script(host),
    {
        let lines = self.lines();
        let texts = render_all(&lines, host);
        build_script(texts.as_slice())
    }
}

/// The text of `l` in a script run on `host`.
pub fn render(l: Line, host: Target) -> (r: &'static str)
    ensures
        r@ == line_text(l, host),
{
    match l {
        Line::Always(t) => t,
        Line::Only(target, t) => if target == host {
            t
        } else {
            proof {
                reveal_strlit("");
            }
            ""
        },
    }
}

/// The views of a sequence of string slices.
pub open spec fn strs(v: Seq<&str>) -> Seq<Seq<char>> {
    v.map_values(|t: &str| t@)
}

/// The texts of `lines` in a script run on `host`.
pub open spec fn line_texts(lines: Seq<Line>, host: Target) -> Seq<Seq<char>> {
    lines.map_values(|l: Line| line_text(l, host))
}

/// The texts of `lines` in a script run on `host`.
pub fn render_all(lines: &Vec<Line>, host: Target) -> (r: Vec<&'static str>)
    ensures
        strs(r@) == line_texts(lines@, host),
{
    let mut r: Vec<&'static str> = Vec::new();
    for i in 0..lines.len()
        invariant
            strs(r@) == line_texts(lines@.take(i as int), host),
    {
        let t = render(lines[i], host);
        let ghost prev = r@;
        r.push(t);
        assert(lines@.take(i + 1) =~= lines@.take(i as int).push(lines@[i as int]));
        assert(strs(r@) =~= strs(prev).push(t@));
        assert(line_texts(lines@.take(i + 1), host) =~= line_texts(lines@.take(i as int), host).push(
            line_text(lines@[i as int], host),
        ));
    }
    assert(lines@.take(lines@.len() as int) =~= lines@);
    r
}

/// The script made of the prelude and then `lines`, one statement per line.
/// Nothing checks the statements: indentation included, they are the
/// caller's to get right.
pub fn build_script(lines: &[&str]) -> (r: String)
    ensures
        r@ == script_text(strs(lines@)),
{
    let mut r = PRELUDE.to_owned();
    let ghost ls = strs(lines@);
    let mut i: usize = 0;
    while i < lines.len()
        invariant
            i <= lines@.len(),
            ls == strs(lines@),
            r@ == PRELUDE@ + crate::text::join(ls.take(i as int), seq!['\n']),
        decreases lines@.len() - i,
    {
        assert(ls.take(i + 1).drop_last() =~= ls.take(i as int));
        assert(ls.take(i + 1).last() == lines@[i as int]@);
        if i > 0 {
            proof {
                reveal_strlit("\n");
            }
            assert("\n"@ =~= seq!['\n']);
            r.append("\n");
        } else {
            assert(crate::text::join(ls.take(0), seq!['\n']) =~= Seq::<char>::empty());
            assert(ls.take(1) =~= seq![lines@[0]@]);
        }
        r.append(lines[i]);
        assert(r@ =~= PRELUDE@ + crate::text::join(ls.take(i + 1), seq!['\n']));
        i = i + 1;
    }
    assert(ls.take(lines@.len() as int) =~= ls);
    r
}

} // verus!
