//! The decisions of the `python3-config` command line: which flags it
//! accepts, when it prints its usage, and what it prints for each flag.
use vstd::prelude::*;
use crate::cmdr::Commander;
use crate::error::{text_view, Error, PyResult};
use crate::script::{Query, Target};
use crate::text::{join, join_with, texts};
use crate::{PythonConfig, Version};

verus! {

/// The flags that the command line accepts.
#[derive(PartialEq, Eq, Structural, Clone, Copy, Debug)]
pub enum Flag {
    Prefix,
    ExecPrefix,
    Includes,
    Libs,
    CFlags,
    LdFlags,
    ExtensionSuffix,
    Help,
    AbiFlags,
    ConfigDir,
}

/// How `f` is spelled on the command line.
pub open spec fn flag_name(f: Flag) -> Seq<char> {
    match f {
        Flag::Prefix => "--prefix"@,
        Flag::ExecPrefix => "--exec-prefix"@,
        Flag::Includes => "--includes"@,
        Flag::Libs => "--libs"@,
        Flag::CFlags => "--cflags"@,
        Flag::LdFlags => "--ldflags"@,
        Flag::ExtensionSuffix => "--extension-suffix"@,
        Flag::Help => "--help"@,
        Flag::AbiFlags => "--abiflags"@,
        Flag::ConfigDir => "--configdir"@,
    }
}

/// Every flag, in the order in which the usage line lists them.
pub open spec fn all_flags() -> Seq<Flag> {
    seq![
        Flag::Prefix,
        Flag::ExecPrefix,
        Flag::Includes,
        Flag::Libs,
        Flag::CFlags,
        Flag::LdFlags,
        Flag::ExtensionSuffix,
        Flag::Help,
        Flag::AbiFlags,
        Flag::ConfigDir,
    ]
}

/// The first of `fs` that is spelled `arg`.
pub open spec fn find_flag(fs: Seq<Flag>, arg: Seq<char>) -> Option<Flag>
    decreases fs.len(),
{
    if fs.len() == 0 {
        None
    } else if flag_name(fs[0]) == arg {
        Some(fs[0])
    } else {
        find_flag(fs.drop_first(), arg)
    }
}

/// The flag spelled `arg`, if it is one.
pub open spec fn flag_of(arg: Seq<char>) -> Option<Flag> {
    find_flag(all_flags(), arg)
}

/// The query that answers `f`; help is never answered by one.
pub open spec fn flag_query(f: Flag) -> Query {
    match f {
        Flag::Prefix => Query::Prefix,
        Flag::ExecPrefix => Query::ExecPrefix,
        Flag::Includes => Query::IncludeDirs,
        Flag::Libs => Query::Libs,
        Flag::CFlags => Query::CFlags,
        Flag::LdFlags => Query::LdFlags,
        Flag::ExtensionSuffix => Query::ExtensionSuffix,
        Flag::Help => Query::Prefix,
        Flag::AbiFlags => Query::AbiFlags,
        Flag::ConfigDir => Query::ConfigDir,
    }
}

/// Whether `f` is answered for Python 3 only.
pub open spec fn py3_only(f: Flag) -> bool {
    f == Flag::ExtensionSuffix || f == Flag::AbiFlags || f == Flag::ConfigDir
}

/// Whether `r` is an outcome that answering `f` may have.
pub open spec fn flag_outcome<C: Commander>(
    cfg: &PythonConfig,
    cmdr: &C,
    f: Flag,
    r: Result<Seq<char>, Error>,
) -> bool {
    if py3_only(f) && cfg.python_version() != Version::Three {
        r == Err::<Seq<char>, Error>(Error::Python3Only)
    } else {
        cfg.string_outcome(cmdr, flag_query(f), r)
    }
}

impl Flag {
    /// How the flag is spelled on the command line.
    pub fn name(self) -> (r: &'static str)
        ensures
            r@ == flag_name(self),
    {
        match self {
            Flag::Prefix => "--prefix",
            Flag::ExecPrefix => "--exec-prefix",
            Flag::Includes => "--includes",
            Flag::Libs => "--libs",
            Flag::CFlags => "--cflags",
            Flag::LdFlags => "--ldflags",
            Flag::ExtensionSuffix => "--extension-suffix",
            Flag::Help => "--help",
            Flag::AbiFlags => "--abiflags",
            Flag::ConfigDir => "--configdir",
        }
    }
}

/// Every flag, in the order in which the usage line lists them.
pub fn flags() -> (r: Vec<Flag>)
    ensures
        r@ == all_flags(),
{
    let r = vec![
        Flag::Prefix,
        Flag::ExecPrefix,
        Flag::Includes,
        Flag::Libs,
        Flag::CFlags,
        Flag::LdFlags,
        Flag::ExtensionSuffix,
        Flag::Help,
        Flag::AbiFlags,
        Flag::ConfigDir,
    ];
    assert(r@ =~= all_flags());
    r
}

/// The flag spelled `arg`, if it is one.
pub fn parse_flag(arg: &String) -> (r: Option<Flag>)
    ensures
        r == flag_of(arg@),
{
    let fs = flags();
    let mut i: usize = 0;
    assert(fs@.skip(0) =~= fs@);
    while i < fs.len()
        invariant
            i <= fs@.len(),
            fs@ == all_flags(),
            flag_of(arg@) == find_flag(fs@.skip(i as int), arg@),
        decreases fs@.len() - i,
    {
        let f = fs[i];
        if f.name().to_owned() == *arg {
            return Some(f);
        }
        assert(fs@.skip(i as int).drop_first() =~= fs@.skip(i + 1));
        i = i + 1;
    }
    None
}

/// What the command line does with its arguments.
#[derive(Debug)]
pub enum Plan {
    /// Print the usage line and exit, successfully or not
    Usage(bool),
    /// Print the answer to each flag, in order
    Run(Vec<Flag>),
}

/// Whether every one of `args` is a flag.
pub open spec fn all_known(args: Seq<Seq<char>>) -> bool {
    forall|i: int| 0 <= i < args.len() ==> flag_of(#[trigger] args[i]) is Some
}

/// Whether one of `args` asks for help.
pub open spec fn asks_help(args: Seq<Seq<char>>) -> bool {
    exists|i: int| 0 <= i < args.len() && flag_of(#[trigger] args[i]) == Some(Flag::Help)
}

/// Decides what to do with the arguments `args`, the program's name left
/// out: the usage line, as a failure, where there is no argument or one that
/// is no flag; the usage line, as a success, where one asks for help; else
/// the answers to the flags in the order given.
pub fn plan(args: &Vec<String>) -> (r: Plan)
    ensures
        (args@.len() == 0 || !all_known(texts(args@))) ==> r == Plan::Usage(false),
        args@.len() > 0 && all_known(texts(args@)) && asks_help(texts(args@)) ==> r == Plan::Usage(
            true,
        ),
        args@.len() > 0 && all_known(texts(args@)) && !asks_help(texts(args@)) ==> (r matches Plan::Run(
            fs,
        ) && fs@.len() == args@.len() && forall|i: int|
            0 <= i < args@.len() ==> Some(#[trigger] fs@[i]) == flag_of(args@[i]@)
                && fs@[i] != Flag::Help),
{
    let ghost a = texts(args@);
    let mut fs: Vec<Flag> = Vec::new();
    let mut help = false;
    for i in 0..args.len()
        invariant
            a == texts(args@),
            fs@.len() == i,
            forall|j: int| 0 <= j < i ==> Some(#[trigger] fs@[j]) == flag_of(a[j]),
            help <==> exists|j: int| 0 <= j < i && flag_of(#[trigger] a[j]) == Some(Flag::Help),
    {
        match parse_flag(&args[i]) {
            Some(f) => {
                if f == Flag::Help {
                    help = true;
                }
                fs.push(f);
            },
            None => {
                assert(flag_of(a[i as int]) is None);
                return Plan::Usage(false);
            },
        }
    }
    assert(all_known(a)) by {
        assert forall|j: int| 0 <= j < a.len() implies flag_of(#[trigger] a[j]) is Some by {
            assert(Some(fs@[j]) == flag_of(a[j]));
        }
    }
    if args.len() == 0 {
        return Plan::Usage(false);
    }
    if help {
        return Plan::Usage(true);
    }
    Plan::Run(fs)
}

/// The flags, spelled out and separated by `|`.
pub open spec fn flag_list() -> Seq<char> {
    join(all_flags().map_values(|f: Flag| flag_name(f)), "|"@)
}

/// The usage line of the program `program`, with the flags in square
/// brackets where `bracketed`.
pub open spec fn usage_text(program: Seq<char>, bracketed: bool) -> Seq<char> {
    "Usage: "@ + program + " "@ + if bracketed {
        "["@ + flag_list() + "]"@
    } else {
        flag_list()
    }
}

/// Writes the usage line of the program `program`, with the flags in square
/// brackets where `bracketed`.
pub fn usage(program: &str, bracketed: bool) -> (r: String)
    ensures
        r@ == usage_text(program@, bracketed),
{
    let fs = flags();
    let mut names: Vec<String> = Vec::new();
    for i in 0..fs.len()
        invariant
            fs@ == all_flags(),
            texts(names@) == fs@.take(i as int).map_values(|f: Flag| flag_name(f)),
    {
        let ghost prev = texts(names@);
        names.push(fs[i].name().to_owned());
        assert(texts(names@) =~= prev.push(flag_name(fs@[i as int])));
        assert(fs@.take(i + 1) =~= fs@.take(i as int).push(fs@[i as int]));
        assert(fs@.take(i + 1).map_values(|f: Flag| flag_name(f)) =~= fs@.take(
            i as int,
        ).map_values(|f: Flag| flag_name(f)).push(flag_name(fs@[i as int])));
    }
    assert(fs@.take(fs@.len() as int) =~= fs@);
    let list = join_with(&names, "|");
    let mut r = "Usage: ".to_owned();
    r.append(program);
    r.append(" ");
    if bracketed {
        r.append("[");
        r.append(list.as_str());
        r.append("]");
    } else {
        r.append(list.as_str());
    }
    r
}

/// Where and how the usage line is written, which differs between the
/// systems' own scripts.
#[derive(PartialEq, Eq, Structural, Clone, Copy, Debug)]
pub struct UsagePolicy {
    /// Whether the flags stand in square brackets
    pub bracketed: bool,
    /// Whether the line goes to standard error rather than standard output
    pub to_stderr: bool,
    /// The exit status of a usage line shown for a mistake
    pub failure_code: i32,
}

/// The usage policy of the script installed on `host`: on macOS it writes to
/// standard error with brackets, elsewhere to standard output without.
pub fn policy_for(host: Target) -> (r: UsagePolicy)
    ensures
        r.bracketed == (host == Target::MacOs),
        r.to_stderr == (host == Target::MacOs),
        r.failure_code == 1,
{
    let mac = host == Target::MacOs;
    UsagePolicy { bracketed: mac, to_stderr: mac, failure_code: 1 }
}

/// The line that answers `f`.
pub fn answer<C: Commander>(cfg: &PythonConfig, cmdr: &C, f: Flag) -> (r: PyResult<String>)
    requires
        f != Flag::Help,
    ensures
        flag_outcome(cfg, cmdr, f, text_view(r)),
{
    match f {
        Flag::Prefix => cfg.prefix(cmdr),
        Flag::ExecPrefix => cfg.exec_prefix(cmdr),
        Flag::Includes => cfg.includes(cmdr),
        Flag::Libs => cfg.libs(cmdr),
        Flag::CFlags => cfg.cflags(cmdr),
        Flag::LdFlags => cfg.ldflags(cmdr),
        Flag::ExtensionSuffix => cfg.extension_suffix(cmdr),
        Flag::AbiFlags => cfg.abi_flags(cmdr),
        Flag::ConfigDir => cfg.config_dir(cmdr),
        Flag::Help => vstd::pervasive::unreached(),
    }
}

/// Answers each of `fs` in turn, one line each, until one fails: the lines,
/// and the failure that stopped them, if any.
pub fn answer_all<C: Commander>(cfg: &PythonConfig, cmdr: &C, fs: &Vec<Flag>) -> (r: (
    Vec<String>,
    Option<Error>,
))
    requires
        forall|i: int| 0 <= i < fs@.len() ==> fs@[i] != Flag::Help,
    ensures
        r.0@.len() <= fs@.len(),
        forall|i: int|
            0 <= i < r.0@.len() ==> flag_outcome(cfg, cmdr, fs@[i], Ok(#[trigger] r.0@[i]@)),
        r.1 is None ==> r.0@.len() == fs@.len(),
        r.1 matches Some(e) ==> r.0@.len() < fs@.len() && flag_outcome(
            cfg,
            cmdr,
            fs@[r.0@.len() as int],
            Err(e),
        ),
{
    let mut lines: Vec<String> = Vec::new();
    for i in 0..fs.len()
        invariant
            lines@.len() == i,
            forall|j: int| 0 <= j < fs@.len() ==> fs@[j] != Flag::Help,
            forall|j: int|
                0 <= j < i ==> flag_outcome(cfg, cmdr, fs@[j], Ok(#[trigger] lines@[j]@)),
    {
        match answer(cfg, cmdr, fs[i]) {
            Ok(line) => {
                lines.push(line);
            },
            Err(e) => {
                return (lines, Some(e));
            },
        }
    }
    (lines, None)
}

} // verus!
