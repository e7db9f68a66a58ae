//! A commander runs the interpreter: a real one in the application, or one
//! with fixed answers for tests.
use vstd::prelude::*;
use vstd::string::StrSliceExecFns;
use vstd::utf8::encode_utf8;
use crate::error::{bytes_view, Error, UNKNOWN_COMMAND};
use crate::script::strs;
use crate::text::{join_spaced, spaced, texts};

verus! {

/// Runs a program with arguments and hands back what it wrote.
pub trait Commander {
    /// Whether running `program` with `args` may come out as `out` under this
    /// commander. Unless an implementation says more, any outcome may.
    open spec fn answers(
        &self,
        program: Seq<char>,
        args: Seq<Seq<char>>,
        out: Result<Seq<u8>, Error>,
    ) -> bool {
        true
    }

    /// Runs `program` with `args` until it exits and returns the bytes that it
    /// wrote to standard output, whatever its exit status. Fails only where
    /// the program cannot be run.
    fn commands(&self, program: &str, args: &[&str]) -> (r: Result<Vec<u8>, Error>)
        ensures
            self.answers(program@, strs(args@), bytes_view(r)),
    ;
}

/// The command line that runs `program` with `args`: the words separated by
/// single spaces.
pub open spec fn command_line(program: Seq<char>, args: Seq<Seq<char>>) -> Seq<char> {
    spaced(seq![program] + args)
}

/// Builds the command line that runs `program` with `args`.
pub fn command_line_of(program: &str, args: &[&str]) -> (r: String)
    ensures
        r@ == command_line(program@, strs(args@)),
{
    let mut parts: Vec<String> = Vec::new();
    parts.push(program.to_owned());
    for i in 0..args.len()
        invariant
            texts(parts@) == seq![program@] + strs(args@).take(i as int),
    {
        let ghost prev = texts(parts@);
        parts.push(args[i].to_owned());
        assert(texts(parts@) =~= prev.push(args@[i as int]@));
        assert(strs(args@).take(i + 1) =~= strs(args@).take(i as int).push(args@[i as int]@));
    }
    assert(strs(args@).take(args@.len() as int) =~= strs(args@));
    join_spaced(&parts)
}

/// The interpreter program that a handle runs, as its name or path.
pub struct SysCommand {
    program: String,
}

impl View for SysCommand {
    type V = Seq<char>;

    closed spec fn view(&self) -> Seq<char> {
        self.program@
    }
}

impl SysCommand {
    /// Names the program to run.
    pub fn new(program: &str) -> (r: SysCommand)
        ensures
            r@ == program@,
    {
        SysCommand { program: program.to_owned() }
    }

    /// The program's name or path.
    pub fn program(&self) -> (r: &str)
        ensures
            r@ == self@,
    {
        self.program.as_str()
    }

    /// Runs the program with `args` through `cmdr`.
    pub fn commands<C: Commander>(&self, cmdr: &C, args: &[&str]) -> (r: Result<Vec<u8>, Error>)
        ensures
            cmdr.answers(self@, strs(args@), bytes_view(r)),
    {
        cmdr.commands(self.program.as_str(), args)
    }
}

/// The answer that `mapping` holds for `key`: that of its first entry with
/// this key.
pub open spec fn lookup(mapping: Seq<(Seq<char>, Seq<char>)>, key: Seq<char>) -> Option<Seq<char>>
    decreases mapping.len(),
{
    if mapping.len() == 0 {
        None
    } else if mapping[0].0 == key {
        Some(mapping[0].1)
    } else {
        lookup(mapping.drop_first(), key)
    }
}

/// Used for testing with known inputs producing known responses: each
/// command line, as `command_line` writes it, is mapped to what the program
/// prints for it.
pub struct StaticCommand {
    mapping: Vec<(String, String)>,
}

/// The views of command lines and their answers.
pub open spec fn pairs(m: Seq<(String, String)>) -> Seq<(Seq<char>, Seq<char>)> {
    m.map_values(|p: (String, String)| (p.0@, p.1@))
}

impl View for StaticCommand {
    type V = Seq<(Seq<char>, Seq<char>)>;

    closed spec fn view(&self) -> Seq<(Seq<char>, Seq<char>)> {
        pairs(self.mapping@)
    }
}

impl StaticCommand {
    /// Answers each command line of `mapping` with the text paired with it.
    pub fn new(mapping: Vec<(String, String)>) -> (r: StaticCommand)
        ensures
            r@ == pairs(mapping@),
    {
        StaticCommand { mapping }
    }

    /// The answer held for the command line `key`.
    pub fn answer(&self, key: &String) -> (r: Option<&String>)
        ensures
            match r {
                Some(t) => lookup(self@, key@) == Some(t@),
                None => lookup(self@, key@) is None,
            },
    {
        let mut i: usize = 0;
        assert(self@.skip(0) =~= self@);
        while i < self.mapping.len()
            invariant
                i <= self.mapping@.len(),
                lookup(self@, key@) == lookup(self@.skip(i as int), key@),
            decreases self.mapping@.len() - i,
        {
            assert(self@.skip(i as int)[0] == (self.mapping@[i as int].0@, self.mapping@[i as int].1@));
            if self.mapping[i].0 == *key {
                return Some(&self.mapping[i].1);
            }
            assert(self@.skip(i as int).drop_first() =~= self@.skip(i + 1));
            i = i + 1;
        }
        None
    }
}

impl Commander for StaticCommand {
    open spec fn answers(
        &self,
        program: Seq<char>,
        args: Seq<Seq<char>>,
        out: Result<Seq<u8>, Error>,
    ) -> bool {
        out == match lookup(self@, command_line(program, args)) {
            Some(t) => Ok(encode_utf8(t)),
            None => Err(Error::Other(UNKNOWN_COMMAND)),
        }
    }

    fn commands(&self, program: &str, args: &[&str]) -> (r: Result<Vec<u8>, Error>) {
        let key = command_line_of(program, args);
        match self.answer(&key) {
            Some(t) => Ok(t.as_str().as_bytes_vec()),
            None => Err(Error::Other(UNKNOWN_COMMAND)),
        }
    }
}

} // verus!
