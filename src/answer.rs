//! Reads what the interpreter printed for a query and assembles the flags
//! that `python3-config` would print.
use vstd::prelude::*;
use crate::error::{text_view, Error, PyResult, SHORT_ANSWER};
use crate::script::Target;
use crate::text::{
    is_space, join_spaced, lines, lines_of, scan_words, spaced, texts, trim, trimmed, words, words_of,
};

verus! {

/// A flag made of `marker` and the trimmed `value`.
pub open spec fn marked(marker: Seq<char>, value: Seq<char>) -> Seq<char> {
    marker + trimmed(value)
}

/// The flag that adds the include directory `dir`.
pub open spec fn include_flag(dir: Seq<char>) -> Seq<char> {
    marked("-I"@, dir)
}

/// The flag that links the library of the interpreter, given its version
/// and ABI flags.
pub open spec fn library_flag(name: Seq<char>) -> Seq<char> {
    marked("-lpython"@, name)
}

/// The words of each of `ls`, in order.
pub open spec fn flat_words(ls: Seq<Seq<char>>) -> Seq<Seq<char>>
    decreases ls.len(),
{
    if ls.len() == 0 {
        Seq::empty()
    } else {
        flat_words(ls.drop_last()) + words(ls.last())
    }
}

/// The include directories in the answer to the include query: the general
/// one, then the platform-specific one.
pub open spec fn include_dirs(t: Seq<char>) -> Result<Seq<Seq<char>>, Error> {
    let ls = lines(t);
    if ls.len() < 2 {
        Err(Error::Other(SHORT_ANSWER))
    } else {
        Ok(seq![trimmed(ls[0]), trimmed(ls[1])])
    }
}

/// The include flags for the answer to the include query.
pub open spec fn includes_text(t: Seq<char>) -> Result<Seq<char>, Error> {
    let ls = lines(t);
    if ls.len() < 2 {
        Err(Error::Other(SHORT_ANSWER))
    } else {
        Ok(spaced(seq![include_flag(ls[0]), include_flag(ls[1])]))
    }
}

/// The compiler flags for the answer to the compiler-flags query: the two
/// include flags, then the words of each further line.
pub open spec fn cflags_text(t: Seq<char>) -> Result<Seq<char>, Error> {
    let ls = lines(t);
    if ls.len() < 2 {
        Err(Error::Other(SHORT_ANSWER))
    } else {
        Ok(spaced(seq![include_flag(ls[0]), include_flag(ls[1])] + flat_words(ls.skip(2))))
    }
}

/// The library flags for the answer to the libraries query: the library of
/// the interpreter, then the general and the system libraries.
pub open spec fn libs_text(t: Seq<char>) -> Result<Seq<char>, Error> {
    let ls = lines(t);
    if ls.len() < 3 {
        Err(Error::Other(SHORT_ANSWER))
    } else {
        Ok(spaced(seq![library_flag(ls[0])] + words(ls[1]) + words(ls[2])))
    }
}

/// How many lines the answer to the linker-flags query has on `host`.
pub open spec fn ldflags_lines(host: Target) -> int {
    if host == Target::Linux {
        8
    } else {
        7
    }
}

/// Whether a printed truth value is true.
pub open spec fn is_true(value: Seq<char>) -> bool {
    trimmed(value) == "True"@
}

/// The linker flags for the lines `ls` of the answer to the linker-flags
/// query: the directory of the static library where the interpreter has no
/// shared one, the library directory on Linux, the libraries, and the extra
/// link flags where the interpreter is no framework.
pub open spec fn ldflags_words(ls: Seq<Seq<char>>, host: Target) -> Seq<Seq<char>> {
    (if is_true(ls[3]) {
        Seq::empty()
    } else {
        seq![marked("-L"@, ls[4])]
    }) + (if host == Target::Linux {
        seq![marked("-L"@, ls[7]) + "/lib"@]
    } else {
        Seq::empty()
    }) + seq![library_flag(ls[0])] + words(ls[1]) + words(ls[2]) + (if is_true(ls[5]) {
        Seq::empty()
    } else {
        words(ls[6])
    })
}

/// The linker flags for the answer to the linker-flags query on `host`.
pub open spec fn ldflags_text(t: Seq<char>, host: Target) -> Result<Seq<char>, Error> {
    let ls = lines(t);
    if ls.len() < ldflags_lines(host) {
        Err(Error::Other(SHORT_ANSWER))
    } else {
        Ok(spaced(ldflags_words(ls, host)))
    }
}

/// `marker` followed by the trimmed `value`.
fn mark(marker: &str, value: &String) -> (r: String)
    ensures
        r@ == marked(marker@, value@),
{
    let mut r = marker.to_owned();
    let v = trim(value.as_str());
    r.append(v.as_str());
    r
}

/// Adds the words of `s` to `out`.
fn push_words(out: &mut Vec<String>, s: &String)
    ensures
        texts(final(out)@) == texts(old(out)@) + words(s@),
{
    let mut w = words_of(s.as_str());
    let ghost before = out@;
    out.append(&mut w);
    assert(texts(out@) =~= texts(before) + words(s@));
}

/// The include directories in `text`, the answer to the include query.
pub fn include_dirs_of(text: &str) -> (r: PyResult<Vec<String>>)
    ensures
        match r {
            Ok(v) => include_dirs(text@) == Ok::<Seq<Seq<char>>, Error>(texts(v@)),
            Err(e) => include_dirs(text@) == Err::<Seq<Seq<char>>, Error>(e),
        },
{
    let ls = lines_of(text);
    if ls.len() < 2 {
        return Err(Error::Other(SHORT_ANSWER));
    }
    let mut dirs: Vec<String> = Vec::new();
    dirs.push(trim(ls[0].as_str()));
    dirs.push(trim(ls[1].as_str()));
    assert(texts(dirs@) =~= seq![trimmed(lines(text@)[0]), trimmed(lines(text@)[1])]);
    Ok(dirs)
}

/// The include flags for `text`, the answer to the include query.
pub fn includes_of(text: &str) -> (r: PyResult<String>)
    ensures
        text_view(r) == includes_text(text@),
{
    let ls = lines_of(text);
    if ls.len() < 2 {
        return Err(Error::Other(SHORT_ANSWER));
    }
    let mut flags: Vec<String> = Vec::new();
    flags.push(mark("-I", &ls[0]));
    flags.push(mark("-I", &ls[1]));
    assert(texts(flags@) =~= seq![include_flag(lines(text@)[0]), include_flag(lines(text@)[1])]);
    Ok(join_spaced(&flags))
}

/// The compiler flags for `text`, the answer to the compiler-flags query.
pub fn cflags_of(text: &str) -> (r: PyResult<String>)
    ensures
        text_view(r) == cflags_text(text@),
{
    let ls = lines_of(text);
    if ls.len() < 2 {
        return Err(Error::Other(SHORT_ANSWER));
    }
    let ghost l = lines(text@);
    let mut flags: Vec<String> = Vec::new();
    flags.push(mark("-I", &ls[0]));
    flags.push(mark("-I", &ls[1]));
    let ghost head = seq![include_flag(l[0]), include_flag(l[1])];
    assert(texts(flags@) =~= head);
    let mut i: usize = 2;
    assert(l.subrange(2, 2) =~= Seq::<Seq<char>>::empty());
    while i < ls.len()
        invariant
            2 <= i <= ls@.len(),
            l == texts(ls@),
            texts(flags@) == head + flat_words(l.subrange(2, i as int)),
        decreases ls@.len() - i,
    {
        assert(l.subrange(2, i + 1).drop_last() =~= l.subrange(2, i as int));
        push_words(&mut flags, &ls[i]);
        assert(texts(flags@) =~= head + flat_words(l.subrange(2, i + 1)));
        i = i + 1;
    }
    assert(l.subrange(2, l.len() as int) =~= l.skip(2));
    Ok(join_spaced(&flags))
}

/// The library flags for `text`, the answer to the libraries query.
pub fn libs_of(text: &str) -> (r: PyResult<String>)
    ensures
        text_view(r) == libs_text(text@),
{
    let ls = lines_of(text);
    if ls.len() < 3 {
        return Err(Error::Other(SHORT_ANSWER));
    }
    let ghost l = lines(text@);
    let mut flags: Vec<String> = Vec::new();
    flags.push(mark("-lpython", &ls[0]));
    assert(texts(flags@) =~= seq![library_flag(l[0])]);
    push_words(&mut flags, &ls[1]);
    push_words(&mut flags, &ls[2]);
    Ok(join_spaced(&flags))
}

/// Whether the printed truth value `value` is true.
fn truth(value: &String) -> (r: bool)
    ensures
        r == is_true(value@),
{
    let t = trim(value.as_str());
    let yes = "True".to_owned();
    t == yes
}

/// The linker flags for `text`, the answer to the linker-flags query on
/// `host`.
pub fn ldflags_of(text: &str, host: Target) -> (r: PyResult<String>)
    ensures
        text_view(r) == ldflags_text(text@, host),
{
    let ls = lines_of(text);
    let needed: usize = if host == Target::Linux {
        8
    } else {
        7
    };
    if ls.len() < needed {
        return Err(Error::Other(SHORT_ANSWER));
    }
    let ghost l = lines(text@);
    let mut flags: Vec<String> = Vec::new();
    if !truth(&ls[3]) {
        flags.push(mark("-L", &ls[4]));
    }
    if host == Target::Linux {
        let mut dir = mark("-L", &ls[7]);
        dir.append("/lib");
        flags.push(dir);
    }
    flags.push(mark("-lpython", &ls[0]));
    let ghost head = texts(flags@);
    assert(head =~= (if is_true(l[3]) {
        Seq::empty()
    } else {
        seq![marked("-L"@, l[4])]
    }) + (if host == Target::Linux {
        seq![marked("-L"@, l[7]) + "/lib"@]
    } else {
        Seq::empty()
    }) + seq![library_flag(l[0])]);
    push_words(&mut flags, &ls[1]);
    push_words(&mut flags, &ls[2]);
    if !truth(&ls[5]) {
        push_words(&mut flags, &ls[6]);
    }
    assert(texts(flags@) =~= ldflags_words(l, host));
    Ok(join_spaced(&flags))
}

/// Whether no character of `s` is a space.
pub open spec fn spaceless(s: Seq<char>) -> bool {
    forall|i: int| 0 <= i < s.len() ==> !is_space(#[trigger] s[i])
}

/// The words of `s`, each without its first two characters, joined by single
/// spaces: include flags without their `-I` markers.
pub open spec fn unmarked(s: Seq<char>) -> Seq<char> {
    spaced(words(s).map_values(|w: Seq<char>| w.skip(2)))
}

/// Reading on past a word: the word is added to the one in progress.
proof fn lemma_scan_words_append(p: Seq<char>, w: Seq<char>)
    requires
        spaceless(w),
    ensures
        scan_words(p + w) == (scan_words(p).0, scan_words(p).1 + w),
    decreases w.len(),
{
    if w.len() == 0 {
        assert(p + w =~= p);
        assert(scan_words(p).1 + w =~= scan_words(p).1);
    } else {
        let v = w.drop_last();
        assert(spaceless(v));
        lemma_scan_words_append(p, v);
        assert((p + w).drop_last() =~= p + v);
        assert((p + w).last() == w.last());
        assert(scan_words(p).1 + v.push(w.last()) =~= scan_words(p).1 + w);
        assert(v.push(w.last()) =~= w);
    }
}

/// Two words without spaces, joined by a single space, read back as those
/// two words.
proof fn lemma_words_of_two(x: Seq<char>, y: Seq<char>)
    requires
        x.len() > 0,
        y.len() > 0,
        spaceless(x),
        spaceless(y),
    ensures
        words(spaced(seq![x, y])) == seq![x, y],
{
    let e = Seq::<char>::empty();
    assert(seq![x].drop_last() =~= Seq::<Seq<char>>::empty());
    assert(seq![x, y].drop_last() =~= seq![x]);
    assert(crate::text::join(seq![x], seq![' ']) == x);
    assert(spaced(seq![x, y]) == x + seq![' '] + y);
    lemma_scan_words_append(e, x);
    assert(e + x =~= x);
    assert(scan_words(e) == (Seq::<Seq<char>>::empty(), e));
    assert(scan_words(x) == (Seq::<Seq<char>>::empty(), e + x));
    let xs = x + seq![' '];
    assert(xs.drop_last() =~= x);
    assert(scan_words(xs) == (seq![x], e));
    lemma_scan_words_append(xs, y);
    assert(e + y =~= y);
}

/// The include flags, with their `-I` markers stripped, are the include
/// directories joined by a single space, for an answer whose two
/// directories are not empty and hold no spaces.
pub proof fn lemma_includes_unmarked(t: Seq<char>)
    requires
        include_dirs(t) is Ok,
        forall|i: int|
            0 <= i < 2 ==> (#[trigger] include_dirs(t)->Ok_0[i]).len() > 0 && spaceless(
                include_dirs(t)->Ok_0[i],
            ),
    ensures
        includes_text(t) is Ok,
        unmarked(includes_text(t)->Ok_0) == spaced(include_dirs(t)->Ok_0),
{
    reveal_strlit("-I");
    let ds = include_dirs(t)->Ok_0;
    let a = ds[0];
    let b = ds[1];
    let x = "-I"@ + a;
    let y = "-I"@ + b;
    assert(spaceless(x));
    assert(spaceless(y));
    lemma_words_of_two(x, y);
    assert(x.skip(2) =~= a);
    assert(y.skip(2) =~= b);
    assert(seq![x, y].map_values(|w: Seq<char>| w.skip(2)) =~= seq![a, b]);
    assert(ds =~= seq![a, b]);
}

/// Where the interpreter has no shared library and is no framework, the
/// linker flags begin with the directory of its static library, then hold
/// the flag of its library, and end with the extra link flags, in that
/// order.
pub proof fn lemma_ldflags_order(t: Seq<char>, host: Target)
    requires
        lines(t).len() >= ldflags_lines(host),
        !is_true(lines(t)[3]),
        !is_true(lines(t)[5]),
    ensures
        ({
            let ls = lines(t);
            let ws = ldflags_words(ls, host);
            let n = words(ls[6]).len();
            &&& ldflags_text(t, host) == Ok::<Seq<char>, Error>(spaced(ws))
            &&& ws[0] == marked("-L"@, ls[4])
            &&& exists|k: int| 0 < k < ws.len() - n && ws[k] == library_flag(ls[0])
            &&& ws.subrange(ws.len() - n, ws.len() as int) == words(ls[6])
        }),
{
    let ls = lines(t);
    let ws = ldflags_words(ls, host);
    let n = words(ls[6]).len();
    let k: int = if host == Target::Linux {
        2
    } else {
        1
    };
    assert(ws[k] == library_flag(ls[0]));
    assert(ws.subrange(ws.len() - n, ws.len() as int) =~= words(ls[6]));
}

} // verus!
