use python_config::answer::{cflags_of, include_dirs_of, includes_of, ldflags_of, libs_of};
use python_config::error::decode;
use python_config::script::{build_script, render, PRELUDE};
use python_config::text::{join_spaced, join_with, lines_of, trim, words_of};
use python_config::version::version_of;
use python_config::{Error, Line, Query, Target};

#[test]
fn trim_removes_surrounding_spaces() {
    assert_eq!(trim("  /usr/local \r\n"), "/usr/local");
    assert_eq!(trim(" \t\n"), "");
    assert_eq!(trim(""), "");
    assert_eq!(trim("a b"), "a b");
}

#[test]
fn lines_split_at_line_feeds() {
    assert_eq!(lines_of("a\nb\n"), vec!["a".to_string(), "b".to_string()]);
    assert_eq!(lines_of("a\n\nb"), vec!["a".to_string(), "".to_string(), "b".to_string()]);
    assert_eq!(lines_of(""), Vec::<String>::new());
    assert_eq!(lines_of("\n"), vec!["".to_string()]);
}

#[test]
fn words_skip_runs_of_spaces() {
    assert_eq!(
        words_of("  -ldl \t -lm\n"),
        vec!["-ldl".to_string(), "-lm".to_string()]
    );
    assert_eq!(words_of("   "), Vec::<String>::new());
}

#[test]
fn joins() {
    let ws = vec!["a".to_string(), "b".to_string(), "c".to_string()];
    assert_eq!(join_spaced(&ws), "a b c");
    assert_eq!(join_with(&ws, "|"), "a|b|c");
    assert_eq!(join_spaced(&vec![]), "");
}

#[test]
fn script_has_prelude_then_lines() {
    let s = build_script(&["import sys", "print(sys.abiflags)"]);
    assert_eq!(
        s,
        "from __future__ import print_function\nimport sysconfig\npyver = sysconfig.get_config_var('VERSION')\ngetvar = sysconfig.get_config_var\nimport sys\nprint(sys.abiflags)"
    );
    assert_eq!(build_script(&[]), PRELUDE);
}

#[test]
fn script_keeps_caller_indentation() {
    let s = build_script(&["if True:", "\tprint(1)"]);
    assert!(s.ends_with("if True:\n\tprint(1)"));
}

#[test]
fn host_lines_render_empty_elsewhere() {
    assert_eq!(render(Line::Only(Target::Linux, "x"), Target::Linux), "x");
    assert_eq!(render(Line::Only(Target::Linux, "x"), Target::MacOs), "");
    assert_eq!(render(Line::Always("y"), Target::Other), "y");
}

#[test]
fn cflags_script_depends_on_host() {
    let linux = Query::CFlags.script(Target::Linux);
    let mac = Query::CFlags.script(Target::MacOs);
    assert!(linux.contains("BASECFLAGS"));
    assert!(!linux.contains("getvar('CFLAGS')"));
    assert!(mac.contains("getvar('CFLAGS')"));
    assert!(!mac.contains("BASECFLAGS"));
    assert!(linux.starts_with(PRELUDE));
}

#[test]
fn answers_are_assembled() {
    assert_eq!(includes_of("/a\n/a\n").unwrap(), "-I/a -I/a");
    assert_eq!(
        include_dirs_of(" /a \n/b\n").unwrap(),
        vec!["/a".to_string(), "/b".to_string()]
    );
    assert_eq!(cflags_of("/a\n/b\n").unwrap(), "-I/a -I/b");
    assert_eq!(libs_of("3.8\n\n-lm\n").unwrap(), "-lpython3.8 -lm");
    assert_eq!(
        ldflags_of("3.8d\n-ldl\n\nFalse\n/cfg\nFalse\n-Xlinker\n/usr\n", Target::Linux).unwrap(),
        "-L/cfg -L/usr/lib -lpython3.8d -ldl -Xlinker"
    );
    assert!(matches!(ldflags_of("3.8\n-ldl\n\nFalse\n/cfg\nFalse\n-x\n", Target::Linux), Err(Error::Other(_))));
    assert!(matches!(libs_of("3.8\n"), Err(Error::Other(_))));
}

#[test]
fn version_text_is_parsed() {
    let v = version_of("Python 3.7.2").unwrap();
    assert_eq!((v.major, v.minor, v.patch), (3, 7, 2));
    let v = version_of("Python 2.7.18\n").unwrap();
    assert_eq!((v.major, v.minor, v.patch), (2, 7, 18));
    assert!(matches!(version_of("Python"), Err(Error::Other(_))));
    assert!(matches!(version_of(""), Err(Error::Other(_))));
    assert!(matches!(version_of("Python 3.7"), Err(Error::Other(_))));
}

#[test]
fn decode_checks_utf8() {
    assert_eq!(decode(Ok("é\n".as_bytes().to_vec())).unwrap(), "é\n");
    assert!(matches!(decode(Ok(vec![0xff])), Err(Error::Utf8)));
    assert!(matches!(decode(Err(Error::Python3Only)), Err(Error::Python3Only)));
}
