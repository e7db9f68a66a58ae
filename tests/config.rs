use python_config::cmdr::command_line_of;
use python_config::error::{PATH_NOT_TEXT, SHORT_ANSWER, UNKNOWN_COMMAND};
use python_config::{
    Commander, Error, PythonConfig, Query, StaticCommand, Target, Version,
};
use std::cell::Cell;
use std::path::PathBuf;

const INC_DIR: &str = "/usr/local/include/python3.7m";
const LIBPL: &str = "/usr/local/lib/python3.7/config-3.7m-x86_64-linux-gnu";

fn key(program: &str, q: Query, host: Target) -> String {
    let script = q.script(host);
    command_line_of(program, &["-c", script.as_str()])
}

fn linux_answers(program: &str) -> Vec<(String, String)> {
    let host = Target::Linux;
    vec![
        (command_line_of(program, &["--version"]), "Python 3.7.2\n".to_string()),
        (key(program, Query::Prefix, host), "/usr/local\n".to_string()),
        (key(program, Query::ExecPrefix, host), "/usr/local\n".to_string()),
        (key(program, Query::AbiFlags, host), "m\n".to_string()),
        (key(program, Query::IncludeDirs, host), format!("{}\n{}\n", INC_DIR, INC_DIR)),
        (
            key(program, Query::CFlags, host),
            format!("{}\n{}\n-Wno-unused-result -Wsign-compare\n\n", INC_DIR, INC_DIR),
        ),
        (
            key(program, Query::Libs, host),
            "3.7m\n-lcrypt -lpthread -ldl  -lutil\n-lm \n".to_string(),
        ),
        (
            key(program, Query::LdFlags, host),
            format!(
                "3.7m\n-lcrypt -lpthread -ldl  -lutil\n-lm \nFalse\n{}\nFalse\n-Xlinker -export-dynamic\n/usr/local\n",
                LIBPL
            ),
        ),
        (
            key(program, Query::ExtensionSuffix, host),
            ".cpython-37m-x86_64-linux-gnu.so\n".to_string(),
        ),
        (key(program, Query::ConfigDir, host), format!("{}\n", LIBPL)),
    ]
}

fn linux_mock() -> StaticCommand {
    StaticCommand::new(linux_answers("python3"))
}

/// Answers every command with the same bytes, and counts the calls.
struct Counting {
    calls: Cell<usize>,
    out: Result<Vec<u8>, String>,
}

impl Counting {
    fn new(out: Result<Vec<u8>, String>) -> Counting {
        Counting { calls: Cell::new(0), out }
    }
}

impl Commander for Counting {
    fn commands(&self, _program: &str, _args: &[&str]) -> Result<Vec<u8>, Error> {
        self.calls.set(self.calls.get() + 1);
        match &self.out {
            Ok(v) => Ok(v.clone()),
            Err(m) => Err(Error::IO(m.clone())),
        }
    }
}

// Shows that includes and include_paths return the same things
// just in different types.
#[test]
fn include_paths_same() {
    let cfg = PythonConfig::new(Target::Linux);
    let cmdr = linux_mock();
    let flags_str = cfg.includes(&cmdr).unwrap();
    assert!(!flags_str.is_empty());
    let paths: Vec<PathBuf> = flags_str
        .split(" ")
        .map(|flag| {
            // Drop the '-I' characters before each path
            PathBuf::from(&flag[2..])
        })
        .collect();
    let actual = cfg.include_paths(&cmdr).unwrap();
    assert_eq!(actual, paths);
}

#[test]
fn includes_round_trip_with_distinct_dirs() {
    let host = Target::MacOs;
    let cmdr = StaticCommand::new(vec![(
        key("python3", Query::IncludeDirs, host),
        "/opt/py/include\n/opt/py/plat\n".to_string(),
    )]);
    let cfg = PythonConfig::new(host);
    let flags = cfg.includes(&cmdr).unwrap();
    assert_eq!(flags, "-I/opt/py/include -I/opt/py/plat");
    let stripped: Vec<&str> = flags.split(' ').map(|f| &f[2..]).collect();
    let paths = cfg.include_paths(&cmdr).unwrap();
    assert_eq!(
        paths,
        vec![PathBuf::from("/opt/py/include"), PathBuf::from("/opt/py/plat")]
    );
    assert_eq!(stripped.join(" "), "/opt/py/include /opt/py/plat");
}

#[test]
fn version_raw_is_trimmed() {
    let cfg = PythonConfig::new(Target::Linux);
    assert_eq!(cfg.version_raw(&linux_mock()).unwrap(), "Python 3.7.2");
}

#[test]
fn semantic_version_reads_components() {
    let cfg = PythonConfig::new(Target::Linux);
    let v = cfg.semantic_version(&linux_mock()).unwrap();
    assert_eq!((v.major, v.minor, v.patch), (3, 7, 2));
}

#[test]
fn semantic_version_without_version_word_fails() {
    let cfg = PythonConfig::new(Target::Linux);
    let cmdr = StaticCommand::new(vec![(
        command_line_of("python3", &["--version"]),
        "Python".to_string(),
    )]);
    assert!(matches!(cfg.semantic_version(&cmdr), Err(Error::Other(_))));
}

#[test]
fn semantic_version_of_bad_version_fails() {
    let cfg = PythonConfig::new(Target::Linux);
    let cmdr = StaticCommand::new(vec![(
        command_line_of("python3", &["--version"]),
        "Python 3.13.0rc1".to_string(),
    )]);
    assert!(matches!(cfg.semantic_version(&cmdr), Err(Error::Other(_))));
}

#[test]
fn prefix_and_paths() {
    let cfg = PythonConfig::new(Target::Linux);
    let cmdr = linux_mock();
    assert_eq!(cfg.prefix(&cmdr).unwrap(), "/usr/local");
    assert_eq!(cfg.prefix_path(&cmdr).unwrap(), PathBuf::from("/usr/local"));
    assert_eq!(cfg.exec_prefix(&cmdr).unwrap(), "/usr/local");
    assert_eq!(cfg.exec_prefix_path(&cmdr).unwrap(), PathBuf::from("/usr/local"));
}

#[test]
fn flags_on_linux() {
    let cfg = PythonConfig::new(Target::Linux);
    let cmdr = linux_mock();
    assert_eq!(
        cfg.includes(&cmdr).unwrap(),
        format!("-I{} -I{}", INC_DIR, INC_DIR)
    );
    assert_eq!(
        cfg.cflags(&cmdr).unwrap(),
        format!("-I{} -I{} -Wno-unused-result -Wsign-compare", INC_DIR, INC_DIR)
    );
    assert_eq!(
        cfg.libs(&cmdr).unwrap(),
        "-lpython3.7m -lcrypt -lpthread -ldl -lutil -lm"
    );
    assert_eq!(
        cfg.ldflags(&cmdr).unwrap(),
        format!(
            "-L{} -L/usr/local/lib -lpython3.7m -lcrypt -lpthread -ldl -lutil -lm -Xlinker -export-dynamic",
            LIBPL
        )
    );
    assert_eq!(
        cfg.extension_suffix(&cmdr).unwrap(),
        ".cpython-37m-x86_64-linux-gnu.so"
    );
    assert_eq!(cfg.abi_flags(&cmdr).unwrap(), "m");
    assert_eq!(cfg.config_dir(&cmdr).unwrap(), LIBPL);
    assert_eq!(cfg.config_dir_path(&cmdr).unwrap(), PathBuf::from(LIBPL));
}

#[test]
fn ldflags_order_without_shared_library_or_framework() {
    let host = Target::MacOs;
    let cmdr = StaticCommand::new(vec![(
        key("python3", Query::LdFlags, host),
        "3.7m\n-ldl\n\nFalse\n/fw/config\nFalse\n-framework CoreFoundation\n".to_string(),
    )]);
    let out = PythonConfig::new(host).ldflags(&cmdr).unwrap();
    assert_eq!(out, "-L/fw/config -lpython3.7m -ldl -framework CoreFoundation");
    assert!(out.starts_with("-L/fw/config"));
    assert!(out.ends_with("-framework CoreFoundation"));
}

#[test]
fn ldflags_with_shared_library_and_framework() {
    let host = Target::MacOs;
    let cmdr = StaticCommand::new(vec![(
        key("python3", Query::LdFlags, host),
        "3.7m\n-ldl\n\nTrue\n/fw/config\nTrue\n-framework CoreFoundation\n".to_string(),
    )]);
    let out = PythonConfig::new(host).ldflags(&cmdr).unwrap();
    assert_eq!(out, "-lpython3.7m -ldl");
}

#[test]
fn cflags_on_macos_use_one_variable() {
    let host = Target::MacOs;
    let cmdr = StaticCommand::new(vec![(
        key("python3", Query::CFlags, host),
        "/a\n/b\n-Wall  -O2\n".to_string(),
    )]);
    let out = PythonConfig::new(host).cflags(&cmdr).unwrap();
    assert_eq!(out, "-I/a -I/b -Wall -O2");
}

#[test]
fn python3_only_accessors_refuse_python2_without_running() {
    let cfg = PythonConfig::version(Version::Two, Target::Linux);
    let cmdr = Counting::new(Ok(b"anything\n".to_vec()));
    assert!(matches!(cfg.abi_flags(&cmdr), Err(Error::Python3Only)));
    assert!(matches!(cfg.extension_suffix(&cmdr), Err(Error::Python3Only)));
    assert!(matches!(cfg.config_dir(&cmdr), Err(Error::Python3Only)));
    assert!(matches!(cfg.config_dir_path(&cmdr), Err(Error::Python3Only)));
    assert_eq!(cmdr.calls.get(), 0);
    assert_eq!(cfg.prefix(&cmdr).unwrap(), "anything");
    assert_eq!(cmdr.calls.get(), 1);
}

#[test]
fn interpreter_demotes_python2() {
    let cmdr = StaticCommand::new(vec![
        (
            command_line_of("/usr/bin/python2", &["--version"]),
            "Python 2.7.18\n".to_string(),
        ),
        (key("/usr/bin/python2", Query::Prefix, Target::Linux), "/usr\n".to_string()),
    ]);
    let cfg = match PythonConfig::interpreter(&cmdr, b"/usr/bin/python2", Target::Linux) {
        Ok(c) => c,
        Err(e) => panic!("{:?}", e),
    };
    assert!(matches!(cfg.abi_flags(&cmdr), Err(Error::Python3Only)));
    assert_eq!(cfg.prefix(&cmdr).unwrap(), "/usr");
}

#[test]
fn interpreter_keeps_python3() {
    let cmdr = StaticCommand::new(linux_answers("/opt/python3"));
    let cfg = match PythonConfig::interpreter(&cmdr, b"/opt/python3", Target::Linux) {
        Ok(c) => c,
        Err(e) => panic!("{:?}", e),
    };
    assert_eq!(cfg.abi_flags(&cmdr).unwrap(), "m");
}

#[test]
fn interpreter_path_must_be_text() {
    let cmdr = Counting::new(Ok(b"Python 3.7.2\n".to_vec()));
    match PythonConfig::interpreter(&cmdr, &[0x2f, 0xff, 0xfe], Target::Linux) {
        Err(Error::Other(m)) => assert_eq!(m, PATH_NOT_TEXT),
        _ => panic!("expected a path encoding failure"),
    }
    assert_eq!(cmdr.calls.get(), 0);
}

#[test]
fn interpreter_fails_when_version_fails() {
    let cmdr = Counting::new(Err("not found".to_string()));
    match PythonConfig::interpreter(&cmdr, b"/nowhere/python", Target::Linux) {
        Err(Error::IO(m)) => assert_eq!(m, "not found"),
        _ => panic!("expected a launch failure"),
    }
}

#[test]
fn output_that_is_not_utf8_fails() {
    let cfg = PythonConfig::new(Target::Linux);
    let cmdr = Counting::new(Ok(vec![0x2f, 0xc3, 0x28]));
    assert!(matches!(cfg.prefix(&cmdr), Err(Error::Utf8)));
}

#[test]
fn launch_failure_is_surfaced() {
    let cfg = PythonConfig::new(Target::Linux);
    let cmdr = Counting::new(Err("no such file".to_string()));
    match cfg.libs(&cmdr) {
        Err(Error::IO(m)) => assert_eq!(m, "no such file"),
        _ => panic!("expected a launch failure"),
    }
}

#[test]
fn short_answer_fails() {
    let cfg = PythonConfig::new(Target::Linux);
    let cmdr = Counting::new(Ok(b"/only/one\n".to_vec()));
    match cfg.includes(&cmdr) {
        Err(Error::Other(m)) => assert_eq!(m, SHORT_ANSWER),
        _ => panic!("expected a short answer"),
    }
    assert!(matches!(cfg.include_paths(&cmdr), Err(Error::Other(_))));
    assert!(matches!(cfg.ldflags(&cmdr), Err(Error::Other(_))));
}

#[test]
fn unknown_command_in_static_command() {
    let cfg = PythonConfig::new(Target::Linux);
    let cmdr = StaticCommand::new(vec![]);
    match cfg.prefix(&cmdr) {
        Err(Error::Other(m)) => assert_eq!(m, UNKNOWN_COMMAND),
        _ => panic!("expected an unknown command"),
    }
}

#[test]
fn static_command_takes_first_entry() {
    let cmdr = StaticCommand::new(vec![
        ("python3 --version".to_string(), "Python 3.1.0".to_string()),
        ("python3 --version".to_string(), "Python 3.2.0".to_string()),
    ]);
    let out = cmdr.commands("python3", &["--version"]).unwrap();
    assert_eq!(out, b"Python 3.1.0".to_vec());
}

#[test]
fn sys_command_names_program() {
    let s = python_config::SysCommand::new("python3.11");
    assert_eq!(s.program(), "python3.11");
}
