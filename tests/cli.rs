use python_config::cli::{answer, answer_all, flags, parse_flag, plan, policy_for, usage, Flag, Plan};
use python_config::cmdr::command_line_of;
use python_config::{Error, PythonConfig, Query, StaticCommand, Target, Version};

const INC_DIR: &str = "/usr/include/python3.7m";

fn key(q: Query) -> String {
    let script = q.script(Target::Linux);
    command_line_of("python3", &["-c", script.as_str()])
}

fn mock() -> StaticCommand {
    StaticCommand::new(vec![
        (key(Query::Prefix), "/usr\n".to_string()),
        (key(Query::ExecPrefix), "/usr\n".to_string()),
        (key(Query::AbiFlags), "m\n".to_string()),
        (key(Query::IncludeDirs), format!("{}\n{}\n", INC_DIR, INC_DIR)),
        (key(Query::CFlags), format!("{}\n{}\n-Wsign-compare\n-g -O2\n", INC_DIR, INC_DIR)),
        (key(Query::Libs), "3.7m\n-lpthread -ldl\n-lm\n".to_string()),
        (
            key(Query::LdFlags),
            "3.7m\n-lpthread -ldl\n-lm\nTrue\n/usr/lib/python3.7/config\nFalse\n-Xlinker -export-dynamic\n/usr\n"
                .to_string(),
        ),
        (key(Query::ExtensionSuffix), ".cpython-37m-x86_64-linux-gnu.so\n".to_string()),
        (key(Query::ConfigDir), "/usr/lib/python3.7/config\n".to_string()),
    ])
}

/// What the system's own script prints for each flag on this installation.
fn expected(flag: &str) -> String {
    match flag {
        "--prefix" => "/usr".to_string(),
        "--exec-prefix" => "/usr".to_string(),
        "--includes" => format!("-I{} -I{}", INC_DIR, INC_DIR),
        "--libs" => "-lpython3.7m -lpthread -ldl -lm".to_string(),
        "--cflags" => format!("-I{} -I{} -Wsign-compare -g -O2", INC_DIR, INC_DIR),
        "--ldflags" => "-L/usr/lib -lpython3.7m -lpthread -ldl -lm -Xlinker -export-dynamic".to_string(),
        "--extension-suffix" => ".cpython-37m-x86_64-linux-gnu.so".to_string(),
        "--abiflags" => "m".to_string(),
        "--configdir" => "/usr/lib/python3.7/config".to_string(),
        _ => panic!("not a flag: {}", flag),
    }
}

fn args(xs: &[&str]) -> Vec<String> {
    xs.iter().map(|x| x.to_string()).collect()
}

fn run(xs: &[&str]) -> Vec<String> {
    let fs = match plan(&args(xs)) {
        Plan::Run(fs) => fs,
        Plan::Usage(_) => panic!("expected flags to answer"),
    };
    let cfg = PythonConfig::new(Target::Linux);
    let (lines, failure) = answer_all(&cfg, &mock(), &fs);
    assert!(failure.is_none());
    lines
}

fn test_outputs_given(xs: &[&str]) {
    let lines = run(xs);
    let want: Vec<String> = xs.iter().map(|x| expected(x)).collect();
    assert_eq!(lines, want);
}

const FLAGS: &[&str] = &[
    "--prefix",
    "--exec-prefix",
    "--includes",
    "--libs",
    "--cflags",
    "--ldflags",
    "--extension-suffix",
    "--abiflags",
    "--configdir",
];

const USAGE_FLAGS: &str = "--prefix|--exec-prefix|--includes|--libs|--cflags|--ldflags|--extension-suffix|--help|--abiflags|--configdir";

#[test]
fn help_no_input() {
    assert!(matches!(plan(&args(&[])), Plan::Usage(false)));
    let line = usage("python3-config", false);
    assert!(!line.is_empty());
    assert_eq!(line, format!("Usage: python3-config {}", USAGE_FLAGS));
}

#[test]
fn help_flag() {
    assert!(matches!(plan(&args(&["--help"])), Plan::Usage(true)));
    assert!(matches!(plan(&args(&["--prefix", "--help"])), Plan::Usage(true)));
}

#[test]
fn unknown_flag() {
    assert!(matches!(plan(&args(&["--what"])), Plan::Usage(false)));
    assert!(matches!(plan(&args(&["--prefix", "--what"])), Plan::Usage(false)));
    assert!(matches!(plan(&args(&["--what", "--help"])), Plan::Usage(false)));
}

#[test]
fn flag_ordering() {
    let x = "--includes";
    let y = "--prefix";
    let z = "--abiflags";
    test_outputs_given(&[x, z, y]);
    test_outputs_given(&[x, y, z]);
    test_outputs_given(&[y, z, x]);
    test_outputs_given(&[y, x, z]);
    test_outputs_given(&[z, y, x]);
    test_outputs_given(&[z, x, y]);
}

#[test]
fn prefix() {
    test_outputs_given(&["--prefix"]);
}

#[test]
fn exec_prefix() {
    test_outputs_given(&["--exec-prefix"]);
}

#[test]
fn includes() {
    test_outputs_given(&["--includes"]);
}

#[test]
fn libs() {
    test_outputs_given(&["--libs"]);
}

#[test]
fn cflags() {
    test_outputs_given(&["--cflags"]);
}

#[test]
fn ldflags() {
    test_outputs_given(&["--ldflags"]);
}

#[test]
fn extension_suffix() {
    test_outputs_given(&["--extension-suffix"]);
}

#[test]
fn abiflags() {
    test_outputs_given(&["--abiflags"]);
}

#[test]
fn configdir() {
    test_outputs_given(&["--configdir"]);
}

#[test]
fn all_flags() {
    test_outputs_given(FLAGS);
}

#[test]
fn no_flag_and_unknown_flag_give_the_same_usage() {
    let none = plan(&args(&[]));
    let unknown = plan(&args(&["--what"]));
    assert!(matches!(none, Plan::Usage(false)));
    assert!(matches!(unknown, Plan::Usage(false)));
    let policy = policy_for(Target::Linux);
    assert_eq!(policy.failure_code, 1);
    assert!(!policy.to_stderr);
    assert_eq!(
        usage("python3-config", policy.bracketed),
        "Usage: python3-config --prefix|--exec-prefix|--includes|--libs|--cflags|--ldflags|--extension-suffix|--help|--abiflags|--configdir"
    );
}

#[test]
fn usage_on_macos_is_bracketed_on_stderr() {
    let policy = policy_for(Target::MacOs);
    assert!(policy.to_stderr);
    assert!(policy.bracketed);
    assert_eq!(
        usage("/bin/python3-config", policy.bracketed),
        format!("Usage: /bin/python3-config [{}]", USAGE_FLAGS)
    );
}

#[test]
fn prefix_then_includes_gives_two_lines_in_order() {
    let both = run(&["--prefix", "--includes"]);
    assert_eq!(both.len(), 2);
    assert_eq!(both[0], run(&["--prefix"])[0]);
    assert_eq!(both[1], run(&["--includes"])[0]);
}

#[test]
fn every_flag_parses_back() {
    for f in flags() {
        assert_eq!(parse_flag(&f.name().to_string()), Some(f));
    }
    assert_eq!(parse_flag(&"--prefixx".to_string()), None);
    assert_eq!(flags().len(), 10);
}

#[test]
fn failure_stops_the_answers() {
    let cfg = PythonConfig::version(Version::Two, Target::Linux);
    let script = Query::Prefix.script(Target::Linux);
    let cmdr = StaticCommand::new(vec![(
        command_line_of("python2", &["-c", script.as_str()]),
        "/usr\n".to_string(),
    )]);
    let (lines, failure) = answer_all(&cfg, &cmdr, &vec![Flag::Prefix, Flag::AbiFlags, Flag::Libs]);
    assert_eq!(lines, vec!["/usr".to_string()]);
    assert!(matches!(failure, Some(Error::Python3Only)));
}

#[test]
fn answer_matches_accessor() {
    let cfg = PythonConfig::new(Target::Linux);
    let cmdr = mock();
    assert_eq!(answer(&cfg, &cmdr, Flag::LdFlags).unwrap(), cfg.ldflags(&cmdr).unwrap());
}
