use std::collections::HashMap;

use ofborg::machine::{Job, Machine};
use ofborg::nix::{Nix, Operation};
use ofborg::output::{lines_from_file, Finished, StdoutSink};
use ofborg::path::FsPath;

const SEARCH_PATH: &str = "/run/current-system/sw/bin:/usr/bin";

fn nix() -> Nix {
    Nix::new("x86_64-linux".to_owned(), "".to_owned(), 1800, None)
}

fn noop(operation: Operation) -> Operation {
    Operation::NoOp { operation: Box::new(operation) }
}

fn env_noop() -> Operation {
    Operation::Unknown { program: "./environment.sh".to_owned() }
}

fn fs_path(text: &str) -> FsPath {
    FsPath::new(text.as_bytes().to_vec())
}

fn build_path() -> FsPath {
    fs_path("/srv/./test-srcs/build")
}

fn passing_eval_path() -> FsPath {
    fs_path("/srv/./test-srcs/eval")
}

fn individual_eval_path() -> FsPath {
    fs_path("/srv/./test-srcs/eval-mixed-failure")
}

fn strip_ansi(string: &str) -> String {
    string
        .replace("‘", "'")
        .replace("’", "'")
        .replace("\u{1b}[31;1m", "") // red
        .replace("\u{1b}[0m", "") // reset
}

enum Expect {
    Pass,
    Fail,
}

fn assert_run(res: Result<Vec<u8>, Vec<u8>>, expected: Expect, require: Vec<&str>) {
    match expected {
        Expect::Pass => assert!(res.is_ok()),
        Expect::Fail => assert!(res.is_err()),
    }
    let log = match res {
        Ok(log) => log,
        Err(log) => log,
    };
    let buildlog = lines_from_file(&log)
        .into_iter()
        .map(|line| format!("   | {}", strip_ansi(&line)))
        .collect::<Vec<String>>()
        .join("\n");
    for line in require {
        assert!(buildlog.contains(line), "{:?} is not in\n{}", line, buildlog);
    }
}

fn whole(log: Vec<u8>) -> Vec<u8> {
    log
}

/// Does what `echo` and a script that prints its environment would do.
fn shell(job: Job) -> Finished<Vec<u8>> {
    let Job { command, sink } = job;
    assert!(!command.inherits_env());
    let printed = match command.get_program().as_str() {
        "echo" => format!("{}\n", command.get_args().join(" ")),
        "./environment.sh" => command
            .get_envs()
            .iter()
            .map(|(name, value)| format!("{}={}\n", name, value))
            .collect::<Vec<String>>()
            .concat(),
        other => panic!("cannot run {}", other),
    };
    let log = match sink {
        StdoutSink::Log => printed.into_bytes(),
        StdoutSink::Null => Vec::new(),
    };
    Finished { success: true, log }
}

/// Stands for a Nix tool that is run as `program`, with `tail` as its last
/// arguments, and ends as given.
fn tool(
    program: &'static str,
    tail: Vec<&'static str>,
    success: bool,
    log: &'static str,
) -> Machine<Vec<u8>, impl Fn(Job) -> Finished<Vec<u8>>, impl Fn(Vec<u8>) -> Vec<u8>> {
    let execute = move |job: Job| {
        let Job { command, sink } = job;
        assert_eq!(command.get_program(), program);
        let args = command.get_args();
        assert_eq!(args[args.len() - tail.len()..].to_vec(), tail);
        assert!(args.join(" ").contains("--option restrict-eval true"));
        assert_eq!(sink, StdoutSink::Log);
        Finished { success, log: log.as_bytes().to_vec() }
    };
    Machine::new(execute, whole)
}

#[test]
fn test_build_operations() {
    let nix = nix();
    let op = noop(Operation::Build);
    assert_eq!(op.to_string(), "nix-build");

    let ret: Result<Vec<u8>, Vec<u8>> = nix.run(
        nix.safe_command(op, &build_path(), vec![String::from("--version")], vec![], SEARCH_PATH),
        true,
        &mut Machine::new(shell, whole),
    );

    assert_run(ret, Expect::Pass, vec!["--no-out-link --keep-going", "--version"]);
}

#[test]
fn test_instantiate_operation() {
    let nix = nix();
    let op = noop(Operation::Instantiate);
    assert_eq!(op.to_string(), "nix-instantiate");

    let ret: Result<Vec<u8>, Vec<u8>> = nix.run(
        nix.safe_command(op, &build_path(), vec![String::from("--version")], vec![], SEARCH_PATH),
        true,
        &mut Machine::new(shell, whole),
    );

    assert_run(ret, Expect::Pass, vec!["--version"]);
}

#[test]
fn test_query_packages_json() {
    let nix = nix();
    let op = noop(Operation::QueryPackagesJSON);
    assert_eq!(op.to_string(), "nix-env -qa --json");

    let ret: Result<Vec<u8>, Vec<u8>> = nix.run(
        nix.safe_command(op, &build_path(), vec![String::from("--version")], vec![], SEARCH_PATH),
        true,
        &mut Machine::new(shell, whole),
    );

    assert_run(ret, Expect::Pass, vec!["--query --available --json", "--version"]);
}

#[test]
fn test_query_packages_outputs() {
    let nix = nix();
    let op = noop(Operation::QueryPackagesOutputs);
    assert_eq!(op.to_string(), "nix-env -qaP --no-name --out-path");

    let ret: Result<Vec<u8>, Vec<u8>> = nix.run(
        nix.safe_command(op, &build_path(), vec![String::from("--version")], vec![], SEARCH_PATH),
        true,
        &mut Machine::new(shell, whole),
    );

    assert_run(
        ret,
        Expect::Pass,
        vec!["--query --available --no-name --attr-path --out-path", "--version"],
    );
}

#[test]
fn safe_command_environment() {
    let nix = nix();

    let ret: Result<Vec<u8>, Vec<u8>> = nix.run(
        nix.safe_command(env_noop(), &build_path(), vec![], vec![], SEARCH_PATH),
        true,
        &mut Machine::new(shell, whole),
    );

    assert_run(
        ret,
        Expect::Pass,
        vec!["HOME=/homeless-shelter", "NIX_PATH=nixpkgs=", "NIX_REMOTE=", "PATH="],
    );
}

#[test]
fn safe_command_custom_gc() {
    let nix = Nix::new("x86_64-linux".to_owned(), "".to_owned(), 1800, Some("4g".to_owned()));

    let ret: Result<Vec<u8>, Vec<u8>> = nix.run(
        nix.safe_command(env_noop(), &build_path(), vec![], vec![], SEARCH_PATH),
        true,
        &mut Machine::new(shell, whole),
    );

    assert_run(
        ret,
        Expect::Pass,
        vec![
            "HOME=/homeless-shelter",
            "NIX_PATH=nixpkgs=",
            "NIX_REMOTE=",
            "PATH=",
            "GC_INITIAL_HEAP_SIZE=4g",
        ],
    );
}

#[test]
fn safe_command_options() {
    let nix = nix();
    let op = noop(Operation::Build);

    let ret: Result<Vec<u8>, Vec<u8>> = nix.run(
        nix.safe_command(op, &build_path(), vec![], vec![], SEARCH_PATH),
        true,
        &mut Machine::new(shell, whole),
    );

    assert_run(
        ret,
        Expect::Pass,
        vec!["--option restrict-eval true", "--option build-timeout 1800"],
    );
}

#[test]
fn safely_build_attrs_success() {
    let nix = nix();
    let mut build = tool(
        "nix-build",
        vec!["default.nix", "-A", "success"],
        true,
        "these derivations will be built:\n  /nix/store/0-success.drv\n\
         building '/nix/store/0-success.drv'...\nhi\n/nix/store/1-success\n",
    );

    let ret = nix.safely_build_attrs(
        &build_path(),
        "default.nix",
        vec![String::from("success")],
        SEARCH_PATH,
        &mut build,
    );

    assert_run(ret, Expect::Pass, vec!["-success.drv", "building ", "hi", "-success"]);
}

#[test]
fn safely_build_attrs_failure() {
    let nix = nix();
    let mut build = tool(
        "nix-build",
        vec!["default.nix", "-A", "failed"],
        false,
        "building '/nix/store/0-failed.drv'...\nhi\n\
         builder failed to produce output path '/nix/store/1-failed'\n",
    );

    let ret = nix.safely_build_attrs(
        &build_path(),
        "default.nix",
        vec![String::from("failed")],
        SEARCH_PATH,
        &mut build,
    );

    assert_run(
        ret,
        Expect::Fail,
        vec!["-failed.drv", "building ", "hi", "failed to produce output path"],
    );
}

#[test]
fn partition_instantiable_attributes() {
    let nix = nix();
    let execute = |job: Job| {
        let Job { command, sink } = job;
        assert_eq!(command.get_program(), "nix-instantiate");
        assert_eq!(sink, StdoutSink::Log);
        let args = command.get_args();
        assert_eq!(args[args.len() - 3..args.len() - 1].to_vec(), vec!["default.nix", "-A"]);
        match args[args.len() - 1].as_str() {
            "fails-instantiation" => Finished {
                success: false,
                log: b"trace: You just can't frooble the frozz on this particular system.\n\
                       error: assertion failed\n"
                    .to_vec(),
            },
            "passes-instantiation" => Finished {
                success: true,
                log: b"/nix/store/0-passes-instantiation.drv\n".to_vec(),
            },
            "missing-attr" => Finished {
                success: false,
                log: "\u{1b}[31;1merror:\u{1b}[0m attribute ‘missing-attr’ in selection path \
                      ‘missing-attr’ not found\n"
                    .as_bytes()
                    .to_vec(),
            },
            other => panic!("no attribute {}", other),
        }
    };
    let mut instantiate = Machine::new(execute, whole);

    let ret: (Vec<String>, Vec<(String, Vec<String>)>) = nix.safely_partition_instantiable_attrs(
        &individual_eval_path(),
        "default.nix",
        vec![
            String::from("fails-instantiation"),
            String::from("passes-instantiation"),
            String::from("missing-attr"),
        ],
        SEARCH_PATH,
        &mut instantiate,
    );

    assert_eq!(ret.0, vec!["passes-instantiation"]);

    assert_eq!(ret.1[0].0, "fails-instantiation");
    assert_eq!(
        ret.1[0].1[0],
        "trace: You just can't frooble the frozz on this particular system."
    );

    assert_eq!(ret.1[1].0, "missing-attr");
    assert_eq!(
        strip_ansi(&ret.1[1].1[0]),
        "error: attribute 'missing-attr' in selection path 'missing-attr' not found"
    );
    assert_eq!(ret.1.len(), 2);
}

#[test]
fn safely_instantiate_attrs_failure() {
    let nix = nix();
    let mut instantiate = tool(
        "nix-instantiate",
        vec!["default.nix", "-A", "fails-instantiation"],
        false,
        "trace: You just can't frooble the frozz on this particular system.\n\
         error: assertion failed at default.nix:7\n",
    );

    let ret = nix.safely_instantiate_attrs(
        &individual_eval_path(),
        "default.nix",
        vec![String::from("fails-instantiation")],
        SEARCH_PATH,
        &mut instantiate,
    );

    assert_run(ret, Expect::Fail, vec!["You just can't", "assertion failed"]);
}

#[test]
fn safely_instantiate_attrs_success() {
    let nix = nix();
    let mut instantiate = tool(
        "nix-instantiate",
        vec!["default.nix", "-A", "passes-instantiation"],
        true,
        "/nix/store/0-passes-instantiation.drv\n",
    );

    let ret = nix.safely_instantiate_attrs(
        &individual_eval_path(),
        "default.nix",
        vec![String::from("passes-instantiation")],
        SEARCH_PATH,
        &mut instantiate,
    );

    assert_run(ret, Expect::Pass, vec!["-passes-instantiation.drv"]);
}

#[test]
fn safely_evaluate_expr_success() {
    let nix = nix();
    let expr = r#"{ foo ? "bar" }: "The magic value is ${foo}""#;
    let argstrs: HashMap<&str, &str> = [("foo", "tux")].iter().cloned().collect();
    let execute = |job: Job| {
        let command = job.command;
        let args = command.get_args();
        assert_eq!(command.get_program(), "nix-instantiate");
        assert_eq!(args[..3].to_vec(), vec!["--eval", "--strict", "--json"]);
        assert_eq!(args[args.len() - 5..args.len() - 1].to_vec(), vec![
            "--expr", expr, "--argstr", "foo",
        ]);
        let printed = format!("\"The magic value is {}\"\n", args[args.len() - 1]);
        Finished { success: true, log: printed.into_bytes() }
    };
    let mut evaluate = Machine::new(execute, whole);

    let ret: Result<Vec<u8>, Vec<u8>> = nix.run(
        nix.safely_evaluate_expr_cmd(
            &individual_eval_path(),
            expr,
            argstrs,
            vec![],
            SEARCH_PATH,
        ),
        true,
        &mut evaluate,
    );

    assert_run(ret, Expect::Pass, vec!["The magic value is tux"]);
}

#[test]
fn strict_sandboxing() {
    let mut build = tool(
        "nix-build",
        vec!["default.nix", "-A", "sandbox-violation"],
        false,
        "error: while evaluating the attribute 'src':\n\
         access to path '/etc/passwd' is forbidden in restricted mode\n",
    );

    let ret = nix().safely_build_attrs(
        &build_path(),
        "default.nix",
        vec![String::from("sandbox-violation")],
        SEARCH_PATH,
        &mut build,
    );

    assert_run(
        ret,
        Expect::Fail,
        vec![
            "error: while evaluating the attribute",
            "access to path",
            "is forbidden in restricted mode",
        ],
    );
}

#[test]
fn instantiation_success() {
    let mut instantiate = tool(
        "nix-instantiate",
        vec!["--arg", "supportedSystems", "[\"x86_64-linux\"]"],
        true,
        "warning: the result might be removed by the garbage collector\n\
         /nix/store/0-failed.drv\n/nix/store/1-success.drv\n",
    );

    let ret = nix().safely(
        Operation::Instantiate,
        &passing_eval_path(),
        vec![],
        true,
        SEARCH_PATH,
        &mut instantiate,
    );

    assert_run(
        ret,
        Expect::Pass,
        vec![
            "the result might be removed by the garbage collector",
            "-failed.drv",
            "-success.drv",
        ],
    );
}

#[test]
fn instantiation_nixpkgs_restricted_mode() {
    let mut instantiate = tool(
        "nix-instantiate",
        vec!["-A", "nixpkgs-restricted-mode"],
        false,
        "error: access to path '/fake' is forbidden in restricted mode\n",
    );

    let ret = nix().safely(
        Operation::Instantiate,
        &individual_eval_path(),
        vec![String::from("-A"), String::from("nixpkgs-restricted-mode")],
        true,
        SEARCH_PATH,
        &mut instantiate,
    );

    assert_run(
        ret,
        Expect::Fail,
        vec!["access to path '/fake'", "is forbidden in restricted mode"],
    );
}
