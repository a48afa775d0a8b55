use std::cell::RefCell;
use std::collections::HashMap;

use ofborg::command::Command;
use ofborg::machine::{Job, Machine};
use ofborg::nix::{nix_path, Nix, Operation};
use ofborg::output::{Finished, StdoutSink};
use ofborg::path::FsPath;
use ofborg::text::{join, to_decimal};

fn fs_path(text: &str) -> FsPath {
    FsPath::new(text.as_bytes().to_vec())
}

fn strings(list: &[&str]) -> Vec<String> {
    list.iter().map(|s| s.to_string()).collect()
}

fn nix() -> Nix {
    Nix::new("aarch64-linux".to_owned(), "daemon".to_owned(), 60, None)
}

/// The value that counts: that of the last setting of `name`.
fn var(command: &Command, name: &str) -> Option<String> {
    let settings = command.get_envs();
    settings.iter().rev().find(|(n, _)| n == name).map(|(_, value)| value.clone())
}

#[test]
fn whole_build_command() {
    let command = nix().safe_command(
        Operation::Build,
        &fs_path("/pkgs"),
        strings(&["release.nix"]),
        vec![&fs_path("/a"), &fs_path("b=/b")],
        "/bin",
    );
    assert_eq!(command.get_program(), "nix-build");
    assert_eq!(
        *command.get_args(),
        strings(&[
            "--no-out-link",
            "--keep-going",
            "--show-trace",
            "--option",
            "restrict-eval",
            "true",
            "--option",
            "build-timeout",
            "60",
            "--argstr",
            "system",
            "aarch64-linux",
            "--arg",
            "supportedSystems",
            "[\"aarch64-linux\"]",
            "release.nix",
        ])
    );
    assert_eq!(command.get_envs().len(), 4);
    assert_eq!(var(&command, "HOME"), Some("/homeless-shelter".to_owned()));
    assert_eq!(var(&command, "NIX_PATH"), Some("/a:b=/b:nixpkgs=/pkgs".to_owned()));
    assert_eq!(var(&command, "NIX_REMOTE"), Some("daemon".to_owned()));
    assert_eq!(var(&command, "PATH"), Some("/bin".to_owned()));
    assert!(!command.inherits_env());
    assert_eq!(command.get_current_dir(), Some(&fs_path("/pkgs")));
}

#[test]
fn command_with_a_given_nix_path() {
    let command = nix().without_limited_supported_systems().command_with_nix_path(
        Operation::Instantiate,
        &fs_path("/pkgs"),
        "nixpkgs=/elsewhere",
        vec![],
        "/bin",
    );
    assert_eq!(command.get_program(), "nix-instantiate");
    assert_eq!(
        *command.get_args(),
        strings(&[
            "--show-trace",
            "--option",
            "restrict-eval",
            "true",
            "--option",
            "build-timeout",
            "60",
            "--argstr",
            "system",
            "aarch64-linux",
        ])
    );
    assert_eq!(var(&command, "NIX_PATH"), Some("nixpkgs=/elsewhere".to_owned()));
}

#[test]
fn heap_size_is_set_only_when_given() {
    let with = Nix::new("s".to_owned(), "".to_owned(), 1, Some("4g".to_owned()));
    let without = Nix::new("s".to_owned(), "".to_owned(), 1, None);
    let dir = fs_path("/");
    let a = with.safe_command(Operation::Build, &dir, vec![], vec![], "p");
    let b = without.safe_command(Operation::Build, &dir, vec![], vec![], "p");
    assert_eq!(var(&a, "GC_INITIAL_HEAP_SIZE"), Some("4g".to_owned()));
    assert_eq!(a.get_envs().len(), 5);
    assert_eq!(var(&b, "GC_INITIAL_HEAP_SIZE"), None);
}

#[test]
fn path_that_is_not_utf8_is_shown_with_replacements_and_kept_as_directory() {
    let odd = FsPath::new(vec![b'/', 0xff, b'x']);
    assert_eq!(odd.display(), "/\u{FFFD}x");
    assert_eq!(*odd.as_bytes(), vec![b'/', 0xff, b'x']);
    let command = nix().safe_command(Operation::Build, &odd, vec![], vec![], "p");
    assert_eq!(var(&command, "NIX_PATH"), Some("nixpkgs=/\u{FFFD}x".to_owned()));
    assert_eq!(command.get_current_dir(), Some(&odd));
}

#[test]
fn path_that_is_utf8_is_shown_exactly() {
    assert_eq!(fs_path("/größe").display(), "/größe");
    assert_eq!(fs_path("").display(), "");
}

#[test]
fn operations_have_programs_arguments_and_labels() {
    let cases: Vec<(Operation, &str, Vec<String>, &str)> = vec![
        (
            Operation::Evaluate,
            "nix-instantiate",
            strings(&["--eval", "--strict", "--json"]),
            "nix-instantiate --strict --json ...",
        ),
        (Operation::Instantiate, "nix-instantiate", vec![], "nix-instantiate"),
        (
            Operation::Build,
            "nix-build",
            strings(&["--no-out-link", "--keep-going"]),
            "nix-build",
        ),
        (
            Operation::QueryPackagesJSON,
            "nix-env",
            strings(&["--query", "--available", "--json"]),
            "nix-env -qa --json",
        ),
        (
            Operation::QueryPackagesOutputs,
            "nix-env",
            strings(&["--query", "--available", "--no-name", "--attr-path", "--out-path"]),
            "nix-env -qaP --no-name --out-path",
        ),
        (Operation::Unknown { program: "./x".to_owned() }, "./x", vec![], "./x"),
    ];
    for (op, program, args, label) in cases {
        let mut command = op.command();
        assert_eq!(command.get_program(), program);
        assert!(command.get_args().is_empty());
        assert!(command.inherits_env());
        assert!(command.get_envs().is_empty());
        assert_eq!(command.get_current_dir(), None);
        op.args(&mut command);
        assert_eq!(*command.get_args(), args);
        assert_eq!(op.to_string(), label);
        assert_eq!(op.clone().to_string(), label);

        let put_off = Operation::NoOp { operation: Box::new(op) };
        let twice = Operation::NoOp { operation: Box::new(put_off.clone()) };
        for op in [put_off, twice] {
            let mut command = op.command();
            op.args(&mut command);
            assert_eq!(command.get_program(), "echo");
            assert_eq!(*command.get_args(), args);
            assert_eq!(op.to_string(), label);
        }
    }
}

#[test]
fn later_settings_count_and_clearing_drops_them() {
    let mut command = Command::new("x");
    command.env("A", "1");
    command.env("B", "2");
    command.env("A", "3");
    assert_eq!(var(&command, "A"), Some("3".to_owned()));
    assert_eq!(var(&command, "B"), Some("2".to_owned()));
    command.env_clear();
    assert_eq!(var(&command, "A"), None);
    assert!(!command.inherits_env());
    command.arg("one".to_owned());
    command.args(&["two", "three"]);
    command.extend(strings(&["four"]));
    assert_eq!(*command.get_args(), strings(&["one", "two", "three", "four"]));
}

#[test]
fn settings_of_nix() {
    let n = nix();
    assert_eq!(n, n.clone());
    assert_eq!(n.with_limited_supported_systems(), n);
    assert_ne!(n.without_limited_supported_systems(), n);
    assert_eq!(n.without_limited_supported_systems().with_limited_supported_systems(), n);
    assert_eq!(
        n.with_system("x".to_owned()),
        Nix::new("x".to_owned(), "daemon".to_owned(), 60, None)
    );
    assert_eq!(n.with_system("x".to_owned()).with_system("aarch64-linux".to_owned()), n);
    assert_ne!(n, Nix::new("aarch64-linux".to_owned(), "".to_owned(), 60, None));
    assert_ne!(n, Nix::new("aarch64-linux".to_owned(), "daemon".to_owned(), 61, None));
    let heap = Nix::new("aarch64-linux".to_owned(), "daemon".to_owned(), 60, Some("1".to_owned()));
    let other = Nix::new("aarch64-linux".to_owned(), "daemon".to_owned(), 60, Some("2".to_owned()));
    assert_ne!(n, heap);
    assert_ne!(heap, other);
    assert_eq!(heap, heap.clone());
}

#[test]
fn system_changes_arguments_only() {
    let a = nix().safe_command(Operation::Build, &fs_path("/p"), vec![], vec![], "x");
    let b = nix().with_system("i686-linux".to_owned()).safe_command(
        Operation::Build,
        &fs_path("/p"),
        vec![],
        vec![],
        "x",
    );
    assert_eq!(a.get_envs(), b.get_envs());
    assert_eq!(a.get_program(), b.get_program());
    assert_eq!(b.get_args()[11], "i686-linux");
    assert_eq!(b.get_args()[14], "[\"i686-linux\"]");
}

#[test]
fn attributes_are_flagged_in_order() {
    let dir = fs_path("/p");
    let attrs = strings(&["a", "b", "a"]);
    let tail = strings(&["f.nix", "-A", "a", "-A", "b", "-A", "a"]);
    let build = nix().safely_build_attrs_cmd(&dir, "f.nix", attrs.clone(), "x");
    let instantiate = nix().safely_instantiate_attrs_cmd(&dir, "f.nix", attrs, "x");
    assert_eq!(build.get_args()[15..].to_vec(), tail);
    assert_eq!(build.get_program(), "nix-build");
    assert_eq!(instantiate.get_args()[13..].to_vec(), tail);
    assert_eq!(instantiate.get_program(), "nix-instantiate");
    let none = nix().safely_build_attrs_cmd(&dir, "f.nix", vec![], "x");
    assert_eq!(none.get_args()[15..].to_vec(), vec!["f.nix"]);
}

#[test]
fn every_entry_of_a_map_is_handed_over_once() {
    let dir = fs_path("/p");
    let mut map: HashMap<&str, &str> = HashMap::new();
    map.insert("a", "1");
    map.insert("b", "2");
    map.insert("c", "3");
    let extra = fs_path("/extra");
    let command = nix().safely_evaluate_expr_cmd(&dir, "e", map, vec![&extra], "x");
    let tail = command.get_args()[16..].to_vec();
    assert_eq!(tail[..2].to_vec(), vec!["--expr", "e"]);
    let mut triples: Vec<Vec<String>> = tail[2..].chunks(3).map(|c| c.to_vec()).collect();
    triples.sort();
    assert_eq!(
        triples,
        vec![
            strings(&["--argstr", "a", "1"]),
            strings(&["--argstr", "b", "2"]),
            strings(&["--argstr", "c", "3"]),
        ]
    );
    assert_eq!(var(&command, "NIX_PATH"), Some("/extra:nixpkgs=/p".to_owned()));
}

#[test]
fn listed_arguments_keep_their_order() {
    let command = nix().evaluate_expr_cmd_in_order(
        &fs_path("/p"),
        "e",
        vec![("z", "1"), ("a", "2")],
        vec![],
        "x",
    );
    assert_eq!(
        command.get_args()[16..].to_vec(),
        strings(&["--expr", "e", "--argstr", "z", "1", "--argstr", "a", "2"])
    );
}

#[test]
fn joined_texts() {
    assert_eq!(join(&vec![], ":"), "");
    assert_eq!(join(&strings(&["a"]), ":"), "a");
    assert_eq!(join(&strings(&["a", "", "c"]), ", "), "a, , c");
    assert_eq!(nix_path(vec![], "/n"), "nixpkgs=/n");
    assert_eq!(nix_path(strings(&["/a", "/b"]), "/n"), "/a:/b:nixpkgs=/n");
}

#[test]
fn decimal_numbers() {
    for n in [0u16, 7, 9, 10, 99, 100, 1800, 9999, 10000, 65535] {
        assert_eq!(to_decimal(n), format!("{}", n));
        assert_eq!(to_decimal(n).parse::<u16>(), Ok(n));
    }
}

#[test]
fn run_hands_over_sink_and_verdict() {
    let n = nix();
    let execute = |job: Job| Finished {
        success: job.command.get_program() == "good",
        log: job.sink,
    };
    let mut machine = Machine::new(execute, |_log: StdoutSink| Vec::new());
    assert_eq!(n.run(Command::new("good"), true, &mut machine), Ok(StdoutSink::Log));
    assert_eq!(n.run(Command::new("good"), false, &mut machine), Ok(StdoutSink::Null));
    assert_eq!(n.run(Command::new("bad"), true, &mut machine), Err(StdoutSink::Log));
    assert_eq!(n.run(Command::new("bad"), false, &mut machine), Err(StdoutSink::Null));
}

#[test]
fn build_in_the_background_spawns_the_build_command() {
    let spawned = nix().safely_build_attrs_async(
        &fs_path("/p"),
        "f.nix",
        strings(&["a"]),
        "x",
        |command: Command| command,
    );
    assert_eq!(spawned.get_program(), "nix-build");
    assert_eq!(spawned.get_args()[15..].to_vec(), strings(&["f.nix", "-A", "a"]));
    assert!(!spawned.inherits_env());
}

#[test]
fn each_program_is_run_once_and_failed_logs_are_read_at_once() {
    let done: RefCell<Vec<String>> = RefCell::new(Vec::new());
    let execute = |job: Job| {
        let attr = job.command.get_args().last().unwrap().clone();
        done.borrow_mut().push(format!("run {}", attr));
        Finished { success: attr.starts_with("good"), log: attr }
    };
    let read = |log: String| {
        done.borrow_mut().push(format!("read {}", log));
        format!("log of {}\n", log).into_bytes()
    };
    let mut machine = Machine::new(execute, read);
    let n = nix();
    let (good, bad) = n.safely_partition_instantiable_attrs(
        &fs_path("/p"),
        "f.nix",
        strings(&["bad1", "good1", "bad2", "good1"]),
        "x",
        &mut machine,
    );
    assert_eq!(good, strings(&["good1", "good1"]));
    assert_eq!(
        bad,
        vec![
            ("bad1".to_owned(), strings(&["log of bad1"])),
            ("bad2".to_owned(), strings(&["log of bad2"])),
        ]
    );
    assert_eq!(
        *done.borrow(),
        strings(&["run bad1", "read bad1", "run good1", "run bad2", "read bad2", "run good1"])
    );

    let res = n.safely_build_attrs(&fs_path("/p"), "f", strings(&["good2"]), "x", &mut machine);
    assert_eq!(res, Ok("good2".to_owned()));
    assert_eq!(done.borrow().len(), 7);

    let none = n.safely_partition_instantiable_attrs(
        &fs_path("/p"),
        "f.nix",
        vec![],
        "x",
        &mut machine,
    );
    assert_eq!(none, (vec![], vec![]));
    assert_eq!(done.borrow().len(), 7);
}

#[test]
fn machine_executes_and_reads() {
    let execute = |job: Job| Finished { success: true, log: job.command.get_program().clone() };
    let mut machine = Machine::new(execute, |log: String| log.into_bytes());
    let job = Job { command: Command::new("x"), sink: StdoutSink::Null };
    let finished = machine.execute(job);
    assert!(finished.success);
    assert_eq!(machine.read(finished.log), b"x".to_vec());
}
