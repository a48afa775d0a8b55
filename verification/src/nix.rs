//! Nix tools in restricted mode.
use std::collections::HashMap;

use vstd::prelude::*;

use crate::command::{Command, CommandView};
use crate::machine::{in_a_row, is_try, law_events_add_up, outcome, outcomes, Event, Job, Machine};
pub use crate::operation::Operation;
use crate::output::{
    failures, judge, outcome_view, outcome_views, partition_attrs, reports, sink_for, stdout_sink,
    successes, verdicts, Finished, StdoutSink,
};
use crate::path::{shown, shown_exactly_if_utf8, utf8_lossy, FsPath};
use crate::text::{decimal, join, joined, texts, to_decimal};

verus! {

/// What a [`Nix`] is set to.
#[verifier::ext_equal]
pub struct NixView {
    /// The system to evaluate for.
    pub system: Seq<char>,
    /// The store that Nix talks to.
    pub remote: Seq<char>,
    /// How many seconds a build may take.
    pub build_timeout: u16,
    /// Whether package sets are told that `system` is the only system.
    pub limit_supported_systems: bool,
    /// The size at which the heap of the evaluator starts.
    pub initial_heap_size: Option<Seq<char>>,
}

/// How `NIX_PATH` reads: the paths that may be read, then the package set.
pub open spec fn nix_path_of(safe_paths: Seq<Seq<char>>, nixpkgs: Seq<char>) -> Seq<char> {
    joined(safe_paths.push("nixpkgs="@ + nixpkgs), ":"@)
}

/// The Nix list that holds `system` alone.
pub open spec fn system_list(system: Seq<char>) -> Seq<char> {
    "[\""@ + system + "\"]"@
}

/// A flag and a name for each of `attrs`.
pub open spec fn attr_flags(attrs: Seq<Seq<char>>) -> Seq<Seq<char>>
    decreases attrs.len(),
{
    if attrs.len() == 0 {
        Seq::empty()
    } else {
        attr_flags(attrs.drop_last()) + seq!["-A"@, attrs.last()]
    }
}

/// A flag, a name and a value for each of `argstrs`.
pub open spec fn argstr_flags(argstrs: Seq<(Seq<char>, Seq<char>)>) -> Seq<Seq<char>>
    decreases argstrs.len(),
{
    if argstrs.len() == 0 {
        Seq::empty()
    } else {
        argstr_flags(argstrs.drop_last()) + seq![
            "--argstr"@,
            argstrs.last().0,
            argstrs.last().1,
        ]
    }
}

impl NixView {
    /// The arguments that every command gets behind those of its operation.
    pub open spec fn restrictions(self) -> Seq<Seq<char>> {
        seq!["--show-trace"@] + seq!["--option"@, "restrict-eval"@, "true"@] + seq![
            "--option"@,
            "build-timeout"@,
            decimal(self.build_timeout as nat),
        ] + seq!["--argstr"@, "system"@, self.system] + if self.limit_supported_systems {
            seq!["--arg"@, "supportedSystems"@, system_list(self.system)]
        } else {
            Seq::empty()
        }
    }

    /// The environment variables that every command gets.
    pub open spec fn environment(self, nix_path: Seq<char>, path: Seq<char>) -> Map<
        Seq<char>,
        Seq<char>,
    > {
        let common = Map::empty().insert("HOME"@, "/homeless-shelter"@).insert(
            "NIX_PATH"@,
            nix_path,
        ).insert("NIX_REMOTE"@, self.remote);
        match self.initial_heap_size {
            Some(size) => common.insert("GC_INITIAL_HEAP_SIZE"@, size),
            None => common,
        }.insert("PATH"@, path)
    }

    /// The command that performs `op` on the package set at `nixpkgs` with `args`.
    pub open spec fn safe_command(
        self,
        op: Operation,
        nixpkgs: Seq<u8>,
        nix_path: Seq<char>,
        args: Seq<Seq<char>>,
        path: Seq<char>,
    ) -> CommandView {
        CommandView {
            program: op.program(),
            args: op.selection() + self.restrictions() + args,
            vars: self.environment(nix_path, path),
            inherits_env: false,
            dir: Some(nixpkgs),
        }
    }

    /// The same, with nothing else to read.
    pub open spec fn plain_command(
        self,
        op: Operation,
        nixpkgs: Seq<u8>,
        args: Seq<Seq<char>>,
        path: Seq<char>,
    ) -> CommandView {
        self.safe_command(
            op,
            nixpkgs,
            nix_path_of(Seq::empty(), utf8_lossy(nixpkgs)),
            args,
            path,
        )
    }

    /// The command that performs `op` on `attrs` of `file` in the package set at
    /// `nixpkgs`.
    pub open spec fn attrs_command(
        self,
        op: Operation,
        nixpkgs: Seq<u8>,
        file: Seq<char>,
        attrs: Seq<Seq<char>>,
        path: Seq<char>,
    ) -> CommandView {
        self.plain_command(op, nixpkgs, seq![file] + attr_flags(attrs), path)
    }

    /// The command that evaluates `expr` with `argstrs`.
    pub open spec fn evaluate_command(
        self,
        nixpkgs: Seq<u8>,
        expr: Seq<char>,
        argstrs: Seq<(Seq<char>, Seq<char>)>,
        extra_paths: Seq<Seq<char>>,
        path: Seq<char>,
    ) -> CommandView {
        self.safe_command(
            Operation::Evaluate,
            nixpkgs,
            nix_path_of(extra_paths, utf8_lossy(nixpkgs)),
            seq!["--expr"@, expr] + argstr_flags(argstrs),
            path,
        )
    }
}

/// Runs Nix tools for one system.
#[derive(Debug)]
pub struct Nix {
    system: String,
    remote: String,
    build_timeout: u16,
    limit_supported_systems: bool,
    initial_heap_size: Option<String>,
}

impl View for Nix {
    type V = NixView;

    closed spec fn view(&self) -> NixView {
        NixView {
            system: self.system@,
            remote: self.remote@,
            build_timeout: self.build_timeout,
            limit_supported_systems: self.limit_supported_systems,
            initial_heap_size: match self.initial_heap_size {
                Some(size) => Some(size@),
                None => None,
            },
        }
    }
}

impl Clone for Nix {
    fn clone(&self) -> (res: Nix)
        ensures
            res@ == self@,
    {
        Nix {
            system: self.system.clone(),
            remote: self.remote.clone(),
            build_timeout: self.build_timeout,
            limit_supported_systems: self.limit_supported_systems,
            initial_heap_size: self.initial_heap_size.clone(),
        }
    }
}

impl PartialEq for Nix {
    fn eq(&self, other: &Nix) -> (res: bool) {
        let same_heap = match (&self.initial_heap_size, &other.initial_heap_size) {
            (Some(a), Some(b)) => *a == *b,
            (None, None) => true,
            _ => false,
        };
        self.system == other.system && self.remote == other.remote && self.build_timeout
            == other.build_timeout && self.limit_supported_systems == other.limit_supported_systems
            && same_heap
    }
}

impl vstd::std_specs::cmp::PartialEqSpecImpl for Nix {
    open spec fn obeys_eq_spec() -> bool {
        true
    }

    open spec fn eq_spec(&self, other: &Nix) -> bool {
        self@ == other@
    }
}

/// The names and values of a list, as texts.
pub open spec fn pair_texts(list: Seq<(&str, &str)>) -> Seq<(Seq<char>, Seq<char>)> {
    list.map_values(|p: (&str, &str)| (p.0@, p.1@))
}

/// `list` holds each entry of `map` once, and nothing else.
pub open spec fn lists_entries(list: Seq<(&str, &str)>, map: Map<&str, &str>) -> bool {
    &&& forall|i: int|
        0 <= i < list.len() ==> map.contains_key((#[trigger] list[i]).0) && map[list[i].0]
            == list[i].1
    &&& forall|name: &str| #[trigger] map.contains_key(name) ==> list.contains((name, map[name]))
    &&& forall|i: int, j: int|
        0 <= i < j < list.len() ==> (#[trigger] list[i]).0@ != (#[trigger] list[j]).0@
}

/// Collects a map by [`Vec::from_iter`]. Trusted of it: each entry of the map
/// comes once, and nothing else. In which order they come is not said: a hash map
/// is walked in an arbitrary one.
#[verifier::external_body]
fn entries<'a>(map: HashMap<&'a str, &'a str>) -> (res: Vec<(&'a str, &'a str)>)
    ensures
        lists_entries(res@, map@),
{
    Vec::from_iter(map)
}

/// The arguments that name `attrs` of `file`.
fn attr_args(file: &str, attrs: Vec<String>) -> (res: Vec<String>)
    ensures
        texts(res@) == seq![file@] + attr_flags(texts(attrs@)),
{
    let ghost names = texts(attrs@);
    let ghost all = attrs@;
    let mut res: Vec<String> = Vec::new();
    res.push(file.to_owned());
    assert(texts(res@) =~= seq![file@] + attr_flags(names.take(0)));
    for attr in it: attrs
        invariant
            all == it.seq(),
            names == texts(all),
            texts(res@) == seq![file@] + attr_flags(names.take(it.index() as int)),
    {
        let ghost before = res@;
        res.push("-A".to_owned());
        res.push(attr);
        proof {
            let done = names.take(it.index() + 1);
            assert(done.drop_last() =~= names.take(it.index() as int));
            assert(done.last() == attr@);
            assert(texts(res@) =~= texts(before) + seq!["-A"@, attr@]);
            assert(texts(res@) =~= seq![file@] + attr_flags(done));
        }
    }
    assert(names.take(names.len() as int) =~= names);
    res
}

/// The text of `NIX_PATH`: the paths that may be read, then the package set.
pub fn nix_path(safe_paths: Vec<String>, nixpkgs: &str) -> (res: String)
    ensures
        res@ == nix_path_of(texts(safe_paths@), nixpkgs@),
{
    let mut list = safe_paths;
    let mut last = "nixpkgs=".to_owned();
    last.append(nixpkgs);
    list.push(last);
    assert(texts(list@) =~= texts(safe_paths@).push("nixpkgs="@ + nixpkgs@));
    join(&list, ":")
}

impl Nix {
    /// Runs for `system` against the store at `remote`. Package sets are told that
    /// `system` is the only system.
    pub fn new(
        system: String,
        remote: String,
        build_timeout: u16,
        initial_heap_size: Option<String>,
    ) -> (res: Nix)
        ensures
            res@ == (NixView {
                system: system@,
                remote: remote@,
                build_timeout,
                limit_supported_systems: true,
                initial_heap_size: match initial_heap_size {
                    Some(size) => Some(size@),
                    None => None,
                },
            }),
    {
        Nix { system, remote, build_timeout, limit_supported_systems: true, initial_heap_size }
    }

    /// The same for another system.
    pub fn with_system(&self, system: String) -> (res: Nix)
        ensures
            res@ == (NixView { system: system@, ..self@ }),
    {
        let mut n = self.clone();
        n.system = system;
        n
    }

    /// The same, with package sets told that the system is the only one.
    pub fn with_limited_supported_systems(&self) -> (res: Nix)
        ensures
            res@ == (NixView { limit_supported_systems: true, ..self@ }),
    {
        let mut n = self.clone();
        n.limit_supported_systems = true;
        n
    }

    /// The same, with package sets left to choose their systems.
    pub fn without_limited_supported_systems(&self) -> (res: Nix)
        ensures
            res@ == (NixView { limit_supported_systems: false, ..self@ }),
    {
        let mut n = self.clone();
        n.limit_supported_systems = false;
        n
    }

    /// The command that performs `op` on the package set at `nixpkgs` with `args`,
    /// given the text of `NIX_PATH`. `path` is the search path for programs.
    pub fn command_with_nix_path(
        &self,
        op: Operation,
        nixpkgs: &FsPath,
        nix_path: &str,
        args: Vec<String>,
        path: &str,
    ) -> (res: Command)
        ensures
            res@ == self@.safe_command(op, nixpkgs@, nix_path@, texts(args@), path@),
    {
        let mut command = op.command();
        op.args(&mut command);

        command.env_clear();
        command.current_dir(nixpkgs);
        command.env("HOME", "/homeless-shelter");
        command.env("NIX_PATH", nix_path);
        command.env("NIX_REMOTE", self.remote.as_str());
        if let Some(size) = &self.initial_heap_size {
            command.env("GC_INITIAL_HEAP_SIZE", size.as_str());
        }
        command.env("PATH", path);

        command.args(&["--show-trace"]);
        command.args(&["--option", "restrict-eval", "true"]);
        let timeout = to_decimal(self.build_timeout);
        command.args(&["--option", "build-timeout", timeout.as_str()]);
        command.args(&["--argstr", "system", self.system.as_str()]);
        if self.limit_supported_systems {
            let mut systems = "[\"".to_owned();
            systems.append(self.system.as_str());
            systems.append("\"]");
            command.args(&["--arg", "supportedSystems", systems.as_str()]);
        }
        assert(command@.args =~= op.selection() + self@.restrictions());

        command.extend(args);
        assert(command@ =~= self@.safe_command(
            op,
            nixpkgs@,
            nix_path@,
            texts(args@),
            path@,
        ));
        command
    }

    /// The command that performs `op` on the package set at `nixpkgs` with `args`,
    /// and may read `safe_paths` besides. `path` is the search path for programs.
    pub fn safe_command(
        &self,
        op: Operation,
        nixpkgs: &FsPath,
        args: Vec<String>,
        safe_paths: Vec<&FsPath>,
        path: &str,
    ) -> (res: Command)
        ensures
            res@ == self@.safe_command(
                op,
                nixpkgs@,
                nix_path_of(shown(safe_paths@), utf8_lossy(nixpkgs@)),
                texts(args@),
                path@,
            ),
            shown_exactly_if_utf8(nixpkgs@),
            forall|i: int|
                0 <= i < safe_paths.len() ==> shown_exactly_if_utf8((#[trigger] safe_paths[i])@),
    {
        let nixpkgs_text = nixpkgs.display();
        let mut safe_texts: Vec<String> = Vec::new();
        let mut i: usize = 0;
        while i < safe_paths.len()
            invariant
                i <= safe_paths.len(),
                forall|k: int|
                    0 <= k < i ==> shown_exactly_if_utf8((#[trigger] safe_paths[k])@),
                texts(safe_texts@) == shown(safe_paths@).take(i as int),
            decreases safe_paths.len() - i,
        {
            let ghost before = texts(safe_texts@);
            safe_texts.push(safe_paths[i].display());
            assert(texts(safe_texts@) =~= before.push(utf8_lossy(safe_paths[i as int]@)));
            i = i + 1;
            assert(texts(safe_texts@) =~= shown(safe_paths@).take(i as int));
        }
        assert(texts(safe_texts@) =~= shown(safe_paths@));
        let nix_path = nix_path(safe_texts, nixpkgs_text.as_str());
        self.command_with_nix_path(op, nixpkgs, nix_path.as_str(), args, path)
    }

    /// The command that instantiates `attrs` of `file`.
    pub fn safely_instantiate_attrs_cmd(
        &self,
        nixpkgs: &FsPath,
        file: &str,
        attrs: Vec<String>,
        path: &str,
    ) -> (res: Command)
        ensures
            res@ == self@.attrs_command(
                Operation::Instantiate,
                nixpkgs@,
                file@,
                texts(attrs@),
                path@,
            ),
            shown_exactly_if_utf8(nixpkgs@),
    {
        let args = attr_args(file, attrs);
        let none: Vec<&FsPath> = Vec::new();
        assert(shown(none@) =~= Seq::empty());
        self.safe_command(Operation::Instantiate, nixpkgs, args, none, path)
    }

    /// The command that builds `attrs` of `file`.
    pub fn safely_build_attrs_cmd(
        &self,
        nixpkgs: &FsPath,
        file: &str,
        attrs: Vec<String>,
        path: &str,
    ) -> (res: Command)
        ensures
            res@ == self@.attrs_command(
                Operation::Build,
                nixpkgs@,
                file@,
                texts(attrs@),
                path@,
            ),
            shown_exactly_if_utf8(nixpkgs@),
    {
        let args = attr_args(file, attrs);
        let none: Vec<&FsPath> = Vec::new();
        assert(shown(none@) =~= Seq::empty());
        self.safe_command(Operation::Build, nixpkgs, args, none, path)
    }

    /// The command that evaluates `expr`, a function, on `argstrs` in their order.
    /// It may read `extra_paths` besides the package set.
    pub fn evaluate_expr_cmd_in_order(
        &self,
        nixpkgs: &FsPath,
        expr: &str,
        argstrs: Vec<(&str, &str)>,
        extra_paths: Vec<&FsPath>,
        path: &str,
    ) -> (res: Command)
        ensures
            res@ == self@.evaluate_command(
                nixpkgs@,
                expr@,
                pair_texts(argstrs@),
                shown(extra_paths@),
                path@,
            ),
            shown_exactly_if_utf8(nixpkgs@),
            forall|i: int|
                0 <= i < extra_paths.len() ==> shown_exactly_if_utf8((#[trigger] extra_paths[i])@),
    {
        let ghost pairs = pair_texts(argstrs@);
        let mut args: Vec<String> = Vec::new();
        args.push("--expr".to_owned());
        args.push(expr.to_owned());
        assert(texts(args@) =~= seq!["--expr"@, expr@] + argstr_flags(pairs.take(0)));
        let mut i: usize = 0;
        while i < argstrs.len()
            invariant
                i <= argstrs.len(),
                pairs == pair_texts(argstrs@),
                texts(args@) == seq!["--expr"@, expr@] + argstr_flags(pairs.take(i as int)),
            decreases argstrs.len() - i,
        {
            let ghost before = args@;
            let (name, value) = argstrs[i];
            args.push("--argstr".to_owned());
            args.push(name.to_owned());
            args.push(value.to_owned());
            proof {
                let done = pairs.take(i + 1);
                assert(done.drop_last() =~= pairs.take(i as int));
                assert(done.last() == (name@, value@));
                assert(texts(args@) =~= texts(before) + seq!["--argstr"@, name@, value@]);
                assert(texts(args@) =~= seq!["--expr"@, expr@] + argstr_flags(done));
            }
            i = i + 1;
        }
        assert(pairs.take(i as int) =~= pairs);
        self.safe_command(Operation::Evaluate, nixpkgs, args, extra_paths, path)
    }

    /// The command that evaluates `expr`, a function, on `argstrs`, in an arbitrary
    /// order. It may read `extra_paths` besides the package set.
    pub fn safely_evaluate_expr_cmd(
        &self,
        nixpkgs: &FsPath,
        expr: &str,
        argstrs: HashMap<&str, &str>,
        extra_paths: Vec<&FsPath>,
        path: &str,
    ) -> (res: Command)
        ensures
            exists|list: Seq<(&str, &str)>| #[trigger]
                lists_entries(list, argstrs@) && res@ == self@.evaluate_command(
                    nixpkgs@,
                    expr@,
                    pair_texts(list),
                    shown(extra_paths@),
                    path@,
                ),
            shown_exactly_if_utf8(nixpkgs@),
            forall|i: int|
                0 <= i < extra_paths.len() ==> shown_exactly_if_utf8((#[trigger] extra_paths[i])@),
    {
        let list = entries(argstrs);
        self.evaluate_expr_cmd_in_order(nixpkgs, expr, list, extra_paths, path)
    }

    /// Has `machine` run `cmd` once, and hands its log over as that of a success or of
    /// a failure. Standard error goes to the log, and so does standard output where it
    /// is to be kept.
    pub fn run<T, E: Fn(Job) -> Finished<T>, R: Fn(T) -> Vec<u8>>(
        &self,
        cmd: Command,
        keep_stdout: bool,
        machine: &mut Machine<T, E, R>,
    ) -> (res: Result<T, T>)
        requires
            old(machine).accepts(cmd@, sink_for(keep_stdout)),
        ensures
            final(machine).ran_once(*old(machine), cmd@, sink_for(keep_stdout), res),
    {
        let job = Job { command: cmd, sink: stdout_sink(keep_stdout) };
        assert(job.is_for(cmd@, sink_for(keep_stdout)));
        judge(machine.execute(job))
    }

    /// Performs `op` on the package set at `nixpkgs` with `args`.
    pub fn safely<T, E: Fn(Job) -> Finished<T>, R: Fn(T) -> Vec<u8>>(
        &self,
        op: Operation,
        nixpkgs: &FsPath,
        args: Vec<String>,
        keep_stdout: bool,
        path: &str,
        machine: &mut Machine<T, E, R>,
    ) -> (res: Result<T, T>)
        requires
            old(machine).accepts(
                self@.plain_command(op, nixpkgs@, texts(args@), path@),
                sink_for(keep_stdout),
            ),
        ensures
            final(machine).ran_once(
                *old(machine),
                self@.plain_command(op, nixpkgs@, texts(args@), path@),
                sink_for(keep_stdout),
                res,
            ),
            shown_exactly_if_utf8(nixpkgs@),
    {
        let none: Vec<&FsPath> = Vec::new();
        assert(shown(none@) =~= Seq::empty());
        let cmd = self.safe_command(op, nixpkgs, args, none, path);
        self.run(cmd, keep_stdout, machine)
    }

    /// Instantiates `attrs` of `file`.
    pub fn safely_instantiate_attrs<T, E: Fn(Job) -> Finished<T>, R: Fn(T) -> Vec<u8>>(
        &self,
        nixpkgs: &FsPath,
        file: &str,
        attrs: Vec<String>,
        path: &str,
        machine: &mut Machine<T, E, R>,
    ) -> (res: Result<T, T>)
        requires
            old(machine).accepts(
                self@.attrs_command(Operation::Instantiate, nixpkgs@, file@, texts(attrs@), path@),
                StdoutSink::Log,
            ),
        ensures
            final(machine).ran_once(
                *old(machine),
                self@.attrs_command(Operation::Instantiate, nixpkgs@, file@, texts(attrs@), path@),
                StdoutSink::Log,
                res,
            ),
            shown_exactly_if_utf8(nixpkgs@),
    {
        let cmd = self.safely_instantiate_attrs_cmd(nixpkgs, file, attrs, path);
        self.run(cmd, true, machine)
    }

    /// Builds `attrs` of `file`.
    pub fn safely_build_attrs<T, E: Fn(Job) -> Finished<T>, R: Fn(T) -> Vec<u8>>(
        &self,
        nixpkgs: &FsPath,
        file: &str,
        attrs: Vec<String>,
        path: &str,
        machine: &mut Machine<T, E, R>,
    ) -> (res: Result<T, T>)
        requires
            old(machine).accepts(
                self@.attrs_command(Operation::Build, nixpkgs@, file@, texts(attrs@), path@),
                StdoutSink::Log,
            ),
        ensures
            final(machine).ran_once(
                *old(machine),
                self@.attrs_command(Operation::Build, nixpkgs@, file@, texts(attrs@), path@),
                StdoutSink::Log,
                res,
            ),
            shown_exactly_if_utf8(nixpkgs@),
    {
        let cmd = self.safely_build_attrs_cmd(nixpkgs, file, attrs, path);
        self.run(cmd, true, machine)
    }

    /// Starts to build `attrs` of `file`, and hands over what `spawn` gives for the
    /// build under way.
    pub fn safely_build_attrs_async<S, P: FnOnce(Command) -> S>(
        &self,
        nixpkgs: &FsPath,
        file: &str,
        attrs: Vec<String>,
        path: &str,
        spawn: P,
    ) -> (res: S)
        requires
            forall|c: Command|
                c@ == self@.attrs_command(
                    Operation::Build,
                    nixpkgs@,
                    file@,
                    texts(attrs@),
                    path@,
                ) ==> #[trigger] call_requires(spawn, (c,)),
        ensures
            exists|c: Command|
                c@ == self@.attrs_command(
                    Operation::Build,
                    nixpkgs@,
                    file@,
                    texts(attrs@),
                    path@,
                ) && #[trigger] call_ensures(spawn, (c,), res),
            shown_exactly_if_utf8(nixpkgs@),
    {
        let cmd = self.safely_build_attrs_cmd(nixpkgs, file, attrs, path);
        spawn(cmd)
    }

    /// Tries to instantiate `attr` of `file`, and reads the log at once where that fails.
    fn try_attr<T, E: Fn(Job) -> Finished<T>, R: Fn(T) -> Vec<u8>>(
        &self,
        nixpkgs: &FsPath,
        file: &str,
        attr: &String,
        path: &str,
        machine: &mut Machine<T, E, R>,
    ) -> (res: Result<(), Vec<u8>>)
        requires
            old(machine).accepts(
                self@.attrs_command(Operation::Instantiate, nixpkgs@, file@, seq![attr@], path@),
                StdoutSink::Log,
            ),
            old(machine).reads_all(),
        ensures
            final(machine).continues(*old(machine)),
            is_try(
                final(machine).since(*old(machine)),
                self@.attrs_command(Operation::Instantiate, nixpkgs@, file@, seq![attr@], path@),
            ),
            outcome(final(machine).since(*old(machine))) == outcome_view(res),
            shown_exactly_if_utf8(nixpkgs@),
    {
        let mut one: Vec<String> = Vec::new();
        one.push(attr.clone());
        assert(texts(one@) =~= seq![attr@]);
        let ghost start = *machine;
        match self.safely_instantiate_attrs(nixpkgs, file, one, path, machine) {
            Ok(_) => Ok(()),
            Err(log) => {
                let ghost middle = *machine;
                let contents = machine.read(log);
                proof {
                    law_events_add_up(start, middle, *machine);
                    assert(machine.since(start)[0] == middle.since(start)[0]);
                }
                Err(contents)
            },
        }
    }

    /// Instantiates each of `attrs` of `file` by itself, once and in order. Gives the
    /// attributes that can be instantiated, and those that cannot, each with the lines
    /// of its log. The log of one that cannot is read, once, before the next is tried;
    /// no other log is read.
    pub fn safely_partition_instantiable_attrs<T, E: Fn(Job) -> Finished<T>, R: Fn(T) -> Vec<u8>>(
        &self,
        nixpkgs: &FsPath,
        file: &str,
        attrs: Vec<String>,
        path: &str,
        machine: &mut Machine<T, E, R>,
    ) -> (res: (Vec<String>, Vec<(String, Vec<String>)>))
        requires
            forall|attr: String| #[trigger]
                attrs@.contains(attr) ==> old(machine).accepts(
                    self@.attrs_command(Operation::Instantiate, nixpkgs@, file@, seq![attr@], path@),
                    StdoutSink::Log,
                ),
            old(machine).reads_all(),
        ensures
            final(machine).continues(*old(machine)),
            exists|tries: Seq<Seq<Event<T>>>|
                {
                    let found = verdicts(texts(attrs@), outcomes(tries));
                    &&& final(machine).since(*old(machine)) == #[trigger] in_a_row(tries)
                    &&& tries.len() == attrs.len()
                    &&& forall|i: int|
                        0 <= i < attrs.len() ==> is_try(
                            #[trigger] tries[i],
                            self@.attrs_command(Operation::Instantiate, nixpkgs@, file@, seq![attrs[i]@], path@),
                        )
                    &&& texts(res.0@) == successes(found)
                    &&& reports(res.1@) == failures(found)
                },
            attrs.len() > 0 ==> shown_exactly_if_utf8(nixpkgs@),
    {
        let ghost start = *machine;
        let ghost mut tries: Seq<Seq<Event<T>>> = Seq::empty();
        let mut results: Vec<Result<(), Vec<u8>>> = Vec::new();
        let mut i: usize = 0;
        proof {
            assert(machine.since(start) =~= Seq::empty());
            assert(machine.journal() =~= start.journal() + machine.since(start));
            assert(outcome_views(results@) =~= outcomes(tries));
        }
        while i < attrs.len()
            invariant
                i <= attrs.len(),
                forall|attr: String| #[trigger]
                    attrs@.contains(attr) ==> start.accepts(
                        self@.attrs_command(Operation::Instantiate, nixpkgs@, file@, seq![attr@], path@),
                        StdoutSink::Log,
                    ),
                start.reads_all(),
                machine.continues(start),
                machine.since(start) == in_a_row(tries),
                tries.len() == i,
                forall|k: int|
                    0 <= k < i ==> is_try(
                        #[trigger] tries[k],
                        self@.attrs_command(Operation::Instantiate, nixpkgs@, file@, seq![attrs[k]@], path@),
                    ),
                results.len() == i,
                outcome_views(results@) == outcomes(tries),
                i > 0 ==> shown_exactly_if_utf8(nixpkgs@),
            decreases attrs.len() - i,
        {
            let ghost before = *machine;
            let ghost earlier = outcomes(tries);
            assert(attrs@.contains(attrs@[i as int]));
            let result = self.try_attr(nixpkgs, file, &attrs[i], path, machine);
            results.push(result);
            proof {
                law_events_add_up(start, before, *machine);
                let events = machine.since(before);
                assert(tries.push(events).drop_last() =~= tries);
                tries = tries.push(events);
                assert(outcomes(tries) =~= earlier.push(outcome(events)));
                assert(outcome_views(results@) =~= earlier.push(outcome_view(result)));
            }
            i = i + 1;
        }
        partition_attrs(attrs, results)
    }
}

} // verus!
