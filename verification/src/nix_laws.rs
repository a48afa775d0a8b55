//! What each command says, setting by setting.
use vstd::prelude::*;
use vstd::std_specs::cmp::PartialEqSpec;

use crate::command::{settings, CommandView};
use crate::command_laws::law_nix_path_ends_in_nixpkgs;
use crate::nix::{
    argstr_flags, attr_flags, lists_entries, nix_path_of, pair_texts, system_list, Nix, NixView,
    Operation,
};
use crate::path::utf8_lossy;
use crate::text::{decimal, joined};
use crate::text_laws::{
    law_each_item_is_joined_in, law_join_of_lists_in_a_row, law_join_of_none_and_one,
};

verus! {

/// Each operation has its program, the arguments that select it and a label. One that is
/// not performed has the arguments and the label of the one that it stands for.
pub proof fn law_each_operation_has_its_tool(op: Operation)
    ensures
        match op {
            Operation::Evaluate => {
                &&& op.program() == "nix-instantiate"@
                &&& op.selection() == seq!["--eval"@, "--strict"@, "--json"@]
                &&& op.label() == "nix-instantiate --strict --json ..."@
            },
            Operation::Instantiate => {
                &&& op.program() == "nix-instantiate"@
                &&& op.selection() == Seq::<Seq<char>>::empty()
                &&& op.label() == "nix-instantiate"@
            },
            Operation::Build => {
                &&& op.program() == "nix-build"@
                &&& op.selection() == seq!["--no-out-link"@, "--keep-going"@]
                &&& op.label() == "nix-build"@
            },
            Operation::QueryPackagesJSON => {
                &&& op.program() == "nix-env"@
                &&& op.selection() == seq!["--query"@, "--available"@, "--json"@]
                &&& op.label() == "nix-env -qa --json"@
            },
            Operation::QueryPackagesOutputs => {
                &&& op.program() == "nix-env"@
                &&& op.selection() == seq![
                    "--query"@,
                    "--available"@,
                    "--no-name"@,
                    "--attr-path"@,
                    "--out-path"@,
                ]
                &&& op.label() == "nix-env -qaP --no-name --out-path"@
            },
            Operation::NoOp { operation } => {
                &&& op.program() == "echo"@
                &&& op.selection() == operation.selection()
                &&& op.label() == operation.label()
            },
            Operation::Unknown { program } => {
                &&& op.program() == program@
                &&& op.selection() == Seq::<Seq<char>>::empty()
                &&& op.label() == program@
            },
        },
{
}

/// The settings that every command gets are these, in this order, and no others. The list
/// of systems names the system alone.
pub proof fn law_settings_in_full(nix: NixView)
    ensures
        system_list(nix.system) == "[\""@ + nix.system + "\"]"@,
        nix.restrictions() == seq![
            "--show-trace"@,
            "--option"@,
            "restrict-eval"@,
            "true"@,
            "--option"@,
            "build-timeout"@,
            decimal(nix.build_timeout as nat),
            "--argstr"@,
            "system"@,
            nix.system,
        ] + (if nix.limit_supported_systems {
            seq!["--arg"@, "supportedSystems"@, "[\""@ + nix.system + "\"]"@]
        } else {
            Seq::empty()
        }),
{
}

/// A command runs the program of its operation on the arguments that select it, the
/// settings and the arguments of the caller, whatever the operation. It runs in the
/// package set, in an environment that holds what was set and nothing else.
pub proof fn law_safe_command_in_full(
    nix: NixView,
    op: Operation,
    nixpkgs: Seq<u8>,
    nix_path: Seq<char>,
    args: Seq<Seq<char>>,
    path: Seq<char>,
)
    ensures
        ({
            let command = nix.safe_command(op, nixpkgs, nix_path, args, path);
            &&& command.program == (match op {
                Operation::Evaluate => "nix-instantiate"@,
                Operation::Instantiate => "nix-instantiate"@,
                Operation::Build => "nix-build"@,
                Operation::QueryPackagesJSON => "nix-env"@,
                Operation::QueryPackagesOutputs => "nix-env"@,
                Operation::NoOp { operation } => "echo"@,
                Operation::Unknown { program } => program@,
            })
            &&& command.args == op.selection() + seq![
                "--show-trace"@,
                "--option"@,
                "restrict-eval"@,
                "true"@,
                "--option"@,
                "build-timeout"@,
                decimal(nix.build_timeout as nat),
                "--argstr"@,
                "system"@,
                nix.system,
            ] + (if nix.limit_supported_systems {
                seq!["--arg"@, "supportedSystems"@, "[\""@ + nix.system + "\"]"@]
            } else {
                Seq::empty()
            }) + args
            &&& !command.inherits_env
            &&& command.dir == Some(nixpkgs)
            &&& forall|name: Seq<char>| #[trigger]
                command.vars.contains_key(name) <==> {
                    ||| name == "HOME"@
                    ||| name == "NIX_PATH"@
                    ||| name == "NIX_REMOTE"@
                    ||| name == "PATH"@
                    ||| name == "GC_INITIAL_HEAP_SIZE"@ && nix.initial_heap_size is Some
                }
            &&& command.vars["HOME"@] == "/homeless-shelter"@
            &&& command.vars["NIX_PATH"@] == nix_path
            &&& command.vars["NIX_REMOTE"@] == nix.remote
            &&& command.vars["PATH"@] == path
            &&& nix.initial_heap_size matches Some(size)
                ==> command.vars["GC_INITIAL_HEAP_SIZE"@] == size
        }),
{
    reveal_strlit("HOME");
    reveal_strlit("NIX_PATH");
    reveal_strlit("NIX_REMOTE");
    reveal_strlit("PATH");
    reveal_strlit("GC_INITIAL_HEAP_SIZE");
    assert("HOME"@[0] != "PATH"@[0]);
    assert("NIX_PATH"@.len() == 8);
    assert("NIX_REMOTE"@.len() == 10);
    assert("GC_INITIAL_HEAP_SIZE"@.len() == 20);
    law_settings_in_full(nix);
}

/// A command that may read nothing besides the package set hands on all its arguments,
/// whatever the operation, and names the package set alone in `NIX_PATH`.
pub proof fn law_plain_command_in_full(
    nix: NixView,
    op: Operation,
    nixpkgs: Seq<u8>,
    args: Seq<Seq<char>>,
    path: Seq<char>,
)
    ensures
        ({
            let command = nix.plain_command(op, nixpkgs, args, path);
            &&& command.program == (match op {
                Operation::Evaluate => "nix-instantiate"@,
                Operation::Instantiate => "nix-instantiate"@,
                Operation::Build => "nix-build"@,
                Operation::QueryPackagesJSON => "nix-env"@,
                Operation::QueryPackagesOutputs => "nix-env"@,
                Operation::NoOp { operation } => "echo"@,
                Operation::Unknown { program } => program@,
            })
            &&& command.args == op.selection() + seq![
                "--show-trace"@,
                "--option"@,
                "restrict-eval"@,
                "true"@,
                "--option"@,
                "build-timeout"@,
                decimal(nix.build_timeout as nat),
                "--argstr"@,
                "system"@,
                nix.system,
            ] + (if nix.limit_supported_systems {
                seq!["--arg"@, "supportedSystems"@, "[\""@ + nix.system + "\"]"@]
            } else {
                Seq::empty()
            }) + args
            &&& !command.inherits_env
            &&& command.dir == Some(nixpkgs)
            &&& forall|name: Seq<char>| #[trigger]
                command.vars.contains_key(name) <==> {
                    ||| name == "HOME"@
                    ||| name == "NIX_PATH"@
                    ||| name == "NIX_REMOTE"@
                    ||| name == "PATH"@
                    ||| name == "GC_INITIAL_HEAP_SIZE"@ && nix.initial_heap_size is Some
                }
            &&& command.vars["HOME"@] == "/homeless-shelter"@
            &&& command.vars["NIX_PATH"@] == "nixpkgs="@ + utf8_lossy(nixpkgs)
            &&& command.vars["NIX_REMOTE"@] == nix.remote
            &&& command.vars["PATH"@] == path
            &&& nix.initial_heap_size matches Some(size)
                ==> command.vars["GC_INITIAL_HEAP_SIZE"@] == size
        }),
{
    let nix_path = nix_path_of(Seq::empty(), utf8_lossy(nixpkgs));
    law_nix_path_ends_in_nixpkgs(Seq::empty(), utf8_lossy(nixpkgs));
    law_safe_command_in_full(nix, op, nixpkgs, nix_path, args, path);
}

/// A command on attributes of a file names the file and then the attributes, behind the
/// settings of this very `nix`, whatever the operation, and may read the package set.
pub proof fn law_attrs_command_in_full(
    nix: NixView,
    op: Operation,
    nixpkgs: Seq<u8>,
    file: Seq<char>,
    attrs: Seq<Seq<char>>,
    path: Seq<char>,
)
    ensures
        ({
            let command = nix.attrs_command(op, nixpkgs, file, attrs, path);
            &&& command.program == (match op {
                Operation::Evaluate => "nix-instantiate"@,
                Operation::Instantiate => "nix-instantiate"@,
                Operation::Build => "nix-build"@,
                Operation::QueryPackagesJSON => "nix-env"@,
                Operation::QueryPackagesOutputs => "nix-env"@,
                Operation::NoOp { operation } => "echo"@,
                Operation::Unknown { program } => program@,
            })
            &&& command.args == op.selection() + seq![
                "--show-trace"@,
                "--option"@,
                "restrict-eval"@,
                "true"@,
                "--option"@,
                "build-timeout"@,
                decimal(nix.build_timeout as nat),
                "--argstr"@,
                "system"@,
                nix.system,
            ] + (if nix.limit_supported_systems {
                seq!["--arg"@, "supportedSystems"@, "[\""@ + nix.system + "\"]"@]
            } else {
                Seq::empty()
            }) + (seq![file] + attr_flags(attrs))
            &&& !command.inherits_env
            &&& command.dir == Some(nixpkgs)
            &&& forall|name: Seq<char>| #[trigger]
                command.vars.contains_key(name) <==> {
                    ||| name == "HOME"@
                    ||| name == "NIX_PATH"@
                    ||| name == "NIX_REMOTE"@
                    ||| name == "PATH"@
                    ||| name == "GC_INITIAL_HEAP_SIZE"@ && nix.initial_heap_size is Some
                }
            &&& command.vars["HOME"@] == "/homeless-shelter"@
            &&& command.vars["NIX_PATH"@] == "nixpkgs="@ + utf8_lossy(nixpkgs)
            &&& command.vars["NIX_REMOTE"@] == nix.remote
            &&& command.vars["PATH"@] == path
            &&& nix.initial_heap_size matches Some(size)
                ==> command.vars["GC_INITIAL_HEAP_SIZE"@] == size
        }),
{
    law_plain_command_in_full(nix, op, nixpkgs, seq![file] + attr_flags(attrs), path);
}

/// A command that evaluates an expression gets the expression and then its arguments,
/// behind the settings, and may read all the extra paths besides the package set.
pub proof fn law_evaluate_command_in_full(
    nix: NixView,
    nixpkgs: Seq<u8>,
    expr: Seq<char>,
    argstrs: Seq<(Seq<char>, Seq<char>)>,
    extra_paths: Seq<Seq<char>>,
    path: Seq<char>,
)
    ensures
        ({
            let command = nix.evaluate_command(nixpkgs, expr, argstrs, extra_paths, path);
            &&& command.program == ("nix-instantiate"@)
            &&& command.args == seq!["--eval"@, "--strict"@, "--json"@] + seq![
                "--show-trace"@,
                "--option"@,
                "restrict-eval"@,
                "true"@,
                "--option"@,
                "build-timeout"@,
                decimal(nix.build_timeout as nat),
                "--argstr"@,
                "system"@,
                nix.system,
            ] + (if nix.limit_supported_systems {
                seq!["--arg"@, "supportedSystems"@, "[\""@ + nix.system + "\"]"@]
            } else {
                Seq::empty()
            }) + (seq!["--expr"@, expr] + argstr_flags(argstrs))
            &&& !command.inherits_env
            &&& command.dir == Some(nixpkgs)
            &&& forall|name: Seq<char>| #[trigger]
                command.vars.contains_key(name) <==> {
                    ||| name == "HOME"@
                    ||| name == "NIX_PATH"@
                    ||| name == "NIX_REMOTE"@
                    ||| name == "PATH"@
                    ||| name == "GC_INITIAL_HEAP_SIZE"@ && nix.initial_heap_size is Some
                }
            &&& command.vars["HOME"@] == "/homeless-shelter"@
            &&& command.vars["NIX_PATH"@] == joined(
                extra_paths + seq!["nixpkgs="@ + utf8_lossy(nixpkgs)],
                ":"@,
            )
            &&& command.vars["NIX_REMOTE"@] == nix.remote
            &&& command.vars["PATH"@] == path
            &&& nix.initial_heap_size matches Some(size)
                ==> command.vars["GC_INITIAL_HEAP_SIZE"@] == size
        }),
{
    let last = "nixpkgs="@ + utf8_lossy(nixpkgs);
    let args = seq!["--expr"@, expr] + argstr_flags(argstrs);
    assert(extra_paths.push(last) =~= extra_paths + seq![last]);
    law_safe_command_in_full(
        nix,
        Operation::Evaluate,
        nixpkgs,
        nix_path_of(extra_paths, utf8_lossy(nixpkgs)),
        args,
        path,
    );
}

/// One path more to read, before the others, comes first in `NIX_PATH`, with a colon
/// behind it, and changes nothing else of the command. With none, the package set stands
/// there alone.
pub proof fn law_one_path_more_comes_first(
    nix: NixView,
    nixpkgs: Seq<u8>,
    expr: Seq<char>,
    argstrs: Seq<(Seq<char>, Seq<char>)>,
    first: Seq<char>,
    others: Seq<Seq<char>>,
    path: Seq<char>,
)
    ensures
        ({
            let none = nix.evaluate_command(nixpkgs, expr, argstrs, Seq::empty(), path);
            let few = nix.evaluate_command(nixpkgs, expr, argstrs, others, path);
            let more = nix.evaluate_command(nixpkgs, expr, argstrs, seq![first] + others, path);
            &&& none.vars["NIX_PATH"@] == "nixpkgs="@ + utf8_lossy(nixpkgs)
            &&& more.vars["NIX_PATH"@] == first + ":"@ + few.vars["NIX_PATH"@]
            &&& more == (CommandView {
                vars: few.vars.insert("NIX_PATH"@, first + ":"@ + few.vars["NIX_PATH"@]),
                ..few
            })
        }),
{
    let last = "nixpkgs="@ + utf8_lossy(nixpkgs);
    law_evaluate_command_in_full(nix, nixpkgs, expr, argstrs, Seq::empty(), path);
    law_evaluate_command_in_full(nix, nixpkgs, expr, argstrs, others, path);
    law_evaluate_command_in_full(nix, nixpkgs, expr, argstrs, seq![first] + others, path);
    assert(Seq::<Seq<char>>::empty() + seq![last] =~= seq![last]);
    law_join_of_none_and_one(last, ":"@);
    law_join_of_none_and_one(first, ":"@);
    assert(seq![first] + others + seq![last] =~= seq![first] + (others + seq![last]));
    law_join_of_lists_in_a_row(seq![first], others + seq![last], ":"@);
    let few = nix.evaluate_command(nixpkgs, expr, argstrs, others, path);
    let more = nix.evaluate_command(nixpkgs, expr, argstrs, seq![first] + others, path);
    let grown = few.vars.insert("NIX_PATH"@, first + ":"@ + few.vars["NIX_PATH"@]);
    assert forall|name: Seq<char>| more.vars.contains_key(name) implies more.vars[name]
        == grown[name] by {
        assert(few.vars.contains_key(name));
    }
    assert(more.vars.dom() =~= grown.dom()) by {
        assert forall|name: Seq<char>| more.vars.dom().contains(name) == grown.dom().contains(
            name,
        ) by {
            assert(more.vars.contains_key(name) <==> few.vars.contains_key(name));
            assert(few.vars.contains_key("NIX_PATH"@));
        }
    }
    assert(more.vars =~= grown);
}

/// Each of the paths to read stands in `NIX_PATH` in its place, between colons but at the
/// start, and the package set behind them all.
pub proof fn law_each_extra_path_can_be_read(
    nix: NixView,
    nixpkgs: Seq<u8>,
    expr: Seq<char>,
    argstrs: Seq<(Seq<char>, Seq<char>)>,
    extra_paths: Seq<Seq<char>>,
    path: Seq<char>,
    i: int,
)
    requires
        0 <= i < extra_paths.len(),
    ensures
        ({
            let before = nix.evaluate_command(nixpkgs, expr, argstrs, extra_paths.take(i), path);
            let rest = extra_paths.skip(i + 1);
            let behind = nix.evaluate_command(nixpkgs, expr, argstrs, rest, path);
            let all = nix.evaluate_command(nixpkgs, expr, argstrs, extra_paths, path);
            let start = if i == 0 {
                Seq::empty()
            } else {
                joined(extra_paths.take(i), ":"@) + ":"@
            };
            &&& all.vars["NIX_PATH"@] == start + extra_paths[i] + (":"@ + behind.vars["NIX_PATH"@])
            &&& before.vars["NIX_PATH"@] == start + ("nixpkgs="@ + utf8_lossy(nixpkgs))
        }),
{
    let last = "nixpkgs="@ + utf8_lossy(nixpkgs);
    let list = extra_paths + seq![last];
    let few = extra_paths.take(i) + seq![last];
    law_evaluate_command_in_full(nix, nixpkgs, expr, argstrs, extra_paths.take(i), path);
    law_evaluate_command_in_full(nix, nixpkgs, expr, argstrs, extra_paths.skip(i + 1), path);
    law_evaluate_command_in_full(nix, nixpkgs, expr, argstrs, extra_paths, path);
    law_each_item_is_joined_in(list, ":"@, i);
    law_each_item_is_joined_in(few, ":"@, i);
    assert(list.take(i) =~= extra_paths.take(i));
    assert(few.take(i) =~= extra_paths.take(i));
    assert(list.skip(i + 1) =~= extra_paths.skip(i + 1) + seq![last]);
    let start = if i == 0 {
        Seq::empty()
    } else {
        joined(extra_paths.take(i), ":"@) + ":"@
    };
    assert(start + last + Seq::<char>::empty() =~= start + last);
}

/// To build attributes and to instantiate them takes the same command, but for the program
/// and the two arguments that come first.
pub proof fn law_build_differs_from_instantiate_in_front(
    nix: NixView,
    nixpkgs: Seq<u8>,
    file: Seq<char>,
    attrs: Seq<Seq<char>>,
    path: Seq<char>,
)
    ensures
        ({
            let instantiate = nix.attrs_command(Operation::Instantiate, nixpkgs, file, attrs, path);
            nix.attrs_command(Operation::Build, nixpkgs, file, attrs, path) == (CommandView {
                program: "nix-build"@,
                args: seq!["--no-out-link"@, "--keep-going"@] + instantiate.args,
                ..instantiate
            })
        }),
{
    let instantiate = nix.attrs_command(Operation::Instantiate, nixpkgs, file, attrs, path);
    let build = nix.attrs_command(Operation::Build, nixpkgs, file, attrs, path);
    assert(build.args =~= seq!["--no-out-link"@, "--keep-going"@] + instantiate.args);
}

/// One attribute more is named behind the others, and changes nothing else.
pub proof fn law_one_attr_more_comes_last(
    nix: NixView,
    op: Operation,
    nixpkgs: Seq<u8>,
    file: Seq<char>,
    attrs: Seq<Seq<char>>,
    last: Seq<char>,
    path: Seq<char>,
)
    ensures
        nix.attrs_command(op, nixpkgs, file, attrs.push(last), path) == nix.attrs_command(
            op,
            nixpkgs,
            file,
            attrs,
            path,
        ).with_args(seq!["-A"@, last]),
{
    assert(attrs.push(last).drop_last() =~= attrs);
    let more = nix.attrs_command(op, nixpkgs, file, attrs.push(last), path);
    let few = nix.attrs_command(op, nixpkgs, file, attrs, path);
    assert(more.args =~= few.args + seq!["-A"@, last]);
}

/// A bare program has no arguments and no settings. Arguments that are added come behind
/// the others, and change nothing else.
pub proof fn law_bare_program_and_more_arguments(
    program: Seq<char>,
    command: CommandView,
    more: Seq<Seq<char>>,
)
    ensures
        CommandView::of_program(program).program == program,
        CommandView::of_program(program).args.len() == 0,
        CommandView::of_program(program).vars == Map::<Seq<char>, Seq<char>>::empty(),
        CommandView::of_program(program).inherits_env,
        CommandView::of_program(program).dir is None,
        command.with_args(more).args == command.args + more,
        command.with_args(more).program == command.program,
        command.with_args(more).vars == command.vars,
        command.with_args(more).inherits_env == command.inherits_env,
        command.with_args(more).dir == command.dir,
{
}

/// No settings leave no variables; one more leaves its name with its value, whatever that
/// name had before, and the other variables as they were.
pub proof fn law_later_setting_counts(
    list: Seq<(String, String)>,
    name: String,
    value: String,
    other: Seq<char>,
)
    ensures
        settings(Seq::empty()) == Map::<Seq<char>, Seq<char>>::empty(),
        settings(list.push((name, value))).contains_key(name@),
        settings(list.push((name, value)))[name@] == value@,
        other != name@ ==> {
            &&& settings(list.push((name, value))).contains_key(other) == settings(
                list,
            ).contains_key(other)
            &&& settings(list.push((name, value)))[other] == settings(list)[other]
        },
{
    assert(list.push((name, value)).drop_last() =~= list);
}

/// A list of names and values is seen pair by pair, each in its place.
pub proof fn law_pairs_stand_in_place(list: Seq<(&str, &str)>)
    ensures
        pair_texts(list).len() == list.len(),
        forall|i: int|
            0 <= i < list.len() ==> #[trigger] pair_texts(list)[i] == (list[i].0@, list[i].1@),
{
}

/// A list holds the entries of a map exactly where each of its pairs is an entry of the
/// map, each entry of the map is one of its pairs, and no name comes twice.
pub proof fn law_walk_names_each_entry_once(list: Seq<(&str, &str)>, map: Map<&str, &str>)
    ensures
        lists_entries(list, map) <==> {
            &&& forall|i: int|
                0 <= i < list.len() ==> map.contains_key((#[trigger] list[i]).0)
                    && map[list[i].0] == list[i].1
            &&& forall|name: &str| #[trigger]
                map.contains_key(name) ==> exists|i: int|
                    0 <= i < list.len() && #[trigger] list[i] == (name, map[name])
            &&& forall|i: int, j: int|
                0 <= i < j < list.len() ==> (#[trigger] list[i]).0@ != (#[trigger] list[j]).0@
        },
{
}

/// Two are equal exactly where they agree in the system, the store, the timeout, the limit
/// and the heap size.
pub proof fn law_equal_where_all_settings_agree(a: Nix, b: Nix)
    ensures
        Nix::obeys_eq_spec(),
        a.eq_spec(&b) <==> {
            &&& a@.system == b@.system
            &&& a@.remote == b@.remote
            &&& a@.build_timeout == b@.build_timeout
            &&& a@.limit_supported_systems == b@.limit_supported_systems
            &&& a@.initial_heap_size == b@.initial_heap_size
        },
{
}

} // verus!
