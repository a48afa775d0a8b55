//! What holds of every command.
use vstd::prelude::*;

use crate::command::CommandView;
use crate::nix::{
    argstr_flags, attr_flags, lists_entries, nix_path_of, pair_texts, system_list, NixView,
    Operation,
};
use crate::path::utf8_lossy;
use crate::text::{decimal, digit, joined};

verus! {

/// Every command, whatever its operation and arguments, is told to evaluate in
/// restricted mode, under the timeout and for the system that were set. The arguments that say
/// so stand behind those of the operation and before those of the caller, which come
/// last, as they were given.
pub proof fn law_every_command_is_restricted(
    nix: NixView,
    op: Operation,
    nixpkgs: Seq<u8>,
    nix_path: Seq<char>,
    args: Seq<Seq<char>>,
    path: Seq<char>,
)
    ensures
        ({
            let all = nix.safe_command(op, nixpkgs, nix_path, args, path).args;
            let n = op.selection().len() as int;
            let m = n + nix.restrictions().len();
            &&& all.len() == m + args.len()
            &&& all.take(n) == op.selection()
            &&& all[n] == "--show-trace"@
            &&& all.subrange(n + 1, n + 4) == seq!["--option"@, "restrict-eval"@, "true"@]
            &&& all.subrange(n + 4, n + 7) == seq![
                "--option"@,
                "build-timeout"@,
                decimal(nix.build_timeout as nat),
            ]
            &&& all.subrange(n + 7, n + 10) == seq!["--argstr"@, "system"@, nix.system]
            &&& nix.limit_supported_systems ==> all.subrange(n + 10, m) == seq![
                "--arg"@,
                "supportedSystems"@,
                system_list(nix.system),
            ]
            &&& !nix.limit_supported_systems ==> m == n + 10
            &&& all.skip(m) == args
        }),
{
    let all = nix.safe_command(op, nixpkgs, nix_path, args, path).args;
    let n = op.selection().len() as int;
    let m = n + nix.restrictions().len();
    assert(all.take(n) =~= op.selection());
    assert(all.subrange(n + 1, n + 4) =~= seq!["--option"@, "restrict-eval"@, "true"@]);
    assert(all.subrange(n + 4, n + 7) =~= seq![
        "--option"@,
        "build-timeout"@,
        decimal(nix.build_timeout as nat),
    ]);
    assert(all.subrange(n + 7, n + 10) =~= seq!["--argstr"@, "system"@, nix.system]);
    if nix.limit_supported_systems {
        assert(all.subrange(n + 10, m) =~= seq![
            "--arg"@,
            "supportedSystems"@,
            system_list(nix.system),
        ]);
    }
    assert(all.skip(m) =~= args);
}

/// No command gets an environment variable of the process that runs it. The
/// variables it gets are a home, always the same, the paths that it may read, the
/// store, the search path, and, where one was set, the initial heap size. It runs in
/// the package set.
pub proof fn law_every_environment_is_isolated(
    nix: NixView,
    op: Operation,
    nixpkgs: Seq<u8>,
    nix_path: Seq<char>,
    args: Seq<Seq<char>>,
    path: Seq<char>,
)
    ensures
        ({
            let command = nix.safe_command(op, nixpkgs, nix_path, args, path);
            let common = set!["HOME"@, "NIX_PATH"@, "NIX_REMOTE"@, "PATH"@];
            &&& !command.inherits_env
            &&& command.dir == Some(nixpkgs)
            &&& command.vars["HOME"@] == "/homeless-shelter"@
            &&& command.vars["NIX_PATH"@] == nix_path
            &&& command.vars["NIX_REMOTE"@] == nix.remote
            &&& command.vars["PATH"@] == path
            &&& match nix.initial_heap_size {
                Some(size) => command.vars.dom() == common.insert("GC_INITIAL_HEAP_SIZE"@)
                    && command.vars["GC_INITIAL_HEAP_SIZE"@] == size,
                None => command.vars.dom() == common && !common.contains("GC_INITIAL_HEAP_SIZE"@),
            }
        }),
{
    reveal_strlit("HOME");
    reveal_strlit("NIX_PATH");
    reveal_strlit("NIX_REMOTE");
    reveal_strlit("PATH");
    reveal_strlit("GC_INITIAL_HEAP_SIZE");
    let vars = nix.safe_command(op, nixpkgs, nix_path, args, path).vars;
    let common = set!["HOME"@, "NIX_PATH"@, "NIX_REMOTE"@, "PATH"@];
    assert("HOME"@[0] != "PATH"@[0]);
    assert("NIX_PATH"@.len() == 8);
    assert("NIX_REMOTE"@.len() == 10);
    assert("GC_INITIAL_HEAP_SIZE"@.len() == 20);
    match nix.initial_heap_size {
        Some(_) => {
            assert(vars.dom() =~= common.insert("GC_INITIAL_HEAP_SIZE"@));
        },
        None => {
            assert(vars.dom() =~= common);
        },
    }
}

/// `command` gets no variable of the process that runs it, not even its home, and
/// is told to evaluate in restricted mode: the arguments that say so stand at `at`.
pub open spec fn confined(command: CommandView, at: int) -> bool {
    &&& !command.inherits_env
    &&& command.vars.contains_key("HOME"@)
    &&& command.vars["HOME"@] == "/homeless-shelter"@
    &&& 0 <= at && at + 3 <= command.args.len()
    &&& command.args.subrange(at, at + 3) == seq!["--option"@, "restrict-eval"@, "true"@]
}

/// Every command that performs an operation, on attributes or on anything else, and
/// every one that evaluates an expression, is confined.
pub proof fn law_named_commands_are_confined(
    nix: NixView,
    op: Operation,
    nixpkgs: Seq<u8>,
    args: Seq<Seq<char>>,
    file: Seq<char>,
    attrs: Seq<Seq<char>>,
    expr: Seq<char>,
    argstrs: Seq<(Seq<char>, Seq<char>)>,
    extra_paths: Seq<Seq<char>>,
    path: Seq<char>,
)
    ensures
        confined(
            nix.plain_command(op, nixpkgs, args, path),
            op.selection().len() as int + 1,
        ),
        confined(
            nix.attrs_command(op, nixpkgs, file, attrs, path),
            op.selection().len() as int + 1,
        ),
        confined(
            nix.evaluate_command(nixpkgs, expr, argstrs, extra_paths, path),
            Operation::Evaluate.selection().len() as int + 1,
        ),
{
    let alone = nix_path_of(Seq::empty(), utf8_lossy(nixpkgs));
    let more = nix_path_of(extra_paths, utf8_lossy(nixpkgs));
    let named = seq![file] + attr_flags(attrs);
    let given = seq!["--expr"@, expr] + argstr_flags(argstrs);
    law_every_command_is_restricted(nix, op, nixpkgs, alone, args, path);
    law_every_environment_is_isolated(nix, op, nixpkgs, alone, args, path);
    law_every_command_is_restricted(nix, op, nixpkgs, alone, named, path);
    law_every_environment_is_isolated(nix, op, nixpkgs, alone, named, path);
    law_every_command_is_restricted(nix, Operation::Evaluate, nixpkgs, more, given, path);
    law_every_environment_is_isolated(nix, Operation::Evaluate, nixpkgs, more, given, path);
}

/// An operation that is not performed is shown and given arguments as if it were,
/// but `echo` gets them. To put it off twice is to put it off once.
pub proof fn law_noop_only_prints(
    nix: NixView,
    op: Operation,
    nixpkgs: Seq<u8>,
    nix_path: Seq<char>,
    args: Seq<Seq<char>>,
    path: Seq<char>,
)
    ensures
        ({
            let noop = Operation::NoOp { operation: Box::new(op) };
            let twice = Operation::NoOp { operation: Box::new(noop) };
            let command = nix.safe_command(noop, nixpkgs, nix_path, args, path);
            &&& command == (CommandView {
                program: "echo"@,
                ..nix.safe_command(op, nixpkgs, nix_path, args, path)
            })
            &&& noop.label() == op.label()
            &&& nix.safe_command(twice, nixpkgs, nix_path, args, path) == command
            &&& twice.label() == noop.label()
        }),
{
    reveal_with_fuel(Operation::selection, 3);
    reveal_with_fuel(Operation::label, 3);
}

/// Of the two ways to treat other systems the last one chosen counts, and to choose
/// the one that is in force changes nothing.
pub proof fn law_last_limit_counts(nix: NixView, first: bool, last: bool)
    ensures
        ({
            let once = NixView { limit_supported_systems: last, ..nix };
            let before = NixView { limit_supported_systems: first, ..nix };
            (NixView { limit_supported_systems: last, ..before }) == once
        }),
        nix.limit_supported_systems == last ==> (NixView { limit_supported_systems: last, ..nix })
            == nix,
{
}

/// To limit a command to its system is to put three arguments behind the other
/// settings, and nothing else.
pub proof fn law_limit_adds_three_arguments(
    nix: NixView,
    op: Operation,
    nixpkgs: Seq<u8>,
    nix_path: Seq<char>,
    args: Seq<Seq<char>>,
    path: Seq<char>,
)
    ensures
        ({
            let limited = NixView { limit_supported_systems: true, ..nix };
            let open = NixView { limit_supported_systems: false, ..nix };
            &&& limited.restrictions() == open.restrictions() + seq![
                "--arg"@,
                "supportedSystems"@,
                system_list(nix.system),
            ]
            &&& limited.safe_command(op, nixpkgs, nix_path, args, path) == (CommandView {
                args: op.selection() + limited.restrictions() + args,
                ..open.safe_command(op, nixpkgs, nix_path, args, path)
            })
        }),
{
    let limited = NixView { limit_supported_systems: true, ..nix };
    let open = NixView { limit_supported_systems: false, ..nix };
    assert(limited.restrictions() =~= open.restrictions() + seq![
        "--arg"@,
        "supportedSystems"@,
        system_list(nix.system),
    ]);
}

/// Another system changes arguments only: the program, the environment and the
/// directory stay as they were. Of two systems chosen in turn the last counts.
pub proof fn law_system_changes_arguments_only(
    nix: NixView,
    first: Seq<char>,
    system: Seq<char>,
    op: Operation,
    nixpkgs: Seq<u8>,
    nix_path: Seq<char>,
    args: Seq<Seq<char>>,
    path: Seq<char>,
)
    ensures
        ({
            let other = NixView { system, ..nix };
            let command = other.safe_command(op, nixpkgs, nix_path, args, path);
            &&& command == (CommandView {
                args: op.selection() + other.restrictions() + args,
                ..nix.safe_command(op, nixpkgs, nix_path, args, path)
            })
            &&& (NixView { system, ..(NixView { system: first, ..nix }) }) == other
        }),
{
}

proof fn lemma_joined_push(list: Seq<Seq<char>>, last: Seq<char>, sep: Seq<char>)
    requires
        list.len() > 0,
    ensures
        joined(list.push(last), sep) == joined(list, sep) + sep + last,
    decreases list.len(),
{
    let all = list.push(last);
    assert(all.skip(1) =~= list.skip(1).push(last));
    if list.len() == 1 {
        assert(joined(all.skip(1), sep) == last);
    } else {
        lemma_joined_push(list.skip(1), last, sep);
    }
    assert(joined(all, sep) =~= joined(list, sep) + sep + last);
}

/// `NIX_PATH` names the package set last, behind the paths that may be read besides
/// it, and alone where there are none.
pub proof fn law_nix_path_ends_in_nixpkgs(safe_paths: Seq<Seq<char>>, nixpkgs: Seq<char>)
    ensures
        safe_paths.len() == 0 ==> nix_path_of(safe_paths, nixpkgs) == "nixpkgs="@ + nixpkgs,
        safe_paths.len() > 0 ==> nix_path_of(safe_paths, nixpkgs) == joined(safe_paths, ":"@)
            + ":"@ + ("nixpkgs="@ + nixpkgs),
{
    if safe_paths.len() > 0 {
        lemma_joined_push(safe_paths, "nixpkgs="@ + nixpkgs, ":"@);
    }
}

/// As many flags and names are given as there are attributes: none for none.
pub proof fn law_one_flag_per_attr(attrs: Seq<Seq<char>>)
    ensures
        attr_flags(attrs).len() == 2 * attrs.len(),
    decreases attrs.len(),
{
    if attrs.len() > 0 {
        law_one_flag_per_attr(attrs.drop_last());
    }
}

/// Each attribute is named in its place, behind a flag of its own.
pub proof fn law_each_attr_is_flagged(attrs: Seq<Seq<char>>, i: int)
    requires
        0 <= i < attrs.len(),
    ensures
        2 * i + 1 < attr_flags(attrs).len(),
        attr_flags(attrs)[2 * i] == "-A"@,
        attr_flags(attrs)[2 * i + 1] == attrs[i],
    decreases attrs.len(),
{
    let most = attrs.drop_last();
    law_one_flag_per_attr(attrs);
    law_one_flag_per_attr(most);
    if i < most.len() {
        law_each_attr_is_flagged(most, i);
    }
}

/// As many flags, names and values are given as there are arguments: none for none.
pub proof fn law_one_flag_per_argstr(argstrs: Seq<(Seq<char>, Seq<char>)>)
    ensures
        argstr_flags(argstrs).len() == 3 * argstrs.len(),
    decreases argstrs.len(),
{
    if argstrs.len() > 0 {
        law_one_flag_per_argstr(argstrs.drop_last());
    }
}

/// Each argument is handed over in its place, behind a flag of its own.
pub proof fn law_each_argstr_is_flagged(argstrs: Seq<(Seq<char>, Seq<char>)>, i: int)
    requires
        0 <= i < argstrs.len(),
    ensures
        3 * i + 2 < argstr_flags(argstrs).len(),
        argstr_flags(argstrs)[3 * i] == "--argstr"@,
        argstr_flags(argstrs)[3 * i + 1] == argstrs[i].0,
        argstr_flags(argstrs)[3 * i + 2] == argstrs[i].1,
    decreases argstrs.len(),
{
    let most = argstrs.drop_last();
    law_one_flag_per_argstr(argstrs);
    law_one_flag_per_argstr(most);
    if i < most.len() {
        law_each_argstr_is_flagged(most, i);
    }
}

/// Whatever the order in which a map is walked, as many arguments are handed over as it
/// has entries.
pub proof fn law_any_walk_is_as_long_as_the_map(list: Seq<(&str, &str)>, map: Map<&str, &str>)
    requires
        lists_entries(list, map),
    ensures
        list.len() == map.dom().len(),
        argstr_flags(pair_texts(list)).len() == 3 * map.dom().len(),
{
    law_one_flag_per_argstr(pair_texts(list));
    let names = list.map_values(|p: (&str, &str)| p.0);
    assert(names.no_duplicates()) by {
        assert forall|j: int, k: int|
            0 <= j < names.len() && 0 <= k < names.len() && j != k implies names[j] != names[k] by {
            if j < k {
                assert(list[j].0@ != list[k].0@);
            } else {
                assert(list[k].0@ != list[j].0@);
            }
        }
    }
    assert(names.to_set() =~= map.dom()) by {
        assert forall|n: &str| map.contains_key(n) implies names.contains(n) by {
            let j = choose|j: int| 0 <= j < list.len() && list[j] == (n, map[n]);
            assert(list.contains((n, map[n])));
            assert(names[j] == n);
        }
        assert forall|n: &str| names.contains(n) implies map.contains_key(n) by {
            let j = choose|j: int| 0 <= j < names.len() && names[j] == n;
            assert(map.contains_key(list[j].0));
        }
    }
    names.unique_seq_to_set();
}

/// Whatever the order in which a map is walked, each of its entries is handed over
/// behind a flag of its own.
pub proof fn law_any_walk_hands_over_the_map(
    list: Seq<(&str, &str)>,
    map: Map<&str, &str>,
    name: &str,
)
    requires
        lists_entries(list, map),
        map.contains_key(name),
    ensures
        exists|i: int|
            0 <= i < list.len() && argstr_flags(pair_texts(list))[3 * i] == "--argstr"@
                && argstr_flags(pair_texts(list))[3 * i + 1] == name@ && argstr_flags(
                pair_texts(list),
            )[3 * i + 2] == map[name]@ && #[trigger] list[i] == (name, map[name]),
{
    let pairs = pair_texts(list);
    assert(list.contains((name, map[name])));
    let i = choose|i: int| 0 <= i < list.len() && list[i] == (name, map[name]);
    law_each_argstr_is_flagged(pairs, i);
    assert(pairs[i] == (name@, map[name]@));
}

/// The value of a decimal digit.
pub open spec fn digit_value(c: char) -> int {
    c as int - '0' as int
}

/// The number that decimal digits stand for.
pub open spec fn decimal_value(digits: Seq<char>) -> int
    decreases digits.len(),
{
    if digits.len() == 0 {
        0
    } else {
        10 * decimal_value(digits.drop_last()) + digit_value(digits.last())
    }
}

/// A number reads back from its decimal digits.
pub proof fn law_decimal_reads_back(n: nat)
    ensures
        decimal_value(decimal(n)) == n,
    decreases n,
{
    let last = (n % 10) as int;
    assert(digit_value(digit(last)) == last);
    if n < 10 {
        assert(decimal(n).drop_last() =~= Seq::empty());
        reveal_with_fuel(decimal_value, 2);
    } else {
        law_decimal_reads_back(n / 10);
        assert(decimal(n).drop_last() =~= decimal(n / 10));
    }
}

} // verus!
