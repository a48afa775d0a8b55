//! How calls relate to each other and to what goes into them.
use std::collections::HashMap;

use vstd::prelude::*;
use vstd::utf8::{decode_utf8, valid_utf8};

use crate::command::Command;
use crate::command_laws::{
    law_any_walk_hands_over_the_map, law_any_walk_is_as_long_as_the_map,
    law_each_argstr_is_flagged, law_each_attr_is_flagged, law_nix_path_ends_in_nixpkgs,
    law_one_flag_per_argstr, law_one_flag_per_attr,
};
use crate::log_laws::{law_ended_line_in_full, law_last_line_in_full};
use crate::nix::{argstr_flags, attr_flags, lists_entries, nix_path, pair_texts, Nix, Operation};
use crate::nix_laws::{law_attrs_command_in_full, law_evaluate_command_in_full};
use crate::output::{
    judge, lines, lines_from_file, outcome_views, partition_attrs, partition_result,
    reports, stdout_sink, verdicts, Finished, StdoutSink,
};
use crate::path::{shown, utf8_lossy, FsPath};
use crate::text::{decimal, join, joined, texts, to_decimal};
use crate::text_laws::law_decimal_grows_by_a_digit;

verus! {

/// A new one is set as it is told to be, with package sets told that its system is the only
/// one. Each of the other settings chosen later changes that setting alone.
pub proof fn law_each_choice_changes_one_setting(
    system: String,
    remote: String,
    build_timeout: u16,
    initial_heap_size: Option<String>,
    fresh: Nix,
    other_system: String,
    moved: Nix,
    open: Nix,
    limited: Nix,
)
    requires
        call_ensures(Nix::new, (system, remote, build_timeout, initial_heap_size), fresh),
        call_ensures(Nix::with_system, (&fresh, other_system), moved),
        call_ensures(Nix::without_limited_supported_systems, (&moved,), open),
        call_ensures(Nix::with_limited_supported_systems, (&open,), limited),
    ensures
        fresh@.system == system@,
        moved@.system == other_system@,
        open@.system == other_system@,
        fresh@.limit_supported_systems,
        moved@.limit_supported_systems,
        !open@.limit_supported_systems,
        limited@ == moved@,
        forall|nix: Nix|
            #![trigger nix@]
            (nix == fresh || nix == moved || nix == open || nix == limited) ==> {
                &&& nix@.remote == remote@
                &&& nix@.build_timeout == build_timeout
                &&& match initial_heap_size {
                    Some(size) => nix@.initial_heap_size == Some(size@),
                    None => nix@.initial_heap_size is None,
                }
            },
{
}

/// The command to build attributes runs `nix-build`, for the system and under the timeout of
/// the very one that was asked for it, on the file and then on each attribute, in order.
pub proof fn law_build_command_of_a_call(
    nix: Nix,
    nixpkgs: FsPath,
    file: &str,
    attrs: Vec<String>,
    path: &str,
    command: Command,
    program: &String,
    args: &Vec<String>,
    i: int,
)
    requires
        call_ensures(Nix::safely_build_attrs_cmd, (&nix, &nixpkgs, file, attrs, path), command),
        call_ensures(Command::get_program, (&command,), program),
        call_ensures(Command::get_args, (&command,), args),
    ensures
        program@ == "nix-build"@,
        command@.dir == Some(nixpkgs@),
        !command@.inherits_env,
        command@.vars["NIX_PATH"@] == "nixpkgs="@ + utf8_lossy(nixpkgs@),
        command@.vars["NIX_REMOTE"@] == nix@.remote,
        command@.vars["PATH"@] == path@,
        ({
            let at: int = if nix@.limit_supported_systems {
                15
            } else {
                12
            };
            &&& args.len() == at + 1 + 2 * attrs.len()
            &&& args@[0]@ == "--no-out-link"@
            &&& args@[1]@ == "--keep-going"@
            &&& args@[2]@ == "--show-trace"@
            &&& args@[3]@ == "--option"@
            &&& args@[4]@ == "restrict-eval"@
            &&& args@[5]@ == "true"@
            &&& args@[6]@ == "--option"@
            &&& args@[7]@ == "build-timeout"@
            &&& args@[8]@ == decimal(nix@.build_timeout as nat)
            &&& args@[9]@ == "--argstr"@
            &&& args@[10]@ == "system"@
            &&& args@[11]@ == nix@.system
            &&& nix@.limit_supported_systems ==> {
                &&& args@[12]@ == "--arg"@
                &&& args@[13]@ == "supportedSystems"@
                &&& args@[14]@ == "[\""@ + nix@.system + "\"]"@
            }
            &&& args@[at]@ == file@
            &&& 0 <= i < attrs.len() ==> {
                &&& args@[at + 1 + 2 * i]@ == "-A"@
                &&& args@[at + 2 + 2 * i]@ == attrs@[i]@
            }
        }),
{
    let names = texts(attrs@);
    let op = Operation::Build;
    law_attrs_command_in_full(nix@, op, nixpkgs@, file@, names, path@);
    law_one_flag_per_attr(names);
    let all = texts(args@);
    assert(all.len() == args.len());
    let at: int = if nix@.limit_supported_systems {
        15
    } else {
        12
    };
    assert(all[at] == file@);
    if 0 <= i < attrs.len() {
        law_each_attr_is_flagged(names, i);
        assert(all[at + 1 + 2 * i] == attr_flags(names)[2 * i]);
        assert(all[at + 2 + 2 * i] == attr_flags(names)[2 * i + 1]);
    }
    assert(all[0] == args@[0]@);
    assert(all[1] == args@[1]@);
    assert(all[2] == args@[2]@);
    assert(all[3] == args@[3]@);
    assert(all[4] == args@[4]@);
    assert(all[5] == args@[5]@);
    assert(all[6] == args@[6]@);
    assert(all[7] == args@[7]@);
    assert(all[8] == args@[8]@);
    assert(all[9] == args@[9]@);
    assert(all[10] == args@[10]@);
    assert(all[11] == args@[11]@);
    if nix@.limit_supported_systems {
        assert(all[12] == args@[12]@);
        assert(all[13] == args@[13]@);
        assert(all[14] == args@[14]@);
    }
}

/// The command to instantiate attributes runs `nix-instantiate`, for the system and under the
/// timeout of the very one that was asked for it, on the file and then on each attribute, in
/// order.
pub proof fn law_instantiate_command_of_a_call(
    nix: Nix,
    nixpkgs: FsPath,
    file: &str,
    attrs: Vec<String>,
    path: &str,
    command: Command,
    program: &String,
    args: &Vec<String>,
    i: int,
)
    requires
        call_ensures(
            Nix::safely_instantiate_attrs_cmd,
            (&nix, &nixpkgs, file, attrs, path),
            command,
        ),
        call_ensures(Command::get_program, (&command,), program),
        call_ensures(Command::get_args, (&command,), args),
    ensures
        program@ == "nix-instantiate"@,
        command@.dir == Some(nixpkgs@),
        !command@.inherits_env,
        command@.vars["NIX_PATH"@] == "nixpkgs="@ + utf8_lossy(nixpkgs@),
        command@.vars["NIX_REMOTE"@] == nix@.remote,
        command@.vars["PATH"@] == path@,
        ({
            let at: int = if nix@.limit_supported_systems {
                13
            } else {
                10
            };
            &&& args.len() == at + 1 + 2 * attrs.len()
            &&& args@[0]@ == "--show-trace"@
            &&& args@[1]@ == "--option"@
            &&& args@[2]@ == "restrict-eval"@
            &&& args@[3]@ == "true"@
            &&& args@[4]@ == "--option"@
            &&& args@[5]@ == "build-timeout"@
            &&& args@[6]@ == decimal(nix@.build_timeout as nat)
            &&& args@[7]@ == "--argstr"@
            &&& args@[8]@ == "system"@
            &&& args@[9]@ == nix@.system
            &&& nix@.limit_supported_systems ==> {
                &&& args@[10]@ == "--arg"@
                &&& args@[11]@ == "supportedSystems"@
                &&& args@[12]@ == "[\""@ + nix@.system + "\"]"@
            }
            &&& args@[at]@ == file@
            &&& 0 <= i < attrs.len() ==> {
                &&& args@[at + 1 + 2 * i]@ == "-A"@
                &&& args@[at + 2 + 2 * i]@ == attrs@[i]@
            }
        }),
{
    let names = texts(attrs@);
    let op = Operation::Instantiate;
    law_attrs_command_in_full(nix@, op, nixpkgs@, file@, names, path@);
    law_one_flag_per_attr(names);
    let all = texts(args@);
    assert(all.len() == args.len());
    let at: int = if nix@.limit_supported_systems {
        13
    } else {
        10
    };
    assert(all[at] == file@);
    if 0 <= i < attrs.len() {
        law_each_attr_is_flagged(names, i);
        assert(all[at + 1 + 2 * i] == attr_flags(names)[2 * i]);
        assert(all[at + 2 + 2 * i] == attr_flags(names)[2 * i + 1]);
    }
    assert(all[0] == args@[0]@);
    assert(all[1] == args@[1]@);
    assert(all[2] == args@[2]@);
    assert(all[3] == args@[3]@);
    assert(all[4] == args@[4]@);
    assert(all[5] == args@[5]@);
    assert(all[6] == args@[6]@);
    assert(all[7] == args@[7]@);
    assert(all[8] == args@[8]@);
    assert(all[9] == args@[9]@);
    if nix@.limit_supported_systems {
        assert(all[10] == args@[10]@);
        assert(all[11] == args@[11]@);
        assert(all[12] == args@[12]@);
    }
}

/// The command to evaluate an expression hands over the expression and then each name with
/// its value, in order, as the last of its arguments. It may read each of the extra paths,
/// in order, and the package set.
pub proof fn law_evaluate_command_of_a_call(
    nix: Nix,
    nixpkgs: FsPath,
    expr: &str,
    argstrs: Vec<(&str, &str)>,
    extra_paths: Vec<&FsPath>,
    path: &str,
    command: Command,
    program: &String,
    args: &Vec<String>,
    i: int,
)
    requires
        call_ensures(
            Nix::evaluate_expr_cmd_in_order,
            (&nix, &nixpkgs, expr, argstrs, extra_paths, path),
            command,
        ),
        call_ensures(Command::get_program, (&command,), program),
        call_ensures(Command::get_args, (&command,), args),
    ensures
        program@ == "nix-instantiate"@,
        command@.dir == Some(nixpkgs@),
        !command@.inherits_env,
        command@.vars["NIX_REMOTE"@] == nix@.remote,
        command@.vars["PATH"@] == path@,
        command@.vars["NIX_PATH"@] == joined(
            Seq::new(
                extra_paths.len() as nat + 1,
                |i: int|
                    if i < extra_paths.len() {
                        utf8_lossy(extra_paths@[i]@)
                    } else {
                        "nixpkgs="@ + utf8_lossy(nixpkgs@)
                    },
            ),
            ":"@,
        ),
        ({
            let at: int = if nix@.limit_supported_systems {
                16
            } else {
                13
            };
            &&& args.len() == at + 2 + 3 * argstrs.len()
            &&& args@[0]@ == "--eval"@
            &&& args@[1]@ == "--strict"@
            &&& args@[2]@ == "--json"@
            &&& args@[12]@ == nix@.system
            &&& args@[at]@ == "--expr"@
            &&& args@[at + 1]@ == expr@
            &&& 0 <= i < argstrs.len() ==> {
                &&& args@[at + 2 + 3 * i]@ == "--argstr"@
                &&& args@[at + 3 + 3 * i]@ == argstrs@[i].0@
                &&& args@[at + 4 + 3 * i]@ == argstrs@[i].1@
            }
        }),
{
    let pairs = pair_texts(argstrs@);
    let last = "nixpkgs="@ + utf8_lossy(nixpkgs@);
    law_evaluate_command_in_full(nix@, nixpkgs@, expr@, pairs, shown(extra_paths@), path@);
    law_one_flag_per_argstr(pairs);
    assert(shown(extra_paths@) + seq![last] =~= Seq::new(
        extra_paths.len() as nat + 1,
        |i: int|
            if i < extra_paths.len() {
                utf8_lossy(extra_paths@[i]@)
            } else {
                last
            },
    ));
    let all = texts(args@);
    assert(all.len() == args.len());
    let at: int = if nix@.limit_supported_systems {
        16
    } else {
        13
    };
    assert(all[0] == "--eval"@ && all[1] == "--strict"@ && all[2] == "--json"@);
    assert(all[12] == nix@.system);
    assert(all[at] == "--expr"@ && all[at + 1] == expr@);
    if 0 <= i < argstrs.len() {
        law_each_argstr_is_flagged(pairs, i);
        assert(all[at + 2 + 3 * i] == argstr_flags(pairs)[3 * i]);
        assert(all[at + 3 + 3 * i] == argstr_flags(pairs)[3 * i + 1]);
        assert(all[at + 4 + 3 * i] == argstr_flags(pairs)[3 * i + 2]);
    }
}

/// Two calls that ask for the same command, but for the arguments of the caller, get
/// commands that differ in the last arguments alone; these are the caller's, whatever the
/// operation.
pub proof fn law_arguments_of_the_caller_come_last(
    nix: Nix,
    op: Operation,
    nixpkgs: FsPath,
    args: Vec<String>,
    none: Vec<String>,
    safe_paths: Vec<&FsPath>,
    path: &str,
    command: Command,
    bare: Command,
)
    requires
        none.len() == 0,
        call_ensures(Nix::safe_command, (&nix, op, &nixpkgs, args, safe_paths, path), command),
        call_ensures(Nix::safe_command, (&nix, op, &nixpkgs, none, safe_paths, path), bare),
    ensures
        command@.program == bare@.program,
        command@.vars == bare@.vars,
        command@.inherits_env == bare@.inherits_env,
        command@.dir == bare@.dir,
        command@.args.len() == bare@.args.len() + args.len(),
        command@.args.take(bare@.args.len() as int) == bare@.args,
        forall|i: int|
            #![trigger args@[i]]
            0 <= i < args.len() ==> command@.args[bare@.args.len() + i] == args@[i]@,
{
    assert(texts(none@) =~= Seq::empty());
    assert(bare@.args + texts(args@) =~= command@.args);
}

/// The bytes of a path read back as they were given, and a path that is UTF-8 is shown as
/// the text that they encode.
pub proof fn law_path_reads_back(
    bytes: Vec<u8>,
    made: FsPath,
    read: &Vec<u8>,
    text: String,
)
    requires
        call_ensures(FsPath::new, (bytes,), made),
        call_ensures(FsPath::as_bytes, (&made,), read),
        call_ensures(FsPath::display, (&made,), text),
    ensures
        read@ == bytes@,
        valid_utf8(bytes@) ==> text@ == decode_utf8(bytes@),
{
}

/// An operation shows itself, and makes a bare command, as the one that it stands for
/// would, but `echo` runs in its place.
pub proof fn law_noop_call_stands_for_another(
    op: Operation,
    noop: Operation,
    label: String,
    noop_label: String,
    noop_command: Command,
)
    requires
        noop == (Operation::NoOp { operation: Box::new(op) }),
        call_ensures(Operation::to_string, (&op,), label),
        call_ensures(Operation::to_string, (&noop,), noop_label),
        call_ensures(Operation::command, (&noop,), noop_command),
    ensures
        noop_label@ == label@,
        noop_command@.program == "echo"@,
        noop_command@.args.len() == 0,
{
    reveal_with_fuel(Operation::label, 2);
}

/// A number that is written has its last digit last, and before it what is written of its
/// tenth.
pub proof fn law_written_number_ends_in_its_last_digit(
    n: u16,
    tenth: u16,
    text: String,
    tenth_text: String,
)
    requires
        tenth == n / 10,
        call_ensures(to_decimal, (n,), text),
        call_ensures(to_decimal, (tenth,), tenth_text),
    ensures
        text@.len() > 0,
        text@.last() as int == '0' as int + n % 10,
        n < 10 ==> text@.len() == 1,
        n >= 10 ==> text@.drop_last() == tenth_text@,
{
    law_decimal_grows_by_a_digit((n / 10) as nat, (n % 10) as nat);
    if n >= 10 {
        assert(10 * (n / 10) + n % 10 == n);
        assert(text@.drop_last() =~= tenth_text@);
    }
}

/// A program that ended well hands over its log as a success, one that did not as a
/// failure; and its standard output goes to the log exactly where it is to be kept.
pub proof fn law_judged_as_it_ended<T>(
    finished: Finished<T>,
    res: Result<T, T>,
    keep_stdout: bool,
    sink: StdoutSink,
)
    requires
        call_ensures(judge::<T>, (finished,), res),
        call_ensures(stdout_sink, (keep_stdout,), sink),
    ensures
        finished.success ==> res == Ok::<T, T>(finished.log),
        !finished.success ==> res == Err::<T, T>(finished.log),
        sink == if keep_stdout {
            StdoutSink::Log
        } else {
            StdoutSink::Null
        },
{
}

/// A list that is joined with one more before it reads as that one, the separator and the
/// list. `NIX_PATH` reads as the paths, joined by colons, with the package set as the last.
pub proof fn law_joined_in_order(
    few: Vec<String>,
    more: Vec<String>,
    first: String,
    sep: &str,
    few_text: String,
    more_text: String,
    nixpkgs: &str,
    read_path: String,
)
    requires
        few.len() > 0,
        more@ == seq![first] + few@,
        call_ensures(join, (&few, sep), few_text),
        call_ensures(join, (&more, sep), more_text),
        call_ensures(nix_path, (few, nixpkgs), read_path),
        sep@ == ":"@,
    ensures
        more_text@ == first@ + sep@ + few_text@,
        read_path@ == few_text@ + ":"@ + ("nixpkgs="@ + nixpkgs@),
{
    assert(texts(more@).skip(1) =~= texts(few@));
    law_nix_path_ends_in_nixpkgs(texts(few@), nixpkgs@);
}

/// One result more lands behind the others of its kind, and leaves those of the other kind
/// as they were. None gives none.
pub proof fn law_one_result_more<A, B>(
    few: Vec<Result<A, B>>,
    more: Vec<Result<A, B>>,
    last: Result<A, B>,
    parted_few: (Vec<A>, Vec<B>),
    parted_more: (Vec<A>, Vec<B>),
)
    requires
        more@ == few@.push(last),
        call_ensures(partition_result::<A, B>, (few,), parted_few),
        call_ensures(partition_result::<A, B>, (more,), parted_more),
    ensures
        few.len() == 0 ==> parted_few.0.len() == 0 && parted_few.1.len() == 0,
        match last {
            Ok(a) => parted_more.0@ == parted_few.0@.push(a) && parted_more.1@ == parted_few.1@,
            Err(b) => parted_more.0@ == parted_few.0@ && parted_more.1@ == parted_few.1@.push(b),
        },
{
    assert(more@.drop_last() =~= few@);
}

/// One attribute more is reported behind the others: as good where its outcome is good, and
/// where it is bad with the lines of its own log.
pub proof fn law_one_attr_more_is_reported(
    few: Vec<String>,
    more: Vec<String>,
    attr: String,
    outcomes: Vec<Result<(), Vec<u8>>>,
    more_outcomes: Vec<Result<(), Vec<u8>>>,
    last: Result<(), Vec<u8>>,
    found: (Vec<String>, Vec<(String, Vec<String>)>),
    more_found: (Vec<String>, Vec<(String, Vec<String>)>),
)
    requires
        outcomes.len() == few.len(),
        more@ == few@.push(attr),
        more_outcomes@ == outcomes@.push(last),
        call_ensures(partition_attrs, (few, outcomes), found),
        call_ensures(partition_attrs, (more, more_outcomes), more_found),
    ensures
        few.len() == 0 ==> found.0.len() == 0 && found.1.len() == 0,
        match last {
            Ok(_) => {
                &&& texts(more_found.0@) == texts(found.0@).push(attr@)
                &&& reports(more_found.1@) == reports(found.1@)
            },
            Err(log) => {
                &&& texts(more_found.0@) == texts(found.0@)
                &&& reports(more_found.1@) == reports(found.1@).push((attr@, lines(log@)))
            },
        },
{
    let before = verdicts(texts(few@), outcome_views(outcomes@));
    let after = verdicts(texts(more@), outcome_views(more_outcomes@));
    assert(after.drop_last() =~= before);
    assert(few.len() == 0 ==> texts(found.0@).len() == 0 && reports(found.1@).len() == 0);
}

/// The lines of a file are read one by one: the first, without what ends it and only where
/// it is UTF-8, and then those that the rest of the file has by itself.
pub proof fn law_file_is_read_line_by_line(
    whole: &[u8],
    first: Seq<u8>,
    rest: &[u8],
    read_whole: Vec<String>,
    read_rest: Vec<String>,
)
    requires
        !first.contains(10),
        whole@ == first + seq![10u8] + rest@,
        call_ensures(lines_from_file, (whole,), read_whole),
        call_ensures(lines_from_file, (rest,), read_rest),
    ensures
        ({
            let content = if first.len() > 0 && first.last() == 13 {
                first.drop_last()
            } else {
                first
            };
            if valid_utf8(content) {
                &&& read_whole.len() == read_rest.len() + 1
                &&& read_whole@[0]@ == decode_utf8(content)
                &&& forall|i: int|
                    #![trigger read_rest@[i]]
                    0 <= i < read_rest.len() ==> read_whole@[i + 1]@ == read_rest@[i]@
            } else {
                &&& read_whole.len() == read_rest.len()
                &&& forall|i: int|
                    #![trigger read_rest@[i]]
                    0 <= i < read_rest.len() ==> read_whole@[i]@ == read_rest@[i]@
            }
        }),
        !rest@.contains(10) ==> read_rest.len() <= 1 && (read_rest.len() == 1 <==> rest@.len() > 0
            && valid_utf8(rest@)),
        !rest@.contains(10) && read_rest.len() == 1 ==> read_rest@[0]@ == decode_utf8(rest@),
{
    law_ended_line_in_full(first, rest@);
    if !rest@.contains(10) {
        law_last_line_in_full(rest@);
    }
    let all = texts(read_whole@);
    let behind = texts(read_rest@);
    assert(all.len() == read_whole.len());
    assert(behind.len() == read_rest.len());
    assert(all.len() > 0 ==> all[0] == read_whole@[0]@);
    assert(behind.len() > 0 ==> behind[0] == read_rest@[0]@);
    assert forall|i: int| #![trigger read_rest@[i]] 0 <= i < read_rest.len() implies {
        &&& behind[i] == read_rest@[i]@
        &&& all[i] == read_whole@[i]@
        &&& i + 1 < all.len() ==> all[i + 1] == read_whole@[i + 1]@
    } by {
    }
}

/// A command that may read nothing besides the package set is the one that is given for a
/// `NIX_PATH` that names the package set alone. A copy of what was asked gives the same
/// command.
pub proof fn law_nix_path_names_the_package_set(
    nix: Nix,
    copy: Nix,
    op: Operation,
    nixpkgs: FsPath,
    args: Vec<String>,
    none: Vec<&FsPath>,
    path: &str,
    text: &str,
    command: Command,
    given: Command,
)
    requires
        none.len() == 0,
        text@ == "nixpkgs="@ + utf8_lossy(nixpkgs@),
        call_ensures(<Nix as Clone>::clone, (&nix,), copy),
        call_ensures(Nix::safe_command, (&nix, op, &nixpkgs, args, none, path), command),
        call_ensures(Nix::command_with_nix_path, (&copy, op, &nixpkgs, text, args, path), given),
    ensures
        copy@ == nix@,
        command@ == given@,
{
    assert(shown(none@) =~= Seq::empty());
    law_nix_path_ends_in_nixpkgs(Seq::empty(), utf8_lossy(nixpkgs@));
}

/// The command to evaluate an expression on the entries of a map hands each of them over
/// once, behind a flag of its own, whatever the order in which the map is walked.
pub proof fn law_evaluate_hands_over_each_entry(
    nix: Nix,
    nixpkgs: FsPath,
    expr: &str,
    argstrs: HashMap<&str, &str>,
    extra_paths: Vec<&FsPath>,
    path: &str,
    command: Command,
    args: &Vec<String>,
    name: &str,
)
    requires
        call_ensures(
            Nix::safely_evaluate_expr_cmd,
            (&nix, &nixpkgs, expr, argstrs, extra_paths, path),
            command,
        ),
        call_ensures(Command::get_args, (&command,), args),
    ensures
        ({
            let at: int = if nix@.limit_supported_systems {
                16
            } else {
                13
            };
            &&& args.len() == at + 2 + 3 * argstrs@.dom().len()
            &&& args@[at]@ == "--expr"@
            &&& args@[at + 1]@ == expr@
            &&& argstrs@.contains_key(name) ==> exists|p: int|
                #![trigger args@[p]]
                {
                    &&& at + 2 <= p
                    &&& p + 2 < args.len()
                    &&& args@[p]@ == "--argstr"@
                    &&& args@[p + 1]@ == name@
                    &&& args@[p + 2]@ == argstrs@[name]@
                }
        }),
{
    let list = choose|list: Seq<(&str, &str)>| #[trigger]
        lists_entries(list, argstrs@) && command@ == nix@.evaluate_command(
            nixpkgs@,
            expr@,
            pair_texts(list),
            shown(extra_paths@),
            path@,
        );
    let pairs = pair_texts(list);
    law_evaluate_command_in_full(nix@, nixpkgs@, expr@, pairs, shown(extra_paths@), path@);
    law_any_walk_is_as_long_as_the_map(list, argstrs@);
    let all = texts(args@);
    let at: int = if nix@.limit_supported_systems {
        16
    } else {
        13
    };
    assert(all.len() == args.len());
    assert(all[at] == "--expr"@ && all[at + 1] == expr@);
    if argstrs@.contains_key(name) {
        law_any_walk_hands_over_the_map(list, argstrs@, name);
        let i = choose|i: int|
            0 <= i < list.len() && #[trigger] list[i] == (name, argstrs@[name]);
        law_each_argstr_is_flagged(pairs, i);
        assert(pairs[i] == (name@, argstrs@[name]@));
        let p = at + 2 + 3 * i;
        assert(all[p] == argstr_flags(pairs)[3 * i]);
        assert(all[p + 1] == argstr_flags(pairs)[3 * i + 1]);
        assert(all[p + 2] == argstr_flags(pairs)[3 * i + 2]);
        assert(args@[p]@ == "--argstr"@);
    }
}

} // verus!
