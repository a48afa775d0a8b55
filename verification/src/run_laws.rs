//! What is run by a call, and what comes of it.
use vstd::prelude::*;

use crate::command::{Command, CommandView};
use crate::log_laws::{law_no_attr_is_lost, law_outcome_follows_run};
use crate::machine::{in_a_row, is_try, outcomes, Event, Job, Machine};
use crate::machine_laws::{
    law_one_run_grows_the_journal, law_report_follows_the_try, law_tries_follow_each_other,
};
use crate::nix::{Nix, Operation};
use crate::output::{
    failures, lines, reports, sink_for, successes, verdicts, Finished, StdoutSink,
};
use crate::path::{shown, FsPath};
use crate::text::texts;

verus! {

/// To run a command is to do one job: that command, with its standard output in the log
/// where it is to be kept and nowhere otherwise. The log of that job is handed over, as that
/// of a success exactly where the job reported success.
pub proof fn law_run_does_one_job<T, E: Fn(Job) -> Finished<T>, R: Fn(T) -> Vec<u8>>(
    nix: Nix,
    cmd: Command,
    keep_stdout: bool,
    machine: &mut Machine<T, E, R>,
    res: Result<T, T>,
)
    requires
        call_ensures(Nix::run::<T, E, R>, (&nix, cmd, keep_stdout, machine), res),
    ensures
        final(machine).journal().len() == old(machine).journal().len() + 1,
        final(machine).journal().drop_last() == old(machine).journal(),
        final(machine).journal().last() matches Event::Ran { job, finished } && {
            &&& job.command@ == cmd@
            &&& job.sink == if keep_stdout {
                StdoutSink::Log
            } else {
                StdoutSink::Null
            }
            &&& call_ensures(old(machine).executor(), (job,), finished)
            &&& finished.success ==> res == Ok::<T, T>(finished.log)
            &&& !finished.success ==> res == Err::<T, T>(finished.log)
        },
{
    law_one_run_grows_the_journal(
        *old(machine),
        *final(machine),
        cmd@,
        sink_for(keep_stdout),
        res,
    );
}

/// To perform an operation is to run, once, the command that is given for it with the same
/// arguments and with nothing else to read.
pub proof fn law_safely_runs_the_safe_command<
    T,
    E: Fn(Job) -> Finished<T>,
    R: Fn(T) -> Vec<u8>,
>(
    nix: Nix,
    op: Operation,
    nixpkgs: FsPath,
    args: Vec<String>,
    none: Vec<&FsPath>,
    path: &str,
    command: Command,
    keep_stdout: bool,
    machine: &mut Machine<T, E, R>,
    res: Result<T, T>,
)
    requires
        none.len() == 0,
        call_ensures(Nix::safe_command, (&nix, op, &nixpkgs, args, none, path), command),
        call_ensures(
            Nix::safely::<T, E, R>,
            (&nix, op, &nixpkgs, args, keep_stdout, path, machine),
            res,
        ),
    ensures
        final(machine).journal().len() == old(machine).journal().len() + 1,
        final(machine).journal().drop_last() == old(machine).journal(),
        final(machine).journal().last() matches Event::Ran { job, finished } && {
            &&& job.command@ == command@
            &&& job.sink == if keep_stdout {
                StdoutSink::Log
            } else {
                StdoutSink::Null
            }
            &&& finished.success ==> res == Ok::<T, T>(finished.log)
            &&& !finished.success ==> res == Err::<T, T>(finished.log)
        },
{
    assert(shown(none@) =~= Seq::empty());
    law_one_run_grows_the_journal(
        *old(machine),
        *final(machine),
        command@,
        sink_for(keep_stdout),
        res,
    );
}

/// To instantiate attributes is to run, once, the command that is given for that, with its
/// standard output in the log.
pub proof fn law_instantiating_runs_its_command<
    T,
    E: Fn(Job) -> Finished<T>,
    R: Fn(T) -> Vec<u8>,
>(
    nix: Nix,
    nixpkgs: FsPath,
    file: &str,
    attrs: Vec<String>,
    path: &str,
    command: Command,
    machine: &mut Machine<T, E, R>,
    res: Result<T, T>,
)
    requires
        call_ensures(
            Nix::safely_instantiate_attrs_cmd,
            (&nix, &nixpkgs, file, attrs, path),
            command,
        ),
        call_ensures(
            Nix::safely_instantiate_attrs::<T, E, R>,
            (&nix, &nixpkgs, file, attrs, path, machine),
            res,
        ),
    ensures
        final(machine).journal().len() == old(machine).journal().len() + 1,
        final(machine).journal().drop_last() == old(machine).journal(),
        final(machine).journal().last() matches Event::Ran { job, finished } && {
            &&& job.command@ == command@
            &&& job.sink == StdoutSink::Log
            &&& finished.success ==> res == Ok::<T, T>(finished.log)
            &&& !finished.success ==> res == Err::<T, T>(finished.log)
        },
{
    law_one_run_grows_the_journal(
        *old(machine),
        *final(machine),
        command@,
        StdoutSink::Log,
        res,
    );
}

/// To build attributes is to run, once, the command that is given for that, with its
/// standard output in the log.
pub proof fn law_building_runs_its_command<T, E: Fn(Job) -> Finished<T>, R: Fn(T) -> Vec<u8>>(
    nix: Nix,
    nixpkgs: FsPath,
    file: &str,
    attrs: Vec<String>,
    path: &str,
    command: Command,
    machine: &mut Machine<T, E, R>,
    res: Result<T, T>,
)
    requires
        call_ensures(Nix::safely_build_attrs_cmd, (&nix, &nixpkgs, file, attrs, path), command),
        call_ensures(
            Nix::safely_build_attrs::<T, E, R>,
            (&nix, &nixpkgs, file, attrs, path, machine),
            res,
        ),
    ensures
        final(machine).journal().len() == old(machine).journal().len() + 1,
        final(machine).journal().drop_last() == old(machine).journal(),
        final(machine).journal().last() matches Event::Ran { job, finished } && {
            &&& job.command@ == command@
            &&& job.sink == StdoutSink::Log
            &&& finished.success ==> res == Ok::<T, T>(finished.log)
            &&& !finished.success ==> res == Err::<T, T>(finished.log)
        },
{
    law_one_run_grows_the_journal(
        *old(machine),
        *final(machine),
        command@,
        StdoutSink::Log,
        res,
    );
}

/// To start a build is to hand the command that is given for it to the function that
/// starts builds, and to hand over what that gives.
pub proof fn law_starting_hands_its_command_over<S, P: FnOnce(Command) -> S>(
    nix: Nix,
    nixpkgs: FsPath,
    file: &str,
    attrs: Vec<String>,
    path: &str,
    command: Command,
    spawn: P,
    res: S,
)
    requires
        call_ensures(Nix::safely_build_attrs_cmd, (&nix, &nixpkgs, file, attrs, path), command),
        call_ensures(
            Nix::safely_build_attrs_async::<S, P>,
            (&nix, &nixpkgs, file, attrs, path, spawn),
            res,
        ),
    ensures
        exists|given: Command|
            given@ == command@ && #[trigger] call_ensures(spawn, (given,), res),
{
}

proof fn lemma_try_stands_in_the_row<T>(tries: Seq<Seq<Event<T>>>, i: int) -> (p: int)
    requires
        0 <= i < tries.len(),
    ensures
        0 <= p,
        p + tries[i].len() <= in_a_row(tries).len(),
        forall|k: int| 0 <= k < tries[i].len() ==> in_a_row(tries)[p + k] == #[trigger] tries[i][k],
{
    let before = tries.take(i);
    let one = seq![tries[i]];
    let behind = tries.skip(i + 1);
    assert(tries =~= before + (one + behind));
    law_tries_follow_each_other(before, one + behind, tries[i]);
    law_tries_follow_each_other(one, behind, tries[i]);
    let p = in_a_row(before).len() as int;
    assert forall|k: int| 0 <= k < tries[i].len() implies in_a_row(tries)[p + k]
        == #[trigger] tries[i][k] by {
        assert(in_a_row(one + behind)[k] == tries[i][k]);
    }
    p
}

/// To part attributes is to run, for each, the command that instantiates it alone, with its
/// standard output in the log. One whose run succeeds is reported as good. One whose run
/// fails is reported with the lines that are read of the log of that run, right behind it.
/// As many are reported as were given.
pub proof fn law_parting_tries_each_attr<T, E: Fn(Job) -> Finished<T>, R: Fn(T) -> Vec<u8>>(
    nix: Nix,
    nixpkgs: FsPath,
    file: &str,
    attrs: Vec<String>,
    path: &str,
    i: int,
    alone: Vec<String>,
    command: Command,
    machine: &mut Machine<T, E, R>,
    res: (Vec<String>, Vec<(String, Vec<String>)>),
)
    requires
        0 <= i < attrs.len(),
        alone@ == seq![attrs@[i]],
        call_ensures(
            Nix::safely_instantiate_attrs_cmd,
            (&nix, &nixpkgs, file, alone, path),
            command,
        ),
        call_ensures(
            Nix::safely_partition_instantiable_attrs::<T, E, R>,
            (&nix, &nixpkgs, file, attrs, path, machine),
            res,
        ),
    ensures
        res.0.len() + res.1.len() == attrs.len(),
        exists|p: int|
            #![trigger final(machine).journal()[p]]
            {
                let events = final(machine).journal();
                &&& old(machine).journal().len() <= p < events.len()
                &&& events[p] matches Event::Ran { job, finished } && {
                    &&& job.command@ == command@
                    &&& job.sink == StdoutSink::Log
                    &&& finished.success ==> exists|k: int|
                        0 <= k < res.0.len() && (#[trigger] res.0@[k])@ == attrs@[i]@
                    &&& !finished.success ==> {
                        &&& p + 1 < events.len()
                        &&& events[p + 1] matches Event::Read { log, contents } && {
                            &&& log == finished.log
                            &&& exists|k: int|
                                0 <= k < res.1.len() && (#[trigger] res.1@[k]).0@ == attrs@[i]@
                                    && texts(res.1@[k].1@) == lines(contents@)
                        }
                    }
                }
            },
{
    let names = texts(attrs@);
    let start = *old(machine);
    let end = *final(machine);
    let tries = choose|tries: Seq<Seq<Event<T>>>|
        {
            let found = verdicts(names, outcomes(tries));
            &&& end.since(start) == #[trigger] in_a_row(tries)
            &&& tries.len() == attrs.len()
            &&& forall|i: int|
                0 <= i < attrs.len() ==> is_try(
                    #[trigger] tries[i],
                    nix@.attrs_command(
                        Operation::Instantiate,
                        nixpkgs@,
                        file@,
                        seq![attrs[i]@],
                        path@,
                    ),
                )
            &&& texts(res.0@) == successes(found)
            &&& reports(res.1@) == failures(found)
        };
    let commands = Seq::new(
        attrs@.len(),
        |i: int|
            nix@.attrs_command(Operation::Instantiate, nixpkgs@, file@, seq![attrs[i]@], path@),
    );
    let found = verdicts(names, outcomes(tries));
    law_no_attr_is_lost(names, outcomes(tries));
    assert(texts(res.0@).len() == res.0.len());
    assert(reports(res.1@).len() == res.1.len());
    assert forall|k: int| 0 <= k < tries.len() implies is_try(
        #[trigger] tries[k],
        commands[k],
    ) by {}
    law_report_follows_the_try(names, tries, commands, i);
    law_outcome_follows_run(tries[i], commands[i]);
    assert(texts(alone@) =~= seq![attrs@[i]@]);
    let q = lemma_try_stands_in_the_row(tries, i);
    let p = start.journal().len() + q;
    let events = end.journal();
    assert(events[p] == tries[i][0]);
    if tries[i].len() == 2 {
        assert(events[p + 1] == tries[i][1]);
    }
    let good = successes(found.take(i)).len() as int;
    let bad = failures(found.take(i)).len() as int;
    if good < successes(found).len() {
        assert(res.0@[good]@ == successes(found)[good]);
    }
    if bad < failures(found).len() {
        assert((res.1@[bad].0@, texts(res.1@[bad].1@)) == failures(found)[bad]);
    }
}

/// Each change of a command changes what it is named after, and nothing else: arguments are
/// put behind the others, a variable is set over its earlier value, the environment is left
/// empty, the directory is set.
pub proof fn law_each_change_of_a_command(
    arg: String,
    list: &[&str],
    more: Vec<String>,
    name: &str,
    value: &str,
    dir: FsPath,
    one: &mut Command,
    several: &mut Command,
    many: &mut Command,
    set: &mut Command,
    cleared: &mut Command,
    moved: &mut Command,
)
    requires
        call_ensures(Command::arg, (one, arg), ()),
        call_ensures(Command::args, (several, list), ()),
        call_ensures(Command::extend, (many, more), ()),
        call_ensures(Command::env, (set, name, value), ()),
        call_ensures(Command::env_clear, (cleared,), ()),
        call_ensures(Command::current_dir, (moved, &dir), ()),
    ensures
        final(one)@ == (CommandView { args: old(one)@.args.push(arg@), ..old(one)@ }),
        final(several)@ == (CommandView {
            args: old(several)@.args + Seq::new(list@.len(), |i: int| list@[i]@),
            ..old(several)@
        }),
        final(many)@ == (CommandView {
            args: old(many)@.args + Seq::new(more@.len(), |i: int| more@[i]@),
            ..old(many)@
        }),
        final(set)@ == (CommandView {
            vars: old(set)@.vars.insert(name@, value@),
            ..old(set)@
        }),
        final(cleared)@ == (CommandView {
            vars: Map::empty(),
            inherits_env: false,
            ..old(cleared)@
        }),
        final(moved)@ == (CommandView { dir: Some(dir@), ..old(moved)@ }),
{
    assert(final(one)@.args =~= old(one)@.args.push(arg@));
    assert(final(several)@.args =~= old(several)@.args + Seq::new(list@.len(), |i: int| list@[i]@));
    assert(final(many)@.args =~= old(many)@.args + Seq::new(more@.len(), |i: int| more@[i]@));
}

/// An operation puts the arguments that select it behind those that a command has, and does
/// so again each time.
pub proof fn law_operation_puts_its_arguments_last(
    op: Operation,
    first: &mut Command,
    second: &mut Command,
)
    requires
        *old(second) == *final(first),
        call_ensures(Operation::args, (&op, first), ()),
        call_ensures(Operation::args, (&op, second), ()),
    ensures
        final(first)@ == (CommandView {
            args: old(first)@.args + op.selection(),
            ..old(first)@
        }),
        final(second)@ == (CommandView {
            args: old(first)@.args + op.selection() + op.selection(),
            ..old(first)@
        }),
{
}

} // verus!
