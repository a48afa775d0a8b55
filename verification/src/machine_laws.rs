//! What holds of runs, of their verdicts and of the journal of a machine.
use vstd::prelude::*;

use crate::command::CommandView;
use crate::machine::{in_a_row, is_try, outcome, outcomes, Event, Job, Machine};
use crate::output::{
    failures, judged, lines, outcome_views, reports, sink_for, successes, verdicts, Finished,
    StdoutSink,
};
use crate::text::texts;

verus! {

/// Standard output goes to the log where it is to be kept, and nowhere otherwise.
pub proof fn law_stdout_is_kept_when_asked(keep_stdout: bool)
    ensures
        sink_for(keep_stdout) == StdoutSink::Log <==> keep_stdout,
        sink_for(keep_stdout) == StdoutSink::Null <==> !keep_stdout,
{
}

/// A run is judged a success exactly where it reported success; either way its log is
/// handed over.
pub proof fn law_log_is_handed_over<T>(finished: Finished<T>)
    ensures
        judged(finished) is Ok <==> finished.success,
        judged(finished) matches Ok(log) ==> log == finished.log,
        judged(finished) matches Err(log) ==> log == finished.log,
{
}

/// A job is for a command and a sink exactly where it names both.
pub proof fn law_job_names_command_and_sink(job: Job, command: CommandView, sink: StdoutSink)
    ensures
        job.is_for(command, sink) <==> job.command@ == command && job.sink == sink,
{
}

/// Where a machine ran a command once, its journal grew by that run and nothing else: the
/// run of this command to this sink, ended as the machine's own function may end it. The
/// log of that very run is handed over, as a success exactly where it reported success.
pub proof fn law_one_run_grows_the_journal<T, E: Fn(Job) -> Finished<T>, R: Fn(T) -> Vec<u8>>(
    before: Machine<T, E, R>,
    after: Machine<T, E, R>,
    command: CommandView,
    sink: StdoutSink,
    res: Result<T, T>,
)
    requires
        after.ran_once(before, command, sink, res),
    ensures
        after.executor() == before.executor(),
        after.reader() == before.reader(),
        after.journal().len() == before.journal().len() + 1,
        after.journal().drop_last() == before.journal(),
        after.journal().last() matches Event::Ran { job, finished } && {
            &&& job.command@ == command
            &&& job.sink == sink
            &&& call_ensures(before.executor(), (job,), finished)
            &&& finished.success ==> res == Ok::<T, T>(finished.log)
            &&& !finished.success ==> res == Err::<T, T>(finished.log)
        },
{
    let events = after.since(before);
    assert(after.possible(events[0]));
    assert(after.journal().last() == events[0]);
    assert(after.journal().drop_last() =~= before.journal());
}

/// What a machine did since it did nothing more is what its journal holds behind the
/// earlier one; and each of it was answered by the machine's own functions.
pub proof fn law_journal_only_grows<T, E: Fn(Job) -> Finished<T>, R: Fn(T) -> Vec<u8>>(
    before: Machine<T, E, R>,
    after: Machine<T, E, R>,
    i: int,
)
    requires
        after.continues(before),
        0 <= i < after.since(before).len(),
    ensures
        after.executor() == before.executor(),
        after.reader() == before.reader(),
        after.journal() == before.journal() + after.since(before),
        match after.since(before)[i] {
            Event::Ran { job, finished } => call_ensures(before.executor(), (job,), finished),
            Event::Read { log, contents } => call_ensures(before.reader(), (log,), contents),
        },
{
    assert(after.possible(after.since(before)[i]));
}

/// A machine whose functions take every job for a command, and every log, accepts that
/// command and reads all logs.
pub proof fn law_machine_accepts_what_its_functions_take<
    T,
    E: Fn(Job) -> Finished<T>,
    R: Fn(T) -> Vec<u8>,
>(machine: Machine<T, E, R>, command: CommandView, sink: StdoutSink)
    ensures
        (forall|job: Job|
            job.command@ == command && job.sink == sink ==> #[trigger] call_requires(
                machine.executor(),
                (job,),
            )) ==> machine.accepts(command, sink),
        (forall|log: T| #[trigger] call_requires(machine.reader(), (log,)))
            ==> machine.reads_all(),
{
}

/// A try begins with a run of its own command, with standard output in the log. It is
/// over at once where that run succeeded, with a good outcome. Where it failed, the log of
/// that very run is read, and what was read is the outcome.
pub proof fn law_try_in_full<T>(events: Seq<Event<T>>, command: CommandView)
    requires
        is_try(events, command),
    ensures
        1 <= events.len() <= 2,
        events[0] matches Event::Ran { job, finished } && {
            &&& job.command@ == command
            &&& job.sink == StdoutSink::Log
            &&& finished.success ==> events.len() == 1 && outcome(events) == Ok::<
                (),
                Seq<u8>,
            >(())
            &&& !finished.success ==> {
                &&& events.len() == 2
                &&& events[1] matches Event::Read { log, contents } && {
                    &&& log == finished.log
                    &&& outcome(events) == Err::<(), Seq<u8>>(contents@)
                }
            }
        },
{
}

/// No tries are no events; one try is its own events; and tries in two stretches are the
/// events of the first and then those of the second.
pub proof fn law_tries_follow_each_other<T>(
    a: Seq<Seq<Event<T>>>,
    b: Seq<Seq<Event<T>>>,
    one: Seq<Event<T>>,
)
    ensures
        in_a_row(Seq::<Seq<Event<T>>>::empty()) == Seq::<Event<T>>::empty(),
        in_a_row(seq![one]) == one,
        in_a_row(a + b) == in_a_row(a) + in_a_row(b),
    decreases b.len(),
{
    reveal_with_fuel(in_a_row, 2);
    assert(seq![one].drop_last() =~= Seq::<Seq<Event<T>>>::empty());
    assert(in_a_row(seq![one]) =~= one);
    if b.len() == 0 {
        assert(a + b =~= a);
        assert(in_a_row(a + b) =~= in_a_row(a) + in_a_row(b));
    } else {
        assert((a + b).drop_last() =~= a + b.drop_last());
        law_tries_follow_each_other(a, b.drop_last(), one);
        assert(in_a_row(a + b) =~= in_a_row(a) + in_a_row(b));
    }
}

/// Tries, and lists of outcomes, reports and verdicts, are seen item by item, each in its
/// place.
pub proof fn law_lists_are_seen_in_place<T>(
    tries: Seq<Seq<Event<T>>>,
    results: Seq<Result<(), Vec<u8>>>,
    failed: Seq<(String, Vec<String>)>,
)
    ensures
        outcomes(tries).len() == tries.len(),
        forall|i: int| 0 <= i < tries.len() ==> #[trigger] outcomes(tries)[i] == outcome(tries[i]),
        outcome_views(results).len() == results.len(),
        forall|i: int|
            0 <= i < results.len() ==> match results[i] {
                Ok(_) => #[trigger] outcome_views(results)[i] == Ok::<(), Seq<u8>>(()),
                Err(log) => outcome_views(results)[i] == Err::<(), Seq<u8>>(log@),
            },
        reports(failed).len() == failed.len(),
        forall|i: int|
            0 <= i < failed.len() ==> {
                &&& (#[trigger] reports(failed)[i]).0 == failed[i].0@
                &&& reports(failed)[i].1 == texts(failed[i].1@)
            },
{
}

/// The verdict on each attribute speaks of that attribute: it can be instantiated where
/// the outcome is good, and cannot, for what the lines of its log say, where it is bad.
pub proof fn law_verdict_speaks_of_its_attribute(
    attrs: Seq<Seq<char>>,
    results: Seq<Result<(), Seq<u8>>>,
    i: int,
)
    requires
        results.len() == attrs.len(),
        0 <= i < attrs.len(),
    ensures
        verdicts(attrs, results).len() == attrs.len(),
        match results[i] {
            Ok(_) => verdicts(attrs, results)[i] matches Ok(name) && name == attrs[i],
            Err(log) => verdicts(attrs, results)[i] matches Err(report) && report.0 == attrs[i]
                && report.1 == lines(log),
        },
{
}

/// Parting nothing gives nothing; a success alone is the one success, and a failure alone
/// the one failure; and results in two stretches are parted stretch by stretch.
pub proof fn law_results_part_in_stretches<A, B>(
    first: Seq<Result<A, B>>,
    second: Seq<Result<A, B>>,
    good: A,
    bad: B,
)
    ensures
        successes(Seq::<Result<A, B>>::empty()) == Seq::<A>::empty(),
        failures(Seq::<Result<A, B>>::empty()) == Seq::<B>::empty(),
        successes(seq![Ok::<A, B>(good)]) == seq![good],
        failures(seq![Ok::<A, B>(good)]) == Seq::<B>::empty(),
        successes(seq![Err::<A, B>(bad)]) == Seq::<A>::empty(),
        failures(seq![Err::<A, B>(bad)]) == seq![bad],
        successes(first + second) == successes(first) + successes(second),
        failures(first + second) == failures(first) + failures(second),
    decreases second.len(),
{
    reveal_with_fuel(successes, 2);
    reveal_with_fuel(failures, 2);
    assert(seq![Ok::<A, B>(good)].drop_last() =~= Seq::<Result<A, B>>::empty());
    assert(seq![Err::<A, B>(bad)].drop_last() =~= Seq::<Result<A, B>>::empty());
    assert(successes(seq![Ok::<A, B>(good)]) =~= seq![good]);
    assert(failures(seq![Err::<A, B>(bad)]) =~= seq![bad]);
    if second.len() == 0 {
        assert(first + second =~= first);
    } else {
        assert((first + second).drop_last() =~= first + second.drop_last());
        law_results_part_in_stretches(first, second.drop_last(), good, bad);
    }
    assert(successes(first + second) =~= successes(first) + successes(second));
    assert(failures(first + second) =~= failures(first) + failures(second));
}

/// What is found of each attribute follows from the try of that attribute: one whose run
/// succeeded is reported with the good ones, one whose run failed with the bad ones and
/// with the lines that were read of its log; each behind the earlier ones of its kind.
pub proof fn law_report_follows_the_try<T>(
    attrs: Seq<Seq<char>>,
    tries: Seq<Seq<Event<T>>>,
    commands: Seq<CommandView>,
    i: int,
)
    requires
        tries.len() == attrs.len(),
        commands.len() == attrs.len(),
        forall|k: int| 0 <= k < tries.len() ==> is_try(#[trigger] tries[k], commands[k]),
        0 <= i < attrs.len(),
    ensures
        ({
            let found = verdicts(attrs, outcomes(tries));
            &&& tries[i][0] matches Event::Ran { job, finished } && {
                &&& job.command@ == commands[i]
                &&& finished.success ==> {
                    let k = successes(found.take(i)).len() as int;
                    k < successes(found).len() && successes(found)[k] == attrs[i]
                }
                &&& !finished.success ==> {
                    let k = failures(found.take(i)).len() as int;
                    &&& tries[i][1] matches Event::Read { log, contents } && {
                        &&& log == finished.log
                        &&& k < failures(found).len()
                        &&& failures(found)[k].0 == attrs[i]
                        &&& failures(found)[k].1 == lines(contents@)
                    }
                }
            }
        }),
{
    let found = verdicts(attrs, outcomes(tries));
    assert(is_try(tries[i], commands[i]));
    law_try_in_full(tries[i], commands[i]);
    assert(outcomes(tries)[i] == outcome(tries[i]));
    law_verdict_speaks_of_its_attribute(attrs, outcomes(tries), i);
    crate::log_laws::law_each_result_lands_in_order(found, i);
}

} // verus!
