//! What holds of logs and of the parting of results.
use vstd::prelude::*;
use vstd::utf8::{
    decode_first_scalar, decode_utf8, decode_utf8_first_scalar, encode_utf8,
    encode_utf8_decode_utf8, encode_utf8_valid_utf8, length_of_first_scalar, pop_first_scalar,
    take_first_scalar, valid_utf8,
};

use crate::command::CommandView;
use crate::machine::{in_a_row, is_try, outcome, Event, Job};
use crate::output::{
    chomped, failures, lemma_line_len, line_len, line_text, lines, successes, verdict, verdicts,
    Finished, StdoutSink,
};

verus! {

/// A newline among the bytes of a text is a newline among its characters, and the
/// other way round. A carriage return that ends the bytes ends the text.
proof fn lemma_decoded_line_ends(bytes: Seq<u8>)
    requires
        valid_utf8(bytes),
    ensures
        decode_utf8(bytes).contains('\n') <==> bytes.contains(10),
        bytes.len() > 0 && bytes.last() == 13 ==> decode_utf8(bytes).len() > 0 && decode_utf8(
            bytes,
        ).last() == '\r',
    decreases bytes.len(),
{
    let text = decode_utf8(bytes);
    if bytes.len() > 0 {
        let n = length_of_first_scalar(bytes);
        let rest = pop_first_scalar(bytes);
        let head = decode_first_scalar(bytes);
        let first = bytes[0];
        assert(first <= 0x7f ==> first & 0x7f == first) by (bit_vector);
        assert(10u32 & 0x7f == 10) by (bit_vector);
        lemma_decoded_line_ends(rest);
        assert(text =~= seq![head as char] + decode_utf8(rest));
        assert(head as char == '\n' <==> bytes[0] == 10) by {
            decode_utf8_first_scalar(bytes);
            assert(take_first_scalar(bytes)[0] == bytes[0]);
        }
        if text.contains('\n') {
            let i = choose|i: int| 0 <= i < text.len() && text[i] == '\n';
            if i > 0 {
                assert(decode_utf8(rest)[i - 1] == '\n');
                assert(rest.contains(10));
                let k = choose|k: int| 0 <= k < rest.len() && rest[k] == 10;
                assert(bytes[k + n] == 10);
            }
        }
        if bytes.contains(10) {
            let i = choose|i: int| 0 <= i < bytes.len() && bytes[i] == 10;
            if i >= n {
                assert(rest[i - n] == 10);
                let k = choose|k: int|
                    0 <= k < decode_utf8(rest).len() && decode_utf8(rest)[k] == '\n';
                assert(text[k + 1] == '\n');
            } else {
                assert(i == 0);
                assert(text[0] == '\n');
            }
        }
        if bytes.last() == 13 {
            if rest.len() > 0 {
                assert(rest.last() == bytes.last());
            } else {
                assert(n == bytes.len());
                assert(head == 13);
            }
        }
    }
}

proof fn lemma_first_line(first: Seq<u8>, rest: Seq<u8>)
    requires
        !first.contains(10),
    ensures
        line_len(first + seq![10u8] + rest) == first.len(),
        line_len(first) == first.len(),
{
    let all = first + seq![10u8] + rest;
    lemma_line_len(all);
    lemma_line_len(first);
    let n = line_len(all) as int;
    if n < first.len() {
        assert(first[n] == 10);
    } else if n > first.len() {
        assert(all[first.len() as int] != 10);
    }
    if line_len(first) < first.len() {
        assert(first.contains(first[line_len(first) as int]));
    }
}

/// A line that a newline ends is read by itself, and does not change how what
/// follows it is read.
pub proof fn law_lines_one_by_one(first: Seq<u8>, rest: Seq<u8>)
    requires
        !first.contains(10),
    ensures
        lines(first + seq![10u8] + rest) == line_text(chomped(first)) + lines(rest),
{
    let all = first + seq![10u8] + rest;
    lemma_first_line(first, rest);
    assert(all.take(first.len() as int) =~= first);
    assert(all.skip(first.len() as int + 1) =~= rest);
}

/// A line that a newline ends is read as the text that its bytes encode, without a carriage
/// return at its end, and is passed over where they are not UTF-8; what follows it is read as if
/// it stood alone.
pub proof fn law_ended_line_in_full(first: Seq<u8>, rest: Seq<u8>)
    requires
        !first.contains(10),
    ensures
        ({
            let content = if first.len() > 0 && first.last() == 13 {
                first.drop_last()
            } else {
                first
            };
            lines(first + seq![10u8] + rest) == if valid_utf8(content) {
                seq![decode_utf8(content)] + lines(rest)
            } else {
                lines(rest)
            }
        }),
{
    law_lines_one_by_one(first, rest);
}

/// An empty log has no lines. What stands behind the last newline is read as the text that
/// its bytes encode, all of them, and is passed over where they are not UTF-8.
pub proof fn law_last_line_in_full(bytes: Seq<u8>)
    requires
        !bytes.contains(10),
    ensures
        lines(bytes) == if bytes.len() > 0 && valid_utf8(bytes) {
            seq![decode_utf8(bytes)]
        } else {
            Seq::empty()
        },
{
    lemma_first_line(bytes, Seq::empty());
}

/// A log that ends in a newline, and one that follows it, read as the lines of the
/// first and then those of the second.
pub proof fn law_lines_of_logs_in_a_row(a: Seq<u8>, b: Seq<u8>)
    ensures
        lines(a + seq![10u8] + b) == lines(a + seq![10u8]) + lines(b),
    decreases a.len(),
{
    let n = line_len(a) as int;
    lemma_line_len(a);
    if n < a.len() {
        let first = a.take(n);
        let rest = a.skip(n + 1);
        assert(!first.contains(10));
        assert(a =~= first + seq![10u8] + rest);
        assert(a + seq![10u8] + b =~= first + seq![10u8] + (rest + seq![10u8] + b));
        assert(a + seq![10u8] =~= first + seq![10u8] + (rest + seq![10u8]));
        law_lines_one_by_one(first, rest + seq![10u8] + b);
        law_lines_one_by_one(first, rest + seq![10u8]);
        law_lines_of_logs_in_a_row(rest, b);
        assert(lines(a + seq![10u8] + b) =~= lines(a + seq![10u8]) + lines(b));
    } else {
        assert(!a.contains(10));
        law_lines_one_by_one(a, b);
        law_lines_one_by_one(a, Seq::empty());
        assert(a + seq![10u8] + Seq::<u8>::empty() =~= a + seq![10u8]);
        assert(lines(a + seq![10u8]) =~= line_text(chomped(a)));
    }
}

/// A text that was logged with a newline behind it is read back, and so is one with
/// a carriage return and a newline behind it.
pub proof fn law_logged_line_reads_back(text: Seq<char>, rest: Seq<u8>)
    requires
        !text.contains('\n'),
    ensures
        text.len() == 0 || text.last() != '\r' ==> lines(encode_utf8(text) + seq![10u8] + rest)
            == seq![text] + lines(rest),
        lines(encode_utf8(text) + seq![13u8, 10u8] + rest) == seq![text] + lines(rest),
{
    let bytes = encode_utf8(text);
    encode_utf8_valid_utf8(text);
    encode_utf8_decode_utf8(text);
    lemma_decoded_line_ends(bytes);
    law_lines_one_by_one(bytes, rest);
    let returned = bytes.push(13);
    if returned.contains(10) {
        let i = choose|i: int| 0 <= i < returned.len() && returned[i] == 10;
        assert(bytes[i] == 10);
    }
    law_lines_one_by_one(returned, rest);
    assert(returned.drop_last() =~= bytes);
    assert(bytes + seq![13u8, 10u8] + rest =~= returned + seq![10u8] + rest);
}

/// A text at the end of a log is read back though no newline follows it.
pub proof fn law_last_line_needs_no_newline(text: Seq<char>)
    requires
        text.len() > 0,
        !text.contains('\n'),
    ensures
        lines(encode_utf8(text)) == seq![text],
{
    let bytes = encode_utf8(text);
    encode_utf8_valid_utf8(text);
    encode_utf8_decode_utf8(text);
    lemma_decoded_line_ends(bytes);
    lemma_first_line(bytes, Seq::empty());
}

/// No line that is read has a newline in it.
pub proof fn law_lines_hold_no_newline(bytes: Seq<u8>, i: int)
    requires
        0 <= i < lines(bytes).len(),
    ensures
        !lines(bytes)[i].contains('\n'),
    decreases bytes.len(),
{
    let n = line_len(bytes) as int;
    lemma_line_len(bytes);
    let line = if n < bytes.len() {
        chomped(bytes.take(n))
    } else {
        bytes
    };
    assert(!line.contains(10));
    if valid_utf8(line) {
        lemma_decoded_line_ends(line);
    }
    if n < bytes.len() && i >= line_text(line).len() {
        law_lines_hold_no_newline(bytes.skip(n + 1), i - line_text(line).len());
    }
}

/// No result is lost, and none is doubled: the two lists together are as long as the
/// list that was parted.
pub proof fn law_no_result_is_lost<A, B>(results: Seq<Result<A, B>>)
    ensures
        successes(results).len() + failures(results).len() == results.len(),
    decreases results.len(),
{
    if results.len() > 0 {
        law_no_result_is_lost(results.drop_last());
    }
}

/// Each result lands in the list of its kind, behind the earlier results of that
/// kind.
pub proof fn law_each_result_lands_in_order<A, B>(results: Seq<Result<A, B>>, i: int)
    requires
        0 <= i < results.len(),
    ensures
        match results[i] {
            Ok(a) => {
                let k = successes(results.take(i)).len();
                k < successes(results).len() && successes(results)[k as int] == a
            },
            Err(b) => {
                let k = failures(results.take(i)).len();
                k < failures(results).len() && failures(results)[k as int] == b
            },
        },
    decreases results.len(),
{
    let most = results.drop_last();
    if i < most.len() {
        law_each_result_lands_in_order(most, i);
        assert(most.take(i) =~= results.take(i));
    } else {
        assert(results.take(i) =~= most);
    }
}

/// No attribute is lost, and none is reported twice: as many are reported as were given.
pub proof fn law_no_attr_is_lost(attrs: Seq<Seq<char>>, outcomes: Seq<Result<(), Seq<u8>>>)
    requires
        outcomes.len() == attrs.len(),
    ensures
        successes(verdicts(attrs, outcomes)).len() + failures(verdicts(attrs, outcomes)).len()
            == attrs.len(),
{
    law_no_result_is_lost(verdicts(attrs, outcomes));
}

/// Each attribute is reported among those with a good outcome or among those with a bad
/// one, in the order in which they were given; one with a bad outcome has the lines of
/// its own log.
pub proof fn law_each_attr_is_reported_in_order(
    attrs: Seq<Seq<char>>,
    outcomes: Seq<Result<(), Seq<u8>>>,
    i: int,
)
    requires
        outcomes.len() == attrs.len(),
        0 <= i < attrs.len(),
    ensures
        ({
            let good = successes(verdicts(attrs, outcomes));
            let bad = failures(verdicts(attrs, outcomes));
            let earlier = verdicts(attrs.take(i), outcomes.take(i));
            match outcomes[i] {
                Ok(_) => {
                    let k = successes(earlier).len();
                    k < good.len() && good[k as int] == attrs[i]
                },
                Err(log) => {
                    let k = failures(earlier).len();
                    k < bad.len() && bad[k as int] == (attrs[i], lines(log))
                },
            }
        }),
{
    let found = verdicts(attrs, outcomes);
    law_each_result_lands_in_order(found, i);
    assert(found.take(i) =~= verdicts(attrs.take(i), outcomes.take(i)));
    assert(found[i] == verdict(attrs[i], outcomes[i]));
}

/// A try has a good outcome exactly where its run succeeded; where it failed, the outcome
/// is what was read of the log of that run.
pub proof fn law_outcome_follows_run<T>(events: Seq<Event<T>>, command: CommandView)
    requires
        is_try(events, command),
    ensures
        events[0] matches Event::Ran { job, finished } && if finished.success {
            outcome(events) == Ok::<(), Seq<u8>>(())
        } else {
            events[1] matches Event::Read { log, contents } && log == finished.log && outcome(
                events,
            ) == Err::<(), Seq<u8>>(contents@)
        },
{
}

/// The runs among `events`, in order.
pub open spec fn runs<T>(events: Seq<Event<T>>) -> Seq<(Job, Finished<T>)>
    decreases events.len(),
{
    if events.len() == 0 {
        Seq::empty()
    } else {
        match events.last() {
            Event::Ran { job, finished } => runs(events.drop_last()).push((job, finished)),
            Event::Read { log, contents } => runs(events.drop_last()),
        }
    }
}

proof fn lemma_runs_of_try<T>(before: Seq<Event<T>>, events: Seq<Event<T>>, command: CommandView)
    requires
        is_try(events, command),
    ensures
        events[0] matches Event::Ran { job, finished } && runs(before + events) == runs(
            before,
        ).push((job, finished)),
{
    let all = before + events;
    reveal_with_fuel(runs, 3);
    if events.len() == 1 {
        assert(all.last() == events[0]);
        assert(all.drop_last() =~= before);
    } else {
        assert(all.last() == events[1]);
        assert(all.drop_last().drop_last() =~= before);
        assert(all.drop_last().last() == events[0]);
    }
}

/// Of tries in a row there is one run for each, in their order, of its own command.
pub proof fn law_one_run_per_try<T>(tries: Seq<Seq<Event<T>>>, commands: Seq<CommandView>)
    requires
        commands.len() == tries.len(),
        forall|i: int| 0 <= i < tries.len() ==> is_try(#[trigger] tries[i], commands[i]),
    ensures
        runs(in_a_row(tries)).len() == tries.len(),
        forall|i: int|
            0 <= i < tries.len() ==> (#[trigger] runs(in_a_row(tries))[i]).0.is_for(
                commands[i],
                StdoutSink::Log,
            ),
    decreases tries.len(),
{
    if tries.len() > 0 {
        let most = tries.drop_last();
        assert forall|i: int| 0 <= i < most.len() implies is_try(
            #[trigger] most[i],
            commands.drop_last()[i],
        ) by {
            assert(most[i] == tries[i]);
        }
        law_one_run_per_try(most, commands.drop_last());
        let n = tries.len() - 1;
        assert(is_try(tries[n], commands[n]));
        lemma_runs_of_try(in_a_row(most), tries.last(), commands.last());
        assert forall|i: int| 0 <= i < tries.len() implies (#[trigger] runs(
            in_a_row(tries),
        )[i]).0.is_for(commands[i], StdoutSink::Log) by {
            if i < n {
                assert(runs(in_a_row(tries))[i] == runs(in_a_row(most))[i]);
            }
        }
    }
}

/// Of tries in a row, what comes right behind a run that failed is that its log is read;
/// and a log is read nowhere else. So no log waits for another run.
pub proof fn law_failed_log_is_read_at_once<T>(
    tries: Seq<Seq<Event<T>>>,
    commands: Seq<CommandView>,
    p: int,
)
    requires
        commands.len() == tries.len(),
        forall|i: int| 0 <= i < tries.len() ==> is_try(#[trigger] tries[i], commands[i]),
        0 <= p < in_a_row(tries).len(),
    ensures
        match in_a_row(tries)[p] {
            Event::Ran { job, finished } => !finished.success ==> {
                &&& p + 1 < in_a_row(tries).len()
                &&& in_a_row(tries)[p + 1] matches Event::Read { log, contents } && log
                    == finished.log
            },
            Event::Read { log, contents } => {
                &&& p > 0
                &&& in_a_row(tries)[p - 1] matches Event::Ran { job, finished }
                    && !finished.success && log == finished.log
            },
        },
    decreases tries.len(),
{
    let most = tries.drop_last();
    let m = in_a_row(most).len();
    let n = tries.len() - 1;
    assert(is_try(tries[n], commands[n]));
    if p < m {
        assert forall|i: int| 0 <= i < most.len() implies is_try(
            #[trigger] most[i],
            commands.drop_last()[i],
        ) by {
            assert(most[i] == tries[i]);
        }
        law_failed_log_is_read_at_once(most, commands.drop_last(), p);
    } else {
        assert(in_a_row(tries)[p] == tries[n][p - m]);
    }
}

/// Where every outcome is good, all attributes are reported as they were given, and
/// none as bad.
pub proof fn law_all_good(attrs: Seq<Seq<char>>, outcomes: Seq<Result<(), Seq<u8>>>)
    requires
        outcomes.len() == attrs.len(),
        forall|i: int| 0 <= i < outcomes.len() ==> (#[trigger] outcomes[i]) is Ok,
    ensures
        successes(verdicts(attrs, outcomes)) == attrs,
        failures(verdicts(attrs, outcomes)).len() == 0,
    decreases attrs.len(),
{
    let found = verdicts(attrs, outcomes);
    if attrs.len() > 0 {
        law_all_good(attrs.drop_last(), outcomes.drop_last());
        assert(found.drop_last() =~= verdicts(attrs.drop_last(), outcomes.drop_last()));
        assert(outcomes[outcomes.len() - 1] is Ok);
    }
    assert(successes(found) =~= attrs);
}

} // verus!
