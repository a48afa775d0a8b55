//! How a program that was run is judged, and how its output is read.
use vstd::prelude::*;
use vstd::utf8::{decode_utf8, valid_utf8};

use crate::text::texts;

verus! {

/// Where the standard output of a program goes. Its standard error always goes
/// to the log.
#[derive(Clone, Copy, Debug, PartialEq, Eq, Structural)]
pub enum StdoutSink {
    /// To the log, between what comes on standard error.
    Log,
    /// Nowhere.
    Null,
}

/// A program that has ended.
#[derive(Debug, PartialEq, Eq)]
pub struct Finished<T> {
    /// Whether it reported success.
    pub success: bool,
    /// Its log, from the start.
    pub log: T,
}

/// Where standard output goes, as the caller wants it kept or not.
pub open spec fn sink_for(keep_stdout: bool) -> StdoutSink {
    if keep_stdout {
        StdoutSink::Log
    } else {
        StdoutSink::Null
    }
}

/// Where standard output goes, as the caller wants it kept or not.
pub fn stdout_sink(keep_stdout: bool) -> (res: StdoutSink)
    ensures
        res == sink_for(keep_stdout),
{
    if keep_stdout {
        StdoutSink::Log
    } else {
        StdoutSink::Null
    }
}

/// The log, as that of a success or of a failure.
pub open spec fn judged<T>(finished: Finished<T>) -> Result<T, T> {
    if finished.success {
        Ok(finished.log)
    } else {
        Err(finished.log)
    }
}

/// Hands the log of a program over as that of a success or of a failure.
pub fn judge<T>(finished: Finished<T>) -> (res: Result<T, T>)
    ensures
        res == judged(finished),
{
    if finished.success {
        Ok(finished.log)
    } else {
        Err(finished.log)
    }
}

/// The successes among `results`, in order.
pub open spec fn successes<A, B>(results: Seq<Result<A, B>>) -> Seq<A>
    decreases results.len(),
{
    if results.len() == 0 {
        Seq::empty()
    } else {
        match results.last() {
            Ok(a) => successes(results.drop_last()).push(a),
            Err(_) => successes(results.drop_last()),
        }
    }
}

/// The failures among `results`, in order.
pub open spec fn failures<A, B>(results: Seq<Result<A, B>>) -> Seq<B>
    decreases results.len(),
{
    if results.len() == 0 {
        Seq::empty()
    } else {
        match results.last() {
            Ok(_) => failures(results.drop_last()),
            Err(b) => failures(results.drop_last()).push(b),
        }
    }
}

/// Parts the successes from the failures, each in order.
pub fn partition_result<A, B>(results: Vec<Result<A, B>>) -> (res: (Vec<A>, Vec<B>))
    ensures
        res.0@ == successes(results@),
        res.1@ == failures(results@),
{
    let ghost all = results@;
    let mut good: Vec<A> = Vec::new();
    let mut bad: Vec<B> = Vec::new();
    for result in it: results
        invariant
            all == it.seq(),
            good@ == successes(all.take(it.index() as int)),
            bad@ == failures(all.take(it.index() as int)),
    {
        proof {
            assert(all.take(it.index() + 1).drop_last() =~= all.take(it.index() as int));
        }
        match result {
            Ok(a) => good.push(a),
            Err(b) => bad.push(b),
        }
    }
    assert(all.take(all.len() as int) =~= all);
    (good, bad)
}

/// How many bytes come before the first newline, or before the end where there
/// is none.
pub open spec fn line_len(bytes: Seq<u8>) -> nat
    decreases bytes.len(),
{
    if bytes.len() == 0 || bytes[0] == 10 {
        0
    } else {
        1 + line_len(bytes.skip(1))
    }
}

/// A line that a newline ended, without the carriage return before that newline.
pub open spec fn chomped(line: Seq<u8>) -> Seq<u8> {
    if line.len() > 0 && line.last() == 13 {
        line.drop_last()
    } else {
        line
    }
}

/// The text of a line; nothing where it is not UTF-8.
pub open spec fn line_text(line: Seq<u8>) -> Seq<Seq<char>> {
    if valid_utf8(line) {
        seq![decode_utf8(line)]
    } else {
        Seq::empty()
    }
}

/// The lines of `bytes` that are UTF-8, in order, each without the newline, or
/// carriage return and newline, that ends it. The last line needs no newline.
pub open spec fn lines(bytes: Seq<u8>) -> Seq<Seq<char>>
    decreases bytes.len(),
    via lines_decreases
{
    if bytes.len() == 0 {
        Seq::empty()
    } else {
        let n = line_len(bytes) as int;
        if n < bytes.len() {
            line_text(chomped(bytes.take(n))) + lines(bytes.skip(n + 1))
        } else {
            line_text(bytes)
        }
    }
}

#[via_fn]
proof fn lines_decreases(bytes: Seq<u8>) {
    lemma_line_len(bytes);
}

/// [`line_len`] stops at the first newline, or at the end.
pub proof fn lemma_line_len(bytes: Seq<u8>)
    ensures
        line_len(bytes) <= bytes.len(),
        line_len(bytes) < bytes.len() ==> bytes[line_len(bytes) as int] == 10,
        forall|i: int| 0 <= i < line_len(bytes) ==> bytes[i] != 10,
    decreases bytes.len(),
{
    if bytes.len() > 0 && bytes[0] != 10 {
        lemma_line_len(bytes.skip(1));
        assert forall|i: int| 0 <= i < line_len(bytes) implies bytes[i] != 10 by {
            if i > 0 {
                assert(bytes.skip(1)[i - 1] == bytes[i]);
            }
        }
    }
}

/// Calls [`String::from_utf8`]. Trusted of it: it accepts exactly the valid
/// UTF-8, and gives the text which that encodes.
#[verifier::external_body]
fn decode(bytes: Vec<u8>) -> (res: Option<String>)
    ensures
        res is Some <==> valid_utf8(bytes@),
        res matches Some(text) ==> text@ == decode_utf8(bytes@),
{
    String::from_utf8(bytes).ok()
}

fn push_line(list: &mut Vec<String>, line: Vec<u8>)
    ensures
        texts(final(list)@) == texts(old(list)@) + line_text(line@),
{
    match decode(line) {
        Some(text) => {
            list.push(text);
        },
        None => {},
    }
    assert(texts(list@) =~= texts(old(list)@) + line_text(line@));
}

/// The lines of a file with these contents: those that are UTF-8, in order, each
/// without what ends it.
pub fn lines_from_file(contents: &[u8]) -> (res: Vec<String>)
    ensures
        texts(res@) == lines(contents@),
{
    let ghost all = contents@;
    let mut res: Vec<String> = Vec::new();
    let mut line: Vec<u8> = Vec::new();
    let ghost mut start: int = 0;
    let mut i: usize = 0;
    assert(all.skip(0) =~= all);
    while i < contents.len()
        invariant
            all == contents@,
            0 <= start <= i <= all.len(),
            line@ == all.subrange(start, i as int),
            forall|k: int| start <= k < i ==> all[k] != 10,
            lines(all) == texts(res@) + lines(all.skip(start)),
        decreases contents.len() - i,
    {
        if contents[i] == 10 {
            proof {
                let rest = all.skip(start);
                lemma_line_len(rest);
                let n = i - start;
                assert(rest[n] == 10);
                assert(line_len(rest) == n) by {
                    if line_len(rest) < n {
                        assert(all[start + line_len(rest)] != 10);
                    }
                }
                assert(rest.take(n) =~= line@);
                assert(rest.skip(n + 1) =~= all.skip(i + 1));
            }
            let ghost raw = line@;
            if line.len() > 0 && line[line.len() - 1] == 13 {
                line.pop();
            }
            assert(line@ =~= chomped(raw));
            let ghost before = texts(res@);
            push_line(&mut res, line);
            proof {
                assert(lines(all) =~= before + (line_text(chomped(raw)) + lines(all.skip(i + 1))));
                start = i + 1;
            }
            line = Vec::new();
        } else {
            line.push(contents[i]);
        }
        i = i + 1;
        assert(line@ =~= all.subrange(start, i as int));
    }
    proof {
        let rest = all.skip(start);
        assert(rest =~= line@);
        lemma_line_len(rest);
    }
    if line.len() > 0 {
        push_line(&mut res, line);
    }
    res
}

/// An outcome, with the log as bytes.
pub open spec fn outcome_view(outcome: Result<(), Vec<u8>>) -> Result<(), Seq<u8>> {
    match outcome {
        Ok(_) => Ok(()),
        Err(log) => Err(log@),
    }
}

/// The outcomes of a list, with each log as bytes.
pub open spec fn outcome_views(outcomes: Seq<Result<(), Vec<u8>>>) -> Seq<Result<(), Seq<u8>>> {
    outcomes.map_values(|outcome: Result<(), Vec<u8>>| outcome_view(outcome))
}

/// The names and lines of a list, as texts.
pub open spec fn reports(list: Seq<(String, Vec<String>)>) -> Seq<(Seq<char>, Seq<Seq<char>>)> {
    list.map_values(|p: (String, Vec<String>)| (p.0@, texts(p.1@)))
}

/// What the outcome on an attribute says of it: its name, and, where the outcome is
/// a failure, the lines of the log.
pub open spec fn verdict(attr: Seq<char>, outcome: Result<(), Seq<u8>>) -> Result<
    Seq<char>,
    (Seq<char>, Seq<Seq<char>>),
> {
    match outcome {
        Ok(_) => Ok(attr),
        Err(log) => Err((attr, lines(log))),
    }
}

/// What the outcome on each of `attrs` says of it.
pub open spec fn verdicts(attrs: Seq<Seq<char>>, outcomes: Seq<Result<(), Seq<u8>>>) -> Seq<
    Result<Seq<char>, (Seq<char>, Seq<Seq<char>>)>,
> {
    Seq::new(attrs.len(), |i: int| verdict(attrs[i], outcomes[i]))
}

/// A verdict as texts.
pub open spec fn verdict_view(found: Result<String, (String, Vec<String>)>) -> Result<
    Seq<char>,
    (Seq<char>, Seq<Seq<char>>),
> {
    match found {
        Ok(name) => Ok(name@),
        Err((name, list)) => Err((name@, texts(list@))),
    }
}

proof fn lemma_partition_views(
    found: Seq<Result<String, (String, Vec<String>)>>,
    models: Seq<Result<Seq<char>, (Seq<char>, Seq<Seq<char>>)>>,
)
    requires
        found.len() == models.len(),
        forall|i: int| 0 <= i < found.len() ==> verdict_view(#[trigger] found[i]) == models[i],
    ensures
        texts(successes(found)) == successes(models),
        reports(failures(found)) == failures(models),
    decreases found.len(),
{
    if found.len() > 0 {
        lemma_partition_views(found.drop_last(), models.drop_last());
        assert(verdict_view(found[found.len() - 1]) == models[models.len() - 1]);
    }
    assert(texts(successes(found)) =~= successes(models));
    assert(reports(failures(found)) =~= failures(models));
}

/// Parts the attributes with a good outcome from those with a bad one, the latter
/// with the lines of their logs. `outcomes` holds the outcome on each of `attrs`.
pub fn partition_attrs(attrs: Vec<String>, outcomes: Vec<Result<(), Vec<u8>>>) -> (res: (
    Vec<String>,
    Vec<(String, Vec<String>)>,
))
    requires
        outcomes.len() == attrs.len(),
    ensures
        texts(res.0@) == successes(verdicts(texts(attrs@), outcome_views(outcomes@))),
        reports(res.1@) == failures(verdicts(texts(attrs@), outcome_views(outcomes@))),
{
    let ghost models = verdicts(texts(attrs@), outcome_views(outcomes@));
    let mut found: Vec<Result<String, (String, Vec<String>)>> = Vec::new();
    let mut i: usize = 0;
    while i < attrs.len()
        invariant
            i <= attrs.len(),
            found.len() == i,
            outcomes.len() == attrs.len(),
            models == verdicts(texts(attrs@), outcome_views(outcomes@)),
            forall|k: int| 0 <= k < i ==> verdict_view(#[trigger] found[k]) == models[k],
        decreases attrs.len() - i,
    {
        let name = attrs[i].clone();
        match &outcomes[i] {
            Ok(_) => found.push(Ok(name)),
            Err(log) => found.push(Err((name, lines_from_file(log.as_slice())))),
        }
        assert(verdict_view(found[i as int]) == models[i as int]);
        i = i + 1;
    }
    proof {
        lemma_partition_views(found@, models);
    }
    partition_result(found)
}

} // verus!
