//! What the library needs of the machine that it runs on.
use vstd::prelude::*;

use crate::command::{Command, CommandView};
use crate::output::{judged, Finished, StdoutSink};

verus! {

/// A command to run, and where its standard output goes.
#[derive(Debug)]
pub struct Job {
    /// The command.
    pub command: Command,
    /// Where its standard output goes.
    pub sink: StdoutSink,
}

impl Job {
    /// The job is to run `command` with its standard output going to `sink`.
    pub open spec fn is_for(self, command: CommandView, sink: StdoutSink) -> bool {
        self.command@ == command && self.sink == sink
    }
}

/// Something that a [`Machine`] did.
pub enum Event<T> {
    /// It did a job.
    Ran {
        /// The job.
        job: Job,
        /// How that ended.
        finished: Finished<T>,
    },
    /// It read a log.
    Read {
        /// The log.
        log: T,
        /// What was in it.
        contents: Vec<u8>,
    },
}

/// Does jobs and reads the logs that they leave, by functions of the caller. These can
/// be called only through [`Machine::execute`] and [`Machine::read`], so a contract can
/// say what is done, and in what order. The journal exists in proofs alone.
pub struct Machine<T, E, R> {
    execute: E,
    read: R,
    journal: Ghost<Seq<Event<T>>>,
}

impl<T, E: Fn(Job) -> Finished<T>, R: Fn(T) -> Vec<u8>> Machine<T, E, R> {
    /// The function that does jobs.
    pub closed spec fn executor(self) -> E {
        self.execute
    }

    /// The function that reads logs.
    pub closed spec fn reader(self) -> R {
        self.read
    }

    /// What the machine did so far, the earliest first.
    pub closed spec fn journal(self) -> Seq<Event<T>> {
        self.journal@
    }

    /// What the machine did since `earlier`.
    pub open spec fn since(self, earlier: Self) -> Seq<Event<T>> {
        self.journal().skip(earlier.journal().len() as int)
    }

    /// The functions of the machine may have done so.
    pub open spec fn possible(self, event: Event<T>) -> bool {
        match event {
            Event::Ran { job, finished } => call_ensures(self.executor(), (job,), finished),
            Event::Read { log, contents } => call_ensures(self.reader(), (log,), contents),
        }
    }

    /// The same functions as `earlier`, after something more was done, which they may
    /// have done so.
    pub open spec fn continues(self, earlier: Self) -> bool {
        &&& self.executor() == earlier.executor()
        &&& self.reader() == earlier.reader()
        &&& self.journal() == earlier.journal() + self.since(earlier)
        &&& forall|i: int|
            0 <= i < self.since(earlier).len() ==> self.possible(
                #[trigger] self.since(earlier)[i],
            )
    }

    /// The machine accepts the job to run `command` with its standard output going to
    /// `sink`.
    pub open spec fn accepts(self, command: CommandView, sink: StdoutSink) -> bool {
        forall|job: Job|
            job.is_for(command, sink) ==> #[trigger] call_requires(self.executor(), (job,))
    }

    /// The machine can read every log.
    pub open spec fn reads_all(self) -> bool {
        forall|log: T| #[trigger] call_requires(self.reader(), (log,))
    }

    /// Since `earlier` the machine did one thing: to run `command` with its standard
    /// output going to `sink`; and `res` hands over the log of that.
    pub open spec fn ran_once(
        self,
        earlier: Self,
        command: CommandView,
        sink: StdoutSink,
        res: Result<T, T>,
    ) -> bool {
        &&& self.continues(earlier)
        &&& self.since(earlier).len() == 1
        &&& self.since(earlier)[0] matches Event::Ran { job, finished } && job.is_for(
            command,
            sink,
        ) && res == judged(finished)
    }

    /// A machine that did nothing yet.
    pub fn new(execute: E, read: R) -> (res: Self)
        ensures
            res.executor() == execute,
            res.reader() == read,
            res.journal() == Seq::<Event<T>>::empty(),
    {
        Machine { execute, read, journal: Ghost(Seq::empty()) }
    }

    /// Does `job`, once.
    pub fn execute(&mut self, job: Job) -> (res: Finished<T>)
        requires
            call_requires(old(self).executor(), (job,)),
        ensures
            final(self).continues(*old(self)),
            final(self).since(*old(self)) == seq![Event::Ran { job, finished: res }],
    {
        let res = (self.execute)(job);
        proof {
            self.journal@ = self.journal@.push(Event::Ran { job, finished: res });
        }
        assert(self.since(*old(self)) =~= seq![Event::Ran { job, finished: res }]);
        assert(self.journal() =~= old(self).journal() + self.since(*old(self)));
        res
    }

    /// Reads `log`, once.
    pub fn read(&mut self, log: T) -> (res: Vec<u8>)
        requires
            call_requires(old(self).reader(), (log,)),
        ensures
            final(self).continues(*old(self)),
            final(self).since(*old(self)) == seq![Event::Read { log, contents: res }],
    {
        let res = (self.read)(log);
        proof {
            self.journal@ = self.journal@.push(Event::Read { log, contents: res });
        }
        assert(self.since(*old(self)) =~= seq![Event::Read { log, contents: res }]);
        assert(self.journal() =~= old(self).journal() + self.since(*old(self)));
        res
    }
}

/// `events` are one try of `command`: it is run with its standard output going to the
/// log, and, where it fails, that log is read at once.
pub open spec fn is_try<T>(events: Seq<Event<T>>, command: CommandView) -> bool {
    &&& events.len() > 0
    &&& events[0] matches Event::Ran { job, finished } && {
        &&& job.is_for(command, StdoutSink::Log)
        &&& if finished.success {
            events.len() == 1
        } else {
            &&& events.len() == 2
            &&& events[1] matches Event::Read { log, contents } && log == finished.log
        }
    }
}

/// The outcome of a try: good, or bad with what was read of the log.
pub open spec fn outcome<T>(events: Seq<Event<T>>) -> Result<(), Seq<u8>> {
    match events.last() {
        Event::Ran { job, finished } => Ok(()),
        Event::Read { log, contents } => Err(contents@),
    }
}

/// The outcomes of tries.
pub open spec fn outcomes<T>(tries: Seq<Seq<Event<T>>>) -> Seq<Result<(), Seq<u8>>> {
    tries.map_values(|events: Seq<Event<T>>| outcome(events))
}

/// The tries one after the other, the next begun when the one before is over.
pub open spec fn in_a_row<T>(tries: Seq<Seq<Event<T>>>) -> Seq<Event<T>>
    decreases tries.len(),
{
    if tries.len() == 0 {
        Seq::empty()
    } else {
        in_a_row(tries.drop_last()) + tries.last()
    }
}

/// What is done in two stretches is what is done in the first and then what is done in
/// the second.
pub proof fn law_events_add_up<T, E: Fn(Job) -> Finished<T>, R: Fn(T) -> Vec<u8>>(
    first: Machine<T, E, R>,
    middle: Machine<T, E, R>,
    last: Machine<T, E, R>,
)
    requires
        middle.continues(first),
        last.continues(middle),
    ensures
        last.continues(first),
        last.since(first) == middle.since(first) + last.since(middle),
{
    let early = middle.since(first);
    let late = last.since(middle);
    assert(last.since(first) =~= early + late);
    assert(last.journal() =~= first.journal() + last.since(first));
    assert forall|i: int| 0 <= i < last.since(first).len() implies last.possible(
        #[trigger] last.since(first)[i],
    ) by {
        if i < early.len() {
            assert(last.since(first)[i] == early[i]);
            assert(middle.possible(early[i]));
        } else {
            assert(last.since(first)[i] == late[i - early.len()]);
        }
    }
}

} // verus!
