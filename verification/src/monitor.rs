//! Watching over a single process: its record, where the record is kept, and
//! what to do when the process ends.

pub mod file;
pub mod process;

pub use self::process::Process;
pub use self::process::ProcessData;

use crate::monitor::process::ProcessDataView;
use vstd::prelude::*;

verus! {

/// How one run of a watched process came to its end.
#[derive(Clone, Copy, Debug, PartialEq, Eq, Structural)]
pub enum Ending {
    /// The process could not be launched.
    NotSpawned,
    /// The process was launched, but waiting for it failed.
    NotAwaited,
    /// The process ended, with its code unless a signal ended it.
    Exited(Option<i32>),
}

/// What follows the end of one run.
#[derive(Clone, Copy, Debug, PartialEq, Eq, Structural)]
pub enum Verdict {
    /// The process crashed and is to be launched again.
    Retry,
    /// The process crashed and its restart budget is spent.
    TooManyRetries,
    /// The process ended without an error.
    Finished,
    /// Waiting for the process failed.
    NotStarted,
    /// The process could not be launched.
    NotSpawned,
}

/// Whether a run that ended with `ending` was a crash: the process exited,
/// and not by a normal return with code 0.
pub open spec fn failed(ending: Ending) -> bool {
    ending matches Ending::Exited(code) && code != Some(0i32)
}

/// What follows the end of one run for a process that had `retries` restarts
/// counted against a budget of `max_retries`. A crash is answered by a restart
/// while fewer restarts were counted than the budget allows.
pub open spec fn verdict(ending: Ending, retries: int, max_retries: int) -> Verdict {
    match ending {
        Ending::NotSpawned => Verdict::NotSpawned,
        Ending::NotAwaited => Verdict::NotStarted,
        Ending::Exited(code) => if code == Some(0i32) {
            Verdict::Finished
        } else if retries < max_retries {
            Verdict::Retry
        } else {
            Verdict::TooManyRetries
        },
    }
}

/// The record after one run ended with `ending`: a restart that is granted is
/// counted, and nothing else changes.
pub open spec fn watched(record: ProcessDataView, ending: Ending) -> ProcessDataView {
    if verdict(ending, record.retries, record.max_retries) == Verdict::Retry {
        record.with_retries(record.retries + 1)
    } else {
        record
    }
}

/// The record after the runs that ended with `endings`, one after the other.
pub open spec fn after_runs(record: ProcessDataView, endings: Seq<Ending>) -> ProcessDataView
    decreases endings.len(),
{
    if endings.len() == 0 {
        record
    } else {
        watched(after_runs(record, endings.drop_last()), endings.last())
    }
}

/// How many of the runs that ended with `endings` were answered by a restart.
pub open spec fn restarts(record: ProcessDataView, endings: Seq<Ending>) -> nat
    decreases endings.len(),
{
    if endings.len() == 0 {
        0
    } else {
        let before = after_runs(record, endings.drop_last());
        restarts(record, endings.drop_last()) + if verdict(
            endings.last(),
            before.retries,
            before.max_retries,
        ) == Verdict::Retry {
            1nat
        } else {
            0nat
        }
    }
}

/// Whether every run of `endings` was a crash.
pub open spec fn all_failed(endings: Seq<Ending>) -> bool {
    forall|i: int| 0 <= i < endings.len() ==> failed(#[trigger] endings[i])
}

/// While the budget lasts, every crash is answered by a restart that is
/// counted.
proof fn lemma_crashes_within_budget(record: ProcessDataView, endings: Seq<Ending>)
    requires
        record.retries + endings.len() <= record.max_retries,
        all_failed(endings),
    ensures
        restarts(record, endings) == endings.len(),
        after_runs(record, endings) == record.with_retries(record.retries + endings.len()),
    decreases endings.len(),
{
    if endings.len() > 0 {
        lemma_crashes_within_budget(record, endings.drop_last());
        assert(failed(endings[endings.len() - 1]));
    }
}

/// The budget bounds the restarts. A process with no restart counted and a
/// budget of `k` crashes `k + 1` times in a row. Then exactly `k` of the
/// crashes were answered by a restart, the last one was not, `k` restarts are
/// counted, and nothing else in the record has changed.
pub proof fn lemma_budget_bounds_restarts(record: ProcessDataView, endings: Seq<Ending>)
    requires
        record.retries == 0,
        record.max_retries >= 0,
        endings.len() == record.max_retries + 1,
        all_failed(endings),
    ensures
        restarts(record, endings) == record.max_retries,
        after_runs(record, endings) == record.with_retries(record.max_retries),
        verdict(
            endings.last(),
            after_runs(record, endings.drop_last()).retries,
            record.max_retries,
        ) == Verdict::TooManyRetries,
{
    let earlier = endings.drop_last();
    assert(all_failed(earlier)) by {
        assert forall|i: int| 0 <= i < earlier.len() implies failed(#[trigger] earlier[i]) by {
            assert(earlier[i] == endings[i]);
        }
    }
    lemma_crashes_within_budget(record, earlier);
    assert(failed(endings[endings.len() - 1]));
}

/// Takes in how one run of `process` ended and says what follows.
///
/// A crash, by a code other than 0 or by a signal, is answered by a restart
/// while fewer restarts were counted than the budget allows, and the restart
/// is counted when it is granted. Any other answer leaves the record alone
/// and ends the watch.
pub fn start(process: &mut Process, ending: Ending) -> (next: Verdict)
    ensures
        next == verdict(ending, old(process)@.retries, old(process)@.max_retries),
        final(process)@ == watched(old(process)@, ending),
{
    match ending {
        Ending::NotSpawned => Verdict::NotSpawned,
        Ending::NotAwaited => Verdict::NotStarted,
        Ending::Exited(Some(0)) => Verdict::Finished,
        Ending::Exited(_) => {
            if process.should_retry() {
                process.increment_retries();
                Verdict::Retry
            } else {
                Verdict::TooManyRetries
            }
        },
    }
}

} // verus!
