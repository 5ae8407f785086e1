//! The supervisor's table of jobs, and what a tick and a message do to it.

use crate::config;
use crate::manager::job;
use crate::manager::job::{Desired, Error, JobView, Phase, Probe};
use crate::manager::process::{Process, ProcessView};
use crate::rpc::{Message, MessageView, TransportError};
use vstd::prelude::*;

verus! {

/// How long one tick lasts, in milliseconds: the loop sleeps for what is left
/// of it after reconciling and receiving.
pub const TICK_MILLIS: u64 = 100;

/// The supervisor's state: one record per job name, the restart budget that
/// new jobs get, and whether the loop was told to end.
pub struct State {
    processes: Vec<Process>,
    max_retries: u32,
    quit: bool,
}

/// The mathematical content of a [`State`].
pub struct StateView {
    pub processes: Seq<ProcessView>,
    pub max_retries: nat,
    pub quit: bool,
}

impl StateView {
    /// Whether the table holds a record under `name`.
    pub open spec fn has(self, name: Seq<char>) -> bool {
        exists|i: int| 0 <= i < self.processes.len() && self.processes[i].job.name == name
    }

    /// Whether no name has two records.
    pub open spec fn wf(self) -> bool {
        forall|i: int, j: int|
            0 <= i < self.processes.len() && 0 <= j < self.processes.len() && i != j
                ==> self.processes[i].job.name != self.processes[j].job.name
    }

    /// The record that a start request creates: not started, asked to run by a
    /// client, with the table's restart budget and none of it spent.
    pub open spec fn fresh(self, name: Seq<char>, process: config::ProcessView) -> ProcessView {
        ProcessView {
            job: JobView {
                name,
                program: process.program,
                args: process.args,
                phase: Phase::NotStarted,
            },
            desired: Desired::Running,
            retries: 0,
            max_retries: self.max_retries,
            pending_start: true,
        }
    }

    /// The table after a client asked for `name` to run as `process` describes.
    /// A name that has a record keeps it, description included.
    pub open spec fn start_requested(self, name: Seq<char>, process: config::ProcessView) -> Seq<
        ProcessView,
    > {
        if self.has(name) {
            self.processes.map_values(
                |p: ProcessView|
                    if p.job.name == name {
                        p.start_requested()
                    } else {
                        p
                    },
            )
        } else {
            self.processes.push(self.fresh(name, process))
        }
    }

    /// The table after a client asked for `name` to stop.
    pub open spec fn stop_requested(self, name: Seq<char>) -> Seq<ProcessView> {
        self.processes.map_values(
            |p: ProcessView|
                if p.job.name == name {
                    p.stop_requested()
                } else {
                    p
                },
        )
    }

    /// The state after one message was taken in.
    pub open spec fn handled(self, message: MessageView) -> StateView {
        match message {
            MessageView::Start(name, process) => StateView {
                processes: self.start_requested(name, process),
                ..self
            },
            MessageView::Stop(name) => StateView { processes: self.stop_requested(name), ..self },
            MessageView::Quit => StateView { quit: true, ..self },
            MessageView::Status => self,
        }
    }

    /// The state after the record at `index` was reconciled with `probe`.
    pub open spec fn reconciled(self, index: int, probe: Probe) -> StateView {
        StateView {
            processes: self.processes.update(index, self.processes[index].reconciled(probe)),
            ..self
        }
    }

    /// The state after every record was reconciled with the probe in its place.
    pub open spec fn reconciled_all(self, probes: Seq<Probe>) -> StateView {
        StateView {
            processes: Seq::new(
                self.processes.len(),
                |i: int| self.processes[i].reconciled(probes[i]),
            ),
            ..self
        }
    }

    /// What reconciling every record with the probe in its place tells the
    /// caller to do, record by record.
    pub open spec fn decisions(self, probes: Seq<Probe>) -> Seq<
        Result<Option<job::Action>, Error>,
    > {
        Seq::new(self.processes.len(), |i: int| self.processes[i].decision(probes[i]))
    }

    /// The state after the outcome of one attempt to receive was taken in: a
    /// message is handled, anything else changes nothing.
    pub open spec fn received(self, message: Option<MessageView>) -> StateView {
        match message {
            Some(message) => self.handled(message),
            None => self,
        }
    }

    /// The state after the launches that a reconciliation asked for were
    /// attempted: `spawned` holds, in the place of each record, what its attempt
    /// came to. Records for which no launch was asked stay as they are.
    pub open spec fn launched(
        self,
        decisions: Seq<Result<Option<job::Action>, Error>>,
        spawned: Seq<Option<u32>>,
    ) -> StateView {
        StateView {
            processes: Seq::new(
                self.processes.len(),
                |i: int|
                    if decisions[i] == Ok::<Option<job::Action>, Error>(Some(job::Action::Start)) {
                        self.processes[i].started(spawned[i])
                    } else {
                        self.processes[i]
                    },
            ),
            ..self
        }
    }

    /// The state after one tick: every record is reconciled with its probe,
    /// the launches that this asked for are attempted, and then the one
    /// message that arrived, if any, is taken in.
    pub open spec fn ticked(
        self,
        probes: Seq<Probe>,
        spawned: Seq<Option<u32>>,
        message: Option<MessageView>,
    ) -> StateView {
        self.reconciled_all(probes).launched(self.decisions(probes), spawned).received(message)
    }

    /// The state after the declarations `entries` were asked for, one after the
    /// other.
    pub open spec fn loaded(self, entries: Seq<(Seq<char>, config::ProcessView)>) -> StateView
        decreases entries.len(),
    {
        if entries.len() == 0 {
            self
        } else {
            self.loaded(entries.drop_last()).handled(
                MessageView::Start(entries.last().0, entries.last().1),
            )
        }
    }

    /// The state after a launch attempt for the record at `index`.
    pub open spec fn started(self, index: int, spawned: Option<u32>) -> StateView {
        StateView {
            processes: self.processes.update(index, self.processes[index].started(spawned)),
            ..self
        }
    }
}

/// Names stay unique: whatever the message, a valid table stays valid.
pub proof fn lemma_handled_keeps_names_unique(state: StateView, message: MessageView)
    ensures
        state.wf() ==> state.handled(message).wf(),
{
    if !state.wf() {
        return ;
    }
    let after = state.handled(message);
    match message {
        MessageView::Start(name, process) => {
            if !state.has(name) {
                assert forall|i: int, j: int|
                    0 <= i < after.processes.len() && 0 <= j < after.processes.len() && i
                        != j implies after.processes[i].job.name != after.processes[j].job.name by {
                    if i < state.processes.len() && j < state.processes.len() {
                    } else if i < state.processes.len() {
                        assert(state.processes[i].job.name != name);
                    } else {
                        assert(state.processes[j].job.name != name);
                    }
                }
            }
        },
        _ => {},
    }
}

/// Jobs do not touch each other. What reconciling the table decides for one
/// record, and what it makes of that record, depends on the record and its
/// own probe alone: not on the other records' probes, and so not on whether
/// their polls failed, their children crashed or their budgets ran out.
pub proof fn lemma_jobs_are_independent(
    state: StateView,
    probes: Seq<Probe>,
    others: Seq<Probe>,
    index: int,
)
    requires
        0 <= index < state.processes.len(),
        probes[index] == others[index],
    ensures
        state.decisions(probes)[index] == state.decisions(others)[index],
        state.reconciled_all(probes).processes[index] == state.reconciled_all(
            others,
        ).processes[index],
        state.decisions(probes)[index] == state.processes[index].decision(probes[index]),
        state.reconciled_all(probes).processes[index] == state.processes[index].reconciled(
            probes[index],
        ),
{
}

/// No message touches a job. Whatever the message, every record that was
/// there keeps its job as it was, the child it holds and what was last seen of
/// it included, and a record that the message created is not started: a launch
/// can only come from a later reconciliation.
pub proof fn lemma_messages_launch_nothing(state: StateView, message: MessageView)
    ensures
        state.processes.len() <= state.handled(message).processes.len(),
        forall|i: int|
            0 <= i < state.processes.len() ==> (#[trigger] state.handled(
                message,
            ).processes[i]).job == state.processes[i].job,
        forall|i: int|
            state.processes.len() <= i < state.handled(message).processes.len() ==> (
            #[trigger] state.handled(message).processes[i]).job.phase == Phase::NotStarted,
{
}

/// A start request waits for the next tick. A request for a new name arrives
/// in one tick: whatever that tick polled and launched, it ends with a record
/// for the name that is not started and holds no child. The tick after it asks
/// for the launch, whatever its probes, and ends with the record holding the
/// child that the launch gave, or still not started if the launch failed.
pub proof fn lemma_start_waits_for_next_tick(
    state: StateView,
    name: Seq<char>,
    process: config::ProcessView,
    probes: Seq<Probe>,
    spawned: Seq<Option<u32>>,
    next_probes: Seq<Probe>,
    next_spawned: Seq<Option<u32>>,
    next_message: Option<MessageView>,
)
    requires
        !state.has(name),
    ensures
        ({
            let place = state.processes.len() as int;
            let after = state.ticked(probes, spawned, Some(MessageView::Start(name, process)));
            let next = after.ticked(next_probes, next_spawned, next_message);
            &&& after.processes.len() == place + 1
            &&& after.processes[place] == state.fresh(name, process)
            &&& after.processes[place].job.phase == Phase::NotStarted
            &&& after.decisions(next_probes)[place] == Ok::<Option<job::Action>, Error>(
                Some(job::Action::Start),
            )
            &&& next.processes[place].job.phase == Phase::NotStarted.started(next_spawned[place])
        }),
{
    let place = state.processes.len() as int;
    let polled = state.reconciled_all(probes).launched(state.decisions(probes), spawned);
    assert(!polled.has(name)) by {
        if polled.has(name) {
            let i = choose|i: int|
                0 <= i < polled.processes.len() && polled.processes[i].job.name == name;
            assert(state.processes[i].job.name == name);
        }
    }
    let after = polled.handled(MessageView::Start(name, process));
    assert(after.processes[place] == state.fresh(name, process));
    let launched = after.reconciled_all(next_probes).launched(
        after.decisions(next_probes),
        next_spawned,
    );
    assert(launched.processes[place].job.phase == Phase::NotStarted.started(next_spawned[place]));
    match next_message {
        Some(message) => {
            lemma_messages_launch_nothing(launched, message);
        },
        None => {},
    }
}

/// A name has one record. After a start request the table holds a record
/// under the name, and a second start request under that name, whatever it
/// describes, changes nothing: no record is added, none is replaced, and the
/// job's child is left alone.
pub proof fn lemma_second_start_changes_nothing(
    state: StateView,
    name: Seq<char>,
    first: config::ProcessView,
    second: config::ProcessView,
)
    requires
        state.wf(),
    ensures
        ({
            let once = state.handled(MessageView::Start(name, first));
            &&& once.wf()
            &&& once.has(name)
            &&& once.handled(MessageView::Start(name, second)) == once
        }),
{
    let once = state.handled(MessageView::Start(name, first));
    lemma_handled_keeps_names_unique(state, MessageView::Start(name, first));
    if state.has(name) {
        let i = choose|i: int| 0 <= i < state.processes.len() && state.processes[i].job.name == name;
        assert(once.processes[i].job.name == name);
    } else {
        assert(once.processes[state.processes.len() as int].job.name == name);
    }
    assert(once.handled(MessageView::Start(name, second)).processes =~= once.processes);
}

/// Stopping twice is stopping once, and stopping launches nothing. A stop
/// request touches no job's child and no other job's record, leaves a job that
/// is already not asked for exactly as it is, and a second stop request under
/// the same name changes nothing. The reconciliation that follows asks for no
/// launch of the job, whatever its probe; if the job holds no child, it asks
/// for nothing at all and reports no failure.
pub proof fn lemma_stop_is_idempotent(state: StateView, name: Seq<char>, probes: Seq<Probe>)
    ensures
        ({
            let stopped = state.handled(MessageView::Stop(name));
            &&& stopped.handled(MessageView::Stop(name)) == stopped
            &&& stopped.processes.len() == state.processes.len()
            &&& forall|i: int|
                0 <= i < state.processes.len() ==> (#[trigger] stopped.processes[i]).job
                    == state.processes[i].job
            &&& forall|i: int|
                0 <= i < state.processes.len() && (state.processes[i].job.name != name
                    || state.processes[i].desired == Desired::Stopped)
                    ==> #[trigger] stopped.processes[i] == state.processes[i]
            &&& forall|i: int|
                0 <= i < state.processes.len() && state.processes[i].job.name == name ==> {
                    &&& (#[trigger] stopped.processes[i]).desired == Desired::Stopped
                    &&& stopped.decisions(probes)[i] != Ok::<Option<job::Action>, Error>(
                        Some(job::Action::Start),
                    )
                    &&& state.processes[i].job.phase.child() is None ==> stopped.decisions(
                        probes,
                    )[i] == Ok::<Option<job::Action>, Error>(None)
                }
        }),
{
    let stopped = state.handled(MessageView::Stop(name));
    assert(stopped.handled(MessageView::Stop(name)).processes =~= stopped.processes);
}

impl View for State {
    type V = StateView;

    closed spec fn view(&self) -> StateView {
        StateView {
            processes: Seq::new(self.processes@.len(), |i: int| self.processes@[i]@),
            max_retries: self.max_retries as nat,
            quit: self.quit,
        }
    }
}

impl State {
    /// Whether the table is valid: no name has two records.
    pub open spec fn wf(&self) -> bool {
        self@.wf()
    }

    /// An empty table, with no restart budget for the jobs to come.
    pub fn new() -> (state: State)
        ensures
            state@ == (StateView { processes: Seq::empty(), max_retries: 0, quit: false }),
            state.wf(),
    {
        let state = State { processes: Vec::new(), max_retries: 0, quit: false };
        assert(state@.processes =~= Seq::empty());
        state
    }

    /// This state with the restart budget that jobs created from now on get.
    pub fn with_max_retries(self, max_retries: u32) -> (state: State)
        ensures
            state@ == (StateView { max_retries: max_retries as nat, ..self@ }),
    {
        let state = State { max_retries, ..self };
        assert(state@.processes =~= self@.processes);
        state
    }

    /// How many jobs the table holds.
    pub fn len(&self) -> (len: usize)
        ensures
            len == self@.processes.len(),
    {
        self.processes.len()
    }

    /// The restart budget that new jobs get.
    pub fn max_retries(&self) -> (max_retries: u32)
        ensures
            max_retries == self@.max_retries,
    {
        self.max_retries
    }

    /// Whether the loop was told to end. The loop then ends after the tick in
    /// which the request arrived; the children are left running.
    pub fn quit_requested(&self) -> (quit: bool)
        ensures
            quit == self@.quit,
    {
        self.quit
    }

    /// The record at `index`.
    pub fn process(&self, index: usize) -> (process: &Process)
        requires
            index < self@.processes.len(),
        ensures
            process@ == self@.processes[index as int],
    {
        &self.processes[index]
    }

    /// The place of the record under `name`, if the table holds one.
    pub fn position(&self, name: &String) -> (found: Option<usize>)
        ensures
            found is Some <==> self@.has(name@),
            found matches Some(i) ==> i < self@.processes.len() && self@.processes[i as int].job.name
                == name@ && forall|j: int| 0 <= j < i ==> self@.processes[j].job.name != name@,
    {
        let mut i: usize = 0;
        while i < self.processes.len()
            invariant
                i <= self.processes@.len(),
                forall|j: int| 0 <= j < i ==> self@.processes[j].job.name != name@,
            decreases self.processes@.len() - i,
        {
            if self.processes[i].job().is_named(name) {
                assert(self@.processes[i as int].job.name == name@);
                return Some(i);
            }
            i += 1;
        }
        None
    }

    /// Marks every record under `name` as asked to run, or as asked to stop.
    fn request(&mut self, name: &String, run: bool)
        ensures
            final(self)@ == (StateView {
                processes: old(self)@.processes.map_values(
                    |p: ProcessView|
                        if p.job.name == name@ {
                            if run {
                                p.start_requested()
                            } else {
                                p.stop_requested()
                            }
                        } else {
                            p
                        },
                ),
                ..old(self)@
            }),
    {
        let mut i: usize = 0;
        while i < self.len()
            invariant
                i <= self@.processes.len(),
                self@.processes.len() == old(self)@.processes.len(),
                self@.max_retries == old(self)@.max_retries,
                self@.quit == old(self)@.quit,
                forall|j: int|
                    0 <= j < i ==> (#[trigger] self@.processes[j]) == if old(
                        self,
                    )@.processes[j].job.name == name@ {
                        if run {
                            old(self)@.processes[j].start_requested()
                        } else {
                            old(self)@.processes[j].stop_requested()
                        }
                    } else {
                        old(self)@.processes[j]
                    },
                forall|j: int|
                    i <= j < self@.processes.len() ==> (#[trigger] self@.processes[j]) == old(
                        self,
                    )@.processes[j],
            decreases self@.processes.len() - i,
        {
            let ghost before = self@.processes;
            assert(before[i as int] == old(self)@.processes[i as int]);
            if self.processes[i].job().is_named(name) {
                if run {
                    self.processes[i].request_start();
                    assert(self@.processes[i as int] == before[i as int].start_requested());
                } else {
                    self.processes[i].request_stop();
                    assert(self@.processes[i as int] == before[i as int].stop_requested());
                }
            }
            assert(forall|j: int|
                0 <= j < before.len() && j != i ==> (#[trigger] self@.processes[j]) == before[j]);
            i += 1;
        }
        assert(self@.processes =~= old(self)@.processes.map_values(
            |p: ProcessView|
                if p.job.name == name@ {
                    if run {
                        p.start_requested()
                    } else {
                        p.stop_requested()
                    }
                } else {
                    p
                },
        ));
    }

    /// Takes note of a client's request.
    ///
    /// A start request creates a record when the name has none, and takes a
    /// stopped job up again; it changes nothing for a job that is already asked
    /// to run. A stop request marks the job as not asked for, and is nothing
    /// for a name without a record. A status request changes nothing, and a
    /// quit request lets the loop end. No request launches or signals a child:
    /// that is left to the next reconciliation.
    pub fn handle(&mut self, message: Message)
        ensures
            final(self)@ == old(self)@.handled(message@),
            old(self).wf() ==> final(self).wf(),
    {
        proof {
            lemma_handled_keeps_names_unique(old(self)@, message@);
        }
        match message {
            Message::Start(name, process) => {
                match self.position(&name) {
                    Some(_) => {
                        self.request(&name, true);
                        assert(self@.processes =~= old(self)@.start_requested(name@, process@));
                    },
                    None => {
                        let fresh = Process::new(name, process.program, process.args);
                        let mut fresh = fresh.with_max_retries(self.max_retries);
                        fresh.request_start();
                        self.processes.push(fresh);
                        assert(self@.processes =~= old(self)@.start_requested(name@, process@));
                    },
                }
            },
            Message::Stop(name) => {
                self.request(&name, false);
                assert(self@.processes =~= old(self)@.stop_requested(name@));
            },
            Message::Quit => {
                self.quit = true;
                assert(self@.processes =~= old(self)@.processes);
            },
            Message::Status => {},
        }
    }

    /// Asks for every process that `config` declares, in its order, as a start
    /// request for each would.
    pub fn load(&mut self, config: &config::Config)
        ensures
            final(self)@ == old(self)@.loaded(config@),
            old(self).wf() ==> final(self).wf(),
    {
        let declared = config::select_processes(None, config);
        let mut i: usize = 0;
        assert(config@.take(0) =~= Seq::<(Seq<char>, config::ProcessView)>::empty());
        while i < declared.len()
            invariant
                i <= declared@.len(),
                config::listed(declared@) == config@,
                old(self).wf() ==> self.wf(),
                self@ == old(self)@.loaded(config@.take(i as int)),
            decreases declared@.len() - i,
        {
            let name = declared[i].0.clone();
            let process = declared[i].1.clone();
            proof {
                assert(config@.take(i + 1).drop_last() =~= config@.take(i as int));
                assert(config@.take(i + 1).last() == config::listed(declared@)[i as int]);
            }
            self.handle(Message::Start(name, process));
            i += 1;
        }
        assert(config@.take(i as int) =~= config@);
    }

    /// One reconciliation of the record at `index`: takes in the poll of its
    /// child and says what the caller must now do to it.
    pub fn try_reconciliate(&mut self, index: usize, probe: Probe) -> (result: Result<
        Option<job::Action>,
        Error,
    >)
        requires
            index < old(self)@.processes.len(),
        ensures
            final(self)@ == old(self)@.reconciled(index as int, probe),
            result == old(self)@.processes[index as int].decision(probe),
            old(self).wf() ==> final(self).wf(),
    {
        let result = self.processes[index].try_reconciliate(probe);
        assert(self@.processes =~= old(self)@.reconciled(index as int, probe).processes);
        result
    }

    /// The first half of a tick: reconciles every record in the table with the
    /// poll of its child, and says for each what the caller must now do.
    ///
    /// Records are independent of each other: what is decided for one depends
    /// on that record and its probe alone, and a failure of one leaves the
    /// others as they would be without it.
    pub fn reconcile(&mut self, probes: &Vec<Probe>) -> (decisions: Vec<
        Result<Option<job::Action>, Error>,
    >)
        requires
            probes@.len() == old(self)@.processes.len(),
        ensures
            final(self)@ == old(self)@.reconciled_all(probes@),
            decisions@ == old(self)@.decisions(probes@),
            old(self).wf() ==> final(self).wf(),
    {
        let mut decisions: Vec<Result<Option<job::Action>, Error>> = Vec::new();
        let mut i: usize = 0;
        while i < self.len()
            invariant
                i <= self@.processes.len(),
                probes@.len() == old(self)@.processes.len(),
                self@.processes.len() == old(self)@.processes.len(),
                self@.max_retries == old(self)@.max_retries,
                self@.quit == old(self)@.quit,
                decisions@.len() == i,
                forall|j: int|
                    0 <= j < i ==> (#[trigger] self@.processes[j]) == old(
                        self,
                    )@.processes[j].reconciled(probes@[j]),
                forall|j: int|
                    i <= j < self@.processes.len() ==> (#[trigger] self@.processes[j]) == old(
                        self,
                    )@.processes[j],
                forall|j: int|
                    0 <= j < i ==> (#[trigger] decisions@[j]) == old(self)@.processes[j].decision(
                        probes@[j],
                    ),
            decreases self@.processes.len() - i,
        {
            let decision = self.try_reconciliate(i, probes[i]);
            decisions.push(decision);
            i += 1;
        }
        assert(self@.processes =~= old(self)@.reconciled_all(probes@).processes);
        assert(decisions@ =~= old(self)@.decisions(probes@));
        decisions
    }

    /// The second half of a tick: takes in the outcome of the one attempt to
    /// receive a message. A message is handled; that there was none, or that
    /// the transport failed, changes nothing and the loop goes on.
    pub fn receive(&mut self, received: Result<Option<Message>, TransportError>)
        ensures
            final(self)@ == old(self)@.received(
                match received {
                    Ok(Some(message)) => Some(message@),
                    _ => None,
                },
            ),
            old(self).wf() ==> final(self).wf(),
    {
        match received {
            Ok(Some(message)) => self.handle(message),
            _ => {},
        }
    }

    /// Records a launch attempt for the record at `index`.
    pub fn start(&mut self, index: usize, spawned: Option<u32>) -> (result: Result<(), Error>)
        requires
            index < old(self)@.processes.len(),
        ensures
            final(self)@ == old(self)@.started(index as int, spawned),
            result == (if spawned is Some {
                Ok::<(), Error>(())
            } else {
                Err(Error::Spawn)
            }),
            old(self).wf() ==> final(self).wf(),
    {
        let result = self.processes[index].start(spawned);
        assert(self@.processes =~= old(self)@.started(index as int, spawned).processes);
        result
    }

    /// Records a stop request for the record at `index`.
    pub fn stop(&self, index: usize, delivered: bool) -> (result: Result<(), Error>)
        requires
            index < self@.processes.len(),
        ensures
            result == self@.processes[index as int].job.phase.stop_result(delivered),
    {
        self.processes[index].stop(delivered)
    }
}

} // verus!
