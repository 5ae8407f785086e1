//! The runtime record of one job: the job, what was asked of it, and how much
//! of its restart budget is spent.

use crate::manager::job;
use crate::manager::job::{Desired, Error, Job, JobView, Probe, Status};
use vstd::prelude::*;

verus! {

/// What reconciliation finds necessary for one job.
#[derive(Clone, Copy, Debug, PartialEq, Eq, Structural)]
pub enum Action {
    /// Launch the job: it was asked for and is not there.
    Start,
    /// Stop the job: it runs and was not asked for.
    Stop,
    /// Launch the job again after a crash, if the budget allows.
    Restart,
}

/// An exit that counts as a crash: any but a normal return with code 0.
pub open spec fn crashed(observed: Status) -> bool {
    observed matches Status::Exited(code) && code != Some(0i32)
}

/// The action that an observed status calls for under a desired one.
///
/// | observed          | desired stopped | desired running |
/// |-------------------|-----------------|-----------------|
/// | not started       | none            | start           |
/// | running           | stop            | none            |
/// | exited, code 0    | none            | start           |
/// | exited otherwise  | none            | restart         |
pub open spec fn required(observed: Status, desired: Desired) -> Option<Action> {
    match (observed, desired) {
        (Status::NotStarted, Desired::Running) => Some(Action::Start),
        (Status::Running, Desired::Stopped) => Some(Action::Stop),
        (Status::Exited(code), Desired::Running) => if code == Some(0i32) {
            Some(Action::Start)
        } else {
            Some(Action::Restart)
        },
        _ => None,
    }
}

/// One entry of the supervisor's table.
pub struct Process {
    job: Job,
    desired_status: Desired,
    retries: u32,
    max_retries: u32,
    pending_start: bool,
}

/// The mathematical content of a [`Process`].
pub struct ProcessView {
    pub job: JobView,
    pub desired: Desired,
    pub retries: nat,
    pub max_retries: nat,
    /// Whether a client asked for the job to run and no launch has succeeded
    /// since.
    pub pending_start: bool,
}

impl ProcessView {
    /// The status as of the last poll.
    pub open spec fn observed(self) -> Status {
        self.job.phase.status()
    }

    /// This record after one poll answered `probe`.
    pub open spec fn polled(self, probe: Probe) -> ProcessView {
        ProcessView { job: self.job.polled(probe), ..self }
    }

    /// What is called for when the job is observed as `observed`: what the
    /// table says, but that the launch which a client asked for is a start
    /// whatever the last exit was, not a restart after a crash.
    pub open spec fn called_for(self, observed: Status) -> Option<Action> {
        if self.pending_start && required(observed, self.desired) == Some(Action::Restart) {
            Some(Action::Start)
        } else {
            required(observed, self.desired)
        }
    }

    /// What one poll followed by a look at the table asks for.
    pub open spec fn required_action(self, probe: Probe) -> Result<Option<Action>, Error> {
        match self.job.phase.poll_result(probe) {
            Ok(observed) => Ok(self.called_for(observed)),
            Err(e) => Err(e),
        }
    }

    /// Whether a restart after a crash is still within the budget.
    pub open spec fn may_retry(self) -> bool {
        self.retries < self.max_retries
    }

    /// Whether reconciliation with `probe` grants a restart after a crash.
    pub open spec fn restart_granted(self, probe: Probe) -> bool {
        self.required_action(probe) == Ok::<Option<Action>, Error>(Some(Action::Restart))
            && self.may_retry()
    }

    /// This record after one reconciliation: the poll is taken in, and a
    /// restart that the budget allows is counted against it.
    pub open spec fn reconciled(self, probe: Probe) -> ProcessView {
        if self.restart_granted(probe) {
            ProcessView { retries: self.retries + 1, ..self.polled(probe) }
        } else {
            self.polled(probe)
        }
    }

    /// What one reconciliation tells the caller to do to the child, or why
    /// nothing can be done.
    pub open spec fn decision(self, probe: Probe) -> Result<Option<job::Action>, Error> {
        match self.required_action(probe) {
            Err(e) => Err(e),
            Ok(None) => Ok(None),
            Ok(Some(Action::Stop)) => Ok(Some(job::Action::Stop)),
            Ok(Some(Action::Start)) => Ok(Some(job::Action::Start)),
            Ok(Some(Action::Restart)) => if self.may_retry() {
                Ok(Some(job::Action::Start))
            } else {
                Err(Error::RetryBudgetExhausted)
            },
        }
    }

    /// Whether a launch now would be a restart after a crash: the job was last
    /// seen to crash, and no client asked for it since.
    pub open spec fn launch_is_restart(self) -> bool {
        crashed(self.observed()) && !self.pending_start
    }

    /// This record after a launch attempt. A launch that succeeds answers the
    /// client's request, and clears the count of restarts unless it is a
    /// restart after a crash. A failed attempt changes nothing.
    pub open spec fn started(self, spawned: Option<u32>) -> ProcessView {
        match spawned {
            Some(_) => ProcessView {
                job: self.job.started(spawned),
                retries: if self.launch_is_restart() {
                    self.retries
                } else {
                    0
                },
                pending_start: false,
                ..self
            },
            None => self,
        }
    }

    /// This record after a client asked for the job to run. Only a stopped job
    /// is taken up again. What was last seen of it stays, and the request is
    /// noted: the launch that follows is the client's, not a restart after a
    /// crash.
    pub open spec fn start_requested(self) -> ProcessView {
        if self.desired == Desired::Stopped {
            ProcessView { desired: Desired::Running, pending_start: true, ..self }
        } else {
            self
        }
    }

    /// This record after a client asked for the job to stop. A request to run
    /// that was not yet answered is withdrawn; a job that is not asked for
    /// stays as it is.
    pub open spec fn stop_requested(self) -> ProcessView {
        if self.desired == Desired::Running {
            ProcessView { desired: Desired::Stopped, pending_start: false, ..self }
        } else {
            self
        }
    }

    /// Whether the job is down after a crash with its budget spent, and still
    /// asked for with no client's request to answer.
    pub open spec fn exhausted(self) -> bool {
        self.desired == Desired::Running && self.launch_is_restart() && !self.may_retry()
    }

    /// Whether reconciliation asks for a launch when the child is seen to exit
    /// with `code`.
    pub open spec fn relaunched_after(self, code: Option<i32>) -> bool {
        self.decision(Probe::Exited(code)) == Ok::<Option<job::Action>, Error>(
            Some(job::Action::Start),
        )
    }

    /// This record after one round of a crash loop: the child is seen to exit
    /// with `round.0`, the record is reconciled, and the launch that this asks
    /// for, if it does, succeeds with process id `round.1`.
    pub open spec fn crash_round(self, round: (Option<i32>, u32)) -> ProcessView {
        let reconciled = self.reconciled(Probe::Exited(round.0));
        if self.relaunched_after(round.0) {
            reconciled.started(Some(round.1))
        } else {
            reconciled
        }
    }

    /// This record after the rounds of a crash loop, one after the other.
    pub open spec fn after_rounds(self, rounds: Seq<(Option<i32>, u32)>) -> ProcessView
        decreases rounds.len(),
    {
        if rounds.len() == 0 {
            self
        } else {
            self.after_rounds(rounds.drop_last()).crash_round(rounds.last())
        }
    }

    /// In how many of the rounds a launch was asked for.
    pub open spec fn relaunches(self, rounds: Seq<(Option<i32>, u32)>) -> nat
        decreases rounds.len(),
    {
        if rounds.len() == 0 {
            0
        } else {
            let before = self.after_rounds(rounds.drop_last());
            self.relaunches(rounds.drop_last()) + if before.relaunched_after(rounds.last().0) {
                1nat
            } else {
                0nat
            }
        }
    }
}

/// Whether every round of `rounds` ends in a crash.
pub open spec fn all_crashes(rounds: Seq<(Option<i32>, u32)>) -> bool {
    forall|i: int| 0 <= i < rounds.len() ==> crashed(Status::Exited(#[trigger] rounds[i].0))
}

/// While the budget lasts, every crash is answered by a relaunch that is
/// counted: after `n` crashes in a row, with `n` within what is left of the
/// budget, the job runs again and `n` more restarts are counted.
proof fn lemma_crashes_within_budget(process: ProcessView, rounds: Seq<(Option<i32>, u32)>)
    requires
        process.job.phase is Running,
        process.desired == Desired::Running,
        !process.pending_start,
        process.retries + rounds.len() <= process.max_retries,
        all_crashes(rounds),
    ensures
        process.relaunches(rounds) == rounds.len(),
        process.after_rounds(rounds).job.phase is Running,
        !process.after_rounds(rounds).pending_start,
        process.after_rounds(rounds).retries == process.retries + rounds.len(),
        process.after_rounds(rounds).desired == Desired::Running,
        process.after_rounds(rounds).max_retries == process.max_retries,
    decreases rounds.len(),
{
    if rounds.len() > 0 {
        lemma_crashes_within_budget(process, rounds.drop_last());
        assert(crashed(Status::Exited(rounds[rounds.len() - 1].0)));
    }
}

/// The crash budget bounds the restarts. A job runs since its last launch,
/// asked for, with no restart counted and a budget of `k`. It crashes `k + 1`
/// times in a row, each relaunch that is asked for succeeding. Then exactly
/// `k` relaunches were asked for, the last crash was answered by none, and
/// the job is left exited with that crash's code, still asked for, its budget
/// spent.
pub proof fn lemma_crash_budget_bounds_restarts(
    process: ProcessView,
    rounds: Seq<(Option<i32>, u32)>,
)
    requires
        process.job.phase is Running,
        process.desired == Desired::Running,
        !process.pending_start,
        process.retries == 0,
        rounds.len() == process.max_retries + 1,
        all_crashes(rounds),
    ensures
        process.relaunches(rounds) == process.max_retries,
        process.after_rounds(rounds.drop_last()).decision(Probe::Exited(rounds.last().0)) == Err::<
            Option<job::Action>,
            Error,
        >(Error::RetryBudgetExhausted),
        process.after_rounds(rounds).observed() == Status::Exited(rounds.last().0),
        process.after_rounds(rounds).desired == Desired::Running,
        process.after_rounds(rounds).retries == process.max_retries,
        process.after_rounds(rounds).exhausted(),
{
    let earlier = rounds.drop_last();
    assert(all_crashes(earlier)) by {
        assert forall|i: int| 0 <= i < earlier.len() implies crashed(
            Status::Exited(#[trigger] earlier[i].0),
        ) by {
            assert(earlier[i] == rounds[i]);
        }
    }
    lemma_crashes_within_budget(process, earlier);
    assert(crashed(Status::Exited(rounds[rounds.len() - 1].0)));
}

/// A job that is exhausted stays down: as long as nobody steps in, every
/// further reconciliation changes nothing and asks for no launch.
pub proof fn lemma_exhausted_stays_down(process: ProcessView, probe: Probe)
    requires
        process.exhausted(),
    ensures
        process.reconciled(probe) == process,
        process.decision(probe) == Err::<Option<job::Action>, Error>(Error::RetryBudgetExhausted),
{
}

/// A client's start is no restart. A job is stopped and then asked for again;
/// what was last seen of it stays as it was. The next reconciliation that
/// finds no child, be it that none was held or that the held one is seen to
/// exit, asks for a launch, whatever the exit was and whatever was counted
/// against the budget; and once that launch succeeds the job runs with no
/// restart counted.
pub proof fn lemma_start_after_stop_clears_retries(process: ProcessView, probe: Probe, pid: u32)
    requires
        process.job.phase.polled(probe).child() is None,
    ensures
        ({
            let asked = process.stop_requested().start_requested();
            let launched = asked.reconciled(probe).started(Some(pid));
            &&& asked.job == process.job
            &&& asked.decision(probe) == Ok::<Option<job::Action>, Error>(
                Some(job::Action::Start),
            )
            &&& asked.reconciled(probe).retries == process.retries
            &&& launched.retries == 0
            &&& launched.job.phase == job::Phase::Running(pid)
            &&& launched.desired == Desired::Running
            &&& !launched.pending_start
        }),
{
}

/// A job that is not asked for is never launched: reconciliation asks for no
/// launch whatever the poll says, and when there is no child either it asks
/// for nothing, fails on nothing and changes nothing.
pub proof fn lemma_stopped_job_is_never_launched(process: ProcessView, probe: Probe)
    requires
        process.desired == Desired::Stopped,
    ensures
        process.decision(probe) != Ok::<Option<job::Action>, Error>(Some(job::Action::Start)),
        process.job.phase.child() is None ==> process.decision(probe) == Ok::<
            Option<job::Action>,
            Error,
        >(None) && process.reconciled(probe) == process,
{
}

/// The count of restarts moves in single steps: reconciliation leaves it or
/// adds one, and never takes it past the budget it was within; a launch
/// attempt leaves it or clears it.
pub proof fn lemma_retries_move_in_steps(process: ProcessView, probe: Probe, spawned: Option<u32>)
    ensures
        process.reconciled(probe).retries == process.retries || process.reconciled(probe).retries
            == process.retries + 1,
        process.retries <= process.max_retries ==> process.reconciled(probe).retries
            <= process.max_retries,
        process.reconciled(probe).retries == process.retries + 1 <==> process.restart_granted(
            probe,
        ),
        process.started(spawned).retries == process.retries || process.started(spawned).retries
            == 0,
{
}

impl View for Process {
    type V = ProcessView;

    closed spec fn view(&self) -> ProcessView {
        ProcessView {
            job: self.job@,
            desired: self.desired_status,
            retries: self.retries as nat,
            max_retries: self.max_retries as nat,
            pending_start: self.pending_start,
        }
    }
}

impl Process {
    /// A record for a job that is not started and not asked for, with no
    /// restart budget.
    pub fn new(name: String, program: String, args: Vec<String>) -> (process: Process)
        ensures
            process@ == (ProcessView {
                job: JobView {
                    name: name@,
                    program: program@,
                    args: args.deep_view(),
                    phase: job::Phase::NotStarted,
                },
                desired: Desired::Stopped,
                retries: 0,
                max_retries: 0,
                pending_start: false,
            }),
    {
        Process {
            job: Job::new(name, program, args),
            desired_status: Desired::Stopped,
            retries: 0,
            max_retries: 0,
            pending_start: false,
        }
    }

    /// This record with the restart budget set.
    pub fn with_max_retries(self, max_retries: u32) -> (process: Process)
        ensures
            process@ == (ProcessView { max_retries: max_retries as nat, ..self@ }),
    {
        Process { max_retries, ..self }
    }

    /// The job's name.
    pub fn name(&self) -> (name: &str)
        ensures
            name@ == self@.job.name,
    {
        self.job.name()
    }

    /// The job that this record is about.
    pub fn job(&self) -> (job: &Job)
        ensures
            job@ == self@.job,
    {
        &self.job
    }

    /// What the job was asked to be.
    pub fn desired_status(&self) -> (desired: Desired)
        ensures
            desired == self@.desired,
    {
        self.desired_status
    }

    /// How many restarts after a crash were counted since the last first launch.
    pub fn retries(&self) -> (retries: u32)
        ensures
            retries == self@.retries,
    {
        self.retries
    }

    /// How many restarts after a crash are allowed in a row.
    pub fn max_retries(&self) -> (max_retries: u32)
        ensures
            max_retries == self@.max_retries,
    {
        self.max_retries
    }

    /// Whether a client asked for the job to run and no launch has succeeded
    /// since.
    pub fn pending_start(&self) -> (pending: bool)
        ensures
            pending == self@.pending_start,
    {
        self.pending_start
    }

    /// Whether a launch now would be a restart after a crash.
    fn launch_is_restart(&self) -> (restart: bool)
        ensures
            restart == self@.launch_is_restart(),
    {
        let crashed = match self.job.last_status() {
            Status::Exited(Some(code)) => code != 0,
            Status::Exited(None) => true,
            _ => false,
        };
        crashed && !self.pending_start
    }

    /// Whether the job is down after a crash with its budget spent.
    pub fn is_exhausted(&self) -> (exhausted: bool)
        ensures
            exhausted == self@.exhausted(),
    {
        self.desired_status == Desired::Running && self.launch_is_restart() && self.retries
            >= self.max_retries
    }

    /// Takes note that a client asked for the job to run.
    pub fn request_start(&mut self)
        ensures
            final(self)@ == old(self)@.start_requested(),
    {
        if self.desired_status == Desired::Stopped {
            self.desired_status = Desired::Running;
            self.pending_start = true;
        }
    }

    /// Takes note that a client asked for the job to stop.
    pub fn request_stop(&mut self)
        ensures
            final(self)@ == old(self)@.stop_requested(),
    {
        if self.desired_status == Desired::Running {
            self.desired_status = Desired::Stopped;
            self.pending_start = false;
        }
    }

    /// Takes in the answer of one poll of the child and reports the job's status.
    pub fn status(&mut self, probe: Probe) -> (result: Result<Status, Error>)
        ensures
            final(self)@ == old(self)@.polled(probe),
            result == old(self)@.job.phase.poll_result(probe),
    {
        self.job.status(probe)
    }

    /// Polls, then looks up what the table asks for.
    pub fn required_action(&mut self, probe: Probe) -> (result: Result<Option<Action>, Error>)
        ensures
            final(self)@ == old(self)@.polled(probe),
            result == old(self)@.required_action(probe),
    {
        let toward = self.job.required_action(&self.desired_status, probe)?;
        let action = match toward {
            Some(job::Action::Stop) => Some(Action::Stop),
            Some(job::Action::Start) => if self.launch_is_restart() {
                Some(Action::Restart)
            } else {
                Some(Action::Start)
            },
            None => None,
        };
        Ok(action)
    }

    /// One reconciliation of this job: polls, decides, and says what the
    /// caller must now do to the child.
    ///
    /// A restart after a crash is granted only while fewer restarts were
    /// counted than the budget allows, and is counted when granted. When the
    /// budget is spent the job is left down, what was asked of it stays, and
    /// the result says so.
    pub fn try_reconciliate(&mut self, probe: Probe) -> (result: Result<
        Option<job::Action>,
        Error,
    >)
        ensures
            final(self)@ == old(self)@.reconciled(probe),
            result == old(self)@.decision(probe),
    {
        match self.required_action(probe)? {
            None => Ok(None),
            Some(Action::Stop) => Ok(Some(job::Action::Stop)),
            Some(Action::Start) => Ok(Some(job::Action::Start)),
            Some(Action::Restart) => {
                if self.retries < self.max_retries {
                    self.retries = self.retries + 1;
                    Ok(Some(job::Action::Start))
                } else {
                    Err(Error::RetryBudgetExhausted)
                }
            },
        }
    }

    /// Records a launch attempt: the new child's process id, or `None` when the
    /// launch failed.
    pub fn start(&mut self, spawned: Option<u32>) -> (result: Result<(), Error>)
        ensures
            final(self)@ == old(self)@.started(spawned),
            result == (if spawned is Some {
                Ok::<(), Error>(())
            } else {
                Err(Error::Spawn)
            }),
    {
        let restart = self.launch_is_restart();
        let result = self.job.start(spawned);
        if result.is_ok() {
            if !restart {
                self.retries = 0;
            }
            self.pending_start = false;
        }
        result
    }

    /// Records a stop request: whether the termination signal was delivered.
    pub fn stop(&self, delivered: bool) -> (result: Result<(), Error>)
        ensures
            result == self@.job.phase.stop_result(delivered),
    {
        self.job.stop(delivered)
    }
}

} // verus!
