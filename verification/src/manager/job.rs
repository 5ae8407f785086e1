//! One supervised child process: how it is launched and what was last seen of it.

use vstd::prelude::*;

verus! {

/// What a job's child process was last observed to be doing.
#[derive(Clone, Copy, Debug, PartialEq, Eq, Structural)]
pub enum Status {
    /// No child has been launched yet.
    NotStarted,
    /// A child was launched and has not been seen to exit.
    Running,
    /// The child exited; the code is `None` when a signal ended it.
    Exited(Option<i32>),
}

/// What a client asked a job to be.
#[derive(Clone, Copy, Debug, PartialEq, Eq, Structural)]
pub enum Desired {
    Stopped,
    Running,
}

/// An operation on a job's child process.
#[derive(Clone, Copy, Debug, PartialEq, Eq, Structural)]
pub enum Action {
    Start,
    Stop,
}

/// The answer of one non-blocking poll of a child process.
#[derive(Clone, Copy, Debug, PartialEq, Eq, Structural)]
pub enum Probe {
    /// The child has not exited.
    Alive,
    /// The child has exited, with its code if it returned normally.
    Exited(Option<i32>),
    /// The poll itself failed.
    Failed,
}

/// A failure of one operation on one job.
#[derive(Clone, Copy, Debug, PartialEq, Eq, Structural)]
pub enum Error {
    /// The child could not be polled.
    Poll,
    /// The child could not be launched.
    Spawn,
    /// The termination signal could not be delivered.
    Signal,
    /// The child crashed again and its restart budget is spent: it stays down
    /// until someone steps in.
    RetryBudgetExhausted,
}

/// Where a job's child stands: the job's whole mutable state.
///
/// A child handle is held in exactly one phase, so a handle exists if and only
/// if the job is observed running.
#[derive(Clone, Copy, Debug, PartialEq, Eq, Structural)]
pub enum Phase {
    /// No child was ever launched.
    NotStarted,
    /// The child with this process id is held.
    Running(u32),
    /// The last child was seen to exit and its handle was released.
    Exited(Option<i32>),
}

impl Phase {
    /// The observed status that this phase stands for.
    pub open spec fn status(self) -> Status {
        match self {
            Phase::NotStarted => Status::NotStarted,
            Phase::Running(_) => Status::Running,
            Phase::Exited(code) => Status::Exited(code),
        }
    }

    /// The process id of the child that is held, if any.
    pub open spec fn child(self) -> Option<u32> {
        match self {
            Phase::Running(pid) => Some(pid),
            _ => None,
        }
    }

    /// The phase after one poll answered `probe`. Only a held child can be seen
    /// to exit; without one the poll has nothing to say.
    pub open spec fn polled(self, probe: Probe) -> Phase {
        match (self, probe) {
            (Phase::Running(_), Probe::Exited(code)) => Phase::Exited(code),
            _ => self,
        }
    }

    /// What one poll reports: the status after the poll, or the failure of the
    /// poll of a held child.
    pub open spec fn poll_result(self, probe: Probe) -> Result<Status, Error> {
        match (self, probe) {
            (Phase::Running(_), Probe::Failed) => Err(Error::Poll),
            _ => Ok(self.polled(probe).status()),
        }
    }

    /// The phase after a launch attempt: a new child replaces whatever was held,
    /// a failed attempt changes nothing.
    pub open spec fn started(self, spawned: Option<u32>) -> Phase {
        match spawned {
            Some(pid) => Phase::Running(pid),
            None => self,
        }
    }

    /// What a stop request reports. Without a child there is nothing to signal
    /// and nothing to fail.
    pub open spec fn stop_result(self, delivered: bool) -> Result<(), Error> {
        if self.child() is Some && !delivered {
            Err(Error::Signal)
        } else {
            Ok(())
        }
    }
}

/// The operation that moves an observed status toward a desired one, if any
/// is needed. An exited child counts as not running, whatever its code.
pub open spec fn action_toward(observed: Status, desired: Desired) -> Option<Action> {
    match (observed, desired) {
        (Status::Running, Desired::Stopped) => Some(Action::Stop),
        (Status::Running, Desired::Running) => None,
        (_, Desired::Running) => Some(Action::Start),
        (_, Desired::Stopped) => None,
    }
}

/// A child is held exactly while the job is observed running.
pub proof fn lemma_child_iff_running(phase: Phase)
    ensures
        phase.child() is Some <==> phase.status() == Status::Running,
{
}

/// An exit is reported by the poll that sees it and is never taken back. A
/// job that holds a child is told that the child exited with `code`: that
/// poll reports the exit with this code, not that the job runs, and releases
/// the child; and whatever later polls answer, they report the same exit
/// until the job is launched again.
pub proof fn lemma_exit_is_reported(phase: Phase, code: Option<i32>, later: Probe)
    requires
        phase.child() is Some,
    ensures
        phase.poll_result(Probe::Exited(code)) == Ok::<Status, Error>(Status::Exited(code)),
        phase.polled(Probe::Exited(code)) == Phase::Exited(code),
        phase.polled(Probe::Exited(code)).child() is None,
        phase.polled(Probe::Exited(code)).poll_result(later) == Ok::<Status, Error>(
            Status::Exited(code),
        ),
        phase.polled(Probe::Exited(code)).polled(later) == Phase::Exited(code),
{
}

/// A job that was started is never seen as not started again: whatever is
/// polled or launched, it runs, or it has exited.
pub proof fn lemma_started_job_stays_started(phase: Phase, probe: Probe, spawned: Option<u32>)
    requires
        phase != Phase::NotStarted,
    ensures
        phase.polled(probe) != Phase::NotStarted,
        phase.started(spawned) != Phase::NotStarted,
        phase is Running && phase.polled(probe) !is Running ==> phase.polled(probe) is Exited,
{
}

/// A named child process: the command that launches it and its phase.
pub struct Job {
    name: String,
    program: String,
    args: Vec<String>,
    phase: Phase,
}

/// The mathematical content of a [`Job`].
pub struct JobView {
    pub name: Seq<char>,
    pub program: Seq<char>,
    pub args: Seq<Seq<char>>,
    pub phase: Phase,
}

impl JobView {
    /// This job with its phase replaced.
    pub open spec fn with_phase(self, phase: Phase) -> JobView {
        JobView { phase, ..self }
    }

    /// This job after one poll answered `probe`.
    pub open spec fn polled(self, probe: Probe) -> JobView {
        self.with_phase(self.phase.polled(probe))
    }

    /// This job after a launch attempt.
    pub open spec fn started(self, spawned: Option<u32>) -> JobView {
        self.with_phase(self.phase.started(spawned))
    }

    /// What one poll followed by a comparison with `desired` asks for.
    pub open spec fn required_action(self, desired: Desired, probe: Probe) -> Result<
        Option<Action>,
        Error,
    > {
        match self.phase.poll_result(probe) {
            Ok(observed) => Ok(action_toward(observed, desired)),
            Err(e) => Err(e),
        }
    }
}

impl View for Job {
    type V = JobView;

    closed spec fn view(&self) -> JobView {
        JobView {
            name: self.name@,
            program: self.program@,
            args: self.args.deep_view(),
            phase: self.phase,
        }
    }
}

impl Job {
    /// A job that has not been started.
    pub fn new(name: String, program: String, args: Vec<String>) -> (job: Job)
        ensures
            job@ == (JobView {
                name: name@,
                program: program@,
                args: args.deep_view(),
                phase: Phase::NotStarted,
            }),
    {
        Job { name, program, args, phase: Phase::NotStarted }
    }

    /// The job's name.
    pub fn name(&self) -> (name: &str)
        ensures
            name@ == self@.name,
    {
        self.name.as_str()
    }

    /// Whether the job goes by `name`.
    pub fn is_named(&self, name: &String) -> (named: bool)
        ensures
            named == (self@.name == name@),
    {
        self.name == *name
    }

    /// The program that launches the job.
    pub fn program(&self) -> (program: &str)
        ensures
            program@ == self@.program,
    {
        self.program.as_str()
    }

    /// The arguments handed to the program.
    pub fn args(&self) -> (args: &Vec<String>)
        ensures
            args.deep_view() == self@.args,
    {
        &self.args
    }

    /// The job's phase.
    pub fn phase(&self) -> (phase: Phase)
        ensures
            phase == self@.phase,
    {
        self.phase
    }

    /// The process id of the child that is held, if any.
    pub fn child(&self) -> (child: Option<u32>)
        ensures
            child == self@.phase.child(),
    {
        match self.phase {
            Phase::Running(pid) => Some(pid),
            _ => None,
        }
    }

    /// The status as of the last poll, without polling again.
    pub fn last_status(&self) -> (status: Status)
        ensures
            status == self@.phase.status(),
    {
        match self.phase {
            Phase::NotStarted => Status::NotStarted,
            Phase::Running(_) => Status::Running,
            Phase::Exited(code) => Status::Exited(code),
        }
    }

    /// Takes in the answer of one poll of the child and reports the job's status.
    ///
    /// A child seen to exit is released at once, so the status is never
    /// `Running` after an exit was reported. Without a child the answer is
    /// ignored and the status stays what it was.
    pub fn status(&mut self, probe: Probe) -> (result: Result<Status, Error>)
        ensures
            final(self)@ == old(self)@.polled(probe),
            result == old(self)@.phase.poll_result(probe),
    {
        match self.phase {
            Phase::Running(_) => match probe {
                Probe::Alive => Ok(Status::Running),
                Probe::Exited(code) => {
                    self.phase = Phase::Exited(code);
                    Ok(Status::Exited(code))
                },
                Probe::Failed => Err(Error::Poll),
            },
            Phase::NotStarted => Ok(Status::NotStarted),
            Phase::Exited(code) => Ok(Status::Exited(code)),
        }
    }

    /// Polls, then says which operation would bring the job to `desired_status`.
    pub fn required_action(&mut self, desired_status: &Desired, probe: Probe) -> (result: Result<
        Option<Action>,
        Error,
    >)
        ensures
            final(self)@ == old(self)@.polled(probe),
            result == old(self)@.required_action(*desired_status, probe),
    {
        let observed = self.status(probe)?;
        let action = match (observed, *desired_status) {
            (Status::Running, Desired::Stopped) => Some(Action::Stop),
            (Status::Running, Desired::Running) => None,
            (_, Desired::Running) => Some(Action::Start),
            (_, Desired::Stopped) => None,
        };
        Ok(action)
    }

    /// Records a launch attempt: the new child's process id, or `None` when the
    /// launch failed. A failed launch leaves the job as it was.
    pub fn start(&mut self, spawned: Option<u32>) -> (result: Result<(), Error>)
        ensures
            final(self)@ == old(self)@.started(spawned),
            result == (if spawned is Some {
                Ok::<(), Error>(())
            } else {
                Err(Error::Spawn)
            }),
    {
        match spawned {
            Some(pid) => {
                self.phase = Phase::Running(pid);
                Ok(())
            },
            None => Err(Error::Spawn),
        }
    }

    /// One reconciliation of the job toward `desired_status`: polls, and says
    /// what the caller must now do to the child. A job has no restart budget:
    /// whenever it is asked for and not running, it is to be launched.
    pub fn try_reconciliate(&mut self, desired_status: &Desired, probe: Probe) -> (result: Result<
        Option<Action>,
        Error,
    >)
        ensures
            final(self)@ == old(self)@.polled(probe),
            result == old(self)@.required_action(*desired_status, probe),
    {
        self.required_action(desired_status, probe)
    }

    /// Records a stop request: whether the termination signal was delivered.
    /// The job itself does not change; the exit shows on a later poll.
    pub fn stop(&self, delivered: bool) -> (result: Result<(), Error>)
        ensures
            result == self@.phase.stop_result(delivered),
    {
        match self.phase {
            Phase::Running(_) => if delivered {
                Ok(())
            } else {
                Err(Error::Signal)
            },
            _ => Ok(()),
        }
    }
}

} // verus!
