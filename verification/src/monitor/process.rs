//! The record of one watched process.

use vstd::prelude::*;

verus! {

/// What is known and kept of one watched process.
#[derive(Debug)]
pub struct ProcessData {
    pub name: String,
    pub cmd: String,
    pub monitor_pid: i32,
    pub child_pid: i32,
    pub args: Vec<Vec<String>>,
    pub env: Vec<Vec<String>>,
    pub retries: i32,
    pub max_retries: i32,
}

/// The mathematical content of a [`ProcessData`].
pub struct ProcessDataView {
    pub name: Seq<char>,
    pub cmd: Seq<char>,
    pub monitor_pid: int,
    pub child_pid: int,
    pub args: Seq<Seq<Seq<char>>>,
    pub env: Seq<Seq<Seq<char>>>,
    pub retries: int,
    pub max_retries: int,
}

impl ProcessDataView {
    /// This record with the count of restarts replaced.
    pub open spec fn with_retries(self, retries: int) -> ProcessDataView {
        ProcessDataView { retries, ..self }
    }

    /// This record with the watcher's process id replaced.
    pub open spec fn with_monitor_pid(self, pid: int) -> ProcessDataView {
        ProcessDataView { monitor_pid: pid, ..self }
    }

    /// This record with the child's process id replaced.
    pub open spec fn with_child_pid(self, pid: int) -> ProcessDataView {
        ProcessDataView { child_pid: pid, ..self }
    }
}

impl View for ProcessData {
    type V = ProcessDataView;

    open spec fn view(&self) -> ProcessDataView {
        ProcessDataView {
            name: self.name@,
            cmd: self.cmd@,
            monitor_pid: self.monitor_pid as int,
            child_pid: self.child_pid as int,
            args: self.args.deep_view(),
            env: self.env.deep_view(),
            retries: self.retries as int,
            max_retries: self.max_retries as int,
        }
    }
}

/// A copy of `groups`, string by string.
fn copy_groups(groups: &Vec<Vec<String>>) -> (copy: Vec<Vec<String>>)
    ensures
        copy.deep_view() == groups.deep_view(),
{
    let mut copy: Vec<Vec<String>> = Vec::new();
    let mut i: usize = 0;
    while i < groups.len()
        invariant
            i <= groups@.len(),
            copy@.len() == i,
            forall|j: int| 0 <= j < i ==> (#[trigger] copy@[j]).deep_view() == groups@[j].deep_view(),
        decreases groups@.len() - i,
    {
        let group = groups[i].clone();
        assert(group.deep_view() =~= groups@[i as int].deep_view());
        copy.push(group);
        i += 1;
    }
    assert(copy.deep_view() =~= groups.deep_view());
    copy
}

impl Clone for ProcessData {
    fn clone(&self) -> (copy: ProcessData)
        ensures
            copy@ == self@,
    {
        ProcessData {
            name: self.name.clone(),
            cmd: self.cmd.clone(),
            monitor_pid: self.monitor_pid,
            child_pid: self.child_pid,
            args: copy_groups(&self.args),
            env: copy_groups(&self.env),
            retries: self.retries,
            max_retries: self.max_retries,
        }
    }
}

/// A watched process.
pub struct Process {
    pub data: ProcessData,
}

impl View for Process {
    type V = ProcessDataView;

    open spec fn view(&self) -> ProcessDataView {
        self.data@
    }
}

impl Process {
    /// Records the process id of the watcher.
    pub fn monitor_pid(&mut self, pid: i32)
        ensures
            final(self)@ == old(self)@.with_monitor_pid(pid as int),
    {
        self.data.monitor_pid = pid;
    }

    /// Records the process id of the child.
    pub fn child_pid(&mut self, pid: i32)
        ensures
            final(self)@ == old(self)@.with_child_pid(pid as int),
    {
        self.data.child_pid = pid;
    }

    /// Counts one more restart.
    pub fn increment_retries(&mut self)
        requires
            old(self).data.retries < i32::MAX,
        ensures
            final(self)@ == old(self)@.with_retries(old(self)@.retries + 1),
    {
        self.data.retries = self.data.retries + 1;
    }

    /// Whether the process may be launched again after a crash: fewer restarts
    /// were counted than the budget allows.
    pub fn should_retry(&self) -> (retry: bool)
        ensures
            retry == (self@.retries < self@.max_retries),
    {
        self.data.retries < self.data.max_retries
    }
}

/// The arguments of a command line: the groups of `args` one after the
/// other.
pub open spec fn arguments(args: Seq<Seq<Seq<char>>>) -> Seq<Seq<char>> {
    args.flatten()
}

/// Lays the groups of `args` out as one command line.
pub fn build_args(args: &Vec<Vec<String>>) -> (line: Vec<String>)
    ensures
        line.deep_view() == arguments(args.deep_view()),
{
    let mut line: Vec<String> = Vec::new();
    let mut i: usize = 0;
    assert(args.deep_view().take(0) =~= Seq::<Seq<Seq<char>>>::empty());
    assert(line.deep_view() =~= Seq::<Seq<char>>::empty());
    while i < args.len()
        invariant
            i <= args@.len(),
            line.deep_view() == arguments(args.deep_view().take(i as int)),
        decreases args@.len() - i,
    {
        let group = &args[i];
        let ghost before = line.deep_view();
        let mut k: usize = 0;
        while k < group.len()
            invariant
                k <= group@.len(),
                line.deep_view() == before + group.deep_view().take(k as int),
            decreases group@.len() - k,
        {
            let ghost shorter = line.deep_view();
            let arg = group[k].clone();
            assert(arg@ == group.deep_view()[k as int]);
            line.push(arg);
            assert(line.deep_view() =~= shorter.push(arg@));
            assert(group.deep_view().take(k + 1) =~= group.deep_view().take(k as int).push(arg@));
            k += 1;
        }
        assert(group.deep_view().take(k as int) =~= group.deep_view());
        proof {
            let done = args.deep_view().take(i as int);
            assert(args.deep_view().take(i + 1) =~= done.push(group.deep_view()));
            done.lemma_flatten_push(group.deep_view());
        }
        i += 1;
    }
    assert(args.deep_view().take(i as int) =~= args.deep_view());
    line
}

/// Whether every entry of `vars` names a variable and gives it a value.
pub open spec fn pairs_complete(vars: Seq<Seq<Seq<char>>>) -> bool {
    forall|i: int| 0 <= i < vars.len() ==> (#[trigger] vars[i]).len() >= 2
}

/// The variables that `vars` sets: of each entry its first string as the name
/// and its second as the value.
pub open spec fn variables(vars: Seq<Seq<Seq<char>>>) -> Seq<(Seq<char>, Seq<char>)> {
    Seq::new(vars.len(), |i: int| (vars[i][0], vars[i][1]))
}

/// Reads the environment variables off `vars`. An entry with fewer than two
/// strings is the caller's mistake.
pub fn build_env_vars(vars: &Vec<Vec<String>>) -> (env: Vec<(String, String)>)
    requires
        pairs_complete(vars.deep_view()),
    ensures
        env.deep_view() == variables(vars.deep_view()),
{
    let mut env: Vec<(String, String)> = Vec::new();
    let mut i: usize = 0;
    while i < vars.len()
        invariant
            i <= vars@.len(),
            pairs_complete(vars.deep_view()),
            env@.len() == i,
            forall|j: int|
                0 <= j < i ==> (#[trigger] env@[j]).0@ == vars.deep_view()[j][0] && env@[j].1@
                    == vars.deep_view()[j][1],
        decreases vars@.len() - i,
    {
        let entry = &vars[i];
        assert(vars.deep_view()[i as int] == entry.deep_view());
        assert(entry.deep_view().len() == entry@.len());
        let key = entry[0].clone();
        let value = entry[1].clone();
        assert(key@ == entry.deep_view()[0]);
        assert(value@ == entry.deep_view()[1]);
        env.push((key, value));
        i += 1;
    }
    assert(env.deep_view() =~= variables(vars.deep_view()));
    env
}

} // verus!
