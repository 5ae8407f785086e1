//! What a configuration declares: named processes and how to launch them.

use vstd::prelude::*;

verus! {

/// How one process is launched.
#[derive(Debug)]
pub struct Process {
    /// Program to execute to start the process.
    pub program: String,
    /// The arguments to pass to the program.
    pub args: Vec<String>,
}

/// The mathematical content of a [`Process`].
pub struct ProcessView {
    pub program: Seq<char>,
    pub args: Seq<Seq<char>>,
}

impl View for Process {
    type V = ProcessView;

    open spec fn view(&self) -> ProcessView {
        ProcessView { program: self.program@, args: self.args.deep_view() }
    }
}

impl Clone for Process {
    fn clone(&self) -> (copy: Process)
        ensures
            copy@ == self@,
    {
        let copy = Process { program: self.program.clone(), args: self.args.clone() };
        assert(copy.args.deep_view() =~= self.args.deep_view());
        copy
    }
}

/// The processes that a configuration declares, each under a name of its own,
/// in the order in which they were declared.
#[derive(Debug)]
pub struct Config {
    process: Vec<(String, Process)>,
}

/// Whether no name occurs twice among `entries`.
pub open spec fn names_distinct(entries: Seq<(Seq<char>, ProcessView)>) -> bool {
    forall|i: int, j: int|
        0 <= i < entries.len() && 0 <= j < entries.len() && i != j ==> entries[i].0
            != entries[j].0
}

/// Whether `entries` declares a process under `name`.
pub open spec fn declares(entries: Seq<(Seq<char>, ProcessView)>, name: Seq<char>) -> bool {
    exists|i: int| 0 <= i < entries.len() && entries[i].0 == name
}

/// `entries` with `process` declared under `name`: in the place of what was
/// declared under that name before, or else at the end.
pub open spec fn declared(
    entries: Seq<(Seq<char>, ProcessView)>,
    name: Seq<char>,
    process: ProcessView,
) -> Seq<(Seq<char>, ProcessView)> {
    if declares(entries, name) {
        entries.map_values(
            |e: (Seq<char>, ProcessView)|
                if e.0 == name {
                    (name, process)
                } else {
                    e
                },
        )
    } else {
        entries.push((name, process))
    }
}

impl View for Config {
    type V = Seq<(Seq<char>, ProcessView)>;

    closed spec fn view(&self) -> Seq<(Seq<char>, ProcessView)> {
        Seq::new(self.process@.len(), |i: int| (self.process@[i].0@, self.process@[i].1@))
    }
}

impl Config {
    /// Whether the configuration is valid: no name is declared twice.
    pub open spec fn wf(&self) -> bool {
        names_distinct(self@)
    }

    /// A configuration that declares nothing.
    pub fn new() -> (config: Config)
        ensures
            config@ == Seq::<(Seq<char>, ProcessView)>::empty(),
            config.wf(),
    {
        let config = Config { process: Vec::new() };
        assert(config@ =~= Seq::empty());
        config
    }

    /// How many processes are declared.
    pub fn len(&self) -> (len: usize)
        ensures
            len == self@.len(),
    {
        self.process.len()
    }

    /// The place of the declaration under `name`, if there is one.
    pub fn position(&self, name: &String) -> (found: Option<usize>)
        ensures
            found is Some <==> declares(self@, name@),
            found matches Some(i) ==> i < self@.len() && self@[i as int].0 == name@ && forall|
                j: int,
            | 0 <= j < i ==> self@[j].0 != name@,
    {
        let mut i: usize = 0;
        while i < self.process.len()
            invariant
                i <= self.process@.len(),
                forall|j: int| 0 <= j < i ==> self@[j].0 != name@,
            decreases self.process@.len() - i,
        {
            if self.process[i].0 == *name {
                assert(self@[i as int].0 == name@);
                return Some(i);
            }
            i += 1;
        }
        None
    }

    /// The process declared under `name`, if there is one.
    pub fn get(&self, name: &String) -> (found: Option<&Process>)
        ensures
            found is Some <==> declares(self@, name@),
            found matches Some(process) ==> exists|i: int|
                0 <= i < self@.len() && self@[i] == (name@, process@) && forall|j: int|
                    0 <= j < i ==> self@[j].0 != name@,
    {
        match self.position(name) {
            Some(i) => Some(&self.process[i].1),
            None => None,
        }
    }

    /// Declares `process` under `name`, in the place of what was declared
    /// under that name before, or else at the end.
    pub fn insert(&mut self, name: String, process: Process)
        ensures
            final(self)@ == declared(old(self)@, name@, process@),
            old(self).wf() ==> final(self).wf(),
    {
        match self.position(&name) {
            Some(first) => {
                let mut i: usize = first;
                while i < self.process.len()
                    invariant
                        first <= i <= self@.len(),
                        self@.len() == old(self)@.len(),
                        forall|j: int| 0 <= j < first ==> old(self)@[j].0 != name@,
                        forall|j: int|
                            0 <= j < i ==> (#[trigger] self@[j]) == if old(self)@[j].0 == name@ {
                                (name@, process@)
                            } else {
                                old(self)@[j]
                            },
                        forall|j: int|
                            i <= j < self@.len() ==> (#[trigger] self@[j]) == old(self)@[j],
                    decreases self@.len() - i,
                {
                    let ghost before = self@;
                    assert(before[i as int] == old(self)@[i as int]);
                    if self.process[i].0 == name {
                        self.process[i].1 = process.clone();
                        assert(self@[i as int] == (name@, process@));
                    }
                    assert(forall|j: int|
                        0 <= j < before.len() && j != i ==> (#[trigger] self@[j]) == before[j]);
                    i += 1;
                }
                assert(self@ =~= declared(old(self)@, name@, process@));
            },
            None => {
                self.process.push((name, process));
                assert(self@ =~= declared(old(self)@, name@, process@));
            },
        }
    }
}

/// What a list of borrowed declarations holds.
pub open spec fn listed(pairs: Seq<(&String, &Process)>) -> Seq<(Seq<char>, ProcessView)> {
    Seq::new(pairs.len(), |i: int| (pairs[i].0@, pairs[i].1@))
}

/// The declarations that a command is about: all of them, in their order, when
/// no name is given, else the one under that name.
///
/// A name that the configuration does not declare is the caller's mistake.
pub fn select_processes<'a>(name: Option<&String>, config: &'a Config) -> (selection: Vec<
    (&'a String, &'a Process),
>)
    requires
        name matches Some(name) ==> declares(config@, name@),
    ensures
        name is None ==> listed(selection@) == config@,
        name matches Some(name) ==> exists|i: int|
            0 <= i < config@.len() && config@[i].0 == name@ && (forall|j: int|
                0 <= j < i ==> config@[j].0 != name@) && listed(selection@) == seq![config@[i]],
{
    let mut selection: Vec<(&'a String, &'a Process)> = Vec::new();
    match name {
        None => {
            let mut i: usize = 0;
            while i < config.process.len()
                invariant
                    i <= config.process@.len(),
                    selection@.len() == i,
                    forall|j: int|
                        0 <= j < i ==> (#[trigger] selection@[j]).0@ == config@[j].0
                            && selection@[j].1@ == config@[j].1,
                decreases config.process@.len() - i,
            {
                selection.push((&config.process[i].0, &config.process[i].1));
                i += 1;
            }
            assert(listed(selection@) =~= config@);
        },
        Some(name) => {
            match config.position(name) {
                Some(i) => {
                    selection.push((&config.process[i].0, &config.process[i].1));
                    assert(listed(selection@) =~= seq![config@[i as int]]);
                },
                None => {},
            }
        },
    }
    selection
}

} // verus!
