//! The processes that a settings file lists.

use crate::monitor::{Process, ProcessData};
use vstd::prelude::*;

verus! {

/// What a settings file holds: the records of the processes to watch.
#[derive(Debug)]
pub struct Settings {
    pub process: Vec<ProcessData>,
}

impl Settings {
    /// A process to watch for each record, in the order of the records. The
    /// settings keep their records; each process gets a copy.
    pub fn list_procs(&self) -> (procs: Vec<Process>)
        ensures
            procs@.len() == self.process@.len(),
            forall|i: int| 0 <= i < procs@.len() ==> (#[trigger] procs@[i])@ == self.process@[i]@,
    {
        let mut procs: Vec<Process> = Vec::new();
        let mut i: usize = 0;
        while i < self.process.len()
            invariant
                i <= self.process@.len(),
                procs@.len() == i,
                forall|j: int| 0 <= j < i ==> (#[trigger] procs@[j])@ == self.process@[j]@,
            decreases self.process@.len() - i,
        {
            procs.push(Process { data: self.process[i].clone() });
            i += 1;
        }
        procs
    }
}

} // verus!
