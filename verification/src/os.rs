//! What the operating system's process listing says of one process.

use crate::text;
use vstd::prelude::*;

verus! {

/// One row of a process listing.
#[derive(Debug)]
pub struct Process {
    pid: i32,
    tty: String,
    time: String,
    cmd: String,
}

/// The mathematical content of a [`Process`].
pub struct ProcessView {
    pub pid: int,
    pub tty: Seq<char>,
    pub time: Seq<char>,
    pub cmd: Seq<char>,
}

impl View for Process {
    type V = ProcessView;

    closed spec fn view(&self) -> ProcessView {
        ProcessView { pid: self.pid as int, tty: self.tty@, time: self.time@, cmd: self.cmd@ }
    }
}

impl Clone for Process {
    fn clone(&self) -> (copy: Process)
        ensures
            copy@ == self@,
    {
        Process {
            pid: self.pid,
            tty: self.tty.clone(),
            time: self.time.clone(),
            cmd: self.cmd.clone(),
        }
    }
}

impl Process {
    /// The process id.
    pub fn pid(&self) -> (pid: i32)
        ensures
            pid == self@.pid,
    {
        self.pid
    }

    /// The terminal that the process is attached to.
    pub fn tty(&self) -> (tty: &str)
        ensures
            tty@ == self@.tty,
    {
        self.tty.as_str()
    }

    /// The processor time that the process has used.
    pub fn time(&self) -> (time: &str)
        ensures
            time@ == self@.time,
    {
        self.time.as_str()
    }

    /// The command that the process runs.
    pub fn cmd(&self) -> (cmd: &str)
        ensures
            cmd@ == self@.cmd,
    {
        self.cmd.as_str()
    }
}

/// Why a row of a listing cannot be read.
#[derive(Clone, Copy, Debug, PartialEq, Eq, Structural)]
pub enum PsError {
    /// The row does not start with a process id.
    InvalidPid,
    /// The row has fewer than four fields.
    MissingField,
}

/// The rows of a listing: its lines without the first, which is the header,
/// and without the last, which is what follows the final line break.
pub open spec fn rows(out: Seq<char>) -> Seq<Seq<char>> {
    let lines = text::pieces(out, '\n');
    if lines.len() <= 2 {
        Seq::empty()
    } else {
        lines.subrange(1, lines.len() - 1)
    }
}

/// What a row says: its fields are what single spaces separate, the first
/// four being the process id, the terminal, the time and the command.
pub open spec fn row(line: Seq<char>) -> Result<ProcessView, PsError> {
    let fields = text::pieces(line, ' ');
    match text::parsed_i32(fields[0]) {
        None => Err(PsError::InvalidPid),
        Some(pid) => if fields.len() < 4 {
            Err(PsError::MissingField)
        } else {
            Ok(ProcessView { pid: pid as int, tty: fields[1], time: fields[2], cmd: fields[3] })
        },
    }
}

fn parse_row(line: &str) -> (parsed: Result<Process, PsError>)
    ensures
        match parsed {
            Ok(process) => row(line@) == Ok::<ProcessView, PsError>(process@),
            Err(e) => row(line@) == Err::<ProcessView, PsError>(e),
        },
{
    let fields = text::split(line, ' ');
    proof {
        assert(fields.deep_view().len() == fields@.len());
        assert(forall|i: int| 0 <= i < fields@.len() ==> fields.deep_view()[i] == fields@[i]@);
        lemma_pieces_nonempty(line@, ' ');
    }
    match text::parse_i32(fields[0].as_str()) {
        None => Err(PsError::InvalidPid),
        Some(pid) => {
            if fields.len() < 4 {
                Err(PsError::MissingField)
            } else {
                Ok(
                    Process {
                        pid,
                        tty: fields[1].clone(),
                        time: fields[2].clone(),
                        cmd: fields[3].clone(),
                    },
                )
            }
        },
    }
}

/// Splitting always gives at least one piece.
proof fn lemma_pieces_nonempty(s: Seq<char>, sep: char)
    ensures
        text::pieces(s, sep).len() >= 1,
    decreases s.len(),
{
    if s.len() > 0 {
        lemma_pieces_nonempty(s.drop_last(), sep);
    }
}

/// Reads a process listing and gives the process of its first row, or `None`
/// when the listing has no rows.
///
/// Every row is read, not the first alone: the listing is refused with the
/// fault of its first row that cannot be read.
pub fn parse_ps_out(out: String) -> (parsed: Result<Option<Process>, PsError>)
    ensures
        match parsed {
            Ok(found) => {
                &&& forall|i: int| 0 <= i < rows(out@).len() ==> row(#[trigger] rows(out@)[i]) is Ok
                &&& match found {
                    Some(process) => rows(out@).len() > 0 && row(rows(out@)[0]) == Ok::<
                        ProcessView,
                        PsError,
                    >(process@),
                    None => rows(out@).len() == 0,
                }
            },
            Err(e) => exists|i: int|
                0 <= i < rows(out@).len() && row(#[trigger] rows(out@)[i]) == Err::<
                    ProcessView,
                    PsError,
                >(e) && forall|j: int| 0 <= j < i ==> row(#[trigger] rows(out@)[j]) is Ok,
        },
{
    let lines = text::split(out.as_str(), '\n');
    proof {
        assert(lines.deep_view().len() == lines@.len());
        assert(forall|i: int| 0 <= i < lines@.len() ==> lines.deep_view()[i] == lines@[i]@);
    }
    let mut found: Option<Process> = None;
    if lines.len() <= 2 {
        return Ok(found);
    }
    let mut i: usize = 1;
    while i < lines.len() - 1
        invariant
            lines@.len() > 2,
            1 <= i <= lines@.len() - 1,
            rows(out@).len() == lines@.len() - 2,
            forall|k: int| 0 <= k < rows(out@).len() ==> rows(out@)[k] == lines@[k + 1]@,
            forall|k: int| 0 <= k < i - 1 ==> row(#[trigger] rows(out@)[k]) is Ok,
            match found {
                Some(process) => i > 1 && row(rows(out@)[0]) == Ok::<ProcessView, PsError>(
                    process@,
                ),
                None => i == 1,
            },
        decreases lines@.len() - i,
    {
        match parse_row(lines[i].as_str()) {
            Ok(process) => {
                if found.is_none() {
                    found = Some(process);
                }
            },
            Err(e) => {
                assert(row(rows(out@)[i - 1]) == Err::<ProcessView, PsError>(e));
                return Err(e);
            },
        }
        i += 1;
    }
    Ok(found)
}

} // verus!
