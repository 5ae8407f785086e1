//! Where the records of watched processes are kept.

use crate::text;
use vstd::prelude::*;
use vstd::string::*;

verus! {

/// The directory of the records, under the home directory `home`.
pub open spec fn procs_dir(home: Seq<char>) -> Seq<char> {
    home + "/.igniter/procs"@
}

/// The record file called `stem` under the home directory `home`.
pub open spec fn record_file(home: Seq<char>, stem: Seq<char>) -> Seq<char> {
    procs_dir(home) + seq!['/'] + stem + ".json"@
}

fn record_path(home: &str, stem: &str) -> (path: String)
    ensures
        path@ == record_file(home@, stem@),
{
    let mut path = procs_path(home);
    proof {
        reveal_strlit("/");
    }
    path.append("/");
    assert("/"@ =~= seq!['/']);
    path.append(stem);
    path.append(".json");
    path
}

/// The file that holds the record of the process with id `pid`.
pub fn path_from_pid(home: &str, pid: i32) -> (path: String)
    ensures
        path@ == record_file(home@, text::decimal_text(pid as int)),
{
    let stem = text::decimal(pid);
    record_path(home, stem.as_str())
}

/// The file that holds the record of the process called `process_name`.
pub fn path_from_name(home: &str, process_name: String) -> (path: String)
    ensures
        path@ == record_file(home@, process_name@),
{
    record_path(home, process_name.as_str())
}

/// The directory that holds the records.
pub fn procs_path(home: &str) -> (path: String)
    ensures
        path@ == procs_dir(home@),
{
    let mut path = String::from_str(home);
    path.append("/.igniter/procs");
    path
}

} // verus!
