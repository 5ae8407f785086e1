//! Paths as text: joining a directory and a file name.

use vstd::prelude::*;
use vstd::string::*;

verus! {

/// `path` taken relative to `dir`. An absolute `path` stands for itself;
/// otherwise it follows `dir`, after a separator unless `dir` is empty or ends
/// in one.
pub open spec fn joined(dir: Seq<char>, path: Seq<char>) -> Seq<char> {
    if path.len() > 0 && path[0] == '/' {
        path
    } else if dir.len() == 0 || dir.last() == '/' {
        dir + path
    } else {
        dir + seq!['/'] + path
    }
}

/// Joins `path` to `dir`.
pub fn join(dir: &str, path: &str) -> (whole: String)
    ensures
        whole@ == joined(dir@, path@),
{
    if path.unicode_len() > 0 && path.get_char(0) == '/' {
        return String::from_str(path);
    }
    let len = dir.unicode_len();
    let mut whole = String::from_str(dir);
    if len > 0 && dir.get_char(len - 1) != '/' {
        proof {
            reveal_strlit("/");
        }
        whole.append("/");
        assert("/"@ =~= seq!['/']);
    }
    whole.append(path);
    whole
}

} // verus!
