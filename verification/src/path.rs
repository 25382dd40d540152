//! Locations of configuration files, as text with `/` between the parts.

use vstd::prelude::*;
use vstd::string::*;

verus! {

/// Whether `path` starts at the root.
pub open spec fn is_absolute(path: Seq<char>) -> bool {
    path.len() > 0 && path[0] == '/'
}

/// `name` below `dir`: an absolute `name` stands for itself; otherwise it
/// follows `dir`, with one `/` between them unless `dir` is empty or ends
/// in one.
pub open spec fn joined(dir: Seq<char>, name: Seq<char>) -> Seq<char> {
    if is_absolute(name) {
        name
    } else if dir.len() == 0 || dir.last() == '/' {
        dir + name
    } else {
        dir + seq!['/'] + name
    }
}

/// The location of `name` below `dir`.
pub fn join(dir: &str, name: &str) -> (path: String)
    ensures
        path@ == joined(dir@, name@),
{
    let name_len = name.unicode_len();
    if name_len > 0 && name.get_char(0) == '/' {
        return String::from_str(name);
    }
    let dir_len = dir.unicode_len();
    let mut path = String::from_str(dir);
    if dir_len > 0 && dir.get_char(dir_len - 1) != '/' {
        proof {
            reveal_strlit("/");
        }
        path.append("/");
        assert("/"@ =~= seq!['/']);
    }
    path.append(name);
    path
}

/// A file to be written: where, and what.
#[derive(Clone, Debug, PartialEq, Eq)]
pub struct ConfigFile<T> {
    /// Location of the file.
    pub path: String,
    /// What the file holds.
    pub contents: T,
}

} // verus!
