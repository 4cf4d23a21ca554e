//! Per-line handling of the search tool's output.
//!
//! The tool prints one relative file path per line. Lines are tolerated in
//! either line-ending convention (a trailing carriage return is dropped),
//! and a surviving non-empty line is joined under the working directory to
//! form the absolute path handed to the resolver.

use vstd::prelude::*;
use vstd::string::*;

verus! {

/// The line with a trailing carriage return, if any, removed.
pub open spec fn trimmed(line: Seq<char>) -> Seq<char> {
    if line.len() > 0 && line.last() == '\r' {
        line.drop_last()
    } else {
        line
    }
}

/// The absolute path of `rel` under the working directory `cwd`: the two
/// joined with a single separator between them.
pub open spec fn joined(cwd: Seq<char>, rel: Seq<char>) -> Seq<char> {
    if cwd.len() > 0 && cwd.last() == '/' {
        cwd + rel
    } else {
        cwd + "/"@ + rel
    }
}

/// Drops a trailing carriage return from `line`.
pub fn trim_line(line: &str) -> (r: String)
    ensures
        r@ == trimmed(line@),
{
    let n = line.unicode_len();
    if n > 0 && line.get_char(n - 1) == '\r' {
        let t = line.substring_char(0, n - 1);
        proof {
            assert(t@ =~= trimmed(line@));
        }
        t.to_owned()
    } else {
        line.to_owned()
    }
}

/// Joins `rel` under the working directory `cwd` with a single separator.
pub fn join_under(cwd: &str, rel: &str) -> (r: String)
    ensures
        r@ == joined(cwd@, rel@),
{
    let n = cwd.unicode_len();
    let mut r = cwd.to_owned();
    if n == 0 || cwd.get_char(n - 1) != '/' {
        r.append("/");
    }
    r.append(rel);
    r
}

} // verus!
