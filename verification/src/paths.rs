//! Path arithmetic, done by the standard library's path type.
//!
//! The library holds a path as text. What a path's final component is, whether
//! one path lies below another, and how two paths join is decided by
//! `std::path`, which parses a path by the rules of the platform that the
//! program is built for. The functions here hand the text over and take text
//! back; each result has a name, so that the contracts of the job builder can
//! say exactly which call a destination comes from.

use vstd::prelude::*;

verus! {

/// What `std::path::Path::file_name` returns for a path: its final component,
/// if it has one.
pub uninterp spec fn path_file_name(path: Seq<char>) -> Option<Seq<char>>;

/// What `std::path::Path::strip_prefix` returns for a path and a base: the
/// rest of the path below the base, if the path lies below it.
pub uninterp spec fn path_strip_prefix(path: Seq<char>, base: Seq<char>) -> Option<Seq<char>>;

/// What `std::path::PathBuf::push` makes of a base that a path is pushed onto.
pub uninterp spec fn path_join(base: Seq<char>, tail: Seq<char>) -> Seq<char>;

/// What `std::path::PathBuf::pop` leaves of a path: the path without its final
/// component, or the path itself where there is nothing to remove.
pub uninterp spec fn path_pop(path: Seq<char>) -> Seq<char>;

/// Calls `std::path::Path::file_name`. The contract only names the result:
/// nothing is claimed of how the final component is found.
#[verifier::external_body]
pub(crate) fn file_name(path: &str) -> (name: Option<String>)
    ensures
        match name {
            Some(text) => path_file_name(path@) == Some(text@),
            None => path_file_name(path@) is None,
        },
{
    match std::path::Path::new(path).file_name() {
        Some(name) => Some(name.to_string_lossy().into_owned()),
        None => None,
    }
}

/// Calls `std::path::Path::strip_prefix`, and gives `None` where it reports
/// that the base is no prefix of the path. The contract only names the result.
#[verifier::external_body]
pub(crate) fn strip_prefix(path: &str, base: &str) -> (rest: Option<String>)
    ensures
        match rest {
            Some(text) => path_strip_prefix(path@, base@) == Some(text@),
            None => path_strip_prefix(path@, base@) is None,
        },
{
    match std::path::Path::new(path).strip_prefix(base) {
        Ok(rest) => Some(rest.to_string_lossy().into_owned()),
        Err(_) => None,
    }
}

/// Calls `std::path::PathBuf::push` on a copy of the base. The contract only
/// names the result.
#[verifier::external_body]
pub(crate) fn join(base: &str, tail: &str) -> (joined: String)
    ensures
        joined@ == path_join(base@, tail@),
{
    let mut buffer = std::path::PathBuf::from(base);
    buffer.push(tail);
    buffer.to_string_lossy().into_owned()
}

/// Calls `std::path::PathBuf::pop` on a copy of the path, and gives what is
/// left. The contract only names the result.
#[verifier::external_body]
pub(crate) fn pop(path: &str) -> (rest: String)
    ensures
        rest@ == path_pop(path@),
{
    let mut buffer = std::path::PathBuf::from(path);
    buffer.pop();
    buffer.to_string_lossy().into_owned()
}

} // verus!
