//! What the library takes from code that it does not verify: the types of
//! other crates that pass through it, the functions of theirs that it calls,
//! and what it believes of them. Nothing in this file is proved.

use std::time::{Duration, Instant};
use vstd::prelude::*;

verus! {

// ---------------------------------------------------------------- regex

/// `regex::Regex`, a compiled regular expression. Nothing inside it is seen.
#[verifier::external_type_specification]
#[verifier::external_body]
pub struct ExRegex(regex::Regex);

/// `regex::Error`, why a pattern was rejected. Nothing inside it is seen.
#[verifier::external_type_specification]
#[verifier::external_body]
pub struct ExRegexError(regex::Error);

/// What `regex::Regex::new` makes of a pattern: the compiled expression, or
/// nothing where it rejects the pattern.
pub uninterp spec fn compiled_regex(pattern: Seq<char>) -> Option<regex::Regex>;

/// Whether `regex::Regex::is_match` finds a match of the expression anywhere
/// in the haystack.
pub uninterp spec fn regex_accepts(re: regex::Regex, haystack: Seq<char>) -> bool;

/// `regex::Regex::new` compiles a pattern with the default limits. Whether it
/// succeeds, and with what, depends on the pattern alone: the contract names
/// the outcome `compiled_regex` and says nothing of the error.
pub assume_specification[ regex::Regex::new ](re: &str) -> (r: Result<regex::Regex, regex::Error>)
    ensures
        r is Ok <==> compiled_regex(re@) is Some,
        r is Ok ==> r->Ok_0 == compiled_regex(re@)->Some_0,
;

/// `regex::Regex::is_match` searches the haystack from its start. The answer
/// depends on the expression and the haystack alone: the contract names it
/// `regex_accepts`.
pub assume_specification[ regex::Regex::is_match ](re: &regex::Regex, haystack: &str) -> (b: bool)
    ensures
        b == regex_accepts(*re, haystack@),
;

// ---------------------------------------------------------------- tokio

/// `tokio::task::JoinHandle`, the handle of a spawned task. The library
/// keeps such handles and cancels the tasks behind them; it never waits.
#[verifier::external_type_specification]
#[verifier::external_body]
#[verifier::reject_recursive_types(T)]
pub struct ExJoinHandle<T>(tokio::task::JoinHandle<T>);

/// `tokio::task::JoinError`, which the type of a handle mentions.
#[verifier::external_type_specification]
#[verifier::external_body]
pub struct ExJoinError(tokio::task::JoinError);

/// `tokio::task::JoinHandle::abort` asks the runtime to cancel the task. It
/// returns nothing and the contract promises nothing.
pub assume_specification<T>[ tokio::task::JoinHandle::<T>::abort ](
    handle: &tokio::task::JoinHandle<T>,
)
;

// ---------------------------------------------------------------- std::time, std::io

/// `std::time::Instant`, a reading of the clock. Nothing inside it is seen.
#[verifier::external_type_specification]
#[verifier::external_body]
pub struct ExInstant(Instant);

/// `std::time::Instant::now` reads the clock: nothing is promised of it.
pub assume_specification[ Instant::now ]() -> Instant
;

/// `std::time::Instant::elapsed` reads the clock: nothing is promised of it.
pub assume_specification[ Instant::elapsed ](start: &Instant) -> Duration
;

/// `std::io::Error`, which entries that could not be read carry along.
#[verifier::external_type_specification]
#[verifier::external_body]
pub struct ExIoError(std::io::Error);

// ---------------------------------------------------------------- std::string

/// `std::string::String::push` appends one character and changes nothing else.
pub assume_specification[ String::push ](s: &mut String, ch: char)
    ensures
        final(s)@ == old(s)@.push(ch),
;

// ---------------------------------------------------------------- std::path
//
// Paths are taken apart and put together by the rules of the platform that
// the library is built for. The four names below stand for what those rules
// give; each is a function of the texts alone.

/// The final component of a path, as `std::path::Path::file_name` gives it.
pub uninterp spec fn file_name_of(path: Seq<char>) -> Option<Seq<char>>;

/// The extension of a path's final component, as `std::path::Path::extension` gives it.
pub uninterp spec fn extension_of(path: Seq<char>) -> Option<Seq<char>>;

/// A path and its parents, nearest first, as `std::path::Path::ancestors` yields them.
pub uninterp spec fn ancestors_of(path: Seq<char>) -> Seq<Seq<char>>;

/// `part` appended to `base` as `std::path::Path::join` does it.
pub uninterp spec fn joined_path(base: Seq<char>, part: Seq<char>) -> Seq<char>;

/// Calls `std::path::Path::file_name`. The result is a function of the path's
/// text alone; the contract gives it the name `file_name_of` and says no more.
/// The final component of a path that is valid text is valid text itself.
#[verifier::external_body]
pub(crate) fn path_file_name<'a>(path: &'a str) -> (r: Option<&'a str>)
    ensures
        r.is_some() == file_name_of(path@).is_some(),
        r.is_some() ==> r.unwrap()@ == file_name_of(path@).unwrap(),
{
    match std::path::Path::new(path).file_name() {
        Some(name) => name.to_str(),
        None => None,
    }
}

/// Calls `std::path::Path::extension`. The result is a function of the path's
/// text alone; the contract gives it the name `extension_of` and says no more.
#[verifier::external_body]
pub(crate) fn path_extension<'a>(path: &'a str) -> (r: Option<&'a str>)
    ensures
        r.is_some() == extension_of(path@).is_some(),
        r.is_some() ==> r.unwrap()@ == extension_of(path@).unwrap(),
{
    match std::path::Path::new(path).extension() {
        Some(ext) => ext.to_str(),
        None => None,
    }
}

/// Calls `std::path::Path::ancestors` and collects what it yields. The
/// documentation promises that the path itself comes first; the rest goes by
/// the name `ancestors_of`.
#[verifier::external_body]
pub(crate) fn path_ancestors(path: &str) -> (r: Vec<String>)
    ensures
        r@.len() == ancestors_of(path@).len(),
        forall|i: int| 0 <= i < r@.len() ==> (#[trigger] r@[i])@ == ancestors_of(path@)[i],
        r@.len() >= 1,
        r@[0]@ == path@,
{
    let mut out: Vec<String> = Vec::new();
    for anc in std::path::Path::new(path).ancestors() {
        out.push(anc.to_string_lossy().into_owned());
    }
    out
}

/// Calls `std::path::Path::join`. The result is a function of the two texts
/// alone; the contract gives it the name `joined_path` and says no more.
#[verifier::external_body]
pub(crate) fn path_join(base: &str, part: &str) -> (r: String)
    ensures
        r@ == joined_path(base@, part@),
{
    std::path::Path::new(base).join(part).to_string_lossy().into_owned()
}

} // verus!
