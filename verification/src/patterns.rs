//! Glob and regular-expression patterns over file paths, and file extensions.
use vstd::prelude::*;
use crate::display::opt_string;

verus! {

/// The message of the error that `regex::Regex::new` returns for `pattern`,
/// or `None` when it compiles the pattern.
pub uninterp spec fn regex_error(pattern: Seq<char>) -> Option<Seq<char>>;

/// Whether the regex compiled from `pattern` matches somewhere in `text`
/// (`false` when `pattern` does not compile).
pub uninterp spec fn regex_matches(pattern: Seq<char>, text: Seq<char>) -> bool;

/// The message of the error that `glob::Pattern::new` returns for `pattern`,
/// or `None` when it compiles the pattern.
pub uninterp spec fn glob_error(pattern: Seq<char>) -> Option<Seq<char>>;

/// Whether the glob pattern compiled from `pattern` matches all of `text`
/// with the default match options (`false` when `pattern` does not compile).
pub uninterp spec fn glob_matches(pattern: Seq<char>, text: Seq<char>) -> bool;

/// The extension of the last component of `path` (`std::path::Path::extension`).
pub uninterp spec fn path_extension(path: Seq<char>) -> Option<Seq<char>>;

/// Compiles `pattern` with `regex::Regex::new`; the result is the error's
/// message (`Display`) when the pattern is refused. Named `regex_error`.
#[verifier::external_body]
pub(crate) fn regex_check(pattern: &str) -> (r: Option<String>)
    ensures
        opt_string(r) == regex_error(pattern@),
{
    match regex::Regex::new(pattern) {
        Ok(_) => None,
        Err(e) => Some(e.to_string()),
    }
}

/// Compiles `pattern` with `regex::Regex::new` and calls `Regex::is_match`
/// on `text`; `false` when the pattern is refused. Named `regex_matches`.
#[verifier::external_body]
pub(crate) fn regex_is_match(pattern: &str, text: &str) -> (r: bool)
    ensures
        r == regex_matches(pattern@, text@),
{
    match regex::Regex::new(pattern) {
        Ok(re) => re.is_match(text),
        Err(_) => false,
    }
}

/// Compiles `pattern` with `glob::Pattern::new`; the result is the error's
/// message (`Display`) when the pattern is refused. Named `glob_error`.
#[verifier::external_body]
pub(crate) fn glob_check(pattern: &str) -> (r: Option<String>)
    ensures
        opt_string(r) == glob_error(pattern@),
{
    match glob::Pattern::new(pattern) {
        Ok(_) => None,
        Err(e) => Some(e.to_string()),
    }
}

/// Compiles `pattern` with `glob::Pattern::new` and calls `Pattern::matches`
/// on `text`; `false` when the pattern is refused. Named `glob_matches`.
#[verifier::external_body]
pub(crate) fn glob_is_match(pattern: &str, text: &str) -> (r: bool)
    ensures
        r == glob_matches(pattern@, text@),
{
    match glob::Pattern::new(pattern) {
        Ok(p) => p.matches(text),
        Err(_) => false,
    }
}

/// `std::path::Path::extension` of `path`, as a string. Named `path_extension`.
#[verifier::external_body]
pub(crate) fn file_extension(path: &str) -> (r: Option<String>)
    ensures
        opt_string(r) == path_extension(path@),
{
    match std::path::Path::new(path).extension() {
        Some(e) => match e.to_str() {
            Some(s) => Some(s.to_string()),
            None => None,
        },
        None => None,
    }
}

} // verus!
