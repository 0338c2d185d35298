//! The record filter: a pattern that the serialized text of a record has to
//! match for the record to be shown.
//!
//! Patterns are regular expressions in the syntax of the `regex` crate,
//! which compiles and runs them.

use vstd::prelude::*;
use regex::Regex;
use crate::failure::Failure;

verus! {

/// `regex::Regex`, a compiled regular expression, as an opaque type.
#[verifier::external_type_specification]
#[verifier::external_body]
pub struct ExRegex(regex::Regex);

/// `regex::Error`, the error of compiling a pattern, as an opaque type.
#[verifier::external_type_specification]
#[verifier::external_body]
pub struct ExRegexError(regex::Error);

/// Whether `regex::Regex::new` accepts `pattern`.
pub uninterp spec fn pattern_compiles(pattern: Seq<char>) -> bool;

/// Whether the expression compiled from `pattern` finds a match anywhere
/// in `text`: what `regex::Regex::is_match` returns for them.
pub uninterp spec fn pattern_finds(pattern: Seq<char>, text: Seq<char>) -> bool;

/// A compiled filter pattern.
///
/// A filter is only ever made by compiling its pattern, so the expression
/// it holds is the one that its pattern compiles to.
pub struct Filter {
    pattern: String,
    regex: Regex,
}

impl View for Filter {
    type V = Seq<char>;

    /// The pattern the filter was compiled from.
    closed spec fn view(&self) -> Seq<char> {
        self.pattern@
    }
}

/// Calls `regex::Regex::new` and keeps the pattern beside the compiled
/// expression.  The call fails exactly on the patterns that do not compile:
/// those with a syntax error and those whose program would exceed the
/// crate's size limit.
#[verifier::external_body]
fn compile(pattern: &str) -> (compiled: Result<Filter, regex::Error>)
    ensures
        compiled is Ok <==> pattern_compiles(pattern@),
        compiled matches Ok(filter) ==> filter@ == pattern@,
{
    match Regex::new(pattern) {
        Ok(regex) => Ok(Filter { pattern: pattern.to_string(), regex }),
        Err(error) => Err(error),
    }
}

/// Formats a `regex::Error` by its `Display`.  Nothing is claimed of the
/// wording.
#[verifier::external_body]
fn pattern_reason(error: &regex::Error) -> (text: String) {
    error.to_string()
}

/// Calls `regex::Regex::is_match`, which says whether the expression finds
/// a match anywhere in `text`.  The answer depends on nothing but the
/// pattern the expression was compiled from and the text.
#[verifier::external_body]
fn search(filter: &Filter, text: &str) -> (found: bool)
    ensures
        found == pattern_finds(filter@, text@),
{
    filter.regex.is_match(text)
}

impl Filter {
    /// Whether a record with the serialized text `text` passes.
    pub open spec fn accepts(&self, text: Seq<char>) -> bool {
        pattern_finds(self@, text)
    }

    /// Compiles `pattern`.  A pattern that does not compile is an
    /// [`Failure::InvalidPattern`].
    pub fn new(pattern: &str) -> (filter: Result<Filter, Failure>)
        ensures
            filter is Ok <==> pattern_compiles(pattern@),
            filter matches Ok(f) ==> f@ == pattern@,
            filter matches Err(e) ==> e is InvalidPattern,
    {
        match compile(pattern) {
            Ok(filter) => Ok(filter),
            Err(error) => Err(Failure::InvalidPattern(pattern_reason(&error))),
        }
    }

    /// The filter for an optional pattern: none where no pattern is given,
    /// else the compiled pattern or the failure to compile it.
    pub fn optional(pattern: &Option<String>) -> (filter: Result<Option<Filter>, Failure>)
        ensures
            match *pattern {
                None => filter == Ok::<Option<Filter>, Failure>(None),
                Some(p) => match filter {
                    Ok(f) => pattern_compiles(p@) && f is Some && f.unwrap()@ == p@,
                    Err(e) => !pattern_compiles(p@) && e is InvalidPattern,
                },
            },
    {
        match pattern {
            None => Ok(None),
            Some(p) => match Filter::new(p.as_str()) {
                Ok(filter) => Ok(Some(filter)),
                Err(failure) => Err(failure),
            },
        }
    }

    /// The pattern the filter was compiled from.
    pub fn pattern(&self) -> (pattern: &String)
        ensures
            pattern@ == self@,
    {
        &self.pattern
    }

    /// Whether `text` passes the filter.
    pub fn matches(&self, text: &str) -> (passes: bool)
        ensures
            passes == self.accepts(text@),
    {
        search(self, text)
    }
}

/// Whether a record with the serialized text `text` is shown: always when
/// there is no filter, else when the filter accepts the text.
pub open spec fn passes(filter: Option<Filter>, text: Seq<char>) -> bool {
    match filter {
        Some(f) => f.accepts(text),
        None => true,
    }
}

/// Decides whether a record with the serialized text `text` is shown.
pub fn matches(text: &str, filter: &Option<Filter>) -> (shown: bool)
    ensures
        shown == passes(*filter, text@),
{
    match filter {
        Some(f) => f.matches(text),
        None => true,
    }
}

} // verus!
