//! The patterns by which the fields of an `.import` file are found, and the
//! regular-expression engine that searches for them.
//!
//! The engine is the `regex` crate. What it answers is not proved here: it is
//! named, as a function of the pattern and of the text searched, and the rest
//! of the crate is proved for whatever that function is.

use crate::error::MaterialError;
use crate::text::text_of;
use regex::Regex;
use vstd::prelude::*;
use vstd::string::StringExecFns;

verus! {

/// `regex::Regex`, a compiled regular expression. Nothing of its inside is
/// known here.
#[verifier::external_type_specification]
#[verifier::external_body]
pub struct ExRegex(Regex);

/// `regex::Error`, the reason why a pattern was not compiled. Nothing of its
/// inside is known here.
#[verifier::external_type_specification]
#[verifier::external_body]
pub struct ExRegexError(regex::Error);

/// What `Regex::new` returns for a pattern.
pub uninterp spec fn compiled(pattern: Seq<char>) -> Result<Regex, regex::Error>;

/// What capture group number `group` holds after `Regex::captures` has
/// searched `haystack` with `re`: the text that the group matched in the
/// leftmost match, or `None` where nothing matches, the group took no part, or
/// the expression has no such group.
pub uninterp spec fn group_text(re: Regex, haystack: Seq<char>, group: usize) -> Option<Seq<char>>;

/// Calls `Regex::new`. The contract claims only that the result, the compiled
/// expression or the error, depends on nothing but the pattern.
#[verifier::external_body]
fn compile(pattern: &str) -> (res: Result<Regex, regex::Error>)
    ensures
        res == compiled(pattern@),
{
    Regex::new(pattern)
}

/// Calls `Regex::captures` and hands out the text of one capture group, read
/// with `Captures::get` and `Match::as_str`. The contract claims only that
/// this text depends on nothing but the expression, the text searched and the
/// number of the group.
#[verifier::external_body]
fn capture_group(re: &Regex, haystack: &str, group: usize) -> (res: Option<String>)
    ensures
        text_of(res) == group_text(*re, haystack@, group),
{
    match re.captures(haystack) {
        Some(captures) => match captures.get(group) {
            Some(matched) => Some(matched.as_str().to_owned()),
            None => None,
        },
        None => None,
    }
}

/// Whether the engine accepts a pattern.
pub open spec fn is_accepted(pattern: Seq<char>) -> bool {
    compiled(pattern) is Ok
}

/// What the first group of a pattern captures in a line. A pattern that the
/// engine refuses captures nothing.
pub open spec fn captured(pattern: Seq<char>, line: Seq<char>) -> Option<Seq<char>> {
    match compiled(pattern) {
        Ok(re) => group_text(re, line, 1),
        Err(_) => None,
    }
}

/// A pattern that the engine has accepted, ready to search lines.
pub struct LinePattern {
    source: String,
    regex: Regex,
}

impl LinePattern {
    #[verifier::type_invariant]
    spec fn compiled_from_source(self) -> bool {
        compiled(self.source@) == Ok::<Regex, regex::Error>(self.regex)
    }

    /// The pattern as it was written.
    pub closed spec fn source(self) -> Seq<char> {
        self.source@
    }

    /// Compiles a pattern. Fails with `InvalidPattern` if and only if the
    /// engine refuses it.
    pub fn new(source: &str) -> (pattern: Result<LinePattern, MaterialError>)
        ensures
            match pattern {
                Ok(p) => is_accepted(source@) && p.source() == source@,
                Err(e) => !is_accepted(source@) && e == MaterialError::InvalidPattern,
            },
    {
        match compile(source) {
            Ok(regex) => Ok(LinePattern { source: String::from_str(source), regex }),
            Err(_) => Err(MaterialError::InvalidPattern),
        }
    }

    /// Searches a line for the leftmost match of the pattern and returns what
    /// its first group has captured.
    pub fn capture(&self, line: &str) -> (value: Option<String>)
        ensures
            is_accepted(self.source()),
            text_of(value) == captured(self.source(), line@),
    {
        proof {
            use_type_invariant(self);
        }
        capture_group(&self.regex, line, 1)
    }
}

/// Finds `uid="uid://TOKEN"` where `uid` starts a word, and captures TOKEN:
/// one or more characters other than `"`.
pub const UID_PATTERN: &'static str = "\\buid=\"uid://([^\"]+)\"";

/// Finds `source_file="res://PATH"` where `source_file` starts a word, and
/// captures `res://PATH`, PATH being one or more characters other than `"`.
pub const SOURCE_FILE_PATTERN: &'static str = "\\bsource_file=\"(res://[^\"]+)\"";

/// Whether the engine accepts both patterns of the `.import` files.
pub open spec fn patterns_accepted() -> bool {
    is_accepted(UID_PATTERN@) && is_accepted(SOURCE_FILE_PATTERN@)
}

/// The UID that a line holds, if it holds one.
pub open spec fn uid_in(line: Seq<char>) -> Option<Seq<char>> {
    captured(UID_PATTERN@, line)
}

/// The source path that a line holds, if it holds one.
pub open spec fn source_file_in(line: Seq<char>) -> Option<Seq<char>> {
    captured(SOURCE_FILE_PATTERN@, line)
}

/// The two patterns of the `.import` files, compiled.
pub struct SidecarPatterns {
    uid: LinePattern,
    source_file: LinePattern,
}

impl SidecarPatterns {
    #[verifier::type_invariant]
    spec fn holds_both_patterns(self) -> bool {
        &&& self.uid.source() == UID_PATTERN@
        &&& self.source_file.source() == SOURCE_FILE_PATTERN@
    }

    /// Compiles both patterns. Fails with `InvalidPattern` if and only if the
    /// engine refuses one of them.
    pub fn new() -> (patterns: Result<SidecarPatterns, MaterialError>)
        ensures
            match patterns {
                Ok(_) => patterns_accepted(),
                Err(e) => !patterns_accepted() && e == MaterialError::InvalidPattern,
            },
    {
        let uid = match LinePattern::new(UID_PATTERN) {
            Ok(pattern) => pattern,
            Err(error) => {
                return Err(error);
            },
        };
        let source_file = match LinePattern::new(SOURCE_FILE_PATTERN) {
            Ok(pattern) => pattern,
            Err(error) => {
                return Err(error);
            },
        };
        Ok(SidecarPatterns { uid, source_file })
    }

    /// Searches one line for a UID.
    pub fn uid_in(&self, line: &str) -> (uid: Option<String>)
        ensures
            text_of(uid) == uid_in(line@),
    {
        proof {
            use_type_invariant(self);
        }
        self.uid.capture(line)
    }

    /// Searches one line for a source path.
    pub fn source_file_in(&self, line: &str) -> (source_file: Option<String>)
        ensures
            text_of(source_file) == source_file_in(line@),
    {
        proof {
            use_type_invariant(self);
        }
        self.source_file.capture(line)
    }
}

} // verus!
