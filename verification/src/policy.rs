//! The policy store: the patterns that block a file and the patterns
//! that mark a process name as suspicious.
//!
//! Patterns are kept as they were given and in the order in which they
//! were added.  Case is folded at each comparison, on both sides, so a
//! lookup allocates nothing and a pattern matches whatever the case in
//! which it was entered.

use vstd::prelude::*;
use vstd::string::StringSliceAdditionalSpecFns;
use vstd::utf8::encode_utf8;
use crate::matcher::{contains_ignore_case, matches_any, str_contains_ignore_case};

verus! {

/// The patterns that a new store blocks files by.
pub open spec fn default_blocked_patterns() -> Seq<Seq<u8>> {
    seq!["rahasia".spec_bytes(), "secret".spec_bytes(), "confidential".spec_bytes()]
}

/// The patterns that a new store holds for suspicious process names.
pub open spec fn default_suspicious_patterns() -> Seq<Seq<u8>> {
    seq!["cryptolocker".spec_bytes(), "ransomware".spec_bytes(), "malware".spec_bytes()]
}

/// The text of the refusal of a file of the given name.
pub open spec fn access_denied_message(filename: Seq<char>) -> Seq<char> {
    "Access denied: "@ + filename
}

/// The byte strings that a list of patterns holds, in order.
pub open spec fn pattern_views(patterns: Seq<Vec<u8>>) -> Seq<Seq<u8>> {
    Seq::new(patterns.len(), |i: int| patterns[i]@)
}

/// Tells whether any pattern of the list occurs in `candidate`.
fn any_pattern_matches(patterns: &Vec<Vec<u8>>, candidate: &[u8]) -> (found: bool)
    ensures
        found == matches_any(pattern_views(patterns@), candidate@),
{
    let count: usize = patterns.len();
    let mut i: usize = 0;
    while i < count
        invariant
            count == patterns@.len(),
            i <= count,
            forall|k: int|
                0 <= k < i ==> !contains_ignore_case(
                    candidate@,
                    #[trigger] pattern_views(patterns@)[k],
                ),
        decreases count - i,
    {
        if str_contains_ignore_case(candidate, patterns[i].as_slice()) {
            assert(contains_ignore_case(candidate@, pattern_views(patterns@)[i as int]));
            return true;
        }
        i += 1;
    }
    false
}

/// The policy store.
pub struct FileFilter {
    blocked_patterns: Vec<Vec<u8>>,
    suspicious_patterns: Vec<Vec<u8>>,
}

impl FileFilter {
    /// The patterns that block a file, in the order in which they were added.
    pub closed spec fn blocked(&self) -> Seq<Seq<u8>> {
        pattern_views(self.blocked_patterns@)
    }

    /// The patterns that mark a process name, in the order in which they
    /// were added.
    pub closed spec fn suspicious(&self) -> Seq<Seq<u8>> {
        pattern_views(self.suspicious_patterns@)
    }

    /// A store that holds the default patterns of both kinds.
    pub fn new() -> (filter: Self)
        ensures
            filter.blocked() == default_blocked_patterns(),
            filter.suspicious() == default_suspicious_patterns(),
    {
        let mut blocked: Vec<Vec<u8>> = Vec::new();
        blocked.push("rahasia".as_bytes_vec());
        blocked.push("secret".as_bytes_vec());
        blocked.push("confidential".as_bytes_vec());
        let mut suspicious: Vec<Vec<u8>> = Vec::new();
        suspicious.push("cryptolocker".as_bytes_vec());
        suspicious.push("ransomware".as_bytes_vec());
        suspicious.push("malware".as_bytes_vec());
        assert(pattern_views(blocked@) =~= default_blocked_patterns());
        assert(pattern_views(suspicious@) =~= default_suspicious_patterns());
        FileFilter { blocked_patterns: blocked, suspicious_patterns: suspicious }
    }

    /// Adds a pattern to those that block a file.
    pub fn add_pattern(&mut self, pattern: String)
        ensures
            final(self).blocked() == old(self).blocked().push(encode_utf8(pattern@)),
            final(self).suspicious() == old(self).suspicious(),
    {
        let bytes = pattern.as_str().as_bytes_vec();
        self.blocked_patterns.push(bytes);
        assert(self.blocked() =~= old(self).blocked().push(bytes@));
    }

    /// Adds a pattern to those that mark a process name as suspicious.
    pub fn add_suspicious_pattern(&mut self, pattern: String)
        ensures
            final(self).suspicious() == old(self).suspicious().push(encode_utf8(pattern@)),
            final(self).blocked() == old(self).blocked(),
    {
        let bytes = pattern.as_str().as_bytes_vec();
        self.suspicious_patterns.push(bytes);
        assert(self.suspicious() =~= old(self).suspicious().push(bytes@));
    }

    /// Tells whether a file of this name is blocked: whether any blocking
    /// pattern occurs anywhere in the name, ignoring ASCII case.
    pub fn should_block(&self, filename: &str) -> (blocked: bool)
        ensures
            blocked == matches_any(self.blocked(), filename.spec_bytes()),
    {
        self.should_block_bytes(filename.as_bytes())
    }

    /// Tells whether a file whose name is these bytes is blocked.  The
    /// bytes need not be text.
    pub fn should_block_bytes(&self, filename: &[u8]) -> (blocked: bool)
        ensures
            blocked == matches_any(self.blocked(), filename@),
    {
        any_pattern_matches(&self.blocked_patterns, filename)
    }

    /// Tells whether a process of this name is suspicious: whether any
    /// pattern for process names occurs anywhere in the name, ignoring
    /// ASCII case.
    pub fn is_suspicious(&self, name: &str) -> (suspicious: bool)
        ensures
            suspicious == matches_any(self.suspicious(), name.spec_bytes()),
    {
        any_pattern_matches(&self.suspicious_patterns, name.as_bytes())
    }

    /// Checks the final component of a path, where it has one that is
    /// text.  A blocked name is refused with a message that names it;
    /// every other name, and a path without one, is let through.
    pub fn check_file(&self, filename: Option<&str>) -> (result: Result<(), String>)
        ensures
            match filename {
                Some(name) => if matches_any(self.blocked(), name.spec_bytes()) {
                    result matches Err(message) && message@ == access_denied_message(name@)
                } else {
                    result is Ok
                },
                None => result is Ok,
            },
    {
        match filename {
            Some(name) => {
                if self.should_block(name) {
                    Err(String::from_str("Access denied: ").concat(name))
                } else {
                    Ok(())
                }
            },
            None => Ok(()),
        }
    }
}

} // verus!
