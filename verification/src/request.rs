//! A request for a file as a borrowed path and the process that asks.

use vstd::prelude::*;
use vstd::string::StringSliceAdditionalSpecFns;
use crate::matcher::{contains_ignore_case, path_contains_pattern};

verus! {

/// The longer of two paths, by the number of bytes; the second where
/// both are of one length.
pub fn longest_path<'a>(path1: &'a str, path2: &'a str) -> (longest: &'a str)
    ensures
        longest == if path1.spec_bytes().len() > path2.spec_bytes().len() {
            path1
        } else {
            path2
        },
{
    if path1.as_bytes().len() > path2.as_bytes().len() {
        path1
    } else {
        path2
    }
}

/// A request for the file at `path` by the process `process_id`.  The
/// path is borrowed, so a request cannot outlive it.
pub struct FileRequest<'a> {
    pub path: &'a str,
    pub process_id: u32,
}

impl<'a> FileRequest<'a> {
    /// The request of the process `pid` for the file at `path`.
    pub fn new(path: &'a str, pid: u32) -> (request: Self)
        ensures
            request.path == path,
            request.process_id == pid,
    {
        FileRequest { path, process_id: pid }
    }

    /// Tells whether the request is to be refused: whether `rahasia`
    /// occurs in the path, ignoring ASCII case.
    pub fn should_block(&self) -> (blocked: bool)
        ensures
            blocked == contains_ignore_case(self.path.spec_bytes(), "rahasia".spec_bytes()),
    {
        path_contains_pattern(self.path, "rahasia")
    }
}

} // verus!
