//! A slot for the callback that decides on the creation of a file.

use vstd::prelude::*;
use vstd::string::StringSliceAdditionalSpecFns;
use crate::matcher::{contains_ignore_case, path_contains_pattern};

verus! {

/// The callbacks that a filter has registered.  A callback takes a path
/// and says whether the operation is allowed.
pub struct FilterCallbacks<F: Fn(&str) -> bool> {
    pre_create: Option<F>,
}

impl<F: Fn(&str) -> bool> FilterCallbacks<F> {
    /// The callback registered for the creation of a file, if any.
    pub closed spec fn registered(&self) -> Option<F> {
        self.pre_create
    }

    /// A set of callbacks with none registered.
    pub fn new() -> (callbacks: Self)
        ensures
            callbacks.registered() is None,
    {
        FilterCallbacks { pre_create: None }
    }

    /// Registers the callback for the creation of a file, in place of
    /// the one registered before, if any.
    pub fn set_pre_create(&mut self, callback: F)
        ensures
            final(self).registered() == Some(callback),
    {
        self.pre_create = Some(callback);
    }

    /// Asks the registered callback whether `path` may be created.
    /// Where none is registered the answer is yes.
    pub fn invoke_pre_create(&self, path: &str) -> (allowed: bool)
        requires
            self.registered() matches Some(callback) ==> call_requires(callback, (path,)),
        ensures
            match self.registered() {
                Some(callback) => call_ensures(callback, (path,), allowed),
                None => allowed,
            },
    {
        match &self.pre_create {
            Some(callback) => callback(path),
            None => true,
        }
    }
}

/// The callback of the filter itself: a path is allowed unless
/// `rahasia` occurs in it, ignoring ASCII case.
pub fn my_pre_create_callback(path: &str) -> (allowed: bool)
    ensures
        allowed == !contains_ignore_case(path.spec_bytes(), "rahasia".spec_bytes()),
{
    !path_contains_pattern(path, "rahasia")
}

} // verus!
