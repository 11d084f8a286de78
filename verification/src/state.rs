//! What the process knows of itself when a page is rendered: its version, set
//! once at startup, and the number of repositories, which other parts of the
//! service keep counting while this one reads.

use std::sync::atomic::AtomicUsize;
use std::sync::atomic::Ordering;
use vstd::prelude::*;

verus! {

/// A handle on the version text and on the repository counter. It reads both
/// and writes neither.
pub struct ProcessState<'a> {
    version_info: &'a str,
    repo_count: &'a AtomicUsize,
}

impl<'a> ProcessState<'a> {
    /// The version text.
    pub closed spec fn version(&self) -> Seq<char> {
        self.version_info@
    }

    /// The counter that the handle reads.
    pub closed spec fn counter(&self) -> AtomicUsize {
        *self.repo_count
    }

    pub fn new(version_info: &'a str, repo_count: &'a AtomicUsize) -> (state: Self)
        ensures
            state.version() == version_info@,
            state.counter() == *repo_count,
    {
        ProcessState { version_info, repo_count }
    }

    pub fn version_info(&self) -> (version_info: &'a str)
        ensures
            version_info@ == self.version(),
    {
        self.version_info
    }

    /// The number of repositories right now: one relaxed load of the counter.
    /// Others may write the counter at any time, so two reads need not agree
    /// and nothing is promised of the number.
    pub fn repo_count(&self) -> usize {
        self.repo_count.load(Ordering::Relaxed)
    }
}

} // verus!
