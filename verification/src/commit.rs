//! A commit of the observed repository.

use vstd::prelude::*;
use crate::datetime::DateTimeUtc;
use crate::sorting::Keyed;

verus! {

/// A commit: its hash, message, web address, commit time and author login.
#[derive(Debug, PartialEq, Eq)]
pub struct Commit {
    pub sha: String,
    pub message: String,
    pub resource_path: String,
    pub committed_at: DateTimeUtc,
    pub creator_login: String,
}

impl Clone for Commit {
    fn clone(&self) -> (r: Self)
        ensures
            r == *self,
    {
        Commit {
            sha: self.sha.clone(),
            message: self.message.clone(),
            resource_path: self.resource_path.clone(),
            committed_at: self.committed_at,
            creator_login: self.creator_login.clone(),
        }
    }
}

impl Keyed for Commit {
    open spec fn sort_key(&self) -> int {
        self.committed_at.secs()
    }

    fn key(&self) -> (r: i64) {
        self.committed_at.timestamp()
    }
}

} // verus!
