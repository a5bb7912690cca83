//! Interface for the boards of the agile api.

use crate::transport::Jira;
use vstd::prelude::*;

verus! {

/// The boards interface.
#[derive(Debug)]
pub struct Boards {
    jira: Jira,
}

impl Boards {
    /// The client that this interface sends through.
    pub closed spec fn jira(&self) -> Jira {
        self.jira
    }

    pub fn new(jira: &Jira) -> (boards: Boards)
        ensures
            boards.jira().same_as(jira),
    {
        Boards { jira: jira.clone() }
    }
}

} // verus!
