//! Interface for the sprints of the agile api.

use crate::transport::Jira;
use vstd::prelude::*;

verus! {

/// The sprints interface.
#[derive(Debug)]
pub struct Sprints {
    jira: Jira,
}

impl Sprints {
    /// The client that this interface sends through.
    pub closed spec fn jira(&self) -> Jira {
        self.jira
    }

    pub fn new(jira: &Jira) -> (sprints: Sprints)
        ensures
            sprints.jira().same_as(jira),
    {
        Sprints { jira: jira.clone() }
    }
}

} // verus!
