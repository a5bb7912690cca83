//! Interfaces for accessing and managing the transitions of an issue.

use crate::errors::Error;
use crate::rep::{TransitionOption, TransitionOptions, TransitionTriggerOptions};
use crate::issues::transition_outcome;
use crate::transport::{is_client_error, outcome, Jira, Method, Reply, Request};
use vstd::prelude::*;
use vstd::string::*;
use vstd::utf8::encode_utf8;

verus! {

/// The transitions interface of one issue.
#[derive(Debug)]
pub struct Transitions {
    jira: Jira,
    key: String,
}

/// What listing the transitions comes to: the transitions out of their wrapper.
pub open spec fn list_outcome(reply: Reply<TransitionOptions>) -> Result<Vec<TransitionOption>, Error> {
    match outcome(reply) {
        Ok(wrapper) => Ok(wrapper.transitions),
        Err(e) => Err(e),
    }
}

/// What triggering a transition comes to. The server answers a transition that it made
/// with an empty body, which cannot be read as a value: a body that could not be read
/// counts as success.
pub open spec fn trigger_outcome(reply: Reply<()>) -> Result<(), Error> {
    match outcome(reply) {
        Err(Error::Serde(_)) => Ok(()),
        other => other,
    }
}

/// Triggering a transition succeeds whenever the status is outside the 4xx class,
/// whether the body could be read or not.
pub proof fn lemma_trigger_succeeds(reply: Reply<()>)
    requires
        !is_client_error(reply.status),
    ensures
        trigger_outcome(reply) == Ok::<(), Error>(()),
{
}

/// A 404 is `NotFound` for every operation, however its answer is read: as a value, as
/// the list of transitions, as the answer to a trigger or as the answer to a transition
/// asked for by its id.
pub proof fn lemma_not_found<D>(
    value: Reply<D>,
    listing: Reply<TransitionOptions>,
    triggered: Reply<()>,
    moved: Reply<()>,
)
    requires
        value.status == 404,
        listing.status == 404,
        triggered.status == 404,
        moved.status == 404,
    ensures
        outcome(value) == Err::<D, Error>(Error::NotFound),
        list_outcome(listing) == Err::<Vec<TransitionOption>, Error>(Error::NotFound),
        trigger_outcome(triggered) == Err::<(), Error>(Error::NotFound),
        transition_outcome(moved) == Err::<(), Error>(Error::NotFound),
{
}

impl Transitions {
    /// The client that this interface sends through.
    pub closed spec fn jira(&self) -> Jira {
        self.jira
    }

    /// The key of the issue.
    pub closed spec fn key(&self) -> Seq<char> {
        self.key@
    }

    pub fn new(jira: &Jira, key: &str) -> (transitions: Transitions)
        ensures
            transitions.jira().same_as(jira),
            transitions.key() == key@,
    {
        Transitions { jira: jira.clone(), key: String::from_str(key) }
    }

    /// Reads the transitions that are open to this issue:
    /// `GET /issue/{key}/transitions?expand=transitions.fields`.
    pub fn list(&self) -> (request: Request)
        ensures
            request@ == self.jira().plans(
                Method::Get,
                "api"@,
                "/issue/"@ + self.key() + "/transitions?expand=transitions.fields"@,
                None,
            ),
    {
        proof {
            reveal_strlit("/issue/");
        }
        let mut path = String::from_str("/issue/");
        path.append(self.key.as_str());
        path.append("/transitions?expand=transitions.fields");
        self.jira.get("api", path.as_str())
    }

    /// What `list` comes to.
    pub fn list_reply(sent: Result<Reply<TransitionOptions>, String>) -> (result: Result<
        Vec<TransitionOption>,
        Error,
    >)
        ensures
            result == match sent {
                Ok(reply) => list_outcome(reply),
                Err(reason) => Err(Error::Http(reason)),
            },
    {
        match Jira::request(sent) {
            Ok(wrapper) => Ok(wrapper.transitions),
            Err(e) => Err(e),
        }
    }

    /// Triggers a transition of this issue: `POST /issue/{key}/transitions`.
    pub fn trigger(&self, trans: &TransitionTriggerOptions) -> (request: Request)
        ensures
            request@ == self.jira().plans(
                Method::Post,
                "api"@,
                "/issue/"@ + self.key() + "/transitions"@,
                Some(encode_utf8(trans.json())),
            ),
    {
        proof {
            reveal_strlit("/issue/");
        }
        let mut path = String::from_str("/issue/");
        path.append(self.key.as_str());
        path.append("/transitions");
        self.jira.post("api", path.as_str(), trans.to_json().as_str())
    }

    /// What `trigger` comes to.
    pub fn trigger_reply(sent: Result<Reply<()>, String>) -> (result: Result<(), Error>)
        ensures
            result == match sent {
                Ok(reply) => trigger_outcome(reply),
                Err(reason) => Err(Error::Http(reason)),
            },
    {
        match Jira::request(sent) {
            Err(Error::Serde(_)) => Ok(()),
            other => other,
        }
    }
}

} // verus!
