//! Goji builds the requests of Jira's REST api and reads what the server answers.
//!
//! The library does no I/O of its own: an operation says which request goes out, and a
//! second function turns what came back into a typed result.

pub mod boards;
pub mod builder;
pub mod errors;
pub mod issues;
pub mod json;
pub mod rep;
pub mod search;
pub mod sprints;
pub mod text;
pub mod transitions;
pub mod transport;

pub use crate::boards::Boards;
pub use crate::builder::{SearchOptions, SearchOptionsBuilder};
pub use crate::errors::{Error, Errors};
pub use crate::issues::{
    Assignee, Component, CreateIssue, CreateResponse, DoTransitionRequest, Fields, IssueEditMeta,
    IssueResults, IssueType, Issues, Priority, Project, Status, StatusCategory, Transition,
    TransitionRequest, TransitionResults, UpdateIssue,
};
pub use crate::rep::{
    Board, EmptyResponse, Issue, TransitionOption, TransitionOptions, TransitionTo,
    TransitionTriggerOptions,
};
pub use crate::search::Search;
pub use crate::sprints::Sprints;
pub use crate::transitions::Transitions;
pub use crate::transport::{Credentials, CredentialsView, Jira, Method, Reply, Request, RequestView};
