//! What can go wrong with a call, and what the server says about it.

use std::collections::BTreeMap;
use vstd::prelude::*;

verus! {

/// The problems that the server lists in the body of a refused request.
#[derive(Debug)]
pub struct Errors {
    /// Problems of single fields, by the field's name.
    pub errors: BTreeMap<String, String>,
    /// Problems of the request as a whole.
    pub error_messages: Vec<String>,
}

/// The ways in which a call fails.
#[derive(Debug)]
pub enum Error {
    /// The request did not reach the server, or no answer came back; with the reason.
    Http(String),
    /// A body was not the JSON that was expected; with what the reader said of it.
    Serde(String),
    /// The server refused the request and said why.
    Fault { code: u16, errors: Errors },
    /// The server did not accept the credentials (401).
    Unauthorized,
    /// The server does not allow this method on this path (405).
    MethodNotAllowed,
    /// The server has nothing at this path (404).
    NotFound,
}

} // verus!
