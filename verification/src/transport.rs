//! The one place where requests are put together and answers are classified.

use crate::boards::Boards;
use crate::errors::{Error, Errors};
use crate::issues::Issues;
use crate::search::Search;
use crate::sprints::Sprints;
use crate::transitions::Transitions;
use vstd::prelude::*;
use vstd::string::*;
use vstd::utf8::encode_utf8;

verus! {

/// Types of authentication credentials.
#[derive(Debug)]
pub enum Credentials {
    /// Username and password.
    Basic(String, String),
}

/// What a credential holds, as text.
pub enum CredentialsView {
    Basic(Seq<char>, Seq<char>),
}

impl View for Credentials {
    type V = CredentialsView;

    open spec fn view(&self) -> CredentialsView {
        match self {
            Credentials::Basic(user, pass) => CredentialsView::Basic(user@, pass@),
        }
    }
}

impl Clone for Credentials {
    fn clone(&self) -> (copy: Credentials)
        ensures
            copy@ == self@,
    {
        match self {
            Credentials::Basic(user, pass) => Credentials::Basic(user.clone(), pass.clone()),
        }
    }
}

/// The HTTP methods that the api is called with.
#[derive(Clone, Copy, Debug, PartialEq, Eq, Structural)]
pub enum Method {
    Get,
    Post,
    Put,
}

/// A request that is ready to be sent.
#[derive(Debug)]
pub struct Request {
    pub method: Method,
    /// The full address: host, api prefix and endpoint.
    pub url: String,
    /// What the basic-auth header is made from.
    pub credentials: Credentials,
    /// The content type to announce; set exactly when there is a body.
    pub content_type: Option<String>,
    pub body: Option<Vec<u8>>,
}

/// A request as the contracts speak of it.
pub struct RequestView {
    pub method: Method,
    pub url: Seq<char>,
    pub credentials: CredentialsView,
    pub content_type: Option<Seq<char>>,
    pub body: Option<Seq<u8>>,
}

impl View for Request {
    type V = RequestView;

    open spec fn view(&self) -> RequestView {
        RequestView {
            method: self.method,
            url: self.url@,
            credentials: self.credentials@,
            content_type: match self.content_type {
                Some(t) => Some(t@),
                None => None,
            },
            body: match self.body {
                Some(b) => Some(b@),
                None => None,
            },
        }
    }
}

/// What came back for a request: the status, and the body read both ways, as the list
/// of problems that a refusal carries and as the value that a success carries.
pub struct Reply<D> {
    pub status: u16,
    pub errors: Result<Errors, String>,
    pub body: Result<D, String>,
}

/// The address of an endpoint: `<host>/rest/<api_name>/latest<endpoint>`.
pub open spec fn endpoint_url(host: Seq<char>, api_name: Seq<char>, endpoint: Seq<char>) -> Seq<char> {
    host + "/rest/"@ + api_name + "/latest"@ + endpoint
}

/// The request that an operation sends.
pub open spec fn request_for(
    host: Seq<char>,
    credentials: CredentialsView,
    method: Method,
    api_name: Seq<char>,
    endpoint: Seq<char>,
    body: Option<Seq<u8>>,
) -> RequestView {
    RequestView {
        method,
        url: endpoint_url(host, api_name, endpoint),
        credentials,
        content_type: if body is Some {
            Some("application/json"@)
        } else {
            None
        },
        body,
    }
}

/// A status of the 4xx class.
pub open spec fn is_client_error(status: u16) -> bool {
    400 <= status < 500
}

/// What a call returns for an answer of the server.
///
/// 401, 405 and 404 are errors of their own, whatever the body holds. Any other 4xx
/// status is a fault with the problems that the body lists. Every other status hands
/// out the body's value. A body that could not be read is an error in both cases.
pub open spec fn outcome<D>(reply: Reply<D>) -> Result<D, Error> {
    if reply.status == 401 {
        Err(Error::Unauthorized)
    } else if reply.status == 405 {
        Err(Error::MethodNotAllowed)
    } else if reply.status == 404 {
        Err(Error::NotFound)
    } else if is_client_error(reply.status) {
        match reply.errors {
            Ok(errors) => Err(Error::Fault { code: reply.status, errors }),
            Err(e) => Err(Error::Serde(e)),
        }
    } else {
        match reply.body {
            Ok(value) => Ok(value),
            Err(e) => Err(Error::Serde(e)),
        }
    }
}

/// For 401, 405 and 404 a call returns the error of that status, whatever the body
/// holds and however it was read.
pub proof fn lemma_status_errors<D>(reply: Reply<D>)
    requires
        reply.status == 401 || reply.status == 405 || reply.status == 404,
    ensures
        reply.status == 401 ==> outcome(reply) == Err::<D, Error>(Error::Unauthorized),
        reply.status == 405 ==> outcome(reply) == Err::<D, Error>(Error::MethodNotAllowed),
        reply.status == 404 ==> outcome(reply) == Err::<D, Error>(Error::NotFound),
{
}

/// For every other status of the 4xx class a call returns a fault with that very status
/// and the problems that the body lists; where the body does not list any that can be
/// read, the call fails with what the reader said.
pub proof fn lemma_fault<D>(reply: Reply<D>)
    requires
        is_client_error(reply.status),
        reply.status != 401,
        reply.status != 405,
        reply.status != 404,
    ensures
        reply.errors matches Ok(errors) ==> outcome(reply) == Err::<D, Error>(
            Error::Fault { code: reply.status, errors },
        ),
        reply.errors matches Err(e) ==> outcome(reply) == Err::<D, Error>(Error::Serde(e)),
{
}

/// For every status outside the 4xx class, so for all of 2xx and 3xx, a call returns
/// the value that was read from the body; a body that could not be read is an error
/// and never a value.
pub proof fn lemma_body<D>(reply: Reply<D>)
    requires
        !is_client_error(reply.status),
    ensures
        reply.body matches Ok(value) ==> outcome(reply) == Ok::<D, Error>(value),
        reply.body matches Err(e) ==> outcome(reply) == Err::<D, Error>(Error::Serde(e)),
{
}

/// Entrypoint into the client interface: the host and the credentials that every
/// request goes out with.
#[derive(Debug)]
pub struct Jira {
    host: String,
    credentials: Credentials,
}

impl Clone for Jira {
    fn clone(&self) -> (copy: Jira)
        ensures
            copy.same_as(self),
    {
        Jira { host: self.host.clone(), credentials: self.credentials.clone() }
    }
}

impl Jira {
    /// The host that requests are sent to.
    pub closed spec fn host(&self) -> Seq<char> {
        self.host@
    }

    /// The credentials that requests carry.
    pub closed spec fn credentials(&self) -> CredentialsView {
        self.credentials@
    }

    /// Both clients send to the same host with the same credentials.
    pub open spec fn same_as(&self, other: &Jira) -> bool {
        self.host() == other.host() && self.credentials() == other.credentials()
    }

    /// The request that this client sends for an operation.
    pub open spec fn plans(
        &self,
        method: Method,
        api_name: Seq<char>,
        endpoint: Seq<char>,
        body: Option<Seq<u8>>,
    ) -> RequestView {
        request_for(self.host(), self.credentials(), method, api_name, endpoint, body)
    }

    /// Creates a new instance of a jira client.
    pub fn new(host: &str, credentials: Credentials) -> (jira: Result<Jira, Error>)
        ensures
            jira is Ok,
            jira->Ok_0.host() == host@,
            jira->Ok_0.credentials() == credentials@,
    {
        Ok(Jira { host: String::from_str(host), credentials })
    }

    /// Returns the transitions interface of the issue with this key.
    pub fn transitions(&self, key: &str) -> (transitions: Transitions)
        ensures
            transitions.jira().same_as(self),
            transitions.key() == key@,
    {
        Transitions::new(self, key)
    }

    /// Returns the search interface.
    pub fn search(&self) -> (search: Search)
        ensures
            search.jira().same_as(self),
    {
        Search::new(self)
    }

    /// Returns the issues interface.
    pub fn issues(&self) -> (issues: Issues)
        ensures
            issues.jira().same_as(self),
    {
        Issues::new(self)
    }

    /// Returns the boards interface.
    pub fn boards(&self) -> (boards: Boards)
        ensures
            boards.jira().same_as(self),
    {
        Boards::new(self)
    }

    /// Returns the sprints interface.
    pub fn sprints(&self) -> (sprints: Sprints)
        ensures
            sprints.jira().same_as(self),
    {
        Sprints::new(self)
    }

    /// Puts a request together: the address, the credentials, and the body with its
    /// content type where there is one.
    pub fn execute(&self, method: Method, api_name: &str, endpoint: &str, body: Option<Vec<u8>>) -> (request: Request)
        requires
            endpoint@.len() > 0,
            endpoint@[0] == '/',
        ensures
            request@ == self.plans(
                method,
                api_name@,
                endpoint@,
                match body {
                    Some(b) => Some(b@),
                    None => None,
                },
            ),
    {
        let mut url = self.host.clone();
        url.append("/rest/");
        url.append(api_name);
        url.append("/latest");
        url.append(endpoint);
        let content_type = match body {
            Some(_) => Some(String::from_str("application/json")),
            None => None,
        };
        Request { method, url, credentials: self.credentials.clone(), content_type, body }
    }

    /// A request that reads: no body.
    pub fn get(&self, api_name: &str, endpoint: &str) -> (request: Request)
        requires
            endpoint@.len() > 0,
            endpoint@[0] == '/',
        ensures
            request@ == self.plans(Method::Get, api_name@, endpoint@, None),
    {
        self.execute(Method::Get, api_name, endpoint, None)
    }

    /// A request that creates: the body is the UTF-8 of the JSON text.
    pub fn post(&self, api_name: &str, endpoint: &str, json: &str) -> (request: Request)
        requires
            endpoint@.len() > 0,
            endpoint@[0] == '/',
        ensures
            request@ == self.plans(Method::Post, api_name@, endpoint@, Some(encode_utf8(json@))),
    {
        self.execute(Method::Post, api_name, endpoint, Some(json.as_bytes_vec()))
    }

    /// A request that replaces: the body is the UTF-8 of the JSON text.
    pub fn put(&self, api_name: &str, endpoint: &str, json: &str) -> (request: Request)
        requires
            endpoint@.len() > 0,
            endpoint@[0] == '/',
        ensures
            request@ == self.plans(Method::Put, api_name@, endpoint@, Some(encode_utf8(json@))),
    {
        self.execute(Method::Put, api_name, endpoint, Some(json.as_bytes_vec()))
    }

    /// Turns what came back into the call's result. A request that was never answered
    /// is a transport error with the reason given.
    pub fn request<D>(sent: Result<Reply<D>, String>) -> (result: Result<D, Error>)
        ensures
            result == match sent {
                Ok(reply) => outcome(reply),
                Err(reason) => Err(Error::Http(reason)),
            },
    {
        match sent {
            Err(reason) => Err(Error::Http(reason)),
            Ok(reply) => {
                let Reply { status, errors, body } = reply;
                if status == 401 {
                    Err(Error::Unauthorized)
                } else if status == 405 {
                    Err(Error::MethodNotAllowed)
                } else if status == 404 {
                    Err(Error::NotFound)
                } else if 400 <= status && status < 500 {
                    match errors {
                        Ok(errors) => Err(Error::Fault { code: status, errors }),
                        Err(e) => Err(Error::Serde(e)),
                    }
                } else {
                    match body {
                        Ok(value) => Ok(value),
                        Err(e) => Err(Error::Serde(e)),
                    }
                }
            },
        }
    }
}

} // verus!
