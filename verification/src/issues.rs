//! Interfaces for accessing and managing issues.

use crate::errors::Error;
use crate::json::{array, json_array, json_member, json_object, json_text_member, member, object, text_member};
use crate::text::texts;
use crate::builder::SearchOptions;
use crate::rep::{Board, Issue};
use crate::text::{decimal, decimal_string, form_query};
use crate::transport::{is_client_error, outcome, Jira, Method, Reply, Request};
use vstd::prelude::*;
use vstd::string::*;
use vstd::utf8::encode_utf8;

verus! {

/// The issues interface.
#[derive(Debug)]
pub struct Issues {
    jira: Jira,
}

#[derive(Debug)]
pub struct Assignee {
    pub name: String,
}

#[derive(Debug)]
pub struct IssueType {
    pub id: String,
}

#[derive(Debug)]
pub struct Priority {
    pub id: String,
}

#[derive(Debug)]
pub struct Project {
    pub key: String,
}

#[derive(Debug)]
pub struct Component {
    pub name: String,
}

/// The fields of an issue that is created or updated.
#[derive(Debug)]
pub struct Fields {
    pub assignee: Assignee,
    pub components: Vec<Component>,
    pub description: String,
    pub environment: String,
    pub issuetype: IssueType,
    pub priority: Priority,
    pub project: Project,
    pub reporter: Assignee,
    pub summary: String,
}

#[derive(Debug)]
pub struct CreateIssue {
    pub fields: Fields,
}

/// What the server says of an issue it created. `url` is `self` on the wire.
#[derive(Debug)]
pub struct CreateResponse {
    pub id: String,
    pub key: String,
    pub url: String,
}

/// One page of issues. `max_results` is `maxResults` on the wire, `start_at` is `startAt`.
#[derive(Debug)]
pub struct IssueResults {
    pub expand: String,
    pub max_results: u64,
    pub start_at: u64,
    pub total: u64,
    pub issues: Vec<Issue>,
}

#[derive(Debug)]
pub struct IssueEditMeta {
    pub expand: String,
}

#[derive(Debug)]
pub struct UpdateIssue {
    pub fields: Fields,
}

#[derive(Debug)]
pub struct DoTransitionRequest {
    pub transition: TransitionRequest,
}

#[derive(Debug)]
pub struct TransitionRequest {
    pub id: String,
}

/// A transition that an issue can make. `to_status` is `to` on the wire.
#[derive(Debug)]
pub struct Transition {
    pub id: String,
    pub name: String,
    pub to_status: Status,
}

/// A status of the workflow. `icon_url` is `iconUrl` on the wire, `url` is `self`,
/// `status_category` is `statusCategory`.
#[derive(Debug)]
pub struct Status {
    pub id: String,
    pub name: String,
    pub icon_url: String,
    pub description: String,
    pub url: String,
    pub status_category: StatusCategory,
}

/// The category of a status. `color_name` is `colorName` on the wire, `url` is `self`.
#[derive(Debug)]
pub struct StatusCategory {
    pub id: u64,
    pub name: String,
    pub color_name: String,
    pub key: String,
    pub url: String,
}

#[derive(Debug)]
pub struct TransitionResults {
    pub expand: String,
    pub transitions: Vec<Transition>,
}

/// An object with the single member `name`, whose value is a string.
pub open spec fn json_single(name: Seq<char>, value: Seq<char>) -> Seq<char> {
    json_object(seq![json_text_member(name, value)])
}

/// An object with the single member `name`, whose value is the given JSON text.
pub open spec fn json_wrapped(name: Seq<char>, value: Seq<char>) -> Seq<char> {
    json_object(seq![json_member(name, value)])
}

fn single(name: &str, value: &str) -> (text: String)
    ensures
        text@ == json_single(name@, value@),
{
    let mut members: Vec<String> = Vec::new();
    members.push(text_member(name, value));
    assert(texts(members@) =~= seq![json_text_member(name@, value@)]);
    object(&members)
}

fn wrapped(name: &str, value: &str) -> (text: String)
    ensures
        text@ == json_wrapped(name@, value@),
{
    let mut members: Vec<String> = Vec::new();
    members.push(member(name, value));
    assert(texts(members@) =~= seq![json_member(name@, value@)]);
    object(&members)
}

impl Assignee {
    /// `{"name":..}`
    pub open spec fn json(&self) -> Seq<char> {
        json_single("name"@, self.name@)
    }

    pub fn to_json(&self) -> (text: String)
        ensures
            text@ == self.json(),
    {
        single("name", self.name.as_str())
    }
}

impl IssueType {
    /// `{"id":..}`
    pub open spec fn json(&self) -> Seq<char> {
        json_single("id"@, self.id@)
    }

    pub fn to_json(&self) -> (text: String)
        ensures
            text@ == self.json(),
    {
        single("id", self.id.as_str())
    }
}

impl Priority {
    /// `{"id":..}`
    pub open spec fn json(&self) -> Seq<char> {
        json_single("id"@, self.id@)
    }

    pub fn to_json(&self) -> (text: String)
        ensures
            text@ == self.json(),
    {
        single("id", self.id.as_str())
    }
}

impl Project {
    /// `{"key":..}`
    pub open spec fn json(&self) -> Seq<char> {
        json_single("key"@, self.key@)
    }

    pub fn to_json(&self) -> (text: String)
        ensures
            text@ == self.json(),
    {
        single("key", self.key.as_str())
    }
}

impl Component {
    /// `{"name":..}`
    pub open spec fn json(&self) -> Seq<char> {
        json_single("name"@, self.name@)
    }

    pub fn to_json(&self) -> (text: String)
        ensures
            text@ == self.json(),
    {
        single("name", self.name.as_str())
    }
}

/// The JSON texts of a list of components.
pub open spec fn component_texts(components: Seq<Component>) -> Seq<Seq<char>> {
    components.map_values(|c: Component| c.json())
}

fn components_to_json(components: &Vec<Component>) -> (text: String)
    ensures
        text@ == json_array(component_texts(components@)),
{
    let mut items: Vec<String> = Vec::new();
    let mut i: usize = 0;
    while i < components.len()
        invariant
            i <= components.len(),
            texts(items@) == component_texts(components@).take(i as int),
        decreases components.len() - i,
    {
        let item = components[i].to_json();
        let ghost before = texts(items@);
        items.push(item);
        proof {
            assert(texts(items@) =~= before.push(components@[i as int].json()));
            assert(component_texts(components@).take(i + 1) =~= component_texts(components@).take(
                i as int,
            ).push(components@[i as int].json()));
        }
        i = i + 1;
    }
    assert(component_texts(components@).take(components.len() as int) =~= component_texts(components@));
    array(&items)
}

impl Fields {
    /// The members in the order of the fields, each under the field's own name.
    pub open spec fn json(&self) -> Seq<char> {
        json_object(
            seq![
                json_member("assignee"@, self.assignee.json()),
                json_member("components"@, json_array(component_texts(self.components@))),
                json_text_member("description"@, self.description@),
                json_text_member("environment"@, self.environment@),
                json_member("issuetype"@, self.issuetype.json()),
                json_member("priority"@, self.priority.json()),
                json_member("project"@, self.project.json()),
                json_member("reporter"@, self.reporter.json()),
                json_text_member("summary"@, self.summary@),
            ],
        )
    }

    pub fn to_json(&self) -> (text: String)
        ensures
            text@ == self.json(),
    {
        let mut members: Vec<String> = Vec::new();
        members.push(member("assignee", self.assignee.to_json().as_str()));
        members.push(member("components", components_to_json(&self.components).as_str()));
        members.push(text_member("description", self.description.as_str()));
        members.push(text_member("environment", self.environment.as_str()));
        members.push(member("issuetype", self.issuetype.to_json().as_str()));
        members.push(member("priority", self.priority.to_json().as_str()));
        members.push(member("project", self.project.to_json().as_str()));
        members.push(member("reporter", self.reporter.to_json().as_str()));
        members.push(text_member("summary", self.summary.as_str()));
        assert(texts(members@) =~= seq![
            json_member("assignee"@, self.assignee.json()),
            json_member("components"@, json_array(component_texts(self.components@))),
            json_text_member("description"@, self.description@),
            json_text_member("environment"@, self.environment@),
            json_member("issuetype"@, self.issuetype.json()),
            json_member("priority"@, self.priority.json()),
            json_member("project"@, self.project.json()),
            json_member("reporter"@, self.reporter.json()),
            json_text_member("summary"@, self.summary@),
        ]);
        object(&members)
    }
}

impl CreateIssue {
    /// `{"fields":..}`
    pub open spec fn json(&self) -> Seq<char> {
        json_wrapped("fields"@, self.fields.json())
    }

    pub fn to_json(&self) -> (text: String)
        ensures
            text@ == self.json(),
    {
        wrapped("fields", self.fields.to_json().as_str())
    }
}

impl UpdateIssue {
    /// `{"fields":..}`
    pub open spec fn json(&self) -> Seq<char> {
        json_wrapped("fields"@, self.fields.json())
    }

    pub fn to_json(&self) -> (text: String)
        ensures
            text@ == self.json(),
    {
        wrapped("fields", self.fields.to_json().as_str())
    }
}

impl TransitionRequest {
    /// `{"id":..}`
    pub open spec fn json(&self) -> Seq<char> {
        json_single("id"@, self.id@)
    }

    pub fn to_json(&self) -> (text: String)
        ensures
            text@ == self.json(),
    {
        single("id", self.id.as_str())
    }
}

impl DoTransitionRequest {
    /// `{"transition":..}`
    pub open spec fn json(&self) -> Seq<char> {
        json_wrapped("transition"@, self.transition.json())
    }

    pub fn to_json(&self) -> (text: String)
        ensures
            text@ == self.json(),
    {
        wrapped("transition", self.transition.to_json().as_str())
    }
}

/// What a transition that was asked for by its id comes to. A status of the 4xx class
/// is answered as for every other call: 401, 405 and 404 with their own errors, the
/// others with a fault and the problems that the body lists. Every other status is
/// success, whatever the body holds.
pub open spec fn transition_outcome(reply: Reply<()>) -> Result<(), Error> {
    if is_client_error(reply.status) {
        outcome(reply)
    } else {
        Ok(())
    }
}

/// The path of the issues of a board, with a query behind it.
pub open spec fn board_issues_path(board: u64, query: Seq<char>) -> Seq<char> {
    "/board/"@ + decimal(board as nat) + "/issue"@ + "?"@ + query
}

/// Writes the path of the issues of a board: `/board/{id}/issue?{query}`.
pub fn board_issues_endpoint(board: u64, query: &str) -> (path: String)
    ensures
        path@ == board_issues_path(board, query@),
        path@.len() > 0,
        path@[0] == '/',
{
    proof {
        reveal_strlit("/board/");
    }
    let mut path = String::from_str("/board/");
    path.append(decimal_string(board).as_str());
    path.append("/issue");
    path.append("?");
    path.append(query);
    path
}

impl Issues {
    /// The client that this interface sends through.
    pub closed spec fn jira(&self) -> Jira {
        self.jira
    }

    pub fn new(jira: &Jira) -> (issues: Issues)
        ensures
            issues.jira().same_as(jira),
    {
        Issues { jira: jira.clone() }
    }

    /// Reads an issue: `GET /issue/{id}`.
    pub fn get(&self, id: &str) -> (request: Request)
        ensures
            request@ == self.jira().plans(Method::Get, "api"@, "/issue/"@ + id@, None),
    {
        proof {
            reveal_strlit("/issue/");
        }
        let mut path = String::from_str("/issue/");
        path.append(id);
        self.jira.get("api", path.as_str())
    }

    /// Reads the transitions of an issue: `GET /issue/{id}/transitions`.
    pub fn get_transitions(&self, id: &str) -> (request: Request)
        ensures
            request@ == self.jira().plans(Method::Get, "api"@, "/issue/"@ + id@ + "/transitions"@, None),
    {
        proof {
            reveal_strlit("/issue/");
        }
        let mut path = String::from_str("/issue/");
        path.append(id);
        path.append("/transitions");
        self.jira.get("api", path.as_str())
    }

    /// Reads what can be edited of an issue: `GET /issue/{id}/editmeta`.
    pub fn geteditmeta(&self, id: &str) -> (request: Request)
        ensures
            request@ == self.jira().plans(Method::Get, "api"@, "/issue/"@ + id@ + "/editmeta"@, None),
    {
        proof {
            reveal_strlit("/issue/");
        }
        let mut path = String::from_str("/issue/");
        path.append(id);
        path.append("/editmeta");
        self.jira.get("api", path.as_str())
    }

    /// Asks for a transition of an issue: `POST /issue/{id}/transitions` with the
    /// transition's id in the body. Nothing is sent for the comment.
    pub fn do_transition(&self, id: &str, comment: Option<String>, transition_id: &str) -> (request: Request)
        ensures
            request@ == self.jira().plans(
                Method::Post,
                "api"@,
                "/issue/"@ + id@ + "/transitions"@,
                Some(encode_utf8(json_wrapped("transition"@, json_single("id"@, transition_id@)))),
            ),
    {
        proof {
            reveal_strlit("/issue/");
        }
        let transition_request = DoTransitionRequest {
            transition: TransitionRequest { id: String::from_str(transition_id) },
        };
        let data = transition_request.to_json();
        let mut path = String::from_str("/issue/");
        path.append(id);
        path.append("/transitions");
        self.jira.post("api", path.as_str(), data.as_str())
    }

    /// What `do_transition` comes to. Without an answer it is a transport error with
    /// the reason given.
    pub fn do_transition_reply(sent: Result<Reply<()>, String>) -> (result: Result<(), Error>)
        ensures
            result == match sent {
                Ok(reply) => transition_outcome(reply),
                Err(reason) => Err(Error::Http(reason)),
            },
    {
        match sent {
            Err(reason) => Err(Error::Http(reason)),
            Ok(reply) => {
                if 400 <= reply.status && reply.status < 500 {
                    Jira::request(Ok(reply))
                } else {
                    Ok(())
                }
            },
        }
    }

    /// Replaces the fields of an issue: `PUT /issue/{id}`.
    pub fn update(&self, id: &str, data: &UpdateIssue) -> (request: Request)
        ensures
            request@ == self.jira().plans(
                Method::Put,
                "api"@,
                "/issue/"@ + id@,
                Some(encode_utf8(data.json())),
            ),
    {
        proof {
            reveal_strlit("/issue/");
        }
        let mut path = String::from_str("/issue/");
        path.append(id);
        self.jira.put("api", path.as_str(), data.to_json().as_str())
    }

    /// Creates an issue: `POST /issue`.
    pub fn create(&self, data: &CreateIssue) -> (request: Request)
        ensures
            request@ == self.jira().plans(Method::Post, "api"@, "/issue"@, Some(encode_utf8(data.json()))),
    {
        proof {
            reveal_strlit("/issue");
        }
        self.jira.post("api", "/issue", data.to_json().as_str())
    }

    /// Reads a single page of the issues of a board:
    /// `GET /board/{id}/issue?{query}` of the agile api, the options being the query.
    pub fn list(&self, board: &Board, options: &SearchOptions) -> (request: Request)
        ensures
            request@ == self.jira().plans(
                Method::Get,
                "agile"@,
                board_issues_path(board.id, form_query(options@)),
                None,
            ),
    {
        let query = match options.serialize() {
            Some(query) => query,
            None => String::new(),
        };
        let path = board_issues_endpoint(board.id, query.as_str());
        self.jira.get("agile", path.as_str())
    }
}

} // verus!
