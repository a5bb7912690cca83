//! Interface for searching issues.

use crate::builder::SearchOptions;
use crate::text::{form_append, form_extend, form_query};
use crate::transport::{Jira, Method, Request};
use vstd::prelude::*;
use vstd::string::*;

verus! {

/// The search interface.
#[derive(Debug)]
pub struct Search {
    jira: Jira,
}

/// The path of a search, with a query behind it.
pub open spec fn search_path(query: Seq<char>) -> Seq<char> {
    "/search"@ + "?"@ + query
}

/// The query of a search: the options, and the search query after them under the name
/// `jql`.
pub open spec fn search_query(jql: Seq<char>, options: Seq<(Seq<char>, Seq<char>)>) -> Seq<char> {
    form_append(form_query(options), "jql"@, jql)
}

/// Writes the path of a search: `/search?{query}`.
pub fn search_endpoint(query: &str) -> (path: String)
    ensures
        path@ == search_path(query@),
        path@.len() > 0,
        path@[0] == '/',
{
    proof {
        reveal_strlit("/search");
    }
    let mut path = String::from_str("/search");
    path.append("?");
    path.append(query);
    path
}

impl Search {
    /// The client that this interface sends through.
    pub closed spec fn jira(&self) -> Jira {
        self.jira
    }

    pub fn new(jira: &Jira) -> (search: Search)
        ensures
            search.jira().same_as(jira),
    {
        Search { jira: jira.clone() }
    }

    /// Reads a single page of the issues that a query finds: `POST /search?{query}`,
    /// with no body.
    pub fn list(&self, jql: &str, options: &SearchOptions) -> (request: Request)
        ensures
            request@ == self.jira().plans(
                Method::Post,
                "api"@,
                search_path(search_query(jql@, options@)),
                None,
            ),
    {
        let query_options = match options.serialize() {
            Some(query) => query,
            None => String::new(),
        };
        let query = form_extend(query_options, "jql", jql);
        let path = search_endpoint(query.as_str());
        self.jira.execute(Method::Post, "api", path.as_str(), None)
    }
}

} // verus!
