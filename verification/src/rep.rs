//! Representations of what the api sends that belong to no single interface.

use crate::issues::{json_single, TransitionRequest};
use crate::json::{json_member, json_object, member, object};
use crate::text::texts;
use std::collections::BTreeMap;
use vstd::prelude::*;
use vstd::string::*;

verus! {

/// A JSON value that the library hands on as it came.
#[verifier::external_type_specification]
#[verifier::external_body]
pub struct ExJsonValue(serde_json::Value);

/// The body of an answer that has nothing to say.
#[derive(Debug)]
pub struct EmptyResponse;

/// An issue. `self_link` is `self` on the wire; `fields` holds whatever the server
/// sent under each field's name.
#[derive(Debug)]
pub struct Issue {
    pub self_link: String,
    pub key: String,
    pub id: String,
    pub fields: BTreeMap<String, serde_json::Value>,
}

/// A board of the agile api. `self_link` is `self` on the wire, `kind` is `type`.
#[derive(Debug)]
pub struct Board {
    pub self_link: String,
    pub id: u64,
    pub name: String,
    pub kind: String,
}

/// The status that a transition leads to.
#[derive(Debug)]
pub struct TransitionTo {
    pub name: String,
    pub id: String,
}

/// A transition that is open to an issue.
#[derive(Debug)]
pub struct TransitionOption {
    pub id: String,
    pub name: String,
    pub to: TransitionTo,
}

/// The transitions that are open to an issue, as the server wraps them.
#[derive(Debug)]
pub struct TransitionOptions {
    pub transitions: Vec<TransitionOption>,
}

/// What to send to trigger a transition: the transition, and the resolution to set
/// with it where one is wanted.
#[derive(Debug)]
pub struct TransitionTriggerOptions {
    pub transition: TransitionRequest,
    pub resolution: Option<String>,
}

impl TransitionTriggerOptions {
    /// Options for the transition with this id, with no resolution.
    pub fn new(id: &str) -> (options: TransitionTriggerOptions)
        ensures
            options.transition.id@ == id@,
            options.resolution is None,
    {
        TransitionTriggerOptions { transition: TransitionRequest { id: String::from_str(id) }, resolution: None }
    }

    /// The same options with the resolution of this name.
    pub fn resolution(self, name: &str) -> (options: TransitionTriggerOptions)
        ensures
            options.transition == self.transition,
            options.resolution matches Some(r) && r@ == name@,
    {
        TransitionTriggerOptions { transition: self.transition, resolution: Some(String::from_str(name)) }
    }

    /// The members of `fields`: the resolution by its name, or nothing.
    pub open spec fn fields_json(&self) -> Seq<char> {
        match self.resolution {
            Some(name) => json_object(seq![json_member("resolution"@, json_single("name"@, name@))]),
            None => json_object(Seq::empty()),
        }
    }

    /// `{"transition":{"id":..},"fields":{..}}`
    pub open spec fn json(&self) -> Seq<char> {
        json_object(
            seq![
                json_member("transition"@, self.transition.json()),
                json_member("fields"@, self.fields_json()),
            ],
        )
    }

    pub fn to_json(&self) -> (text: String)
        ensures
            text@ == self.json(),
    {
        let mut inner: Vec<String> = Vec::new();
        match &self.resolution {
            Some(name) => {
                let mut named: Vec<String> = Vec::new();
                named.push(crate::json::text_member("name", name.as_str()));
                assert(texts(named@) =~= seq![crate::json::json_text_member("name"@, name@)]);
                inner.push(member("resolution", object(&named).as_str()));
                assert(texts(inner@) =~= seq![json_member("resolution"@, json_single("name"@, name@))]);
            },
            None => {
                assert(texts(inner@) =~= Seq::empty());
            },
        }
        let fields = object(&inner);
        let mut members: Vec<String> = Vec::new();
        members.push(member("transition", self.transition.to_json().as_str()));
        members.push(member("fields", fields.as_str()));
        assert(texts(members@) =~= seq![
            json_member("transition"@, self.transition.json()),
            json_member("fields"@, self.fields_json()),
        ]);
        object(&members)
    }
}

} // verus!
