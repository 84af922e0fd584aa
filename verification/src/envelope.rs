//! The response envelope: reading it from a JSON document, and the rule
//! that turns it into data or a failure.

use crate::failure::{Failure, FailureView};
use crate::fields::{read_present, read_text};
use crate::json::{json_view, json_views, member, Json};
use crate::models::{GraphQLError, GraphQLErrorView, GraphQLResponse};
use crate::text::joined;
use serde_json::Value;
use vstd::prelude::*;
use vstd::string::*;

verus! {

/// A response envelope as a mathematical value.
pub struct EnvelopeView {
    pub data: Option<Json>,
    pub errors: Option<Seq<GraphQLErrorView>>,
}

impl View for GraphQLResponse<Value> {
    type V = EnvelopeView;

    open spec fn view(&self) -> EnvelopeView {
        EnvelopeView {
            data: match self.data {
                Some(d) => Some(json_view(d)),
                None => None,
            },
            errors: self.errors.deep_view(),
        }
    }
}

impl GraphQLErrorView {
    /// The error that an element of the `errors` list stands for: an
    /// object with a string `message` and, where it is there and not null,
    /// a `path` that is an array. Nothing for any other document.
    pub open spec fn from_node(node: Json) -> Option<GraphQLErrorView> {
        match node.text("message"@) {
            Some(message) => match node.member("path"@) {
                None => Some(GraphQLErrorView { message, path: None }),
                Some(Json::Null) => Some(GraphQLErrorView { message, path: None }),
                Some(Json::Array(items)) => Some(GraphQLErrorView { message, path: Some(items) }),
                _ => None,
            },
            None => None,
        }
    }
}

/// The errors that a list of documents stands for, in order; nothing where
/// one of them is no error.
pub open spec fn errors_of(nodes: Seq<Json>) -> Option<Seq<GraphQLErrorView>> {
    if forall|i: int|
        0 <= i < nodes.len() ==> GraphQLErrorView::from_node(#[trigger] nodes[i]) is Some {
        Some(nodes.map_values(|n: Json| GraphQLErrorView::from_node(n).unwrap()))
    } else {
        None
    }
}

/// The messages of a list of errors, in order.
pub open spec fn messages_of(errors: Seq<GraphQLErrorView>) -> Seq<Seq<char>> {
    errors.map_values(|e: GraphQLErrorView| e.message)
}

/// The failure that stands for a response without data: the reported
/// errors where there are any, a missing-data failure where there are none.
pub open spec fn absent_data(errors: Option<Seq<GraphQLErrorView>>) -> FailureView {
    match errors {
        Some(list) => if list.len() > 0 {
            FailureView::Upstream { messages: joined(messages_of(list), ", "@) }
        } else {
            FailureView::MissingData
        },
        None => FailureView::MissingData,
    }
}

impl EnvelopeView {
    /// The envelope that a document stands for: an object whose `data` may
    /// be absent or null and whose `errors`, where it is there and not
    /// null, is a list of errors. Nothing for any other document.
    pub open spec fn from_json(doc: Json) -> Option<EnvelopeView> {
        if doc is Object {
            match doc.member("errors"@) {
                None => Some(EnvelopeView { data: doc.present("data"@), errors: None }),
                Some(Json::Null) => Some(EnvelopeView { data: doc.present("data"@), errors: None }),
                Some(Json::Array(nodes)) => match errors_of(nodes) {
                    Some(errors) => Some(
                        EnvelopeView { data: doc.present("data"@), errors: Some(errors) },
                    ),
                    None => None,
                },
                _ => None,
            }
        } else {
            None
        }
    }

    /// The partial-result rule: data that is there is the result, whatever
    /// errors came with it.
    pub open spec fn outcome(self) -> Result<Json, FailureView> {
        match self.data {
            Some(d) => Ok(d),
            None => Err(absent_data(self.errors)),
        }
    }
}

fn copy_values(items: &Vec<Value>) -> (out: Vec<Value>)
    ensures
        json_views(out@) == json_views(items@),
{
    let mut out: Vec<Value> = Vec::new();
    let mut i: usize = 0;
    while i < items.len()
        invariant
            i <= items.len(),
            out.len() == i,
            forall|k: int| 0 <= k < i ==> json_view(#[trigger] out@[k]) == json_view(items@[k]),
        decreases items.len() - i,
    {
        out.push(items[i].clone());
        i += 1;
    }
    assert(json_views(out@) =~= json_views(items@));
    out
}

impl GraphQLError {
    /// Reads one element of the `errors` list.
    pub fn from_node(node: &Value) -> (r: Option<GraphQLError>)
        ensures
            r.deep_view() == GraphQLErrorView::from_node(json_view(*node)),
    {
        let message = match read_text(node, "message") {
            Some(m) => m,
            None => {
                return None;
            },
        };
        match member(node, "path") {
            None => Some(GraphQLError { message, path: None }),
            Some(p) => {
                if p.is_null() {
                    Some(GraphQLError { message, path: None })
                } else {
                    match p.as_array() {
                        Some(items) => Some(
                            GraphQLError { message, path: Some(copy_values(items)) },
                        ),
                        None => None,
                    }
                }
            },
        }
    }
}

fn read_errors(nodes: &Vec<Value>) -> (r: Option<Vec<GraphQLError>>)
    ensures
        r.deep_view() == errors_of(json_views(nodes@)),
{
    let mut out: Vec<GraphQLError> = Vec::new();
    let mut i: usize = 0;
    while i < nodes.len()
        invariant
            i <= nodes.len(),
            out.len() == i,
            forall|k: int|
                0 <= k < i ==> GraphQLErrorView::from_node(json_view(nodes@[k])) == Some(
                    #[trigger] out@[k]@,
                ),
        decreases nodes.len() - i,
    {
        match GraphQLError::from_node(&nodes[i]) {
            Some(e) => {
                out.push(e);
            },
            None => {
                assert(GraphQLErrorView::from_node(json_views(nodes@)[i as int]) is None);
                return None;
            },
        }
        i += 1;
    }
    proof {
        let views = json_views(nodes@);
        assert forall|k: int| 0 <= k < views.len() implies GraphQLErrorView::from_node(
            #[trigger] views[k],
        ) is Some by {
            assert(views[k] == json_view(nodes@[k]));
            assert(GraphQLErrorView::from_node(views[k]) == Some(out@[k]@));
        }
        assert(out.deep_view() =~= errors_of(views).unwrap());
    }
    Some(out)
}

/// Writes the messages of the errors one after another, with a comma and a
/// space between them.
pub fn join_messages(errors: &Vec<GraphQLError>) -> (text: String)
    ensures
        text@ == joined(messages_of(errors.deep_view()), ", "@),
{
    let ghost parts = messages_of(errors.deep_view());
    let mut text = String::new();
    let mut i: usize = 0;
    while i < errors.len()
        invariant
            i <= errors.len(),
            parts == messages_of(errors.deep_view()),
            parts.len() == errors.len(),
            text@ == joined(parts.take(i as int), ", "@),
        decreases errors.len() - i,
    {
        if i > 0 {
            text.append(", ");
        }
        text.append(errors[i].message.as_str());
        proof {
            let next = parts.take(i + 1);
            assert(next.drop_last() =~= parts.take(i as int));
            assert(next.last() == errors@[i as int].message@);
            if i == 0 {
                assert(text@ =~= next[0]);
            }
        }
        i += 1;
    }
    assert(parts.take(errors.len() as int) =~= parts);
    text
}

impl GraphQLResponse<Value> {
    /// Reads the envelope from the document of a response body.
    pub fn from_json(doc: &Value) -> (r: Option<GraphQLResponse<Value>>)
        ensures
            match r {
                Some(envelope) => EnvelopeView::from_json(json_view(*doc)) == Some(envelope@),
                None => EnvelopeView::from_json(json_view(*doc)) is None,
            },
    {
        if !doc.is_object() {
            return None;
        }
        let errors = match member(doc, "errors") {
            None => None,
            Some(e) => {
                if e.is_null() {
                    None
                } else {
                    match e.as_array() {
                        Some(nodes) => match read_errors(nodes) {
                            Some(list) => Some(list),
                            None => {
                                return None;
                            },
                        },
                        None => {
                            return None;
                        },
                    }
                }
            },
        };
        let data = match read_present(doc, "data") {
            Some(d) => Some(d.clone()),
            None => None,
        };
        Some(GraphQLResponse { data, errors })
    }
}

impl<T> GraphQLResponse<T> {
    /// Applies the partial-result rule: data that is there is returned,
    /// whatever errors came with it. Without data, the reported errors make
    /// an upstream failure; without errors either, the data is missing.
    pub fn into_result(self) -> (r: Result<T, Failure>)
        ensures
            match self.data {
                Some(d) => r == Ok::<T, Failure>(d),
                None => r matches Err(f) && f@ == absent_data(self.errors.deep_view()),
            },
    {
        match self.data {
            Some(d) => Ok(d),
            None => {
                match self.errors {
                    Some(list) => {
                        if list.len() > 0 {
                            Err(Failure::Upstream { messages: join_messages(&list) })
                        } else {
                            Err(Failure::MissingData)
                        }
                    },
                    None => Err(Failure::MissingData),
                }
            },
        }
    }
}

} // verus!
