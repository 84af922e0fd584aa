//! The failures that the client and the dispatch layer report.

use crate::status::{status_line, status_line_text};
use vstd::prelude::*;
use vstd::string::*;

verus! {

/// The classes of failure.
#[derive(Debug, Clone, Copy, PartialEq, Eq, Structural)]
pub enum FailureKind {
    Transport,
    Protocol,
    Upstream,
    MissingData,
    Parameter,
    UnknownMethod,
}

/// Why an operation did not give a result.
#[derive(Debug, Clone)]
pub enum Failure {
    /// The upstream answered with a status outside the success class.
    /// `detail` holds the raw body.
    Transport { status: u16, detail: String },
    /// No answer could be had: the request could not be sent, no response
    /// came in time, or the text of the response could not be read.
    /// `context` says which, `cause` holds the reason that the transport
    /// gave.
    Connection { context: String, cause: String },
    /// The body is not a response envelope of the expected shape. `raw`
    /// holds the start of the body.
    Protocol { detail: String, raw: String },
    /// The upstream reported errors and sent no data. `messages` holds the
    /// error messages in their order, separated by a comma and a space.
    Upstream { messages: String },
    /// The upstream sent neither data nor errors.
    MissingData,
    /// A parameter is missing or has a value that is not accepted. `name`
    /// is the parameter, `detail` the full message.
    Parameter { name: String, detail: String },
    /// The method name is not one that the service knows.
    UnknownMethod { method: String },
}

/// The fields of a failure as mathematical values.
pub enum FailureView {
    Transport { status: u16, detail: Seq<char> },
    Connection { context: Seq<char>, cause: Seq<char> },
    Protocol { detail: Seq<char>, raw: Seq<char> },
    Upstream { messages: Seq<char> },
    MissingData,
    Parameter { name: Seq<char>, detail: Seq<char> },
    UnknownMethod { method: Seq<char> },
}

impl View for Failure {
    type V = FailureView;

    open spec fn view(&self) -> FailureView {
        match self {
            Failure::Transport { status, detail } => FailureView::Transport {
                status: *status,
                detail: detail@,
            },
            Failure::Connection { context, cause } => FailureView::Connection {
                context: context@,
                cause: cause@,
            },
            Failure::Protocol { detail, raw } => FailureView::Protocol {
                detail: detail@,
                raw: raw@,
            },
            Failure::Upstream { messages } => FailureView::Upstream { messages: messages@ },
            Failure::MissingData => FailureView::MissingData,
            Failure::Parameter { name, detail } => FailureView::Parameter {
                name: name@,
                detail: detail@,
            },
            Failure::UnknownMethod { method } => FailureView::UnknownMethod { method: method@ },
        }
    }
}

impl DeepView for Failure {
    type V = FailureView;

    open spec fn deep_view(&self) -> FailureView {
        self@
    }
}

impl FailureView {
    /// The class of the failure. A failing status and a missing answer are
    /// both failures of the transport.
    pub open spec fn kind(self) -> FailureKind {
        match self {
            FailureView::Transport { .. } => FailureKind::Transport,
            FailureView::Connection { .. } => FailureKind::Transport,
            FailureView::Protocol { .. } => FailureKind::Protocol,
            FailureView::Upstream { .. } => FailureKind::Upstream,
            FailureView::MissingData => FailureKind::MissingData,
            FailureView::Parameter { .. } => FailureKind::Parameter,
            FailureView::UnknownMethod { .. } => FailureKind::UnknownMethod,
        }
    }

    /// The message shown to a person. For reported errors it is the list
    /// of their messages and nothing else; for a missing answer it is the
    /// context, without the cause.
    pub open spec fn message(self) -> Seq<char> {
        match self {
            FailureView::Transport { status, detail } => "GraphQL request failed: "@ + status_line(
                status,
            ) + " - "@ + detail,
            FailureView::Connection { context, cause } => context,
            FailureView::Protocol { detail, raw } => "JSON parse error: "@ + detail + " | Raw: "@
                + raw,
            FailureView::Upstream { messages } => messages,
            FailureView::MissingData => "GraphQL response missing data field"@,
            FailureView::Parameter { name, detail } => detail,
            FailureView::UnknownMethod { method } => "Unknown method: "@ + method,
        }
    }
}

impl Failure {
    /// The class of the failure.
    pub fn kind(&self) -> (k: FailureKind)
        ensures
            k == self@.kind(),
    {
        match self {
            Failure::Transport { .. } => FailureKind::Transport,
            Failure::Connection { .. } => FailureKind::Transport,
            Failure::Protocol { .. } => FailureKind::Protocol,
            Failure::Upstream { .. } => FailureKind::Upstream,
            Failure::MissingData => FailureKind::MissingData,
            Failure::Parameter { .. } => FailureKind::Parameter,
            Failure::UnknownMethod { .. } => FailureKind::UnknownMethod,
        }
    }

    /// The message shown to a person.
    pub fn message(&self) -> (text: String)
        ensures
            text@ == self@.message(),
    {
        match self {
            Failure::Transport { status, detail } => {
                let mut text = String::from_str("GraphQL request failed: ");
                text.append(status_line_text(*status).as_str());
                text.append(" - ");
                text.append(detail.as_str());
                text
            },
            Failure::Connection { context, cause } => context.clone(),
            Failure::Protocol { detail, raw } => {
                let mut text = String::from_str("JSON parse error: ");
                text.append(detail.as_str());
                text.append(" | Raw: ");
                text.append(raw.as_str());
                text
            },
            Failure::Upstream { messages } => messages.clone(),
            Failure::MissingData => String::from_str("GraphQL response missing data field"),
            Failure::Parameter { name, detail } => detail.clone(),
            Failure::UnknownMethod { method } => {
                let mut text = String::from_str("Unknown method: ");
                text.append(method.as_str());
                text
            },
        }
    }
}

} // verus!
