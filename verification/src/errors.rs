//! The error taxonomy surfaced to callers of the request pipeline.

use vstd::prelude::*;

use crate::json::{render_u64, spec_dec_text};

verus! {

/// Mathematical form of a [`TasksError`], used in contracts.
pub enum TasksErrorView {
    TransportError(Seq<char>),
    CredentialError(Seq<char>),
    DecodeError(Seq<char>, Seq<char>),
    RemoteRejected(u16, Seq<char>),
    InvalidArgument(Seq<char>),
}

/// An error produced while issuing a request or reading its response.
///
/// Every error is returned to the immediate caller; nothing is retried or
/// swallowed inside this layer.
#[derive(Debug, Clone)]
pub enum TasksError {
    /// The transport failed at the connection level; carries its diagnostic.
    TransportError(String),
    /// The credential supplier failed; the request never reached the
    /// transport. Carries the supplier's diagnostic.
    CredentialError(String),
    /// A success response carried a body that could not be decoded; carries
    /// the raw body text and a decode diagnostic.
    DecodeError(String, String),
    /// The remote rejected the request: the status code and the verbatim
    /// response body text.
    RemoteRejected(u16, String),
    /// A caller-supplied precondition was violated; nothing was sent.
    InvalidArgument(String),
}

impl View for TasksError {
    type V = TasksErrorView;

    open spec fn view(&self) -> TasksErrorView {
        match self {
            TasksError::TransportError(m) => TasksErrorView::TransportError(m@),
            TasksError::CredentialError(m) => TasksErrorView::CredentialError(m@),
            TasksError::DecodeError(b, m) => TasksErrorView::DecodeError(b@, m@),
            TasksError::RemoteRejected(s, b) => TasksErrorView::RemoteRejected(*s, b@),
            TasksError::InvalidArgument(m) => TasksErrorView::InvalidArgument(m@),
        }
    }
}

/// The human-readable description of an error.
pub open spec fn spec_error_message(e: TasksErrorView) -> Seq<char> {
    match e {
        TasksErrorView::TransportError(m) => "transport error: "@ + m,
        TasksErrorView::CredentialError(m) => "credential error: "@ + m,
        TasksErrorView::DecodeError(_, d) => "decode error: "@ + d,
        TasksErrorView::RemoteRejected(status, body) => "remote rejected: status "@ + spec_dec_text(
            status as int,
        ) + ", "@ + body,
        TasksErrorView::InvalidArgument(m) => "invalid argument: "@ + m,
    }
}

impl TasksError {
    /// Describes the error for a reader, as [`spec_error_message`] says.
    pub fn message(&self) -> (r: String)
        ensures
            r@ == spec_error_message(self@),
    {
        match self {
            TasksError::TransportError(m) => String::from_str("transport error: ").concat(
                m.as_str(),
            ),
            TasksError::CredentialError(m) => String::from_str("credential error: ").concat(
                m.as_str(),
            ),
            TasksError::DecodeError(_, d) => String::from_str("decode error: ").concat(d.as_str()),
            TasksError::RemoteRejected(status, body) => String::from_str(
                "remote rejected: status ",
            ).concat(render_u64(*status as u64).as_str()).concat(", ").concat(body.as_str()),
            TasksError::InvalidArgument(m) => String::from_str("invalid argument: ").concat(
                m.as_str(),
            ),
        }
    }
}

} // verus!
