//! What is sent back for a request: a status and a plain-text body.

use crate::error::{outcome_view, FailureKind, Outcome, ServiceErrorView};
use vstd::prelude::*;
use vstd::string::*;

verus! {

/// The status of a request that was served.
pub const STATUS_OK: u16 = 200;

/// The status of a failure attributed to the caller.
pub const STATUS_BAD_REQUEST: u16 = 400;

/// The status of a failure inside the service.
pub const STATUS_INTERNAL_ERROR: u16 = 500;

/// A response, before it is handed to the transport.
#[derive(Debug)]
pub struct Reply {
    /// The HTTP status code.
    pub status: u16,
    /// The plain-text body.
    pub body: String,
}

/// What a `Reply` is, to the contracts.
pub struct ReplyView {
    pub status: u16,
    pub body: Seq<char>,
}

impl View for Reply {
    type V = ReplyView;

    open spec fn view(&self) -> ReplyView {
        ReplyView { status: self.status, body: self.body@ }
    }
}

/// The status that a failure of this kind is answered with: the engine's
/// failures are laid at the caller's door, the runtime's are not.
pub open spec fn status_of(kind: FailureKind) -> u16 {
    match kind {
        FailureKind::Scheduling => STATUS_INTERNAL_ERROR,
        FailureKind::Inference => STATUS_BAD_REQUEST,
    }
}

/// The words that open the body of a failure of this kind.
pub open spec fn preamble_of(kind: FailureKind) -> Seq<char> {
    match kind {
        FailureKind::Scheduling => "error while asyncing some awaits: "@,
        FailureKind::Inference => "error summarizing text: "@,
    }
}

/// The reply that an outcome is answered with.
pub open spec fn reply_to(outcome: Result<Seq<char>, ServiceErrorView>) -> ReplyView {
    match outcome {
        Ok(summary) => ReplyView { status: STATUS_OK, body: summary },
        Err(err) => ReplyView {
            status: status_of(err.kind),
            body: preamble_of(err.kind) + err.detail,
        },
    }
}

/// The sentence that the help page shows.
pub open spec fn help_sentence() -> Seq<char> {
    "make a POST request to /summarize endpoint with text body to get the summarized content."@
}

/// The help page, as HTML.
pub open spec fn help_page_spec() -> Seq<char> {
    "<html><body><p>"@ + help_sentence() + "</p></body></html>"@
}

/// The status for a failure of this kind.
pub fn status_for(kind: FailureKind) -> (status: u16)
    ensures
        status == status_of(kind),
{
    match kind {
        FailureKind::Scheduling => STATUS_INTERNAL_ERROR,
        FailureKind::Inference => STATUS_BAD_REQUEST,
    }
}

/// Answers an outcome: a summary goes out as it is, with the status of
/// success; a failure goes out as its kind's preamble followed by its detail,
/// with its kind's status.
pub fn respond(outcome: Outcome) -> (reply: Reply)
    ensures
        reply@ == reply_to(outcome_view(outcome)),
{
    match outcome {
        Ok(summary) => Reply { status: STATUS_OK, body: summary },
        Err(err) => {
            let kind = err.kind();
            let preamble = match kind {
                FailureKind::Scheduling => "error while asyncing some awaits: ",
                FailureKind::Inference => "error summarizing text: ",
            };
            let body = String::from_str(preamble).concat(err.detail().as_str());
            Reply { status: status_for(kind), body }
        },
    }
}

/// The help page: what a reader of `/help` is shown.
pub fn help_page() -> (page: String)
    ensures
        page@ == help_page_spec(),
{
    let sentence =
        "make a POST request to /summarize endpoint with text body to get the summarized content.";
    String::from_str("<html><body><p>").concat(sentence).concat("</p></body></html>")
}

/// The reply to a request for help.
pub fn help() -> (reply: Reply)
    ensures
        reply@ == (ReplyView { status: STATUS_OK, body: help_page_spec() }),
{
    Reply { status: STATUS_OK, body: help_page() }
}

} // verus!
