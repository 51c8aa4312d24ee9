//! The two kinds of failure a summarization can end in.

use tokio::task::JoinError;
use vstd::prelude::*;

verus! {

/// tokio's account of a task that did not run to completion. Nothing inside
/// it is visible to the proofs.
#[verifier::external_type_specification]
#[verifier::external_body]
pub struct ExJoinError(tokio::task::JoinError);

/// Which of the two failure domains an error belongs to.
#[derive(Clone, Copy, Debug, PartialEq, Eq, Structural)]
pub enum FailureKind {
    /// The runtime could not carry the blocking work through: an internal
    /// fault, not the caller's.
    Scheduling,
    /// The engine rejected or failed on the input: attributed to the caller.
    Inference,
}

/// A failed summarization: its kind, and the detail to report.
#[derive(Debug)]
pub enum ServiceError {
    /// The blocking work was not completed by the runtime.
    Scheduling(String),
    /// The engine failed on the text it was given.
    Inference(String),
}

/// What a `ServiceError` is, to the contracts.
pub struct ServiceErrorView {
    pub kind: FailureKind,
    pub detail: Seq<char>,
}

impl View for ServiceError {
    type V = ServiceErrorView;

    open spec fn view(&self) -> ServiceErrorView {
        match self {
            ServiceError::Scheduling(d) => ServiceErrorView {
                kind: FailureKind::Scheduling,
                detail: d@,
            },
            ServiceError::Inference(d) => ServiceErrorView {
                kind: FailureKind::Inference,
                detail: d@,
            },
        }
    }
}

/// The view of a scheduling failure with the given detail.
pub open spec fn scheduling_failure(detail: Seq<char>) -> ServiceErrorView {
    ServiceErrorView { kind: FailureKind::Scheduling, detail }
}

/// The view of an inference failure with the given detail.
pub open spec fn inference_failure(detail: Seq<char>) -> ServiceErrorView {
    ServiceErrorView { kind: FailureKind::Inference, detail }
}

/// How a summarization ended: its summary, or its failure.
pub type Outcome = Result<String, ServiceError>;

/// What an outcome is, to the contracts.
pub open spec fn outcome_view(outcome: Outcome) -> Result<Seq<char>, ServiceErrorView> {
    match outcome {
        Ok(summary) => Ok(summary@),
        Err(err) => Err(err@),
    }
}

/// Whether `text` reads as the runtime's account of a task it could not
/// finish: it opens by saying that the task was cancelled, or that it
/// panicked. What follows names the task, and the panic where there was one.
pub open spec fn is_lost_task_report(text: Seq<char>) -> bool {
    "JoinError::Cancelled("@.is_prefix_of(text) || "JoinError::Panic("@.is_prefix_of(text)
}

/// The text that tokio writes for a `JoinError` when asked to show it for
/// debugging: the account of a lost task that goes out as the detail of a
/// scheduling failure. It is made of what the error holds and of nothing
/// else: the id of the task, how the task ended, and the message of its
/// panic where it has one.
pub uninterp spec fn lost_task_report(err: JoinError) -> Seq<char>;

/// Renders a `JoinError` through its `Debug` impl, `<JoinError as Debug>::fmt`.
/// Claimed of it: the text is the report of this error, and it opens with
/// `JoinError::Cancelled(` or with `JoinError::Panic(`, as each arm of that
/// impl writes it. What follows the opening is not written out here.
#[verifier::external_body]
fn join_error_text(err: &JoinError) -> (text: String)
    ensures
        text@ == lost_task_report(*err),
        is_lost_task_report(text@),
{
    format!("{:?}", err)
}

impl ServiceError {
    /// A scheduling failure with this detail.
    pub fn scheduling(detail: String) -> (e: ServiceError)
        ensures
            e@ == scheduling_failure(detail@),
    {
        ServiceError::Scheduling(detail)
    }

    /// An inference failure with this detail.
    pub fn inference(detail: String) -> (e: ServiceError)
        ensures
            e@ == inference_failure(detail@),
    {
        ServiceError::Inference(detail)
    }

    /// Every failure of the runtime to finish a task is a scheduling
    /// failure, whatever the task ended with. Its detail is the runtime's own
    /// account of that very task.
    pub fn from_join_error(err: JoinError) -> (e: ServiceError)
        ensures
            e@ == scheduling_failure(lost_task_report(err)),
            is_lost_task_report(e@.detail),
    {
        let text = join_error_text(&err);
        ServiceError::Scheduling(text)
    }

    /// The kind of this failure.
    pub fn kind(&self) -> (k: FailureKind)
        ensures
            k == self@.kind,
    {
        match self {
            ServiceError::Scheduling(_) => FailureKind::Scheduling,
            ServiceError::Inference(_) => FailureKind::Inference,
        }
    }

    /// The detail this failure carries.
    pub fn detail(&self) -> (d: &String)
        ensures
            d@ == self@.detail,
    {
        match self {
            ServiceError::Scheduling(d) => d,
            ServiceError::Inference(d) => d,
        }
    }
}

} // verus!
