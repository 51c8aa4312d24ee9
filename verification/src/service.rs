//! The summarization itself: one text in, one summary or one failure out.

use crate::error::{
    inference_failure, outcome_view, FailureKind, Outcome, ServiceError, ServiceErrorView,
};
use crate::handle::{ModelHandle, Phase};
use crate::reply::{preamble_of, reply_to, STATUS_BAD_REQUEST, STATUS_INTERNAL_ERROR, STATUS_OK};
use crate::settings::EngineSettings;
use vstd::prelude::*;
use vstd::string::*;

verus! {

/// What the engine hands back for a batch: one candidate summary for each
/// text, or the detail of its failure.
pub type EngineAnswer = Result<Vec<String>, String>;

/// The texts of a list of strings.
pub open spec fn texts_of(strings: Vec<String>) -> Seq<Seq<char>> {
    Seq::new(strings@.len(), |i: int| strings@[i]@)
}

/// What an engine's answer is, to the contracts.
pub open spec fn answer_view(answer: EngineAnswer) -> Result<Seq<Seq<char>>, Seq<char>> {
    match answer {
        Ok(candidates) => Ok(texts_of(candidates)),
        Err(detail) => Err(detail@),
    }
}

/// The detail of the failure reported when the engine answers a text with no
/// candidate at all.
pub open spec fn no_candidate() -> Seq<char> {
    "the engine returned no summary"@
}

/// The outcome that an engine's answer to a batch of one text amounts to: its
/// first candidate is the summary; its failure, or its want of a candidate,
/// is an inference failure.
pub open spec fn concluded(answer: Result<Seq<Seq<char>>, Seq<char>>) -> Result<
    Seq<char>,
    ServiceErrorView,
> {
    match answer {
        Ok(candidates) => if candidates.len() > 0 {
            Ok(candidates[0])
        } else {
            Err(inference_failure(no_candidate()))
        },
        Err(detail) => Err(inference_failure(detail)),
    }
}

/// Whether `batch` holds `text` and nothing else.
pub open spec fn is_batch_of(batch: Vec<String>, text: Seq<char>) -> bool {
    texts_of(batch) == seq![text]
}

/// Turns the engine's answer to a batch of one text into the outcome of the
/// request. Nothing is tried again: a failure is final.
pub fn conclude(answer: EngineAnswer) -> (outcome: Outcome)
    ensures
        outcome_view(outcome) == concluded(answer_view(answer)),
{
    match answer {
        Ok(candidates) => {
            if candidates.len() > 0 {
                Ok(candidates[0].clone())
            } else {
                Err(ServiceError::inference(String::from_str("the engine returned no summary")))
            }
        },
        Err(detail) => Err(ServiceError::inference(detail)),
    }
}

/// The batch that holds `text` alone.
pub fn batch_of(text: String) -> (batch: Vec<String>)
    ensures
        is_batch_of(batch, text@),
{
    let mut batch: Vec<String> = Vec::new();
    batch.push(text);
    assert(texts_of(batch) =~= seq![text@]);
    batch
}

/// Summarizes `text` on the engine of a handle that is ready. The engine is
/// borrowed for one call of `infer`, on the batch that holds `text` alone, and
/// the answer is concluded. The handle is left as it was found.
pub fn summarize<E, F>(handle: &mut ModelHandle<E>, text: String, infer: F) -> (outcome: Outcome)
    where F: FnOnce(&E, Vec<String>) -> EngineAnswer
    requires
        old(handle).phase() is Ready,
        forall|batch: Vec<String>|
            is_batch_of(batch, text@) ==> #[trigger] call_requires(
                infer,
                (&old(handle).engine(), batch),
            ),
    ensures
        final(handle).phase() == old(handle).phase(),
        final(handle).settings_spec() == old(handle).settings_spec(),
        exists|batch: Vec<String>, answer: EngineAnswer|
            is_batch_of(batch, text@) && #[trigger] call_ensures(
                infer,
                (&old(handle).engine(), batch),
                answer,
            ) && outcome_view(outcome) == concluded(answer_view(answer)),
{
    let batch = batch_of(text);
    let ghost sent = batch;
    let call = |engine: &E| -> (answer: EngineAnswer)
        requires
            call_requires(infer, (engine, batch)),
        ensures
            call_ensures(infer, (engine, sent), answer),
        {
            infer(engine, batch)
        };
    let answer = handle.with_engine(call);
    assert(call_ensures(infer, (&old(handle).engine(), sent), answer));
    conclude(answer)
}

/// How a request for a summary ended.
#[derive(Debug)]
pub enum Served {
    /// The engine was there, and the request has its outcome.
    Answered(Outcome),
    /// The engine could not be built. This is no failure of the request: the
    /// service as a whole cannot serve. Holds the detail of the failed build.
    Fatal(String),
}

/// What a `Served` is, to the contracts.
pub enum ServedView {
    Answered(Result<Seq<char>, ServiceErrorView>),
    Fatal(Seq<char>),
}

impl View for Served {
    type V = ServedView;

    open spec fn view(&self) -> ServedView {
        match self {
            Served::Answered(outcome) => ServedView::Answered(outcome_view(*outcome)),
            Served::Fatal(detail) => ServedView::Fatal(detail@),
        }
    }
}

/// Whether a request that finds the handle in phase `before` may come to use
/// `engine`: the handle holds it already, or `build` may yield it.
pub open spec fn may_use<E, B>(before: Phase<E>, settings: EngineSettings, build: B, engine: E) -> bool
    where B: FnOnce(&EngineSettings) -> Result<E, String>
{
    ||| before == Phase::Ready(engine)
    ||| before is Uninitialized && call_ensures(build, (&settings,), Ok::<E, String>(engine))
}

/// Serves one request from first to last: demands the engine, which builds it
/// if this is the first demand, and summarizes `text` on it. Where the build
/// failed, now or on an earlier demand, the request is not answered with a
/// failure of its own: the result is `Fatal`, with the build's detail, and the
/// engine's `infer` is never called.
pub fn serve<E, B, F>(
    handle: &mut ModelHandle<E>,
    text: String,
    build: B,
    infer: F,
) -> (served: Served)
    where
        B: FnOnce(&EngineSettings) -> Result<E, String>,
        F: FnOnce(&E, Vec<String>) -> EngineAnswer,
    requires
        old(handle).phase() is Uninitialized ==> call_requires(
            build,
            (&old(handle).settings_spec(),),
        ),
        forall|engine: E, batch: Vec<String>|
            may_use(old(handle).phase(), old(handle).settings_spec(), build, engine)
                && is_batch_of(batch, text@) ==> #[trigger] call_requires(infer, (&engine, batch)),
    ensures
        final(handle).settings_spec() == old(handle).settings_spec(),
        !(old(handle).phase() is Uninitialized) ==> final(handle).phase() == old(handle).phase(),
        old(handle).phase() is Uninitialized ==> exists|built: Result<E, String>|
            #[trigger] call_ensures(build, (&old(handle).settings_spec(),), built)
                && final(handle).phase() == Phase::settled(built),
        match final(handle).phase() {
            Phase::Uninitialized => false,
            Phase::Failed(detail) => served@ == ServedView::Fatal(detail),
            Phase::Ready(engine) => exists|batch: Vec<String>, answer: EngineAnswer|
                is_batch_of(batch, text@) && #[trigger] call_ensures(
                    infer,
                    (&engine, batch),
                    answer,
                ) && served@ == ServedView::Answered(concluded(answer_view(answer))),
        },
{
    handle.get_or_init(build);
    let failed = match handle.failure() {
        Some(detail) => Some(detail.clone()),
        None => None,
    };
    match failed {
        Some(detail) => Served::Fatal(detail),
        None => Served::Answered(summarize(handle, text, infer)),
    }
}

/// Classification: every failure is of exactly one kind, and the kind alone
/// decides the status. A failure of the engine is answered as the caller's
/// fault, a failure of the runtime as the service's own, and neither is ever
/// answered as a success.
pub proof fn lemma_failure_classified(err: ServiceErrorView)
    ensures
        err.kind == FailureKind::Inference <==> reply_to(Err(err)).status == STATUS_BAD_REQUEST,
        err.kind == FailureKind::Scheduling <==> reply_to(Err(err)).status
            == STATUS_INTERNAL_ERROR,
        reply_to(Err(err)).status != STATUS_OK,
        reply_to(Err(err)).body == preamble_of(err.kind) + err.detail,
{
}

/// Every answer of the engine is concluded to a summary or to an inference
/// failure, never to a scheduling failure: what the engine reports is never
/// laid at the runtime's door. A failing engine is answered with the status
/// of a bad request, and its detail is passed on.
pub proof fn lemma_engine_failure_is_callers(answer: Result<Seq<Seq<char>>, Seq<char>>)
    ensures
        concluded(answer) matches Err(err) ==> err.kind == FailureKind::Inference,
        answer matches Err(detail) ==> concluded(answer) == Err::<Seq<char>, ServiceErrorView>(
            inference_failure(detail),
        ) && reply_to(concluded(answer)).status == STATUS_BAD_REQUEST,
        concluded(answer) is Ok <==> (answer matches Ok(candidates) && candidates.len() > 0),
{
}

/// No memory of a failure: what a request is answered with depends on the
/// engine's answer to it and on nothing that went before. Two requests on
/// which the engine fails are classified alike, and where the engine fails
/// in the same way they are answered alike.
pub proof fn lemma_failure_repeats(
    first: Result<Seq<Seq<char>>, Seq<char>>,
    second: Result<Seq<Seq<char>>, Seq<char>>,
)
    requires
        first is Err,
        second is Err,
    ensures
        concluded(first) is Err,
        concluded(second) is Err,
        concluded(first)->Err_0.kind == concluded(second)->Err_0.kind,
        reply_to(concluded(first)).status == reply_to(concluded(second)).status,
        first == second ==> reply_to(concluded(first)) == reply_to(concluded(second)),
{
}

} // verus!
