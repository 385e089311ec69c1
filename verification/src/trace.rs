//! Whole fetches, as a function of what the provider does call after call.
//!
//! A script lists the outcomes of successive provider calls. Replaying one
//! through the client runs the retry rule exactly as a live transport would,
//! with no network involved.

use crate::error::UpstreamError;
use crate::snapshot::{ProviderResponse, ResponseModel};
use crate::upstream::{
    fetched_model, is_transient, settled, Attempt, AttemptModel, FetchStep, UpstreamClient,
};
use vstd::prelude::*;

verus! {

/// The mathematical content of a script.
pub open spec fn script_model(script: Seq<Attempt>) -> Seq<AttemptModel> {
    script.map_values(|attempt: Attempt| attempt@)
}

/// How many transient failures a script opens with.
pub open spec fn leading_transients(script: Seq<AttemptModel>) -> nat
    decreases script.len(),
{
    if script.len() > 0 && is_transient(script[0]) {
        1 + leading_transients(script.drop_first())
    } else {
        0
    }
}

/// How a fetch ends when the provider follows `script` and the client may
/// retry `max_retries` times. With `k` leading transient failures, the fetch
/// reaches call number `k` only if `k <= max_retries`, and that call settles
/// it. Otherwise every call it makes fails transiently, and so does every
/// call past the end of the script, which goes unanswered: `Unavailable`.
pub open spec fn fetch_outcome(max_retries: nat, script: Seq<AttemptModel>) -> Result<
    ResponseModel,
    UpstreamError,
> {
    let k = leading_transients(script);
    if k <= max_retries && k < script.len() {
        settled(script[k as int])
    } else {
        Err(UpstreamError::Unavailable)
    }
}

/// How many provider calls that fetch makes: one more than the transient
/// failures it sits through, which are at most `max_retries`.
pub open spec fn calls_made(max_retries: nat, script: Seq<AttemptModel>) -> nat {
    let k = leading_transients(script);
    if k <= max_retries && k < script.len() {
        k + 1
    } else {
        max_retries + 1
    }
}

/// `leading_transients` is the index of the first entry that is not a
/// transient failure, or the script's length where there is none.
pub proof fn lemma_leading_transients(script: Seq<AttemptModel>, k: nat)
    requires
        k <= script.len(),
        forall|j: int| 0 <= j < k ==> is_transient(#[trigger] script[j]),
    ensures
        leading_transients(script) >= k,
        k == script.len() || !is_transient(script[k as int]) ==> leading_transients(script) == k,
    decreases k,
{
    if k > 0 {
        let rest = script.drop_first();
        assert forall|j: int| 0 <= j < k - 1 implies is_transient(#[trigger] rest[j]) by {
            assert(rest[j] == script[j + 1]);
        }
        lemma_leading_transients(rest, (k - 1) as nat);
        if k < script.len() {
            assert(rest[k - 1] == script[k as int]);
        }
    }
}

/// How a replayed fetch ended, and how many provider calls it took.
#[derive(Debug, PartialEq, Eq)]
pub struct FetchReport {
    /// The data, or why there is none.
    pub result: Result<ProviderResponse, UpstreamError>,
    /// Provider calls made, the first one included.
    pub calls: u64,
}

impl UpstreamClient {
    /// Runs one fetch against a provider that follows `script`: the outcome
    /// of call number `i` is `script[i]`, and calls past the end of the
    /// script go unanswered. The result is [`fetch_outcome`] and the number
    /// of calls is [`calls_made`], under this client's retry limit.
    pub fn fetch(&self, script: Vec<Attempt>) -> (report: FetchReport)
        ensures
            fetched_model(report.result) == fetch_outcome(
                self@.max_retries as nat,
                script_model(script@),
            ),
            report.calls == calls_made(self@.max_retries as nat, script_model(script@)),
    {
        let ghost plan = script_model(script@);
        let mut sent = self.first_request();
        for attempt in it: script
            invariant
                plan == script_model(it.seq()),
                sent.attempt == it.index(),
                sent.attempt <= self@.max_retries,
                forall|j: int| 0 <= j < it.index() ==> is_transient(#[trigger] plan[j]),
        {
            proof {
                assert(plan[it.index() as int] == attempt@);
                lemma_leading_transients(plan, it.index() as nat);
            }
            match self.after(sent, attempt) {
                FetchStep::Send(next) => {
                    sent = next;
                },
                FetchStep::Done(result) => {
                    return FetchReport { result, calls: sent.attempt as u64 + 1 };
                },
            }
        }
        proof {
            lemma_leading_transients(plan, plan.len());
        }
        FetchReport {
            result: Err(UpstreamError::Unavailable),
            calls: self.config().max_retries as u64 + 1,
        }
    }
}

/// The retry bound. Against a provider that fails transiently exactly
/// `failures` times and then delivers `response`, a fetch succeeds if and only
/// if `failures` is at most the retry limit. When it succeeds it returns
/// `response` after `failures + 1` calls; otherwise it ends as `Unavailable`
/// after `max_retries + 1` calls.
pub proof fn lemma_retry_bound(
    max_retries: nat,
    script: Seq<AttemptModel>,
    failures: nat,
    response: ResponseModel,
)
    requires
        failures < script.len(),
        forall|j: int| 0 <= j < failures ==> is_transient(#[trigger] script[j]),
        script[failures as int] == AttemptModel::Delivered(response),
    ensures
        fetch_outcome(max_retries, script) is Ok <==> failures <= max_retries,
        failures <= max_retries ==> fetch_outcome(max_retries, script) == Ok::<
            ResponseModel,
            UpstreamError,
        >(response) && calls_made(max_retries, script) == failures + 1,
        failures > max_retries ==> fetch_outcome(max_retries, script) == Err::<
            ResponseModel,
            UpstreamError,
        >(UpstreamError::Unavailable) && calls_made(max_retries, script) == max_retries + 1,
{
    lemma_leading_transients(script, failures);
}

/// A fetch never makes more than `max_retries + 1` calls, and always makes
/// at least one.
pub proof fn lemma_calls_bounded(max_retries: nat, script: Seq<AttemptModel>)
    ensures
        1 <= calls_made(max_retries, script) <= max_retries + 1,
{
}

} // verus!
