//! The wallet resolver: validate the address, fetch through the upstream
//! client, and turn what comes back into a snapshot or a typed error.
//!
//! The resolver adds no retries of its own and never invents data.

use crate::address::{valid_address, Address};
use crate::error::{surfaced, ResolveError, UpstreamError};
use crate::snapshot::{snapshot_of, ProviderResponse, ResponseModel, SnapshotModel, WalletSnapshot};
use crate::trace::{calls_made, fetch_outcome, lemma_leading_transients, script_model};
use crate::upstream::{
    fetched_model, is_transient, next_step, request_for, Attempt, AttemptModel, FetchStep,
    FetchStepModel, Request, UpstreamClient, UpstreamConfig,
};
use vstd::prelude::*;

verus! {

/// The view of a resolution result.
pub open spec fn resolved_model(resolved: Result<WalletSnapshot, ResolveError>) -> Result<
    SnapshotModel,
    ResolveError,
> {
    match resolved {
        Ok(snapshot) => Ok(snapshot@),
        Err(error) => Err(error),
    }
}

/// What a finished fetch means for `address`: data becomes the snapshot of
/// the address with balance and transactions untouched, and each upstream
/// error surfaces as its counterpart.
pub open spec fn concluded(
    address: Seq<char>,
    fetched: Result<ResponseModel, UpstreamError>,
) -> Result<SnapshotModel, ResolveError> {
    match fetched {
        Ok(response) => Ok(snapshot_of(address, response)),
        Err(error) => Err(surfaced(error)),
    }
}

/// Turns the end of a fetch into the end of the resolution; see
/// [`concluded`].
pub fn conclude(address: Address, fetched: Result<ProviderResponse, UpstreamError>) -> (resolved:
    Result<WalletSnapshot, ResolveError>)
    ensures
        resolved_model(resolved) == concluded(address@, fetched_model(fetched)),
{
    match fetched {
        Ok(response) => Ok(WalletSnapshot::assemble(address, response)),
        Err(error) => Err(ResolveError::from(error)),
    }
}

/// A resolution that waits for the outcome of a provider call.
#[derive(Debug, PartialEq, Eq)]
pub struct Pending {
    address: Address,
    request: Request,
}

/// The mathematical content of a [`Pending`].
pub struct PendingModel {
    pub address: Seq<char>,
    pub request: Request,
}

impl View for Pending {
    type V = PendingModel;

    closed spec fn view(&self) -> PendingModel {
        PendingModel { address: self.address@, request: self.request }
    }
}

impl Pending {
    /// The address being resolved.
    pub fn address(&self) -> (text: &str)
        ensures
            text@ == self@.address,
            valid_address(text@),
    {
        self.address.as_str()
    }

    /// The provider call to make.
    pub fn request(&self) -> (request: Request)
        ensures
            request == self@.request,
    {
        self.request
    }
}

/// What the resolver wants next.
#[derive(Debug, PartialEq, Eq)]
pub enum ResolveStep {
    /// Make the pending call and report back.
    Send(Pending),
    /// The resolution is over.
    Done(Result<WalletSnapshot, ResolveError>),
}

/// The mathematical content of a [`ResolveStep`].
pub enum ResolveStepModel {
    Send(PendingModel),
    Done(Result<SnapshotModel, ResolveError>),
}

impl View for ResolveStep {
    type V = ResolveStepModel;

    open spec fn view(&self) -> ResolveStepModel {
        match self {
            ResolveStep::Send(pending) => ResolveStepModel::Send(pending@),
            ResolveStep::Done(resolved) => ResolveStepModel::Done(resolved_model(*resolved)),
        }
    }
}

/// How a resolution starts. Text that breaks the syntax rule ends it on the
/// spot as `InvalidAddress`, with no provider call; valid text becomes the
/// address of the first call.
pub open spec fn first_step(config: UpstreamConfig, raw: Seq<char>) -> ResolveStepModel {
    if valid_address(raw) {
        ResolveStepModel::Send(PendingModel { address: raw, request: request_for(config, 0) })
    } else {
        ResolveStepModel::Done(Err(ResolveError::InvalidAddress))
    }
}

/// How a resolution goes on after a provider call: as the client's retry
/// rule says, with the end of the fetch concluded for the pending address.
pub open spec fn following_step(
    config: UpstreamConfig,
    pending: PendingModel,
    attempt: AttemptModel,
) -> ResolveStepModel {
    match next_step(config, pending.request.attempt, attempt) {
        FetchStepModel::Send(request) => ResolveStepModel::Send(
            PendingModel { address: pending.address, request },
        ),
        FetchStepModel::Done(fetched) => ResolveStepModel::Done(
            concluded(pending.address, fetched),
        ),
    }
}

/// The wallet resolver, holding the upstream client it fetches through.
#[derive(Debug)]
pub struct WalletResolver {
    client: UpstreamClient,
}

impl View for WalletResolver {
    type V = UpstreamConfig;

    closed spec fn view(&self) -> UpstreamConfig {
        self.client@
    }
}

impl WalletResolver {
    /// A resolver that fetches through `client`.
    pub fn new(client: UpstreamClient) -> (resolver: WalletResolver)
        ensures
            resolver@ == client@,
    {
        WalletResolver { client }
    }

    /// The upstream client.
    pub fn client(&self) -> (client: &UpstreamClient)
        ensures
            client@ == self@,
    {
        &self.client
    }

    /// Starts resolving `raw_address`; see [`first_step`].
    pub fn begin(&self, raw_address: &str) -> (step: ResolveStep)
        ensures
            step@ == first_step(self@, raw_address@),
    {
        match Address::parse(raw_address) {
            Some(address) => ResolveStep::Send(
                Pending { address, request: self.client.first_request() },
            ),
            None => ResolveStep::Done(Err(ResolveError::InvalidAddress)),
        }
    }

    /// Goes on now that the pending call ended as `attempt`; see
    /// [`following_step`].
    pub fn after(&self, pending: Pending, attempt: Attempt) -> (step: ResolveStep)
        ensures
            step@ == following_step(self@, pending@, attempt@),
    {
        let Pending { address, request } = pending;
        match self.client.after(request, attempt) {
            FetchStep::Send(request) => ResolveStep::Send(Pending { address, request }),
            FetchStep::Done(fetched) => ResolveStep::Done(conclude(address, fetched)),
        }
    }
}

/// How a resolution of `raw` ends when the provider follows `script` and the
/// client may retry `max_retries` times: `InvalidAddress` for text that
/// breaks the syntax rule, and otherwise the fetch's end, concluded.
pub open spec fn resolve_outcome(
    max_retries: nat,
    raw: Seq<char>,
    script: Seq<AttemptModel>,
) -> Result<SnapshotModel, ResolveError> {
    if valid_address(raw) {
        concluded(raw, fetch_outcome(max_retries, script))
    } else {
        Err(ResolveError::InvalidAddress)
    }
}

/// How many provider calls that resolution makes: none for invalid text, and
/// otherwise those of the fetch.
pub open spec fn upstream_calls(
    max_retries: nat,
    raw: Seq<char>,
    script: Seq<AttemptModel>,
) -> nat {
    if valid_address(raw) {
        calls_made(max_retries, script)
    } else {
        0
    }
}

/// How a replayed resolution ended, and how many provider calls it took.
#[derive(Debug, PartialEq, Eq)]
pub struct Resolution {
    /// The snapshot, or why there is none.
    pub result: Result<WalletSnapshot, ResolveError>,
    /// Provider calls made.
    pub upstream_calls: u64,
}

/// `resolution` is what resolving `raw` yields under `config` against a
/// provider that follows `script`.
pub open spec fn resolves(
    config: UpstreamConfig,
    raw: Seq<char>,
    script: Seq<AttemptModel>,
    resolution: Resolution,
) -> bool {
    &&& resolved_model(resolution.result) == resolve_outcome(
        config.max_retries as nat,
        raw,
        script,
    )
    &&& resolution.upstream_calls == upstream_calls(config.max_retries as nat, raw, script)
}

impl WalletResolver {
    /// Resolves `raw_address` against a provider that follows `script`: the
    /// outcome of call number `i` is `script[i]`, and calls past the end of
    /// the script go unanswered. Drives [`WalletResolver::begin`] and
    /// [`WalletResolver::after`] just as a live transport would.
    pub fn resolve(&self, raw_address: &str, script: Vec<Attempt>) -> (resolution: Resolution)
        ensures
            resolves(self@, raw_address@, script_model(script@), resolution),
    {
        let ghost plan = script_model(script@);
        let mut pending = match self.begin(raw_address) {
            ResolveStep::Send(pending) => pending,
            ResolveStep::Done(result) => {
                return Resolution { result, upstream_calls: 0 };
            },
        };
        for attempt in it: script
            invariant
                plan == script_model(it.seq()),
                valid_address(raw_address@),
                pending@.address == raw_address@,
                pending@.request.attempt == it.index(),
                pending@.request.attempt <= self@.max_retries,
                forall|j: int| 0 <= j < it.index() ==> is_transient(#[trigger] plan[j]),
        {
            proof {
                assert(plan[it.index() as int] == attempt@);
                lemma_leading_transients(plan, it.index() as nat);
            }
            let calls: u64 = pending.request().attempt as u64 + 1;
            match self.after(pending, attempt) {
                ResolveStep::Send(next) => {
                    pending = next;
                },
                ResolveStep::Done(result) => {
                    return Resolution { result, upstream_calls: calls };
                },
            }
        }
        proof {
            lemma_leading_transients(plan, plan.len());
        }
        Resolution {
            result: Err(ResolveError::Unavailable),
            upstream_calls: self.client.config().max_retries as u64 + 1,
        }
    }
}

/// Fail fast. Text that breaks the syntax rule resolves to `InvalidAddress`
/// whatever the provider would have said, and the provider is never asked:
/// the very first step is the end, and no call is counted.
pub proof fn lemma_invalid_address_fails_fast(
    config: UpstreamConfig,
    raw: Seq<char>,
    script: Seq<AttemptModel>,
)
    requires
        !valid_address(raw),
    ensures
        first_step(config, raw) == ResolveStepModel::Done(Err(ResolveError::InvalidAddress)),
        resolve_outcome(config.max_retries as nat, raw, script) == Err::<
            SnapshotModel,
            ResolveError,
        >(ResolveError::InvalidAddress),
        upstream_calls(config.max_retries as nat, raw, script) == 0,
{
}

/// `InvalidAddress` is kept for text that breaks the syntax rule: a valid
/// address never resolves to it, and always costs at least one provider call.
pub proof fn lemma_valid_address_is_fetched(
    config: UpstreamConfig,
    raw: Seq<char>,
    script: Seq<AttemptModel>,
)
    requires
        valid_address(raw),
    ensures
        first_step(config, raw) is Send,
        resolve_outcome(config.max_retries as nat, raw, script) != Err::<
            SnapshotModel,
            ResolveError,
        >(ResolveError::InvalidAddress),
        upstream_calls(config.max_retries as nat, raw, script) >= 1,
{
}

/// The identity transform. Where the fetch for a valid address succeeds with
/// `response`, the resolution succeeds with a snapshot of that address whose
/// balance is the response's balance and whose transactions are the
/// response's transactions: same length, same order, same contents.
pub proof fn lemma_identity_transform(
    max_retries: nat,
    raw: Seq<char>,
    script: Seq<AttemptModel>,
    response: ResponseModel,
)
    requires
        valid_address(raw),
        fetch_outcome(max_retries, script) == Ok::<ResponseModel, UpstreamError>(response),
    ensures
        resolve_outcome(max_retries, raw, script) matches Ok(snapshot) && {
            &&& snapshot.address == raw
            &&& snapshot.balance == response.balance
            &&& snapshot.transactions == response.transactions
        },
{
}

/// Errors pass through one to one. Where the fetch for a valid address fails
/// with `error`, the resolution fails with its counterpart and nothing else.
pub proof fn lemma_errors_surface(
    max_retries: nat,
    raw: Seq<char>,
    script: Seq<AttemptModel>,
    error: UpstreamError,
)
    requires
        valid_address(raw),
        fetch_outcome(max_retries, script) == Err::<ResponseModel, UpstreamError>(error),
    ensures
        resolve_outcome(max_retries, raw, script) == Err::<SnapshotModel, ResolveError>(
            surfaced(error),
        ),
{
}

/// Idempotence. Two resolutions of the same text under the same
/// configuration, against a provider that behaves the same way both times,
/// end alike: equal snapshots or equal errors, after equally many calls.
pub proof fn lemma_resolve_idempotent(
    config: UpstreamConfig,
    raw: Seq<char>,
    script: Seq<AttemptModel>,
    first: Resolution,
    second: Resolution,
)
    requires
        resolves(config, raw, script, first),
        resolves(config, raw, script, second),
    ensures
        resolved_model(first.result) == resolved_model(second.result),
        first.upstream_calls == second.upstream_calls,
{
}

} // verus!
