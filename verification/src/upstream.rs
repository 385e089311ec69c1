//! The upstream client: one provider call at a time, with a bounded number of
//! retries on transient network failure.
//!
//! The client does no I/O of its own. It says which call to make next and
//! takes back what became of it, so the retry policy is decided here and the
//! transport only carries it out.

use crate::backoff::{backoff_delay, backoff_ms};
use crate::error::UpstreamError;
use crate::snapshot::{ProviderResponse, ResponseModel};
use vstd::prelude::*;

verus! {

/// Timeout of one provider call unless configured otherwise, in milliseconds.
pub const DEFAULT_TIMEOUT_MS: u64 = 5000;

/// Retries after the first call unless configured otherwise.
pub const DEFAULT_MAX_RETRIES: u32 = 2;

/// Wait before the first retry unless configured otherwise, in milliseconds.
pub const DEFAULT_BACKOFF_BASE_MS: u64 = 100;

/// Where the provider is and how patiently to ask it. Handed to the client at
/// construction; nothing is read from ambient state.
#[derive(Debug, PartialEq, Eq)]
pub struct UpstreamConfig {
    /// The provider endpoint.
    pub base_url: String,
    /// Bound on the duration of one call, in milliseconds.
    pub timeout_ms: u64,
    /// How many times a call that failed transiently is tried again.
    pub max_retries: u32,
    /// Wait before the first retry, in milliseconds; doubled for each later one.
    pub backoff_base_ms: u64,
}

impl Clone for UpstreamConfig {
    fn clone(&self) -> (copy: UpstreamConfig)
        ensures
            copy == *self,
    {
        UpstreamConfig {
            base_url: self.base_url.clone(),
            timeout_ms: self.timeout_ms,
            max_retries: self.max_retries,
            backoff_base_ms: self.backoff_base_ms,
        }
    }
}

impl UpstreamConfig {
    /// A configuration for the provider at `base_url` with the default
    /// timeout, retry limit and backoff.
    pub fn new(base_url: String) -> (config: UpstreamConfig)
        ensures
            config.base_url == base_url,
            config.timeout_ms == DEFAULT_TIMEOUT_MS,
            config.max_retries == DEFAULT_MAX_RETRIES,
            config.backoff_base_ms == DEFAULT_BACKOFF_BASE_MS,
    {
        UpstreamConfig {
            base_url,
            timeout_ms: DEFAULT_TIMEOUT_MS,
            max_retries: DEFAULT_MAX_RETRIES,
            backoff_base_ms: DEFAULT_BACKOFF_BASE_MS,
        }
    }
}

/// What became of one provider call.
#[derive(Debug, PartialEq, Eq)]
pub enum Attempt {
    /// The provider answered with data that passed schema validation.
    Delivered(ProviderResponse),
    /// The provider reported that it does not know the address.
    UnknownAddress,
    /// The provider signalled throttling.
    Throttled,
    /// The provider answered, but not with anything its schema allows.
    SchemaViolation,
    /// The connection was reset before an answer arrived.
    ConnectionReset,
    /// No answer arrived within the timeout.
    TimedOut,
}

/// The mathematical content of an [`Attempt`].
pub enum AttemptModel {
    Delivered(ResponseModel),
    UnknownAddress,
    Throttled,
    SchemaViolation,
    ConnectionReset,
    TimedOut,
}

impl View for Attempt {
    type V = AttemptModel;

    open spec fn view(&self) -> AttemptModel {
        match self {
            Attempt::Delivered(response) => AttemptModel::Delivered(response@),
            Attempt::UnknownAddress => AttemptModel::UnknownAddress,
            Attempt::Throttled => AttemptModel::Throttled,
            Attempt::SchemaViolation => AttemptModel::SchemaViolation,
            Attempt::ConnectionReset => AttemptModel::ConnectionReset,
            Attempt::TimedOut => AttemptModel::TimedOut,
        }
    }
}

impl Clone for Attempt {
    fn clone(&self) -> (copy: Attempt)
        ensures
            copy@ == self@,
    {
        match self {
            Attempt::Delivered(response) => Attempt::Delivered(response.clone()),
            Attempt::UnknownAddress => Attempt::UnknownAddress,
            Attempt::Throttled => Attempt::Throttled,
            Attempt::SchemaViolation => Attempt::SchemaViolation,
            Attempt::ConnectionReset => Attempt::ConnectionReset,
            Attempt::TimedOut => Attempt::TimedOut,
        }
    }
}

/// Transient failures are those of the network: a reset connection or a
/// timeout. Only they are worth another try.
pub open spec fn is_transient(attempt: AttemptModel) -> bool {
    attempt is ConnectionReset || attempt is TimedOut
}

/// How a fetch ends on an attempt that is not retried: with the data, or with
/// the error that names what the provider did. A transient failure that is
/// not retried ends the fetch as `Unavailable`.
pub open spec fn settled(attempt: AttemptModel) -> Result<ResponseModel, UpstreamError> {
    match attempt {
        AttemptModel::Delivered(response) => Ok(response),
        AttemptModel::UnknownAddress => Err(UpstreamError::NotFound),
        AttemptModel::Throttled => Err(UpstreamError::RateLimited),
        AttemptModel::SchemaViolation => Err(UpstreamError::Malformed),
        AttemptModel::ConnectionReset => Err(UpstreamError::Unavailable),
        AttemptModel::TimedOut => Err(UpstreamError::Unavailable),
    }
}

/// The attempt that an HTTP reply amounts to. `body` is the reply's payload
/// where it decoded against the provider schema. Status 404 reports an unknown
/// address and 429 throttling, whatever the payload; a 2xx status with a valid
/// payload delivers it; every other reply is outside the provider's contract.
pub open spec fn reply_attempt(status: u16, body: Option<ResponseModel>) -> AttemptModel {
    if status == 404 {
        AttemptModel::UnknownAddress
    } else if status == 429 {
        AttemptModel::Throttled
    } else if 200 <= status <= 299 && body is Some {
        AttemptModel::Delivered(body->0)
    } else {
        AttemptModel::SchemaViolation
    }
}

/// The view of an optional payload.
pub open spec fn body_model(body: Option<ProviderResponse>) -> Option<ResponseModel> {
    match body {
        Some(response) => Some(response@),
        None => None,
    }
}

/// Classifies an HTTP reply from the provider; see [`reply_attempt`].
pub fn classify_reply(status: u16, body: Option<ProviderResponse>) -> (attempt: Attempt)
    ensures
        attempt@ == reply_attempt(status, body_model(body)),
{
    if status == 404 {
        Attempt::UnknownAddress
    } else if status == 429 {
        Attempt::Throttled
    } else if 200 <= status && status <= 299 {
        match body {
            Some(response) => Attempt::Delivered(response),
            None => Attempt::SchemaViolation,
        }
    } else {
        Attempt::SchemaViolation
    }
}

/// One provider call for the transport to make: wait `delay_ms`, then ask,
/// giving up after `timeout_ms`.
#[derive(Clone, Copy, Debug, PartialEq, Eq, Structural)]
pub struct Request {
    /// How many calls went before this one.
    pub attempt: u32,
    /// How long to wait before calling, in milliseconds.
    pub delay_ms: u64,
    /// Bound on the call's duration, in milliseconds.
    pub timeout_ms: u64,
}

/// What the client wants next.
#[derive(Debug, PartialEq, Eq)]
pub enum FetchStep {
    /// Make this call and report back.
    Send(Request),
    /// The fetch is over.
    Done(Result<ProviderResponse, UpstreamError>),
}

/// The mathematical content of a [`FetchStep`].
pub enum FetchStepModel {
    Send(Request),
    Done(Result<ResponseModel, UpstreamError>),
}

/// The view of a fetch result.
pub open spec fn fetched_model(fetched: Result<ProviderResponse, UpstreamError>) -> Result<
    ResponseModel,
    UpstreamError,
> {
    match fetched {
        Ok(response) => Ok(response@),
        Err(error) => Err(error),
    }
}

impl View for FetchStep {
    type V = FetchStepModel;

    open spec fn view(&self) -> FetchStepModel {
        match self {
            FetchStep::Send(request) => FetchStepModel::Send(*request),
            FetchStep::Done(fetched) => FetchStepModel::Done(fetched_model(*fetched)),
        }
    }
}

/// The call number `attempt` under `config`.
pub open spec fn request_for(config: UpstreamConfig, attempt: nat) -> Request {
    Request {
        attempt: attempt as u32,
        delay_ms: backoff_delay(config.backoff_base_ms, attempt) as u64,
        timeout_ms: config.timeout_ms,
    }
}

/// The retry rule. After call number `sent` ended as `attempt`: a transient
/// failure is retried while fewer than `max_retries` retries have been made,
/// and ends the fetch as `Unavailable` once they are used up; anything else
/// ends the fetch at once.
pub open spec fn next_step(config: UpstreamConfig, sent: u32, attempt: AttemptModel) -> FetchStepModel {
    if is_transient(attempt) && sent < config.max_retries {
        FetchStepModel::Send(request_for(config, (sent + 1) as nat))
    } else {
        FetchStepModel::Done(settled(attempt))
    }
}

/// The upstream client, holding its configuration.
#[derive(Debug)]
pub struct UpstreamClient {
    config: UpstreamConfig,
}

impl View for UpstreamClient {
    type V = UpstreamConfig;

    closed spec fn view(&self) -> UpstreamConfig {
        self.config
    }
}

impl UpstreamClient {
    /// A client that follows `config`.
    pub fn new(config: UpstreamConfig) -> (client: UpstreamClient)
        ensures
            client@ == config,
    {
        UpstreamClient { config }
    }

    /// The configuration this client was built with.
    pub fn config(&self) -> (config: &UpstreamConfig)
        ensures
            *config == self@,
    {
        &self.config
    }

    /// The first call of a fetch: number zero, sent without delay.
    pub fn first_request(&self) -> (request: Request)
        ensures
            request == request_for(self@, 0),
    {
        Request { attempt: 0, delay_ms: 0, timeout_ms: self.config.timeout_ms }
    }

    /// Decides what follows the call `sent` now that it ended as `attempt`;
    /// see [`next_step`].
    pub fn after(&self, sent: Request, attempt: Attempt) -> (step: FetchStep)
        ensures
            step@ == next_step(self@, sent.attempt, attempt@),
    {
        match attempt {
            Attempt::Delivered(response) => FetchStep::Done(Ok(response)),
            Attempt::UnknownAddress => FetchStep::Done(Err(UpstreamError::NotFound)),
            Attempt::Throttled => FetchStep::Done(Err(UpstreamError::RateLimited)),
            Attempt::SchemaViolation => FetchStep::Done(Err(UpstreamError::Malformed)),
            Attempt::ConnectionReset | Attempt::TimedOut => {
                if sent.attempt < self.config.max_retries {
                    let next: u32 = sent.attempt + 1;
                    FetchStep::Send(
                        Request {
                            attempt: next,
                            delay_ms: backoff_ms(self.config.backoff_base_ms, next),
                            timeout_ms: self.config.timeout_ms,
                        },
                    )
                } else {
                    FetchStep::Done(Err(UpstreamError::Unavailable))
                }
            },
        }
    }
}

} // verus!
