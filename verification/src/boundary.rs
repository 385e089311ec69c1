//! The contract with the HTTP layer: where the service is mounted, and which
//! status each end of a resolution is answered with.

use crate::error::ResolveError;
use crate::resolver::{resolved_model, WalletResolver};
use crate::snapshot::{SnapshotModel, WalletSnapshot};
use crate::upstream::{UpstreamClient, UpstreamConfig};
use vstd::prelude::*;

verus! {

/// The path under which the service is mounted.
pub const API_BASE: &'static str = "/api";

/// The one route below the mount point.
pub const WALLET_ROUTE: &'static str = "/wallet/<address>";

/// The method that the route answers to.
pub const WALLET_METHOD: &'static str = "GET";

/// The status that answers a snapshot.
pub const STATUS_OK: u16 = 200;

/// The status that each resolver error is answered with.
pub open spec fn status_of(error: ResolveError) -> u16 {
    match error {
        ResolveError::InvalidAddress => 400,
        ResolveError::NotFound => 404,
        ResolveError::RateLimited => 429,
        ResolveError::Unavailable => 503,
        ResolveError::UpstreamMalformed => 502,
    }
}

/// Computes [`status_of`].
pub fn status_code(error: ResolveError) -> (status: u16)
    ensures
        status == status_of(error),
{
    match error {
        ResolveError::InvalidAddress => 400,
        ResolveError::NotFound => 404,
        ResolveError::RateLimited => 429,
        ResolveError::Unavailable => 503,
        ResolveError::UpstreamMalformed => 502,
    }
}

/// Every error has a status of its own, and none of them is a success.
pub proof fn lemma_statuses_distinct(a: ResolveError, b: ResolveError)
    ensures
        status_of(a) != STATUS_OK,
        400 <= status_of(a) <= 599,
        status_of(a) == status_of(b) ==> a == b,
{
}

/// What the HTTP layer sends back: a status, and the snapshot to serialise
/// where there is one.
#[derive(Debug, PartialEq, Eq)]
pub struct HttpResponse {
    pub status: u16,
    pub body: Option<WalletSnapshot>,
}

/// The mathematical content of an [`HttpResponse`].
pub struct HttpResponseModel {
    pub status: u16,
    pub body: Option<SnapshotModel>,
}

impl View for HttpResponse {
    type V = HttpResponseModel;

    open spec fn view(&self) -> HttpResponseModel {
        HttpResponseModel {
            status: self.status,
            body: match self.body {
                Some(snapshot) => Some(snapshot@),
                None => None,
            },
        }
    }
}

/// The answer to a finished resolution: 200 with the snapshot, or the
/// error's status with no body. An error is never papered over with data.
pub open spec fn response_of(resolved: Result<SnapshotModel, ResolveError>) -> HttpResponseModel {
    match resolved {
        Ok(snapshot) => HttpResponseModel { status: STATUS_OK, body: Some(snapshot) },
        Err(error) => HttpResponseModel { status: status_of(error), body: None },
    }
}

/// Answers a finished resolution; see [`response_of`].
pub fn respond(resolved: Result<WalletSnapshot, ResolveError>) -> (response: HttpResponse)
    ensures
        response@ == response_of(resolved_model(resolved)),
{
    match resolved {
        Ok(snapshot) => HttpResponse { status: STATUS_OK, body: Some(snapshot) },
        Err(error) => HttpResponse { status: status_code(error), body: None },
    }
}

/// The assembled service: a resolver, and where the HTTP layer mounts it.
#[derive(Debug)]
pub struct Service {
    /// The method of the route.
    pub method: &'static str,
    /// The mount point.
    pub base: &'static str,
    /// The route below the mount point whose `<address>` segment is resolved.
    pub route: &'static str,
    /// The resolver behind the route.
    pub resolver: WalletResolver,
}

/// Assembles the service for launch: a client built from `config`, a
/// resolver on top of it, mounted at [`API_BASE`] with [`WALLET_ROUTE`]
/// answering to [`WALLET_METHOD`].
pub fn rocket(config: UpstreamConfig) -> (service: Service)
    ensures
        service.method@ == WALLET_METHOD@,
        service.base@ == API_BASE@,
        service.route@ == WALLET_ROUTE@,
        service.resolver@ == config,
{
    Service {
        method: WALLET_METHOD,
        base: API_BASE,
        route: WALLET_ROUTE,
        resolver: WalletResolver::new(UpstreamClient::new(config)),
    }
}

} // verus!
