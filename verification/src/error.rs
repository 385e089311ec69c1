//! The two error taxonomies: what the upstream client reports, and what the
//! resolver surfaces.

use vstd::prelude::*;
use vstd::std_specs::convert::FromSpecImpl;

verus! {

/// Why a fetch from the provider ended without data.
#[derive(Clone, Copy, Debug, PartialEq, Eq, Hash, Structural)]
pub enum UpstreamError {
    /// The provider does not know the address.
    NotFound,
    /// The provider is throttling us; the caller should come back later.
    RateLimited,
    /// The network failed or timed out on every permitted attempt.
    Unavailable,
    /// The provider answered with something outside its schema.
    Malformed,
}

/// Why a resolution ended without a snapshot.
#[derive(Clone, Copy, Debug, PartialEq, Eq, Hash, Structural)]
pub enum ResolveError {
    /// The address text breaks the syntax rule; the provider was not asked.
    InvalidAddress,
    /// The provider does not know the address.
    NotFound,
    /// The provider is throttling us.
    RateLimited,
    /// The provider could not be reached within the retry limit.
    Unavailable,
    /// The provider broke its contract. Never replaced by made-up data.
    UpstreamMalformed,
}

/// The one-to-one image of an upstream error among the resolver's errors.
pub open spec fn surfaced(error: UpstreamError) -> ResolveError {
    match error {
        UpstreamError::NotFound => ResolveError::NotFound,
        UpstreamError::RateLimited => ResolveError::RateLimited,
        UpstreamError::Unavailable => ResolveError::Unavailable,
        UpstreamError::Malformed => ResolveError::UpstreamMalformed,
    }
}

impl From<UpstreamError> for ResolveError {
    fn from(error: UpstreamError) -> (resolve_error: ResolveError) {
        match error {
            UpstreamError::NotFound => ResolveError::NotFound,
            UpstreamError::RateLimited => ResolveError::RateLimited,
            UpstreamError::Unavailable => ResolveError::Unavailable,
            UpstreamError::Malformed => ResolveError::UpstreamMalformed,
        }
    }
}

impl FromSpecImpl<UpstreamError> for ResolveError {
    open spec fn obeys_from_spec() -> bool {
        true
    }

    open spec fn from_spec(error: UpstreamError) -> ResolveError {
        surfaced(error)
    }
}

/// No upstream error surfaces as `InvalidAddress`, and distinct upstream
/// errors surface as distinct resolver errors.
pub proof fn lemma_surfaced_injective(a: UpstreamError, b: UpstreamError)
    ensures
        surfaced(a) != ResolveError::InvalidAddress,
        surfaced(a) == surfaced(b) ==> a == b,
{
}

} // verus!
