use std::cell::Cell;
use wallet_resolver::balance::Balance;
use wallet_resolver::boundary::{
    respond, rocket, status_code, API_BASE, STATUS_OK, WALLET_METHOD, WALLET_ROUTE,
};
use wallet_resolver::error::{ResolveError, UpstreamError};
use wallet_resolver::resolver::{conclude, ResolveStep, WalletResolver};
use wallet_resolver::snapshot::{ProviderResponse, WalletSnapshot};
use wallet_resolver::upstream::{classify_reply, Attempt, Request, UpstreamClient, UpstreamConfig};
use wallet_resolver::address::Address;

const ADDRESS: &str = "4Nd1mBQtrMJVYVfKf2PJy9NZUZdTAsp7xyz";

fn resolver(max_retries: u32) -> WalletResolver {
    WalletResolver::new(UpstreamClient::new(UpstreamConfig {
        base_url: String::from("https://provider.example"),
        timeout_ms: 5000,
        max_retries,
        backoff_base_ms: 100,
    }))
}

fn response(balance: f64, transactions: &[&str]) -> ProviderResponse {
    ProviderResponse {
        balance: Balance::from_bits(balance.to_bits()),
        transactions: transactions.iter().map(|t| String::from(*t)).collect(),
    }
}

/// Drives the resolver step by step against `provider`, as a transport would.
fn drive(
    resolver: &WalletResolver,
    raw: &str,
    provider: &dyn Fn(&str, Request) -> Attempt,
) -> Result<WalletSnapshot, ResolveError> {
    let mut step = resolver.begin(raw);
    loop {
        match step {
            ResolveStep::Done(result) => return result,
            ResolveStep::Send(pending) => {
                let attempt = provider(pending.address(), pending.request());
                step = resolver.after(pending, attempt);
            }
        }
    }
}

#[test]
fn invalid_addresses_never_reach_the_provider() {
    let calls = Cell::new(0u32);
    let provider = |_: &str, _: Request| {
        calls.set(calls.get() + 1);
        Attempt::Delivered(response(1.0, &["tx"]))
    };
    let long = "1".repeat(45);
    let short = "1".repeat(31);
    let invalid = [
        "",
        " ",
        "4Nd1m...xyz",
        "0Nd1mBQtrMJVYVfKf2PJy9NZUZdTAsp7xyz",
        "4Nd1mBQtrMJVYVfKf2PJy9NZUZdTAsp7xyO",
        "4Nd1mBQtrMJVYVfKf2PJy9NZUZdTAsp7 xyz",
        "4Nd1mBQtrMJVYVfKf2PJy9NZUZdTAsp7xyz\n",
        long.as_str(),
        short.as_str(),
    ];
    for raw in invalid {
        assert_eq!(drive(&resolver(2), raw, &provider), Err(ResolveError::InvalidAddress));
        let resolution = resolver(2).resolve(raw, vec![Attempt::Delivered(response(1.0, &["tx"]))]);
        assert_eq!(resolution.result, Err(ResolveError::InvalidAddress));
        assert_eq!(resolution.upstream_calls, 0);
    }
    assert_eq!(calls.get(), 0);
}

#[test]
fn empty_address_is_invalid_with_zero_upstream_calls() {
    let calls = Cell::new(0u32);
    let provider = |_: &str, _: Request| {
        calls.set(calls.get() + 1);
        Attempt::UnknownAddress
    };
    assert_eq!(drive(&resolver(2), "", &provider), Err(ResolveError::InvalidAddress));
    assert_eq!(calls.get(), 0);
    let resolution = resolver(2).resolve("", Vec::new());
    assert_eq!(resolution.result, Err(ResolveError::InvalidAddress));
    assert_eq!(resolution.upstream_calls, 0);
    assert_eq!(respond(resolution.result).status, 400);
}

#[test]
fn valid_address_with_provider_data_yields_the_snapshot() {
    let resolution = resolver(2).resolve(ADDRESS, vec![Attempt::Delivered(response(12.5, &["txA", "txB"]))]);
    assert_eq!(resolution.upstream_calls, 1);
    let snapshot = resolution.result.expect("snapshot");
    assert_eq!(snapshot.address(), ADDRESS);
    assert_eq!(f64::from_bits(snapshot.balance().to_bits()), 12.5);
    assert_eq!(*snapshot.transactions(), vec![String::from("txA"), String::from("txB")]);
}

#[test]
fn provider_404_resolves_to_not_found_and_status_404() {
    let calls = Cell::new(0u32);
    let provider = |address: &str, request: Request| {
        assert_eq!(address, ADDRESS);
        assert_eq!(request.attempt, calls.get());
        calls.set(calls.get() + 1);
        classify_reply(404, None)
    };
    let result = drive(&resolver(2), ADDRESS, &provider);
    assert_eq!(result, Err(ResolveError::NotFound));
    assert_eq!(calls.get(), 1);
    let response = respond(result);
    assert_eq!(response.status, 404);
    assert_eq!(response.body, None);
}

#[test]
fn balance_and_transactions_pass_through_untouched() {
    let balances = [
        0.0f64,
        -0.0,
        12.5,
        0.1 + 0.2,
        1e-320,
        f64::MAX,
        f64::MIN_POSITIVE,
        f64::INFINITY,
        f64::NAN,
        -3.75,
    ];
    let lists: [&[&str]; 4] = [
        &[],
        &["only"],
        &["b", "a", "b", "b", "a"],
        &["tx3", "tx1", "", "tx2", "tx1"],
    ];
    for balance in balances {
        for list in lists {
            let provided = response(balance, list);
            let resolution = resolver(0).resolve(ADDRESS, vec![Attempt::Delivered(provided.clone())]);
            let snapshot = resolution.result.expect("snapshot");
            assert_eq!(snapshot.balance().to_bits(), balance.to_bits());
            assert_eq!(snapshot.balance(), provided.balance);
            assert_eq!(*snapshot.transactions(), provided.transactions);
            assert_eq!(snapshot.transactions().len(), list.len());
            assert_eq!(snapshot.address(), ADDRESS);
        }
    }
}

#[test]
fn resolving_twice_yields_identical_snapshots() {
    let script = vec![
        Attempt::TimedOut,
        Attempt::Delivered(response(7.25, &["t1", "t2", "t1"])),
    ];
    let resolver = resolver(2);
    let first = resolver.resolve(ADDRESS, script.clone());
    let second = resolver.resolve(ADDRESS, script);
    assert_eq!(first, second);
    assert!(first.result.is_ok());
    assert_eq!(first.upstream_calls, 2);
}

#[test]
fn resolving_twice_yields_identical_errors() {
    for attempt in [Attempt::UnknownAddress, Attempt::Throttled, Attempt::SchemaViolation, Attempt::TimedOut] {
        let resolver = resolver(1);
        let first = resolver.resolve(ADDRESS, vec![attempt.clone(), attempt.clone()]);
        let second = resolver.resolve(ADDRESS, vec![attempt.clone(), attempt]);
        assert_eq!(first, second);
        assert!(first.result.is_err());
    }
}

#[test]
fn upstream_errors_surface_one_to_one() {
    assert_eq!(ResolveError::from(UpstreamError::NotFound), ResolveError::NotFound);
    assert_eq!(ResolveError::from(UpstreamError::RateLimited), ResolveError::RateLimited);
    assert_eq!(ResolveError::from(UpstreamError::Unavailable), ResolveError::Unavailable);
    assert_eq!(ResolveError::from(UpstreamError::Malformed), ResolveError::UpstreamMalformed);
    let cases = [
        (Attempt::UnknownAddress, ResolveError::NotFound),
        (Attempt::Throttled, ResolveError::RateLimited),
        (Attempt::SchemaViolation, ResolveError::UpstreamMalformed),
        (Attempt::TimedOut, ResolveError::Unavailable),
        (Attempt::ConnectionReset, ResolveError::Unavailable),
    ];
    for (attempt, error) in cases {
        let resolution = resolver(0).resolve(ADDRESS, vec![attempt]);
        assert_eq!(resolution.result, Err(error));
        assert_eq!(resolution.upstream_calls, 1);
    }
}

#[test]
fn conclude_maps_both_ways() {
    let address = Address::parse(ADDRESS).unwrap();
    let snapshot = conclude(address.clone(), Ok(response(2.0, &["x"]))).unwrap();
    assert_eq!(snapshot.address(), ADDRESS);
    assert_eq!(snapshot.balance().to_bits(), 2.0f64.to_bits());
    assert_eq!(*snapshot.transactions(), vec![String::from("x")]);
    assert_eq!(conclude(address.clone(), Err(UpstreamError::Malformed)), Err(ResolveError::UpstreamMalformed));
    assert_eq!(conclude(address, Err(UpstreamError::Unavailable)), Err(ResolveError::Unavailable));
}

#[test]
fn resolver_adds_no_retries_of_its_own() {
    let calls = Cell::new(0u32);
    let provider = |_: &str, request: Request| {
        assert_eq!(request.attempt, calls.get());
        assert_eq!(request.timeout_ms, 5000);
        assert_eq!(request.delay_ms, [0u64, 100, 200, 400][calls.get() as usize]);
        calls.set(calls.get() + 1);
        Attempt::ConnectionReset
    };
    assert_eq!(drive(&resolver(3), ADDRESS, &provider), Err(ResolveError::Unavailable));
    assert_eq!(calls.get(), 4);
}

#[test]
fn stepwise_and_scripted_resolution_agree() {
    let scripts: Vec<Vec<Attempt>> = vec![
        vec![],
        vec![Attempt::Delivered(response(1.5, &["a"]))],
        vec![Attempt::TimedOut, Attempt::Delivered(response(1.5, &["a"]))],
        vec![Attempt::TimedOut, Attempt::ConnectionReset, Attempt::Throttled],
        vec![Attempt::TimedOut, Attempt::TimedOut, Attempt::TimedOut, Attempt::Delivered(response(1.5, &[]))],
        vec![Attempt::SchemaViolation],
    ];
    for script in scripts {
        for limit in [0u32, 1, 2, 3] {
            let calls = Cell::new(0usize);
            let provider = |_: &str, _: Request| {
                let attempt = script.get(calls.get()).cloned().unwrap_or(Attempt::TimedOut);
                calls.set(calls.get() + 1);
                attempt
            };
            let stepwise = drive(&resolver(limit), ADDRESS, &provider);
            let scripted = resolver(limit).resolve(ADDRESS, script.clone());
            assert_eq!(stepwise, scripted.result);
            assert_eq!(calls.get() as u64, scripted.upstream_calls);
        }
    }
}

#[test]
fn every_error_has_its_status() {
    assert_eq!(status_code(ResolveError::InvalidAddress), 400);
    assert_eq!(status_code(ResolveError::NotFound), 404);
    assert_eq!(status_code(ResolveError::RateLimited), 429);
    assert_eq!(status_code(ResolveError::Unavailable), 503);
    assert_eq!(status_code(ResolveError::UpstreamMalformed), 502);
    assert_eq!(STATUS_OK, 200);
}

#[test]
fn respond_carries_the_snapshot_only_on_success() {
    let snapshot = resolver(0)
        .resolve(ADDRESS, vec![Attempt::Delivered(response(12.5, &["txA", "txB"]))])
        .result
        .unwrap();
    let response = respond(Ok(snapshot.clone()));
    assert_eq!(response.status, 200);
    assert_eq!(response.body, Some(snapshot));
    for error in [
        ResolveError::InvalidAddress,
        ResolveError::NotFound,
        ResolveError::RateLimited,
        ResolveError::Unavailable,
        ResolveError::UpstreamMalformed,
    ] {
        let response = respond(Err(error));
        assert_eq!(response.status, status_code(error));
        assert_eq!(response.body, None);
    }
}

#[test]
fn service_is_mounted_under_api() {
    let config = UpstreamConfig::new(String::from("https://provider.example"));
    let service = rocket(config.clone());
    assert_eq!(service.method, "GET");
    assert_eq!(WALLET_METHOD, "GET");
    assert_eq!(service.base, "/api");
    assert_eq!(service.route, "/wallet/<address>");
    assert_eq!(API_BASE, "/api");
    assert_eq!(WALLET_ROUTE, "/wallet/<address>");
    assert_eq!(*service.resolver.client().config(), config);
}

#[test]
fn balance_round_trips_bit_for_bit() {
    for bits in [0u64, 1, 12.5f64.to_bits(), f64::NAN.to_bits(), u64::MAX] {
        assert_eq!(Balance::from_bits(bits).to_bits(), bits);
    }
    assert_ne!(Balance::from_bits(0.0f64.to_bits()), Balance::from_bits((-0.0f64).to_bits()));
}
