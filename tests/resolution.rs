use dns_router::addr::{first_ipv4, IpAddress, Ipv4Address};
use dns_router::discovery::{
    a_answer, srv_answer, srv_query_name, trim_trailing_dots, DiscoveryError, LookupFailure,
    Protocol, ResolverConfig,
};
use dns_router::resolver::{make_peer, Error, ResolutionError, ResolvedPeer, Router, Step};
use dns_router::route::{starts_with, Route, RouteTable};
use dns_router::srv::{select_srv, SrvRecord};

fn record(target: &str, port: u16, priority: u16, weight: u16) -> SrvRecord {
    SrvRecord { target: target.to_string(), port, priority, weight }
}

fn v4(a: u8, b: u8, c: u8, d: u8) -> IpAddress {
    IpAddress::V4(Ipv4Address { a, b, c, d })
}

fn router() -> Router {
    Router::new().unwrap()
}

fn route(prefix: &str, service: &str) -> Route {
    Route { prefix: prefix.to_string(), service: service.to_string() }
}

fn config(suffix: &str, timeout_ms: u64) -> ResolverConfig {
    ResolverConfig {
        nameserver: Ipv4Address { a: 127, b: 0, c: 0, d: 1 },
        nameserver_port: 8053,
        protocol: Protocol::Udp,
        domain_suffix: suffix.to_string(),
        timeout_ms,
    }
}

#[test]
fn identify_default_prefixes() {
    let r = router();
    assert_eq!(r.table.identify(&"/service-a".to_string()), Some("service-a".to_string()));
    assert_eq!(r.table.identify(&"/service-a/x/y".to_string()), Some("service-a".to_string()));
    assert_eq!(r.table.identify(&"/service-abc".to_string()), Some("service-a".to_string()));
    assert_eq!(r.table.identify(&"/service-b".to_string()), Some("service-b".to_string()));
    assert_eq!(r.table.identify(&"/service-b?q=1".to_string()), Some("service-b".to_string()));
    assert_eq!(r.table.identify(&"/unknown".to_string()), None);
    assert_eq!(r.table.identify(&"/".to_string()), None);
    assert_eq!(r.table.identify(&"".to_string()), None);
    assert_eq!(r.table.identify(&"/service".to_string()), None);
    assert_eq!(r.table.identify(&"service-a".to_string()), None);
}

#[test]
fn identify_longest_prefix_wins() {
    let table = RouteTable {
        routes: vec![route("/api", "api"), route("/api/v2", "api-v2"), route("/", "root")],
    };
    assert_eq!(table.identify(&"/api/v2/items".to_string()), Some("api-v2".to_string()));
    assert_eq!(table.identify(&"/api/v1/items".to_string()), Some("api".to_string()));
    assert_eq!(table.identify(&"/other".to_string()), Some("root".to_string()));
}

#[test]
fn identify_equal_prefixes_take_first() {
    let table = RouteTable { routes: vec![route("/x", "first"), route("/x", "second")] };
    assert_eq!(table.identify(&"/x/1".to_string()), Some("first".to_string()));
}

#[test]
fn identify_non_ascii_path() {
    let table = RouteTable { routes: vec![route("/é", "accent")] };
    assert_eq!(table.identify(&"/éa".to_string()), Some("accent".to_string()));
    assert_eq!(table.identify(&"/e".to_string()), None);
    assert!(starts_with("/éa", "/é"));
    assert!(!starts_with("/é", "/éa"));
}

#[test]
fn query_name_pattern() {
    assert_eq!(srv_query_name("service-a", "example.com"), "_service-a._tcp.example.com");
    assert_eq!(srv_query_name("", "x"), "_._tcp.x");
}

#[test]
fn trailing_dots_removed() {
    assert_eq!(trim_trailing_dots("svc-a-1.example.com."), "svc-a-1.example.com");
    assert_eq!(trim_trailing_dots("svc.example.com"), "svc.example.com");
    assert_eq!(trim_trailing_dots("a.."), "a");
    assert_eq!(trim_trailing_dots("..."), "");
    assert_eq!(trim_trailing_dots(""), "");
}

#[test]
fn lowest_priority_always_selected() {
    let records = vec![record("high", 1, 20, 100), record("low", 2, 10, 1)];
    for draw in 0..1000u64 {
        assert_eq!(select_srv(&records, draw), 1);
    }
    let records = vec![record("low", 2, 10, 1), record("high", 1, 20, 100)];
    for draw in [0u64, 7, u64::MAX] {
        assert_eq!(select_srv(&records, draw), 0);
    }
}

#[test]
fn equal_priority_weighted_share() {
    let records = vec![record("light", 1, 5, 1), record("heavy", 2, 5, 9)];
    let mut counts = [0u32; 2];
    for draw in 0..10_000u64 {
        counts[select_srv(&records, draw)] += 1;
    }
    assert_eq!(counts, [1_000, 9_000]);
    assert_eq!(select_srv(&records, 0), 0);
    for draw in 1..10u64 {
        assert_eq!(select_srv(&records, draw), 1);
    }
    assert_eq!(select_srv(&records, 10), 0);
}

#[test]
fn zero_weight_still_selectable() {
    let records = vec![record("zero", 1, 1, 0), record("two", 2, 1, 2)];
    assert_eq!(select_srv(&records, 0), 0);
    assert_eq!(select_srv(&records, 1), 1);
    assert_eq!(select_srv(&records, 2), 1);
    assert_eq!(select_srv(&records, 3), 0);
}

#[test]
fn selection_ignores_other_priorities_in_weights() {
    let records = vec![record("a", 1, 3, 4), record("b", 2, 1, 1), record("c", 3, 1, 3)];
    assert_eq!(select_srv(&records, 0), 1);
    assert_eq!(select_srv(&records, 1), 2);
    assert_eq!(select_srv(&records, 3), 2);
    assert_eq!(select_srv(&records, 4), 1);
}

#[test]
fn largest_weights_and_draw() {
    let records = vec![record("a", 1, 0, u16::MAX), record("b", 2, 0, u16::MAX)];
    assert_eq!(select_srv(&records, 65_534), 0);
    assert_eq!(select_srv(&records, 65_535), 1);
    assert_eq!(select_srv(&records, u64::MAX), 1);
    assert_eq!(select_srv(&records, 131_070), 0);
}

#[test]
fn srv_answer_errors() {
    assert_eq!(srv_answer(Ok(vec![])).unwrap_err(), DiscoveryError::NoRecords);
    assert_eq!(srv_answer(Err(LookupFailure::Timeout)).unwrap_err(), DiscoveryError::Timeout);
    assert_eq!(srv_answer(Err(LookupFailure::NoRecords)).unwrap_err(), DiscoveryError::NoRecords);
    assert_eq!(
        srv_answer(Err(LookupFailure::Transport)).unwrap_err(),
        DiscoveryError::TransportFailure
    );
    let kept = srv_answer(Ok(vec![record("x", 1, 2, 3)])).unwrap();
    assert_eq!(kept.len(), 1);
    assert_eq!(kept[0].target, "x");
}

#[test]
fn a_answer_takes_first_ipv4() {
    let answer = Ok(vec![IpAddress::V6(1), v4(10, 0, 0, 5), v4(10, 0, 0, 6)]);
    assert_eq!(a_answer(&answer), Ok(Ipv4Address { a: 10, b: 0, c: 0, d: 5 }));
    assert_eq!(a_answer(&Ok(vec![IpAddress::V6(1)])), Err(DiscoveryError::NoAddress));
    assert_eq!(a_answer(&Ok(vec![])), Err(DiscoveryError::NoAddress));
    assert_eq!(a_answer(&Err(LookupFailure::Timeout)), Err(DiscoveryError::Timeout));
    assert_eq!(first_ipv4(&vec![v4(1, 2, 3, 4)]), Some(Ipv4Address { a: 1, b: 2, c: 3, d: 4 }));
    assert_eq!(first_ipv4(&vec![]), None);
}

#[test]
fn peer_checks_address_and_port() {
    let host = Ipv4Address { a: 10, b: 0, c: 0, d: 5 };
    assert_eq!(
        make_peer(host, 9090),
        Ok(ResolvedPeer { address: host, port: 9090, use_tls: false })
    );
    assert_eq!(make_peer(host, 0), Err(ResolutionError::InvalidAddress));
    assert_eq!(
        make_peer(Ipv4Address { a: 0, b: 0, c: 0, d: 0 }, 80),
        Err(ResolutionError::InvalidAddress)
    );
    assert_eq!(
        make_peer(Ipv4Address { a: 255, b: 255, c: 255, d: 255 }, 80),
        Err(ResolutionError::InvalidAddress)
    );
    assert_eq!(
        make_peer(Ipv4Address { a: 224, b: 0, c: 0, d: 1 }, 80),
        Err(ResolutionError::InvalidAddress)
    );
}

#[test]
fn new_router_defaults() {
    let r = router();
    assert_eq!(r.config.domain_suffix, "example.com");
    assert_eq!(r.config.nameserver_port, 8053);
    assert_eq!(r.config.nameserver, Ipv4Address { a: 127, b: 0, c: 0, d: 1 });
    assert_eq!(r.config.protocol, Protocol::Udp);
    assert_eq!(r.config.timeout_ms, 2000);
    assert_eq!(r.table.routes.len(), 2);
}

#[test]
fn with_config_refusals() {
    let bad_prefix = Router::with_config(vec![route("/a", "a"), route("b", "b")], config("x", 1));
    assert_eq!(bad_prefix.err(), Some(Error::InvalidRoute(1)));
    let empty_service = Router::with_config(vec![route("/a", "")], config("x", 1));
    assert_eq!(empty_service.err(), Some(Error::InvalidRoute(0)));
    let empty_prefix = Router::with_config(vec![route("", "a")], config("x", 1));
    assert_eq!(empty_prefix.err(), Some(Error::InvalidRoute(0)));
    let no_suffix = Router::with_config(vec![route("/a", "a")], config("", 1));
    assert_eq!(no_suffix.err(), Some(Error::EmptyDomainSuffix));
    let no_timeout = Router::with_config(vec![route("/a", "a")], config("x", 0));
    assert_eq!(no_timeout.err(), Some(Error::ZeroTimeout));
    let ok = Router::with_config(vec![], config("x", 1)).unwrap();
    assert_eq!(ok.table.identify(&"/a".to_string()), None);
}

#[test]
fn scenario_service_a_resolves() {
    let r = router();
    let name = match r.begin(&"/service-a/x".to_string()) {
        Step::LookupSrv { name } => name,
        _ => panic!("expected an SRV lookup"),
    };
    assert_eq!(name, "_service-a._tcp.example.com");
    let srv = Ok(vec![record("svc-a-1.example.com.", 9090, 10, 5)]);
    let (host, port) = match r.srv_answered(srv, 42) {
        Step::LookupA { host, port } => (host, port),
        _ => panic!("expected an address lookup"),
    };
    assert_eq!(host, "svc-a-1.example.com");
    assert_eq!(port, 9090);
    let expected = ResolvedPeer { address: Ipv4Address { a: 10, b: 0, c: 0, d: 5 }, port: 9090, use_tls: false };
    match r.a_answered(port, &Ok(vec![v4(10, 0, 0, 5)])) {
        Step::Done(result) => assert_eq!(result, Ok(expected)),
        _ => panic!("expected the end of resolution"),
    }
    let whole = r.resolve_with(
        &"/service-a/x".to_string(),
        Ok(vec![record("svc-a-1.example.com", 9090, 10, 0)]),
        0,
        Ok(vec![v4(10, 0, 0, 5)]),
    );
    assert_eq!(whole, Ok(expected));
}

#[test]
fn scenario_unknown_path_issues_no_query() {
    let r = router();
    match r.begin(&"/unknown".to_string()) {
        Step::Done(result) => assert_eq!(result, Err(ResolutionError::RouteNotFound)),
        _ => panic!("no query is expected"),
    }
    let whole = r.resolve_with(&"/unknown".to_string(), Ok(vec![]), 0, Ok(vec![]));
    assert_eq!(whole, Err(ResolutionError::RouteNotFound));
}

#[test]
fn scenario_no_srv_records() {
    let r = router();
    let whole = r.resolve_with(&"/service-b".to_string(), Ok(vec![]), 0, Ok(vec![v4(10, 0, 0, 5)]));
    assert_eq!(whole, Err(ResolutionError::ServiceUnavailable(DiscoveryError::NoRecords)));
    let timed_out = r.resolve_with(
        &"/service-b".to_string(),
        Err(LookupFailure::Timeout),
        0,
        Ok(vec![v4(10, 0, 0, 5)]),
    );
    assert_eq!(timed_out, Err(ResolutionError::ServiceUnavailable(DiscoveryError::Timeout)));
}

#[test]
fn scenario_only_ipv6_addresses() {
    let r = router();
    let whole = r.resolve_with(
        &"/service-a".to_string(),
        Ok(vec![record("svc-a-1.example.com", 9090, 10, 1)]),
        0,
        Ok(vec![IpAddress::V6(1), IpAddress::V6(2)]),
    );
    assert_eq!(whole, Err(ResolutionError::AddressResolutionFailed(DiscoveryError::NoAddress)));
    let refused = r.resolve_with(
        &"/service-a".to_string(),
        Ok(vec![record("svc-a-1.example.com", 9090, 10, 1)]),
        0,
        Err(LookupFailure::Transport),
    );
    assert_eq!(
        refused,
        Err(ResolutionError::AddressResolutionFailed(DiscoveryError::TransportFailure))
    );
}

#[test]
fn scenario_invalid_discovered_address() {
    let r = router();
    let whole = r.resolve_with(
        &"/service-a".to_string(),
        Ok(vec![record("svc", 9090, 10, 1)]),
        0,
        Ok(vec![v4(0, 0, 0, 0)]),
    );
    assert_eq!(whole, Err(ResolutionError::InvalidAddress));
}

#[test]
fn repeated_resolution_same_outcome() {
    let r = router();
    let srv = || Ok(vec![record("one", 1000, 1, 1), record("two", 2000, 1, 1)]);
    let a = || Ok(vec![v4(10, 1, 1, 1)]);
    let first = r.resolve_with(&"/service-a".to_string(), srv(), 3, a());
    let second = r.resolve_with(&"/service-a".to_string(), srv(), 3, a());
    assert_eq!(first, second);
    let other_draw = r.resolve_with(&"/service-a".to_string(), srv(), 4, a());
    assert_eq!(first.unwrap().address, other_draw.unwrap().address);
    let e1 = r.resolve_with(&"/service-b".to_string(), Err(LookupFailure::Transport), 1, a());
    let e2 = r.resolve_with(&"/service-b".to_string(), Err(LookupFailure::Transport), 2, a());
    assert_eq!(e1, e2);
}

#[test]
fn abandoned_resolution_leaves_router_usable() {
    let r = router();
    let pending = match r.srv_answered(Ok(vec![record("svc-a-1.example.com.", 9090, 10, 1)]), 0) {
        Step::LookupA { host, port } => (host, port),
        _ => panic!("expected an address lookup"),
    };
    drop(pending);
    let whole = r.resolve_with(
        &"/service-b/y".to_string(),
        Ok(vec![record("svc-b-1.example.com.", 7070, 1, 1)]),
        9,
        Ok(vec![v4(10, 0, 0, 7)]),
    );
    assert_eq!(
        whole,
        Ok(ResolvedPeer { address: Ipv4Address { a: 10, b: 0, c: 0, d: 7 }, port: 7070, use_tls: false })
    );
}
