use vstd::prelude::*;
use crate::addr::{is_host_address, IpAddress, Ipv4Address};
use crate::discovery::{
    a_answer, a_answer_spec, failure_spec, srv_answer, srv_query_name, srv_query_spec,
    trim_trailing_dots, without_trailing_dots, DiscoveryError, LookupFailure, Protocol,
    ResolverConfig,
};
use crate::route::{chosen_route, identify_spec, lemma_chosen_unique, route_matches, Route, RouteTable};
use crate::srv::{lemma_selection_unique, select_srv, selects, SrvRecord};

verus! {

/// The upstream a request is forwarded to.
#[derive(Clone, Copy, Debug, PartialEq, Eq, Structural)]
pub struct ResolvedPeer {
    pub address: Ipv4Address,
    pub port: u16,
    pub use_tls: bool,
}

/// Why a request could not be given an upstream.
#[derive(Clone, Copy, Debug, PartialEq, Eq, Structural)]
pub enum ResolutionError {
    /// The request path matches no route.
    RouteNotFound,
    /// The SRV lookup failed or found no records.
    ServiceUnavailable(DiscoveryError),
    /// The address lookup failed or found no IPv4 address.
    AddressResolutionFailed(DiscoveryError),
    /// The discovered address or port cannot be connected to.
    InvalidAddress,
}

/// A configuration that cannot be served.
#[derive(Clone, Copy, Debug, PartialEq, Eq, Structural)]
pub enum Error {
    /// The route at this position has a prefix that does not start with `/`,
    /// or an empty service name.
    InvalidRoute(usize),
    EmptyDomainSuffix,
    ZeroTimeout,
}

/// Where the resolution of one request stands, and what it needs next.
pub enum Step {
    /// The service is identified; its SRV records are to be looked up under `name`.
    LookupSrv { name: String },
    /// A record is selected; the IPv4 address of `host` is to be looked up,
    /// and the peer will use `port`.
    LookupA { host: String, port: u16 },
    /// Resolution is over.
    Done(Result<ResolvedPeer, ResolutionError>),
}

pub open spec fn peer_spec(address: Ipv4Address, port: u16) -> Result<ResolvedPeer, ResolutionError> {
    if is_host_address(address) && port != 0 {
        Ok(ResolvedPeer { address, port, use_tls: false })
    } else {
        Err(ResolutionError::InvalidAddress)
    }
}

/// The peer for a discovered address and port, refused when the address is
/// not a host address or the port is 0.
pub fn make_peer(address: Ipv4Address, port: u16) -> (r: Result<ResolvedPeer, ResolutionError>)
    ensures
        r == peer_spec(address, port),
{
    if address.is_host() && port != 0 {
        Ok(ResolvedPeer { address, port, use_tls: false })
    } else {
        Err(ResolutionError::InvalidAddress)
    }
}

pub open spec fn srv_view(answer: Result<Vec<SrvRecord>, LookupFailure>) -> Result<Seq<SrvRecord>, LookupFailure> {
    match answer {
        Ok(v) => Ok(v@),
        Err(f) => Err(f),
    }
}

pub open spec fn addr_view(answer: Result<Vec<IpAddress>, LookupFailure>) -> Result<Seq<IpAddress>, LookupFailure> {
    match answer {
        Ok(v) => Ok(v@),
        Err(f) => Err(f),
    }
}

/// The outcome of resolving a request for `path` when the SRV lookup gives
/// `srv`, selection draws `draw`, and the address lookup gives `a`.
pub open spec fn resolution_spec(
    routes: Seq<(Seq<char>, Seq<char>)>,
    path: Seq<char>,
    srv: Result<Seq<SrvRecord>, LookupFailure>,
    draw: u64,
    a: Result<Seq<IpAddress>, LookupFailure>,
) -> Result<ResolvedPeer, ResolutionError> {
    if identify_spec(routes, path) is None {
        Err(ResolutionError::RouteNotFound)
    } else {
        match srv {
            Err(f) => Err(ResolutionError::ServiceUnavailable(failure_spec(f))),
            Ok(v) => if v.len() == 0 {
                Err(ResolutionError::ServiceUnavailable(DiscoveryError::NoRecords))
            } else {
                match a_answer_spec(a) {
                    Err(e) => Err(ResolutionError::AddressResolutionFailed(e)),
                    Ok(x) => peer_spec(x, v[choose|i: int| selects(v, draw, i)].port),
                }
            },
        }
    }
}

/// The routing table and resolver settings, built once and shared read-only
/// by every request.
pub struct Router {
    pub table: RouteTable,
    pub config: ResolverConfig,
}

/// The built-in routing table: `/service-a` and `/service-b` name the
/// services of the same name.
pub open spec fn default_routes() -> Seq<(Seq<char>, Seq<char>)> {
    seq![("/service-a"@, "service-a"@), ("/service-b"@, "service-b"@)]
}

pub open spec fn route_ok(r: (Seq<char>, Seq<char>)) -> bool {
    r.0.len() > 0 && r.0[0] == '/' && r.1.len() > 0
}

impl Router {
    /// The built-in router: the default routing table, queries sent over UDP
    /// to 127.0.0.1:8053 under `example.com`, with a two-second timeout.
    pub fn new() -> (r: Result<Router, Error>)
        ensures
            r matches Ok(router) && {
                &&& router.table@ == default_routes()
                &&& router.config.nameserver == (Ipv4Address { a: 127, b: 0, c: 0, d: 1 })
                &&& router.config.nameserver_port == 8053
                &&& router.config.protocol == Protocol::Udp
                &&& router.config.domain_suffix@ == "example.com"@
                &&& router.config.timeout_ms == 2000
            },
    {
        let routes = vec![
            Route { prefix: String::from_str("/service-a"), service: String::from_str("service-a") },
            Route { prefix: String::from_str("/service-b"), service: String::from_str("service-b") },
        ];
        let config = ResolverConfig {
            nameserver: Ipv4Address { a: 127, b: 0, c: 0, d: 1 },
            nameserver_port: 8053,
            protocol: Protocol::Udp,
            domain_suffix: String::from_str("example.com"),
            timeout_ms: 2000,
        };
        proof {
            reveal_strlit("/service-a");
            reveal_strlit("service-a");
            reveal_strlit("/service-b");
            reveal_strlit("service-b");
            reveal_strlit("example.com");
            assert(route_ok(routes@[0]@));
            assert(route_ok(routes@[1]@));
        }
        let r = Router::with_config(routes, config);
        proof {
            if r is Ok {
                assert(r->Ok_0.table@ =~= default_routes());
            }
        }
        r
    }

    /// A router over `routes` and `config`, refused when a route or the
    /// configuration cannot be served.
    pub fn with_config(routes: Vec<Route>, config: ResolverConfig) -> (r: Result<Router, Error>)
        ensures
            match r {
                Ok(router) => {
                    &&& forall|i: int| 0 <= i < routes@.len() ==> route_ok(#[trigger] routes@[i]@)
                    &&& config.domain_suffix@.len() > 0
                    &&& config.timeout_ms > 0
                    &&& router.table.routes@ == routes@
                    &&& router.config == config
                },
                Err(Error::InvalidRoute(i)) => {
                    &&& i < routes@.len()
                    &&& !route_ok(routes@[i as int]@)
                    &&& forall|j: int| 0 <= j < i ==> route_ok(#[trigger] routes@[j]@)
                },
                Err(Error::EmptyDomainSuffix) => {
                    &&& forall|i: int| 0 <= i < routes@.len() ==> route_ok(#[trigger] routes@[i]@)
                    &&& config.domain_suffix@.len() == 0
                },
                Err(Error::ZeroTimeout) => {
                    &&& forall|i: int| 0 <= i < routes@.len() ==> route_ok(#[trigger] routes@[i]@)
                    &&& config.domain_suffix@.len() > 0
                    &&& config.timeout_ms == 0
                },
            },
    {
        let mut i: usize = 0;
        while i < routes.len()
            invariant
                i <= routes.len(),
                forall|j: int| 0 <= j < i ==> route_ok(#[trigger] routes@[j]@),
            decreases routes.len() - i,
        {
            let route = &routes[i];
            let ok = !route.prefix.as_str().is_empty() && route.prefix.as_str().get_char(0) == '/'
                && !route.service.as_str().is_empty();
            if !ok {
                return Err(Error::InvalidRoute(i));
            }
            i = i + 1;
        }
        if config.domain_suffix.as_str().is_empty() {
            return Err(Error::EmptyDomainSuffix);
        }
        if config.timeout_ms == 0 {
            return Err(Error::ZeroTimeout);
        }
        Ok(Router { table: RouteTable { routes }, config })
    }

    /// Starts resolving a request for `path`: an unknown path ends resolution
    /// with `RouteNotFound` and no query; a known one asks for the service's
    /// SRV records.
    pub fn begin(&self, path: &String) -> (r: Step)
        ensures
            match identify_spec(self.table@, path@) {
                None => r == Step::Done(Err(ResolutionError::RouteNotFound)),
                Some(s) => r matches Step::LookupSrv { name } && name@ == srv_query_spec(
                    s,
                    self.config.domain_suffix@,
                ),
            },
    {
        match self.table.identify(path) {
            None => Step::Done(Err(ResolutionError::RouteNotFound)),
            Some(s) => Step::LookupSrv {
                name: srv_query_name(s.as_str(), self.config.domain_suffix.as_str()),
            },
        }
    }

    /// Goes on from the SRV answer: a failed or empty lookup ends resolution
    /// with `ServiceUnavailable`; otherwise the record that `draw` selects
    /// gives the host to look up and the port to use.
    pub fn srv_answered(&self, answer: Result<Vec<SrvRecord>, LookupFailure>, draw: u64) -> (r: Step)
        ensures
            match answer {
                Err(f) => r == Step::Done(Err(ResolutionError::ServiceUnavailable(failure_spec(f)))),
                Ok(v) => if v@.len() == 0 {
                    r == Step::Done(Err(ResolutionError::ServiceUnavailable(DiscoveryError::NoRecords)))
                } else {
                    r matches Step::LookupA { host, port } && exists|i: int| {
                        &&& #[trigger] selects(v@, draw, i)
                        &&& without_trailing_dots(v@[i].target@, host@)
                        &&& port == v@[i].port
                    }
                },
            },
    {
        match srv_answer(answer) {
            Err(e) => Step::Done(Err(ResolutionError::ServiceUnavailable(e))),
            Ok(records) => {
                let i = select_srv(&records, draw);
                let host = trim_trailing_dots(records[i].target.as_str());
                Step::LookupA { host, port: records[i].port }
            },
        }
    }

    /// Finishes from the address answer for the selected host.
    pub fn a_answered(&self, port: u16, answer: &Result<Vec<IpAddress>, LookupFailure>) -> (r: Step)
        ensures
            r == Step::Done(
                match a_answer_spec(addr_view(*answer)) {
                    Err(e) => Err(ResolutionError::AddressResolutionFailed(e)),
                    Ok(x) => peer_spec(x, port),
                },
            ),
    {
        match a_answer(answer) {
            Err(e) => Step::Done(Err(ResolutionError::AddressResolutionFailed(e))),
            Ok(x) => Step::Done(make_peer(x, port)),
        }
    }

    /// Resolves a request for `path` from the given DNS answers, running the
    /// steps in order and stopping at the first failure.
    pub fn resolve_with(
        &self,
        path: &String,
        srv: Result<Vec<SrvRecord>, LookupFailure>,
        draw: u64,
        a: Result<Vec<IpAddress>, LookupFailure>,
    ) -> (r: Result<ResolvedPeer, ResolutionError>)
        ensures
            r == resolution_spec(self.table@, path@, srv_view(srv), draw, addr_view(a)),
    {
        let ghost srv_v = srv_view(srv);
        match self.begin(path) {
            Step::LookupSrv { .. } => {},
            Step::LookupA { .. } => {
                return unreached();
            },
            Step::Done(r) => {
                return r;
            },
        }
        match self.srv_answered(srv, draw) {
            Step::LookupA { host, port } => {
                proof {
                    let v = srv_v->Ok_0;
                    let i = choose|i: int| #[trigger] selects(v, draw, i) && without_trailing_dots(
                        v[i].target@,
                        host@,
                    ) && port == v[i].port;
                    let k = choose|k: int| selects(v, draw, k);
                    lemma_selection_unique(v, draw, i, k);
                }
                match self.a_answered(port, &a) {
                    Step::Done(r) => r,
                    _ => unreached(),
                }
            },
            Step::Done(r) => r,
            Step::LookupSrv { .. } => unreached(),
        }
    }
}

/// Under the built-in routing table, a path under `/service-a` belongs to
/// `service-a`, one under `/service-b` to `service-b`, and any other path to
/// no service.
pub proof fn lemma_default_identify(path: Seq<char>)
    ensures
        "/service-a"@.is_prefix_of(path) ==> identify_spec(default_routes(), path) == Some("service-a"@),
        "/service-b"@.is_prefix_of(path) ==> identify_spec(default_routes(), path) == Some("service-b"@),
        !"/service-a"@.is_prefix_of(path) && !"/service-b"@.is_prefix_of(path) ==> identify_spec(
            default_routes(),
            path,
        ) is None,
{
    reveal_strlit("/service-a");
    reveal_strlit("service-a");
    reveal_strlit("/service-b");
    reveal_strlit("service-b");
    let routes = default_routes();
    if "/service-a"@.is_prefix_of(path) {
        assert(path[9] == path.subrange(0, 10)[9]);
        assert(path[9] == 'a');
        if route_matches(routes, path, 1) {
            assert(path[9] == path.subrange(0, 10)[9]);
        }
        assert(chosen_route(routes, path, 0));
        let k = choose|k: int| chosen_route(routes, path, k);
        lemma_chosen_unique(routes, path, 0, k);
    } else if "/service-b"@.is_prefix_of(path) {
        assert(path[9] == path.subrange(0, 10)[9]);
        assert(path[9] == 'b');
        if route_matches(routes, path, 0) {
            assert(path[9] == path.subrange(0, 10)[9]);
        }
        assert(chosen_route(routes, path, 1));
        let k = choose|k: int| chosen_route(routes, path, k);
        lemma_chosen_unique(routes, path, 1, k);
    } else {
        if exists|k: int| chosen_route(routes, path, k) {
            let k = choose|k: int| chosen_route(routes, path, k);
            assert(route_matches(routes, path, k));
        }
    }
}

/// Resolution depends only on the request and the DNS answers: with the same
/// answers, a failure other than an unusable address comes out the same
/// whatever the selection draws, and a success connects to the same address;
/// only the selected record, and with it the port, may vary with the draw.
pub proof fn lemma_resolution_repeatable(
    routes: Seq<(Seq<char>, Seq<char>)>,
    path: Seq<char>,
    srv: Result<Seq<SrvRecord>, LookupFailure>,
    a: Result<Seq<IpAddress>, LookupFailure>,
    d1: u64,
    d2: u64,
)
    ensures
        resolution_spec(routes, path, srv, d1, a) is Err && resolution_spec(routes, path, srv, d1, a)->Err_0
            != ResolutionError::InvalidAddress ==> resolution_spec(routes, path, srv, d2, a)
            == resolution_spec(routes, path, srv, d1, a),
        resolution_spec(routes, path, srv, d1, a) is Ok && resolution_spec(routes, path, srv, d2, a) is Ok
            ==> resolution_spec(routes, path, srv, d1, a)->Ok_0.address == resolution_spec(routes, path, srv, d2, a)->Ok_0.address,
        resolution_spec(routes, path, srv, d1, a) is Ok ==> !resolution_spec(routes, path, srv, d1, a)->Ok_0.use_tls,
{
}

} // verus!
