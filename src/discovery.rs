use vstd::prelude::*;
use crate::addr::{first_ipv4, first_ipv4_spec, IpAddress, Ipv4Address};
use crate::srv::SrvRecord;

verus! {

/// How a lookup failed, as the DNS transport reports it.
#[derive(Clone, Copy, Debug, PartialEq, Eq, Structural)]
pub enum LookupFailure {
    /// No answer came within the configured timeout.
    Timeout,
    /// The server answered that the name has no records of the type asked.
    NoRecords,
    /// The query could not be completed: refused, unreachable, malformed.
    Transport,
}

/// Why discovery of a service or an address failed.
#[derive(Clone, Copy, Debug, PartialEq, Eq, Structural)]
pub enum DiscoveryError {
    NoRecords,
    NoAddress,
    TransportFailure,
    Timeout,
}

/// The transport protocol used to reach the name server.
#[derive(Clone, Copy, Debug, PartialEq, Eq, Structural)]
pub enum Protocol {
    Udp,
    Tcp,
    Tls,
}

/// Where and how DNS queries are sent.
pub struct ResolverConfig {
    pub nameserver: Ipv4Address,
    pub nameserver_port: u16,
    pub protocol: Protocol,
    pub domain_suffix: String,
    pub timeout_ms: u64,
}

pub open spec fn srv_query_spec(service: Seq<char>, suffix: Seq<char>) -> Seq<char> {
    seq!['_'] + service + seq!['.', '_', 't', 'c', 'p', '.'] + suffix
}

/// The SRV query name of a service: `_<service>._tcp.<suffix>`.
pub fn srv_query_name(service: &str, suffix: &str) -> (r: String)
    ensures
        r@ == srv_query_spec(service@, suffix@),
{
    let r = String::from_str("_").concat(service).concat("._tcp.").concat(suffix);
    proof {
        reveal_strlit("_");
        reveal_strlit("._tcp.");
    }
    assert(r@ =~= srv_query_spec(service@, suffix@));
    r
}

/// `t` is `s` without its trailing dots.
pub open spec fn without_trailing_dots(s: Seq<char>, t: Seq<char>) -> bool {
    &&& t.is_prefix_of(s)
    &&& t.len() == 0 || t.last() != '.'
    &&& forall|k: int| t.len() <= k < s.len() ==> s[k] == '.'
}

/// A host name with the dots at its end removed (`a.example.com.` becomes
/// `a.example.com`).
pub fn trim_trailing_dots(s: &str) -> (r: String)
    ensures
        without_trailing_dots(s@, r@),
{
    let mut end = s.unicode_len();
    while end > 0 && s.get_char(end - 1) == '.'
        invariant
            end <= s@.len(),
            forall|k: int| end <= k < s@.len() ==> s@[k] == '.',
        decreases end,
    {
        end = end - 1;
    }
    let r = s.substring_char(0, end).to_owned();
    assert(r@.is_prefix_of(s@));
    r
}

pub open spec fn failure_spec(f: LookupFailure) -> DiscoveryError {
    match f {
        LookupFailure::Timeout => DiscoveryError::Timeout,
        LookupFailure::NoRecords => DiscoveryError::NoRecords,
        LookupFailure::Transport => DiscoveryError::TransportFailure,
    }
}

/// The discovery error for a failed lookup.
pub fn failure_error(f: LookupFailure) -> (r: DiscoveryError)
    ensures
        r == failure_spec(f),
{
    match f {
        LookupFailure::Timeout => DiscoveryError::Timeout,
        LookupFailure::NoRecords => DiscoveryError::NoRecords,
        LookupFailure::Transport => DiscoveryError::TransportFailure,
    }
}

/// Interprets an SRV answer: the records found, with an empty set reported as
/// `NoRecords` rather than as an empty success.
pub fn srv_answer(answer: Result<Vec<SrvRecord>, LookupFailure>) -> (r: Result<
    Vec<SrvRecord>,
    DiscoveryError,
>)
    ensures
        match answer {
            Err(f) => r == Err::<Vec<SrvRecord>, DiscoveryError>(failure_spec(f)),
            Ok(v) => if v@.len() == 0 {
                r == Err::<Vec<SrvRecord>, DiscoveryError>(DiscoveryError::NoRecords)
            } else {
                r matches Ok(w) && w@ == v@
            },
        },
{
    match answer {
        Err(f) => Err(failure_error(f)),
        Ok(v) => {
            if v.len() == 0 {
                Err(DiscoveryError::NoRecords)
            } else {
                Ok(v)
            }
        },
    }
}

/// Interprets an address answer: its first IPv4 address, `NoAddress` when it
/// holds none.
pub fn a_answer(answer: &Result<Vec<IpAddress>, LookupFailure>) -> (r: Result<
    Ipv4Address,
    DiscoveryError,
>)
    ensures
        r == a_answer_spec(match answer {
            Ok(v) => Ok(v@),
            Err(f) => Err(*f),
        }),
{
    match answer {
        Err(f) => Err(failure_error(*f)),
        Ok(v) => match first_ipv4(v) {
            Some(x) => Ok(x),
            None => Err(DiscoveryError::NoAddress),
        },
    }
}

pub open spec fn a_answer_spec(answer: Result<Seq<IpAddress>, LookupFailure>) -> Result<
    Ipv4Address,
    DiscoveryError,
> {
    match answer {
        Err(f) => Err(failure_spec(f)),
        Ok(v) => match first_ipv4_spec(v) {
            Some(x) => Ok(x),
            None => Err(DiscoveryError::NoAddress),
        },
    }
}

} // verus!
