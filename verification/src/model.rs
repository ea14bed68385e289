//! The data the bridge works on: DNS records and responses, the static
//! configuration, the query-type enumeration and the lookup error.

use vstd::prelude::*;

verus! {

/// A single DNS resource record, as the remote-backend wire format carries it.
#[derive(Debug)]
pub struct DnsRecord {
    pub qtype: String,
    pub qname: String,
    pub content: String,
    pub ttl: u32,
}

/// Mathematical model of a [`DnsRecord`]: the same four fields with the
/// strings abstracted to character sequences.
pub struct RecordModel {
    pub qtype: Seq<char>,
    pub qname: Seq<char>,
    pub content: Seq<char>,
    pub ttl: u32,
}

impl View for DnsRecord {
    type V = RecordModel;

    open spec fn view(&self) -> RecordModel {
        RecordModel {
            qtype: self.qtype@,
            qname: self.qname@,
            content: self.content@,
            ttl: self.ttl,
        }
    }
}

/// An ordered sequence of zero or more records; every current code path
/// produces zero or one.
#[derive(Debug)]
pub struct DnsResponse {
    pub result: Vec<DnsRecord>,
}

impl View for DnsResponse {
    type V = Seq<RecordModel>;

    open spec fn view(&self) -> Seq<RecordModel> {
        self.result@.map_values(|r: DnsRecord| r@)
    }
}

/// Mathematical model of the configuration.
pub struct EnvironmentModel {
    pub traefik_ip: Seq<char>,
    pub traefik_api_port: u16,
    pub my_zones: Seq<Seq<char>>,
}

/// The immutable process-lifetime configuration: the proxy's address and API
/// port, and the zones this server is authoritative for.
#[derive(Clone)]
pub struct Environment {
    pub traefik_ip: String,
    pub traefik_api_port: u16,
    pub my_zones: Vec<String>,
}

/// The character sequences of a list of strings, in order.
pub open spec fn seqs_of(zones: Seq<String>) -> Seq<Seq<char>> {
    zones.map_values(|z: String| z@)
}

impl View for Environment {
    type V = EnvironmentModel;

    open spec fn view(&self) -> EnvironmentModel {
        EnvironmentModel {
            traefik_ip: self.traefik_ip@,
            traefik_api_port: self.traefik_api_port,
            my_zones: seqs_of(self.my_zones@),
        }
    }
}

/// The DNS query types the resolver distinguishes.  Anything but the four
/// supported spellings is `Unsupported` and resolves to an empty answer.
#[derive(PartialEq, Eq, Structural, Clone, Copy, Debug)]
pub enum QueryType {
    A,
    Any,
    Soa,
    Ns,
    Unsupported,
}

/// Why a router lookup failed: the router table could not be fetched from the
/// proxy, or the fetched body was not a JSON array of objects.
#[derive(PartialEq, Eq, Structural, Clone, Copy, Debug)]
pub enum LookupError {
    FetchFailed,
    BadBody,
}

impl LookupError {
    /// A short description, for diagnostics at the serving edge.
    pub fn describe(&self) -> (r: &'static str)
        ensures
            *self == LookupError::FetchFailed ==> r@ == "router table fetch failed"@,
            *self == LookupError::BadBody ==> r@ == "router table body was not a JSON array of objects"@,
    {
        match self {
            LookupError::FetchFailed => "router table fetch failed",
            LookupError::BadBody => "router table body was not a JSON array of objects",
        }
    }
}

} // verus!
