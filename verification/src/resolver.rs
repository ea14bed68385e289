//! The query resolver: dispatch on the query type, zone membership for
//! SOA/NS answers, and assembly of the zero-or-one-record responses.

use vstd::prelude::*;
use vstd::string::StringExecFns;
use crate::model::DnsRecord;
use crate::model::DnsResponse;
use crate::model::Environment;
use crate::model::EnvironmentModel;
use crate::model::LookupError;
use crate::model::QueryType;
use crate::model::RecordModel;
use crate::model::seqs_of;
use crate::strutil::str_eq;
use crate::traefik::any_rule_matches;
use crate::traefik::check_if_domain_exists;
use crate::traefik::host_needle;
use crate::traefik::router_table_rules;
use crate::traefik::router_table_wellformed;
use crate::traefik::rule_matches;
use crate::strutil::lemma_contains_self;

verus! {

/// The A record answered for a routed domain: it points at the proxy.
pub open spec fn a_record(domain: Seq<char>, ip: Seq<char>) -> RecordModel {
    RecordModel { qtype: "A"@, qname: domain, content: ip, ttl: 60 }
}

/// The fixed SOA content template, with the queried domain substituted into
/// the responsible-mailbox field.
pub open spec fn soa_content(domain: Seq<char>) -> Seq<char> {
    "remote.local. admin."@ + domain + ". 1000 900 900 1800 60"@
}

/// The SOA record answered for a configured zone.
pub open spec fn soa_record(domain: Seq<char>) -> RecordModel {
    RecordModel { qtype: "SOA"@, qname: domain, content: soa_content(domain), ttl: 60 }
}

/// The NS record answered for a configured zone.
pub open spec fn ns_record(domain: Seq<char>) -> RecordModel {
    RecordModel { qtype: "NS"@, qname: domain, content: "remote.local."@, ttl: 60 }
}

/// The domain is one of the configured zones, by exact string equality.
pub open spec fn spec_zone_member(zones: Seq<Seq<char>>, domain: Seq<char>) -> bool {
    exists|i: int| 0 <= i < zones.len() && zones[i] == domain
}

/// Scans the configured zones for an exact match with the domain.
pub fn zone_member(zones: &Vec<String>, domain: &str) -> (r: bool)
    ensures
        r == spec_zone_member(seqs_of(zones@), domain@),
{
    let mut i: usize = 0;
    while i < zones.len()
        invariant
            i <= zones@.len(),
            forall|j: int| 0 <= j < i ==> #[trigger] seqs_of(zones@)[j] != domain@,
        decreases zones@.len() - i,
    {
        if str_eq(zones[i].as_str(), domain) {
            proof {
                assert(seqs_of(zones@)[i as int] == domain@);
            }
            return true;
        }
        i = i + 1;
    }
    false
}

/// The answer to an A or ANY query, given the rules the proxy reports:
/// one A record pointing at the proxy when some rule routes the domain,
/// else empty.
pub open spec fn spec_a_response(
    rules: Seq<Option<Seq<char>>>,
    domain: Seq<char>,
    ip: Seq<char>,
) -> Seq<RecordModel> {
    if any_rule_matches(rules, domain) {
        seq![a_record(domain, ip)]
    } else {
        Seq::empty()
    }
}

/// The answer to an SOA query: one SOA record when the domain is a
/// configured zone, else empty.
pub open spec fn spec_soa_response(zones: Seq<Seq<char>>, domain: Seq<char>) -> Seq<RecordModel> {
    if spec_zone_member(zones, domain) {
        seq![soa_record(domain)]
    } else {
        Seq::empty()
    }
}

/// The answer to an NS query: one NS record when the domain is a configured
/// zone, else empty.
pub open spec fn spec_ns_response(zones: Seq<Seq<char>>, domain: Seq<char>) -> Seq<RecordModel> {
    if spec_zone_member(zones, domain) {
        seq![ns_record(domain)]
    } else {
        Seq::empty()
    }
}

/// Builds the SOA content string for the queried domain.
pub fn build_soa_content(domain: &str) -> (r: String)
    ensures
        r@ == soa_content(domain@),
{
    let mut r = String::from_str("remote.local. admin.");
    r.append(domain);
    r.append(". 1000 900 900 1800 60");
    proof {
        assert(r@ =~= soa_content(domain@));
    }
    r
}

/// Answers an SOA query for the domain against the configured zones.
pub fn respond_to_soa_request(environment: &Environment, domain: &str) -> (r: DnsResponse)
    ensures
        r@ == spec_soa_response(environment@.my_zones, domain@),
{
    let found = zone_member(&environment.my_zones, domain);
    let mut result: Vec<DnsRecord> = Vec::new();
    if found {
        result.push(
            DnsRecord {
                qtype: String::from_str("SOA"),
                qname: domain.to_owned(),
                content: build_soa_content(domain),
                ttl: 60,
            },
        );
    }
    let r = DnsResponse { result };
    proof {
        assert(r@ =~= spec_soa_response(environment@.my_zones, domain@));
    }
    r
}

/// Answers an NS query for the domain against the configured zones.
pub fn respond_to_ns_request(environment: &Environment, domain: &str) -> (r: DnsResponse)
    ensures
        r@ == spec_ns_response(environment@.my_zones, domain@),
{
    let found = zone_member(&environment.my_zones, domain);
    let mut result: Vec<DnsRecord> = Vec::new();
    if found {
        result.push(
            DnsRecord {
                qtype: String::from_str("NS"),
                qname: domain.to_owned(),
                content: String::from_str("remote.local."),
                ttl: 60,
            },
        );
    }
    let r = DnsResponse { result };
    proof {
        assert(r@ =~= spec_ns_response(environment@.my_zones, domain@));
    }
    r
}

/// Answers an A or ANY query for the domain, given the router-table body
/// fetched from the proxy: decode it, scan the rules, and answer one A
/// record pointing at the proxy when the domain is routed.
pub fn respond_to_a_request(
    environment: &Environment,
    domain: &str,
    router_table: &[u8],
) -> (r: Result<DnsResponse, LookupError>)
    ensures
        r is Ok <==> router_table_wellformed(router_table@),
        (r matches Ok(resp) ==> resp@ == spec_a_response(
            router_table_rules(router_table@),
            domain@,
            environment@.traefik_ip,
        )),
        !router_table_wellformed(router_table@) ==> r == Err::<DnsResponse, LookupError>(
            LookupError::BadBody,
        ),
{
    let found = match check_if_domain_exists(router_table, domain) {
        Ok(b) => b,
        Err(e) => {
            return Err(e);
        },
    };
    let mut result: Vec<DnsRecord> = Vec::new();
    if found {
        result.push(
            DnsRecord {
                qtype: String::from_str("A"),
                qname: domain.to_owned(),
                content: environment.traefik_ip.clone(),
                ttl: 60,
            },
        );
    }
    let r = DnsResponse { result };
    proof {
        assert(r@ =~= spec_a_response(
            router_table_rules(router_table@),
            domain@,
            environment@.traefik_ip,
        ));
    }
    Ok(r)
}

/// The query type a raw spelling denotes, by exact, case-sensitive match.
pub open spec fn spec_query_type(s: Seq<char>) -> QueryType {
    if s == "A"@ {
        QueryType::A
    } else if s == "ANY"@ {
        QueryType::Any
    } else if s == "SOA"@ {
        QueryType::Soa
    } else if s == "NS"@ {
        QueryType::Ns
    } else {
        QueryType::Unsupported
    }
}

/// Decides the query type once, at the boundary.
pub fn parse_query_type(qtype: &str) -> (q: QueryType)
    ensures
        q == spec_query_type(qtype@),
{
    if str_eq(qtype, "A") {
        QueryType::A
    } else if str_eq(qtype, "ANY") {
        QueryType::Any
    } else if str_eq(qtype, "SOA") {
        QueryType::Soa
    } else if str_eq(qtype, "NS") {
        QueryType::Ns
    } else {
        QueryType::Unsupported
    }
}

/// The view of an optional router-table body.
pub open spec fn opt_view(table: Option<&[u8]>) -> Option<Seq<u8>> {
    match table {
        Some(b) => Some(b@),
        None => None,
    }
}

/// The view of a resolution result.
pub open spec fn response_result_view(r: Result<DnsResponse, LookupError>) -> Result<
    Seq<RecordModel>,
    LookupError,
> {
    match r {
        Ok(resp) => Ok(resp@),
        Err(e) => Err(e),
    }
}

/// What resolving one query answers, as a function of the configuration,
/// the query, and the router table the proxy reported (`None` when the
/// fetch failed; only A and ANY queries consult it).
pub open spec fn spec_lookup(
    env: EnvironmentModel,
    qtype: Seq<char>,
    domain: Seq<char>,
    table: Option<Seq<u8>>,
) -> Result<Seq<RecordModel>, LookupError> {
    let q = spec_query_type(qtype);
    if q == QueryType::A || q == QueryType::Any {
        match table {
            Option::None => Err(LookupError::FetchFailed),
            Option::Some(body) => if router_table_wellformed(body) {
                Ok(spec_a_response(router_table_rules(body), domain, env.traefik_ip))
            } else {
                Err(LookupError::BadBody)
            },
        }
    } else if q == QueryType::Soa {
        Ok(spec_soa_response(env.my_zones, domain))
    } else if q == QueryType::Ns {
        Ok(spec_ns_response(env.my_zones, domain))
    } else {
        Ok(Seq::empty())
    }
}

/// Resolves one query: dispatches on the query type, answers SOA/NS from the
/// configured zones, A/ANY from the fetched router table, and anything else
/// with a successful empty answer.  `router_table` is the body fetched from
/// the proxy for this query, or `None` when the fetch failed or was not
/// attempted.
pub fn lookup(
    environment: &Environment,
    qtype: &str,
    domain: &str,
    router_table: Option<&[u8]>,
) -> (r: Result<DnsResponse, LookupError>)
    ensures
        response_result_view(r) == spec_lookup(
            environment@,
            qtype@,
            domain@,
            opt_view(router_table),
        ),
{
    let q = parse_query_type(qtype);
    match q {
        QueryType::A | QueryType::Any => match router_table {
            Some(body) => respond_to_a_request(environment, domain, body),
            None => Err(LookupError::FetchFailed),
        },
        QueryType::Soa => Ok(respond_to_soa_request(environment, domain)),
        QueryType::Ns => Ok(respond_to_ns_request(environment, domain)),
        QueryType::Unsupported => {
            let r = DnsResponse { result: Vec::new() };
            proof {
                assert(r@ =~= Seq::<RecordModel>::empty());
            }
            Ok(r)
        },
    }
}

/// For every configured zone, an SOA or NS query on it answers exactly one
/// record, with the queried domain as its name, TTL 60 and the fixed content
/// template; a domain outside the zone set answers empty.
pub proof fn lemma_zone_authority(
    env: EnvironmentModel,
    qtype: Seq<char>,
    domain: Seq<char>,
    table: Option<Seq<u8>>,
)
    requires
        spec_query_type(qtype) == QueryType::Soa || spec_query_type(qtype) == QueryType::Ns,
    ensures
        spec_zone_member(env.my_zones, domain) ==> (spec_lookup(env, qtype, domain, table)
            matches Ok(rs) && rs.len() == 1 && rs[0] == (if spec_query_type(qtype)
            == QueryType::Soa {
            soa_record(domain)
        } else {
            ns_record(domain)
        }) && rs[0].qname == domain && rs[0].ttl == 60),
        !spec_zone_member(env.my_zones, domain) ==> spec_lookup(env, qtype, domain, table)
            == Ok::<Seq<RecordModel>, LookupError>(Seq::empty()),
{
}

/// For every domain, an A (or ANY) query whose router table holds a router
/// with the exact rule ``Host(`domain`)`` answers exactly one A record whose
/// content is the proxy address and whose TTL is 60; a table in which no
/// rule routes the domain answers empty.
pub proof fn lemma_a_query(
    env: EnvironmentModel,
    qtype: Seq<char>,
    domain: Seq<char>,
    body: Seq<u8>,
)
    requires
        spec_query_type(qtype) == QueryType::A || spec_query_type(qtype) == QueryType::Any,
        router_table_wellformed(body),
    ensures
        (exists|i: int|
            0 <= i < router_table_rules(body).len() && router_table_rules(body)[i] == Some(
                host_needle(domain),
            )) ==> spec_lookup(env, qtype, domain, Some(body)) == Ok::<
            Seq<RecordModel>,
            LookupError,
        >(seq![a_record(domain, env.traefik_ip)]),
        !any_rule_matches(router_table_rules(body), domain) ==> spec_lookup(
            env,
            qtype,
            domain,
            Some(body),
        ) == Ok::<Seq<RecordModel>, LookupError>(Seq::empty()),
{
    let rules = router_table_rules(body);
    if exists|i: int| 0 <= i < rules.len() && rules[i] == Some(host_needle(domain)) {
        let i = choose|i: int| 0 <= i < rules.len() && rules[i] == Some(host_needle(domain));
        lemma_contains_self(host_needle(domain));
        assert(rule_matches(rules[i], domain));
        assert(any_rule_matches(rules, domain));
    }
}

/// An ANY query is resolved exactly as an A query, for every domain,
/// configuration and router table.
pub proof fn lemma_any_same_as_a(
    env: EnvironmentModel,
    domain: Seq<char>,
    table: Option<Seq<u8>>,
)
    ensures
        spec_lookup(env, "ANY"@, domain, table) == spec_lookup(env, "A"@, domain, table),
{
    reveal_strlit("ANY");
    reveal_strlit("A");
    assert(spec_query_type("A"@) == QueryType::A);
    assert("ANY"@.len() == 3);
    assert(spec_query_type("ANY"@) == QueryType::Any);
}

/// Resolution is a function of the configuration, the query and the router
/// table alone: two identical queries against one and the same table answer
/// one and the same response.
pub proof fn lemma_lookup_idempotent(
    env: EnvironmentModel,
    qtype: Seq<char>,
    domain: Seq<char>,
    table: Option<Seq<u8>>,
    r1: Result<Seq<RecordModel>, LookupError>,
    r2: Result<Seq<RecordModel>, LookupError>,
)
    requires
        r1 == spec_lookup(env, qtype, domain, table),
        r2 == spec_lookup(env, qtype, domain, table),
    ensures
        r1 == r2,
{
}

/// An unrecognized query type answers a successful empty result, never an
/// error, whatever the domain and the router table.
pub proof fn lemma_unsupported_query(
    env: EnvironmentModel,
    qtype: Seq<char>,
    domain: Seq<char>,
    table: Option<Seq<u8>>,
)
    requires
        spec_query_type(qtype) == QueryType::Unsupported,
    ensures
        spec_lookup(env, qtype, domain, table) == Ok::<Seq<RecordModel>, LookupError>(
            Seq::empty(),
        ),
{
}

/// An A or ANY query fails exactly when its own router table is missing or
/// malformed: with no fetched table it fails as a fetch failure, with a
/// malformed body as a bad body, and with any well-formed body it succeeds.
/// The outcome depends on that query's table alone, so a failure for one
/// query never affects another.
pub proof fn lemma_lookup_failure(env: EnvironmentModel, qtype: Seq<char>, domain: Seq<char>)
    requires
        spec_query_type(qtype) == QueryType::A || spec_query_type(qtype) == QueryType::Any,
    ensures
        spec_lookup(env, qtype, domain, None) == Err::<Seq<RecordModel>, LookupError>(
            LookupError::FetchFailed,
        ),
        forall|body: Seq<u8>|
            !router_table_wellformed(body) ==> #[trigger] spec_lookup(env, qtype, domain, Some(body))
                == Err::<Seq<RecordModel>, LookupError>(LookupError::BadBody),
        forall|body: Seq<u8>|
            router_table_wellformed(body) ==> #[trigger] spec_lookup(env, qtype, domain, Some(body))
                is Ok,
{
}

} // verus!
