//! Router lookup against the proxy's router table: the request URL, the
//! decoding of the fetched table, and the verified rule-matching scan.
//!
//! The table arrives as a JSON array of open-ended objects; only the "rule"
//! entry of each object is read.  A domain is considered routed when at least
//! one rule contains the text ``Host(`domain`)`` as a substring.

use vstd::prelude::*;
use vstd::string::StringExecFns;
use crate::model::LookupError;
use crate::strutil::contains_seq;
use crate::strutil::contains_substring;
use crate::strutil::decimal_string;
use crate::strutil::spec_decimal;

verus! {

#[verifier::external_type_specification]
#[verifier::external_body]
pub struct ExValue(serde_json::Value);

#[verifier::external_type_specification]
#[verifier::external_body]
#[verifier::reject_recursive_types(K)]
#[verifier::reject_recursive_types(V)]
pub struct ExMap<K, V>(serde_json::Map<K, V>);

#[verifier::external_type_specification]
#[verifier::external_body]
pub struct ExJsonError(serde_json::Error);

/// The routing rule a router object carries: the characters of its "rule"
/// entry, or `None` when the entry is absent or not a string.
pub uninterp spec fn rule_of(m: serde_json::Map<String, serde_json::Value>) -> Option<Seq<char>>;

/// Whether a body decodes as a JSON array of objects.
pub uninterp spec fn router_table_wellformed(body: Seq<u8>) -> bool;

/// The rules of the router objects a well-formed body decodes to, in order.
pub uninterp spec fn router_table_rules(body: Seq<u8>) -> Seq<Option<Seq<char>>>;

/// The rules of a decoded router table, in order.
pub open spec fn rules_of_table(t: Seq<serde_json::Map<String, serde_json::Value>>) -> Seq<
    Option<Seq<char>>,
> {
    t.map_values(|m: serde_json::Map<String, serde_json::Value>| rule_of(m))
}

/// Relies on `serde_json::Map::get` and `serde_json::Value::as_str`: reads
/// the object's "rule" entry when it is present and holds a string.  The
/// result depends on the object alone.
#[verifier::external_body]
fn router_rule(m: &serde_json::Map<String, serde_json::Value>) -> (r: Option<String>)
    ensures
        rule_of(*m) == (match r {
            Some(s) => Some(s@),
            None => None::<Seq<char>>,
        }),
{
    match m.get("rule").and_then(|v| v.as_str()) {
        Some(s) => Some(s.to_owned()),
        None => None,
    }
}

/// Relies on `serde_json::from_slice`: decodes the body as a JSON array of
/// objects; invalid JSON, or any other JSON shape, is an error.  The outcome
/// and the decoded objects depend on the bytes alone.
#[verifier::external_body]
fn decode_router_table(body: &[u8]) -> (r: Result<
    Vec<serde_json::Map<String, serde_json::Value>>,
    serde_json::Error,
>)
    ensures
        r is Ok <==> router_table_wellformed(body@),
        (r matches Ok(v) ==> rules_of_table(v@) == router_table_rules(body@)),
{
    serde_json::from_slice(body)
}

/// The needle looked for in a routing rule: the text ``Host(`domain`)``.
pub open spec fn host_needle(domain: Seq<char>) -> Seq<char> {
    "Host(`"@ + domain + "`)"@
}

/// Builds the needle ``Host(`domain`)`` for the queried domain.
pub fn build_host_needle(domain: &str) -> (r: String)
    ensures
        r@ == host_needle(domain@),
{
    let mut r = String::from_str("Host(`");
    r.append(domain);
    r.append("`)");
    proof {
        assert(r@ =~= host_needle(domain@));
    }
    r
}

/// A single rule routes the domain: it is a string and contains the needle.
pub open spec fn rule_matches(rule: Option<Seq<char>>, domain: Seq<char>) -> bool {
    match rule {
        Some(s) => contains_seq(s, host_needle(domain)),
        None => false,
    }
}

/// At least one rule in the table routes the domain.
pub open spec fn any_rule_matches(rules: Seq<Option<Seq<char>>>, domain: Seq<char>) -> bool {
    exists|i: int| 0 <= i < rules.len() && rule_matches(rules[i], domain)
}

/// Scans the decoded router table for a rule that routes the domain.
pub fn has_domain(
    routers: &Vec<serde_json::Map<String, serde_json::Value>>,
    domain: &str,
) -> (r: bool)
    ensures
        r == any_rule_matches(rules_of_table(routers@), domain@),
{
    let needle = build_host_needle(domain);
    let mut i: usize = 0;
    while i < routers.len()
        invariant
            needle@ == host_needle(domain@),
            i <= routers@.len(),
            forall|j: int|
                0 <= j < i ==> !rule_matches(#[trigger] rules_of_table(routers@)[j], domain@),
        decreases routers@.len() - i,
    {
        let rule = router_rule(&routers[i]);
        match rule {
            Some(s) => {
                if contains_substring(s.as_str(), needle.as_str()) {
                    proof {
                        assert(rule_matches(rules_of_table(routers@)[i as int], domain@));
                    }
                    return true;
                }
            },
            None => {},
        }
        i = i + 1;
    }
    false
}

/// Answers whether the proxy routes the domain, from the fetched router-table
/// body: decode it, then scan the rules for the exact needle.
pub fn check_if_domain_exists(body: &[u8], domain: &str) -> (r: Result<bool, LookupError>)
    ensures
        r is Ok <==> router_table_wellformed(body@),
        (r matches Ok(found) ==> found == any_rule_matches(router_table_rules(body@), domain@)),
        !router_table_wellformed(body@) ==> r == Err::<bool, LookupError>(LookupError::BadBody),
{
    match decode_router_table(body) {
        Ok(routers) => Ok(has_domain(&routers, domain)),
        Err(_) => Err(LookupError::BadBody),
    }
}

/// The proxy API endpoint the router table is fetched from.
pub open spec fn spec_router_table_url(ip: Seq<char>, port: u16) -> Seq<char> {
    "http://"@ + ip + ":"@ + spec_decimal(port as nat) + "/api/http/routers"@
}

/// Builds the URL of the proxy's router-table endpoint.
pub fn router_table_url(traefik_ip: &str, api_port: u16) -> (r: String)
    ensures
        r@ == spec_router_table_url(traefik_ip@, api_port),
{
    let mut r = String::from_str("http://");
    r.append(traefik_ip);
    r.append(":");
    let port = decimal_string(api_port as u64);
    r.append(port.as_str());
    r.append("/api/http/routers");
    proof {
        assert(r@ =~= spec_router_table_url(traefik_ip@, api_port));
    }
    r
}

} // verus!
