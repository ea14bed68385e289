use traefik_powerdns_bridge::model::LookupError;
use traefik_powerdns_bridge::traefik::build_host_needle;
use traefik_powerdns_bridge::traefik::check_if_domain_exists;
use traefik_powerdns_bridge::traefik::has_domain;
use traefik_powerdns_bridge::traefik::router_table_url;

fn router_with_rule(rule: &str) -> serde_json::Map<String, serde_json::Value> {
    let mut object = serde_json::Map::new();
    object.insert("rule".to_string(), serde_json::Value::String(rule.to_string()));
    object
}

#[test]
fn needle_is_the_exact_host_clause() {
    assert_eq!(build_host_needle("a.com"), "Host(`a.com`)");
    assert_eq!(build_host_needle(""), "Host(``)");
}

#[test]
fn router_url_has_address_port_and_path() {
    assert_eq!(router_table_url("10.0.0.5", 8080), "http://10.0.0.5:8080/api/http/routers");
    assert_eq!(router_table_url("proxy.lan", 80), "http://proxy.lan:80/api/http/routers");
    assert_eq!(router_table_url("h", 65535), "http://h:65535/api/http/routers");
}

#[test]
fn combined_rule_matches_both_hosts() {
    let routers = vec![router_with_rule("Host(`a.com`) || Host(`b.com`)")];
    assert!(has_domain(&routers, "a.com"));
    assert!(has_domain(&routers, "b.com"));
    assert!(!has_domain(&routers, "c.com"));
}

#[test]
fn needle_does_not_match_a_suffix_host() {
    let routers = vec![router_with_rule("Host(`notb.com`)")];
    assert!(!has_domain(&routers, "b.com"));
    assert!(has_domain(&routers, "notb.com"));
}

#[test]
fn matching_is_case_sensitive() {
    let routers = vec![router_with_rule("Host(`A.com`)")];
    assert!(!has_domain(&routers, "a.com"));
    assert!(has_domain(&routers, "A.com"));
}

#[test]
fn router_without_rule_entry_does_not_match() {
    let mut object = serde_json::Map::new();
    object.insert("service".to_string(), serde_json::Value::String("web".to_string()));
    let routers = vec![object, router_with_rule("Host(`a.com`)")];
    assert!(has_domain(&routers, "a.com"));
    assert!(!has_domain(&routers, "web"));
}

#[test]
fn router_with_non_string_rule_does_not_match() {
    let mut object = serde_json::Map::new();
    object.insert("rule".to_string(), serde_json::Value::from(7));
    let routers = vec![object];
    assert!(!has_domain(&routers, "7"));
}

#[test]
fn empty_router_list_matches_nothing() {
    let routers = Vec::new();
    assert!(!has_domain(&routers, "a.com"));
}

#[test]
fn body_scan_finds_routed_domain() {
    let body = b"[{\"rule\":\"Host(`a.com`) || Host(`b.com`)\"},{\"service\":\"web\"}]";
    assert_eq!(check_if_domain_exists(body, "a.com"), Ok(true));
    assert_eq!(check_if_domain_exists(body, "b.com"), Ok(true));
    assert_eq!(check_if_domain_exists(body, "c.com"), Ok(false));
}

#[test]
fn body_scan_tolerates_unrelated_fields() {
    let body = b"[{\"entryPoints\":[\"web\"],\"rule\":\"Host(`a.com`)\",\"priority\":2}]";
    assert_eq!(check_if_domain_exists(body, "a.com"), Ok(true));
}

#[test]
fn empty_array_body_is_success_without_match() {
    assert_eq!(check_if_domain_exists(b"[]", "a.com"), Ok(false));
}

#[test]
fn malformed_body_is_a_lookup_error() {
    assert_eq!(check_if_domain_exists(b"", "a.com"), Err(LookupError::BadBody));
    assert_eq!(check_if_domain_exists(b"{}", "a.com"), Err(LookupError::BadBody));
    assert_eq!(check_if_domain_exists(b"[1,2]", "a.com"), Err(LookupError::BadBody));
}
