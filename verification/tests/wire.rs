use traefik_powerdns_bridge::model::DnsRecord;
use traefik_powerdns_bridge::model::DnsResponse;
use traefik_powerdns_bridge::model::Environment;
use traefik_powerdns_bridge::resolver::lookup;
use traefik_powerdns_bridge::wire::getalldomainmetadata;
use traefik_powerdns_bridge::wire::render_response;

fn record(qtype: &str, qname: &str, content: &str, ttl: u32) -> DnsRecord {
    DnsRecord {
        qtype: qtype.to_string(),
        qname: qname.to_string(),
        content: content.to_string(),
        ttl,
    }
}

#[test]
fn empty_response_renders_as_empty_result() {
    let response = DnsResponse { result: vec![] };
    assert_eq!(render_response(&response), "{\"result\":[]}");
}

#[test]
fn single_record_renders_with_all_fields() {
    let response = DnsResponse { result: vec![record("A", "svc.example.com", "10.0.0.5", 60)] };
    assert_eq!(
        render_response(&response),
        "{\"result\":[{\"qtype\":\"A\",\"qname\":\"svc.example.com\",\"content\":\"10.0.0.5\",\"ttl\":60}]}"
    );
}

#[test]
fn several_records_render_comma_separated_in_order() {
    let response = DnsResponse {
        result: vec![record("A", "a.com", "10.0.0.5", 60), record("NS", "b.com", "remote.local.", 30)],
    };
    assert_eq!(
        render_response(&response),
        "{\"result\":[{\"qtype\":\"A\",\"qname\":\"a.com\",\"content\":\"10.0.0.5\",\"ttl\":60},{\"qtype\":\"NS\",\"qname\":\"b.com\",\"content\":\"remote.local.\",\"ttl\":30}]}"
    );
}

#[test]
fn string_fields_are_escaped() {
    let response = DnsResponse { result: vec![record("A", "a\"b\\c", "x\ny\tz", 1)] };
    assert_eq!(
        render_response(&response),
        "{\"result\":[{\"qtype\":\"A\",\"qname\":\"a\\\"b\\\\c\",\"content\":\"x\\ny\\tz\",\"ttl\":1}]}"
    );
}

#[test]
fn control_characters_take_unicode_escapes() {
    let response = DnsResponse { result: vec![record("A", "\u{1}\u{1f}", "ok", 0)] };
    assert_eq!(
        render_response(&response),
        "{\"result\":[{\"qtype\":\"A\",\"qname\":\"\\u0001\\u001f\",\"content\":\"ok\",\"ttl\":0}]}"
    );
}

#[test]
fn escaping_agrees_with_a_json_library() {
    for sample in ["plain", "a\"b\\c", "x\ny\r\t\u{8}\u{c}z", "\u{0}\u{1f}", "caf\u{e9} \u{1f600}"] {
        let response = DnsResponse { result: vec![record(sample, "q", "c", 9)] };
        let rendered = render_response(&response);
        let expected = format!(
            "{{\"result\":[{{\"qtype\":{},\"qname\":\"q\",\"content\":\"c\",\"ttl\":9}}]}}",
            serde_json::to_string(sample).unwrap()
        );
        assert_eq!(rendered, expected);
    }
}

#[test]
fn rendered_response_parses_back() {
    let response = DnsResponse { result: vec![record("SOA", "example.com", "remote.local. admin.example.com. 1000 900 900 1800 60", 60)] };
    let rendered = render_response(&response);
    let value: serde_json::Value = serde_json::from_str(&rendered).unwrap();
    let records = value.get("result").unwrap().as_array().unwrap();
    assert_eq!(records.len(), 1);
    assert_eq!(records[0].get("qtype").unwrap(), "SOA");
    assert_eq!(records[0].get("ttl").unwrap(), 60);
}

#[test]
fn metadata_body_is_the_fixed_template() {
    assert_eq!(
        getalldomainmetadata("example.com"),
        "{\"result\":{\"id\":1,\"zone\":\"example.com\",\"kind\":\"NATIVE\",\"serial\":11}}"
    );
}

#[test]
fn example_scenario_end_to_end() {
    let environment = Environment {
        traefik_ip: "10.0.0.5".to_string(),
        traefik_api_port: 8080,
        my_zones: vec!["example.com".to_string()],
    };
    let body = b"[{\"rule\":\"Host(`svc.example.com`)\"}]";

    let a = lookup(&environment, "A", "svc.example.com", Some(body)).unwrap();
    assert_eq!(
        render_response(&a),
        "{\"result\":[{\"qtype\":\"A\",\"qname\":\"svc.example.com\",\"content\":\"10.0.0.5\",\"ttl\":60}]}"
    );

    let soa = lookup(&environment, "SOA", "example.com", None).unwrap();
    assert_eq!(
        render_response(&soa),
        "{\"result\":[{\"qtype\":\"SOA\",\"qname\":\"example.com\",\"content\":\"remote.local. admin.example.com. 1000 900 900 1800 60\",\"ttl\":60}]}"
    );

    let miss = lookup(&environment, "A", "other.com", Some(body)).unwrap();
    assert_eq!(render_response(&miss), "{\"result\":[]}");
}
