use maxine_client::address::{legacy_identity, parse_address, AddressFormatError};
use maxine_client::json::{Json, JsonNumber};
use maxine_client::model::{Anomaly, HealthScore, MalformedResponse};
use maxine_client::request::{HttpMethod, HttpRequest, MaxineClient};
use maxine_client::response::{
    interpret_anomalies, interpret_discover, interpret_health_scores, interpret_heartbeat,
    interpret_register, interpret_servers, interpret_service, interpret_services,
    interpret_versions,
};

fn obj(fields: Vec<(&str, Json)>) -> Json {
    Json::Object(fields.into_iter().map(|(k, v)| (k.to_string(), v)).collect())
}

fn text(s: &str) -> Json {
    Json::Text(s.to_string())
}

fn num(n: i64) -> Json {
    Json::Number(JsonNumber::Int(n))
}

fn jeq(a: &Json, b: &Json) -> bool {
    match (a, b) {
        (Json::Null, Json::Null) => true,
        (Json::Bool(x), Json::Bool(y)) => x == y,
        (Json::Number(x), Json::Number(y)) => x == y,
        (Json::Text(x), Json::Text(y)) => x == y,
        (Json::Array(x), Json::Array(y)) => {
            x.len() == y.len() && x.iter().zip(y.iter()).all(|(p, q)| jeq(p, q))
        }
        (Json::Object(x), Json::Object(y)) => {
            x.len() == y.len()
                && x.iter().zip(y.iter()).all(|(p, q)| p.0 == q.0 && jeq(&p.1, &q.1))
        }
        _ => false,
    }
}

// --- legacy address parsing ---

#[test]
fn parse_address_valid() {
    let (host, port) = parse_address("example.com:8080").unwrap();
    assert_eq!(host, "example.com");
    assert_eq!(port, 8080);
}

#[test]
fn parse_address_no_colon() {
    assert_eq!(parse_address("localhost"), Err(AddressFormatError::Shape));
}

#[test]
fn parse_address_two_colons() {
    assert_eq!(parse_address("a:b:c"), Err(AddressFormatError::Shape));
    assert_eq!(parse_address("::"), Err(AddressFormatError::Shape));
}

#[test]
fn parse_address_bad_port() {
    assert_eq!(parse_address("h:80x"), Err(AddressFormatError::Port));
    assert_eq!(parse_address("h:"), Err(AddressFormatError::Port));
    assert_eq!(parse_address("h:+80"), Err(AddressFormatError::Port));
    assert_eq!(parse_address("h: 80"), Err(AddressFormatError::Port));
}

#[test]
fn parse_address_port_bounds() {
    assert_eq!(parse_address("h:65535").unwrap().1, 65535);
    assert_eq!(parse_address("h:65536"), Err(AddressFormatError::Port));
    assert_eq!(parse_address("h:99999999999999999999"), Err(AddressFormatError::Port));
    assert_eq!(parse_address("h:0").unwrap().1, 0);
    assert_eq!(parse_address("h:0080").unwrap().1, 80);
}

#[test]
fn parse_address_empty_host_is_accepted() {
    let (host, port) = parse_address(":443").unwrap();
    assert_eq!(host, "");
    assert_eq!(port, 443);
}

#[test]
fn legacy_identity_joins_with_colon() {
    assert_eq!(legacy_identity("svcA", "n1"), "svcA:n1");
    assert_eq!(legacy_identity("", ""), ":");
}

// --- client construction ---

#[test]
fn new_trims_trailing_slashes() {
    let c = MaxineClient::new("http://reg:8080///");
    assert_eq!(c.base_url, "http://reg:8080");
    assert_eq!(c.api_key, None);
    let c2 = MaxineClient::new("http://reg:8080");
    assert_eq!(c2.base_url, "http://reg:8080");
}

#[test]
fn with_api_key_attaches_credential_to_requests() {
    let c = MaxineClient::new("http://reg").with_api_key("s3cret");
    assert_eq!(c.api_key.as_deref(), Some("s3cret"));
    let req = c.servers_request();
    assert_eq!(req.api_key.as_deref(), Some("s3cret"));
    let bare = MaxineClient::new("http://reg");
    assert_eq!(bare.servers_request().api_key, None);
}

// --- request plans ---

#[test]
fn discover_request_without_filters() {
    let c = MaxineClient::new("http://reg");
    let req = c.discover_request("web", None, None, None);
    assert_eq!(req.method, HttpMethod::Get);
    assert_eq!(req.url, "http://reg/discover?serviceName=web");
    assert!(req.body.is_none());
}

#[test]
fn discover_request_with_all_filters() {
    let c = MaxineClient::new("http://reg");
    let tags = vec!["edge".to_string(), "ssd".to_string(), "eu".to_string()];
    let req = c.discover_request("web", Some("round-robin"), Some("2.0"), Some(&tags));
    assert_eq!(
        req.url,
        "http://reg/discover?serviceName=web&loadBalancing=round-robin&version=2.0&tags=edge,ssd,eu"
    );
}

#[test]
fn discover_request_with_one_tag() {
    let c = MaxineClient::new("http://reg");
    let tags = vec!["edge".to_string()];
    let req = c.discover_request("web", None, None, Some(&tags));
    assert_eq!(req.url, "http://reg/discover?serviceName=web&tags=edge");
}

#[test]
fn legacy_discover_is_unfiltered() {
    let c = MaxineClient::new("http://reg");
    let req = c.legacy_discover_request("web");
    assert_eq!(req.url, c.discover_request("web", None, None, None).url);
}

#[test]
fn register_request_carries_coordinates() {
    let c = MaxineClient::new("http://reg");
    let req = c.register_request("svcA", "10.0.0.5", 9000, None);
    assert_eq!(req.method, HttpMethod::Post);
    assert_eq!(req.url, "http://reg/register");
    let expected = obj(vec![
        ("serviceName", text("svcA")),
        ("host", text("10.0.0.5")),
        ("port", Json::Number(JsonNumber::UInt(9000))),
    ]);
    assert!(jeq(req.body.as_ref().unwrap(), &expected));
}

#[test]
fn register_request_with_metadata() {
    let c = MaxineClient::new("http://reg");
    let meta = obj(vec![("zone", text("eu-1"))]);
    let req = c.register_request("svcA", "h", 1, Some(meta));
    let expected = obj(vec![
        ("serviceName", text("svcA")),
        ("host", text("h")),
        ("port", Json::Number(JsonNumber::UInt(1))),
        ("metadata", obj(vec![("zone", text("eu-1"))])),
    ]);
    assert!(jeq(req.body.as_ref().unwrap(), &expected));
}

#[test]
fn heartbeat_request_names_identity() {
    let c = MaxineClient::new("http://reg");
    let req = c.heartbeat_request("node-7");
    assert_eq!(req.method, HttpMethod::Post);
    assert_eq!(req.url, "http://reg/heartbeat");
    let expected = obj(vec![("nodeId", text("node-7"))]);
    assert!(jeq(req.body.as_ref().unwrap(), &expected));
}

#[test]
fn deregister_request_names_identity() {
    let c = MaxineClient::new("http://reg");
    let req = c.deregister_request("node-7");
    assert_eq!(req.method, HttpMethod::Delete);
    assert_eq!(req.url, "http://reg/deregister");
    let expected = obj(vec![("nodeId", text("node-7"))]);
    assert!(jeq(req.body.as_ref().unwrap(), &expected));
}

#[test]
fn full_mode_request_urls() {
    let c = MaxineClient::new("http://reg");
    assert_eq!(c.servers_request().url, "http://reg/servers");
    assert_eq!(c.health_request().url, "http://reg/health");
    assert_eq!(c.metrics_request().url, "http://reg/metrics");
    assert_eq!(c.services_request().url, "http://reg/api/maxine/serviceops/services");
    assert_eq!(
        c.service_request("web").url,
        "http://reg/api/maxine/serviceops/service?serviceName=web"
    );
    assert_eq!(
        c.health_scores_request("web").url,
        "http://reg/api/maxine/serviceops/health-score?serviceName=web"
    );
    assert_eq!(c.anomalies_request().url, "http://reg/api/maxine/serviceops/anomalies");
    assert_eq!(
        c.versions_request("web").url,
        "http://reg/api/maxine/serviceops/versions?serviceName=web"
    );
}

// --- the legacy register/deregister shim ---

#[test]
fn legacy_register_parses_address_before_any_request() {
    let c = MaxineClient::new("http://reg");
    assert_eq!(
        c.legacy_register_request("svcA", "n1", "noport").unwrap_err(),
        AddressFormatError::Shape
    );
    assert_eq!(
        c.legacy_register_request("svcA", "n1", "a:b:c").unwrap_err(),
        AddressFormatError::Shape
    );
    assert_eq!(
        c.legacy_register_request("svcA", "n1", "h:http").unwrap_err(),
        AddressFormatError::Port
    );
}

#[test]
fn legacy_register_splits_host_and_port() {
    let c = MaxineClient::new("http://reg");
    let req = c.legacy_register_request("svcA", "n1", "10.0.0.5:9000").unwrap();
    let expected = obj(vec![
        ("serviceName", text("svcA")),
        ("host", text("10.0.0.5")),
        ("port", Json::Number(JsonNumber::UInt(9000))),
    ]);
    assert!(jeq(req.body.as_ref().unwrap(), &expected));
}

#[test]
fn legacy_deregister_synthesizes_identity() {
    // The shim assumes the registry names nodes `service:node`; the call must
    // carry exactly that string, right or wrong.
    let c = MaxineClient::new("http://reg");
    let req = c.legacy_deregister_request("svcA", "n1");
    assert_eq!(req.method, HttpMethod::Delete);
    assert_eq!(req.url, "http://reg/deregister");
    let expected = obj(vec![("nodeId", text("svcA:n1"))]);
    assert!(jeq(req.body.as_ref().unwrap(), &expected));
}

// --- response interpretation ---

#[test]
fn register_response_yields_node_id() {
    let v = obj(vec![("nodeId", text("abc")), ("extra", num(1))]);
    assert_eq!(interpret_register(&v), Ok("abc".to_string()));
}

#[test]
fn register_response_without_node_id_is_a_rejection() {
    assert_eq!(interpret_register(&obj(vec![])), Err(MalformedResponse));
    assert_eq!(interpret_register(&obj(vec![("nodeId", num(5))])), Err(MalformedResponse));
    assert_eq!(interpret_register(&Json::Null), Err(MalformedResponse));
}

#[test]
fn heartbeat_success_true() {
    let v = obj(vec![("success", Json::Bool(true))]);
    assert!(interpret_heartbeat(&v));
}

#[test]
fn heartbeat_success_false_is_an_answer_not_an_error() {
    let c = MaxineClient::new("http://reg");
    let before = c.clone();
    let v = obj(vec![("success", Json::Bool(false))]);
    assert!(!interpret_heartbeat(&v));
    // interpreting a refused heartbeat changes nothing the client holds
    assert_eq!(c, before);
}

#[test]
fn heartbeat_missing_or_odd_success_reads_false() {
    assert!(!interpret_heartbeat(&obj(vec![])));
    assert!(!interpret_heartbeat(&obj(vec![("success", text("yes"))])));
    assert!(!interpret_heartbeat(&Json::Null));
}

#[test]
fn servers_response_keeps_strings_only() {
    let v = obj(vec![(
        "services",
        Json::Array(vec![text("a"), num(1), text("b"), Json::Null]),
    )]);
    assert_eq!(interpret_servers(&v), vec!["a".to_string(), "b".to_string()]);
}

#[test]
fn servers_response_defaults_to_empty() {
    assert!(interpret_servers(&obj(vec![])).is_empty());
    assert!(interpret_servers(&obj(vec![("services", num(3))])).is_empty());
}

#[test]
fn versions_response_defaults_to_empty() {
    assert!(interpret_versions(&obj(vec![])).is_empty());
    assert!(interpret_versions(&Json::Null).is_empty());
    let v = obj(vec![("versions", Json::Array(vec![text("1.0"), num(2), text("2.0")]))]);
    assert_eq!(interpret_versions(&v), vec!["1.0".to_string(), "2.0".to_string()]);
}

fn sample_node() -> Json {
    obj(vec![
        ("address", text("10.0.0.5:9000")),
        ("node_name", text("n1")),
        ("healthy", Json::Bool(true)),
        ("weight", num(3)),
        ("connections", Json::Null),
        ("metadata", obj(vec![("zone", text("eu"))])),
    ])
}

#[test]
fn discover_response_decodes_node() {
    let n = interpret_discover(&sample_node()).unwrap();
    assert_eq!(n.address, "10.0.0.5:9000");
    assert_eq!(n.node_name, "n1");
    assert!(n.healthy);
    assert_eq!(n.weight, Some(3));
    assert_eq!(n.connections, None);
    let meta = n.metadata.unwrap();
    assert!(jeq(&meta, &obj(vec![("zone", text("eu"))])));
}

#[test]
fn discover_response_minimal_node() {
    let v = obj(vec![
        ("address", text("h:1")),
        ("node_name", text("n")),
        ("healthy", Json::Bool(false)),
    ]);
    let n = interpret_discover(&v).unwrap();
    assert_eq!(n.weight, None);
    assert_eq!(n.connections, None);
    assert!(n.metadata.is_none());
}

#[test]
fn discover_response_rejects_bad_shapes() {
    assert_eq!(interpret_discover(&obj(vec![])).unwrap_err(), MalformedResponse);
    let missing_health = obj(vec![("address", text("h:1")), ("node_name", text("n"))]);
    assert_eq!(interpret_discover(&missing_health).unwrap_err(), MalformedResponse);
    let huge_weight = obj(vec![
        ("address", text("h:1")),
        ("node_name", text("n")),
        ("healthy", Json::Bool(true)),
        ("weight", num(1 << 40)),
    ]);
    assert_eq!(interpret_discover(&huge_weight).unwrap_err(), MalformedResponse);
}

fn sample_service() -> Json {
    obj(vec![
        ("service_name", text("web")),
        ("nodes", Json::Array(vec![sample_node()])),
        ("versions", Json::Array(vec![text("1.0"), text("2.0")])),
    ])
}

#[test]
fn service_not_found_is_empty_not_an_error() {
    let body = obj(vec![("error", text("no such service"))]);
    assert!(matches!(interpret_service(404, &body), Ok(None)));
}

#[test]
fn service_found_decodes() {
    let s = interpret_service(200, &sample_service()).unwrap().unwrap();
    assert_eq!(s.service_name, "web");
    assert_eq!(s.nodes.len(), 1);
    assert_eq!(s.nodes[0].address, "10.0.0.5:9000");
    assert_eq!(s.versions, vec!["1.0".to_string(), "2.0".to_string()]);
}

#[test]
fn service_garbage_is_an_error() {
    assert!(interpret_service(200, &Json::Null).is_err());
    let bad_versions = obj(vec![
        ("service_name", text("web")),
        ("nodes", Json::Array(vec![])),
        ("versions", Json::Array(vec![num(1)])),
    ]);
    assert!(interpret_service(200, &bad_versions).is_err());
}

#[test]
fn services_response_decodes_each_entry() {
    let v = Json::Array(vec![sample_service(), sample_service()]);
    let list = interpret_services(&v).unwrap();
    assert_eq!(list.len(), 2);
    assert_eq!(list[1].service_name, "web");
    assert!(interpret_services(&obj(vec![])).is_err());
}

#[test]
fn health_scores_decode() {
    let v = Json::Array(vec![
        obj(vec![("node_id", text("n1")), ("score", num(98))]),
        obj(vec![
            ("node_id", text("n2")),
            ("score", Json::Number(JsonNumber::FloatBits(87.5f64.to_bits()))),
        ]),
    ]);
    let scores = interpret_health_scores(&v).unwrap();
    assert_eq!(
        scores[0],
        HealthScore { node_id: "n1".to_string(), score: JsonNumber::Int(98) }
    );
    match scores[1].score {
        JsonNumber::FloatBits(bits) => assert_eq!(f64::from_bits(bits), 87.5),
        _ => panic!("expected a float score"),
    }
    let missing_score = Json::Array(vec![obj(vec![("node_id", text("n3"))])]);
    assert!(interpret_health_scores(&missing_score).is_err());
}

#[test]
fn anomalies_absent_field_is_empty_not_an_error() {
    assert_eq!(interpret_anomalies(&obj(vec![])), Ok(vec![]));
    assert_eq!(interpret_anomalies(&obj(vec![("anomalies", Json::Null)])), Ok(vec![]));
}

#[test]
fn anomalies_decode_with_optional_numbers() {
    let v = obj(vec![(
        "anomalies",
        Json::Array(vec![obj(vec![
            ("service_name", text("web")),
            ("anomaly_type", text("latency")),
            ("value", num(250)),
            ("severity", text("high")),
        ])]),
    )]);
    let list = interpret_anomalies(&v).unwrap();
    assert_eq!(
        list[0],
        Anomaly {
            service_name: "web".to_string(),
            anomaly_type: "latency".to_string(),
            value: Some(JsonNumber::Int(250)),
            threshold: None,
            severity: "high".to_string(),
        }
    );
}

#[test]
fn anomalies_bad_entry_is_an_error() {
    let v = obj(vec![("anomalies", Json::Array(vec![obj(vec![])]))]);
    assert!(interpret_anomalies(&v).is_err());
    let not_an_array = obj(vec![("anomalies", num(1))]);
    assert!(interpret_anomalies(&not_an_array).is_err());
}

// --- a register/discover round trip against a stubbed registry ---

struct StubRegistry {
    registered: Option<(String, String, u64)>,
    calls: usize,
}

impl StubRegistry {
    fn handle(&mut self, req: &HttpRequest) -> Json {
        self.calls += 1;
        let empty: Vec<(String, Json)> = Vec::new();
        let fields = match &req.body {
            Some(Json::Object(fields)) => fields,
            _ => &empty,
        };
        let field = |name: &str| fields.iter().find(|p| p.0 == name).map(|p| &p.1);
        if req.url.ends_with("/register") {
            let name = match field("serviceName") {
                Some(Json::Text(s)) => s.clone(),
                _ => panic!("register without a service name"),
            };
            let host = match field("host") {
                Some(Json::Text(s)) => s.clone(),
                _ => panic!("register without a host"),
            };
            let port = match field("port") {
                Some(Json::Number(JsonNumber::UInt(p))) => *p,
                _ => panic!("register without a port"),
            };
            self.registered = Some((name, host, port));
            obj(vec![("nodeId", text("assigned-1"))])
        } else if req.url.contains("/discover?serviceName=") {
            let (_, host, port) = self.registered.as_ref().expect("nothing registered");
            obj(vec![
                ("address", text(&format!("{}:{}", host, port))),
                ("node_name", text("n1")),
                ("healthy", Json::Bool(true)),
            ])
        } else {
            Json::Null
        }
    }
}

#[test]
fn register_then_discover_round_trip() {
    let c = MaxineClient::new("http://reg");
    let mut stub = StubRegistry { registered: None, calls: 0 };

    let reg_req = c.register_request("svcA", "1.2.3.4", 9000, None);
    let reg_body = stub.handle(&reg_req);
    let identity = interpret_register(&reg_body).unwrap();
    assert_eq!(identity, "assigned-1");

    let disc_req = c.discover_request("svcA", None, None, None);
    let disc_body = stub.handle(&disc_req);
    let node = interpret_discover(&disc_body).unwrap();
    assert_eq!(node.address, "1.2.3.4:9000");
    assert_eq!(stub.calls, 2);
}

// --- edge cases ---

#[test]
fn duplicate_fields_read_first_match() {
    let v = obj(vec![("nodeId", text("first")), ("nodeId", text("second"))]);
    assert_eq!(interpret_register(&v), Ok("first".to_string()));
}

#[test]
fn base_url_of_only_slashes_trims_to_empty() {
    let c = MaxineClient::new("///");
    assert_eq!(c.base_url, "");
    assert_eq!(c.servers_request().url, "/servers");
}

#[test]
fn empty_tag_list_means_no_tag_filter() {
    let c = MaxineClient::new("http://reg");
    let tags: Vec<String> = Vec::new();
    let req = c.discover_request("web", None, None, Some(&tags));
    assert_eq!(req.url, "http://reg/discover?serviceName=web");
}

#[test]
fn empty_address_is_a_shape_error() {
    assert_eq!(parse_address(""), Err(AddressFormatError::Shape));
}
