use vstd::prelude::*;

use crate::json::{fields_dv, lookup, vec_dv, Json, JsonNumber, JsonView};

verus! {

/// Returned by an interpreter when a response body does not have the shape
/// the registry documents for the endpoint.
#[derive(Clone, Copy, PartialEq, Eq, Structural, Debug)]
pub struct MalformedResponse;

/// One node of a service, as the registry reports it. `healthy` is the
/// registry's liveness verdict and is read-only here. `weight` and
/// `connections` are selection hints; absent means "not applicable", never
/// zero. `metadata` is an open JSON object, opaque to this client.
#[derive(Debug)]
pub struct ServiceNode {
    pub address: String,
    pub node_name: String,
    pub healthy: bool,
    pub weight: Option<i32>,
    pub connections: Option<i32>,
    pub metadata: Option<Json>,
}

/// One logical service: its current membership and the version tags seen
/// among its nodes.
#[derive(Debug)]
pub struct Service {
    pub service_name: String,
    pub nodes: Vec<ServiceNode>,
    pub versions: Vec<String>,
}

/// A numeric health indicator for one node; higher means healthier. The
/// number is kept exactly as the wire carried it.
#[derive(Debug, Clone, PartialEq, Eq)]
pub struct HealthScore {
    pub node_id: String,
    pub score: JsonNumber,
}

/// A registry-computed deviation signal. `value` and `threshold` are absent
/// when the anomaly type has no use for them.
#[derive(Debug, Clone, PartialEq, Eq)]
pub struct Anomaly {
    pub service_name: String,
    pub anomaly_type: String,
    pub value: Option<JsonNumber>,
    pub threshold: Option<JsonNumber>,
    pub severity: String,
}

/// The text of field `key`, when `w` has that field and it is a string.
pub open spec fn text_field(w: JsonView, key: Seq<char>) -> Option<Seq<char>> {
    match lookup(w, key) {
        Some(JsonView::Text(s)) => Some(s),
        _ => None,
    }
}

/// The truth value of field `key`, when `w` has that field and it is a bool.
pub open spec fn bool_field(w: JsonView, key: Seq<char>) -> Option<bool> {
    match lookup(w, key) {
        Some(JsonView::Bool(b)) => Some(b),
        _ => None,
    }
}

/// Whether field `key` is absent, null, or an integer that fits an `i32`.
pub open spec fn opt_i32_field_ok(w: JsonView, key: Seq<char>) -> bool {
    match lookup(w, key) {
        None => true,
        Some(JsonView::Null) => true,
        Some(JsonView::Number(JsonNumber::Int(n))) => -0x8000_0000 <= n <= 0x7fff_ffff,
        Some(JsonView::Number(JsonNumber::UInt(u))) => u <= 0x7fff_ffff,
        _ => false,
    }
}

/// The `i32` value of field `key`; meaningful where `opt_i32_field_ok` holds.
pub open spec fn opt_i32_field(w: JsonView, key: Seq<char>) -> Option<i32> {
    match lookup(w, key) {
        Some(JsonView::Number(JsonNumber::Int(n))) => Some(n as i32),
        Some(JsonView::Number(JsonNumber::UInt(u))) => Some(u as i32),
        _ => None,
    }
}

/// Whether field `key` is absent, null, or a number.
pub open spec fn opt_num_field_ok(w: JsonView, key: Seq<char>) -> bool {
    match lookup(w, key) {
        None => true,
        Some(JsonView::Null) => true,
        Some(JsonView::Number(_)) => true,
        _ => false,
    }
}

/// The numeric value of field `key`, when present and a number.
pub open spec fn opt_num_field(w: JsonView, key: Seq<char>) -> Option<JsonNumber> {
    match lookup(w, key) {
        Some(JsonView::Number(n)) => Some(n),
        _ => None,
    }
}

/// Whether field `key` is absent, null, or an object.
pub open spec fn opt_obj_field_ok(w: JsonView, key: Seq<char>) -> bool {
    match lookup(w, key) {
        None => true,
        Some(JsonView::Null) => true,
        Some(JsonView::Object(_)) => true,
        _ => false,
    }
}

/// The object value of field `key`, when present and an object.
pub open spec fn opt_obj_field(w: JsonView, key: Seq<char>) -> Option<JsonView> {
    match lookup(w, key) {
        Some(JsonView::Object(fields)) => Some(JsonView::Object(fields)),
        _ => None,
    }
}

/// Whether `w` decodes as a [`ServiceNode`]: the required fields are present
/// with their documented types, and the optional ones, where present, have
/// theirs.
pub open spec fn node_decodes(w: JsonView) -> bool {
    &&& text_field(w, "address"@) is Some
    &&& text_field(w, "node_name"@) is Some
    &&& bool_field(w, "healthy"@) is Some
    &&& opt_i32_field_ok(w, "weight"@)
    &&& opt_i32_field_ok(w, "connections"@)
    &&& opt_obj_field_ok(w, "metadata"@)
}

/// `n` is exactly the node that `w` encodes, field by field.
pub open spec fn node_matches(n: ServiceNode, w: JsonView) -> bool {
    &&& text_field(w, "address"@) == Some(n.address@)
    &&& text_field(w, "node_name"@) == Some(n.node_name@)
    &&& bool_field(w, "healthy"@) == Some(n.healthy)
    &&& n.weight == opt_i32_field(w, "weight"@)
    &&& n.connections == opt_i32_field(w, "connections"@)
    &&& match n.metadata {
        Some(m) => opt_obj_field(w, "metadata"@) == Some(m.dv()),
        None => opt_obj_field(w, "metadata"@) is None,
    }
}

fn text_from(v: &Json, key: &str) -> (r: Result<String, MalformedResponse>)
    ensures
        r is Ok <==> text_field(v.dv(), key@) is Some,
        r matches Ok(s) ==> text_field(v.dv(), key@) == Some(s@),
{
    match v.get_field(key) {
        Some(f) => match f {
            Json::Text(s) => Ok(s.clone()),
            _ => Err(MalformedResponse),
        },
        None => Err(MalformedResponse),
    }
}

fn bool_from(v: &Json, key: &str) -> (r: Result<bool, MalformedResponse>)
    ensures
        r is Ok <==> bool_field(v.dv(), key@) is Some,
        r matches Ok(b) ==> bool_field(v.dv(), key@) == Some(b),
{
    match v.get_field(key) {
        Some(f) => match f {
            Json::Bool(b) => Ok(*b),
            _ => Err(MalformedResponse),
        },
        None => Err(MalformedResponse),
    }
}

fn opt_i32_from(v: &Json, key: &str) -> (r: Result<Option<i32>, MalformedResponse>)
    ensures
        r is Ok <==> opt_i32_field_ok(v.dv(), key@),
        r matches Ok(o) ==> o == opt_i32_field(v.dv(), key@),
{
    match v.get_field(key) {
        None => Ok(None),
        Some(f) => match f {
            Json::Null => Ok(None),
            Json::Number(n) => match n {
                JsonNumber::Int(x) => {
                    if -0x8000_0000i64 <= *x && *x <= 0x7fff_ffffi64 {
                        Ok(Some(*x as i32))
                    } else {
                        Err(MalformedResponse)
                    }
                },
                JsonNumber::UInt(u) => {
                    if *u <= 0x7fff_ffffu64 {
                        Ok(Some(*u as i32))
                    } else {
                        Err(MalformedResponse)
                    }
                },
                JsonNumber::FloatBits(_) => Err(MalformedResponse),
            },
            _ => Err(MalformedResponse),
        },
    }
}

fn opt_num_from(v: &Json, key: &str) -> (r: Result<Option<JsonNumber>, MalformedResponse>)
    ensures
        r is Ok <==> opt_num_field_ok(v.dv(), key@),
        r matches Ok(o) ==> o == opt_num_field(v.dv(), key@),
{
    match v.get_field(key) {
        None => Ok(None),
        Some(f) => match f {
            Json::Null => Ok(None),
            Json::Number(n) => Ok(Some(*n)),
            _ => Err(MalformedResponse),
        },
    }
}

/// Decodes one wire object as a [`ServiceNode`], exactly when it has the
/// documented shape.
pub fn decode_node(v: &Json) -> (r: Result<ServiceNode, MalformedResponse>)
    ensures
        r is Ok <==> node_decodes(v.dv()),
        r matches Ok(n) ==> node_matches(n, v.dv()),
{
    let address = match text_from(v, "address") {
        Ok(s) => s,
        Err(e) => {
            return Err(e);
        },
    };
    let node_name = match text_from(v, "node_name") {
        Ok(s) => s,
        Err(e) => {
            return Err(e);
        },
    };
    let healthy = match bool_from(v, "healthy") {
        Ok(b) => b,
        Err(e) => {
            return Err(e);
        },
    };
    let weight = match opt_i32_from(v, "weight") {
        Ok(o) => o,
        Err(e) => {
            return Err(e);
        },
    };
    let connections = match opt_i32_from(v, "connections") {
        Ok(o) => o,
        Err(e) => {
            return Err(e);
        },
    };
    let metadata = match v.get_field("metadata") {
        None => None,
        Some(f) => match f {
            Json::Null => None,
            Json::Object(_) => Some(f.duplicate()),
            _ => {
                return Err(MalformedResponse);
            },
        },
    };
    Ok(ServiceNode { address, node_name, healthy, weight, connections, metadata })
}

/// Whether every element of `items` decodes as a node.
pub open spec fn nodes_decode(items: Seq<JsonView>) -> bool {
    forall|i: int| 0 <= i < items.len() ==> node_decodes(#[trigger] items[i])
}

/// Whether every element of `items` is a string.
pub open spec fn all_text(items: Seq<JsonView>) -> bool {
    forall|i: int| 0 <= i < items.len() ==> (#[trigger] items[i]) is Text
}

/// Whether `w` decodes as a [`Service`]: a string `service_name`, an array
/// of well-formed nodes, and an array of version strings.
pub open spec fn service_decodes(w: JsonView) -> bool {
    &&& text_field(w, "service_name"@) is Some
    &&& match lookup(w, "nodes"@) {
        Some(JsonView::Array(items)) => nodes_decode(items),
        _ => false,
    }
    &&& match lookup(w, "versions"@) {
        Some(JsonView::Array(items)) => all_text(items),
        _ => false,
    }
}

/// `s` is exactly the service that `w` encodes: each node in order, each
/// version string in order.
pub open spec fn service_matches(s: Service, w: JsonView) -> bool {
    &&& text_field(w, "service_name"@) == Some(s.service_name@)
    &&& match lookup(w, "nodes"@) {
        Some(JsonView::Array(items)) => {
            &&& s.nodes@.len() == items.len()
            &&& forall|i: int|
                0 <= i < items.len() ==> node_matches(s.nodes[i], #[trigger] items[i])
        },
        _ => false,
    }
    &&& match lookup(w, "versions"@) {
        Some(JsonView::Array(items)) => {
            &&& s.versions@.len() == items.len()
            &&& forall|i: int| 0 <= i < items.len() ==> s.versions[i]@ == (#[trigger] items[i])->Text_0
        },
        _ => false,
    }
}

/// Decodes one wire object as a [`Service`], exactly when it has the
/// documented shape.
#[verifier::loop_isolation(false)]
pub fn decode_service(v: &Json) -> (r: Result<Service, MalformedResponse>)
    ensures
        r is Ok <==> service_decodes(v.dv()),
        r matches Ok(s) ==> service_matches(s, v.dv()),
{
    let service_name = match text_from(v, "service_name") {
        Ok(s) => s,
        Err(e) => {
            return Err(e);
        },
    };
    let node_items = match v.get_field("nodes") {
        Some(f) => match f {
            Json::Array(items) => items,
            _ => {
                return Err(MalformedResponse);
            },
        },
        None => {
            return Err(MalformedResponse);
        },
    };
    let ghost gnodes = vec_dv(*node_items);
    let mut nodes: Vec<ServiceNode> = Vec::new();
    let mut i: usize = 0;
    while i < node_items.len()
        invariant
            i <= node_items@.len(),
            nodes@.len() == i,
            forall|j: int| 0 <= j < i ==> node_decodes(#[trigger] gnodes[j]),
            forall|j: int| 0 <= j < i ==> node_matches(nodes[j], gnodes[j]),
        decreases node_items@.len() - i,
    {
        match decode_node(&node_items[i]) {
            Ok(n) => nodes.push(n),
            Err(e) => {
                proof {
                    assert(!node_decodes(gnodes[i as int]));
                }
                return Err(e);
            },
        }
        i += 1;
    }
    let version_items = match v.get_field("versions") {
        Some(f) => match f {
            Json::Array(items) => items,
            _ => {
                return Err(MalformedResponse);
            },
        },
        None => {
            return Err(MalformedResponse);
        },
    };
    let ghost gversions = vec_dv(*version_items);
    let mut versions: Vec<String> = Vec::new();
    let mut k: usize = 0;
    while k < version_items.len()
        invariant
            k <= version_items@.len(),
            versions@.len() == k,
            forall|j: int| 0 <= j < k ==> (#[trigger] gversions[j]) is Text,
            forall|j: int| 0 <= j < k ==> versions[j]@ == gversions[j]->Text_0,
        decreases version_items@.len() - k,
    {
        match &version_items[k] {
            Json::Text(s) => versions.push(s.clone()),
            _ => {
                proof {
                    assert(!((gversions[k as int]) is Text));
                }
                return Err(MalformedResponse);
            },
        }
        k += 1;
    }
    Ok(Service { service_name, nodes, versions })
}

/// Whether `w` decodes as a [`HealthScore`]: a string `node_id` and a
/// numeric `score`, both required.
pub open spec fn health_score_decodes(w: JsonView) -> bool {
    &&& text_field(w, "node_id"@) is Some
    &&& opt_num_field(w, "score"@) is Some
}

/// `h` is exactly the health score that `w` encodes.
pub open spec fn health_score_matches(h: HealthScore, w: JsonView) -> bool {
    &&& text_field(w, "node_id"@) == Some(h.node_id@)
    &&& opt_num_field(w, "score"@) == Some(h.score)
}

/// Decodes one wire object as a [`HealthScore`], exactly when it has the
/// documented shape.
pub fn decode_health_score(v: &Json) -> (r: Result<HealthScore, MalformedResponse>)
    ensures
        r is Ok <==> health_score_decodes(v.dv()),
        r matches Ok(h) ==> health_score_matches(h, v.dv()),
{
    let node_id = match text_from(v, "node_id") {
        Ok(s) => s,
        Err(e) => {
            return Err(e);
        },
    };
    let score = match v.get_field("score") {
        Some(f) => match f {
            Json::Number(n) => *n,
            _ => {
                return Err(MalformedResponse);
            },
        },
        None => {
            return Err(MalformedResponse);
        },
    };
    Ok(HealthScore { node_id, score })
}

/// Whether `w` decodes as an [`Anomaly`]: the three string fields are
/// required; `value` and `threshold` may be absent, null, or numbers.
pub open spec fn anomaly_decodes(w: JsonView) -> bool {
    &&& text_field(w, "service_name"@) is Some
    &&& text_field(w, "anomaly_type"@) is Some
    &&& text_field(w, "severity"@) is Some
    &&& opt_num_field_ok(w, "value"@)
    &&& opt_num_field_ok(w, "threshold"@)
}

/// `a` is exactly the anomaly that `w` encodes.
pub open spec fn anomaly_matches(a: Anomaly, w: JsonView) -> bool {
    &&& text_field(w, "service_name"@) == Some(a.service_name@)
    &&& text_field(w, "anomaly_type"@) == Some(a.anomaly_type@)
    &&& text_field(w, "severity"@) == Some(a.severity@)
    &&& a.value == opt_num_field(w, "value"@)
    &&& a.threshold == opt_num_field(w, "threshold"@)
}

/// Decodes one wire object as an [`Anomaly`], exactly when it has the
/// documented shape.
pub fn decode_anomaly(v: &Json) -> (r: Result<Anomaly, MalformedResponse>)
    ensures
        r is Ok <==> anomaly_decodes(v.dv()),
        r matches Ok(a) ==> anomaly_matches(a, v.dv()),
{
    let service_name = match text_from(v, "service_name") {
        Ok(s) => s,
        Err(e) => {
            return Err(e);
        },
    };
    let anomaly_type = match text_from(v, "anomaly_type") {
        Ok(s) => s,
        Err(e) => {
            return Err(e);
        },
    };
    let severity = match text_from(v, "severity") {
        Ok(s) => s,
        Err(e) => {
            return Err(e);
        },
    };
    let value = match opt_num_from(v, "value") {
        Ok(o) => o,
        Err(e) => {
            return Err(e);
        },
    };
    let threshold = match opt_num_from(v, "threshold") {
        Ok(o) => o,
        Err(e) => {
            return Err(e);
        },
    };
    Ok(Anomaly { service_name, anomaly_type, value, threshold, severity })
}

} // verus!
