use vstd::prelude::*;

use crate::json::{lookup, vec_dv, Json, JsonView};
use crate::model::{
    anomaly_decodes, anomaly_matches, decode_anomaly, decode_health_score, decode_node,
    decode_service, health_score_decodes, health_score_matches, node_decodes, node_matches,
    service_decodes, service_matches, Anomaly, HealthScore, MalformedResponse, Service,
    ServiceNode,
};

verus! {

/// The node identity a registration response carries: the text of its
/// `nodeId` field, when the field is present and a string. A response
/// without one is a registry that did not assign an identity.
pub open spec fn node_id_of(w: JsonView) -> Option<Seq<char>> {
    match lookup(w, "nodeId"@) {
        Some(JsonView::Text(s)) => Some(s),
        _ => None,
    }
}

/// Whether a heartbeat response acknowledges success: the truth value of its
/// `success` field, and `false` when the field is missing or not a bool.
pub open spec fn heartbeat_ok(w: JsonView) -> bool {
    match lookup(w, "success"@) {
        Some(JsonView::Bool(b)) => b,
        _ => false,
    }
}

/// The strings among `items`, in order; elements of any other type are
/// passed over.
pub open spec fn text_items(items: Seq<JsonView>) -> Seq<Seq<char>>
    decreases items.len(),
{
    if items.len() == 0 {
        Seq::empty()
    } else {
        let rest = text_items(items.drop_last());
        match items.last() {
            JsonView::Text(s) => rest.push(s),
            _ => rest,
        }
    }
}

/// The service names a `servers` response lists: the strings of its
/// `services` array, or nothing when that field is missing or not an array.
pub open spec fn servers_of(w: JsonView) -> Seq<Seq<char>> {
    match lookup(w, "services"@) {
        Some(JsonView::Array(items)) => text_items(items),
        _ => Seq::empty(),
    }
}

/// The version strings a `versions` response lists, with the same
/// empty-on-absence reading.
pub open spec fn versions_of(w: JsonView) -> Seq<Seq<char>> {
    match lookup(w, "versions"@) {
        Some(JsonView::Array(items)) => text_items(items),
        _ => Seq::empty(),
    }
}

/// The views of a list of strings.
pub open spec fn string_views(v: Vec<String>) -> Seq<Seq<char>> {
    Seq::new(v@.len(), |i: int| v[i]@)
}

#[verifier::loop_isolation(false)]
fn collect_texts(items: &Vec<Json>) -> (r: Vec<String>)
    ensures
        string_views(r) == text_items(vec_dv(*items)),
{
    let ghost gitems = vec_dv(*items);
    let mut out: Vec<String> = Vec::new();
    proof {
        assert(gitems.take(0) =~= Seq::<JsonView>::empty());
        assert(string_views(out) =~= text_items(gitems.take(0)));
    }
    let mut i: usize = 0;
    while i < items.len()
        invariant
            i <= items@.len(),
            string_views(out) == text_items(gitems.take(i as int)),
        decreases items@.len() - i,
    {
        proof {
            assert(gitems.take(i as int + 1).drop_last() =~= gitems.take(i as int));
            assert(gitems.take(i as int + 1).last() == gitems[i as int]);
        }
        match &items[i] {
            Json::Text(s) => {
                out.push(s.clone());
                proof {
                    assert(string_views(out) =~= text_items(gitems.take(i as int + 1)));
                }
            },
            _ => {
                proof {
                    assert(string_views(out) =~= text_items(gitems.take(i as int + 1)));
                }
            },
        }
        i += 1;
    }
    proof {
        assert(gitems.take(items@.len() as int) =~= gitems);
    }
    out
}

/// Reads a discovery response: the body is the one resolved node.
pub fn interpret_discover(v: &Json) -> (r: Result<ServiceNode, MalformedResponse>)
    ensures
        r is Ok <==> node_decodes(v.dv()),
        r matches Ok(n) ==> node_matches(n, v.dv()),
{
    decode_node(v)
}

/// Reads a registration response: the assigned node identity. A response
/// without a string `nodeId` means the registry did not register the node,
/// and is an error — an unnoticed missing identity would poison every later
/// heartbeat and deregister.
pub fn interpret_register(v: &Json) -> (r: Result<String, MalformedResponse>)
    ensures
        r is Ok <==> node_id_of(v.dv()) is Some,
        r matches Ok(id) ==> node_id_of(v.dv()) == Some(id@),
{
    match v.get_field("nodeId") {
        Some(f) => match f {
            Json::Text(s) => Ok(s.clone()),
            _ => Err(MalformedResponse),
        },
        None => Err(MalformedResponse),
    }
}

/// Reads a heartbeat response: whether the registry acknowledged the
/// keep-alive.
pub fn interpret_heartbeat(v: &Json) -> (r: bool)
    ensures
        r == heartbeat_ok(v.dv()),
{
    match v.get_field("success") {
        Some(f) => match f {
            Json::Bool(b) => *b,
            _ => false,
        },
        None => false,
    }
}

/// Reads a `servers` response: the listed service names, empty when the
/// `services` field is missing or not an array.
pub fn interpret_servers(v: &Json) -> (r: Vec<String>)
    ensures
        string_views(r) == servers_of(v.dv()),
{
    let r = match v.get_field("services") {
        Some(f) => match f {
            Json::Array(items) => collect_texts(items),
            _ => Vec::new(),
        },
        None => Vec::new(),
    };
    proof {
        if r@.len() == 0 {
            assert(string_views(r) =~= Seq::<Seq<char>>::empty());
        }
    }
    r
}

/// Reads a `versions` response: the listed version strings, empty when the
/// `versions` field is missing or not an array — absence is an answer, not
/// an error.
pub fn interpret_versions(v: &Json) -> (r: Vec<String>)
    ensures
        string_views(r) == versions_of(v.dv()),
{
    let r = match v.get_field("versions") {
        Some(f) => match f {
            Json::Array(items) => collect_texts(items),
            _ => Vec::new(),
        },
        None => Vec::new(),
    };
    proof {
        if r@.len() == 0 {
            assert(string_views(r) =~= Seq::<Seq<char>>::empty());
        }
    }
    r
}

/// Whether a `services` response decodes: an array of well-formed services.
pub open spec fn services_decode(w: JsonView) -> bool {
    match w {
        JsonView::Array(items) => forall|i: int|
            0 <= i < items.len() ==> service_decodes(#[trigger] items[i]),
        _ => false,
    }
}

/// `list` is exactly the sequence of services the response encodes.
pub open spec fn services_list_matches(list: Vec<Service>, w: JsonView) -> bool {
    match w {
        JsonView::Array(items) => {
            &&& list@.len() == items.len()
            &&& forall|i: int| 0 <= i < items.len() ==> service_matches(list[i], #[trigger] items[i])
        },
        _ => false,
    }
}

/// Reads a `services` response: every listed service, in order.
#[verifier::loop_isolation(false)]
pub fn interpret_services(v: &Json) -> (r: Result<Vec<Service>, MalformedResponse>)
    ensures
        r is Ok <==> services_decode(v.dv()),
        r matches Ok(list) ==> services_list_matches(list, v.dv()),
{
    let items = match v {
        Json::Array(items) => items,
        _ => {
            return Err(MalformedResponse);
        },
    };
    let ghost gitems = vec_dv(*items);
    let mut out: Vec<Service> = Vec::new();
    let mut i: usize = 0;
    while i < items.len()
        invariant
            i <= items@.len(),
            out@.len() == i,
            forall|j: int| 0 <= j < i ==> service_decodes(#[trigger] gitems[j]),
            forall|j: int| 0 <= j < i ==> service_matches(out[j], gitems[j]),
        decreases items@.len() - i,
    {
        match decode_service(&items[i]) {
            Ok(s) => out.push(s),
            Err(e) => {
                proof {
                    assert(v.dv() == JsonView::Array(gitems));
                    assert(!service_decodes(v.dv()->Array_0[i as int]));
                }
                return Err(e);
            },
        }
        i += 1;
    }
    Ok(out)
}

/// Reads a single-service lookup. The registry's not-found status is an
/// expected outcome, not an error: it becomes an empty result. Any other
/// status must carry a well-formed service body.
pub fn interpret_service(status: u16, v: &Json) -> (r: Result<Option<Service>, MalformedResponse>)
    ensures
        status == 404 ==> (r matches Ok(o) && o is None),
        status != 404 ==> (r is Ok <==> service_decodes(v.dv())),
        status != 404 ==> (r matches Ok(o) ==> (o matches Some(s) && service_matches(s, v.dv()))),
{
    if status == 404 {
        return Ok(None);
    }
    match decode_service(v) {
        Ok(s) => Ok(Some(s)),
        Err(e) => Err(e),
    }
}

/// Whether a health-score response decodes: an array of well-formed scores.
pub open spec fn health_scores_decode(w: JsonView) -> bool {
    match w {
        JsonView::Array(items) => forall|i: int|
            0 <= i < items.len() ==> health_score_decodes(#[trigger] items[i]),
        _ => false,
    }
}

/// `list` is exactly the sequence of health scores the response encodes.
pub open spec fn health_scores_match(list: Vec<HealthScore>, w: JsonView) -> bool {
    match w {
        JsonView::Array(items) => {
            &&& list@.len() == items.len()
            &&& forall|i: int|
                0 <= i < items.len() ==> health_score_matches(list[i], #[trigger] items[i])
        },
        _ => false,
    }
}

/// Reads a health-score response: every listed score, in order.
#[verifier::loop_isolation(false)]
pub fn interpret_health_scores(v: &Json) -> (r: Result<Vec<HealthScore>, MalformedResponse>)
    ensures
        r is Ok <==> health_scores_decode(v.dv()),
        r matches Ok(list) ==> health_scores_match(list, v.dv()),
{
    let items = match v {
        Json::Array(items) => items,
        _ => {
            return Err(MalformedResponse);
        },
    };
    let ghost gitems = vec_dv(*items);
    let mut out: Vec<HealthScore> = Vec::new();
    let mut i: usize = 0;
    while i < items.len()
        invariant
            i <= items@.len(),
            out@.len() == i,
            forall|j: int| 0 <= j < i ==> health_score_decodes(#[trigger] gitems[j]),
            forall|j: int| 0 <= j < i ==> health_score_matches(out[j], gitems[j]),
        decreases items@.len() - i,
    {
        match decode_health_score(&items[i]) {
            Ok(h) => out.push(h),
            Err(e) => {
                proof {
                    assert(v.dv() == JsonView::Array(gitems));
                    assert(!health_score_decodes(v.dv()->Array_0[i as int]));
                }
                return Err(e);
            },
        }
        i += 1;
    }
    Ok(out)
}

/// Whether an anomaly-feed envelope is acceptable: the `anomalies` field is
/// missing, null, or an array of well-formed anomalies.
pub open spec fn anomalies_field_ok(w: JsonView) -> bool {
    match lookup(w, "anomalies"@) {
        None => true,
        Some(JsonView::Null) => true,
        Some(JsonView::Array(items)) => forall|i: int|
            0 <= i < items.len() ==> anomaly_decodes(#[trigger] items[i]),
        _ => false,
    }
}

/// `list` is exactly what the envelope carries: nothing when the field is
/// missing or null, else each anomaly in order.
pub open spec fn anomalies_list_matches(list: Vec<Anomaly>, w: JsonView) -> bool {
    match lookup(w, "anomalies"@) {
        None => list@.len() == 0,
        Some(JsonView::Null) => list@.len() == 0,
        Some(JsonView::Array(items)) => {
            &&& list@.len() == items.len()
            &&& forall|i: int| 0 <= i < items.len() ==> anomaly_matches(list[i], #[trigger] items[i])
        },
        _ => false,
    }
}

/// Reads an anomaly-feed response. A missing or null `anomalies` field
/// yields the empty list, never an error; a present array must decode.
#[verifier::loop_isolation(false)]
pub fn interpret_anomalies(v: &Json) -> (r: Result<Vec<Anomaly>, MalformedResponse>)
    ensures
        r is Ok <==> anomalies_field_ok(v.dv()),
        r matches Ok(list) ==> anomalies_list_matches(list, v.dv()),
{
    let items = match v.get_field("anomalies") {
        None => {
            return Ok(Vec::new());
        },
        Some(f) => match f {
            Json::Null => {
                return Ok(Vec::new());
            },
            Json::Array(items) => items,
            _ => {
                return Err(MalformedResponse);
            },
        },
    };
    let ghost gitems = vec_dv(*items);
    let mut out: Vec<Anomaly> = Vec::new();
    let mut i: usize = 0;
    while i < items.len()
        invariant
            i <= items@.len(),
            out@.len() == i,
            forall|j: int| 0 <= j < i ==> anomaly_decodes(#[trigger] gitems[j]),
            forall|j: int| 0 <= j < i ==> anomaly_matches(out[j], gitems[j]),
        decreases items@.len() - i,
    {
        match decode_anomaly(&items[i]) {
            Ok(a) => out.push(a),
            Err(e) => {
                proof {
                    assert(lookup(v.dv(), "anomalies"@) == Some(JsonView::Array(gitems)));
                    assert(!anomaly_decodes((lookup(v.dv(), "anomalies"@)->Some_0)->Array_0[i as int]));
                }
                return Err(e);
            },
        }
        i += 1;
    }
    Ok(out)
}

} // verus!
