use vstd::prelude::*;

use vstd::string::{StrSliceExecFns, StringExecFns};

use crate::address::{
    count_colons, dec_val, parse_address, split_ok, valid_address, AddressFormatError,
};
use crate::json::{fields_dv, Json, JsonNumber, JsonView};
use crate::response::string_views;

verus! {

/// The HTTP verb of a planned request.
#[derive(Clone, Copy, PartialEq, Eq, Structural, Debug)]
pub enum HttpMethod {
    Get,
    Post,
    Delete,
}

/// One planned request against the registry: everything the transport layer
/// needs in order to issue it. `api_key` is the credential to attach as a
/// header, present exactly when the client was configured with one.
#[derive(Debug)]
pub struct HttpRequest {
    pub method: HttpMethod,
    pub url: String,
    pub body: Option<Json>,
    pub api_key: Option<String>,
}

/// A handle on one registry: the base URL the endpoints are appended to and
/// the optional credential. Both are fixed at construction.
#[derive(Debug, Clone, PartialEq, Eq)]
pub struct MaxineClient {
    pub base_url: String,
    pub api_key: Option<String>,
}

/// `s` with every trailing `/` removed.
pub open spec fn trim_slashes(s: Seq<char>) -> Seq<char>
    decreases s.len(),
{
    if s.len() > 0 && s.last() == '/' {
        trim_slashes(s.drop_last())
    } else {
        s
    }
}

/// `out` carries the same credential as `cfg`.
pub open spec fn same_key(out: Option<String>, cfg: Option<String>) -> bool {
    match cfg {
        Some(k) => out matches Some(k2) && k2@ == k@,
        None => out is None,
    }
}

/// The tag strings joined by commas, in order.
pub open spec fn join_commas(ts: Seq<Seq<char>>) -> Seq<char>
    decreases ts.len(),
{
    if ts.len() == 0 {
        Seq::empty()
    } else if ts.len() == 1 {
        ts[0]
    } else {
        join_commas(ts.drop_last()) + ","@ + ts.last()
    }
}

/// The discovery URL: the `serviceName` filter always, and a load-balancing
/// strategy, a version and a comma-joined tag filter exactly when given.
/// An empty tag list means "no tag filter", the same as no list at all.
pub open spec fn discover_url(
    base: Seq<char>,
    name: Seq<char>,
    lb: Option<Seq<char>>,
    version: Option<Seq<char>>,
    tags: Option<Seq<Seq<char>>>,
) -> Seq<char> {
    base + "/discover?serviceName="@ + name + (match lb {
        Some(l) => "&loadBalancing="@ + l,
        None => Seq::empty(),
    }) + (match version {
        Some(vv) => "&version="@ + vv,
        None => Seq::empty(),
    }) + (match tags {
        Some(t) => if t.len() == 0 {
            Seq::empty()
        } else {
            "&tags="@ + join_commas(t)
        },
        None => Seq::empty(),
    })
}

/// The view of an optional borrowed string.
pub open spec fn opt_sv(o: Option<&str>) -> Option<Seq<char>> {
    match o {
        Some(s) => Some(s@),
        None => None,
    }
}

/// The views of an optional borrowed list of strings.
pub open spec fn opt_svs(o: Option<&Vec<String>>) -> Option<Seq<Seq<char>>> {
    match o {
        Some(t) => Some(string_views(*t)),
        None => None,
    }
}

/// The registration body: service name, host and port, and the metadata
/// object exactly when given.
pub open spec fn register_body(
    name: Seq<char>,
    host: Seq<char>,
    port: u16,
    metadata: Option<JsonView>,
) -> JsonView {
    JsonView::Object(
        seq![
            ("serviceName"@, JsonView::Text(name)),
            ("host"@, JsonView::Text(host)),
            ("port"@, JsonView::Number(JsonNumber::UInt(port as u64))),
        ] + match metadata {
            Some(m) => seq![("metadata"@, m)],
            None => Seq::empty(),
        },
    )
}

/// The body that names one node identity, as heartbeat and deregister send.
pub open spec fn node_id_body(id: Seq<char>) -> JsonView {
    JsonView::Object(seq![("nodeId"@, JsonView::Text(id))])
}

fn clone_opt_key(o: &Option<String>) -> (r: Option<String>)
    ensures
        same_key(r, *o),
{
    match o {
        Some(k) => Some(k.clone()),
        None => None,
    }
}

#[verifier::loop_isolation(false)]
fn join_tags(tags: &Vec<String>) -> (r: String)
    ensures
        r@ == join_commas(string_views(*tags)),
{
    let ghost ts = string_views(*tags);
    let mut out = String::new();
    let mut i: usize = 0;
    while i < tags.len()
        invariant
            i <= tags@.len(),
            out@ == join_commas(ts.take(i as int)),
        decreases tags@.len() - i,
    {
        proof {
            assert(ts.take(i as int + 1).drop_last() =~= ts.take(i as int));
            assert(ts.take(i as int + 1).last() == ts[i as int]);
        }
        if i > 0 {
            out.append(",");
        }
        out.append(tags[i].as_str());
        proof {
            if i == 0 {
                assert(out@ =~= ts.take(1)[0]);
            }
        }
        i += 1;
    }
    proof {
        assert(ts.take(tags@.len() as int) =~= ts);
        if tags@.len() == 0 {
            assert(out@ =~= join_commas(ts));
        }
    }
    out
}

impl MaxineClient {
    /// Binds a client to a registry; trailing slashes of the base URL are
    /// dropped so that endpoint paths join cleanly. No credential yet.
    #[verifier::loop_isolation(false)]
    pub fn new(base_url: &str) -> (r: Self)
        ensures
            r.base_url@ == trim_slashes(base_url@),
            r.api_key is None,
    {
        let ghost s = base_url@;
        let len = base_url.unicode_len();
        proof {
            assert(s.take(len as int) =~= s);
        }
        let mut e = len;
        while e > 0 && base_url.get_char(e - 1) == '/'
            invariant
                e <= len,
                len == s.len(),
                trim_slashes(s) == trim_slashes(s.take(e as int)),
            decreases e,
        {
            proof {
                assert(s.take(e as int).drop_last() =~= s.take(e as int - 1));
                assert(s.take(e as int).last() == s[e as int - 1]);
            }
            e = e - 1;
        }
        proof {
            if e > 0 {
                assert(s.take(e as int).last() == s[e as int - 1]);
            }
        }
        let base = base_url.substring_char(0, e).to_owned();
        MaxineClient { base_url: base, api_key: None }
    }

    /// The same client with the credential to attach to every request.
    pub fn with_api_key(self, api_key: &str) -> (r: Self)
        ensures
            r.base_url == self.base_url,
            r.api_key matches Some(k) && k@ == api_key@,
    {
        MaxineClient { base_url: self.base_url, api_key: Some(api_key.to_owned()) }
    }

    /// Plans a discovery query. Selection among matching nodes is the
    /// registry's: the plan only carries the filters, exactly as given.
    pub fn discover_request(
        &self,
        service_name: &str,
        load_balancing: Option<&str>,
        version: Option<&str>,
        tags: Option<&Vec<String>>,
    ) -> (r: HttpRequest)
        ensures
            r.method == HttpMethod::Get,
            r.url@ == discover_url(
                self.base_url@,
                service_name@,
                opt_sv(load_balancing),
                opt_sv(version),
                opt_svs(tags),
            ),
            r.body is None,
            same_key(r.api_key, self.api_key),
    {
        let mut url = self.base_url.clone();
        url.append("/discover?serviceName=");
        url.append(service_name);
        match load_balancing {
            Some(lb) => {
                url.append("&loadBalancing=");
                url.append(lb);
            },
            None => {},
        }
        match version {
            Some(vv) => {
                url.append("&version=");
                url.append(vv);
            },
            None => {},
        }
        match tags {
            Some(t) => {
                if t.len() > 0 {
                    url.append("&tags=");
                    let joined = join_tags(t);
                    url.append(joined.as_str());
                }
            },
            None => {},
        }
        proof {
            assert(url@ =~= discover_url(
                self.base_url@,
                service_name@,
                opt_sv(load_balancing),
                opt_sv(version),
                opt_svs(tags),
            ));
        }
        HttpRequest {
            method: HttpMethod::Get,
            url,
            body: None,
            api_key: clone_opt_key(&self.api_key),
        }
    }

    /// Plans a lightning registration: `POST /register` with the node's
    /// coordinates and, when given, its metadata object.
    pub fn register_request(
        &self,
        service_name: &str,
        host: &str,
        port: u16,
        metadata: Option<Json>,
    ) -> (r: HttpRequest)
        ensures
            r.method == HttpMethod::Post,
            r.url@ == self.base_url@ + "/register"@,
            r.body matches Some(b) && b.dv() == register_body(
                service_name@,
                host@,
                port,
                match metadata {
                    Some(m) => Some(m.dv()),
                    None => None,
                },
            ),
            same_key(r.api_key, self.api_key),
    {
        let mut url = self.base_url.clone();
        url.append("/register");
        let mut fields: Vec<(String, Json)> = Vec::new();
        fields.push((String::from_str("serviceName"), Json::Text(service_name.to_owned())));
        fields.push((String::from_str("host"), Json::Text(host.to_owned())));
        fields.push((String::from_str("port"), Json::Number(JsonNumber::UInt(port as u64))));
        let ghost meta_dv = match &metadata {
            Some(m) => Some(m.dv()),
            None => None,
        };
        match metadata {
            Some(m) => fields.push((String::from_str("metadata"), m)),
            None => {},
        }
        let body = Json::Object(fields);
        proof {
            reveal_with_fuel(Json::dv, 2);
            assert(body.dv()->Object_0 =~= register_body(
                service_name@,
                host@,
                port,
                meta_dv,
            )->Object_0);
        }
        HttpRequest {
            method: HttpMethod::Post,
            url,
            body: Some(body),
            api_key: clone_opt_key(&self.api_key),
        }
    }

    /// Plans a heartbeat: `POST /heartbeat` naming the registered identity.
    pub fn heartbeat_request(&self, node_id: &str) -> (r: HttpRequest)
        ensures
            r.method == HttpMethod::Post,
            r.url@ == self.base_url@ + "/heartbeat"@,
            r.body matches Some(b) && b.dv() == node_id_body(node_id@),
            same_key(r.api_key, self.api_key),
    {
        let mut url = self.base_url.clone();
        url.append("/heartbeat");
        let mut fields: Vec<(String, Json)> = Vec::new();
        fields.push((String::from_str("nodeId"), Json::Text(node_id.to_owned())));
        let body = Json::Object(fields);
        proof {
            reveal_with_fuel(Json::dv, 2);
            assert(body.dv()->Object_0 =~= node_id_body(node_id@)->Object_0);
        }
        HttpRequest {
            method: HttpMethod::Post,
            url,
            body: Some(body),
            api_key: clone_opt_key(&self.api_key),
        }
    }

    /// Plans a deregistration: `DELETE /deregister` naming the identity.
    pub fn deregister_request(&self, node_id: &str) -> (r: HttpRequest)
        ensures
            r.method == HttpMethod::Delete,
            r.url@ == self.base_url@ + "/deregister"@,
            r.body matches Some(b) && b.dv() == node_id_body(node_id@),
            same_key(r.api_key, self.api_key),
    {
        let mut url = self.base_url.clone();
        url.append("/deregister");
        let mut fields: Vec<(String, Json)> = Vec::new();
        fields.push((String::from_str("nodeId"), Json::Text(node_id.to_owned())));
        let body = Json::Object(fields);
        proof {
            reveal_with_fuel(Json::dv, 2);
            assert(body.dv()->Object_0 =~= node_id_body(node_id@)->Object_0);
        }
        HttpRequest {
            method: HttpMethod::Delete,
            url,
            body: Some(body),
            api_key: clone_opt_key(&self.api_key),
        }
    }

    fn get_request(&self, path: &str) -> (r: HttpRequest)
        ensures
            r.method == HttpMethod::Get,
            r.url@ == self.base_url@ + path@,
            r.body is None,
            same_key(r.api_key, self.api_key),
    {
        let mut url = self.base_url.clone();
        url.append(path);
        HttpRequest {
            method: HttpMethod::Get,
            url,
            body: None,
            api_key: clone_opt_key(&self.api_key),
        }
    }

    fn get_request_named(&self, path: &str, service_name: &str) -> (r: HttpRequest)
        ensures
            r.method == HttpMethod::Get,
            r.url@ == self.base_url@ + path@ + service_name@,
            r.body is None,
            same_key(r.api_key, self.api_key),
    {
        let mut url = self.base_url.clone();
        url.append(path);
        url.append(service_name);
        HttpRequest {
            method: HttpMethod::Get,
            url,
            body: None,
            api_key: clone_opt_key(&self.api_key),
        }
    }

    /// Plans the lightning service listing: `GET /servers`.
    pub fn servers_request(&self) -> (r: HttpRequest)
        ensures
            r.method == HttpMethod::Get,
            r.url@ == self.base_url@ + "/servers"@,
            r.body is None,
            same_key(r.api_key, self.api_key),
    {
        self.get_request("/servers")
    }

    /// Plans the registry health probe: `GET /health`; the body comes back
    /// as opaque JSON.
    pub fn health_request(&self) -> (r: HttpRequest)
        ensures
            r.method == HttpMethod::Get,
            r.url@ == self.base_url@ + "/health"@,
            r.body is None,
            same_key(r.api_key, self.api_key),
    {
        self.get_request("/health")
    }

    /// Plans the registry metrics probe: `GET /metrics`; the body comes back
    /// as opaque JSON.
    pub fn metrics_request(&self) -> (r: HttpRequest)
        ensures
            r.method == HttpMethod::Get,
            r.url@ == self.base_url@ + "/metrics"@,
            r.body is None,
            same_key(r.api_key, self.api_key),
    {
        self.get_request("/metrics")
    }

    /// Plans the full-mode service listing.
    pub fn services_request(&self) -> (r: HttpRequest)
        ensures
            r.method == HttpMethod::Get,
            r.url@ == self.base_url@ + "/api/maxine/serviceops/services"@,
            r.body is None,
            same_key(r.api_key, self.api_key),
    {
        self.get_request("/api/maxine/serviceops/services")
    }

    /// Plans the full-mode single-service lookup.
    pub fn service_request(&self, service_name: &str) -> (r: HttpRequest)
        ensures
            r.method == HttpMethod::Get,
            r.url@ == self.base_url@ + "/api/maxine/serviceops/service?serviceName="@
                + service_name@,
            r.body is None,
            same_key(r.api_key, self.api_key),
    {
        self.get_request_named("/api/maxine/serviceops/service?serviceName=", service_name)
    }

    /// Plans the full-mode health-score listing for one service.
    pub fn health_scores_request(&self, service_name: &str) -> (r: HttpRequest)
        ensures
            r.method == HttpMethod::Get,
            r.url@ == self.base_url@ + "/api/maxine/serviceops/health-score?serviceName="@
                + service_name@,
            r.body is None,
            same_key(r.api_key, self.api_key),
    {
        self.get_request_named("/api/maxine/serviceops/health-score?serviceName=", service_name)
    }

    /// Plans the full-mode anomaly feed.
    pub fn anomalies_request(&self) -> (r: HttpRequest)
        ensures
            r.method == HttpMethod::Get,
            r.url@ == self.base_url@ + "/api/maxine/serviceops/anomalies"@,
            r.body is None,
            same_key(r.api_key, self.api_key),
    {
        self.get_request("/api/maxine/serviceops/anomalies")
    }

    /// Plans the full-mode version listing for one service.
    pub fn versions_request(&self, service_name: &str) -> (r: HttpRequest)
        ensures
            r.method == HttpMethod::Get,
            r.url@ == self.base_url@ + "/api/maxine/serviceops/versions?serviceName="@
                + service_name@,
            r.body is None,
            same_key(r.api_key, self.api_key),
    {
        self.get_request_named("/api/maxine/serviceops/versions?serviceName=", service_name)
    }

    /// Plans a legacy discovery: the lightning query with no strategy,
    /// version or tag filter.
    pub fn legacy_discover_request(&self, service_name: &str) -> (r: HttpRequest)
        ensures
            r.method == HttpMethod::Get,
            r.url@ == discover_url(self.base_url@, service_name@, None, None, None),
            r.body is None,
            same_key(r.api_key, self.api_key),
    {
        self.discover_request(service_name, None, None, None)
    }

    /// Plans a legacy registration. The address must split as `host:port`;
    /// a string that does not is rejected here, before any request exists.
    /// The node name plays no part in the lightning registration, and the
    /// registry-assigned identity of the node is not reported back — the
    /// legacy surface never carried it.
    pub fn legacy_register_request(&self, service_name: &str, node_name: &str, address: &str) -> (r:
        Result<HttpRequest, AddressFormatError>)
        ensures
            r is Ok <==> valid_address(address@),
            r == Err::<HttpRequest, AddressFormatError>(AddressFormatError::Shape) <==> count_colons(
                address@,
            ) != 1,
            r matches Ok(req) ==> {
                &&& req.method == HttpMethod::Post
                &&& req.url@ == self.base_url@ + "/register"@
                &&& same_key(req.api_key, self.api_key)
                &&& forall|i: int|
                    split_ok(address@, i) ==> (req.body matches Some(b) && b.dv() == register_body(
                        service_name@,
                        address@.subrange(0, i),
                        (dec_val(address@.subrange(i + 1, address@.len() as int)) as u16),
                        None,
                    ))
            },
    {
        let parsed = match parse_address(address) {
            Ok(hp) => hp,
            Err(e) => {
                return Err(e);
            },
        };
        let (host, port) = parsed;
        Ok(self.register_request(service_name, host.as_str(), port, None))
    }

    /// Plans a legacy deregistration: the lightning deregister call against
    /// the synthetic identity `service_name:node_name`. The registry's real
    /// identity for the node may differ; this surface has always assumed
    /// that form and keeps doing so.
    pub fn legacy_deregister_request(&self, service_name: &str, node_name: &str) -> (r: HttpRequest)
        ensures
            r.method == HttpMethod::Delete,
            r.url@ == self.base_url@ + "/deregister"@,
            r.body matches Some(b) && b.dv() == node_id_body(
                service_name@ + ":"@ + node_name@,
            ),
            same_key(r.api_key, self.api_key),
    {
        let id = crate::address::legacy_identity(service_name, node_name);
        self.deregister_request(id.as_str())
    }
}

} // verus!
