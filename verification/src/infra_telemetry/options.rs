use vstd::prelude::*;

use crate::common::telemetry::{LABEL_ENV, LABEL_SERVICE};
use crate::text::{concat3, decimal, str_eq, to_decimal};

verus! {

/// Options of the Prometheus metrics exporter: the service label, the
/// optional environment label and further global labels, in order.
pub struct PrometheusOptions {
    pub service_name: String,
    pub env: Option<String>,
    pub global_labels: Vec<(String, String)>,
}

impl PrometheusOptions {
    /// Options for the given service name, with no environment and no labels.
    pub fn new(service_name: &str) -> (o: Self)
        ensures
            o.service_name@ == service_name@,
            o.env is None,
            o.global_labels@.len() == 0,
    {
        PrometheusOptions { service_name: service_name.to_owned(), env: None, global_labels: Vec::new() }
    }

    /// Set the environment label (e.g. "dev", "staging", "prod").
    pub fn env(self, env: &str) -> (o: Self)
        ensures
            o.service_name == self.service_name,
            o.env matches Some(e) && e@ == env@,
            o.global_labels == self.global_labels,
    {
        let mut s = self;
        s.env = Some(env.to_owned());
        s
    }

    /// Add a custom global label to all metrics.
    pub fn label(self, key: &str, value: &str) -> (o: Self)
        ensures
            o.service_name == self.service_name,
            o.env == self.env,
            o.global_labels@.len() == self.global_labels@.len() + 1,
            o.global_labels@.subrange(0, self.global_labels@.len() as int) == self.global_labels@,
            o.global_labels@.last().0@ == key@,
            o.global_labels@.last().1@ == value@,
    {
        let mut s = self;
        s.global_labels.push((key.to_owned(), value.to_owned()));
        assert(s.global_labels@.subrange(0, self.global_labels@.len() as int) =~= self.global_labels@);
        s
    }
}

impl PrometheusOptions {
    /// The global labels the exporter attaches to every metric, in order: the
    /// service name, the environment when set, then the custom labels.
    pub fn global_label_list(self) -> (l: Vec<(String, String)>)
        ensures
            l@.len() == 1 + (if self.env is Some { 1int } else { 0int }) + self.global_labels@.len(),
            l@[0].0@ == LABEL_SERVICE@ && l@[0].1 == self.service_name,
            self.env matches Some(e) ==> (l@[1].0@ == LABEL_ENV@ && l@[1].1 == e),
            l@.subrange(l@.len() - self.global_labels@.len(), l@.len() as int) == self.global_labels@,
    {
        let PrometheusOptions { service_name, env, mut global_labels } = self;
        let mut l: Vec<(String, String)> = Vec::new();
        l.push((LABEL_SERVICE.to_owned(), service_name));
        match env {
            Some(e) => l.push((LABEL_ENV.to_owned(), e)),
            None => {},
        }
        let ghost custom = global_labels@;
        l.append(&mut global_labels);
        assert(l@.subrange(l@.len() - custom.len(), l@.len() as int) =~= custom);
        l
    }
}

/// Address of the metrics server: `host:port`.
pub fn metrics_bind_address(host: &str, port: u16) -> (a: String)
    ensures
        a@ == host@ + ":"@ + decimal(port as nat),
{
    let p = to_decimal(port as u64);
    concat3(host, ":", p.as_str())
}

/// Answer of the metrics endpoint: status, content type and body.
pub struct MetricsResponse {
    pub status: u16,
    pub content_type: Option<String>,
    pub body: String,
}

/// Answers a request to the metrics server: `GET /metrics` gets the
/// rendered metrics as Prometheus text; anything else gets 404 `not found`.
pub fn metrics_response(is_get: bool, path: &str, rendered: String) -> (r: MetricsResponse)
    ensures
        is_get && path@ == "/metrics"@ ==> (r.status == 200 && r.body == rendered && (r.content_type matches Some(c)
            && c@ == "text/plain; version=0.0.4"@)),
        !(is_get && path@ == "/metrics"@) ==> r.status == 404 && r.content_type is None && r.body@
            == "not found"@,
{
    if is_get && str_eq(path, "/metrics") {
        MetricsResponse {
            status: 200,
            content_type: Some("text/plain; version=0.0.4".to_owned()),
            body: rendered,
        }
    } else {
        MetricsResponse { status: 404, content_type: None, body: "not found".to_owned() }
    }
}

} // verus!
