//! The Prometheus configuration model and the data that renders its template.
use crate::crd::{PROM_EVALUATION_INTERVAL, PROM_SCHEME, PROM_SCRAPE_INTERVAL, PROM_SCRAPE_TIMEOUT};
use crate::error::Error;
use crate::properties::{lookup, Properties};
use crate::text::{decimal, u16_to_text};
use handlebars::{Handlebars, JsonValue};
use std::collections::{BTreeMap, HashMap};
use vstd::prelude::*;
use vstd::string::*;

verus! {

/// A Prometheus configuration file.
#[derive(Clone, Debug, Default, PartialEq, Eq)]
pub struct Config {
    /// The global configuration specifies parameters that are valid in all other configuration
    /// contexts. They also serve as defaults for other configuration sections.
    pub global: Global,
    /// A list of scrape configurations.
    pub scrape_configs: Vec<ScrapeJob>,
}

#[derive(Clone, Debug, Default, PartialEq, Eq)]
pub struct Global {
    /// How frequently to scrape targets from this job.
    pub scrape_interval: Option<String>,
    /// Per-scrape timeout when scraping this job.
    pub scrape_timeout: Option<String>,
    /// How frequently to evaluate rules.
    pub evaluation_interval: Option<String>,
    /// A list of scrape configurations.
    pub scrape_configs: Option<Vec<ScrapeJob>>,
}

#[derive(Clone, Debug, Default, PartialEq, Eq)]
pub struct ScrapeJob {
    /// The job name assigned to scraped metrics by default.
    pub job_name: String,
    /// How frequently to scrape targets from this job.
    pub scrape_interval: Option<String>,
    /// Per-scrape timeout when scraping this job.
    pub scrape_timeout: Option<String>,
    /// The HTTP resource path on which to fetch metrics from targets.
    pub metrics_path: Option<String>,
    /// Configures the protocol scheme used for requests.
    pub scheme: Option<String>,
    /// Sets the `Authorization` header on every scrape request with the
    /// configured username and password.
    /// password and password_file are mutually exclusive.
    pub basic_auth: Option<BasicAuth>,
    /// Sets the `Authorization` header on every scrape request with
    /// the configured credentials.
    pub authorization: Option<Authorization>,
    /// Optional OAuth 2.0 configuration.
    /// Cannot be used at the same time as basic_auth or authorization.
    pub oauth2: Option<OAuth2>,
    /// Configures the scrape request's TLS settings.
    pub tls_config: Option<TlsConfig>,
    /// List of Kubernetes service discovery configurations.
    pub kubernetes_sd_configs: Option<Vec<KubernetesSdConfig>>,
    /// List of labeled statically configured targets for this job.
    pub static_configs: Option<Vec<StaticSdConfig>>,
    /// List of target relabel configurations.
    pub relabel_configs: Option<Vec<RelabelConfig>>,
}

#[derive(Clone, Debug, Default, PartialEq, Eq)]
pub struct BasicAuth {
    pub username: String,
    pub password: Option<String>,
    pub password_file: Option<String>,
}

#[derive(Clone, Debug, Default, PartialEq, Eq)]
pub struct Authorization {
    /// Sets the authentication type of the request.
    pub typ: String,
    /// Sets the credentials of the request. It is mutually exclusive with
    /// `credentials_file`.
    pub credentials: Option<String>,
    /// Sets the credentials of the request with the credentials read from the
    /// configured file. It is mutually exclusive with `credentials`.
    pub credentials_file: Option<String>,
}

#[derive(Clone, Debug, Default, PartialEq, Eq)]
pub struct OAuth2 {
    pub client_id: String,
    pub client_secret: Option<String>,
    /// Read the client secret from a file.
    /// It is mutually exclusive with `client_secret`.
    pub client_secret_file: Option<String>,
    /// Scopes for the token request.
    pub scopes: Option<Vec<String>>,
    /// The URL to fetch the token from.
    pub token_url: String,
    /// Optional parameters to append to the token URL.
    pub endpoint_params: Option<HashMap<String, Option<String>>>,
}

#[derive(Clone, Debug, Default, PartialEq, Eq)]
pub struct TlsConfig {
    /// CA certificate to validate API server certificate with.
    pub ca_file: Option<String>,
    /// Certificate and key files for client cert authentication to the server.
    pub cert_file: Option<String>,
    pub key_file: Option<String>,
    /// ServerName extension to indicate the name of the server.
    /// https://tools.ietf.org/html/rfc4366#section-3.1
    pub server_name: Option<String>,
    /// Disable validation of the server certificate.
    pub insecure_skip_verify: Option<bool>,
}

#[derive(Clone, Debug, Default, PartialEq, Eq)]
pub struct KubernetesSdConfig {
    /// The API server addresses. If left empty, Prometheus is assumed to run inside
    /// of the cluster and will discover API servers automatically and use the pod's
    /// CA certificate and bearer token file at /var/run/secrets/kubernetes.io/serviceaccount/.
    pub api_server: Option<String>,
    /// The Kubernetes role of entities that should be discovered.
    /// One of endpoints, service, pod, node, or ingress.
    pub role: KubernetesSdConfigRole,
    /// Optional path to a kubeconfig file.
    /// Note that api_server and kube_config are mutually exclusive.
    pub kubeconfig_file: Option<String>,
    /// Optional HTTP basic authentication information.
    pub basic_auth: Option<BasicAuth>,
    /// Optional `Authorization` header configuration.
    pub authorization: Option<Authorization>,
    /// Optional OAuth 2.0 configuration.
    /// Cannot be used at the same time as basic_auth or authorization.
    pub oauth2: Option<OAuth2>,
    /// Optional proxy URL.
    pub proxy_url: Option<String>,
    /// Configure whether HTTP requests follow HTTP 3xx redirects.
    pub follow_redirects: Option<bool>,
    /// TLS configuration.
    pub tls_config: Option<TlsConfig>,
    /// Optional namespace discovery. If omitted, all namespaces are used.
    pub namespaces: Option<Namespace>,
    /// Optional label and field selectors to limit the discovery process to a subset of available resources.
    pub selectors: Option<Vec<Selector>>,
}

#[derive(Clone, Debug, Default, PartialEq, Eq)]
pub struct Namespace {
    pub names: Vec<String>,
}

#[derive(Clone, Debug, Default, PartialEq, Eq)]
pub struct Selector {
    pub role: KubernetesSdConfigRole,
    pub label: Option<String>,
    pub field: Option<String>,
}

/// The Kubernetes role of the entities that service discovery finds.
#[derive(Clone, Debug, PartialEq, Eq, Structural)]
pub enum KubernetesSdConfigRole {
    Endpoints,
    Ingress,
    Node,
    Pod,
    Service,
}

impl Default for KubernetesSdConfigRole {
    /// Pods are discovered unless another role is given.
    fn default() -> (r: Self)
        ensures
            r == KubernetesSdConfigRole::Pod,
    {
        KubernetesSdConfigRole::Pod
    }
}

#[derive(Clone, Debug, Default, PartialEq, Eq)]
pub struct StaticSdConfig {
    /// The targets specified by the static config.
    pub targets: Option<Vec<String>>,
    /// Labels assigned to all metrics scraped from the targets.
    pub labels: Option<HashMap<String, String>>,
}

#[derive(Clone, Debug, Default, PartialEq, Eq)]
pub struct RelabelConfig {
    /// The source labels select values from existing labels. Their content is concatenated
    /// using the configured separator and matched against the configured regular expression
    /// for the replace, keep, and drop actions.
    pub source_labels: Option<Vec<String>>,
    /// Separator placed between concatenated source label values.
    pub separator: Option<String>,
    /// Label to which the resulting value is written in a replace action.
    /// It is mandatory for replace actions. Regex capture groups are available.
    pub target_label: Option<String>,
    /// Regular expression against which the extracted value is matched.
    pub regex: Option<String>,
    /// Modulus to take of the hash of the source label values.
    pub modulus: Option<usize>,
    /// Replacement value against which a regex replace is performed if the
    /// regular expression matches. Regex capture groups are available.
    pub replacement: Option<String>,
    /// Action to perform based on regex matching.
    pub action: Option<Action>,
}

/// What a relabel configuration does.
#[derive(Clone, Debug, PartialEq, Eq, Structural)]
pub enum Action {
    /// Drop targets for which regex matches the concatenated source_labels.
    Drop,
    /// Set target_label to the modulus of a hash of the concatenated source_labels.
    HashMod,
    /// Drop targets for which regex does not match the concatenated source_labels.
    Keep,
    /// Match regex against the concatenated source_labels. Then, set target_label to replacement,
    /// with match group references (${1}, ${2}, ...) in replacement substituted by their value.
    /// If regex does not match, no replacement takes place.
    Replace,
    /// Match regex against all label names. Then copy the values of the matching labels to label
    /// names given by replacement with match group references (${1}, ${2}, ...) in replacement
    /// substituted by their value.
    LabelMap,
    /// Match regex against all label names. Any label that matches will be removed from the set of labels.
    LabelDrop,
    /// Match regex against all label names. Any label that does not match will be removed from the set of labels.
    LabelKeep,
}

impl Default for Action {
    /// Relabeling replaces unless another action is given.
    fn default() -> (r: Self)
        ensures
            r == Action::Replace,
    {
        Action::Replace
    }
}

/// A holder of a Prometheus configuration, which it reads from and writes to YAML.
pub struct ConfigManager {
    config: Config,
}

impl View for ConfigManager {
    type V = Config;

    closed spec fn view(&self) -> Config {
        self.config
    }
}

/// The template of the Prometheus configuration that scrapes the pods of one node
/// and, where asked, the node exporter of that node.
pub const NODEPODS_TEMPLATE: &'static str = "
global:
  evaluation_interval: {{global_evaluation_interval}}
scrape_configs:
  - job_name: nodepods
    scrape_interval: {{scrape_configs_k8s_scrape_interval}}
    scrape_timeout: {{scrape_configs_k8s_scrape_timeout}}
    scheme: {{scrape_configs_k8s_scheme}}
    kubernetes_sd_configs:
      - role: pod
        kubeconfig_file: KUBECONFIG
        namespaces:
          names:
            - {{scrape_configs_k8s_namespace}}
        selectors:
          - role: pod
            field: spec.nodeName={{scrape_configs_k8s_selector_node_name}}
    relabel_configs:
      - source_labels: [__meta_kubernetes_pod_annotation_monitoring_stackable_tech_should_be_scraped]
        regex: true
        action: keep
      - source_labels: [__meta_kubernetes_pod_container_port_name]
        action: keep
        regex: metrics
      - source_labels: [__meta_kubernetes_pod_label_app_kubernetes_io_name]
        regex: monitoring
        action: drop
      - source_labels: [__address__, __meta_kubernetes_pod_container_port_number]
        action: replace
        regex: ([^:]+)(?::\\d+)?;(\\d+)
        replacement: $1:$2
        target_label: __address__
      - action: labelmap
        regex: __meta_kubernetes_pod_label_(.+)
      - source_labels: [__meta_kubernetes_namespace]
        action: replace
        target_label: kubernetes_namespace
      - source_labels: [__meta_kubernetes_pod_name]
        action: replace
        target_label: kubernetes_pod_name
      - source_labels: [__meta_kubernetes_pod_node_name]
        action: replace
        target_label: kubernetes_pod_node_name
      - source_labels: [__meta_kubernetes_pod_host_ip]
        action: replace
        target_label: kubernetes_pod_host_ip
      - source_labels: [__meta_kubernetes_pod_uid]
        action: replace
        target_label: kubernetes_pod_uid
      - source_labels: [__meta_kubernetes_pod_controller_kind]
        action: replace
        target_label: kubernetes_pod_controller_kind
      - source_labels: [__meta_kubernetes_pod_controller_name]
        action: replace
        target_label: kubernetes_pod_controller_name
{{#if with_node_scraper}}
  - job_name: node
    scrape_interval: {{scrape_configs_k8s_scrape_interval}}
    static_configs:
      - targets:
        - localhost:{{node_exporter_metrics_port}}
        labels:
          node_id: this_server
{{/if}}
 ";

/// A value handed to the template engine: a text or a flag.
pub enum TemplateValue {
    Text(String),
    Flag(bool),
}

/// A template value by its plain contents.
pub enum TemplateValueView {
    Text(Seq<char>),
    Flag(bool),
}

impl View for TemplateValue {
    type V = TemplateValueView;

    open spec fn view(&self) -> TemplateValueView {
        match self {
            TemplateValue::Text(s) => TemplateValueView::Text(s@),
            TemplateValue::Flag(b) => TemplateValueView::Flag(*b),
        }
    }
}

/// Template variables by name and plain value.
pub open spec fn variables_view(v: Seq<(String, TemplateValue)>) -> Seq<(Seq<char>, TemplateValueView)> {
    v.map_values(|e: (String, TemplateValue)| (e.0@, e.1@))
}

/// What `Handlebars::render_template` of a fresh registry gives for a template
/// and the variables handed to it: the rendered text, or the description of the
/// error.
pub uninterp spec fn handlebars_render(
    template: Seq<char>,
    variables: Seq<(Seq<char>, TemplateValueView)>,
) -> Result<Seq<char>, Seq<char>>;

/// A rendering result by its plain contents.
pub open spec fn render_view(r: Result<String, String>) -> Result<Seq<char>, Seq<char>> {
    match r {
        Ok(s) => Ok(s@),
        Err(e) => Err(e@),
    }
}

/// Calls `Handlebars::render_template` on a registry made by `Handlebars::new()`,
/// with the variables handed over as a JSON object (texts as JSON strings, flags
/// as JSON booleans). The result is named `handlebars_render`; of a failure the
/// error's description is kept. Nothing more is stated of the rendered text.
#[verifier::external_body]
fn render_template(template: &str, variables: &Vec<(String, TemplateValue)>) -> (r: Result<String, String>)
    ensures
        render_view(r) == handlebars_render(template@, variables_view(variables@)),
{
    let mut data: BTreeMap<String, JsonValue> = BTreeMap::new();
    for (name, value) in variables.iter() {
        let json = match value {
            TemplateValue::Text(s) => JsonValue::String(s.clone()),
            TemplateValue::Flag(b) => JsonValue::Bool(*b),
        };
        data.insert(name.clone(), json);
    }
    Handlebars::new().render_template(template, &data).map_err(|e| e.desc)
}

/// The template data by its plain contents.
pub struct NodepodsTemplateData {
    pub global_evaluation_interval: Seq<char>,
    pub scrape_configs_k8s_scrape_interval: Seq<char>,
    pub scrape_configs_k8s_scrape_timeout: Seq<char>,
    pub scrape_configs_k8s_scheme: Seq<char>,
    pub scrape_configs_k8s_namespace: Seq<char>,
    pub scrape_configs_k8s_selector_node_name: Seq<char>,
    pub node_exporter_metrics_port: Seq<char>,
    pub with_node_scraper: bool,
    pub node_exporter_instance: Seq<char>,
    pub node_exporter_node_name: Seq<char>,
    pub node_exporter_namespace: Seq<char>,
}

/// The variables that render `NODEPODS_TEMPLATE`, named after the builder's fields.
pub open spec fn nodepods_variables(d: NodepodsTemplateData) -> Seq<(Seq<char>, TemplateValueView)> {
    seq![
        ("global_evaluation_interval"@, TemplateValueView::Text(d.global_evaluation_interval)),
        ("scrape_configs_k8s_scrape_interval"@, TemplateValueView::Text(d.scrape_configs_k8s_scrape_interval)),
        ("scrape_configs_k8s_scrape_timeout"@, TemplateValueView::Text(d.scrape_configs_k8s_scrape_timeout)),
        ("scrape_configs_k8s_scheme"@, TemplateValueView::Text(d.scrape_configs_k8s_scheme)),
        ("scrape_configs_k8s_namespace"@, TemplateValueView::Text(d.scrape_configs_k8s_namespace)),
        ("scrape_configs_k8s_selector_node_name"@, TemplateValueView::Text(d.scrape_configs_k8s_selector_node_name)),
        ("node_exporter_metrics_port"@, TemplateValueView::Text(d.node_exporter_metrics_port)),
        ("with_node_scraper"@, TemplateValueView::Flag(d.with_node_scraper)),
        ("node_exporter_instance"@, TemplateValueView::Text(d.node_exporter_instance)),
        ("node_exporter_node_name"@, TemplateValueView::Text(d.node_exporter_node_name)),
        ("node_exporter_namespace"@, TemplateValueView::Text(d.node_exporter_namespace)),
    ]
}

/// The template data for the pods of node `name` in `namespace`: evaluation and
/// scrape every 60 s, a scrape timeout of 30 s, over https, no node exporter
/// (whose port would be 9100) and empty node exporter labels.
pub open spec fn nodepods_defaults(namespace: Seq<char>, name: Seq<char>) -> NodepodsTemplateData {
    NodepodsTemplateData {
        global_evaluation_interval: "60s"@,
        scrape_configs_k8s_scrape_interval: "60s"@,
        scrape_configs_k8s_scrape_timeout: "30s"@,
        scrape_configs_k8s_scheme: "https"@,
        scrape_configs_k8s_namespace: namespace,
        scrape_configs_k8s_selector_node_name: name,
        node_exporter_metrics_port: "9100"@,
        with_node_scraper: false,
        node_exporter_instance: Seq::empty(),
        node_exporter_node_name: Seq::empty(),
        node_exporter_namespace: Seq::empty(),
    }
}

/// The template data after `with_config`: each of the evaluation interval, the
/// scrape interval, the scrape timeout and the scheme is taken from the
/// properties where they hold it.
pub open spec fn data_with_config(d: NodepodsTemplateData, config: Seq<(Seq<char>, Seq<char>)>) -> NodepodsTemplateData {
    NodepodsTemplateData {
        global_evaluation_interval: match lookup(config, PROM_EVALUATION_INTERVAL@) {
            Some(v) => v,
            None => d.global_evaluation_interval,
        },
        scrape_configs_k8s_scrape_interval: match lookup(config, PROM_SCRAPE_INTERVAL@) {
            Some(v) => v,
            None => d.scrape_configs_k8s_scrape_interval,
        },
        scrape_configs_k8s_scrape_timeout: match lookup(config, PROM_SCRAPE_TIMEOUT@) {
            Some(v) => v,
            None => d.scrape_configs_k8s_scrape_timeout,
        },
        scrape_configs_k8s_scheme: match lookup(config, PROM_SCHEME@) {
            Some(v) => v,
            None => d.scrape_configs_k8s_scheme,
        },
        ..d
    }
}

/// The template data after `with_node_exporter`: with a port, the node exporter
/// is scraped on it; without one, nothing changes.
pub open spec fn data_with_node_exporter(d: NodepodsTemplateData, metrics_port: Option<u16>) -> NodepodsTemplateData {
    match metrics_port {
        Some(port) => NodepodsTemplateData {
            node_exporter_metrics_port: decimal(port as nat),
            with_node_scraper: true,
            ..d
        },
        None => d,
    }
}

/// The template data after `with_node_exporter_labels`: the labels that the node
/// exporter's metrics carry are the cluster instance, the node and the namespace.
pub open spec fn data_with_node_exporter_labels(
    d: NodepodsTemplateData,
    instance: Seq<char>,
    node_name: Seq<char>,
    namespace: Seq<char>,
) -> NodepodsTemplateData {
    NodepodsTemplateData {
        node_exporter_instance: instance,
        node_exporter_node_name: node_name,
        node_exporter_namespace: namespace,
        ..d
    }
}

/// A builder for template variables needed to render the `NODEPODS_TEMPLATE`
#[derive(Clone, Debug, PartialEq, Eq)]
pub struct NodepodsTemplateDataBuilder {
    global_evaluation_interval: String,
    scrape_configs_k8s_scrape_interval: String,
    scrape_configs_k8s_scrape_timeout: String,
    scrape_configs_k8s_scheme: String,
    scrape_configs_k8s_namespace: String,
    scrape_configs_k8s_selector_node_name: String,
    node_exporter_metrics_port: String,
    with_node_scraper: bool,
    node_exporter_instance: String,
    node_exporter_node_name: String,
    node_exporter_namespace: String,
}

impl View for NodepodsTemplateDataBuilder {
    type V = NodepodsTemplateData;

    closed spec fn view(&self) -> NodepodsTemplateData {
        NodepodsTemplateData {
            global_evaluation_interval: self.global_evaluation_interval@,
            scrape_configs_k8s_scrape_interval: self.scrape_configs_k8s_scrape_interval@,
            scrape_configs_k8s_scrape_timeout: self.scrape_configs_k8s_scrape_timeout@,
            scrape_configs_k8s_scheme: self.scrape_configs_k8s_scheme@,
            scrape_configs_k8s_namespace: self.scrape_configs_k8s_namespace@,
            scrape_configs_k8s_selector_node_name: self.scrape_configs_k8s_selector_node_name@,
            node_exporter_metrics_port: self.node_exporter_metrics_port@,
            with_node_scraper: self.with_node_scraper,
            node_exporter_instance: self.node_exporter_instance@,
            node_exporter_node_name: self.node_exporter_node_name@,
            node_exporter_namespace: self.node_exporter_namespace@,
        }
    }
}

impl NodepodsTemplateDataBuilder {
    /// Template data for the pods of node `name` in `namespace`: evaluation and
    /// scrape every 60 s, a scrape timeout of 30 s, over https, no node exporter
    /// (whose port would be 9100) and empty node exporter labels.
    pub fn new_with_namespace_and_node_name(namespace: &str, name: &str) -> (r: Self)
        ensures
            r@ == nodepods_defaults(namespace@, name@),
    {
        NodepodsTemplateDataBuilder {
            global_evaluation_interval: String::from_str("60s"),
            scrape_configs_k8s_scrape_interval: String::from_str("60s"),
            scrape_configs_k8s_scrape_timeout: String::from_str("30s"),
            scrape_configs_k8s_scheme: String::from_str("https"),
            scrape_configs_k8s_namespace: String::from_str(namespace),
            scrape_configs_k8s_selector_node_name: String::from_str(name),
            node_exporter_metrics_port: String::from_str("9100"),
            with_node_scraper: false,
            node_exporter_instance: String::new(),
            node_exporter_node_name: String::new(),
            node_exporter_namespace: String::new(),
        }
    }

    /// Enable the static scraping section of the Prometheus configuration
    /// # Arguments
    /// * metrics_port - The port used to scrape the local node exporter. Default: 9100
    pub fn with_node_exporter(&mut self, metrics_port: Option<u16>) -> (r: &mut Self)
        ensures
            (*r)@ == data_with_node_exporter(old(self)@, metrics_port),
            final(self)@ == final(r)@,
    {
        if let Some(port) = metrics_port {
            self.node_exporter_metrics_port = u16_to_text(port);
            self.with_node_scraper = true;
        }
        self
    }

    /// Labels the node exporter's metrics with the cluster `instance`, the node
    /// and the namespace.
    pub fn with_node_exporter_labels(&mut self, instance: &str, node_name: &str, namespace: &str) -> (r: &mut Self)
        ensures
            (*r)@ == data_with_node_exporter_labels(old(self)@, instance@, node_name@, namespace@),
            final(self)@ == final(r)@,
    {
        self.node_exporter_instance = String::from_str(instance);
        self.node_exporter_node_name = String::from_str(node_name);
        self.node_exporter_namespace = String::from_str(namespace);
        self
    }

    /// Takes the evaluation interval, the scrape interval, the scrape timeout and
    /// the scheme from the validated configuration, where it holds them.
    pub fn with_config(&mut self, config: &Properties) -> (r: &mut Self)
        ensures
            (*r)@ == data_with_config(old(self)@, config@),
            final(self)@ == final(r)@,
    {
        if let Some(value) = config.get(PROM_EVALUATION_INTERVAL) {
            self.global_evaluation_interval = value.clone();
        }
        if let Some(value) = config.get(PROM_SCRAPE_INTERVAL) {
            self.scrape_configs_k8s_scrape_interval = value.clone();
        }
        if let Some(value) = config.get(PROM_SCRAPE_TIMEOUT) {
            self.scrape_configs_k8s_scrape_timeout = value.clone();
        }
        if let Some(value) = config.get(PROM_SCHEME) {
            self.scrape_configs_k8s_scheme = value.clone();
        }
        self
    }

    /// The finished template data.
    pub fn build(&mut self) -> (r: &Self)
        ensures
            r@ == old(self)@,
            final(self)@ == old(self)@,
    {
        self
    }

    /// The variables that render the template, by the names of the fields.
    pub fn template_variables(&self) -> (r: Vec<(String, TemplateValue)>)
        ensures
            variables_view(r@) == nodepods_variables(self@),
    {
        let mut r: Vec<(String, TemplateValue)> = Vec::new();
        r.push((String::from_str("global_evaluation_interval"), TemplateValue::Text(self.global_evaluation_interval.clone())));
        r.push((String::from_str("scrape_configs_k8s_scrape_interval"), TemplateValue::Text(self.scrape_configs_k8s_scrape_interval.clone())));
        r.push((String::from_str("scrape_configs_k8s_scrape_timeout"), TemplateValue::Text(self.scrape_configs_k8s_scrape_timeout.clone())));
        r.push((String::from_str("scrape_configs_k8s_scheme"), TemplateValue::Text(self.scrape_configs_k8s_scheme.clone())));
        r.push((String::from_str("scrape_configs_k8s_namespace"), TemplateValue::Text(self.scrape_configs_k8s_namespace.clone())));
        r.push((String::from_str("scrape_configs_k8s_selector_node_name"), TemplateValue::Text(self.scrape_configs_k8s_selector_node_name.clone())));
        r.push((String::from_str("node_exporter_metrics_port"), TemplateValue::Text(self.node_exporter_metrics_port.clone())));
        r.push((String::from_str("with_node_scraper"), TemplateValue::Flag(self.with_node_scraper)));
        r.push((String::from_str("node_exporter_instance"), TemplateValue::Text(self.node_exporter_instance.clone())));
        r.push((String::from_str("node_exporter_node_name"), TemplateValue::Text(self.node_exporter_node_name.clone())));
        r.push((String::from_str("node_exporter_namespace"), TemplateValue::Text(self.node_exporter_namespace.clone())));
        assert(variables_view(r@) =~= nodepods_variables(self@));
        r
    }
}

/// The template of the Prometheus configuration that federates the pod
/// aggregators of a namespace: it scrapes the `/federate` endpoint on the web
/// port (`http`) of each pod of the pod-aggregator role of this application.
pub const FEDERATION_TEMPLATE: &'static str = "
global:
  evaluation_interval: {{global_evaluation_interval}}
scrape_configs:
  - job_name: federate
    scrape_interval: {{scrape_configs_k8s_scrape_interval}}
    scrape_timeout: {{scrape_configs_k8s_scrape_timeout}}
    scheme: {{scrape_configs_k8s_scheme}}
    metrics_path: /federate
    kubernetes_sd_configs:
      - role: pod
        kubeconfig_file: KUBECONFIG
        namespaces:
          names:
            - {{scrape_configs_k8s_namespace}}
    relabel_configs:
      - source_labels: [__meta_kubernetes_pod_label_app_kubernetes_io_name]
        regex: monitoring
        action: keep
      - source_labels: [__meta_kubernetes_pod_label_app_kubernetes_io_component]
        regex: pod-aggregator
        action: keep
      - source_labels: [__meta_kubernetes_pod_container_port_name]
        regex: http
        action: keep
      - source_labels: [__meta_kubernetes_pod_node_name]
        action: replace
        target_label: kubernetes_pod_node_name
 ";

/// The federation template data by its plain contents.
pub struct FederationTemplateData {
    pub global_evaluation_interval: Seq<char>,
    pub scrape_configs_k8s_scrape_interval: Seq<char>,
    pub scrape_configs_k8s_scrape_timeout: Seq<char>,
    pub scrape_configs_k8s_scheme: Seq<char>,
    pub scrape_configs_k8s_namespace: Seq<char>,
}

/// The variables that render `FEDERATION_TEMPLATE`, named after the builder's fields.
pub open spec fn federation_variables(d: FederationTemplateData) -> Seq<(Seq<char>, TemplateValueView)> {
    seq![
        ("global_evaluation_interval"@, TemplateValueView::Text(d.global_evaluation_interval)),
        ("scrape_configs_k8s_scrape_interval"@, TemplateValueView::Text(d.scrape_configs_k8s_scrape_interval)),
        ("scrape_configs_k8s_scrape_timeout"@, TemplateValueView::Text(d.scrape_configs_k8s_scrape_timeout)),
        ("scrape_configs_k8s_scheme"@, TemplateValueView::Text(d.scrape_configs_k8s_scheme)),
        ("scrape_configs_k8s_namespace"@, TemplateValueView::Text(d.scrape_configs_k8s_namespace)),
    ]
}

/// The federation template data for `namespace`: evaluation and scrape every
/// 60 s, a scrape timeout of 30 s, over https.
pub open spec fn federation_defaults(namespace: Seq<char>) -> FederationTemplateData {
    FederationTemplateData {
        global_evaluation_interval: "60s"@,
        scrape_configs_k8s_scrape_interval: "60s"@,
        scrape_configs_k8s_scrape_timeout: "30s"@,
        scrape_configs_k8s_scheme: "https"@,
        scrape_configs_k8s_namespace: namespace,
    }
}

/// The federation template data after `with_config`: each of the evaluation
/// interval, the scrape interval, the scrape timeout and the scheme is taken
/// from the properties where they hold it.
pub open spec fn federation_with_config(d: FederationTemplateData, config: Seq<(Seq<char>, Seq<char>)>) -> FederationTemplateData {
    FederationTemplateData {
        global_evaluation_interval: match lookup(config, PROM_EVALUATION_INTERVAL@) {
            Some(v) => v,
            None => d.global_evaluation_interval,
        },
        scrape_configs_k8s_scrape_interval: match lookup(config, PROM_SCRAPE_INTERVAL@) {
            Some(v) => v,
            None => d.scrape_configs_k8s_scrape_interval,
        },
        scrape_configs_k8s_scrape_timeout: match lookup(config, PROM_SCRAPE_TIMEOUT@) {
            Some(v) => v,
            None => d.scrape_configs_k8s_scrape_timeout,
        },
        scrape_configs_k8s_scheme: match lookup(config, PROM_SCHEME@) {
            Some(v) => v,
            None => d.scrape_configs_k8s_scheme,
        },
        ..d
    }
}

/// A builder for template variables needed to render the `FEDERATION_TEMPLATE`
#[derive(Clone, Debug, PartialEq, Eq)]
pub struct FederationTemplateDataBuilder {
    global_evaluation_interval: String,
    scrape_configs_k8s_scrape_interval: String,
    scrape_configs_k8s_scrape_timeout: String,
    scrape_configs_k8s_scheme: String,
    scrape_configs_k8s_namespace: String,
}

impl View for FederationTemplateDataBuilder {
    type V = FederationTemplateData;

    closed spec fn view(&self) -> FederationTemplateData {
        FederationTemplateData {
            global_evaluation_interval: self.global_evaluation_interval@,
            scrape_configs_k8s_scrape_interval: self.scrape_configs_k8s_scrape_interval@,
            scrape_configs_k8s_scrape_timeout: self.scrape_configs_k8s_scrape_timeout@,
            scrape_configs_k8s_scheme: self.scrape_configs_k8s_scheme@,
            scrape_configs_k8s_namespace: self.scrape_configs_k8s_namespace@,
        }
    }
}

impl FederationTemplateDataBuilder {
    /// Template data for federating the pod aggregators of `namespace`:
    /// evaluation and scrape every 60 s, a scrape timeout of 30 s, over https.
    pub fn new_with_namespace(namespace: &str) -> (r: Self)
        ensures
            r@ == federation_defaults(namespace@),
    {
        FederationTemplateDataBuilder {
            global_evaluation_interval: String::from_str("60s"),
            scrape_configs_k8s_scrape_interval: String::from_str("60s"),
            scrape_configs_k8s_scrape_timeout: String::from_str("30s"),
            scrape_configs_k8s_scheme: String::from_str("https"),
            scrape_configs_k8s_namespace: String::from_str(namespace),
        }
    }

    /// Takes the evaluation interval, the scrape interval, the scrape timeout and
    /// the scheme from the validated configuration, where it holds them.
    pub fn with_config(&mut self, config: &Properties) -> (r: &mut Self)
        ensures
            (*r)@ == federation_with_config(old(self)@, config@),
            final(self)@ == final(r)@,
    {
        if let Some(value) = config.get(PROM_EVALUATION_INTERVAL) {
            self.global_evaluation_interval = value.clone();
        }
        if let Some(value) = config.get(PROM_SCRAPE_INTERVAL) {
            self.scrape_configs_k8s_scrape_interval = value.clone();
        }
        if let Some(value) = config.get(PROM_SCRAPE_TIMEOUT) {
            self.scrape_configs_k8s_scrape_timeout = value.clone();
        }
        if let Some(value) = config.get(PROM_SCHEME) {
            self.scrape_configs_k8s_scheme = value.clone();
        }
        self
    }

    /// The finished template data.
    pub fn build(&mut self) -> (r: &Self)
        ensures
            r@ == old(self)@,
            final(self)@ == old(self)@,
    {
        self
    }

    /// The variables that render the template, by the names of the fields.
    pub fn template_variables(&self) -> (r: Vec<(String, TemplateValue)>)
        ensures
            variables_view(r@) == federation_variables(self@),
    {
        let mut r: Vec<(String, TemplateValue)> = Vec::new();
        r.push((String::from_str("global_evaluation_interval"), TemplateValue::Text(self.global_evaluation_interval.clone())));
        r.push((String::from_str("scrape_configs_k8s_scrape_interval"), TemplateValue::Text(self.scrape_configs_k8s_scrape_interval.clone())));
        r.push((String::from_str("scrape_configs_k8s_scrape_timeout"), TemplateValue::Text(self.scrape_configs_k8s_scrape_timeout.clone())));
        r.push((String::from_str("scrape_configs_k8s_scheme"), TemplateValue::Text(self.scrape_configs_k8s_scheme.clone())));
        r.push((String::from_str("scrape_configs_k8s_namespace"), TemplateValue::Text(self.scrape_configs_k8s_namespace.clone())));
        assert(variables_view(r@) =~= federation_variables(self@));
        r
    }
}

/// What follows rendering the template: the rendered text goes on to be read as
/// YAML; a failure is reported as the template not being parsable, with the
/// engine's description as the reason.
pub open spec fn nodepods_outcome(rendered: Result<Seq<char>, Seq<char>>) -> Result<Seq<char>, (Seq<char>, Seq<char>)> {
    match rendered {
        Ok(text) => Ok(text),
        Err(desc) => Err(("NODEPODS_TEMPLATE"@, desc)),
    }
}

/// A result of rendering, by its plain contents: the text, or the content and
/// the reason of a `YamlNotParsable` error (any other error has none).
pub open spec fn outcome_view(r: Result<String, Error>) -> Result<Seq<char>, (Seq<char>, Seq<char>)> {
    match r {
        Ok(text) => Ok(text@),
        Err(Error::YamlNotParsable { content, reason }) => Err((content@, reason@)),
        Err(_) => Err((Seq::empty(), Seq::empty())),
    }
}

/// The text of the rendered template, or the error that the template engine's
/// failure becomes.
pub fn nodepods_template_outcome(rendered: Result<String, String>) -> (r: Result<String, Error>)
    ensures
        outcome_view(r) == nodepods_outcome(render_view(rendered)),
        r is Err ==> r->Err_0 is YamlNotParsable,
{
    match rendered {
        Ok(contents) => Ok(contents),
        Err(desc) => Err(Error::YamlNotParsable { content: String::from_str("NODEPODS_TEMPLATE"), reason: desc }),
    }
}

/// What follows rendering the federation template: the rendered text goes on
/// to be read as YAML; a failure is reported as the template not being
/// parsable, with the engine's description as the reason.
pub open spec fn federation_outcome(rendered: Result<Seq<char>, Seq<char>>) -> Result<Seq<char>, (Seq<char>, Seq<char>)> {
    match rendered {
        Ok(text) => Ok(text),
        Err(desc) => Err(("FEDERATION_TEMPLATE"@, desc)),
    }
}

/// The text of the rendered federation template, or the error that the
/// template engine's failure becomes.
pub fn federation_template_outcome(rendered: Result<String, String>) -> (r: Result<String, Error>)
    ensures
        outcome_view(r) == federation_outcome(render_view(rendered)),
        r is Err ==> r->Err_0 is YamlNotParsable,
{
    match rendered {
        Ok(contents) => Ok(contents),
        Err(desc) => Err(Error::YamlNotParsable { content: String::from_str("FEDERATION_TEMPLATE"), reason: desc }),
    }
}

impl ConfigManager {
    /// Holds a configuration.
    pub fn from_config(config: Config) -> (r: Self)
        ensures
            r@ == config,
    {
        ConfigManager { config }
    }

    /// The held configuration.
    pub fn config(&self) -> (r: &Config)
        ensures
            *r == self@,
    {
        &self.config
    }

    /// Renders the Prometheus configuration template (`NODEPODS_TEMPLATE`) with
    /// the template variables `tdata`; the text is then to be read as YAML.
    ///
    /// The value 'KUBECONFIG' of the field kubeconfig_file (in kubernetes_sd_configs) will be replaced
    /// by the prometheus-wrapper.sh script with the content of the 'KUBECONFIG' environment variable
    /// set by the agent.
    ///
    /// The relabel config checks for "monitoring.stackable.tech/scrape=true" and requires a container
    /// port (to be scraped) and a container port name ("metrics"). This is required for the Service
    /// Discovery. Additionally we relabel all existing pod labels and expose the host ip, pod ip,
    /// controller kind and controller name.
    pub fn render_nodepods_template(tdata: &NodepodsTemplateDataBuilder) -> (r: Result<String, Error>)
        ensures
            outcome_view(r) == nodepods_outcome(handlebars_render(NODEPODS_TEMPLATE@, nodepods_variables(tdata@))),
    {
        let variables = tdata.template_variables();
        let rendered = render_template(NODEPODS_TEMPLATE, &variables);
        nodepods_template_outcome(rendered)
    }

    /// Renders the federation template (`FEDERATION_TEMPLATE`) with the template
    /// variables `tdata`; the text is then to be read as YAML.
    ///
    /// As in the pods' configuration, the value 'KUBECONFIG' of kubeconfig_file is
    /// replaced by the prometheus-wrapper.sh script with the content of the
    /// 'KUBECONFIG' environment variable.
    pub fn render_federation_template(tdata: &FederationTemplateDataBuilder) -> (r: Result<String, Error>)
        ensures
            outcome_view(r) == federation_outcome(handlebars_render(FEDERATION_TEMPLATE@, federation_variables(tdata@))),
    {
        let variables = tdata.template_variables();
        let rendered = render_template(FEDERATION_TEMPLATE, &variables);
        federation_template_outcome(rendered)
    }
}

} // verus!
