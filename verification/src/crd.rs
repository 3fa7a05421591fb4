//! The `MonitoringCluster` custom resource: versions, roles and their configuration.
use crate::text::{decimal, u16_to_text, parse_u16, u16_text_value};
use vstd::prelude::*;
use vstd::string::*;

verus! {

pub const APP_NAME: &'static str = "monitoring";
pub const MANAGED_BY: &'static str = "monitoring-operator";

// directories
pub const CONFIG_DIR: &'static str = "conf";
pub const DATA_DIR: &'static str = "data";

// pod and cluster (federation) metrics level
pub const PROM_SCRAPE_INTERVAL: &'static str = "scrapeInterval";
pub const PROM_SCRAPE_TIMEOUT: &'static str = "scrapeTimeout";
pub const PROM_EVALUATION_INTERVAL: &'static str = "evaluationInterval";
pub const PROM_WEB_UI_PORT: &'static str = "webUiPort";
pub const PROM_SCHEME: &'static str = "scheme";
// node metrics level
pub const NODE_METRICS_PORT: &'static str = "nodeMetricsPort";
pub const PROMETHEUS_CONFIG_YAML: &'static str = "prometheus.yaml";
// config map types
pub const CONFIG_MAP_TYPE_CONFIG: &'static str = "config";

/// The errors of the custom resource model.
#[derive(Clone, Debug, PartialEq, Eq)]
pub enum Error {
    /// The text names no known Prometheus version.
    UnknownVersion { version: String },
    /// A version could not be read as a semantic version.
    SemVer { reason: String },
    /// A port is not a decimal number in the range of `u16`.
    InvalidPort { port: String },
}

/// The Prometheus versions that the operator can deploy.
#[allow(non_camel_case_types)]
#[derive(Clone, Copy, Debug, PartialEq, Eq, Structural)]
pub enum MonitoringVersion {
    v2_28_1,
    v2_30_0,
}

impl MonitoringVersion {
    /// The version as it is written in the custom resource: `2.28.1`, `2.30.0`.
    pub open spec fn text(self) -> Seq<char> {
        match self {
            MonitoringVersion::v2_28_1 => "2.28.1"@,
            MonitoringVersion::v2_30_0 => "2.30.0"@,
        }
    }

    /// The name of the variant, as `Debug` writes it.
    pub open spec fn variant_name(self) -> Seq<char> {
        match self {
            MonitoringVersion::v2_28_1 => "v2_28_1"@,
            MonitoringVersion::v2_30_0 => "v2_30_0"@,
        }
    }

    /// The major, minor and patch numbers of the version.
    pub open spec fn numbers(self) -> (u64, u64, u64) {
        match self {
            MonitoringVersion::v2_28_1 => (2, 28, 1),
            MonitoringVersion::v2_30_0 => (2, 30, 0),
        }
    }

    /// The version of the node exporter shipped with this Prometheus version.
    pub open spec fn node_exporter_text(self) -> Seq<char> {
        "1.2.0"@
    }

    /// The version as it is written in the custom resource.
    pub fn to_string(&self) -> (s: String)
        ensures
            s@ == self.text(),
    {
        match self {
            MonitoringVersion::v2_28_1 => String::from_str("2.28.1"),
            MonitoringVersion::v2_30_0 => String::from_str("2.30.0"),
        }
    }

    /// The name of the variant, as `Debug` writes it.
    pub fn variant_string(&self) -> (s: String)
        ensures
            s@ == self.variant_name(),
    {
        match self {
            MonitoringVersion::v2_28_1 => String::from_str("v2_28_1"),
            MonitoringVersion::v2_30_0 => String::from_str("v2_30_0"),
        }
    }

    /// Reads a version as it is written in the custom resource.
    pub fn from_str(text: &str) -> (r: Result<MonitoringVersion, Error>)
        ensures
            r matches Ok(v) ==> v.text() == text@,
            r is Err <==> forall|v: MonitoringVersion| v.text() != text@,
            r is Err ==> r->Err_0 is UnknownVersion && r->Err_0->version@ == text@,
    {
        let given = String::from_str(text);
        if given == String::from_str("2.28.1") {
            assert(MonitoringVersion::v2_28_1.text() == text@);
            Ok(MonitoringVersion::v2_28_1)
        } else if given == String::from_str("2.30.0") {
            assert(MonitoringVersion::v2_30_0.text() == text@);
            Ok(MonitoringVersion::v2_30_0)
        } else {
            proof {
                assert forall|v: MonitoringVersion| v.text() != text@ by {
                    match v {
                        MonitoringVersion::v2_28_1 => {},
                        MonitoringVersion::v2_30_0 => {},
                    }
                }
            }
            Err(Error::UnknownVersion { version: given })
        }
    }

    /// The version of the node exporter that goes with this Prometheus version.
    pub fn node_exporter(&self) -> (s: &'static str)
        ensures
            s@ == self.node_exporter_text(),
    {
        match self {
            MonitoringVersion::v2_28_1 | MonitoringVersion::v2_30_0 => "1.2.0",
        }
    }
}

/// The text of each string in a sequence.
pub open spec fn texts(v: Seq<String>) -> Seq<Seq<char>> {
    v.map_values(|s: String| s@)
}

/// A copy of a list of strings.
pub fn clone_strings(v: &Vec<String>) -> (r: Vec<String>)
    ensures
        r@ == v@,
{
    let mut r: Vec<String> = Vec::new();
    for i in 0..v.len()
        invariant
            r@ == v@.take(i as int),
    {
        r.push(v[i].clone());
        assert(r@ =~= v@.take(i + 1));
    }
    assert(v@.take(v.len() as int) =~= v@);
    r
}

/// The processes that the operator deploys.
#[derive(Clone, Copy, Debug, PartialEq, Eq, Hash, Structural)]
pub enum MonitoringRole {
    /// The (pod-level) metrics aggregator. One per node required.
    PodAggregator,
    /// The (node-level) metrics. One per node required.
    NodeExporter,
    /// The Federation metrics. One per cluster required.
    Federation,
}

/// A port of a container: its number and its name.
#[derive(Clone, Debug, PartialEq, Eq)]
pub struct ContainerPort {
    pub container_port: u16,
    pub name: String,
}

/// Every role, in the order in which they are declared.
pub open spec fn all_roles() -> Seq<MonitoringRole> {
    seq![MonitoringRole::PodAggregator, MonitoringRole::NodeExporter, MonitoringRole::Federation]
}

impl MonitoringRole {
    /// The name of the role in labels and resource names.
    pub open spec fn name(self) -> Seq<char> {
        match self {
            MonitoringRole::PodAggregator => "pod-aggregator"@,
            MonitoringRole::NodeExporter => "node-exporter"@,
            MonitoringRole::Federation => "federation"@,
        }
    }

    /// The container image of the role for a version.
    pub open spec fn image_text(self, version: MonitoringVersion) -> Seq<char> {
        match self {
            MonitoringRole::NodeExporter => "node-exporter:"@ + version.node_exporter_text(),
            _ => "stackable/prometheus:"@ + version.text(),
        }
    }

    /// The command that starts the role's process.
    pub open spec fn command_texts(self, version: MonitoringVersion) -> Seq<Seq<char>> {
        match self {
            MonitoringRole::NodeExporter => seq![
                "node_exporter-"@ + version.node_exporter_text() + ".linux-amd64/node_exporter"@,
            ],
            _ => seq![
                "prometheus-"@ + version.text() + ".linux-amd64/prometheus-wrapper.sh"@,
            ],
        }
    }

    /// The arguments of the role's process: the listen address on `port`, then
    /// (for Prometheus) the configuration file and the log level, then the
    /// user's arguments, or for Prometheus without any the data directory.
    pub open spec fn args_texts(self, port: Seq<char>, args: Seq<Seq<char>>) -> Seq<Seq<char>> {
        match self {
            MonitoringRole::NodeExporter => seq!["--web.listen-address=127.0.0.1:"@ + port] + args,
            _ => seq![
                "--web.listen-address=:"@ + port,
                "--config.file={{configroot}}/"@ + CONFIG_DIR@ + "/"@ + PROMETHEUS_CONFIG_YAML@,
                "--log.level debug"@,
            ] + if args.len() == 0 {
                seq!["--storage.tsdb.path={{configroot}}/"@ + DATA_DIR@ + "/"@]
            } else {
                args
            },
        }
    }

    /// The names of the container ports that the role opens, all on the same port.
    pub open spec fn port_names(self) -> Seq<Seq<char>> {
        match self {
            MonitoringRole::PodAggregator => seq!["metrics"@, "http"@],
            MonitoringRole::NodeExporter => seq!["metrics"@],
            MonitoringRole::Federation => seq!["http"@],
        }
    }

    /// Every role, in the order in which they are declared.
    pub fn iter() -> (r: Vec<MonitoringRole>)
        ensures
            r@ == all_roles(),
    {
        let mut r = Vec::new();
        r.push(MonitoringRole::PodAggregator);
        r.push(MonitoringRole::NodeExporter);
        r.push(MonitoringRole::Federation);
        assert(r@ =~= all_roles());
        r
    }

    /// The name of the role in labels and resource names.
    pub fn to_string(&self) -> (s: String)
        ensures
            s@ == self.name(),
    {
        match self {
            MonitoringRole::PodAggregator => String::from_str("pod-aggregator"),
            MonitoringRole::NodeExporter => String::from_str("node-exporter"),
            MonitoringRole::Federation => String::from_str("federation"),
        }
    }

    /// The container image of the role for a version.
    pub fn image(&self, version: &MonitoringVersion) -> (s: String)
        ensures
            s@ == self.image_text(*version),
    {
        match self {
            MonitoringRole::PodAggregator | MonitoringRole::Federation => {
                String::from_str("stackable/prometheus:").concat(version.to_string().as_str())
            },
            MonitoringRole::NodeExporter => {
                String::from_str("node-exporter:").concat(version.node_exporter())
            },
        }
    }

    /// The command that starts the role's process.
    pub fn command(&self, version: &MonitoringVersion) -> (r: Vec<String>)
        ensures
            texts(r@) == self.command_texts(*version),
    {
        let mut command: Vec<String> = Vec::new();
        match self {
            MonitoringRole::PodAggregator | MonitoringRole::Federation => command.push(
                String::from_str("prometheus-").concat(version.to_string().as_str()).concat(
                    ".linux-amd64/prometheus-wrapper.sh",
                ),
            ),
            MonitoringRole::NodeExporter => command.push(
                String::from_str("node_exporter-").concat(version.node_exporter()).concat(
                    ".linux-amd64/node_exporter",
                ),
            ),
        }
        assert(texts(command@) =~= self.command_texts(*version));
        command
    }

    /// The arguments of the role's process; the user's `args` come last.
    pub fn args(&self, port: &str, args: Vec<String>) -> (r: Vec<String>)
        ensures
            texts(r@) == self.args_texts(port@, texts(args@)),
    {
        let mut command: Vec<String> = Vec::new();
        let mut args = args;
        let ghost user = texts(args@);
        match self {
            MonitoringRole::PodAggregator | MonitoringRole::Federation => {
                command.push(String::from_str("--web.listen-address=:").concat(port));
                command.push(
                    String::from_str("--config.file={{configroot}}/").concat(CONFIG_DIR).concat(
                        "/",
                    ).concat(PROMETHEUS_CONFIG_YAML),
                );
                command.push(String::from_str("--log.level debug"));
                if args.len() == 0 {
                    command.push(
                        String::from_str("--storage.tsdb.path={{configroot}}/").concat(
                            DATA_DIR,
                        ).concat("/"),
                    );
                } else {
                    command.append(&mut args);
                }
            },
            MonitoringRole::NodeExporter => {
                command.push(String::from_str("--web.listen-address=127.0.0.1:").concat(port));
                command.append(&mut args);
            },
        }
        assert(texts(command@) =~= self.args_texts(port@, user));
        command
    }

    /// The container ports of the role, all on `metrics_port`, which must be a
    /// decimal number in the range of `u16`.
    pub fn container_ports(&self, metrics_port: &str) -> (r: Result<Vec<ContainerPort>, Error>)
        ensures
            match u16_text_value(metrics_port@) {
                None => r is Err && r->Err_0 is InvalidPort && r->Err_0->port@ == metrics_port@,
                Some(port) => r is Ok && r->Ok_0@.len() == self.port_names().len()
                    && forall|i: int| 0 <= i < r->Ok_0@.len() ==> (#[trigger] r->Ok_0@[i]).container_port == port
                        && r->Ok_0@[i].name@ == self.port_names()[i],
            },
    {
        let port = match parse_u16(metrics_port) {
            Some(port) => port,
            None => { return Err(Error::InvalidPort { port: String::from_str(metrics_port) }); },
        };
        let mut container_ports: Vec<ContainerPort> = Vec::new();
        match self {
            MonitoringRole::PodAggregator => {
                container_ports.push(ContainerPort { container_port: port, name: String::from_str("metrics") });
                container_ports.push(ContainerPort { container_port: port, name: String::from_str("http") });
            },
            MonitoringRole::NodeExporter => {
                container_ports.push(ContainerPort { container_port: port, name: String::from_str("metrics") });
            },
            MonitoringRole::Federation => {
                container_ports.push(ContainerPort { container_port: port, name: String::from_str("http") });
            },
        }
        Ok(container_ports)
    }
}

/// The text of an optional string.
pub open spec fn opt_text(o: Option<String>) -> Option<Seq<char>> {
    match o {
        Some(s) => Some(s@),
        None => None,
    }
}

/// A property and its optional value, each by its text.
pub open spec fn property_texts(v: Seq<(String, Option<String>)>) -> Seq<(Seq<char>, Option<Seq<char>>)> {
    v.map_values(|p: (String, Option<String>)| (p.0@, opt_text(p.1)))
}

/// The one property `key` with `value` where there is a value, else none.
pub open spec fn optional_property(key: Seq<char>, value: Option<Seq<char>>) -> Seq<(Seq<char>, Option<Seq<char>>)> {
    match value {
        Some(v) => seq![(key, Some(v))],
        None => Seq::empty(),
    }
}

/// The port property `key`, its value written in decimal, where there is a port.
pub open spec fn port_property(key: Seq<char>, port: Option<u16>) -> Seq<(Seq<char>, Option<Seq<char>>)> {
    match port {
        Some(p) => seq![(key, Some(decimal(p as nat)))],
        None => Seq::empty(),
    }
}

/// The Prometheus file properties of a configuration, in the order of their keys
/// (as a `BTreeMap` holds them): evaluation interval, scheme, scrape interval,
/// scrape timeout; each only where it is set.
pub open spec fn prometheus_file_properties(
    scrape_interval: Option<String>,
    scrape_timeout: Option<String>,
    evaluation_interval: Option<String>,
    scheme: Option<String>,
) -> Seq<(Seq<char>, Option<Seq<char>>)> {
    optional_property(PROM_EVALUATION_INTERVAL@, opt_text(evaluation_interval))
        + optional_property(PROM_SCHEME@, opt_text(scheme))
        + optional_property(PROM_SCRAPE_INTERVAL@, opt_text(scrape_interval))
        + optional_property(PROM_SCRAPE_TIMEOUT@, opt_text(scrape_timeout))
}

/// Appends the property `key` with a copy of `value`, where there is a value.
fn push_optional_property(props: &mut Vec<(String, Option<String>)>, key: &str, value: &Option<String>)
    ensures
        property_texts(final(props)@) == property_texts(old(props)@) + optional_property(key@, opt_text(*value)),
{
    let ghost before = old(props)@;
    match value {
        Some(v) => {
            props.push((String::from_str(key), Some(v.clone())));
        },
        None => {},
    }
    assert(property_texts(props@) =~= property_texts(before) + optional_property(key@, opt_text(*value)));
}

/// The Prometheus file properties of a configuration.
fn prometheus_files(
    scrape_interval: &Option<String>,
    scrape_timeout: &Option<String>,
    evaluation_interval: &Option<String>,
    scheme: &Option<String>,
) -> (r: Vec<(String, Option<String>)>)
    ensures
        property_texts(r@) == prometheus_file_properties(*scrape_interval, *scrape_timeout, *evaluation_interval, *scheme),
{
    let mut result: Vec<(String, Option<String>)> = Vec::new();
    assert(property_texts(result@) =~= Seq::empty());
    push_optional_property(&mut result, PROM_EVALUATION_INTERVAL, evaluation_interval);
    push_optional_property(&mut result, PROM_SCHEME, scheme);
    push_optional_property(&mut result, PROM_SCRAPE_INTERVAL, scrape_interval);
    push_optional_property(&mut result, PROM_SCRAPE_TIMEOUT, scrape_timeout);
    result
}

/// The property `key` with the port written in decimal, where there is a port.
fn port_properties(key: &str, port: Option<u16>) -> (r: Vec<(String, Option<String>)>)
    ensures
        property_texts(r@) == port_property(key@, port),
{
    let mut result: Vec<(String, Option<String>)> = Vec::new();
    if let Some(p) = port {
        result.push((String::from_str(key), Some(u16_to_text(p))));
    }
    assert(property_texts(result@) =~= port_property(key@, port));
    result
}

/// The configuration of a Prometheus server of the first resource layout, with a
/// single `servers` role.
#[derive(Clone, Debug, PartialEq, Eq)]
pub struct MonitoringConfig {
    pub web_ui_port: Option<u16>,
    pub scrape_interval: Option<String>,
    pub scrape_timeout: Option<String>,
    pub evaluation_interval: Option<String>,
    pub scheme: Option<String>,
}

/// The configuration of a Prometheus server: the pod aggregator or the federation.
#[derive(Clone, Debug, PartialEq, Eq)]
pub struct PodMonitoringConfig {
    pub web_ui_port: Option<u16>,
    pub scrape_interval: Option<String>,
    pub scrape_timeout: Option<String>,
    pub evaluation_interval: Option<String>,
    pub scheme: Option<String>,
    pub cli_args: Vec<String>,
}

/// The configuration of a node exporter.
#[derive(Clone, Debug, PartialEq, Eq)]
pub struct NodeMonitoringConfig {
    pub metrics_port: Option<u16>,
    pub cli_args: Vec<String>,
}

impl MonitoringConfig {
    /// No environment variables are configured.
    pub fn compute_env(&self) -> (r: Vec<(String, Option<String>)>)
        ensures
            r@.len() == 0,
    {
        Vec::new()
    }

    /// The command line properties: the web UI port, where it is set.
    pub fn compute_cli(&self) -> (r: Vec<(String, Option<String>)>)
        ensures
            property_texts(r@) == port_property(PROM_WEB_UI_PORT@, self.web_ui_port),
    {
        port_properties(PROM_WEB_UI_PORT, self.web_ui_port)
    }

    /// The properties of the Prometheus configuration file.
    pub fn compute_files(&self) -> (r: Vec<(String, Option<String>)>)
        ensures
            property_texts(r@) == prometheus_file_properties(
                self.scrape_interval, self.scrape_timeout, self.evaluation_interval, self.scheme),
    {
        prometheus_files(&self.scrape_interval, &self.scrape_timeout, &self.evaluation_interval, &self.scheme)
    }
}

impl PodMonitoringConfig {
    /// No environment variables are configured.
    pub fn compute_env(&self) -> (r: Vec<(String, Option<String>)>)
        ensures
            r@.len() == 0,
    {
        Vec::new()
    }

    /// The command line properties: the web UI port, where it is set.
    pub fn compute_cli(&self) -> (r: Vec<(String, Option<String>)>)
        ensures
            property_texts(r@) == port_property(PROM_WEB_UI_PORT@, self.web_ui_port),
    {
        port_properties(PROM_WEB_UI_PORT, self.web_ui_port)
    }

    /// The properties of the Prometheus configuration file.
    pub fn compute_files(&self) -> (r: Vec<(String, Option<String>)>)
        ensures
            property_texts(r@) == prometheus_file_properties(
                self.scrape_interval, self.scrape_timeout, self.evaluation_interval, self.scheme),
    {
        prometheus_files(&self.scrape_interval, &self.scrape_timeout, &self.evaluation_interval, &self.scheme)
    }
}

impl NodeMonitoringConfig {
    /// No environment variables are configured.
    pub fn compute_env(&self) -> (r: Vec<(String, Option<String>)>)
        ensures
            r@.len() == 0,
    {
        Vec::new()
    }

    /// The command line properties: the metrics port, where it is set.
    pub fn compute_cli(&self) -> (r: Vec<(String, Option<String>)>)
        ensures
            property_texts(r@) == port_property(NODE_METRICS_PORT@, self.metrics_port),
    {
        port_properties(NODE_METRICS_PORT, self.metrics_port)
    }

    /// The node exporter reads no configuration file.
    pub fn compute_files(&self) -> (r: Vec<(String, Option<String>)>)
        ensures
            r@.len() == 0,
    {
        Vec::new()
    }
}

/// A named group of a role, with the configuration that the user gave it.
#[derive(Clone, Debug, PartialEq, Eq)]
pub struct RoleGroup<T> {
    pub name: String,
    pub config: Option<T>,
}

/// A role of the custom resource: its groups, each under a name of its own
/// (no two groups share a name).
#[derive(Debug, PartialEq, Eq)]
pub struct Role<T> {
    role_groups: Vec<RoleGroup<T>>,
}

/// The configuration of the group `name`, where there is such a group and it
/// has a configuration.
pub open spec fn group_config<T>(groups: Seq<RoleGroup<T>>, name: Seq<char>) -> Option<T>
    decreases groups.len(),
{
    if groups.len() == 0 {
        None
    } else if groups[0].name@ == name {
        groups[0].config
    } else {
        group_config(groups.drop_first(), name)
    }
}

/// Whether no two groups share a name.
pub open spec fn unique_names<T>(groups: Seq<RoleGroup<T>>) -> bool {
    forall|i: int, j: int| 0 <= i < j < groups.len() ==> #[trigger] groups[i].name@ != #[trigger] groups[j].name@
}

/// The groups after adding `group`: it takes the place of the group with its
/// name, or comes last where there is none.
pub open spec fn set_group<T>(groups: Seq<RoleGroup<T>>, group: RoleGroup<T>) -> Seq<RoleGroup<T>>
    decreases groups.len(),
{
    if groups.len() == 0 {
        seq![group]
    } else if groups[0].name@ == group.name@ {
        groups.update(0, group)
    } else {
        seq![groups[0]] + set_group(groups.drop_first(), group)
    }
}

/// Every group after adding `group` is `group` or a group that was there.
proof fn lemma_set_group_elements<T>(groups: Seq<RoleGroup<T>>, group: RoleGroup<T>, i: int)
    requires
        0 <= i < set_group(groups, group).len(),
    ensures
        set_group(groups, group)[i] == group || exists|j: int| 0 <= j < groups.len() && set_group(groups, group)[i] == groups[j],
    decreases groups.len(),
{
    let r = set_group(groups, group);
    if groups.len() == 0 {
    } else if groups[0].name@ == group.name@ {
        if i != 0 {
            assert(r[i] == groups[i]);
        }
    } else if i == 0 {
        assert(r[0] == groups[0]);
    } else {
        lemma_set_group_elements(groups.drop_first(), group, i - 1);
        assert(r[i] == set_group(groups.drop_first(), group)[i - 1]);
        if r[i] != group {
            let j = choose|j: int| 0 <= j < groups.drop_first().len() && r[i] == groups.drop_first()[j];
            assert(r[i] == groups[j + 1]);
        }
    }
}

/// Adding a group keeps the names unique.
proof fn lemma_set_group_unique<T>(groups: Seq<RoleGroup<T>>, group: RoleGroup<T>)
    requires
        unique_names(groups),
    ensures
        unique_names(set_group(groups, group)),
    decreases groups.len(),
{
    let r = set_group(groups, group);
    if groups.len() == 0 {
    } else if groups[0].name@ == group.name@ {
        assert forall|i: int, j: int| 0 <= i < j < r.len() implies #[trigger] r[i].name@ != #[trigger] r[j].name@ by {
            assert(r[i].name@ == groups[i].name@);
            assert(r[j].name@ == groups[j].name@);
        }
    } else {
        let rest = groups.drop_first();
        assert(unique_names(rest)) by {
            assert forall|i: int, j: int| 0 <= i < j < rest.len() implies #[trigger] rest[i].name@ != #[trigger] rest[j].name@ by {
                assert(rest[i] == groups[i + 1] && rest[j] == groups[j + 1]);
            }
        }
        lemma_set_group_unique(rest, group);
        let tail = set_group(rest, group);
        assert forall|i: int, j: int| 0 <= i < j < r.len() implies #[trigger] r[i].name@ != #[trigger] r[j].name@ by {
            if i == 0 {
                lemma_set_group_elements(rest, group, j - 1);
                assert(r[j] == tail[j - 1]);
                if tail[j - 1] != group {
                    let k = choose|k: int| 0 <= k < rest.len() && tail[j - 1] == rest[k];
                    assert(rest[k] == groups[k + 1]);
                }
            } else {
                assert(r[i] == tail[i - 1] && r[j] == tail[j - 1]);
            }
        }
    }
}

impl<T> Role<T> {
    /// No two groups share a name.
    #[verifier::type_invariant]
    spec fn names_unique(self) -> bool {
        unique_names(self.role_groups@)
    }

    /// The groups of the role.
    pub closed spec fn groups(self) -> Seq<RoleGroup<T>> {
        self.role_groups@
    }

    /// A role without groups.
    pub fn new() -> (r: Self)
        ensures
            r.groups() == Seq::<RoleGroup<T>>::empty(),
    {
        Role { role_groups: Vec::new() }
    }

    /// The number of groups; no two of them share a name.
    pub fn len(&self) -> (n: usize)
        ensures
            n == self.groups().len(),
            unique_names(self.groups()),
    {
        proof {
            use_type_invariant(self);
        }
        self.role_groups.len()
    }

    /// Adds the group `name` with its configuration; it replaces a group of that name.
    pub fn insert(&mut self, name: String, config: Option<T>)
        ensures
            final(self).groups() == set_group(old(self).groups(), RoleGroup { name, config }),
            unique_names(final(self).groups()),
    {
        proof {
            use_type_invariant(&*self);
        }
        let ghost before = self.role_groups@;
        let ghost group = RoleGroup { name, config };
        let mut groups: Vec<RoleGroup<T>> = Vec::new();
        std::mem::swap(&mut groups, &mut self.role_groups);
        let found = group_position(&groups, &name);
        proof {
            lemma_set_group_unique(before, group);
        }
        match found {
            Some(i) => {
                groups.set(i, RoleGroup { name, config });
                assert(groups@ =~= before.take(i as int) + before.skip(i as int).update(0, group));
            },
            None => {
                groups.push(RoleGroup { name, config });
                assert(groups@ =~= before + seq![group]);
            },
        }
        self.role_groups = groups;
    }

    /// The configuration of the group `group`, where there is such a group and
    /// it has a configuration.
    pub fn group_config(&self, group: &str) -> (r: Option<&T>)
        ensures
            r is Some == group_config(self.groups(), group@) is Some,
            r is Some ==> *r->Some_0 == group_config(self.groups(), group@)->Some_0,
    {
        let key = String::from_str(group);
        let groups = &self.role_groups;
        assert(groups@.skip(0) =~= groups@);
        for i in 0..groups.len()
            invariant
                key@ == group@,
                groups@ == self.groups(),
                group_config(groups@, group@) == group_config(groups@.skip(i as int), group@),
        {
            assert(groups@.skip(i as int).drop_first() =~= groups@.skip(i + 1));
            if groups[i].name == key {
                return match &groups[i].config {
                    Some(c) => Some(c),
                    None => None,
                };
            }
        }
        None
    }
}

/// The position of the group named `name`, where there is one.
fn group_position<T>(groups: &Vec<RoleGroup<T>>, name: &String) -> (r: Option<usize>)
    ensures
        r matches Some(i) ==> i < groups@.len() && forall|g: RoleGroup<T>| g.name@ == name@ ==> #[trigger] set_group(groups@, g)
            == groups@.take(i as int) + groups@.skip(i as int).update(0, g),
        r is None ==> forall|g: RoleGroup<T>| g.name@ == name@ ==> #[trigger] set_group(groups@, g) == groups@ + seq![g],
{
    let ghost gs = groups@;
    assert(gs.skip(0) =~= gs);
    assert(gs.take(0) =~= Seq::<RoleGroup<T>>::empty());
    for i in 0..groups.len()
        invariant
            gs == groups@,
            forall|g: RoleGroup<T>| g.name@ == name@ ==> #[trigger] set_group(gs, g) == gs.take(i as int) + set_group(gs.skip(i as int), g),
    {
        let ghost tail = gs.skip(i as int);
        assert(tail[0] == gs[i as int]);
        if groups[i].name == *name {
            assert forall|g: RoleGroup<T>| g.name@ == name@ implies #[trigger] set_group(gs, g)
                == gs.take(i as int) + gs.skip(i as int).update(0, g) by {
                assert(set_group(tail, g) == tail.update(0, g));
            }
            return Some(i);
        }
        assert(tail.drop_first() =~= gs.skip(i + 1));
        assert(gs.take(i + 1) =~= gs.take(i as int) + seq![gs[i as int]]);
        assert forall|g: RoleGroup<T>| g.name@ == name@ implies #[trigger] set_group(gs, g) == gs.take(i + 1) + set_group(gs.skip(i + 1), g) by {
            assert(set_group(tail, g) == seq![tail[0]] + set_group(tail.drop_first(), g));
        }
    }
    assert(gs.take(gs.len() as int) =~= gs);
    assert(gs.skip(gs.len() as int) =~= Seq::<RoleGroup<T>>::empty());
    None
}

/// What the user asks of a monitoring cluster.
#[derive(Debug, PartialEq, Eq)]
pub struct MonitoringClusterSpec {
    pub version: MonitoringVersion,
    pub pod_aggregator: Role<PodMonitoringConfig>,
    pub node_exporter: Option<Role<NodeMonitoringConfig>>,
    pub federation: Option<Role<PodMonitoringConfig>>,
}

/// The configuration of a group of an optional role.
pub open spec fn optional_group_config<T>(role: Option<Role<T>>, group: Seq<char>) -> Option<T> {
    match role {
        Some(r) => group_config(r.groups(), group),
        None => None,
    }
}

impl MonitoringClusterSpec {
    /// The metrics port configured for the node exporter group `group`.
    pub open spec fn metrics_port_of(self, group: Seq<char>) -> Option<u16> {
        match optional_group_config(self.node_exporter, group) {
            Some(c) => c.metrics_port,
            None => None,
        }
    }

    /// The command line arguments that the user gave the group `group` of `role`;
    /// none where there is no such configuration.
    pub open spec fn cli_args_of(self, role: MonitoringRole, group: Seq<char>) -> Seq<String> {
        match role {
            MonitoringRole::PodAggregator => match group_config(self.pod_aggregator.groups(), group) {
                Some(c) => c.cli_args@,
                None => Seq::empty(),
            },
            MonitoringRole::NodeExporter => match optional_group_config(self.node_exporter, group) {
                Some(c) => c.cli_args@,
                None => Seq::empty(),
            },
            MonitoringRole::Federation => match optional_group_config(self.federation, group) {
                Some(c) => c.cli_args@,
                None => Seq::empty(),
            },
        }
    }

    /// Extracts the metrics port for a role group of the node exporter role.
    pub fn node_exporter_metrics_port(&self, role_group: &str) -> (r: Option<u16>)
        ensures
            r == self.metrics_port_of(role_group@),
    {
        if let Some(role) = &self.node_exporter {
            if let Some(conf) = role.group_config(role_group) {
                return conf.metrics_port;
            }
        }
        None
    }

    /// The command line arguments configured by the user for `role` and `group`,
    /// appended by the operator after its own arguments.
    pub fn cli_args(&self, role: &MonitoringRole, group: &str) -> (r: Vec<String>)
        ensures
            r@ == self.cli_args_of(*role, group@),
    {
        match role {
            MonitoringRole::PodAggregator => {
                if let Some(conf) = self.pod_aggregator.group_config(group) {
                    return clone_strings(&conf.cli_args);
                }
            },
            MonitoringRole::NodeExporter => {
                if let Some(role) = &self.node_exporter {
                    if let Some(conf) = role.group_config(group) {
                        return clone_strings(&conf.cli_args);
                    }
                }
            },
            MonitoringRole::Federation => {
                if let Some(role) = &self.federation {
                    if let Some(conf) = role.group_config(group) {
                        return clone_strings(&conf.cli_args);
                    }
                }
            },
        }
        Vec::new()
    }
}

/// A condition of the cluster status, by its plain fields.
#[derive(Clone, Debug, PartialEq, Eq)]
pub struct Condition {
    pub type_: String,
    pub status: String,
    pub reason: String,
    pub message: String,
    pub last_transition_time: String,
    pub observed_generation: Option<i64>,
}

/// The status of a monitoring cluster: the version that runs, the version being
/// moved to, and the conditions.
#[derive(Clone, Debug, PartialEq, Eq)]
pub struct MonitoringClusterStatus {
    pub current_version: Option<MonitoringVersion>,
    pub target_version: Option<MonitoringVersion>,
    pub conditions: Vec<Condition>,
}

impl Default for MonitoringClusterStatus {
    /// No version and no condition.
    fn default() -> (r: Self)
        ensures
            r.current_version is None,
            r.target_version is None,
            r.conditions@.len() == 0,
    {
        MonitoringClusterStatus { current_version: None, target_version: None, conditions: Vec::new() }
    }
}

/// A monitoring cluster: its name, its namespace, what the user asks of it and
/// its status.
#[derive(Debug, PartialEq, Eq)]
pub struct MonitoringCluster {
    pub name: String,
    pub namespace: String,
    pub spec: MonitoringClusterSpec,
    pub status: Option<MonitoringClusterStatus>,
}

impl MonitoringCluster {
    /// The conditions of the status, where there is a status.
    pub fn conditions(&self) -> (r: Option<&Vec<Condition>>)
        ensures
            r is Some == self.status is Some,
            r is Some ==> *r->Some_0 == self.status->Some_0.conditions,
    {
        if let Some(status) = &self.status {
            return Some(&status.conditions);
        }
        None
    }

    /// The conditions of the status, which is first set to an empty status where
    /// there is none.
    pub fn conditions_mut(&mut self) -> (r: &mut Vec<Condition>)
        ensures
            old(self).status is Some ==> *r == old(self).status->Some_0.conditions,
            old(self).status is None ==> r@.len() == 0,
            final(self).status is Some,
            final(self).status->Some_0.conditions == *final(r),
            final(self).status->Some_0.current_version == (if old(self).status is Some { old(self).status->Some_0.current_version } else { None }),
            final(self).status->Some_0.target_version == (if old(self).status is Some { old(self).status->Some_0.target_version } else { None }),
            final(self).name == old(self).name,
            final(self).namespace == old(self).namespace,
            final(self).spec == old(self).spec,
    {
        let status = self.status.get_or_insert(MonitoringClusterStatus::default());
        &mut status.conditions
    }
}

} // verus!
