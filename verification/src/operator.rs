//! The decisions of the reconciliation loop: how the cluster status moves between
//! versions, which labels pods must carry, where the next pod goes and how its
//! container is set up. Talking to Kubernetes is left to the caller, which
//! performs the returned steps.
use crate::crd::{
    texts, ContainerPort, MonitoringCluster, MonitoringClusterSpec, MonitoringClusterStatus,
    MonitoringRole, MonitoringVersion, APP_NAME, CONFIG_DIR, CONFIG_MAP_TYPE_CONFIG,
    NODE_METRICS_PORT, PROMETHEUS_CONFIG_YAML, PROM_WEB_UI_PORT,
};
use crate::error::Error;
use crate::prometheus::{
    data_with_config, data_with_node_exporter, data_with_node_exporter_labels, federation_defaults,
    federation_with_config, nodepods_defaults, FederationTemplateData, FederationTemplateDataBuilder,
    NodepodsTemplateData, NodepodsTemplateDataBuilder,
};
use crate::properties::{lookup, names_increasing, Properties};
use crate::text::u16_text_value;
use crate::versioning::{triple_order, VersionOrder};
use vstd::prelude::*;
use vstd::string::*;

verus! {

/// The label naming the component (the role) of a pod.
pub const APP_COMPONENT_LABEL: &'static str = "app.kubernetes.io/component";
/// The label naming the instance (the cluster) that a pod belongs to.
pub const APP_INSTANCE_LABEL: &'static str = "app.kubernetes.io/instance";
/// The label naming the version that a pod runs.
pub const APP_VERSION_LABEL: &'static str = "app.kubernetes.io/version";

/// The status of a condition.
#[derive(Clone, Copy, Debug, PartialEq, Eq, Structural)]
pub enum ConditionStatus {
    True,
    False,
    Unknown,
}

/// A change of the cluster status that the caller makes, in order.
#[derive(Clone, Debug, PartialEq, Eq)]
pub enum StatusUpdate {
    /// Write an empty status, as there is none yet.
    InitializeStatus,
    /// Set the `Upgrading` condition.
    SetUpgradingCondition { message: String, reason: String, status: ConditionStatus },
    /// Set the target version.
    SetTargetVersion(Option<MonitoringVersion>),
    /// Set the current version.
    SetCurrentVersion(Option<MonitoringVersion>),
}

/// A status change by its plain contents.
pub enum StatusUpdateView {
    InitializeStatus,
    SetUpgradingCondition { message: Seq<char>, reason: Seq<char>, status: ConditionStatus },
    SetTargetVersion(Option<MonitoringVersion>),
    SetCurrentVersion(Option<MonitoringVersion>),
}

impl View for StatusUpdate {
    type V = StatusUpdateView;

    open spec fn view(&self) -> StatusUpdateView {
        match self {
            StatusUpdate::InitializeStatus => StatusUpdateView::InitializeStatus,
            StatusUpdate::SetUpgradingCondition { message, reason, status } => StatusUpdateView::SetUpgradingCondition {
                message: message@,
                reason: reason@,
                status: *status,
            },
            StatusUpdate::SetTargetVersion(v) => StatusUpdateView::SetTargetVersion(*v),
            StatusUpdate::SetCurrentVersion(v) => StatusUpdateView::SetCurrentVersion(*v),
        }
    }
}

/// Status changes by their plain contents.
pub open spec fn updates_view(v: Seq<StatusUpdate>) -> Seq<StatusUpdateView> {
    v.map_values(|u: StatusUpdate| u@)
}

/// The current and the target version of a status; a missing status has neither.
pub open spec fn status_versions(status: Option<MonitoringClusterStatus>) -> (Option<MonitoringVersion>, Option<MonitoringVersion>) {
    match status {
        Some(s) => (s.current_version, s.target_version),
        None => (None, None),
    }
}

/// The versions after one status change.
pub open spec fn apply_update(
    versions: (Option<MonitoringVersion>, Option<MonitoringVersion>),
    update: StatusUpdateView,
) -> (Option<MonitoringVersion>, Option<MonitoringVersion>) {
    match update {
        StatusUpdateView::SetTargetVersion(t) => (versions.0, t),
        StatusUpdateView::SetCurrentVersion(c) => (c, versions.1),
        _ => versions,
    }
}

/// The versions after a series of status changes, made in order.
pub open spec fn apply_updates(
    versions: (Option<MonitoringVersion>, Option<MonitoringVersion>),
    updates: Seq<StatusUpdateView>,
) -> (Option<MonitoringVersion>, Option<MonitoringVersion>)
    decreases updates.len(),
{
    if updates.len() == 0 {
        versions
    } else {
        apply_updates(apply_update(versions, updates[0]), updates.drop_first())
    }
}

/// `Initial installation to version [VERSION]`
pub open spec fn initial_installation_message(v: MonitoringVersion) -> Seq<char> {
    "Initial installation to version ["@ + v.variant_name() + "]"@
}

/// `Upgrading from [FROM] to [TO]`
pub open spec fn upgrading_message(from: MonitoringVersion, to: MonitoringVersion) -> Seq<char> {
    "Upgrading from ["@ + from.variant_name() + "] to ["@ + to.variant_name() + "]"@
}

/// `No upgrade required [VERSION] is still the current_version`
pub open spec fn no_upgrade_message(v: MonitoringVersion) -> Seq<char> {
    "No upgrade required ["@ + v.variant_name() + "] is still the current_version"@
}

/// Setting the `Upgrading` condition.
pub open spec fn condition_update(message: Seq<char>, reason: Seq<char>, status: ConditionStatus) -> StatusUpdateView {
    StatusUpdateView::SetUpgradingCondition { message, reason, status }
}

/// Whether moving from `from` to `to` is an upgrade, by their numbers.
pub open spec fn is_upgrade(from: MonitoringVersion, to: MonitoringVersion) -> bool {
    triple_order(to.numbers(), from.numbers()) == VersionOrder::Greater
}

/// The status changes at the start of a reconciliation, given the versions of
/// the status and the version that the spec asks for:
/// - with neither version, the initial installation starts towards the spec's version;
/// - with only a target, the initial installation goes on towards it;
/// - with only a current version, an upgrade to the spec's version starts where
///   it is one; another version in the spec is ignored; the same version needs
///   no upgrade;
/// - with both, the running upgrade goes on.
pub open spec fn init_version_updates(
    versions: (Option<MonitoringVersion>, Option<MonitoringVersion>),
    spec_version: MonitoringVersion,
) -> Seq<StatusUpdateView> {
    match versions {
        (None, None) => seq![
            condition_update(initial_installation_message(spec_version), "InitialInstallation"@, ConditionStatus::True),
            StatusUpdateView::SetTargetVersion(Some(spec_version)),
        ],
        (None, Some(target)) => seq![
            condition_update(initial_installation_message(target), "InitialInstallation"@, ConditionStatus::True),
        ],
        (Some(current), None) => if current != spec_version {
            if is_upgrade(current, spec_version) {
                seq![
                    StatusUpdateView::SetTargetVersion(Some(spec_version)),
                    condition_update(upgrading_message(current, spec_version), "Upgrading"@, ConditionStatus::True),
                ]
            } else {
                Seq::empty()
            }
        } else {
            seq![condition_update(no_upgrade_message(current), ""@, ConditionStatus::False)]
        },
        (Some(current), Some(target)) => seq![
            condition_update(upgrading_message(current, target), ""@, ConditionStatus::False),
        ],
    }
}

/// The status changes at the start of a reconciliation: an empty status is
/// written first where there is none.
pub open spec fn init_status_plan(status: Option<MonitoringClusterStatus>, spec_version: MonitoringVersion) -> Seq<StatusUpdateView> {
    (if status is None { seq![StatusUpdateView::InitializeStatus] } else { Seq::empty() })
        + init_version_updates(status_versions(status), spec_version)
}

/// The status changes once every pod runs: a target version becomes the current
/// version.
pub open spec fn finalize_version_updates(target: Option<MonitoringVersion>) -> Seq<StatusUpdateView> {
    match target {
        Some(t) => seq![
            StatusUpdateView::SetTargetVersion(None),
            StatusUpdateView::SetCurrentVersion(Some(t)),
            condition_update(no_upgrade_message(t), ""@, ConditionStatus::False),
        ],
        None => Seq::empty(),
    }
}

/// Setting the `Upgrading` condition.
fn set_condition(message: String, reason: &str, status: ConditionStatus) -> (u: StatusUpdate)
    ensures
        u@ == condition_update(message@, reason@, status),
{
    StatusUpdate::SetUpgradingCondition { message, reason: String::from_str(reason), status }
}

/// `Initial installation to version [VERSION]`
fn initial_installation(v: &MonitoringVersion) -> (s: String)
    ensures
        s@ == initial_installation_message(*v),
{
    String::from_str("Initial installation to version [").concat(v.variant_string().as_str()).concat("]")
}

/// `Upgrading from [FROM] to [TO]`
fn upgrading(from: &MonitoringVersion, to: &MonitoringVersion) -> (s: String)
    ensures
        s@ == upgrading_message(*from, *to),
{
    String::from_str("Upgrading from [").concat(from.variant_string().as_str()).concat("] to [").concat(
        to.variant_string().as_str(),
    ).concat("]")
}

/// `No upgrade required [VERSION] is still the current_version`
fn no_upgrade(v: &MonitoringVersion) -> (s: String)
    ensures
        s@ == no_upgrade_message(*v),
{
    String::from_str("No upgrade required [").concat(v.variant_string().as_str()).concat(
        "] is still the current_version",
    )
}

/// The status changes that start a reconciliation, for the status that the
/// cluster has (if any) and the version that its spec asks for.
pub fn init_status(status: &Option<MonitoringClusterStatus>, spec_version: &MonitoringVersion) -> (r: Vec<StatusUpdate>)
    ensures
        updates_view(r@) == init_status_plan(*status, *spec_version),
{
    let mut updates: Vec<StatusUpdate> = Vec::new();
    let (current, target) = match status {
        Some(s) => (s.current_version, s.target_version),
        None => {
            updates.push(StatusUpdate::InitializeStatus);
            (None, None)
        },
    };
    let ghost prefix = updates_view(updates@);
    match (&current, &target) {
        (None, None) => {
            updates.push(set_condition(initial_installation(spec_version), "InitialInstallation", ConditionStatus::True));
            updates.push(StatusUpdate::SetTargetVersion(Some(*spec_version)));
        },
        (None, Some(target_version)) => {
            updates.push(set_condition(initial_installation(target_version), "InitialInstallation", ConditionStatus::True));
        },
        (Some(current_version), None) => {
            if current_version != spec_version {
                let valid = match current_version.is_valid_upgrade(spec_version) {
                    Ok(valid) => valid,
                    Err(_) => false,
                };
                if valid {
                    updates.push(StatusUpdate::SetTargetVersion(Some(*spec_version)));
                    updates.push(set_condition(upgrading(current_version, spec_version), "Upgrading", ConditionStatus::True));
                }
            } else {
                updates.push(set_condition(no_upgrade(current_version), "", ConditionStatus::False));
            }
        },
        (Some(current_version), Some(target_version)) => {
            updates.push(set_condition(upgrading(current_version, target_version), "", ConditionStatus::False));
        },
    }
    assert(updates_view(updates@) =~= init_status_plan(*status, *spec_version));
    updates
}

/// The message of the error for a status that is missing once all pods run.
pub open spec fn status_missing_message() -> Seq<char> {
    "`Prometheus status missing, this is a programming error and should never happen. Please report in our issue tracker."@
}

/// The status changes once every pod runs on the target version; a missing
/// status is an error.
pub fn finalize_status(status: &Option<MonitoringClusterStatus>) -> (r: Result<Vec<StatusUpdate>, Error>)
    ensures
        match status {
            Some(s) => r is Ok && updates_view(r->Ok_0@) == finalize_version_updates(s.target_version),
            None => r is Err && r->Err_0 is ReconcileError && r->Err_0->ReconcileError_0@ == status_missing_message(),
        },
{
    let status = match status {
        Some(s) => s,
        None => {
            return Err(Error::ReconcileError(String::from_str(
                "`Prometheus status missing, this is a programming error and should never happen. Please report in our issue tracker.",
            )));
        },
    };
    let mut updates: Vec<StatusUpdate> = Vec::new();
    if let Some(target_version) = &status.target_version {
        updates.push(StatusUpdate::SetTargetVersion(None));
        updates.push(StatusUpdate::SetCurrentVersion(Some(*target_version)));
        updates.push(set_condition(no_upgrade(target_version), "", ConditionStatus::False));
    }
    assert(updates_view(updates@) =~= finalize_version_updates(status.target_version));
    Ok(updates)
}

/// The kinds of properties of the product configuration.
#[derive(Clone, Debug, PartialEq, Eq, Hash)]
pub enum PropertyNameKind {
    Env,
    Cli,
    File(String),
}

/// A kind of property by its plain contents.
pub enum PropertyKindView {
    Env,
    Cli,
    File(Seq<char>),
}

impl View for PropertyNameKind {
    type V = PropertyKindView;

    open spec fn view(&self) -> PropertyKindView {
        match self {
            PropertyNameKind::Env => PropertyKindView::Env,
            PropertyNameKind::Cli => PropertyKindView::Cli,
            PropertyNameKind::File(f) => PropertyKindView::File(f@),
        }
    }
}

/// The kinds of properties that the product configuration validates for a role:
/// the Prometheus servers read the configuration file and the command line, the
/// node exporter only the command line.
pub open spec fn role_kinds(role: MonitoringRole) -> Seq<PropertyKindView> {
    match role {
        MonitoringRole::NodeExporter => seq![PropertyKindView::Cli],
        _ => seq![PropertyKindView::File(PROMETHEUS_CONFIG_YAML@), PropertyKindView::Cli],
    }
}

/// The roles that a cluster configures: the pod aggregator always, the node
/// exporter and the federation where the spec has them.
pub open spec fn configured_roles(spec: MonitoringClusterSpec) -> Seq<MonitoringRole> {
    seq![MonitoringRole::PodAggregator]
        + (if spec.node_exporter is Some { seq![MonitoringRole::NodeExporter] } else { Seq::empty() })
        + (if spec.federation is Some { seq![MonitoringRole::Federation] } else { Seq::empty() })
}

/// Each configured role with its kinds of properties, by their plain contents.
pub open spec fn role_kinds_view(v: Seq<(MonitoringRole, Vec<PropertyNameKind>)>) -> Seq<(MonitoringRole, Seq<PropertyKindView>)> {
    v.map_values(|e: (MonitoringRole, Vec<PropertyNameKind>)| (e.0, e.1@.map_values(|k: PropertyNameKind| k@)))
}

/// The kinds of properties of a role.
pub fn property_kinds(role: MonitoringRole) -> (r: Vec<PropertyNameKind>)
    ensures
        r@.map_values(|k: PropertyNameKind| k@) == role_kinds(role),
{
    let mut kinds: Vec<PropertyNameKind> = Vec::new();
    match role {
        MonitoringRole::NodeExporter => {
            kinds.push(PropertyNameKind::Cli);
        },
        _ => {
            kinds.push(PropertyNameKind::File(String::from_str(PROMETHEUS_CONFIG_YAML)));
            kinds.push(PropertyNameKind::Cli);
        },
    }
    assert(kinds@.map_values(|k: PropertyNameKind| k@) =~= role_kinds(role));
    kinds
}

/// The roles that the cluster configures, each with the kinds of properties that
/// the product configuration validates for it.
pub fn roles_to_configure(spec: &MonitoringClusterSpec) -> (r: Vec<(MonitoringRole, Vec<PropertyNameKind>)>)
    ensures
        role_kinds_view(r@) == configured_roles(*spec).map_values(|role: MonitoringRole| (role, role_kinds(role))),
{
    let mut roles: Vec<(MonitoringRole, Vec<PropertyNameKind>)> = Vec::new();
    roles.push((MonitoringRole::PodAggregator, property_kinds(MonitoringRole::PodAggregator)));
    if spec.node_exporter.is_some() {
        roles.push((MonitoringRole::NodeExporter, property_kinds(MonitoringRole::NodeExporter)));
    }
    if spec.federation.is_some() {
        roles.push((MonitoringRole::Federation, property_kinds(MonitoringRole::Federation)));
    }
    assert(role_kinds_view(roles@) =~= configured_roles(*spec).map_values(|role: MonitoringRole| (role, role_kinds(role))));
    roles
}

/// The nodes of a role group that need a pod, as the caller found them: each
/// node's name, where its metadata has one.
#[derive(Clone, Debug, PartialEq, Eq)]
pub struct GroupNodes {
    pub role: MonitoringRole,
    pub group: String,
    pub node_names: Vec<Option<String>>,
}

/// Where the next pod goes.
#[derive(Clone, Debug, PartialEq, Eq)]
pub struct PodPlacement {
    pub role: MonitoringRole,
    pub group: String,
    pub node_name: String,
}

/// The next step towards running every pod.
#[derive(Clone, Debug, PartialEq, Eq)]
pub enum MissingPodsStep {
    /// Create the config maps and the pod for this placement, then requeue.
    CreatePod(PodPlacement),
    /// Every pod runs: make these status changes and go on.
    Finalize(Vec<StatusUpdate>),
}

/// The index of the first node with a name, from `start` on.
pub open spec fn first_named_node(nodes: Seq<Option<String>>, start: int) -> Option<int>
    decreases nodes.len() - start,
{
    if start < 0 || start >= nodes.len() {
        None
    } else if nodes[start] is Some {
        Some(start)
    } else {
        first_named_node(nodes, start + 1)
    }
}

/// The first group of `role`, from `start` on, with a named node that needs a
/// pod: the index of the group and of the node.
pub open spec fn first_in_role(groups: Seq<GroupNodes>, role: MonitoringRole, start: int) -> Option<(int, int)>
    decreases groups.len() - start,
{
    if start < 0 || start >= groups.len() {
        None
    } else if groups[start].role == role && first_named_node(groups[start].node_names@, 0) is Some {
        Some((start, first_named_node(groups[start].node_names@, 0)->Some_0))
    } else {
        first_in_role(groups, role, start + 1)
    }
}

/// Where the next pod goes: the roles are taken in the order in which they are
/// declared (pod aggregator, node exporter, federation); within a role, the
/// groups and their nodes in the order given.
pub open spec fn next_pod(groups: Seq<GroupNodes>) -> Option<(int, int)> {
    match first_in_role(groups, MonitoringRole::PodAggregator, 0) {
        Some(p) => Some(p),
        None => match first_in_role(groups, MonitoringRole::NodeExporter, 0) {
            Some(p) => Some(p),
            None => first_in_role(groups, MonitoringRole::Federation, 0),
        },
    }
}

/// The first node with a name.
fn first_named(nodes: &Vec<Option<String>>) -> (r: Option<usize>)
    ensures
        match r {
            Some(j) => first_named_node(nodes@, 0) == Some(j as int) && j < nodes@.len() && nodes@[j as int] is Some,
            None => first_named_node(nodes@, 0) is None,
        },
{
    for j in 0..nodes.len()
        invariant
            first_named_node(nodes@, 0) == first_named_node(nodes@, j as int),
    {
        if nodes[j].is_some() {
            return Some(j);
        }
    }
    None
}

/// The first group of `role` with a named node that needs a pod.
fn find_in_role(groups: &Vec<GroupNodes>, role: MonitoringRole) -> (r: Option<(usize, usize)>)
    ensures
        match r {
            Some((i, j)) => first_in_role(groups@, role, 0) == Some((i as int, j as int)) && i < groups@.len()
                && groups@[i as int].role == role && j < groups@[i as int].node_names@.len()
                && groups@[i as int].node_names@[j as int] is Some,
            None => first_in_role(groups@, role, 0) is None,
        },
{
    for i in 0..groups.len()
        invariant
            first_in_role(groups@, role, 0) == first_in_role(groups@, role, i as int),
    {
        if groups[i].role == role {
            if let Some(j) = first_named(&groups[i].node_names) {
                return Some((i, j));
            }
        }
    }
    None
}

/// The labels that pods must carry (with the values that they may have); pods
/// without them are deleted or replaced.
pub open spec fn required_labels_view(v: Seq<(String, Option<Vec<String>>)>) -> Seq<(Seq<char>, Option<Seq<Seq<char>>>)> {
    v.map_values(|e: (String, Option<Vec<String>>)| (e.0@, match e.1 {
        Some(values) => Some(texts(values@)),
        None => None,
    }))
}

/// The environment variables of a pod: every property with a non-empty name, in order.
pub open spec fn env_vars_of(entries: Seq<(Seq<char>, Seq<char>)>) -> Seq<(Seq<char>, Seq<char>)>
    decreases entries.len(),
{
    if entries.len() == 0 {
        Seq::empty()
    } else {
        let rest = env_vars_of(entries.drop_last());
        if entries.last().0.len() == 0 { rest } else { rest.push(entries.last()) }
    }
}

/// Every environment variable is one of the properties, before the `n`-th where
/// it is taken from the first `n`.
proof fn lemma_env_vars_from(entries: Seq<(Seq<char>, Seq<char>)>, i: int)
    requires
        0 <= i < env_vars_of(entries).len(),
    ensures
        exists|k: int| 0 <= k < entries.len() && env_vars_of(entries)[i] == entries[k],
    decreases entries.len(),
{
    let rest = env_vars_of(entries.drop_last());
    if i < rest.len() {
        lemma_env_vars_from(entries.drop_last(), i);
        let k = choose|k: int| 0 <= k < entries.drop_last().len() && rest[i] == entries.drop_last()[k];
        assert(env_vars_of(entries)[i] == entries[k]);
    } else {
        assert(env_vars_of(entries)[i] == entries[entries.len() - 1]);
    }
}

/// The environment variables of properties whose names increase have
/// increasing names too: they come in the order of their names.
proof fn lemma_env_vars_increasing(entries: Seq<(Seq<char>, Seq<char>)>)
    requires
        names_increasing(entries),
    ensures
        names_increasing(env_vars_of(entries)),
    decreases entries.len(),
{
    if entries.len() > 0 {
        let front = entries.drop_last();
        assert(names_increasing(front)) by {
            assert forall|i: int, j: int| 0 <= i < j < front.len() implies crate::text::name_less(#[trigger] front[i].0, #[trigger] front[j].0) by {
                assert(front[i] == entries[i] && front[j] == entries[j]);
            }
        }
        lemma_env_vars_increasing(front);
        let rest = env_vars_of(front);
        if entries.last().0.len() != 0 {
            let r = rest.push(entries.last());
            assert forall|i: int, j: int| 0 <= i < j < r.len() implies crate::text::name_less(#[trigger] r[i].0, #[trigger] r[j].0) by {
                if j == r.len() - 1 {
                    lemma_env_vars_from(front, i);
                    let k = choose|k: int| 0 <= k < front.len() && rest[i] == front[k];
                    assert(front[k] == entries[k]);
                    assert(entries[k].0 == r[i].0);
                } else {
                    assert(r[i] == rest[i] && r[j] == rest[j]);
                }
            }
        }
    }
}

/// The port that Prometheus serves on, or that the node exporter is scraped on:
/// the web UI port where the command line properties hold one, else the node
/// metrics port, else 9090.
pub open spec fn scrape_port_of(cli: Option<Seq<(Seq<char>, Seq<char>)>>) -> Seq<char> {
    match cli {
        Some(c) => match lookup(c, PROM_WEB_UI_PORT@) {
            Some(p) => p,
            None => match lookup(c, NODE_METRICS_PORT@) {
                Some(p) => p,
                None => "9090"@,
            },
        },
        None => "9090"@,
    }
}

/// The container of a pod, as the caller builds it.
#[derive(Clone, Debug, PartialEq, Eq)]
pub struct ContainerSpec {
    pub name: String,
    pub image: String,
    pub command: Vec<String>,
    pub args: Vec<String>,
    pub env_vars: Vec<(String, String)>,
    pub container_ports: Vec<ContainerPort>,
    /// The config map mounted into the container, and the directory it is mounted at.
    pub config_map_volume: Option<(String, String)>,
}

/// The environment variables of a pod: every property with a non-empty name, in order.
fn env_vars(env: Option<&Properties>) -> (r: Vec<(String, String)>)
    ensures
        r@.map_values(|e: (String, String)| (e.0@, e.1@)) == match env {
            Some(p) => env_vars_of(p@),
            None => Seq::empty(),
        },
        names_increasing(r@.map_values(|e: (String, String)| (e.0@, e.1@))),
{
    let mut vars: Vec<(String, String)> = Vec::new();
    if let Some(config) = env {
        assert(config@.take(0) =~= Seq::<(Seq<char>, Seq<char>)>::empty());
        let n = config.len();
        for i in 0..n
            invariant
                n == config@.len(),
                vars@.map_values(|e: (String, String)| (e.0@, e.1@)) == env_vars_of(config@.take(i as int)),
        {
            let (property_name, property_value) = config.entry(i);
            assert(config@.take(i + 1).drop_last() =~= config@.take(i as int));
            if property_name.as_str().is_empty() {
                assert(property_name@.len() == 0);
            } else {
                assert(property_name@.len() != 0);
                let ghost before = vars@;
                vars.push((property_name.clone(), property_value.clone()));
                assert(vars@.map_values(|e: (String, String)| (e.0@, e.1@)) =~= before.map_values(|e: (String, String)| (e.0@, e.1@)).push(config@[i as int]));
            }
        }
        assert(config@.take(config@.len() as int) =~= config@);
        proof {
            lemma_env_vars_increasing(config@);
        }
    } else {
        assert(vars@.map_values(|e: (String, String)| (e.0@, e.1@)) =~= Seq::<(Seq<char>, Seq<char>)>::empty());
    }
    vars
}

/// The scrape port, as `scrape_port_of` gives it.
fn scrape_port(cli: Option<&Properties>) -> (r: String)
    ensures
        r@ == scrape_port_of(match cli {
            Some(p) => Some(p@),
            None => None,
        }),
{
    if let Some(config) = cli {
        if let Some(port) = config.get(PROM_WEB_UI_PORT) {
            return port.clone();
        } else if let Some(port) = config.get(NODE_METRICS_PORT) {
            return port.clone();
        }
    }
    String::from_str("9090")
}

/// The template data of the pod aggregator of `cluster` on node `node_name` of
/// `namespace`, for the validated file properties `config`.
pub open spec fn pod_aggregator_data(
    cluster: MonitoringCluster,
    group: Seq<char>,
    namespace: Seq<char>,
    node_name: Seq<char>,
    config: Seq<(Seq<char>, Seq<char>)>,
) -> NodepodsTemplateData {
    data_with_node_exporter_labels(
        data_with_node_exporter(
            data_with_config(nodepods_defaults(namespace, node_name), config),
            cluster.spec.metrics_port_of(group),
        ),
        cluster.name@,
        node_name,
        cluster.namespace@,
    )
}

/// The Prometheus configuration that a config map holds.
#[derive(Clone, Debug, PartialEq, Eq)]
pub enum ConfigContent {
    /// The pods' configuration, rendered from this data.
    PodAggregator(NodepodsTemplateDataBuilder),
    /// The federation's configuration, rendered from this data.
    Federation(FederationTemplateDataBuilder),
    /// No configuration: the file is empty.
    Empty,
}

/// A config map's content by its plain template data.
pub enum ConfigContentView {
    PodAggregator(NodepodsTemplateData),
    Federation(FederationTemplateData),
    Empty,
}

impl View for ConfigContent {
    type V = ConfigContentView;

    open spec fn view(&self) -> ConfigContentView {
        match self {
            ConfigContent::PodAggregator(d) => ConfigContentView::PodAggregator(d@),
            ConfigContent::Federation(d) => ConfigContentView::Federation(d@),
            ConfigContent::Empty => ConfigContentView::Empty,
        }
    }
}

/// What the config map of a pod of `role` holds, given validated file
/// properties `config`: each Prometheus role renders its own template; the node
/// exporter has no configuration.
pub open spec fn config_content_of(
    cluster: MonitoringCluster,
    role: MonitoringRole,
    group: Seq<char>,
    namespace: Seq<char>,
    node_name: Seq<char>,
    config: Seq<(Seq<char>, Seq<char>)>,
) -> ConfigContentView {
    match role {
        MonitoringRole::PodAggregator => ConfigContentView::PodAggregator(
            pod_aggregator_data(cluster, group, namespace, node_name, config),
        ),
        MonitoringRole::Federation => ConfigContentView::Federation(
            federation_with_config(federation_defaults(namespace), config),
        ),
        MonitoringRole::NodeExporter => ConfigContentView::Empty,
    }
}

/// What the reconciliation knows of the cluster that it works on.
#[derive(Debug, PartialEq, Eq)]
pub struct MonitoringState {
    pub resource: MonitoringCluster,
}

impl MonitoringState {
    /// Required labels for pods. Pods without any of these will deleted and/or replaced.
    /// The component may be any role, the instance is the cluster, the version is
    /// the version of the spec.
    pub fn get_required_labels(&self) -> (r: Vec<(String, Option<Vec<String>>)>)
        ensures
            required_labels_view(r@) == seq![
                (APP_COMPONENT_LABEL@, Some(all_role_names())),
                (APP_INSTANCE_LABEL@, Some(seq![self.resource.name@])),
                (APP_VERSION_LABEL@, Some(seq![self.resource.spec.version.text()])),
            ],
    {
        let all = MonitoringRole::iter();
        let mut roles: Vec<String> = Vec::new();
        for i in 0..all.len()
            invariant
                all@ == crate::crd::all_roles(),
                texts(roles@) == crate::crd::all_roles().take(i as int).map_values(|r: MonitoringRole| r.name()),
        {
            let ghost before = roles@;
            roles.push(all[i].to_string());
            assert(texts(roles@) =~= texts(before).push(all@[i as int].name()));
            assert(crate::crd::all_roles().take(i + 1) =~= crate::crd::all_roles().take(i as int).push(all@[i as int]));
        }
        assert(crate::crd::all_roles().take(3) =~= crate::crd::all_roles());
        let mut instance: Vec<String> = Vec::new();
        instance.push(self.resource.name.clone());
        let mut version: Vec<String> = Vec::new();
        version.push(self.resource.spec.version.to_string());
        let mut mandatory_labels: Vec<(String, Option<Vec<String>>)> = Vec::new();
        mandatory_labels.push((String::from_str(APP_COMPONENT_LABEL), Some(roles)));
        mandatory_labels.push((String::from_str(APP_INSTANCE_LABEL), Some(instance)));
        mandatory_labels.push((String::from_str(APP_VERSION_LABEL), Some(version)));
        assert(texts(instance@) =~= seq![self.resource.name@]);
        assert(texts(version@) =~= seq![self.resource.spec.version.text()]);
        assert(required_labels_view(mandatory_labels@) =~= seq![
            (APP_COMPONENT_LABEL@, Some(all_role_names())),
            (APP_INSTANCE_LABEL@, Some(seq![self.resource.name@])),
            (APP_VERSION_LABEL@, Some(seq![self.resource.spec.version.text()])),
        ]);
        mandatory_labels
    }

    /// The template data of the pod aggregator's Prometheus configuration on node
    /// `node_name` of `namespace`: the scrape settings that the validated file
    /// properties hold, the node exporter where the group of that role has a
    /// metrics port, and the node exporter's metrics labelled with this cluster,
    /// the node and the cluster's namespace.
    pub fn pod_aggregator_template_data(
        &self,
        group: &str,
        namespace: &str,
        node_name: &str,
        config: &Properties,
    ) -> (r: NodepodsTemplateDataBuilder)
        ensures
            r@ == pod_aggregator_data(self.resource, group@, namespace@, node_name@, config@),
    {
        let node_exporter_metrics_port = self.resource.spec.node_exporter_metrics_port(group);
        let mut data = NodepodsTemplateDataBuilder::new_with_namespace_and_node_name(namespace, node_name);
        data.with_config(config);
        data.with_node_exporter(node_exporter_metrics_port);
        data.with_node_exporter_labels(self.resource.name.as_str(), node_name, self.resource.namespace.as_str());
        data
    }

    /// The template data of the federation's Prometheus configuration in
    /// `namespace`: the scrape settings that the validated file properties hold.
    pub fn federation_template_data(&self, namespace: &str, config: &Properties) -> (r: FederationTemplateDataBuilder)
        ensures
            r@ == federation_with_config(federation_defaults(namespace@), config@),
    {
        let mut data = FederationTemplateDataBuilder::new_with_namespace(namespace);
        data.with_config(config);
        data
    }

    /// What the config map of a pod holds, for the validated properties of the
    /// Prometheus configuration file (`file`): without such properties there is
    /// no config map (`None`); the pod aggregator's holds the configuration
    /// rendered from its template data, the federation's the configuration
    /// rendered from the federation template data, and the node exporter's an
    /// empty configuration.
    pub fn config_content_plan(
        &self,
        role: &MonitoringRole,
        group: &str,
        namespace: &str,
        node_name: &str,
        file: Option<&Properties>,
    ) -> (r: Option<ConfigContent>)
        ensures
            r is Some == file is Some,
            r is Some ==> r->Some_0@ == config_content_of(self.resource, *role, group@, namespace@, node_name@, file->Some_0@),
    {
        match file {
            None => None,
            Some(config) => Some(
                match role {
                    MonitoringRole::PodAggregator => ConfigContent::PodAggregator(
                        self.pod_aggregator_template_data(group, namespace, node_name, config),
                    ),
                    MonitoringRole::Federation => ConfigContent::Federation(self.federation_template_data(namespace, config)),
                    MonitoringRole::NodeExporter => ConfigContent::Empty,
                },
            ),
        }
    }

    /// The status changes that start a reconciliation.
    pub fn init_status(&self) -> (r: Vec<StatusUpdate>)
        ensures
            updates_view(r@) == init_status_plan(self.resource.status, self.resource.spec.version),
    {
        init_status(&self.resource.status, &self.resource.spec.version)
    }

    /// The next step towards running every pod: a pod on the first node that
    /// needs one and has a name, the roles taken in their declared order; where
    /// there is none, every pod runs and the status moves to the target version.
    pub fn create_missing_pods(&self, groups: &Vec<GroupNodes>) -> (r: Result<MissingPodsStep, Error>)
        ensures
            match next_pod(groups@) {
                Some((i, j)) => r is Ok && r->Ok_0 is CreatePod && r->Ok_0->CreatePod_0.role == groups@[i].role
                    && r->Ok_0->CreatePod_0.group@ == groups@[i].group@
                    && r->Ok_0->CreatePod_0.node_name@ == groups@[i].node_names@[j]->Some_0@,
                None => match self.resource.status {
                    Some(s) => r is Ok && r->Ok_0 is Finalize
                        && updates_view(r->Ok_0->Finalize_0@) == finalize_version_updates(s.target_version),
                    None => r is Err && r->Err_0 is ReconcileError
                        && r->Err_0->ReconcileError_0@ == status_missing_message(),
                },
            },
    {
        let all = MonitoringRole::iter();
        for k in 0..all.len()
            invariant
                all@ == crate::crd::all_roles(),
                forall|m: int| 0 <= m < k ==> first_in_role(groups@, #[trigger] all@[m], 0) is None,
        {
            if let Some((i, j)) = find_in_role(groups, all[k]) {
                assert(all@[0] == MonitoringRole::PodAggregator && all@[1] == MonitoringRole::NodeExporter);
                if let Some(node_name) = &groups[i].node_names[j] {
                    return Ok(MissingPodsStep::CreatePod(PodPlacement {
                        role: groups[i].role,
                        group: groups[i].group.clone(),
                        node_name: node_name.clone(),
                    }));
                }
            }
        }
        assert(first_in_role(groups@, all@[0], 0) is None && first_in_role(groups@, all@[1], 0) is None
            && first_in_role(groups@, all@[2], 0) is None);
        match finalize_status(&self.resource.status) {
            Ok(updates) => Ok(MissingPodsStep::Finalize(updates)),
            Err(e) => Err(e),
        }
    }

    /// The container of the pod of `role` and `group`: the image, command and
    /// arguments of the role (the user's arguments last), the environment
    /// variables, and the ports on the scrape port; the Prometheus servers also
    /// mount their config map, which must exist and have a name.
    ///
    /// `config_map_name` is the config map of type `config` made for the pod, if
    /// any, by its name, if it has one.
    pub fn pod_container(
        &self,
        role: &MonitoringRole,
        group: &str,
        env: Option<&Properties>,
        cli: Option<&Properties>,
        config_map_name: Option<Option<String>>,
        pod_name: String,
    ) -> (r: Result<ContainerSpec, Error>)
        ensures
            ({
                let port = scrape_port_of(match cli { Some(p) => Some(p@), None => None });
                match u16_text_value(port) {
                    None => r is Err && r->Err_0 is CrdModuleError && r->Err_0->source is InvalidPort,
                    Some(port_number) => if *role != MonitoringRole::NodeExporter && config_map_name is None {
                        r is Err && r->Err_0 is MissingConfigMapError
                            && r->Err_0->MissingConfigMapError_cm_type@ == CONFIG_MAP_TYPE_CONFIG@
                            && r->Err_0->pod_name@ == pod_name@
                    } else if *role != MonitoringRole::NodeExporter && config_map_name == Some(None::<String>) {
                        r is Err && r->Err_0 is MissingConfigMapNameError
                            && r->Err_0->MissingConfigMapNameError_cm_type@ == CONFIG_MAP_TYPE_CONFIG@
                    } else {
                        r is Ok && {
                            let c = r->Ok_0;
                            &&& c.name@ == APP_NAME@
                            &&& c.image@ == role.image_text(self.resource.spec.version)
                            &&& texts(c.command@) == role.command_texts(self.resource.spec.version)
                            &&& texts(c.args@) == role.args_texts(port, texts(self.resource.spec.cli_args_of(*role, group@)))
                            &&& c.env_vars@.map_values(|e: (String, String)| (e.0@, e.1@)) == match env {
                                Some(p) => env_vars_of(p@),
                                None => Seq::empty(),
                            }
                            &&& names_increasing(c.env_vars@.map_values(|e: (String, String)| (e.0@, e.1@)))
                            &&& c.container_ports@.len() == role.port_names().len()
                            &&& forall|i: int| 0 <= i < c.container_ports@.len() ==> (#[trigger] c.container_ports@[i]).container_port == port_number
                                && c.container_ports@[i].name@ == role.port_names()[i]
                            &&& if *role == MonitoringRole::NodeExporter {
                                c.config_map_volume is None
                            } else {
                                c.config_map_volume is Some && c.config_map_volume->Some_0.0@ == config_map_name->Some_0->Some_0@
                                    && c.config_map_volume->Some_0.1@ == CONFIG_DIR@
                            }
                        }
                    },
                }
            }),
    {
        let env_vars = env_vars(env);
        let scrape_port = scrape_port(cli);
        let version = &self.resource.spec.version;
        let cli_args = self.resource.spec.cli_args(role, group);
        let image = role.image(version);
        let command = role.command(version);
        let args = role.args(scrape_port.as_str(), cli_args);
        let container_ports = match role.container_ports(scrape_port.as_str()) {
            Ok(ports) => ports,
            Err(source) => { return Err(Error::CrdModuleError { source }); },
        };
        let mut config_map_volume: Option<(String, String)> = None;
        if *role != MonitoringRole::NodeExporter {
            match config_map_name {
                Some(Some(name)) => {
                    config_map_volume = Some((name, String::from_str(CONFIG_DIR)));
                },
                Some(None) => {
                    return Err(Error::MissingConfigMapNameError { cm_type: CONFIG_MAP_TYPE_CONFIG });
                },
                None => {
                    return Err(Error::MissingConfigMapError { cm_type: CONFIG_MAP_TYPE_CONFIG, pod_name });
                },
            }
        }
        Ok(ContainerSpec {
            name: String::from_str(APP_NAME),
            image,
            command,
            args,
            env_vars,
            container_ports,
            config_map_volume,
        })
    }
}

/// The names of all roles, in order.
pub open spec fn all_role_names() -> Seq<Seq<char>> {
    crate::crd::all_roles().map_values(|r: MonitoringRole| r.name())
}

} // verus!
